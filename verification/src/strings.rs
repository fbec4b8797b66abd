//! Character-level helpers shared by the interchange formats.

use vstd::prelude::*;
use vstd::std_specs::iter::IteratorSpec;

verus! {

/// The part of `s` after its last `':'`, or all of `s` when it has none.
/// This is what `str::rsplit(':').next()` yields.
pub open spec fn after_last_colon(s: Seq<char>) -> Seq<char>
    decreases s.len(),
{
    if s.len() == 0 {
        s
    } else if s.last() == ':' {
        Seq::empty()
    } else {
        after_last_colon(s.drop_last()).push(s.last())
    }
}

/// Two strings are equal, compared character by character.
pub fn str_eq(a: &str, b: &str) -> (r: bool)
    ensures
        r == (a@ == b@),
{
    let n = a.unicode_len();
    let m = b.unicode_len();
    if n != m {
        return false;
    }
    let mut i: usize = 0;
    while i < n
        invariant
            n == a@.len(),
            m == b@.len(),
            n == m,
            i <= n,
            forall|j: int| 0 <= j < i ==> a@[j] == b@[j],
        decreases n - i,
    {
        if a.get_char(i) != b.get_char(i) {
            assert(a@[i as int] != b@[i as int]);
            return false;
        }
        i = i + 1;
    }
    assert(a@ =~= b@);
    true
}

/// A string without `':'` is its own suffix after the last colon.
pub proof fn lemma_after_last_colon_no_colon(s: Seq<char>)
    requires
        forall|i: int| 0 <= i < s.len() ==> s[i] != ':',
    ensures
        after_last_colon(s) == s,
    decreases s.len(),
{
    if s.len() > 0 {
        lemma_after_last_colon_no_colon(s.drop_last());
        assert(s.drop_last().push(s.last()) =~= s);
    }
}

/// The suffix after the last colon holds no colon.
pub proof fn lemma_after_last_colon_has_no_colon(s: Seq<char>)
    ensures
        forall|i: int| 0 <= i < after_last_colon(s).len() ==> after_last_colon(s)[i] != ':',
    decreases s.len(),
{
    if s.len() > 0 {
        lemma_after_last_colon_has_no_colon(s.drop_last());
        if s.last() != ':' {
            let p = after_last_colon(s.drop_last());
            assert forall|i: int| 0 <= i < p.push(s.last()).len() implies p.push(s.last())[i] != ':' by {
                if i < p.len() {
                    assert(p.push(s.last())[i] == p[i]);
                }
            }
        }
    }
}

/// Taking the suffix after the last colon twice is taking it once.
pub proof fn lemma_after_last_colon_idempotent(s: Seq<char>)
    ensures
        after_last_colon(after_last_colon(s)) == after_last_colon(s),
{
    lemma_after_last_colon_has_no_colon(s);
    lemma_after_last_colon_no_colon(after_last_colon(s));
}

proof fn lemma_after_last_colon_step(s: Seq<char>, i: int)
    requires
        0 < i <= s.len(),
        s[i - 1] != ':',
    ensures
        after_last_colon(s.subrange(0, i)) == after_last_colon(s.subrange(0, i - 1)).push(s[i - 1]),
{
    assert(s.subrange(0, i).drop_last() =~= s.subrange(0, i - 1));
}

/// The substring after the last `':'` of `s` (all of `s` when it has none).
pub fn suffix_after_colon(s: &str) -> (r: &str)
    ensures
        r@ == after_last_colon(s@),
{
    let n = s.unicode_len();
    let mut i: usize = n;
    proof {
        assert(s@.subrange(0, n as int) =~= s@);
        assert(s@.subrange(n as int, n as int) =~= Seq::<char>::empty());
        assert(after_last_colon(s@) + Seq::<char>::empty() =~= after_last_colon(s@));
    }
    while i > 0 && s.get_char(i - 1) != ':'
        invariant
            n == s@.len(),
            i <= n,
            after_last_colon(s@) == after_last_colon(s@.subrange(0, i as int)) + s@.subrange(
                i as int,
                n as int,
            ),
        decreases i,
    {
        proof {
            lemma_after_last_colon_step(s@, i as int);
            assert(s@.subrange(i - 1, n as int) =~= seq![s@[i - 1]] + s@.subrange(i as int, n as int));
            assert(after_last_colon(s@.subrange(0, i - 1)).push(s@[i - 1]) + s@.subrange(i as int, n as int)
                =~= after_last_colon(s@.subrange(0, i - 1)) + s@.subrange(i - 1, n as int));
        }
        i = i - 1;
    }
    proof {
        if i > 0 {
            assert(s@.subrange(0, i as int).last() == ':');
        } else {
            assert(s@.subrange(0, 0) =~= Seq::<char>::empty());
        }
        assert(after_last_colon(s@.subrange(0, i as int)) =~= Seq::<char>::empty());
        assert(after_last_colon(s@) =~= s@.subrange(i as int, n as int));
    }
    s.substring_char(i, n)
}

/// The characters of `s`, in order.
pub fn chars_of(s: &str) -> (r: Vec<char>)
    ensures
        r@ == s@,
{
    broadcast use vstd::string::axiom_spec_iter, vstd::string::next_postcondition;
    let mut r: Vec<char> = Vec::new();
    let mut it = s.chars();
    loop
        invariant
            r@ + it.remaining() == s@,
            it.decrease() is Some,
        ensures
            r@ == s@,
        decreases it.decrease()->0,
    {
        let ghost before = it.remaining();
        match it.next() {
            Some(c) => {
                proof {
                    assert(r@.push(c) + before.drop_first() =~= r@ + before);
                }
                r.push(c);
            },
            None => {
                assert(r@ =~= s@);
                break;
            },
        }
    }
    r
}

} // verus!
