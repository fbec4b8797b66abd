//! Names in the syntax tree: simple names, short names, qualified names
//! and prefix metadata, and the text helpers they use.

use vstd::prelude::*;
use crate::strings::chars_of;
use crate::format::concat_str;
use crate::syntax::{
    bytes_before, children_passing, children_where, entry_range, entry_text, lemma_children_passing_in_tree, token_bytes, has_child_token, has_token, first_child_passing, first_child_where, text_at, ChildFilter, SyntaxNode, SyntaxTree};
use crate::syntax_kind::SyntaxKind;

verus! {

/// `s` without the single quotes of an unrestricted name `'...'`; other
/// text unchanged.
pub open spec fn strip_unrestricted(s: Seq<char>) -> Seq<char> {
    if s.len() >= 2 && s[0] == '\'' && s.last() == '\'' {
        s.subrange(1, s.len() - 1)
    } else {
        s
    }
}

/// `text` without the quotes of an unrestricted name.
pub fn strip_unrestricted_name(text: &str) -> (r: String)
    ensures
        r@ == strip_unrestricted(text@),
{
    let n = text.unicode_len();
    if n >= 2 && text.get_char(0) == '\'' && text.get_char(n - 1) == '\'' {
        String::from_str(text.substring_char(1, n - 1))
    } else {
        String::from_str(text)
    }
}

/// The text of the name tokens `cs`, each stripped of unrestricted quotes.
pub open spec fn segment_texts(t: SyntaxTree, cs: Seq<usize>) -> Seq<Seq<char>> {
    cs.map_values(|c: usize| strip_unrestricted(text_at(t, c as int)))
}

/// The parts joined, with `sep` between each two.
pub open spec fn joined(parts: Seq<Seq<char>>, sep: Seq<char>) -> Seq<char>
    decreases parts.len(),
{
    if parts.len() == 0 {
        Seq::empty()
    } else if parts.len() == 1 {
        parts[0]
    } else {
        joined(parts.drop_last(), sep) + sep + parts.last()
    }
}

/// The text of the first child token of `n` chosen by `f`, if any.
pub open spec fn first_token_text(t: SyntaxTree, n: int, f: ChildFilter) -> Option<Seq<char>> {
    match first_child_passing(t, n, f) {
        Some(c) => Some(text_at(t, c as int)),
        None => None,
    }
}

/// A simple name (`NAME` node).
#[derive(Debug, Clone, Copy)]
pub struct Name<'a>(pub SyntaxNode<'a>);

/// A short name `<...>` (`SHORT_NAME` node).
#[derive(Debug, Clone, Copy)]
pub struct ShortName<'a>(pub SyntaxNode<'a>);

/// A qualified name `a::b` or feature chain `a.b` (`QUALIFIED_NAME` node).
#[derive(Debug, Clone, Copy)]
pub struct QualifiedName<'a>(pub SyntaxNode<'a>);

/// Prefix metadata `#name` (`PREFIX_METADATA` node).
#[derive(Debug, Clone, Copy)]
pub struct PrefixMetadata<'a>(pub SyntaxNode<'a>);

impl<'a> Name<'a> {
    /// The text of the name's first name token.
    pub fn text(&self) -> (r: Option<String>)
        ensures
            r matches Some(s) ==> first_token_text(
                *self.0.tree,
                self.0.index as int,
                ChildFilter::NameToken,
            ) == Some(s@),
            r is None ==> first_token_text(*self.0.tree, self.0.index as int, ChildFilter::NameToken)
                is None,
    {
        match first_child_where(self.0.tree, self.0.index, ChildFilter::NameToken) {
            Some(c) => Some(entry_text(self.0.tree, c)),
            None => None,
        }
    }
}

impl<'a> ShortName<'a> {
    /// The text of the short name's first name token, without unrestricted
    /// quotes.
    pub fn text(&self) -> (r: Option<String>)
        ensures
            r matches Some(s) ==> (first_token_text(
                *self.0.tree,
                self.0.index as int,
                ChildFilter::NameToken,
            ) matches Some(x) && s@ == strip_unrestricted(x)),
            r is None ==> first_token_text(*self.0.tree, self.0.index as int, ChildFilter::NameToken)
                is None,
    {
        match first_child_where(self.0.tree, self.0.index, ChildFilter::NameToken) {
            Some(c) => {
                let s = entry_text(self.0.tree, c);
                Some(strip_unrestricted_name(s.as_str()))
            },
            None => None,
        }
    }
}

impl<'a> QualifiedName<'a> {
    /// The name segments: the text of each name token, in order, without
    /// unrestricted quotes. Separators are not segments.
    pub fn segments(&self) -> (r: Vec<String>)
        ensures
            r@.map_values(|s: String| s@) == segment_texts(
                *self.0.tree,
                children_passing(*self.0.tree, self.0.index as int, ChildFilter::NameToken),
            ),
    {
        let toks = children_where(self.0.tree, self.0.index, ChildFilter::NameToken);
        let ghost t = *self.0.tree;
        let mut r: Vec<String> = Vec::new();
        let mut i: usize = 0;
        while i < toks.len()
            invariant
                t == *self.0.tree,
                i <= toks.len(),
                r@.map_values(|s: String| s@) == segment_texts(t, toks@.take(i as int)),
            decreases toks.len() - i,
        {
            let txt = entry_text(self.0.tree, toks[i]);
            let seg = strip_unrestricted_name(txt.as_str());
            let ghost before = r@;
            proof {
                assert(toks@.take(i + 1) =~= toks@.take(i as int).push(toks@[i as int]));
                assert(segment_texts(t, toks@.take(i + 1)) =~= segment_texts(t, toks@.take(i as int)).push(
                    strip_unrestricted(text_at(t, toks@[i as int] as int)),
                ));
            }
            r.push(seg);
            proof {
                assert(r@ =~= before.push(seg));
                assert(r@.map_values(|s: String| s@) =~= before.map_values(|s: String| s@).push(seg@));
            }
            i = i + 1;
        }
        assert(toks@.take(toks@.len() as int) =~= toks@);
        r
    }

    /// The name as text: its segments joined by `.` when the name has a
    /// `.` (a feature chain), else by `::`.
    pub fn to_string_inner(&self) -> (r: String)
        ensures
            r@ == joined(
                segment_texts(*self.0.tree, children_passing(*self.0.tree, self.0.index as int, ChildFilter::NameToken)),
                if has_token(*self.0.tree, self.0.index as int, SyntaxKind::DOT) { "."@ } else { "::"@ },
            ),
    {
        let has_dot = has_child_token(self.0.tree, self.0.index, SyntaxKind::DOT);
        let sep: &str = if has_dot { "." } else { "::" };
        let segs = self.segments();
        let ghost parts = segs@.map_values(|s: String| s@);
        let mut r = String::new();
        let mut i: usize = 0;
        while i < segs.len()
            invariant
                i <= segs@.len(),
                parts == segs@.map_values(|s: String| s@),
                r@ == joined(parts.take(i as int), sep@),
            decreases segs.len() - i,
        {
            proof {
                assert(parts.take(i + 1).drop_last() =~= parts.take(i as int));
            }
            if i == 0 {
                r = String::from_str(segs[i].as_str());
                assert(parts.take(1) =~= seq![parts[0]]);
            } else {
                let with_sep = concat_str(r.as_str(), sep);
                r = concat_str(with_sep.as_str(), segs[i].as_str());
            }
            i = i + 1;
        }
        assert(parts.take(parts.len() as int) =~= parts);
        proof {
            reveal_strlit(".");
            reveal_strlit("::");
        }
        r
    }
}

/// The byte range of each name token among `cs`, with its segment text.
pub open spec fn ranged_segments(t: SyntaxTree, cs: Seq<usize>) -> Seq<(Seq<char>, (int, int))> {
    cs.map_values(|c: usize| (
        strip_unrestricted(text_at(t, c as int)),
        (bytes_before(t, c as int) as int, (bytes_before(t, c as int) + token_bytes(t, c as int)) as int),
    ))
}

impl<'a> QualifiedName<'a> {
    /// The name segments with the byte range of the token that spells
    /// each, in order.
    pub fn segments_with_ranges(&self) -> (r: Vec<(String, (usize, usize))>)
        requires
            bytes_before(*self.0.tree, self.0.tree.entries@.len() as int) <= usize::MAX,
        ensures
            r@.map_values(|p: (String, (usize, usize))| (p.0@, (p.1.0 as int, p.1.1 as int))) == ranged_segments(
                *self.0.tree,
                children_passing(*self.0.tree, self.0.index as int, ChildFilter::NameToken),
            ),
    {
        let toks = children_where(self.0.tree, self.0.index, ChildFilter::NameToken);
        let ghost t = *self.0.tree;
        proof {
            lemma_children_passing_in_tree(t, self.0.index as int, ChildFilter::NameToken);
        }
        let mut r: Vec<(String, (usize, usize))> = Vec::new();
        let mut i: usize = 0;
        while i < toks.len()
            invariant
                t == *self.0.tree,
                i <= toks.len(),
                toks@ == children_passing(t, self.0.index as int, ChildFilter::NameToken),
                forall|k: int| 0 <= k < toks@.len() ==> #[trigger] toks@[k] < t.entries@.len(),
                bytes_before(t, t.entries@.len() as int) <= usize::MAX,
                r@.map_values(|p: (String, (usize, usize))| (p.0@, (p.1.0 as int, p.1.1 as int))) == ranged_segments(t, toks@.take(i as int)),
            decreases toks.len() - i,
        {
            let c = toks[i];
            let txt = entry_text(self.0.tree, c);
            let seg = strip_unrestricted_name(txt.as_str());
            let range = entry_range(self.0.tree, c);
            let ghost before = r@;
            r.push((seg, range));
            proof {
                assert(toks@.take(i + 1) =~= toks@.take(i as int).push(c));
                assert(r@ =~= before.push((seg, range)));
                assert(seg@ == strip_unrestricted(text_at(t, c as int)));
                let item = (seg@, (range.0 as int, range.1 as int));
                assert(r@.map_values(|p: (String, (usize, usize))| (p.0@, (p.1.0 as int, p.1.1 as int))) =~= before.map_values(
                    |p: (String, (usize, usize))| (p.0@, (p.1.0 as int, p.1.1 as int)),
                ).push(item));
                assert(ranged_segments(t, toks@.take(i + 1)) =~= ranged_segments(t, toks@.take(i as int)).push(item));
            }
            i = i + 1;
        }
        assert(toks@.take(toks@.len() as int) =~= toks@);
        r
    }
}

impl<'a> PrefixMetadata<'a> {
    /// The byte range of the first identifier token: the metadata name.
    pub fn name_range(&self) -> (r: Option<(usize, usize)>)
        requires
            bytes_before(*self.0.tree, self.0.tree.entries@.len() as int) <= usize::MAX,
        ensures
            match first_child_passing(*self.0.tree, self.0.index as int, ChildFilter::TokenOf(SyntaxKind::IDENT)) {
                Some(c) => r == Some((bytes_before(*self.0.tree, c as int) as usize,
                    (bytes_before(*self.0.tree, c as int) + token_bytes(*self.0.tree, c as int)) as usize)),
                None => r is None,
            },
    {
        match first_child_where(self.0.tree, self.0.index, ChildFilter::TokenOf(SyntaxKind::IDENT)) {
            Some(c) => {
                proof {
                    lemma_children_passing_in_tree(*self.0.tree, self.0.index as int, ChildFilter::TokenOf(SyntaxKind::IDENT));
                    crate::syntax::lemma_first_child_passing(*self.0.tree, self.0.index as int, ChildFilter::TokenOf(SyntaxKind::IDENT));
                }
                Some(entry_range(self.0.tree, c))
            },
            None => None,
        }
    }

    /// The metadata name: the text of the first identifier token.
    pub fn name(&self) -> (r: Option<String>)
        ensures
            r matches Some(s) ==> first_token_text(
                *self.0.tree,
                self.0.index as int,
                ChildFilter::TokenOf(SyntaxKind::IDENT),
            ) == Some(s@),
            r is None ==> first_token_text(
                *self.0.tree,
                self.0.index as int,
                ChildFilter::TokenOf(SyntaxKind::IDENT),
            ) is None,
    {
        match first_child_where(self.0.tree, self.0.index, ChildFilter::TokenOf(SyntaxKind::IDENT)) {
            Some(c) => Some(entry_text(self.0.tree, c)),
            None => None,
        }
    }
}

/// The value of the decimal digits `d`.
pub open spec fn digits_value(d: Seq<char>) -> int
    decreases d.len(),
{
    if d.len() == 0 {
        0
    } else {
        digits_value(d.drop_last()) * 10 + (d.last() as int - '0' as int)
    }
}

/// Whether every character of `d` is an ASCII digit.
pub open spec fn all_digits(d: Seq<char>) -> bool {
    forall|i: int| 0 <= i < d.len() ==> '0' <= #[trigger] d[i] <= '9'
}

/// The digits of a `u64` literal: `s` without one leading `+` when more follows.
pub open spec fn unsigned_digits(s: Seq<char>) -> Seq<char> {
    if s.len() > 1 && s[0] == '+' {
        s.drop_first()
    } else {
        s
    }
}

/// What `str::parse::<u64>` gives: the value of a non-empty run of decimal
/// digits, optionally after `+`, that fits in 64 bits.
pub open spec fn parse_u64(s: Seq<char>) -> Option<u64> {
    let d = unsigned_digits(s);
    if d.len() > 0 && all_digits(d) && digits_value(d) <= u64::MAX {
        Some(digits_value(d) as u64)
    } else {
        None
    }
}

pub proof fn lemma_digits_value_monotone(d: Seq<char>, i: int)
    requires
        0 <= i <= d.len(),
        all_digits(d),
    ensures
        0 <= digits_value(d.take(i)) <= digits_value(d),
    decreases d.len() - i,
{
    if i < d.len() {
        lemma_digits_value_monotone(d, i + 1);
        assert(d.take(i + 1).drop_last() =~= d.take(i));
        assert('0' <= d[i] <= '9');
        lemma_digits_value_nonneg(d.take(i));
    } else {
        assert(d.take(i) =~= d);
        lemma_digits_value_nonneg(d);
    }
}

pub proof fn lemma_digits_value_nonneg(d: Seq<char>)
    requires
        all_digits(d),
    ensures
        0 <= digits_value(d),
    decreases d.len(),
{
    if d.len() > 0 {
        assert(all_digits(d.drop_last())) by {
            assert forall|i: int| 0 <= i < d.drop_last().len() implies '0' <= #[trigger] d.drop_last()[i]
                <= '9' by {
                assert(d.drop_last()[i] == d[i]);
            }
        }
        lemma_digits_value_nonneg(d.drop_last());
        assert('0' <= d[d.len() - 1] <= '9');
    }
}

/// `text` read as a `u64`, as `str::parse::<u64>` reads it.
pub fn parse_u64_text(text: &str) -> (r: Option<u64>)
    ensures
        r == parse_u64(text@),
{
    let cs = chars_of(text);
    let start: usize = if cs.len() > 1 && cs[0] == '+' {
        1
    } else {
        0
    };
    let ghost d = unsigned_digits(text@);
    assert(d =~= cs@.subrange(start as int, cs@.len() as int));
    if start >= cs.len() {
        return None;
    }
    let mut acc: u64 = 0;
    let mut i: usize = start;
    while i < cs.len()
        invariant
            cs@ == text@,
            d == cs@.subrange(start as int, cs@.len() as int),
            d == unsigned_digits(text@),
            start < cs.len(),
            start <= i <= cs.len(),
            forall|j: int| start <= j < i ==> '0' <= #[trigger] cs@[j] <= '9',
            acc == digits_value(d.take(i - start)),
        decreases cs.len() - i,
    {
        let c = cs[i];
        proof {
            assert(d.take(i - start + 1).drop_last() =~= d.take(i - start));
            assert(d.take(i - start + 1).last() == c);
        }
        if !('0' <= c && c <= '9') {
            assert(d[i - start] == c);
            assert(!all_digits(d));
            assert(parse_u64(text@) is None);
            return None;
        }
        let digit = (c as u32 - '0' as u32) as u64;
        if acc > (u64::MAX - digit) / 10 {
            proof {
                assert(acc * 10 + digit > u64::MAX) by (nonlinear_arith)
                    requires
                        acc > (u64::MAX - digit) / 10,
                        digit <= 9,
                ;
                let dd = d;
                assert(c as int - '0' as int == digit);
                assert(digits_value(d.take(i - start + 1)) == acc * 10 + digit);
                if all_digits(dd) {
                    lemma_digits_value_monotone(dd, i - start + 1);
                }
                assert(parse_u64(text@) is None);
            }
            return None;
        }
        acc = acc * 10 + digit;
        i = i + 1;
    }
    proof {
        assert(d.take(i - start) =~= d);
        assert forall|j: int| 0 <= j < d.len() implies '0' <= #[trigger] d[j] <= '9' by {
            assert(d[j] == cs@[j + start]);
        }
    }
    Some(acc)
}

} // verus!
