//! What every interchange format shares: its capabilities, its errors,
//! the trait that each format implements, and the text checks that the
//! quick validators make.

use vstd::prelude::*;
use vstd::utf8::valid_utf8;
use vstd::utf8::decode_utf8;
use crate::strings::chars_of;

verus! {

/// What a format can do.
#[derive(Debug, Clone, Copy, PartialEq, Eq, Structural)]
pub struct FormatCapability {
    pub read: bool,
    pub write: bool,
    pub streaming: bool,
    pub lossless: bool,
}

impl FormatCapability {
    /// A format that can do everything.
    pub fn full() -> (r: FormatCapability)
        ensures
            r.read && r.write && r.streaming && r.lossless,
    {
        FormatCapability { read: true, write: true, streaming: true, lossless: true }
    }
}

/// Why reading, writing or checking a model failed.
#[derive(Debug, Clone, PartialEq, Eq)]
pub enum InterchangeError {
    /// The XML was malformed or not XMI.
    Xml(String),
    /// The JSON was malformed or not JSON-LD.
    Json(String),
    /// The operation is not available for this format.
    Unsupported(String),
}

impl InterchangeError {
    /// An XML error with the given message.
    pub fn xml(msg: &str) -> (r: InterchangeError)
        ensures
            r matches InterchangeError::Xml(m) && m@ == msg@,
    {
        InterchangeError::Xml(String::from_str(msg))
    }

    /// A JSON error with the given message.
    pub fn json(msg: &str) -> (r: InterchangeError)
        ensures
            r matches InterchangeError::Json(m) && m@ == msg@,
    {
        InterchangeError::Json(String::from_str(msg))
    }

    /// The message carried by the error.
    pub fn message(&self) -> (r: &str)
        ensures
            match self {
                InterchangeError::Xml(m) => r@ == m@,
                InterchangeError::Json(m) => r@ == m@,
                InterchangeError::Unsupported(m) => r@ == m@,
            },
    {
        match self {
            InterchangeError::Xml(m) => m.as_str(),
            InterchangeError::Json(m) => m.as_str(),
            InterchangeError::Unsupported(m) => m.as_str(),
        }
    }
}

/// A model interchange format: its identity, what it can do, and a quick
/// structural check of a document.
pub trait ModelFormat {
    /// The format's display name.
    fn name(&self) -> &'static str;

    /// The file extensions of the format, without the dot.
    fn extensions(&self) -> &'static [&'static str];

    /// The MIME type of the format.
    fn mime_type(&self) -> &'static str;

    /// What the format supports.
    fn capabilities(&self) -> FormatCapability;

    /// A cheap check that `input` looks like a document of this format.
    fn validate(&self, input: &[u8]) -> Result<(), InterchangeError>;
}

/// Whether `c` is white space, as `char::is_whitespace` defines it
/// (the Unicode `White_Space` property).
pub open spec fn is_whitespace(c: char) -> bool {
    let u = c as u32;
    ||| 0x09 <= u <= 0x0D
    ||| u == 0x20
    ||| u == 0x85
    ||| u == 0xA0
    ||| u == 0x1680
    ||| 0x2000 <= u <= 0x200A
    ||| u == 0x2028
    ||| u == 0x2029
    ||| u == 0x202F
    ||| u == 0x205F
    ||| u == 0x3000
}

/// `c` is white space.
pub fn is_whitespace_char(c: char) -> (r: bool)
    ensures
        r == is_whitespace(c),
{
    let u = c as u32;
    (0x09 <= u && u <= 0x0D) || u == 0x20 || u == 0x85 || u == 0xA0 || u == 0x1680 || (0x2000
        <= u && u <= 0x200A) || u == 0x2028 || u == 0x2029 || u == 0x202F || u == 0x205F || u
        == 0x3000
}

/// The first character of `s` that is not white space, if any: the first
/// character of `s.trim()`.
pub open spec fn first_non_whitespace(s: Seq<char>) -> Option<char>
    decreases s.len(),
{
    if s.len() == 0 {
        None
    } else if !is_whitespace(s[0]) {
        Some(s[0])
    } else {
        first_non_whitespace(s.drop_first())
    }
}

/// Whether `pat` occurs in `s` as a contiguous run of characters.
pub open spec fn contains_seq(s: Seq<char>, pat: Seq<char>) -> bool {
    exists|i: int| 0 <= i && i + pat.len() <= s.len() && #[trigger] s.subrange(i, i + pat.len()) == pat
}

proof fn lemma_first_non_whitespace_skip(s: Seq<char>, i: int)
    requires
        0 <= i < s.len(),
        forall|j: int| 0 <= j < i ==> is_whitespace(s[j]),
    ensures
        first_non_whitespace(s) == first_non_whitespace(s.subrange(i, s.len() as int)),
    decreases i,
{
    if i > 0 {
        lemma_first_non_whitespace_skip(s.drop_first(), i - 1);
        assert(s.drop_first().subrange(i - 1, s.drop_first().len() as int) =~= s.subrange(
            i,
            s.len() as int,
        ));
    } else {
        assert(s.subrange(0, s.len() as int) =~= s);
    }
}

proof fn lemma_first_non_whitespace_none(s: Seq<char>)
    requires
        forall|j: int| 0 <= j < s.len() ==> is_whitespace(s[j]),
    ensures
        first_non_whitespace(s) is None,
    decreases s.len(),
{
    if s.len() > 0 {
        lemma_first_non_whitespace_none(s.drop_first());
    }
}

/// The first character of `s` that is not white space.
pub fn first_non_whitespace_char(s: &str) -> (r: Option<char>)
    ensures
        r == first_non_whitespace(s@),
{
    let cs = chars_of(s);
    let mut i: usize = 0;
    while i < cs.len()
        invariant
            cs@ == s@,
            i <= cs.len(),
            forall|j: int| 0 <= j < i ==> is_whitespace(cs@[j]),
        decreases cs.len() - i,
    {
        if !is_whitespace_char(cs[i]) {
            proof {
                lemma_first_non_whitespace_skip(s@, i as int);
            }
            return Some(cs[i]);
        }
        i = i + 1;
    }
    proof {
        lemma_first_non_whitespace_none(s@);
    }
    None
}

/// Whether `pat` occurs in `s`.
pub fn contains_str(s: &str, pat: &str) -> (r: bool)
    ensures
        r == contains_seq(s@, pat@),
{
    let cs = chars_of(s);
    let ps = chars_of(pat);
    let n = cs.len();
    let m = ps.len();
    if m > n {
        return false;
    }
    let mut i: usize = 0;
    while i <= n - m
        invariant
            cs@ == s@,
            ps@ == pat@,
            n == cs.len(),
            m == ps.len(),
            m <= n,
            i <= n - m + 1,
            forall|k: int| 0 <= k < i ==> #[trigger] s@.subrange(k, k + m) != pat@,
        decreases n - m + 1 - i,
    {
        let mut j: usize = 0;
        while j < m && cs[i + j] == ps[j]
            invariant
                cs@ == s@,
                ps@ == pat@,
                n == cs.len(),
                m == ps.len(),
                i + m <= n,
                j <= m,
                forall|t: int| 0 <= t < j ==> cs@[i + t] == ps@[t],
            decreases m - j,
        {
            j = j + 1;
        }
        if j == m {
            assert(s@.subrange(i as int, i + m) =~= pat@);
            return true;
        }
        assert(s@.subrange(i as int, i + m)[j as int] != pat@[j as int]);
        i = i + 1;
    }
    assert forall|k: int| 0 <= k && k + pat@.len() <= s@.len() implies #[trigger] s@.subrange(
        k,
        k + pat@.len(),
    ) != pat@ by {
        assert(k < i);
    }
    false
}

/// `std::str::from_utf8`: the text that `bytes` encode, or, when they are
/// not valid UTF-8, the error's description. The description's wording is
/// std's own and is left unsaid.
#[verifier::external_body]
pub(crate) fn utf8_text(bytes: &[u8]) -> (r: Result<&str, String>)
    ensures
        r is Ok <==> valid_utf8(bytes@),
        r matches Ok(s) ==> s@ == decode_utf8(bytes@),
{
    match std::str::from_utf8(bytes) {
        Ok(s) => Ok(s),
        Err(e) => Err(format!("{e}")),
    }
}

/// `a` followed by `b`.
pub(crate) fn concat_str(a: &str, b: &str) -> (r: String)
    ensures
        r@ == a@ + b@,
{
    let mut s = String::from_str(a);
    s.append(b);
    s
}

} // verus!
