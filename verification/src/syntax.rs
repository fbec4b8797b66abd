//! A lossless syntax tree stored as a flat array in document order, and the
//! builder that the parser drives with start/token/finish events.
//!
//! Entry `i` is a node or a token. A node's subtree occupies the entries
//! `i .. end`; its children are found by starting at `i + 1` and jumping
//! from each child to the end of that child's subtree.

use vstd::prelude::*;
use crate::syntax_kind::SyntaxKind;

verus! {

/// One token or node of a syntax tree.
#[derive(Debug)]
pub struct TreeEntry {
    pub kind: SyntaxKind,
    pub is_token: bool,
    /// The token's text; empty for a node.
    pub text: String,
    /// The enclosing node, if any.
    pub parent: Option<usize>,
    /// One past the last entry of this entry's subtree.
    pub end: usize,
}

/// A syntax tree: its entries in document order, the root first.
#[derive(Debug)]
pub struct SyntaxTree {
    pub entries: Vec<TreeEntry>,
}

/// The children of a node whose subtree stops before `stop`, starting with
/// the entry at `c`: each child is followed by the entry after its subtree.
pub open spec fn children_from(t: SyntaxTree, c: int, stop: int) -> Seq<usize>
    decreases stop - c,
{
    if c < 0 || c >= stop || c >= t.entries@.len() || t.entries@[c].end <= c {
        Seq::empty()
    } else if t.entries@[c].end > stop {
        seq![c as usize]
    } else {
        seq![c as usize] + children_from(t, t.entries@[c].end as int, stop)
    }
}

/// The children of entry `n` (none for a token or an index past the end).
pub open spec fn child_ids(t: SyntaxTree, n: int) -> Seq<usize> {
    if 0 <= n < t.entries@.len() && !t.entries@[n].is_token {
        children_from(t, n + 1, t.entries@[n].end as int)
    } else {
        Seq::empty()
    }
}

/// Entry `i` is a node of kind `k`.
pub open spec fn is_node_of(t: SyntaxTree, i: int, k: SyntaxKind) -> bool {
    0 <= i < t.entries@.len() && !t.entries@[i].is_token && t.entries@[i].kind == k
}

/// Entry `i` is a token of kind `k`.
pub open spec fn is_token_of(t: SyntaxTree, i: int, k: SyntaxKind) -> bool {
    0 <= i < t.entries@.len() && t.entries@[i].is_token && t.entries@[i].kind == k
}

/// The kind of entry `i`, whatever it is (entries past the end read as `ERROR`).
pub open spec fn kind_at(t: SyntaxTree, i: int) -> SyntaxKind {
    if 0 <= i < t.entries@.len() {
        t.entries@[i].kind
    } else {
        SyntaxKind::ERROR
    }
}

/// The first element of `s` that satisfies `p`.
pub open spec fn first_where(s: Seq<usize>, p: spec_fn(usize) -> bool) -> Option<usize>
    decreases s.len(),
{
    if s.len() == 0 {
        None
    } else if p(s[0]) {
        Some(s[0])
    } else {
        first_where(s.drop_first(), p)
    }
}

/// The texts of the tree's tokens, in document order.
pub open spec fn token_texts(entries: Seq<TreeEntry>) -> Seq<Seq<char>>
    decreases entries.len(),
{
    if entries.len() == 0 {
        Seq::empty()
    } else if entries.last().is_token {
        token_texts(entries.drop_last()).push(entries.last().text@)
    } else {
        token_texts(entries.drop_last())
    }
}

/// Every child lies after its parent's first entry and within the tree.
pub proof fn lemma_children_from_bounds(t: SyntaxTree, c: int, stop: int)
    ensures
        forall|j: int|
            0 <= j < children_from(t, c, stop).len() ==> c <= #[trigger] children_from(t, c, stop)[j]
                && children_from(t, c, stop)[j] < t.entries@.len() && children_from(t, c, stop)[j]
                < stop,
    decreases stop - c,
{
    if !(c < 0 || c >= stop || c >= t.entries@.len() || t.entries@[c].end <= c) {
        if t.entries@[c].end <= stop {
            let e = t.entries@[c].end as int;
            lemma_children_from_bounds(t, e, stop);
            let rest = children_from(t, e, stop);
            assert(children_from(t, c, stop) == seq![c as usize] + rest);
            assert forall|j: int| 0 <= j < children_from(t, c, stop).len() implies c
                <= #[trigger] children_from(t, c, stop)[j] && children_from(t, c, stop)[j]
                < t.entries@.len() && children_from(t, c, stop)[j] < stop by {
                if j > 0 {
                    assert(children_from(t, c, stop)[j] == rest[j - 1]);
                }
            }
        }
    }
}

/// The children of entry `n`, in order.
pub fn children_of(t: &SyntaxTree, n: usize) -> (r: Vec<usize>)
    ensures
        r@ == child_ids(*t, n as int),
{
    let mut r: Vec<usize> = Vec::new();
    if n >= t.entries.len() || t.entries[n].is_token {
        return r;
    }
    let stop = t.entries[n].end;
    let mut c: usize = n + 1;
    while c < stop && c < t.entries.len() && t.entries[c].end > c
        invariant
            n < t.entries@.len(),
            stop == t.entries@[n as int].end,
            !t.entries@[n as int].is_token,
            r@ + children_from(*t, c as int, stop as int) == child_ids(*t, n as int),
        decreases stop - c,
    {
        let next = t.entries[c].end;
        if next > stop {
            proof {
                assert(children_from(*t, c as int, stop as int) == seq![c]);
                assert(children_from(*t, stop as int, stop as int) =~= Seq::<usize>::empty());
                assert(r@.push(c) + children_from(*t, stop as int, stop as int) =~= r@ + seq![c]);
            }
            r.push(c);
            c = stop;
        } else {
        proof {
            assert(children_from(*t, c as int, stop as int) == seq![c] + children_from(
                *t,
                next as int,
                stop as int,
            ));
            assert(r@.push(c) + children_from(*t, next as int, stop as int) =~= r@ + (seq![c]
                + children_from(*t, next as int, stop as int)));
        }
        r.push(c);
        c = next;
        }
    }
    assert(r@ + children_from(*t, c as int, stop as int) =~= r@);
    r
}

/// A test that picks children of a node.
#[derive(Debug, Clone, Copy, PartialEq, Eq, Structural)]
pub enum ChildFilter {
    /// A node of the kind.
    NodeOf(SyntaxKind),
    /// A token of the kind.
    TokenOf(SyntaxKind),
    /// A node of either kind.
    NodeOfEither(SyntaxKind, SyntaxKind),
    /// A token that can spell a name: an identifier or a keyword.
    NameToken,
}

/// Whether `k` can spell a name: identifiers and, used as names, keywords.
pub open spec fn is_name_kind(k: SyntaxKind) -> bool {
    k == SyntaxKind::IDENT || k.spec_is_keyword()
}

/// Whether entry `c` passes the filter `f`.
pub open spec fn passes(t: SyntaxTree, c: int, f: ChildFilter) -> bool {
    match f {
        ChildFilter::NodeOf(k) => is_node_of(t, c, k),
        ChildFilter::TokenOf(k) => is_token_of(t, c, k),
        ChildFilter::NodeOfEither(k1, k2) => is_node_of(t, c, k1) || is_node_of(t, c, k2),
        ChildFilter::NameToken => 0 <= c < t.entries@.len() && t.entries@[c].is_token
            && is_name_kind(t.entries@[c].kind),
    }
}

/// Entry `c` passes the filter `f`.
pub fn check_filter(t: &SyntaxTree, c: usize, f: ChildFilter) -> (r: bool)
    ensures
        r == passes(*t, c as int, f),
{
    if c >= t.entries.len() {
        return false;
    }
    let e = &t.entries[c];
    match f {
        ChildFilter::NodeOf(k) => !e.is_token && e.kind == k,
        ChildFilter::TokenOf(k) => e.is_token && e.kind == k,
        ChildFilter::NodeOfEither(k1, k2) => !e.is_token && (e.kind == k1 || e.kind == k2),
        ChildFilter::NameToken => e.is_token && (e.kind == SyntaxKind::IDENT || e.kind.is_keyword()),
    }
}

/// The children of `n` that pass `f`, in order.
pub open spec fn children_passing(t: SyntaxTree, n: int, f: ChildFilter) -> Seq<usize> {
    child_ids(t, n).filter(|c: usize| passes(t, c as int, f))
}

/// The first child of `n` that passes `f`.
pub open spec fn first_child_passing(t: SyntaxTree, n: int, f: ChildFilter) -> Option<usize> {
    first_where(child_ids(t, n), |c: usize| passes(t, c as int, f))
}

/// The first element of `s` that satisfies `p` is the first element of
/// `s.filter(p)`.
pub proof fn lemma_first_where_filter(s: Seq<usize>, p: spec_fn(usize) -> bool)
    ensures
        first_where(s, p) == (if s.filter(p).len() == 0 {
            None
        } else {
            Some(s.filter(p)[0])
        }),
    decreases s.len(),
{
    reveal(Seq::filter);
    if s.len() > 0 {
        lemma_first_where_filter(s.drop_first(), p);
        assert(s.drop_first().filter(p) == s.drop_last().drop_first().filter(p).push(s.last())
            || true);
        lemma_filter_first(s, p);
    }
}

/// Filtering a non-empty sequence: its head leads if it passes, else the
/// filter of the tail.
pub proof fn lemma_filter_first(s: Seq<usize>, p: spec_fn(usize) -> bool)
    requires
        s.len() > 0,
    ensures
        s.filter(p) == (if p(s[0]) {
            seq![s[0]] + s.drop_first().filter(p)
        } else {
            s.drop_first().filter(p)
        }),
    decreases s.len(),
{
    reveal(Seq::filter);
    if s.len() == 1 {
        assert(s.drop_first() =~= Seq::<usize>::empty());
        assert(s.drop_last() =~= Seq::<usize>::empty());
        if p(s[0]) {
            assert(s.filter(p) =~= seq![s[0]] + s.drop_first().filter(p));
        }
    } else {
        lemma_filter_first(s.drop_last(), p);
        assert(s.drop_last().drop_first() =~= s.drop_first().drop_last());
        if p(s[0]) {
            assert(s.filter(p) =~= seq![s[0]] + s.drop_first().filter(p));
        } else {
            assert(s.filter(p) =~= s.drop_first().filter(p));
        }
    }
}

/// Every child of `n` that passes `f` does pass it, and lies in the tree.
pub proof fn lemma_children_passing_in_tree(t: SyntaxTree, n: int, f: ChildFilter)
    ensures
        forall|k: int|
            0 <= k < children_passing(t, n, f).len() ==> passes(t, #[trigger] children_passing(t, n, f)[k] as int, f)
                && children_passing(t, n, f)[k] < t.entries@.len(),
{
    let p = |c: usize| passes(t, c as int, f);
    assert forall|k: int| 0 <= k < children_passing(t, n, f).len() implies passes(
        t,
        #[trigger] children_passing(t, n, f)[k] as int,
        f,
    ) && children_passing(t, n, f)[k] < t.entries@.len() by {
        child_ids(t, n).lemma_filter_pred(p, k);
    }
}

/// The first child of `n` that passes `f` leads the children that pass it.
pub proof fn lemma_first_child_passing(t: SyntaxTree, n: int, f: ChildFilter)
    ensures
        first_child_passing(t, n, f) == (if children_passing(t, n, f).len() == 0 {
            None
        } else {
            Some(children_passing(t, n, f)[0])
        }),
{
    let p = |c: usize| passes(t, c as int, f);
    lemma_first_where_filter(child_ids(t, n), p);
}

/// The children of `n` that pass `f`, in order.
pub fn children_where(t: &SyntaxTree, n: usize, f: ChildFilter) -> (r: Vec<usize>)
    ensures
        r@ == children_passing(*t, n as int, f),
{
    let cs = children_of(t, n);
    let mut r: Vec<usize> = Vec::new();
    let mut i: usize = 0;
    while i < cs.len()
        invariant
            cs@ == child_ids(*t, n as int),
            i <= cs.len(),
            r@ == cs@.take(i as int).filter(|c: usize| passes(*t, c as int, f)),
        decreases cs.len() - i,
    {
        let c = cs[i];
        proof {
            assert(cs@.take(i + 1).drop_last() =~= cs@.take(i as int));
            assert(cs@.take(i + 1).last() == c);
            reveal(Seq::filter);
        }
        if check_filter(t, c, f) {
            r.push(c);
        }
        i = i + 1;
    }
    assert(cs@.take(cs@.len() as int) =~= cs@);
    r
}

/// The first child of `n` that passes `f`.
pub fn first_child_where(t: &SyntaxTree, n: usize, f: ChildFilter) -> (r: Option<usize>)
    ensures
        r == first_child_passing(*t, n as int, f),
        r == (if children_passing(*t, n as int, f).len() == 0 {
            None
        } else {
            Some(children_passing(*t, n as int, f)[0])
        }),
{
    let cs = children_of(t, n);
    let ghost p = |c: usize| passes(*t, c as int, f);
    proof {
        lemma_first_child_passing(*t, n as int, f);
    }
    let mut i: usize = 0;
    assert(cs@.subrange(0, cs@.len() as int) =~= cs@);
    while i < cs.len()
        invariant
            cs@ == child_ids(*t, n as int),
            i <= cs.len(),
            first_where(cs@, p) == first_where(cs@.subrange(i as int, cs@.len() as int), p),
            p == (|c: usize| passes(*t, c as int, f)),
        decreases cs.len() - i,
    {
        let c = cs[i];
        proof {
            assert(cs@.subrange(i as int, cs@.len() as int).drop_first() =~= cs@.subrange(
                i + 1,
                cs@.len() as int,
            ));
            assert(cs@.subrange(i as int, cs@.len() as int)[0] == c);
        }
        if check_filter(t, c, f) {
            proof {
                lemma_first_child_passing(*t, n as int, f);
                assert(first_child_passing(*t, n as int, f) == first_where(cs@, p));
            }
            return Some(c);
        }
        i = i + 1;
    }
    assert(cs@.subrange(i as int, cs@.len() as int) =~= Seq::<usize>::empty());
    None
}

/// Whether some child of `n` is a token of kind `k`.
pub open spec fn has_token(t: SyntaxTree, n: int, k: SyntaxKind) -> bool {
    children_passing(t, n, ChildFilter::TokenOf(k)).len() > 0
}

/// Some child of `n` is a token of kind `k`.
pub fn has_child_token(t: &SyntaxTree, n: usize, k: SyntaxKind) -> (r: bool)
    ensures
        r == has_token(*t, n as int, k),
{
    first_child_where(t, n, ChildFilter::TokenOf(k)).is_some()
}

/// A node of a syntax tree: the tree and the node's index in it.
#[derive(Debug, Clone, Copy)]
pub struct SyntaxNode<'a> {
    pub tree: &'a SyntaxTree,
    pub index: usize,
}

impl<'a> SyntaxNode<'a> {
    /// The node's kind (`ERROR` for an index past the end of the tree).
    pub fn kind(&self) -> (r: SyntaxKind)
        ensures
            r == kind_at(*self.tree, self.index as int),
    {
        if self.index < self.tree.entries.len() {
            self.tree.entries[self.index].kind
        } else {
            SyntaxKind::ERROR
        }
    }

    /// The node `i` of the same tree.
    pub fn at(&self, i: usize) -> (r: SyntaxNode<'a>)
        ensures
            r.tree == self.tree,
            r.index == i,
    {
        SyntaxNode { tree: self.tree, index: i }
    }
}

/// The text of entry `i`, empty for an index past the end.
pub open spec fn text_at(t: SyntaxTree, i: int) -> Seq<char> {
    if 0 <= i < t.entries@.len() {
        t.entries@[i].text@
    } else {
        Seq::empty()
    }
}

/// The text of entry `i`.
pub fn entry_text(t: &SyntaxTree, i: usize) -> (r: String)
    ensures
        r@ == text_at(*t, i as int),
{
    if i < t.entries.len() {
        String::from_str(t.entries[i].text.as_str())
    } else {
        String::new()
    }
}

/// The number of UTF-8 bytes of entry `i`'s text: zero for a node.
pub open spec fn token_bytes(t: SyntaxTree, i: int) -> nat {
    if 0 <= i < t.entries@.len() && t.entries@[i].is_token {
        vstd::utf8::encode_utf8(t.entries@[i].text@).len()
    } else {
        0
    }
}

/// The byte offset in the source text at which entry `i` begins: the UTF-8
/// length of all token text before it.
pub open spec fn bytes_before(t: SyntaxTree, i: int) -> nat
    decreases i,
{
    if i <= 0 {
        0
    } else {
        bytes_before(t, i - 1) + token_bytes(t, i - 1)
    }
}

/// Offsets only grow along the tree.
pub proof fn lemma_bytes_before_monotone(t: SyntaxTree, i: int, j: int)
    requires
        0 <= i <= j,
    ensures
        bytes_before(t, i) <= bytes_before(t, j),
    decreases j - i,
{
    if i < j {
        lemma_bytes_before_monotone(t, i, j - 1);
    }
}

/// The byte range `(start, end)` of entry `i`'s text in the source text.
pub fn entry_range(t: &SyntaxTree, i: usize) -> (r: (usize, usize))
    requires
        i < t.entries@.len(),
        bytes_before(*t, t.entries@.len() as int) <= usize::MAX,
    ensures
        r.0 == bytes_before(*t, i as int),
        r.1 == bytes_before(*t, i as int) + token_bytes(*t, i as int),
{
    proof {
        lemma_bytes_before_monotone(*t, i as int + 1, t.entries@.len() as int);
    }
    let mut start: usize = 0;
    let mut j: usize = 0;
    while j < i
        invariant
            j <= i < t.entries@.len(),
            start == bytes_before(*t, j as int),
            bytes_before(*t, i as int + 1) <= usize::MAX,
        decreases i - j,
    {
        proof {
            lemma_bytes_before_monotone(*t, j as int + 1, i as int + 1);
        }
        if t.entries[j].is_token {
            let n = t.entries[j].text.as_str().len();
            start = start + n;
        }
        j = j + 1;
    }
    let n: usize = if t.entries[i].is_token {
        t.entries[i].text.as_str().len()
    } else {
        0
    };
    (start, start + n)
}

/// One call made to a tree builder: open a node, add a token, close the
/// open node.
pub ghost enum TreeEvent {
    Start(SyntaxKind),
    Token(SyntaxKind, Seq<char>),
    Finish,
}

/// The kind, token flag and text of each entry.
pub open spec fn entry_shapes(entries: Seq<TreeEntry>) -> Seq<(SyntaxKind, bool, Seq<char>)> {
    entries.map_values(|e: TreeEntry| (e.kind, e.is_token, e.text@))
}

/// The entries that `events` make, by kind, token flag and text: a node
/// for each start and a token for each token, in order.
pub open spec fn event_shapes(events: Seq<TreeEvent>) -> Seq<(SyntaxKind, bool, Seq<char>)>
    decreases events.len(),
{
    if events.len() == 0 {
        Seq::empty()
    } else {
        let rest = event_shapes(events.drop_last());
        match events.last() {
            TreeEvent::Start(k) => rest.push((k, false, Seq::<char>::empty())),
            TreeEvent::Token(k, t) => rest.push((k, true, t)),
            TreeEvent::Finish => rest,
        }
    }
}

/// A builder of syntax trees, driven in document order.
pub struct TreeBuilder {
    entries: Vec<TreeEntry>,
    stack: Vec<usize>,
    events: Ghost<Seq<TreeEvent>>,
}

impl TreeBuilder {
    /// The entries made so far.
    pub closed spec fn spec_entries(&self) -> Seq<TreeEntry> {
        self.entries@
    }

    /// How many nodes are open.
    pub closed spec fn depth(&self) -> nat {
        self.stack@.len()
    }

    /// The calls made so far, in order.
    pub closed spec fn spec_events(&self) -> Seq<TreeEvent> {
        self.events@
    }

    /// The entries are those that the calls made so far describe.
    pub closed spec fn follows_events(&self) -> bool {
        entry_shapes(self.entries@) == event_shapes(self.events@)
    }

    /// The node that new entries go into.
    pub closed spec fn open_node(&self) -> Option<usize> {
        if self.stack@.len() == 0 {
            None
        } else {
            Some(self.stack@.last())
        }
    }

    /// An empty builder.
    pub fn new() -> (r: Self)
        ensures
            r.spec_entries().len() == 0,
            r.depth() == 0,
            r.spec_events().len() == 0,
            r.follows_events(),
    {
        let r = TreeBuilder { entries: Vec::new(), stack: Vec::new(), events: Ghost(Seq::empty()) };
        assert(entry_shapes(r.entries@) =~= Seq::empty());
        r
    }

    /// Open a node of kind `kind` inside the open node.
    pub fn start_node(&mut self, kind: SyntaxKind)
        ensures
            final(self).depth() == old(self).depth() + 1,
            final(self).spec_entries().len() == old(self).spec_entries().len() + 1,
            final(self).spec_entries().take(old(self).spec_entries().len() as int)
                == old(self).spec_entries(),
            final(self).spec_entries().last().kind == kind,
            !final(self).spec_entries().last().is_token,
            final(self).spec_entries().last().parent == old(self).open_node(),
            final(self).open_node() == Some(old(self).spec_entries().len() as usize),
            token_texts(final(self).spec_entries()) == token_texts(old(self).spec_entries()),
            final(self).spec_events() == old(self).spec_events().push(TreeEvent::Start(kind)),
            old(self).follows_events() ==> final(self).follows_events(),
    {
        let idx = self.entries.len();
        let parent = if self.stack.len() == 0 {
            None
        } else {
            Some(self.stack[self.stack.len() - 1])
        };
        self.entries.push(TreeEntry { kind, is_token: false, text: String::new(), parent, end: idx });
        self.stack.push(idx);
        self.events = Ghost(self.events@.push(TreeEvent::Start(kind)));
        assert(self.entries@.take(idx as int) =~= old(self).entries@);
        assert(self.entries@.drop_last() =~= old(self).entries@);
        assert(self.events@.drop_last() =~= old(self).events@);
        assert(entry_shapes(self.entries@) =~= entry_shapes(old(self).entries@).push(
            (kind, false, Seq::<char>::empty()),
        ));
    }

    /// Add a token of kind `kind` with text `text` to the open node.
    pub fn token(&mut self, kind: SyntaxKind, text: &str)
        ensures
            final(self).depth() == old(self).depth(),
            final(self).open_node() == old(self).open_node(),
            final(self).spec_entries().len() == old(self).spec_entries().len() + 1,
            final(self).spec_entries().take(old(self).spec_entries().len() as int)
                == old(self).spec_entries(),
            final(self).spec_entries().last().kind == kind,
            final(self).spec_entries().last().is_token,
            final(self).spec_entries().last().text@ == text@,
            final(self).spec_entries().last().parent == old(self).open_node(),
            token_texts(final(self).spec_entries()) == token_texts(old(self).spec_entries()).push(
                text@,
            ),
            final(self).spec_events() == old(self).spec_events().push(TreeEvent::Token(kind, text@)),
            old(self).follows_events() ==> final(self).follows_events(),
    {
        let idx = self.entries.len();
        let parent = if self.stack.len() == 0 {
            None
        } else {
            Some(self.stack[self.stack.len() - 1])
        };
        let end = if idx < usize::MAX {
            idx + 1
        } else {
            idx
        };
        self.entries.push(
            TreeEntry { kind, is_token: true, text: String::from_str(text), parent, end },
        );
        self.events = Ghost(self.events@.push(TreeEvent::Token(kind, text@)));
        assert(self.entries@.take(idx as int) =~= old(self).entries@);
        assert(self.entries@.drop_last() =~= old(self).entries@);
        assert(self.events@.drop_last() =~= old(self).events@);
        assert(entry_shapes(self.entries@) =~= entry_shapes(old(self).entries@).push(
            (kind, true, text@),
        ));
    }

    /// Close the open node: its subtree ends with the last entry made.
    pub fn finish_node(&mut self)
        requires
            old(self).depth() > 0,
        ensures
            final(self).depth() == old(self).depth() - 1,
            final(self).spec_entries().len() == old(self).spec_entries().len(),
            token_texts(final(self).spec_entries()) == token_texts(old(self).spec_entries()),
            final(self).spec_events() == old(self).spec_events().push(TreeEvent::Finish),
            old(self).follows_events() ==> final(self).follows_events(),
    {
        self.events = Ghost(self.events@.push(TreeEvent::Finish));
        assert(self.events@.drop_last() =~= old(self).events@);
        let idx = self.stack.pop().unwrap();
        let len = self.entries.len();
        if idx < len {
            let kind = self.entries[idx].kind;
            let parent = self.entries[idx].parent;
            let is_token = self.entries[idx].is_token;
            proof {
                assert(!is_token ==> true);
            }
            if !is_token {
                self.entries.set(
                    idx,
                    TreeEntry { kind, is_token: false, text: String::new(), parent, end: len },
                );
                proof {
                    lemma_token_texts_node_update(old(self).entries@, idx as int, self.entries@);
                    if old(self).follows_events() {
                        lemma_node_shapes_have_no_text(old(self).events@, idx as int);
                        assert(entry_shapes(old(self).entries@)[idx as int] == (kind, false, old(self).entries@[idx as int].text@));
                        assert(entry_shapes(self.entries@) =~= entry_shapes(old(self).entries@));
                    }
                }
            }
        }
    }

    /// The finished tree.
    pub fn finish(self) -> (r: SyntaxTree)
        ensures
            r.entries@ == self.spec_entries(),
            self.follows_events() ==> entry_shapes(r.entries@) == event_shapes(self.spec_events()),
    {
        SyntaxTree { entries: self.entries }
    }
}

/// A node made by a start event has no text.
proof fn lemma_node_shapes_have_no_text(events: Seq<TreeEvent>, i: int)
    requires
        0 <= i < event_shapes(events).len(),
        !event_shapes(events)[i].1,
    ensures
        event_shapes(events)[i].2 == Seq::<char>::empty(),
    decreases events.len(),
{
    if events.len() > 0 {
        let rest = event_shapes(events.drop_last());
        if i < rest.len() {
            lemma_node_shapes_have_no_text(events.drop_last(), i);
        }
    }
}

/// Replacing a node by another node leaves the token texts unchanged.
proof fn lemma_token_texts_node_update(a: Seq<TreeEntry>, i: int, b: Seq<TreeEntry>)
    requires
        0 <= i < a.len(),
        a.len() == b.len(),
        !a[i].is_token,
        !b[i].is_token,
        forall|j: int| 0 <= j < a.len() && j != i ==> a[j] == b[j],
    ensures
        token_texts(b) == token_texts(a),
    decreases a.len(),
{
    if a.len() > 0 {
        if i < a.len() - 1 {
            lemma_token_texts_node_update(a.drop_last(), i, b.drop_last());
        } else {
            assert(a.drop_last() =~= b.drop_last());
        }
    }
}

} // verus!
