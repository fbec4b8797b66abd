//! The token cursor that the grammar drives: it consumes tokens in order,
//! records each consumed token in the syntax tree it builds, and notes the
//! tokens it expected but did not find.

use vstd::prelude::*;
use crate::syntax::{entry_shapes, event_shapes, token_texts, SyntaxTree, TreeBuilder, TreeEvent};
use crate::syntax_kind::SyntaxKind;
use crate::steps::{followed_by, nothing, run, Outcome, ParseState};

verus! {

/// A token of the input: its kind and its text.
#[derive(Debug)]
pub struct Token {
    pub kind: SyntaxKind,
    pub text: String,
}

/// A token that the grammar expected at an input position.
#[derive(Debug, Clone, Copy, PartialEq, Eq, Structural)]
pub struct ParseError {
    pub pos: usize,
    pub expected: SyntaxKind,
}

/// The texts of `ts`, in order.
pub open spec fn texts_of(ts: Seq<Token>) -> Seq<Seq<char>> {
    ts.map_values(|t: Token| t.text@)
}

/// The kind of the token at `i` in `ts`; `ERROR` past the end.
pub open spec fn kind_in(ts: Seq<Token>, i: int) -> SyntaxKind {
    if 0 <= i < ts.len() {
        ts[i].kind
    } else {
        SyntaxKind::ERROR
    }
}

/// The kind of the `n`-th token that is not trivia, counting from index
/// `i` on (the first is `n == 1`); `ERROR` when the input runs out.
pub open spec fn peek_from(ts: Seq<Token>, i: int, n: nat) -> SyntaxKind
    decreases ts.len() - i,
{
    if i < 0 || i >= ts.len() || n == 0 {
        SyntaxKind::ERROR
    } else if ts[i].kind.spec_is_trivia() {
        peek_from(ts, i + 1, n)
    } else if n == 1 {
        ts[i].kind
    } else {
        peek_from(ts, i + 1, (n - 1) as nat)
    }
}

/// How many tokens are left from `pos` on; none past the end.
pub open spec fn tokens_left(ts: Seq<Token>, pos: int) -> nat {
    if pos < ts.len() {
        (ts.len() - pos) as nat
    } else {
        0
    }
}

/// Consuming the token at `pos` and recording it; nothing at the end.
pub open spec fn bump_outcome(ts: Seq<Token>, pos: int) -> Outcome {
    if 0 <= pos < ts.len() {
        Outcome {
            consumed: 1,
            events: seq![TreeEvent::Token(ts[pos].kind, ts[pos].text@)],
            errors: Seq::empty(),
        }
    } else {
        nothing()
    }
}

/// Consuming the white space and comments from `pos` on.
pub open spec fn trivia_outcome(ts: Seq<Token>, pos: int) -> Outcome
    decreases ts.len() - pos,
{
    if 0 <= pos < ts.len() && ts[pos].kind.spec_is_trivia() {
        followed_by(bump_outcome(ts, pos), trivia_outcome(ts, pos + 1))
    } else {
        nothing()
    }
}

/// Opening a node of kind `kind`.
pub open spec fn start_outcome(kind: SyntaxKind) -> Outcome {
    Outcome { consumed: 0, events: seq![TreeEvent::Start(kind)], errors: Seq::empty() }
}

/// Closing the open node.
pub open spec fn finish_outcome() -> Outcome {
    Outcome { consumed: 0, events: seq![TreeEvent::Finish], errors: Seq::empty() }
}

/// Noting that `expected` was missing at `pos`.
pub open spec fn error_outcome(pos: int, expected: SyntaxKind) -> Outcome {
    Outcome {
        consumed: 0,
        events: Seq::empty(),
        errors: seq![ParseError { pos: pos as usize, expected }],
    }
}

/// Consuming a token of kind `kind` at `pos`, or noting that it is missing.
pub open spec fn expect_outcome(ts: Seq<Token>, pos: int, kind: SyntaxKind) -> Outcome {
    if kind_in(ts, pos) == kind {
        bump_outcome(ts, pos)
    } else {
        error_outcome(pos, kind)
    }
}

/// Whether a token of kind `k` can spell a name.
pub open spec fn is_name_token(k: SyntaxKind) -> bool {
    k == SyntaxKind::IDENT || k.spec_is_keyword()
}

/// The `::` or `.` separated segments after the first name of a
/// qualified name, from `pos` on.
pub open spec fn qualified_rest_outcome(ts: Seq<Token>, pos: int) -> Outcome
    decreases tokens_left(ts, pos),
{
    let k = kind_in(ts, pos);
    if k == SyntaxKind::COLON_COLON || k == SyntaxKind::DOT {
        if is_name_token(kind_in(ts, pos + 1)) {
            followed_by(
                bump_outcome(ts, pos),
                followed_by(bump_outcome(ts, pos + 1), qualified_rest_outcome(ts, pos + 2)),
            )
        } else {
            followed_by(
                bump_outcome(ts, pos),
                followed_by(error_outcome(pos + 1, SyntaxKind::IDENT), qualified_rest_outcome(ts, pos + 1)),
            )
        }
    } else {
        nothing()
    }
}

/// A qualified name at `pos`, in a `QUALIFIED_NAME` node.
pub open spec fn qualified_name_outcome(ts: Seq<Token>, pos: int) -> Outcome {
    followed_by(
        start_outcome(SyntaxKind::QUALIFIED_NAME),
        followed_by(
            if is_name_token(kind_in(ts, pos)) {
                followed_by(bump_outcome(ts, pos), qualified_rest_outcome(ts, pos + 1))
            } else {
                error_outcome(pos, SyntaxKind::IDENT)
            },
            finish_outcome(),
        ),
    )
}

broadcast use crate::steps::lemma_run_followed_by, crate::steps::lemma_run_nothing;

/// A parser over a token sequence, building a syntax tree as it goes.
pub struct Parser {
    tokens: Vec<Token>,
    pos: usize,
    builder: TreeBuilder,
    errors: Vec<ParseError>,
}

impl Parser {
    /// The input tokens.
    pub closed spec fn spec_tokens(&self) -> Seq<Token> {
        self.tokens@
    }

    /// How many tokens have been consumed.
    pub closed spec fn spec_pos(&self) -> int {
        self.pos as int
    }

    /// How many nodes are open.
    pub closed spec fn spec_depth(&self) -> nat {
        self.builder.depth()
    }

    /// The expected tokens that were missing, in order.
    pub closed spec fn spec_errors(&self) -> Seq<ParseError> {
        self.errors@
    }

    /// The tree events made so far, in order.
    pub closed spec fn spec_events(&self) -> Seq<TreeEvent> {
        self.builder.spec_events()
    }

    /// The tree built so far is the one its events describe.
    pub closed spec fn tree_follows_events(&self) -> bool {
        self.builder.follows_events()
    }

    /// Where the parser stands.
    pub open spec fn state(&self) -> ParseState {
        ParseState { pos: self.spec_pos(), events: self.spec_events(), errors: self.spec_errors() }
    }

    /// `self` is `before` after step `o`.
    pub open spec fn ran(&self, before: Parser, o: Outcome) -> bool {
        &&& self.advanced_from(before)
        &&& self.state() == run(before.state(), o)
    }

    /// The texts of the tokens recorded in the tree so far.
    pub closed spec fn recorded(&self) -> Seq<Seq<char>> {
        token_texts(self.builder.spec_entries())
    }

    /// The consumed tokens are exactly the tokens recorded in the tree.
    pub closed spec fn records_consumed(&self) -> bool {
        self.recorded() == texts_of(self.tokens@.take(self.pos as int))
    }

    /// The position lies within the input, and every consumed token is
    /// recorded in the tree, in order.
    pub open spec fn wf(&self) -> bool {
        &&& 0 <= self.spec_pos() <= self.spec_tokens().len()
        &&& self.records_consumed()
        &&& self.tree_follows_events()
    }

    /// How many tokens are left.
    pub open spec fn remaining(&self) -> int {
        self.spec_tokens().len() - self.spec_pos()
    }

    /// The kind of the current token; `ERROR` at the end of the input.
    pub open spec fn current(&self) -> SyntaxKind {
        kind_in(self.spec_tokens(), self.spec_pos())
    }

    /// `self` is `before` after some tokens were consumed and recorded,
    /// with every node opened since closed again.
    pub open spec fn advanced_from(&self, before: Parser) -> bool {
        &&& self.wf()
        &&& self.spec_tokens() == before.spec_tokens()
        &&& self.spec_pos() >= before.spec_pos()
        &&& self.spec_depth() == before.spec_depth()
    }

    /// A parser at the start of `tokens`.
    pub fn new(tokens: Vec<Token>) -> (r: Parser)
        ensures
            r.wf(),
            r.spec_tokens() == tokens@,
            r.spec_pos() == 0,
            r.spec_depth() == 0,
            r.spec_errors().len() == 0,
            r.spec_events().len() == 0,
    {
        let r = Parser { tokens, pos: 0, builder: TreeBuilder::new(), errors: Vec::new() };
        assert(r.tokens@.take(0) =~= Seq::<Token>::empty());
        assert(r.builder.spec_entries() =~= Seq::<crate::syntax::TreeEntry>::empty());
        assert(texts_of(Seq::<Token>::empty()) =~= Seq::<Seq<char>>::empty());
        r
    }

    /// The kind of the current token; `ERROR` at the end of the input.
    pub fn current_kind(&self) -> (r: SyntaxKind)
        ensures
            r == self.current(),
    {
        if self.pos < self.tokens.len() {
            self.tokens[self.pos].kind
        } else {
            SyntaxKind::ERROR
        }
    }

    /// Whether the current token has kind `kind`.
    pub fn at(&self, kind: SyntaxKind) -> (r: bool)
        ensures
            r == (self.current() == kind),
    {
        self.current_kind() == kind
    }

    /// Whether the current token has one of the kinds `kinds`.
    pub fn at_any(&self, kinds: &[SyntaxKind]) -> (r: bool)
        ensures
            r == kinds@.contains(self.current()),
    {
        let k = self.current_kind();
        let mut i: usize = 0;
        while i < kinds.len()
            invariant
                k == self.current(),
                i <= kinds@.len(),
                forall|j: int| 0 <= j < i ==> kinds@[j] != k,
            decreases kinds.len() - i,
        {
            if kinds[i] == k {
                assert(kinds@[i as int] == k);
                return true;
            }
            i = i + 1;
        }
        false
    }

    /// Whether the current token can spell a name: an identifier or a
    /// keyword used as a name.
    pub fn at_name_token(&self) -> (r: bool)
        ensures
            r == (self.current() == SyntaxKind::IDENT || self.current().spec_is_keyword()),
    {
        let k = self.current_kind();
        k == SyntaxKind::IDENT || k.is_keyword()
    }

    /// How many tokens have been consumed.
    pub fn get_pos(&self) -> (r: usize)
        ensures
            r == self.spec_pos(),
    {
        self.pos
    }

    /// The kind of the `n`-th token after the current one, not counting
    /// trivia; `n == 0` is the current token.
    pub fn peek_kind(&self, n: usize) -> (r: SyntaxKind)
        ensures
            n == 0 ==> r == self.current(),
            n > 0 ==> r == peek_from(self.spec_tokens(), self.spec_pos() + 1, n as nat),
    {
        if n == 0 {
            return self.current_kind();
        }
        if self.pos >= self.tokens.len() {
            return SyntaxKind::ERROR;
        }
        let mut i: usize = self.pos + 1;
        let mut left: usize = n;
        while i < self.tokens.len()
            invariant
                self.pos < self.tokens@.len(),
                self.pos + 1 <= i <= self.tokens@.len(),
                1 <= left <= n,
                peek_from(self.tokens@, self.pos + 1, n as nat) == peek_from(self.tokens@, i as int, left as nat),
            decreases self.tokens.len() - i,
        {
            let k = self.tokens[i].kind;
            if !k.is_trivia() {
                if left == 1 {
                    return k;
                }
                left = left - 1;
            }
            i = i + 1;
        }
        SyntaxKind::ERROR
    }

    /// Consume the current token, recording it in the open node; nothing
    /// happens at the end of the input.
    pub fn bump(&mut self)
        requires
            old(self).wf(),
        ensures
            final(self).wf(),
            final(self).spec_tokens() == old(self).spec_tokens(),
            final(self).spec_depth() == old(self).spec_depth(),
            final(self).spec_errors() == old(self).spec_errors(),
            old(self).spec_pos() < old(self).spec_tokens().len() ==> final(self).spec_pos()
                == old(self).spec_pos() + 1,
            old(self).spec_pos() >= old(self).spec_tokens().len() ==> final(self).spec_pos()
                == old(self).spec_pos(),
            final(self).ran(*old(self), bump_outcome(old(self).spec_tokens(), old(self).spec_pos())),
    {
        proof {
        }
        if self.pos < self.tokens.len() {
            let kind = self.tokens[self.pos].kind;
            self.builder.token(kind, self.tokens[self.pos].text.as_str());
            proof {
                assert(self.tokens@.take(self.pos + 1) =~= self.tokens@.take(self.pos as int).push(
                    self.tokens@[self.pos as int],
                ));
                assert(texts_of(self.tokens@.take(self.pos + 1)) =~= texts_of(
                    self.tokens@.take(self.pos as int),
                ).push(self.tokens@[self.pos as int].text@));
            }
            self.pos = self.pos + 1;
            proof {
                assert(self.state().events =~= run(old(self).state(), bump_outcome(old(self).spec_tokens(), old(self).spec_pos())).events);
                assert(self.state().errors =~= run(old(self).state(), bump_outcome(old(self).spec_tokens(), old(self).spec_pos())).errors);
            }
        }
    }

    /// Consume the current token, whatever it is.
    pub fn bump_any(&mut self)
        requires
            old(self).wf(),
        ensures
            final(self).wf(),
            final(self).spec_tokens() == old(self).spec_tokens(),
            final(self).spec_depth() == old(self).spec_depth(),
            final(self).spec_errors() == old(self).spec_errors(),
            old(self).spec_pos() < old(self).spec_tokens().len() ==> final(self).spec_pos()
                == old(self).spec_pos() + 1,
            old(self).spec_pos() >= old(self).spec_tokens().len() ==> final(self).spec_pos()
                == old(self).spec_pos(),
            final(self).ran(*old(self), bump_outcome(old(self).spec_tokens(), old(self).spec_pos())),
    {
        self.bump();
    }

    /// Note that a token of kind `expected` was missing here.
    pub fn error(&mut self, expected: SyntaxKind)
        ensures
            final(self).spec_tokens() == old(self).spec_tokens(),
            final(self).spec_pos() == old(self).spec_pos(),
            final(self).spec_depth() == old(self).spec_depth(),
            final(self).recorded() == old(self).recorded(),
            final(self).records_consumed() == old(self).records_consumed(),
            final(self).tree_follows_events() == old(self).tree_follows_events(),
            final(self).spec_errors() == old(self).spec_errors().push(
                ParseError { pos: old(self).spec_pos() as usize, expected },
            ),
            final(self).state() == run(old(self).state(), error_outcome(old(self).spec_pos(), expected)),
    {
        self.errors.push(ParseError { pos: self.pos, expected });
        assert(self.state().events =~= run(old(self).state(), error_outcome(old(self).spec_pos(), expected)).events);
        assert(self.state().errors =~= run(old(self).state(), error_outcome(old(self).spec_pos(), expected)).errors);
    }

    /// Consume a token of kind `kind`, or note that it is missing.
    pub fn expect(&mut self, kind: SyntaxKind)
        requires
            old(self).wf(),
        ensures
            final(self).advanced_from(*old(self)),
            old(self).current() == kind && kind != SyntaxKind::ERROR ==> final(self).spec_pos()
                == old(self).spec_pos() + 1,
            old(self).current() == kind ==> final(self).spec_errors() == old(self).spec_errors(),
            old(self).current() != kind ==> final(self).spec_pos() == old(self).spec_pos()
                && final(self).spec_errors() == old(self).spec_errors().push(
                ParseError { pos: old(self).spec_pos() as usize, expected: kind },
            ),
            final(self).ran(*old(self), expect_outcome(old(self).spec_tokens(), old(self).spec_pos(), kind)),
    {
        if self.at(kind) {
            self.bump();
        } else {
            self.error(kind);
        }
    }

    /// Consume white space and comments.
    pub fn skip_trivia(&mut self)
        requires
            old(self).wf(),
        ensures
            final(self).advanced_from(*old(self)),
            final(self).spec_errors() == old(self).spec_errors(),
            !final(self).current().spec_is_trivia(),
            forall|i: int|
                old(self).spec_pos() <= i < final(self).spec_pos() ==> kind_in(
                    old(self).spec_tokens(),
                    i,
                ).spec_is_trivia(),
            final(self).ran(*old(self), trivia_outcome(old(self).spec_tokens(), old(self).spec_pos())),
    {
        while self.current_kind().is_trivia()
            invariant
                self.advanced_from(*old(self)),
                self.spec_errors() == old(self).spec_errors(),
                forall|i: int|
                    old(self).spec_pos() <= i < self.spec_pos() ==> kind_in(
                        old(self).spec_tokens(),
                        i,
                    ).spec_is_trivia(),
                run(self.state(), trivia_outcome(self.spec_tokens(), self.spec_pos())) == run(
                    old(self).state(),
                    trivia_outcome(old(self).spec_tokens(), old(self).spec_pos()),
                ),
            decreases self.remaining(),
        {
            let ghost before = self.state();
            assert(trivia_outcome(self.spec_tokens(), self.spec_pos()) == followed_by(
                bump_outcome(self.spec_tokens(), self.spec_pos()),
                trivia_outcome(self.spec_tokens(), self.spec_pos() + 1),
            ));
            self.bump();
            assert(self.state() == run(before, bump_outcome(self.spec_tokens(), before.pos)));
            assert(self.spec_pos() == before.pos + 1);
            assert(run(before, trivia_outcome(self.spec_tokens(), before.pos)) == run(run(before, bump_outcome(self.spec_tokens(), before.pos)), trivia_outcome(self.spec_tokens(), before.pos + 1)));
        }
    }

    /// Open a node of kind `kind`.
    pub fn start_node(&mut self, kind: SyntaxKind)
        requires
            old(self).wf(),
        ensures
            final(self).wf(),
            final(self).spec_tokens() == old(self).spec_tokens(),
            final(self).spec_pos() == old(self).spec_pos(),
            final(self).spec_depth() == old(self).spec_depth() + 1,
            final(self).spec_errors() == old(self).spec_errors(),
            final(self).state() == run(old(self).state(), start_outcome(kind)),
    {
        self.builder.start_node(kind);
        assert(self.state().errors =~= run(old(self).state(), start_outcome(kind)).errors);
        assert(self.state().events =~= run(old(self).state(), start_outcome(kind)).events);
    }

    /// Close the open node.
    pub fn finish_node(&mut self)
        requires
            old(self).wf(),
            old(self).spec_depth() > 0,
        ensures
            final(self).wf(),
            final(self).spec_tokens() == old(self).spec_tokens(),
            final(self).spec_pos() == old(self).spec_pos(),
            final(self).spec_depth() == old(self).spec_depth() - 1,
            final(self).spec_errors() == old(self).spec_errors(),
            final(self).state() == run(old(self).state(), finish_outcome()),
    {
        self.builder.finish_node();
        assert(self.state().errors =~= run(old(self).state(), finish_outcome()).errors);
        assert(self.state().events =~= run(old(self).state(), finish_outcome()).events);
    }

    /// A qualified name: a name, then `::` or `.` and a name, repeatedly,
    /// in a `QUALIFIED_NAME` node. A missing name is noted as a missing
    /// identifier.
    pub fn parse_qualified_name(&mut self)
        requires
            old(self).wf(),
        ensures
            final(self).ran(*old(self), qualified_name_outcome(old(self).spec_tokens(), old(self).spec_pos())),
    {
        let ghost ts = self.spec_tokens();
        let ghost pos0 = self.spec_pos();
        self.start_node(SyntaxKind::QUALIFIED_NAME);
        let ghost s1 = self.state();
        if self.at_name_token() {
            self.bump();
            let ghost s2 = self.state();
            while self.at(SyntaxKind::COLON_COLON) || self.at(SyntaxKind::DOT)
                invariant
                    self.wf(),
                    self.spec_tokens() == ts,
                    self.spec_pos() >= old(self).spec_pos(),
                    self.spec_depth() == old(self).spec_depth() + 1,
                    run(self.state(), qualified_rest_outcome(ts, self.spec_pos())) == run(
                        s2,
                        qualified_rest_outcome(ts, pos0 + 1),
                    ),
                decreases self.remaining(),
            {
                self.bump();
                if self.at_name_token() {
                    self.bump();
                } else {
                    self.error(SyntaxKind::IDENT);
                }
            }
        } else {
            self.error(SyntaxKind::IDENT);
        }
        self.finish_node();
    }

    /// The tree built so far and the missing tokens noted.
    pub fn finish(self) -> (r: (SyntaxTree, Vec<ParseError>))
        requires
            self.wf(),
        ensures
            token_texts(r.0.entries@) == texts_of(self.spec_tokens().take(self.spec_pos())),
            entry_shapes(r.0.entries@) == event_shapes(self.spec_events()),
            r.1@ == self.spec_errors(),
    {
        (self.builder.finish(), self.errors)
    }
}

} // verus!
