//! SysML members whose grammar stands on the expression grammar and on
//! qualified names alone: element filters, view edges and allocation ends.

use vstd::prelude::*;
use crate::expr::{expression_outcome, parse_expression};
use crate::parser::{
    bump_outcome, expect_outcome, finish_outcome, is_name_token, kind_in, peek_from, qualified_name_outcome,
    start_outcome, trivia_outcome, Parser, Token,
};
use crate::steps::{followed_by, nothing, run, Outcome};
use crate::syntax_kind::SyntaxKind;

verus! {

broadcast use crate::steps::lemma_run_followed_by, crate::steps::lemma_run_nothing;

/// `filter expr ;` at `pos`, in an `ELEMENT_FILTER_MEMBER` node; a missing
/// `filter` or `;` is noted.
pub open spec fn filter_outcome(ts: Seq<Token>, pos: int) -> Outcome {
    let k = expect_outcome(ts, pos, SyntaxKind::FILTER_KW);
    let t1 = trivia_outcome(ts, pos + k.consumed);
    let p1 = pos + k.consumed + t1.consumed;
    let e = expression_outcome(ts, p1);
    let t2 = trivia_outcome(ts, p1 + e.consumed);
    let p2 = p1 + e.consumed + t2.consumed;
    followed_by(
        start_outcome(SyntaxKind::ELEMENT_FILTER_MEMBER),
        followed_by(
            k,
            followed_by(
                t1,
                followed_by(e, followed_by(t2, followed_by(expect_outcome(ts, p2, SyntaxKind::SEMICOLON), finish_outcome()))),
            ),
        ),
    )
}

/// A filter member `filter expr ;`.
pub fn parse_filter(p: &mut Parser)
    requires
        old(p).wf(),
    ensures
        final(p).ran(*old(p), filter_outcome(old(p).spec_tokens(), old(p).spec_pos())),
{
    p.start_node(SyntaxKind::ELEMENT_FILTER_MEMBER);
    p.expect(SyntaxKind::FILTER_KW);
    p.skip_trivia();
    parse_expression(p);
    p.skip_trivia();
    p.expect(SyntaxKind::SEMICOLON);
    p.finish_node();
}

/// A qualified name at `pos` and the white space after it, if a name
/// comes there; nothing otherwise.
pub open spec fn optional_name_outcome(ts: Seq<Token>, pos: int) -> Outcome {
    if is_name_token(kind_in(ts, pos)) {
        let n = qualified_name_outcome(ts, pos);
        followed_by(n, trivia_outcome(ts, pos + n.consumed))
    } else {
        nothing()
    }
}

/// One end of a view edge at `pos`, in a `SUCCESSION_ITEM` node.
pub open spec fn edge_end_outcome(ts: Seq<Token>, pos: int) -> Outcome {
    followed_by(
        start_outcome(SyntaxKind::SUCCESSION_ITEM),
        followed_by(optional_name_outcome(ts, pos), finish_outcome()),
    )
}

/// `edge source to target ;` from the `edge` at `pos`, in a `SUCCESSION`
/// node: each end (a name, if one comes) in a `SUCCESSION_ITEM` node, the
/// `to` if present, and the `;` (noted as missing if absent).
pub open spec fn edge_succession_outcome(ts: Seq<Token>, pos: int) -> Outcome {
    let b = bump_outcome(ts, pos);
    let t1 = trivia_outcome(ts, pos + b.consumed);
    let p1 = pos + b.consumed + t1.consumed;
    let src = edge_end_outcome(ts, p1);
    let p2 = p1 + src.consumed;
    let to = if kind_in(ts, p2) == SyntaxKind::TO_KW {
        followed_by(bump_outcome(ts, p2), trivia_outcome(ts, p2 + 1))
    } else {
        nothing()
    };
    let p3 = p2 + to.consumed;
    let tgt = edge_end_outcome(ts, p3);
    let p4 = p3 + tgt.consumed;
    followed_by(
        start_outcome(SyntaxKind::SUCCESSION),
        followed_by(
            b,
            followed_by(
                t1,
                followed_by(
                    src,
                    followed_by(to, followed_by(tgt, followed_by(expect_outcome(ts, p4, SyntaxKind::SEMICOLON), finish_outcome()))),
                ),
            ),
        ),
    )
}

/// A view edge member `edge source to target ;`, where `edge` is the
/// current token.
pub fn parse_edge_succession(p: &mut Parser)
    requires
        old(p).wf(),
    ensures
        final(p).ran(*old(p), edge_succession_outcome(old(p).spec_tokens(), old(p).spec_pos())),
{
    let ghost ts = p.spec_tokens();
    p.start_node(SyntaxKind::SUCCESSION);
    p.bump();
    p.skip_trivia();
    let ghost s0 = p.state();
    p.start_node(SyntaxKind::SUCCESSION_ITEM);
    let ghost s1 = p.state();
    if p.at_name_token() {
        p.parse_qualified_name();
        p.skip_trivia();
    }
    assert(p.state() == run(s1, optional_name_outcome(ts, s1.pos)));
    p.finish_node();
    assert(p.state() == run(s0, edge_end_outcome(ts, s0.pos)));
    let ghost s2 = p.state();
    if p.at(SyntaxKind::TO_KW) {
        p.bump();
        p.skip_trivia();
    }
    assert(p.state() == run(s2, if kind_in(ts, s2.pos) == SyntaxKind::TO_KW {
        followed_by(bump_outcome(ts, s2.pos), trivia_outcome(ts, s2.pos + 1))
    } else {
        nothing()
    }));
    let ghost s3 = p.state();
    p.start_node(SyntaxKind::SUCCESSION_ITEM);
    let ghost s4 = p.state();
    if p.at_name_token() {
        p.parse_qualified_name();
        p.skip_trivia();
    }
    assert(p.state() == run(s4, optional_name_outcome(ts, s4.pos)));
    p.finish_node();
    assert(p.state() == run(s3, edge_end_outcome(ts, s3.pos)));
    p.expect(SyntaxKind::SEMICOLON);
    p.finish_node();
}

/// An allocation end at `pos`: `name ::> qualified-name` when a name is
/// followed by `::>`, else a qualified name, then white space; nothing
/// unless a name comes first.
pub open spec fn allocate_end_outcome(ts: Seq<Token>, pos: int) -> Outcome {
    if is_name_token(kind_in(ts, pos)) {
        let body = if peek_from(ts, pos + 1, 1) == SyntaxKind::COLON_COLON_GT {
            let t1 = trivia_outcome(ts, pos + 1);
            let p1 = pos + 1 + t1.consumed;
            let b2 = bump_outcome(ts, p1);
            let t2 = trivia_outcome(ts, p1 + b2.consumed);
            let p2 = p1 + b2.consumed + t2.consumed;
            followed_by(
                bump_outcome(ts, pos),
                followed_by(
                    t1,
                    followed_by(
                        b2,
                        followed_by(t2, if is_name_token(kind_in(ts, p2)) { qualified_name_outcome(ts, p2) } else { nothing() }),
                    ),
                ),
            )
        } else {
            qualified_name_outcome(ts, pos)
        };
        followed_by(body, trivia_outcome(ts, pos + body.consumed))
    } else {
        nothing()
    }
}

/// An allocation end member `[name ::>] qualified-name`.
pub fn parse_allocate_end_member(p: &mut Parser)
    requires
        old(p).wf(),
    ensures
        final(p).ran(*old(p), allocate_end_outcome(old(p).spec_tokens(), old(p).spec_pos())),
{
    let ghost ts = p.spec_tokens();
    let ghost s0 = p.state();
    if p.at_name_token() {
        let lookahead: usize = 1;
        if p.peek_kind(lookahead) == SyntaxKind::COLON_COLON_GT {
            p.bump();
            p.skip_trivia();
            p.bump();
            p.skip_trivia();
            let ghost s2 = p.state();
            if p.at_name_token() {
                p.parse_qualified_name();
            }
            assert(p.state() == run(s2, if is_name_token(kind_in(ts, s2.pos)) { qualified_name_outcome(ts, s2.pos) } else { nothing() }));
        } else {
            p.parse_qualified_name();
        }
        let ghost s3 = p.state();
        p.skip_trivia();
        assert(p.state() == run(s3, trivia_outcome(ts, s3.pos)));
    }
}

} // verus!
