//! The SysML keyword classes and prefix metadata `#name`.

use vstd::prelude::*;
use crate::parser::{
    bump_outcome, expect_outcome, finish_outcome, is_name_token, kind_in, peek_from, qualified_name_outcome,
    start_outcome, trivia_outcome, Parser, Token,
};
use crate::steps::{followed_by, nothing, run, Outcome};
use crate::syntax_kind::SyntaxKind;

verus! {

broadcast use crate::steps::lemma_run_followed_by, crate::steps::lemma_run_nothing;

/// Whether `kind` is a keyword that can precede `def` in a SysML definition.
pub open spec fn spec_is_sysml_definition_keyword(kind: SyntaxKind) -> bool {
    matches!(kind, SyntaxKind::PART_KW | SyntaxKind::ATTRIBUTE_KW | SyntaxKind::PORT_KW | SyntaxKind::ITEM_KW | SyntaxKind::ACTION_KW | SyntaxKind::STATE_KW | SyntaxKind::CONSTRAINT_KW | SyntaxKind::REQUIREMENT_KW | SyntaxKind::CASE_KW | SyntaxKind::CALC_KW | SyntaxKind::CONNECTION_KW | SyntaxKind::INTERFACE_KW | SyntaxKind::ALLOCATION_KW | SyntaxKind::FLOW_KW | SyntaxKind::RENDERING_KW | SyntaxKind::VIEW_KW | SyntaxKind::VIEWPOINT_KW | SyntaxKind::ANALYSIS_KW | SyntaxKind::VERIFICATION_KW | SyntaxKind::OCCURRENCE_KW | SyntaxKind::CONCERN_KW | SyntaxKind::METADATA_KW | SyntaxKind::ENUM_KW | SyntaxKind::ACTOR_KW)
}

/// Whether `kind` is a keyword that can precede `def` in a SysML definition.
#[verifier::when_used_as_spec(spec_is_sysml_definition_keyword)]
pub fn is_sysml_definition_keyword(kind: SyntaxKind) -> (r: bool)
    ensures
        r == spec_is_sysml_definition_keyword(kind),
{
    matches!(kind, SyntaxKind::PART_KW | SyntaxKind::ATTRIBUTE_KW | SyntaxKind::PORT_KW | SyntaxKind::ITEM_KW | SyntaxKind::ACTION_KW | SyntaxKind::STATE_KW | SyntaxKind::CONSTRAINT_KW | SyntaxKind::REQUIREMENT_KW | SyntaxKind::CASE_KW | SyntaxKind::CALC_KW | SyntaxKind::CONNECTION_KW | SyntaxKind::INTERFACE_KW | SyntaxKind::ALLOCATION_KW | SyntaxKind::FLOW_KW | SyntaxKind::RENDERING_KW | SyntaxKind::VIEW_KW | SyntaxKind::VIEWPOINT_KW | SyntaxKind::ANALYSIS_KW | SyntaxKind::VERIFICATION_KW | SyntaxKind::OCCURRENCE_KW | SyntaxKind::CONCERN_KW | SyntaxKind::METADATA_KW | SyntaxKind::ENUM_KW | SyntaxKind::ACTOR_KW)
}

/// Whether `kind` is a keyword that can introduce a SysML usage.
pub open spec fn spec_is_sysml_usage_keyword(kind: SyntaxKind) -> bool {
    matches!(kind, SyntaxKind::PART_KW | SyntaxKind::ATTRIBUTE_KW | SyntaxKind::PORT_KW | SyntaxKind::ITEM_KW | SyntaxKind::ACTION_KW | SyntaxKind::STATE_KW | SyntaxKind::CONSTRAINT_KW | SyntaxKind::REQUIREMENT_KW | SyntaxKind::CASE_KW | SyntaxKind::CALC_KW | SyntaxKind::CONNECTION_KW | SyntaxKind::INTERFACE_KW | SyntaxKind::ALLOCATION_KW | SyntaxKind::FLOW_KW | SyntaxKind::RENDERING_KW | SyntaxKind::VIEW_KW | SyntaxKind::VIEWPOINT_KW | SyntaxKind::ANALYSIS_KW | SyntaxKind::VERIFICATION_KW | SyntaxKind::OCCURRENCE_KW | SyntaxKind::INDIVIDUAL_KW | SyntaxKind::REF_KW | SyntaxKind::EXHIBIT_KW | SyntaxKind::INCLUDE_KW | SyntaxKind::PERFORM_KW | SyntaxKind::ACCEPT_KW | SyntaxKind::SEND_KW | SyntaxKind::SATISFY_KW | SyntaxKind::CONCERN_KW | SyntaxKind::METADATA_KW | SyntaxKind::ENUM_KW | SyntaxKind::MESSAGE_KW | SyntaxKind::SNAPSHOT_KW | SyntaxKind::TIMESLICE_KW | SyntaxKind::FRAME_KW | SyntaxKind::RENDER_KW | SyntaxKind::THEN_KW | SyntaxKind::ELSE_KW | SyntaxKind::WHILE_KW | SyntaxKind::LOOP_KW | SyntaxKind::UNTIL_KW | SyntaxKind::IF_KW | SyntaxKind::ASSERT_KW | SyntaxKind::ASSUME_KW | SyntaxKind::REQUIRE_KW | SyntaxKind::SUBJECT_KW | SyntaxKind::ACTOR_KW | SyntaxKind::OBJECTIVE_KW | SyntaxKind::STAKEHOLDER_KW)
}

/// Whether `kind` is a keyword that can introduce a SysML usage.
#[verifier::when_used_as_spec(spec_is_sysml_usage_keyword)]
pub fn is_sysml_usage_keyword(kind: SyntaxKind) -> (r: bool)
    ensures
        r == spec_is_sysml_usage_keyword(kind),
{
    matches!(kind, SyntaxKind::PART_KW | SyntaxKind::ATTRIBUTE_KW | SyntaxKind::PORT_KW | SyntaxKind::ITEM_KW | SyntaxKind::ACTION_KW | SyntaxKind::STATE_KW | SyntaxKind::CONSTRAINT_KW | SyntaxKind::REQUIREMENT_KW | SyntaxKind::CASE_KW | SyntaxKind::CALC_KW | SyntaxKind::CONNECTION_KW | SyntaxKind::INTERFACE_KW | SyntaxKind::ALLOCATION_KW | SyntaxKind::FLOW_KW | SyntaxKind::RENDERING_KW | SyntaxKind::VIEW_KW | SyntaxKind::VIEWPOINT_KW | SyntaxKind::ANALYSIS_KW | SyntaxKind::VERIFICATION_KW | SyntaxKind::OCCURRENCE_KW | SyntaxKind::INDIVIDUAL_KW | SyntaxKind::REF_KW | SyntaxKind::EXHIBIT_KW | SyntaxKind::INCLUDE_KW | SyntaxKind::PERFORM_KW | SyntaxKind::ACCEPT_KW | SyntaxKind::SEND_KW | SyntaxKind::SATISFY_KW | SyntaxKind::CONCERN_KW | SyntaxKind::METADATA_KW | SyntaxKind::ENUM_KW | SyntaxKind::MESSAGE_KW | SyntaxKind::SNAPSHOT_KW | SyntaxKind::TIMESLICE_KW | SyntaxKind::FRAME_KW | SyntaxKind::RENDER_KW | SyntaxKind::THEN_KW | SyntaxKind::ELSE_KW | SyntaxKind::WHILE_KW | SyntaxKind::LOOP_KW | SyntaxKind::UNTIL_KW | SyntaxKind::IF_KW | SyntaxKind::ASSERT_KW | SyntaxKind::ASSUME_KW | SyntaxKind::REQUIRE_KW | SyntaxKind::SUBJECT_KW | SyntaxKind::ACTOR_KW | SyntaxKind::OBJECTIVE_KW | SyntaxKind::STAKEHOLDER_KW)
}

/// Whether `kind` is a usage prefix keyword (`ref`, `readonly`, `derived`, direction, portion kind, ...).
pub open spec fn spec_is_usage_prefix(kind: SyntaxKind) -> bool {
    matches!(kind, SyntaxKind::REF_KW | SyntaxKind::READONLY_KW | SyntaxKind::DERIVED_KW | SyntaxKind::CONSTANT_KW | SyntaxKind::END_KW | SyntaxKind::ABSTRACT_KW | SyntaxKind::VARIATION_KW | SyntaxKind::VAR_KW | SyntaxKind::COMPOSITE_KW | SyntaxKind::PORTION_KW | SyntaxKind::INDIVIDUAL_KW | SyntaxKind::IN_KW | SyntaxKind::OUT_KW | SyntaxKind::INOUT_KW | SyntaxKind::RETURN_KW | SyntaxKind::EVENT_KW | SyntaxKind::THEN_KW | SyntaxKind::SNAPSHOT_KW | SyntaxKind::TIMESLICE_KW)
}

/// Whether `kind` is a usage prefix keyword (`ref`, `readonly`, `derived`, direction, portion kind, ...).
#[verifier::when_used_as_spec(spec_is_usage_prefix)]
pub fn is_usage_prefix(kind: SyntaxKind) -> (r: bool)
    ensures
        r == spec_is_usage_prefix(kind),
{
    matches!(kind, SyntaxKind::REF_KW | SyntaxKind::READONLY_KW | SyntaxKind::DERIVED_KW | SyntaxKind::CONSTANT_KW | SyntaxKind::END_KW | SyntaxKind::ABSTRACT_KW | SyntaxKind::VARIATION_KW | SyntaxKind::VAR_KW | SyntaxKind::COMPOSITE_KW | SyntaxKind::PORTION_KW | SyntaxKind::INDIVIDUAL_KW | SyntaxKind::IN_KW | SyntaxKind::OUT_KW | SyntaxKind::INOUT_KW | SyntaxKind::RETURN_KW | SyntaxKind::EVENT_KW | SyntaxKind::THEN_KW | SyntaxKind::SNAPSHOT_KW | SyntaxKind::TIMESLICE_KW)
}

/// Prefix metadata at `pos`, in a `PREFIX_METADATA` node: `#` (noted as
/// missing if absent), white space, then a qualified name if a name
/// follows.
pub open spec fn prefix_metadata_outcome(ts: Seq<Token>, pos: int) -> Outcome {
    let h = expect_outcome(ts, pos, SyntaxKind::HASH);
    let t = trivia_outcome(ts, pos + h.consumed);
    let p1 = pos + h.consumed + t.consumed;
    followed_by(
        start_outcome(SyntaxKind::PREFIX_METADATA),
        followed_by(
            h,
            followed_by(
                t,
                followed_by(
                    if is_name_token(kind_in(ts, p1)) {
                        qualified_name_outcome(ts, p1)
                    } else {
                        nothing()
                    },
                    finish_outcome(),
                ),
            ),
        ),
    )
}

/// Prefix metadata `#name` or `#a::b`, in a `PREFIX_METADATA` node: `#`
/// (noted as missing if absent), trivia, then the name if one follows.
pub fn parse_prefix_metadata(p: &mut Parser)
    requires
        old(p).wf(),
    ensures
        final(p).ran(*old(p), prefix_metadata_outcome(old(p).spec_tokens(), old(p).spec_pos())),
        old(p).current() == SyntaxKind::HASH ==> final(p).spec_pos() > old(p).spec_pos(),
{
    let ghost ts = p.spec_tokens();
    p.start_node(SyntaxKind::PREFIX_METADATA);
    p.expect(SyntaxKind::HASH);
    p.skip_trivia();
    let ghost s1 = p.state();
    if p.at_name_token() {
        p.parse_qualified_name();
    }
    assert(p.state() == run(s1, if is_name_token(kind_in(ts, s1.pos)) {
        qualified_name_outcome(ts, s1.pos)
    } else {
        nothing()
    }));
    p.finish_node();
}


/// A definition keyword at `pos`: `use` with white space and an optional
/// `case`, or one of the definition keywords; nothing otherwise.
pub open spec fn definition_keyword_outcome(ts: Seq<Token>, pos: int) -> Outcome {
    let k = kind_in(ts, pos);
    if k == SyntaxKind::USE_KW {
        let t = trivia_outcome(ts, pos + 1);
        let p1 = pos + 1 + t.consumed;
        followed_by(
            bump_outcome(ts, pos),
            followed_by(t, if kind_in(ts, p1) == SyntaxKind::CASE_KW { bump_outcome(ts, p1) } else { nothing() }),
        )
    } else if spec_is_sysml_definition_keyword(k) {
        bump_outcome(ts, pos)
    } else {
        nothing()
    }
}

/// The keyword of a definition: `use case` (or `use` alone), or a
/// definition keyword.
pub fn parse_definition_keyword(p: &mut Parser)
    requires
        old(p).wf(),
    ensures
        final(p).ran(*old(p), definition_keyword_outcome(old(p).spec_tokens(), old(p).spec_pos())),
{
    let ghost ts = p.spec_tokens();
    if p.at(SyntaxKind::USE_KW) {
        p.bump();
        p.skip_trivia();
        let ghost s1 = p.state();
        if p.at(SyntaxKind::CASE_KW) {
            p.bump();
        }
        assert(p.state() == run(s1, if kind_in(ts, s1.pos) == SyntaxKind::CASE_KW { bump_outcome(ts, s1.pos) } else { nothing() }));
        return;
    }
    if is_sysml_definition_keyword(p.current_kind()) {
        p.bump();
    }
}

/// Whether `kind` can start a definition or usage: a definition or usage
/// keyword, or a prefix keyword.
pub open spec fn spec_is_definition_or_usage_start(kind: SyntaxKind) -> bool {
    matches!(kind, SyntaxKind::PART_KW | SyntaxKind::ATTRIBUTE_KW | SyntaxKind::PORT_KW | SyntaxKind::ITEM_KW | SyntaxKind::STATE_KW | SyntaxKind::OCCURRENCE_KW | SyntaxKind::CONSTRAINT_KW | SyntaxKind::REQUIREMENT_KW | SyntaxKind::CASE_KW | SyntaxKind::CALC_KW | SyntaxKind::CONNECTION_KW | SyntaxKind::INTERFACE_KW | SyntaxKind::ALLOCATION_KW | SyntaxKind::VIEW_KW | SyntaxKind::ACTION_KW | SyntaxKind::VIEWPOINT_KW | SyntaxKind::RENDERING_KW | SyntaxKind::METADATA_KW | SyntaxKind::ENUM_KW | SyntaxKind::ANALYSIS_KW | SyntaxKind::VERIFICATION_KW | SyntaxKind::USE_KW | SyntaxKind::CONCERN_KW | SyntaxKind::FLOW_KW | SyntaxKind::PARALLEL_KW | SyntaxKind::EVENT_KW | SyntaxKind::MESSAGE_KW | SyntaxKind::SNAPSHOT_KW | SyntaxKind::TIMESLICE_KW | SyntaxKind::ABSTRACT_KW | SyntaxKind::VARIATION_KW | SyntaxKind::INDIVIDUAL_KW | SyntaxKind::DERIVED_KW | SyntaxKind::READONLY_KW | SyntaxKind::VAR_KW | SyntaxKind::REF_KW | SyntaxKind::COMPOSITE_KW | SyntaxKind::PORTION_KW | SyntaxKind::IN_KW | SyntaxKind::OUT_KW | SyntaxKind::INOUT_KW | SyntaxKind::END_KW)
}

/// Whether the current token can start a definition or usage.
pub fn is_definition_or_usage_start(p: &Parser) -> (r: bool)
    ensures
        r == spec_is_definition_or_usage_start(p.current()),
{
    let kind = p.current_kind();
    matches!(kind, SyntaxKind::PART_KW | SyntaxKind::ATTRIBUTE_KW | SyntaxKind::PORT_KW | SyntaxKind::ITEM_KW | SyntaxKind::STATE_KW | SyntaxKind::OCCURRENCE_KW | SyntaxKind::CONSTRAINT_KW | SyntaxKind::REQUIREMENT_KW | SyntaxKind::CASE_KW | SyntaxKind::CALC_KW | SyntaxKind::CONNECTION_KW | SyntaxKind::INTERFACE_KW | SyntaxKind::ALLOCATION_KW | SyntaxKind::VIEW_KW | SyntaxKind::ACTION_KW | SyntaxKind::VIEWPOINT_KW | SyntaxKind::RENDERING_KW | SyntaxKind::METADATA_KW | SyntaxKind::ENUM_KW | SyntaxKind::ANALYSIS_KW | SyntaxKind::VERIFICATION_KW | SyntaxKind::USE_KW | SyntaxKind::CONCERN_KW | SyntaxKind::FLOW_KW | SyntaxKind::PARALLEL_KW | SyntaxKind::EVENT_KW | SyntaxKind::MESSAGE_KW | SyntaxKind::SNAPSHOT_KW | SyntaxKind::TIMESLICE_KW | SyntaxKind::ABSTRACT_KW | SyntaxKind::VARIATION_KW | SyntaxKind::INDIVIDUAL_KW | SyntaxKind::DERIVED_KW | SyntaxKind::READONLY_KW | SyntaxKind::VAR_KW | SyntaxKind::REF_KW | SyntaxKind::COMPOSITE_KW | SyntaxKind::PORTION_KW | SyntaxKind::IN_KW | SyntaxKind::OUT_KW | SyntaxKind::INOUT_KW | SyntaxKind::END_KW)
}

/// The kind of the token `n` places ahead of `pos`, not counting white
/// space: the token at `pos` itself for `n == 0`.
pub open spec fn peek_ahead(ts: Seq<Token>, pos: int, n: nat) -> SyntaxKind {
    if n == 0 {
        kind_in(ts, pos)
    } else {
        peek_from(ts, pos + 1, n)
    }
}

/// Whether a token of kind `k` ends the scan for `def`.
pub open spec fn ends_def_scan(k: SyntaxKind) -> bool {
    k == SyntaxKind::SEMICOLON || k == SyntaxKind::L_BRACE || k == SyntaxKind::COLON || k == SyntaxKind::COLON_GT
        || k == SyntaxKind::COLON_GT_GT || k == SyntaxKind::EQ || k == SyntaxKind::ERROR
}

/// Whether `def` comes among the tokens `i` to 19 ahead of `pos`, before
/// any token that ends the scan.
pub open spec fn def_ahead_from(ts: Seq<Token>, pos: int, i: nat) -> bool
    decreases 20 - i,
{
    if i >= 20 {
        false
    } else {
        let k = peek_ahead(ts, pos, i);
        if k == SyntaxKind::DEF_KW {
            true
        } else if ends_def_scan(k) {
            false
        } else {
            def_ahead_from(ts, pos, i + 1)
        }
    }
}

/// Whether the declaration at the current token has a `def` keyword
/// among the next twenty tokens, before a `;`, `{`, `:`, `:>`, `:>>`,
/// `=` or the end of the input.
pub fn has_def_keyword(p: &Parser) -> (r: bool)
    ensures
        r == def_ahead_from(p.spec_tokens(), p.spec_pos(), 0),
{
    let mut i: usize = 0;
    while i < 20
        invariant
            i <= 20,
            def_ahead_from(p.spec_tokens(), p.spec_pos(), 0) == def_ahead_from(p.spec_tokens(), p.spec_pos(), i as nat),
        decreases 20 - i,
    {
        let kind = p.peek_kind(i);
        proof {
            assert(kind == peek_ahead(p.spec_tokens(), p.spec_pos(), i as nat));
        }
        if kind == SyntaxKind::DEF_KW {
            return true;
        }
        if kind == SyntaxKind::SEMICOLON || kind == SyntaxKind::L_BRACE || kind == SyntaxKind::COLON
            || kind == SyntaxKind::COLON_GT || kind == SyntaxKind::COLON_GT_GT || kind == SyntaxKind::EQ
            || kind == SyntaxKind::ERROR {
            return false;
        }
        i = i + 1;
    }
    false
}

/// Whether a token of kind `k` shows a declaration rather than flow
/// endpoints.
pub open spec fn shows_declaration(k: SyntaxKind) -> bool {
    k == SyntaxKind::COLON || k == SyntaxKind::EQ || k == SyntaxKind::COLON_EQ || k == SyntaxKind::COLON_GT
        || k == SyntaxKind::COLON_GT_GT || k == SyntaxKind::SPECIALIZES_KW
}

/// The scan for `to` over the tokens `i` to 8 ahead of `pos`: true at a
/// `to` not preceded by `from`, false at a `to` after `from`, at a token
/// showing a declaration, at `;`, `{` or the end of the input, or when
/// none of these comes.
pub open spec fn direct_flow_from(ts: Seq<Token>, pos: int, i: nat, saw_from: bool) -> bool
    decreases 9 - i,
{
    if i >= 9 {
        false
    } else {
        let k = peek_ahead(ts, pos, i);
        let seen = saw_from || k == SyntaxKind::FROM_KW;
        if k == SyntaxKind::TO_KW {
            !seen
        } else if shows_declaration(k) || k == SyntaxKind::SEMICOLON || k == SyntaxKind::L_BRACE || k == SyntaxKind::ERROR {
            false
        } else {
            direct_flow_from(ts, pos, i + 1, seen)
        }
    }
}

/// Whether a flow is written with direct endpoints (`flow a.b to c.d`)
/// rather than as a declaration (`flow name : T`, `flow name from a to b`).
pub open spec fn spec_direct_flow_ahead(ts: Seq<Token>, pos: int) -> bool {
    if kind_in(ts, pos) == SyntaxKind::FROM_KW {
        false
    } else if peek_ahead(ts, pos, 1) == SyntaxKind::COLON {
        false
    } else {
        direct_flow_from(ts, pos, 1, false)
    }
}

/// Whether the flow at the current token has direct endpoints: no `from`
/// here, no `:` next, and a `to` among the next eight tokens with no `from`
/// before it and nothing that shows a declaration or ends the statement.
pub fn peek_for_direct_flow(p: &Parser) -> (r: bool)
    ensures
        r == spec_direct_flow_ahead(p.spec_tokens(), p.spec_pos()),
{
    if p.current_kind() == SyntaxKind::FROM_KW {
        return false;
    }
    if p.peek_kind(1) == SyntaxKind::COLON {
        return false;
    }
    let mut saw_from = false;
    let mut i: usize = 1;
    while i < 9
        invariant
            1 <= i <= 9,
            spec_direct_flow_ahead(p.spec_tokens(), p.spec_pos()) == direct_flow_from(p.spec_tokens(), p.spec_pos(), 1, false),
            direct_flow_from(p.spec_tokens(), p.spec_pos(), 1, false) == direct_flow_from(
                p.spec_tokens(),
                p.spec_pos(),
                i as nat,
                saw_from,
            ),
        decreases 9 - i,
    {
        let kind = p.peek_kind(i);
        proof {
            assert(kind == peek_ahead(p.spec_tokens(), p.spec_pos(), i as nat));
        }
        if kind == SyntaxKind::FROM_KW {
            saw_from = true;
        }
        if kind == SyntaxKind::TO_KW {
            if saw_from {
                return false;
            }
            return true;
        }
        if kind == SyntaxKind::COLON || kind == SyntaxKind::EQ || kind == SyntaxKind::COLON_EQ || kind == SyntaxKind::COLON_GT
            || kind == SyntaxKind::COLON_GT_GT || kind == SyntaxKind::SPECIALIZES_KW {
            return false;
        }
        if kind == SyntaxKind::SEMICOLON || kind == SyntaxKind::L_BRACE || kind == SyntaxKind::ERROR {
            return false;
        }
        i = i + 1;
    }
    false
}

} // verus!
