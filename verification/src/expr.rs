//! Expressions, by precedence from the conditional down to the atoms:
//!
//! ```text
//! Expression -> Conditional -> NullCoalescing -> Implies -> Or -> Xor -> And
//!     -> Equality -> Classification -> Relational -> Range -> Additive
//!     -> Multiplicative -> Exponentiation -> Unary -> Extent -> Primary
//! ```
//!
//! Each rule is stated as a spec function from the input tokens and a start
//! position to the step it takes there (the tokens it consumes, the tree
//! events it makes, the missing tokens it notes), and the parsing function
//! of the rule is proved to take exactly that step. The rules are measured
//! by the tokens left and then by their rank in the list above, so each one
//! that calls another at the same position calls one of lower rank.

use vstd::prelude::*;
use crate::parser::{
    bump_outcome, error_outcome, expect_outcome, finish_outcome, is_name_token, kind_in,
    peek_from, qualified_name_outcome, start_outcome, tokens_left, trivia_outcome, Parser,
    Token,
};
use crate::steps::{followed_by, nothing, run, Outcome};
use crate::syntax_kind::SyntaxKind;

verus! {

broadcast use crate::steps::lemma_run_followed_by, crate::steps::lemma_run_nothing;

/// An expression at `pos`: a conditional expression.
pub open spec fn expression_outcome(ts: Seq<Token>, pos: int) -> Outcome
    decreases tokens_left(ts, pos), 59nat,
{
    conditional_outcome(ts, pos)
}

/// An optional `else` and expression at `pos`.
pub open spec fn else_outcome(ts: Seq<Token>, pos: int) -> Outcome
    decreases tokens_left(ts, pos), 53nat,
{
    if kind_in(ts, pos) == SyntaxKind::ELSE_KW {
        let t = trivia_outcome(ts, pos + 1);
        followed_by(bump_outcome(ts, pos), followed_by(t, expression_outcome(ts, pos + 1 + t.consumed)))
    } else {
        nothing()
    }
}

/// The rest of an `if` expression after its condition, from the `?` or
/// `then` at `pos`: the expression, then an optional `else` branch.
pub open spec fn branch_outcome(ts: Seq<Token>, pos: int) -> Outcome
    decreases tokens_left(ts, pos), 54nat,
{
    let k = kind_in(ts, pos);
    if k == SyntaxKind::QUESTION || k == SyntaxKind::THEN_KW {
        let t1 = trivia_outcome(ts, pos + 1);
        let p1 = pos + 1 + t1.consumed;
        let e = expression_outcome(ts, p1);
        let p2 = p1 + e.consumed;
        let t2 = trivia_outcome(ts, p2);
        followed_by(
            bump_outcome(ts, pos),
            followed_by(t1, followed_by(e, followed_by(t2, else_outcome(ts, p2 + t2.consumed)))),
        )
    } else {
        nothing()
    }
}

/// The `? a : b` rest of a conditional expression, from the `?` at `pos`.
pub open spec fn inline_conditional_outcome(ts: Seq<Token>, pos: int) -> Outcome
    decreases tokens_left(ts, pos), 55nat,
{
    if kind_in(ts, pos) == SyntaxKind::QUESTION {
        let t1 = trivia_outcome(ts, pos + 1);
        let p1 = pos + 1 + t1.consumed;
        let e1 = expression_outcome(ts, p1);
        let p2 = p1 + e1.consumed;
        let t2 = trivia_outcome(ts, p2);
        let p3 = p2 + t2.consumed;
        let c = expect_outcome(ts, p3, SyntaxKind::COLON);
        let p4 = p3 + c.consumed;
        let t3 = trivia_outcome(ts, p4);
        let p5 = p4 + t3.consumed;
        followed_by(
            bump_outcome(ts, pos),
            followed_by(
                t1,
                followed_by(e1, followed_by(t2, followed_by(c, followed_by(t3, expression_outcome(ts, p5))))),
            ),
        )
    } else {
        nothing()
    }
}

/// What a conditional expression at `pos` holds: `if`, a null-coalescing
/// condition and the branches, or a null-coalescing expression and an
/// optional `? a : b`.
pub open spec fn conditional_body_outcome(ts: Seq<Token>, pos: int) -> Outcome
    decreases tokens_left(ts, pos), 57nat,
{
    if kind_in(ts, pos) == SyntaxKind::IF_KW {
        let t1 = trivia_outcome(ts, pos + 1);
        let p1 = pos + 1 + t1.consumed;
        let n = null_coalescing_outcome(ts, p1);
        let p2 = p1 + n.consumed;
        let t2 = trivia_outcome(ts, p2);
        followed_by(
            bump_outcome(ts, pos),
            followed_by(t1, followed_by(n, followed_by(t2, branch_outcome(ts, p2 + t2.consumed)))),
        )
    } else {
        let n = null_coalescing_outcome(ts, pos);
        let p1 = pos + n.consumed;
        let t = trivia_outcome(ts, p1);
        followed_by(n, followed_by(t, inline_conditional_outcome(ts, p1 + t.consumed)))
    }
}

/// A conditional expression at `pos`, in an `EXPRESSION` node.
pub open spec fn conditional_outcome(ts: Seq<Token>, pos: int) -> Outcome
    decreases tokens_left(ts, pos), 58nat,
{
    followed_by(
        start_outcome(SyntaxKind::EXPRESSION),
        followed_by(conditional_body_outcome(ts, pos), finish_outcome()),
    )
}

/// Implies expressions joined by `??`, at `pos`.
pub open spec fn null_coalescing_outcome(ts: Seq<Token>, pos: int) -> Outcome
    decreases tokens_left(ts, pos), 52nat,
{
    let a = implies_outcome(ts, pos);
    followed_by(a, null_coalescing_rest(ts, pos + a.consumed))
}

/// The `?? implies-expression` parts from `pos` on.
pub open spec fn null_coalescing_rest(ts: Seq<Token>, pos: int) -> Outcome
    decreases tokens_left(ts, pos), 51nat,
{
    if kind_in(ts, pos) == SyntaxKind::QUESTION_QUESTION {
        let t = trivia_outcome(ts, pos + 1);
        let p1 = pos + 1 + t.consumed;
        let b = implies_outcome(ts, p1);
        followed_by(bump_outcome(ts, pos), followed_by(t, followed_by(b, null_coalescing_rest(ts, p1 + b.consumed))))
    } else {
        nothing()
    }
}

/// Or expressions joined by `implies`, at `pos`.
pub open spec fn implies_outcome(ts: Seq<Token>, pos: int) -> Outcome
    decreases tokens_left(ts, pos), 50nat,
{
    let a = or_outcome(ts, pos);
    followed_by(a, implies_rest(ts, pos + a.consumed))
}

/// The `implies or-expression` parts from `pos` on.
pub open spec fn implies_rest(ts: Seq<Token>, pos: int) -> Outcome
    decreases tokens_left(ts, pos), 49nat,
{
    if kind_in(ts, pos) == SyntaxKind::IMPLIES_KW {
        let t = trivia_outcome(ts, pos + 1);
        let p1 = pos + 1 + t.consumed;
        let b = or_outcome(ts, p1);
        followed_by(bump_outcome(ts, pos), followed_by(t, followed_by(b, implies_rest(ts, p1 + b.consumed))))
    } else {
        nothing()
    }
}

/// Xor expressions joined by `|` or `or`, at `pos`.
pub open spec fn or_outcome(ts: Seq<Token>, pos: int) -> Outcome
    decreases tokens_left(ts, pos), 48nat,
{
    let a = xor_outcome(ts, pos);
    let t = trivia_outcome(ts, pos + a.consumed);
    followed_by(a, followed_by(t, or_rest(ts, pos + a.consumed + t.consumed)))
}

/// The `| xor-expression` and `or xor-expression` parts from `pos` on.
pub open spec fn or_rest(ts: Seq<Token>, pos: int) -> Outcome
    decreases tokens_left(ts, pos), 47nat,
{
    let k = kind_in(ts, pos);
    if k == SyntaxKind::PIPE || k == SyntaxKind::OR_KW {
        let t1 = trivia_outcome(ts, pos + 1);
        let p1 = pos + 1 + t1.consumed;
        let b = xor_outcome(ts, p1);
        let t2 = trivia_outcome(ts, p1 + b.consumed);
        followed_by(
            bump_outcome(ts, pos),
            followed_by(t1, followed_by(b, followed_by(t2, or_rest(ts, p1 + b.consumed + t2.consumed)))),
        )
    } else {
        nothing()
    }
}

/// And expressions joined by `xor`, at `pos`.
pub open spec fn xor_outcome(ts: Seq<Token>, pos: int) -> Outcome
    decreases tokens_left(ts, pos), 46nat,
{
    let a = and_outcome(ts, pos);
    let t = trivia_outcome(ts, pos + a.consumed);
    followed_by(a, followed_by(t, xor_rest(ts, pos + a.consumed + t.consumed)))
}

/// The `xor and-expression` parts from `pos` on.
pub open spec fn xor_rest(ts: Seq<Token>, pos: int) -> Outcome
    decreases tokens_left(ts, pos), 45nat,
{
    if kind_in(ts, pos) == SyntaxKind::XOR_KW {
        let t1 = trivia_outcome(ts, pos + 1);
        let p1 = pos + 1 + t1.consumed;
        let b = and_outcome(ts, p1);
        let t2 = trivia_outcome(ts, p1 + b.consumed);
        followed_by(
            bump_outcome(ts, pos),
            followed_by(t1, followed_by(b, followed_by(t2, xor_rest(ts, p1 + b.consumed + t2.consumed)))),
        )
    } else {
        nothing()
    }
}

/// Equality expressions joined by `&` or `and`, at `pos`.
pub open spec fn and_outcome(ts: Seq<Token>, pos: int) -> Outcome
    decreases tokens_left(ts, pos), 44nat,
{
    let a = equality_outcome(ts, pos);
    let t = trivia_outcome(ts, pos + a.consumed);
    followed_by(a, followed_by(t, and_rest(ts, pos + a.consumed + t.consumed)))
}

/// The `& equality-expression` and `and equality-expression` parts from
/// `pos` on.
pub open spec fn and_rest(ts: Seq<Token>, pos: int) -> Outcome
    decreases tokens_left(ts, pos), 43nat,
{
    let k = kind_in(ts, pos);
    if k == SyntaxKind::AMP || k == SyntaxKind::AND_KW {
        let t1 = trivia_outcome(ts, pos + 1);
        let p1 = pos + 1 + t1.consumed;
        let b = equality_outcome(ts, p1);
        let t2 = trivia_outcome(ts, p1 + b.consumed);
        followed_by(
            bump_outcome(ts, pos),
            followed_by(t1, followed_by(b, followed_by(t2, and_rest(ts, p1 + b.consumed + t2.consumed)))),
        )
    } else {
        nothing()
    }
}

/// Classification expressions joined by `==`, `!=`, `===` or `!==`, at
/// `pos`.
pub open spec fn equality_outcome(ts: Seq<Token>, pos: int) -> Outcome
    decreases tokens_left(ts, pos), 42nat,
{
    let a = classification_outcome(ts, pos);
    let t = trivia_outcome(ts, pos + a.consumed);
    followed_by(a, followed_by(t, equality_rest(ts, pos + a.consumed + t.consumed)))
}

/// Whether `k` is an equality operator.
pub open spec fn is_equality_operator(k: SyntaxKind) -> bool {
    k == SyntaxKind::EQ_EQ || k == SyntaxKind::BANG_EQ || k == SyntaxKind::EQ_EQ_EQ || k == SyntaxKind::BANG_EQ_EQ
}

/// The equality operator and classification expression parts from `pos` on.
pub open spec fn equality_rest(ts: Seq<Token>, pos: int) -> Outcome
    decreases tokens_left(ts, pos), 41nat,
{
    if is_equality_operator(kind_in(ts, pos)) {
        let t1 = trivia_outcome(ts, pos + 1);
        let p1 = pos + 1 + t1.consumed;
        let b = classification_outcome(ts, p1);
        let t2 = trivia_outcome(ts, p1 + b.consumed);
        followed_by(
            bump_outcome(ts, pos),
            followed_by(t1, followed_by(b, followed_by(t2, equality_rest(ts, p1 + b.consumed + t2.consumed)))),
        )
    } else {
        nothing()
    }
}

/// Whether `k` starts a classification on the implicit self.
pub open spec fn is_self_classification(k: SyntaxKind) -> bool {
    k == SyntaxKind::HASTYPE_KW || k == SyntaxKind::ISTYPE_KW || k == SyntaxKind::AT
}

/// Whether `k` is a classification or cast operator after an operand.
pub open spec fn is_classification_operator(k: SyntaxKind) -> bool {
    k == SyntaxKind::HASTYPE_KW || k == SyntaxKind::ISTYPE_KW || k == SyntaxKind::AS_KW || k == SyntaxKind::META_KW
        || k == SyntaxKind::AT || k == SyntaxKind::AT_AT
}

/// An operator at `pos`, white space, and a qualified name.
pub open spec fn operator_and_type_outcome(ts: Seq<Token>, pos: int) -> Outcome {
    let t = trivia_outcome(ts, pos + 1);
    followed_by(bump_outcome(ts, pos), followed_by(t, qualified_name_outcome(ts, pos + 1 + t.consumed)))
}

/// A classification expression at `pos`.
pub open spec fn classification_outcome(ts: Seq<Token>, pos: int) -> Outcome
    decreases tokens_left(ts, pos), 40nat,
{
    if is_self_classification(kind_in(ts, pos)) {
        operator_and_type_outcome(ts, pos)
    } else {
        let a = relational_outcome(ts, pos);
        let t = trivia_outcome(ts, pos + a.consumed);
        let p1 = pos + a.consumed + t.consumed;
        followed_by(
            a,
            followed_by(
                t,
                if is_classification_operator(kind_in(ts, p1)) {
                    operator_and_type_outcome(ts, p1)
                } else {
                    nothing()
                },
            ),
        )
    }
}

/// Range expressions joined by `<`, `>`, `<=` or `>=`, at `pos`.
pub open spec fn relational_outcome(ts: Seq<Token>, pos: int) -> Outcome
    decreases tokens_left(ts, pos), 38nat,
{
    let a = range_outcome(ts, pos);
    let t = trivia_outcome(ts, pos + a.consumed);
    followed_by(a, followed_by(t, relational_rest(ts, pos + a.consumed + t.consumed)))
}

/// Whether `k` is a relational operator.
pub open spec fn is_relational_operator(k: SyntaxKind) -> bool {
    k == SyntaxKind::LT || k == SyntaxKind::GT || k == SyntaxKind::LT_EQ || k == SyntaxKind::GT_EQ
}

/// The relational operator and range expression parts from `pos` on.
pub open spec fn relational_rest(ts: Seq<Token>, pos: int) -> Outcome
    decreases tokens_left(ts, pos), 37nat,
{
    if is_relational_operator(kind_in(ts, pos)) {
        let t1 = trivia_outcome(ts, pos + 1);
        let p1 = pos + 1 + t1.consumed;
        let b = range_outcome(ts, p1);
        let t2 = trivia_outcome(ts, p1 + b.consumed);
        followed_by(
            bump_outcome(ts, pos),
            followed_by(t1, followed_by(b, followed_by(t2, relational_rest(ts, p1 + b.consumed + t2.consumed)))),
        )
    } else {
        nothing()
    }
}

/// An additive expression at `pos`, optionally followed by `..` and another.
pub open spec fn range_outcome(ts: Seq<Token>, pos: int) -> Outcome
    decreases tokens_left(ts, pos), 36nat,
{
    let a = additive_outcome(ts, pos);
    let t = trivia_outcome(ts, pos + a.consumed);
    let p1 = pos + a.consumed + t.consumed;
    followed_by(
        a,
        followed_by(
            t,
            if kind_in(ts, p1) == SyntaxKind::DOT_DOT {
                let t2 = trivia_outcome(ts, p1 + 1);
                followed_by(bump_outcome(ts, p1), followed_by(t2, additive_outcome(ts, p1 + 1 + t2.consumed)))
            } else {
                nothing()
            },
        ),
    )
}

/// Multiplicative expressions joined by `+` or `-`, at `pos`.
pub open spec fn additive_outcome(ts: Seq<Token>, pos: int) -> Outcome
    decreases tokens_left(ts, pos), 34nat,
{
    let a = multiplicative_outcome(ts, pos);
    followed_by(a, additive_rest(ts, pos + a.consumed))
}

/// Whether `k` joins two multiplicative expressions: `+` or `-`.
pub open spec fn is_additive_operator(k: SyntaxKind) -> bool {
    k == SyntaxKind::PLUS || k == SyntaxKind::MINUS
}

/// The `+` or `-` and multiplicative expression parts from `pos` on.
pub open spec fn additive_rest(ts: Seq<Token>, pos: int) -> Outcome
    decreases tokens_left(ts, pos), 33nat,
{
    let k = kind_in(ts, pos);
    if is_additive_operator(k) {
        let t = trivia_outcome(ts, pos + 1);
        let p1 = pos + 1 + t.consumed;
        let b = multiplicative_outcome(ts, p1);
        followed_by(bump_outcome(ts, pos), followed_by(t, followed_by(b, additive_rest(ts, p1 + b.consumed))))
    } else {
        nothing()
    }
}

/// Exponentiation expressions joined by `*`, `/` or `%`, at `pos`.
pub open spec fn multiplicative_outcome(ts: Seq<Token>, pos: int) -> Outcome
    decreases tokens_left(ts, pos), 32nat,
{
    let a = exponentiation_outcome(ts, pos);
    followed_by(a, multiplicative_rest(ts, pos + a.consumed))
}

/// The `*`, `/` or `%` and exponentiation expression parts from `pos` on.
pub open spec fn multiplicative_rest(ts: Seq<Token>, pos: int) -> Outcome
    decreases tokens_left(ts, pos), 31nat,
{
    let k = kind_in(ts, pos);
    if k == SyntaxKind::STAR || k == SyntaxKind::SLASH || k == SyntaxKind::PERCENT {
        let t = trivia_outcome(ts, pos + 1);
        let p1 = pos + 1 + t.consumed;
        let b = exponentiation_outcome(ts, p1);
        followed_by(bump_outcome(ts, pos), followed_by(t, followed_by(b, multiplicative_rest(ts, p1 + b.consumed))))
    } else {
        nothing()
    }
}

/// A unary expression at `pos`, optionally followed by `**` or `^` and an
/// exponentiation expression.
pub open spec fn exponentiation_outcome(ts: Seq<Token>, pos: int) -> Outcome
    decreases tokens_left(ts, pos), 30nat,
{
    let a = unary_outcome(ts, pos);
    let t = trivia_outcome(ts, pos + a.consumed);
    let p1 = pos + a.consumed + t.consumed;
    let k = kind_in(ts, p1);
    followed_by(
        a,
        followed_by(
            t,
            if k == SyntaxKind::STAR_STAR || k == SyntaxKind::CARET {
                let t2 = trivia_outcome(ts, p1 + 1);
                followed_by(bump_outcome(ts, p1), followed_by(t2, exponentiation_outcome(ts, p1 + 1 + t2.consumed)))
            } else {
                nothing()
            },
        ),
    )
}

/// Whether `k` is a unary operator.
pub open spec fn is_unary_operator(k: SyntaxKind) -> bool {
    k == SyntaxKind::PLUS || k == SyntaxKind::MINUS || k == SyntaxKind::TILDE || k == SyntaxKind::NOT_KW
}

/// An optional unary operator at `pos`, then an extent expression.
pub open spec fn unary_outcome(ts: Seq<Token>, pos: int) -> Outcome
    decreases tokens_left(ts, pos), 28nat,
{
    if is_unary_operator(kind_in(ts, pos)) {
        let t = trivia_outcome(ts, pos + 1);
        followed_by(bump_outcome(ts, pos), followed_by(t, extent_outcome(ts, pos + 1 + t.consumed)))
    } else {
        extent_outcome(ts, pos)
    }
}

/// An optional `all` at `pos`, then a primary expression.
pub open spec fn extent_outcome(ts: Seq<Token>, pos: int) -> Outcome
    decreases tokens_left(ts, pos), 26nat,
{
    if kind_in(ts, pos) == SyntaxKind::ALL_KW {
        let t = trivia_outcome(ts, pos + 1);
        followed_by(bump_outcome(ts, pos), followed_by(t, primary_outcome(ts, pos + 1 + t.consumed)))
    } else {
        primary_outcome(ts, pos)
    }
}

/// A primary expression at `pos`: a base expression.
pub open spec fn primary_outcome(ts: Seq<Token>, pos: int) -> Outcome
    decreases tokens_left(ts, pos), 24nat,
{
    base_outcome(ts, pos)
}

/// A base expression: white space from `pos` on, then, by the next token,
/// a literal, an instantiation, a block, a parenthesized expression, a
/// feature reference or a metadata access; nothing more otherwise.
pub open spec fn base_outcome(ts: Seq<Token>, pos: int) -> Outcome
    decreases tokens_left(ts, pos), 22nat,
{
    let t = trivia_outcome(ts, pos);
    let q = pos + t.consumed;
    let k = kind_in(ts, q);
    followed_by(
        t,
        if is_literal_kind(k) {
            bump_outcome(ts, q)
        } else if k == SyntaxKind::NEW_KW {
            instantiation_outcome(ts, q)
        } else if k == SyntaxKind::L_BRACE {
            block_outcome(ts, q)
        } else if k == SyntaxKind::L_PAREN {
            parenthesized_outcome(ts, q)
        } else if spec_is_feature_reference_token(k) {
            feature_reference_outcome(ts, q)
        } else if k == SyntaxKind::AT {
            metadata_access_outcome(ts, q)
        } else {
            nothing()
        },
    )
}

/// `new T` or `new T(args)` from the `new` at `pos`.
pub open spec fn instantiation_outcome(ts: Seq<Token>, pos: int) -> Outcome
    decreases tokens_left(ts, pos), 20nat,
{
    if kind_in(ts, pos) == SyntaxKind::NEW_KW {
        let t1 = trivia_outcome(ts, pos + 1);
        let p1 = pos + 1 + t1.consumed;
        let n = qualified_name_outcome(ts, p1);
        let t2 = trivia_outcome(ts, p1 + n.consumed);
        let p2 = p1 + n.consumed + t2.consumed;
        followed_by(
            bump_outcome(ts, pos),
            followed_by(
                t1,
                followed_by(
                    n,
                    followed_by(
                        t2,
                        if kind_in(ts, p2) == SyntaxKind::L_PAREN {
                            argument_list_outcome(ts, p2)
                        } else {
                            nothing()
                        },
                    ),
                ),
            ),
        )
    } else {
        nothing()
    }
}

/// `{ expr }` from the `{` at `pos`; the expression may be absent.
pub open spec fn block_outcome(ts: Seq<Token>, pos: int) -> Outcome
    decreases tokens_left(ts, pos), 20nat,
{
    if kind_in(ts, pos) == SyntaxKind::L_BRACE {
        let t1 = trivia_outcome(ts, pos + 1);
        let p1 = pos + 1 + t1.consumed;
        let e = if kind_in(ts, p1) != SyntaxKind::R_BRACE {
            expression_outcome(ts, p1)
        } else {
            nothing()
        };
        let t2 = trivia_outcome(ts, p1 + e.consumed);
        let p2 = p1 + e.consumed + t2.consumed;
        followed_by(
            bump_outcome(ts, pos),
            followed_by(t1, followed_by(e, followed_by(t2, expect_outcome(ts, p2, SyntaxKind::R_BRACE)))),
        )
    } else {
        nothing()
    }
}

/// `(e)` or `(e1, e2, ...)` from the `(` at `pos`; the expressions may be
/// absent.
pub open spec fn parenthesized_outcome(ts: Seq<Token>, pos: int) -> Outcome
    decreases tokens_left(ts, pos), 20nat,
{
    if kind_in(ts, pos) == SyntaxKind::L_PAREN {
        let t1 = trivia_outcome(ts, pos + 1);
        let p1 = pos + 1 + t1.consumed;
        let items = if kind_in(ts, p1) != SyntaxKind::R_PAREN {
            let e = expression_outcome(ts, p1);
            followed_by(e, sequence_rest(ts, p1 + e.consumed))
        } else {
            nothing()
        };
        let t2 = trivia_outcome(ts, p1 + items.consumed);
        let p2 = p1 + items.consumed + t2.consumed;
        followed_by(
            bump_outcome(ts, pos),
            followed_by(t1, followed_by(items, followed_by(t2, expect_outcome(ts, p2, SyntaxKind::R_PAREN)))),
        )
    } else {
        nothing()
    }
}

/// The `, expr` parts of a sequence from `pos` on.
pub open spec fn sequence_rest(ts: Seq<Token>, pos: int) -> Outcome
    decreases tokens_left(ts, pos), 19nat,
{
    if kind_in(ts, pos) == SyntaxKind::COMMA {
        let t1 = trivia_outcome(ts, pos + 1);
        let p1 = pos + 1 + t1.consumed;
        let b = expression_outcome(ts, p1);
        let t2 = trivia_outcome(ts, p1 + b.consumed);
        followed_by(
            bump_outcome(ts, pos),
            followed_by(t1, followed_by(b, followed_by(t2, sequence_rest(ts, p1 + b.consumed + t2.consumed)))),
        )
    } else {
        nothing()
    }
}

/// Whether the tokens after the `{` at `pos` start `name =`.
pub open spec fn starts_named_binding(ts: Seq<Token>, pos: int) -> bool {
    peek_from(ts, pos + 1, 1) == SyntaxKind::IDENT && peek_from(ts, pos + 1, 2) == SyntaxKind::EQ
}

/// A qualified name at `pos`, then an argument list or an invocation body
/// with named bindings if one follows.
pub open spec fn feature_reference_outcome(ts: Seq<Token>, pos: int) -> Outcome
    decreases tokens_left(ts, pos), 20nat,
{
    let n = qualified_name_outcome(ts, pos);
    let t = trivia_outcome(ts, pos + n.consumed);
    let p1 = pos + n.consumed + t.consumed;
    let k = kind_in(ts, p1);
    followed_by(
        n,
        followed_by(
            t,
            if k == SyntaxKind::L_PAREN {
                argument_list_outcome(ts, p1)
            } else if k == SyntaxKind::L_BRACE && starts_named_binding(ts, p1) {
                invocation_body_outcome(ts, p1)
            } else {
                nothing()
            },
        ),
    )
}

/// `@name` from the `@` at `pos`.
pub open spec fn metadata_access_outcome(ts: Seq<Token>, pos: int) -> Outcome
    decreases tokens_left(ts, pos), 20nat,
{
    if kind_in(ts, pos) == SyntaxKind::AT {
        operator_and_type_outcome(ts, pos)
    } else {
        nothing()
    }
}

/// `(a, b, ...)` at `pos`, in an `ARGUMENT_LIST` node: the `(` (noted as
/// missing if absent), white space, the arguments separated by `,` unless
/// a `)` comes first, and the `)` (noted as missing if absent).
pub open spec fn argument_list_outcome(ts: Seq<Token>, pos: int) -> Outcome
    decreases tokens_left(ts, pos), if kind_in(ts, pos) == SyntaxKind::L_PAREN { 10nat } else { 62nat },
{
    let o = expect_outcome(ts, pos, SyntaxKind::L_PAREN);
    let t1 = trivia_outcome(ts, pos + o.consumed);
    let p1 = pos + o.consumed + t1.consumed;
    let items = if kind_in(ts, p1) != SyntaxKind::R_PAREN {
        let a = argument_outcome(ts, p1);
        let t2 = trivia_outcome(ts, p1 + a.consumed);
        followed_by(a, followed_by(t2, argument_rest(ts, p1 + a.consumed + t2.consumed)))
    } else {
        nothing()
    };
    let p2 = p1 + items.consumed;
    followed_by(
        start_outcome(SyntaxKind::ARGUMENT_LIST),
        followed_by(
            o,
            followed_by(
                t1,
                followed_by(items, followed_by(expect_outcome(ts, p2, SyntaxKind::R_PAREN), finish_outcome())),
            ),
        ),
    )
}

/// The `, argument` parts of an argument list from `pos` on.
pub open spec fn argument_rest(ts: Seq<Token>, pos: int) -> Outcome
    decreases tokens_left(ts, pos), 9nat,
{
    if kind_in(ts, pos) == SyntaxKind::COMMA {
        let t1 = trivia_outcome(ts, pos + 1);
        let p1 = pos + 1 + t1.consumed;
        let b = argument_outcome(ts, p1);
        let t2 = trivia_outcome(ts, p1 + b.consumed);
        followed_by(
            bump_outcome(ts, pos),
            followed_by(t1, followed_by(b, followed_by(t2, argument_rest(ts, p1 + b.consumed + t2.consumed)))),
        )
    } else {
        nothing()
    }
}

/// `name =` at `pos`: the name, white space, the `=` and white space.
pub open spec fn binding_name_outcome(ts: Seq<Token>, pos: int) -> Outcome {
    let t1 = trivia_outcome(ts, pos + 1);
    let p1 = pos + 1 + t1.consumed;
    followed_by(
        bump_outcome(ts, pos),
        followed_by(t1, followed_by(bump_outcome(ts, p1), trivia_outcome(ts, p1 + bump_outcome(ts, p1).consumed))),
    )
}

/// An argument at `pos`, with `name =` before it if an identifier and `=`
/// come first, in an `ARGUMENT_LIST` node.
pub open spec fn argument_outcome(ts: Seq<Token>, pos: int) -> Outcome
    decreases tokens_left(ts, pos), 61nat,
{
    let b = if kind_in(ts, pos) == SyntaxKind::IDENT && peek_from(ts, pos + 1, 1) == SyntaxKind::EQ {
        binding_name_outcome(ts, pos)
    } else {
        nothing()
    };
    followed_by(
        start_outcome(SyntaxKind::ARGUMENT_LIST),
        followed_by(b, followed_by(expression_outcome(ts, pos + b.consumed), finish_outcome())),
    )
}

/// `{ name = expr; ... }` from the `{` at `pos`, in an `ARGUMENT_LIST` node.
pub open spec fn invocation_body_outcome(ts: Seq<Token>, pos: int) -> Outcome
    decreases tokens_left(ts, pos), 10nat,
{
    if kind_in(ts, pos) == SyntaxKind::L_BRACE {
        let t = trivia_outcome(ts, pos + 1);
        let p1 = pos + 1 + t.consumed;
        let b = bindings_outcome(ts, p1);
        followed_by(
            start_outcome(SyntaxKind::ARGUMENT_LIST),
            followed_by(
                bump_outcome(ts, pos),
                followed_by(
                    t,
                    followed_by(
                        b,
                        followed_by(expect_outcome(ts, p1 + b.consumed, SyntaxKind::R_BRACE), finish_outcome()),
                    ),
                ),
            ),
        )
    } else {
        nothing()
    }
}

/// The bindings of an invocation body from `pos` on: each `name = expr`
/// with an optional `;`, in an `ARGUMENT_LIST` node of its own; the first
/// part that is not a binding is read as an expression with an optional
/// `;` (a token is skipped if that consumed nothing), and ends the list.
pub open spec fn bindings_outcome(ts: Seq<Token>, pos: int) -> Outcome
    decreases tokens_left(ts, pos), 60nat,
{
    let k = kind_in(ts, pos);
    if k == SyntaxKind::R_BRACE || k == SyntaxKind::ERROR || k == SyntaxKind::__LAST {
        nothing()
    } else if is_name_token(k) && peek_from(ts, pos + 1, 1) == SyntaxKind::EQ {
        let b = binding_name_outcome(ts, pos);
        let p1 = pos + b.consumed;
        let e = expression_outcome(ts, p1);
        let t1 = trivia_outcome(ts, p1 + e.consumed);
        let p2 = p1 + e.consumed + t1.consumed;
        let s = if kind_in(ts, p2) == SyntaxKind::SEMICOLON {
            bump_outcome(ts, p2)
        } else {
            nothing()
        };
        let t2 = trivia_outcome(ts, p2 + s.consumed);
        let p3 = p2 + s.consumed + t2.consumed;
        followed_by(
            start_outcome(SyntaxKind::ARGUMENT_LIST),
            followed_by(
                b,
                followed_by(
                    e,
                    followed_by(t1, followed_by(s, followed_by(finish_outcome(), followed_by(t2, bindings_outcome(ts, p3))))),
                ),
            ),
        )
    } else {
        let e = expression_outcome(ts, pos);
        let t1 = trivia_outcome(ts, pos + e.consumed);
        let p1 = pos + e.consumed + t1.consumed;
        let s = if kind_in(ts, p1) == SyntaxKind::SEMICOLON {
            let t2 = trivia_outcome(ts, p1 + 1);
            followed_by(bump_outcome(ts, p1), t2)
        } else {
            nothing()
        };
        let p2 = p1 + s.consumed;
        let skip = if p2 == pos {
            followed_by(bump_outcome(ts, p2), trivia_outcome(ts, p2 + bump_outcome(ts, p2).consumed))
        } else {
            nothing()
        };
        followed_by(e, followed_by(t1, followed_by(s, skip)))
    }
}

/// An expression; whether it consumed any token.
pub fn parse_expression(p: &mut Parser) -> (r: bool)
    requires
        old(p).wf(),
    ensures
        final(p).ran(*old(p), expression_outcome(old(p).spec_tokens(), old(p).spec_pos())),
        r == (final(p).spec_pos() > old(p).spec_pos()),
    decreases old(p).remaining(), 20nat,
{
    let start_pos = p.get_pos();
    parse_conditional_expression(p);
    p.get_pos() > start_pos
}

/// The `? then else` rest of a KerML `if` expression.
fn parse_ternary_conditional(p: &mut Parser)
    requires
        old(p).wf(),
        old(p).current() == SyntaxKind::QUESTION,
    ensures
        final(p).ran(*old(p), branch_outcome(old(p).spec_tokens(), old(p).spec_pos())),
    decreases old(p).remaining(), 18nat,
{
    p.bump();
    p.skip_trivia();
    parse_expression(p);
    p.skip_trivia();
    if p.at(SyntaxKind::ELSE_KW) {
        p.bump();
        p.skip_trivia();
        parse_expression(p);
    }
}

/// The `then ... else ...` rest of a SysML `if` expression.
fn parse_keyword_conditional(p: &mut Parser)
    requires
        old(p).wf(),
        old(p).current() == SyntaxKind::THEN_KW,
    ensures
        final(p).ran(*old(p), branch_outcome(old(p).spec_tokens(), old(p).spec_pos())),
    decreases old(p).remaining(), 18nat,
{
    p.bump();
    p.skip_trivia();
    parse_expression(p);
    p.skip_trivia();
    if p.at(SyntaxKind::ELSE_KW) {
        p.bump();
        p.skip_trivia();
        parse_expression(p);
    }
}

/// A conditional expression in an `EXPRESSION` node: `if c ? a else b`, `if c then a else b`, or `c ? a : b`, or just the null-coalescing expression.
#[verifier::rlimit(40)]
pub fn parse_conditional_expression(p: &mut Parser)
    requires
        old(p).wf(),
    ensures
        final(p).ran(*old(p), conditional_outcome(old(p).spec_tokens(), old(p).spec_pos())),
    decreases old(p).remaining(), 19nat,
{
    let ghost ts = p.spec_tokens();
    let ghost s0 = p.state();
    p.start_node(SyntaxKind::EXPRESSION);
    let ghost s1 = p.state();
    if p.at(SyntaxKind::IF_KW) {
        p.bump();
        p.skip_trivia();
        parse_null_coalescing_expression(p);
        p.skip_trivia();
        if p.at(SyntaxKind::QUESTION) {
            parse_ternary_conditional(p);
        } else if p.at(SyntaxKind::THEN_KW) {
            parse_keyword_conditional(p);
        }
    } else {
        parse_null_coalescing_expression(p);
        p.skip_trivia();
        let ghost s2 = p.state();
        if p.at(SyntaxKind::QUESTION) && !p.at(SyntaxKind::QUESTION_QUESTION) {
            p.bump();
            p.skip_trivia();
            parse_expression(p);
            p.skip_trivia();
            p.expect(SyntaxKind::COLON);
            p.skip_trivia();
            parse_expression(p);
        }
        assert(p.state() == run(s2, inline_conditional_outcome(ts, s2.pos)));
    }
    assert(p.state() == run(s1, conditional_body_outcome(ts, s0.pos)));
    p.finish_node();
}

/// Implies expressions joined by `??`.
pub fn parse_null_coalescing_expression(p: &mut Parser)
    requires
        old(p).wf(),
    ensures
        final(p).ran(*old(p), null_coalescing_outcome(old(p).spec_tokens(), old(p).spec_pos())),
        final(p).current() != SyntaxKind::QUESTION_QUESTION,
    decreases old(p).remaining(), 17nat,
{
    let ghost ts = p.spec_tokens();
    parse_implies_expression(p);
    let ghost s1 = p.state();
    while p.at(SyntaxKind::QUESTION_QUESTION)
        invariant
            p.advanced_from(*old(p)),
            p.spec_tokens() == ts,
            run(p.state(), null_coalescing_rest(ts, p.spec_pos())) == run(s1, null_coalescing_rest(ts, s1.pos)),
        decreases p.remaining(),
    {
        p.bump();
        p.skip_trivia();
        parse_implies_expression(p);
    }
}

/// Or expressions joined by `implies`.
pub fn parse_implies_expression(p: &mut Parser)
    requires
        old(p).wf(),
    ensures
        final(p).ran(*old(p), implies_outcome(old(p).spec_tokens(), old(p).spec_pos())),
        final(p).current() != SyntaxKind::IMPLIES_KW,
    decreases old(p).remaining(), 16nat,
{
    let ghost ts = p.spec_tokens();
    parse_or_expression(p);
    let ghost s1 = p.state();
    while p.at(SyntaxKind::IMPLIES_KW)
        invariant
            p.advanced_from(*old(p)),
            p.spec_tokens() == ts,
            run(p.state(), implies_rest(ts, p.spec_pos())) == run(s1, implies_rest(ts, s1.pos)),
        decreases p.remaining(),
    {
        p.bump();
        p.skip_trivia();
        parse_or_expression(p);
    }
}

/// Xor expressions joined by `|` or `or`.
pub fn parse_or_expression(p: &mut Parser)
    requires
        old(p).wf(),
    ensures
        final(p).ran(*old(p), or_outcome(old(p).spec_tokens(), old(p).spec_pos())),
        final(p).current() != SyntaxKind::PIPE && final(p).current() != SyntaxKind::OR_KW,
    decreases old(p).remaining(), 15nat,
{
    let ghost ts = p.spec_tokens();
    parse_xor_expression(p);
    p.skip_trivia();
    let ghost s1 = p.state();
    while p.at(SyntaxKind::PIPE) || p.at(SyntaxKind::OR_KW)
        invariant
            p.advanced_from(*old(p)),
            p.spec_tokens() == ts,
            run(p.state(), or_rest(ts, p.spec_pos())) == run(s1, or_rest(ts, s1.pos)),
        decreases p.remaining(),
    {
        p.bump();
        p.skip_trivia();
        parse_xor_expression(p);
        p.skip_trivia();
    }
}

/// And expressions joined by `xor`.
pub fn parse_xor_expression(p: &mut Parser)
    requires
        old(p).wf(),
    ensures
        final(p).ran(*old(p), xor_outcome(old(p).spec_tokens(), old(p).spec_pos())),
        final(p).current() != SyntaxKind::XOR_KW,
    decreases old(p).remaining(), 14nat,
{
    let ghost ts = p.spec_tokens();
    parse_and_expression(p);
    p.skip_trivia();
    let ghost s1 = p.state();
    while p.at(SyntaxKind::XOR_KW)
        invariant
            p.advanced_from(*old(p)),
            p.spec_tokens() == ts,
            run(p.state(), xor_rest(ts, p.spec_pos())) == run(s1, xor_rest(ts, s1.pos)),
        decreases p.remaining(),
    {
        p.bump();
        p.skip_trivia();
        parse_and_expression(p);
        p.skip_trivia();
    }
}

/// Equality expressions joined by `&` or `and`.
pub fn parse_and_expression(p: &mut Parser)
    requires
        old(p).wf(),
    ensures
        final(p).ran(*old(p), and_outcome(old(p).spec_tokens(), old(p).spec_pos())),
        final(p).current() != SyntaxKind::AMP && final(p).current() != SyntaxKind::AND_KW,
    decreases old(p).remaining(), 13nat,
{
    let ghost ts = p.spec_tokens();
    parse_equality_expression(p);
    p.skip_trivia();
    let ghost s1 = p.state();
    while p.at(SyntaxKind::AMP) || p.at(SyntaxKind::AND_KW)
        invariant
            p.advanced_from(*old(p)),
            p.spec_tokens() == ts,
            run(p.state(), and_rest(ts, p.spec_pos())) == run(s1, and_rest(ts, s1.pos)),
        decreases p.remaining(),
    {
        p.bump();
        p.skip_trivia();
        parse_equality_expression(p);
        p.skip_trivia();
    }
}

/// Classification expressions joined by `==`, `!=`, `===` or `!==`.
pub fn parse_equality_expression(p: &mut Parser)
    requires
        old(p).wf(),
    ensures
        final(p).ran(*old(p), equality_outcome(old(p).spec_tokens(), old(p).spec_pos())),
        !is_equality_operator(final(p).current()),
    decreases old(p).remaining(), 12nat,
{
    let ghost ts = p.spec_tokens();
    parse_classification_expression(p);
    p.skip_trivia();
    let ghost s1 = p.state();
    while p.at(SyntaxKind::EQ_EQ) || p.at(SyntaxKind::BANG_EQ) || p.at(SyntaxKind::EQ_EQ_EQ) || p.at(SyntaxKind::BANG_EQ_EQ)
        invariant
            p.advanced_from(*old(p)),
            p.spec_tokens() == ts,
            run(p.state(), equality_rest(ts, p.spec_pos())) == run(s1, equality_rest(ts, s1.pos)),
        decreases p.remaining(),
    {
        p.bump();
        p.skip_trivia();
        parse_classification_expression(p);
        p.skip_trivia();
    }
}

/// A classification: `hastype T`, `istype T` or `@ T` on the implicit self, or a relational expression optionally followed by `hastype`, `istype`, `as`, `meta`, `@` or `@@` and a type.
pub fn parse_classification_expression(p: &mut Parser)
    requires
        old(p).wf(),
    ensures
        final(p).ran(*old(p), classification_outcome(old(p).spec_tokens(), old(p).spec_pos())),
    decreases old(p).remaining(), 11nat,
{
    if p.at(SyntaxKind::HASTYPE_KW) || p.at(SyntaxKind::ISTYPE_KW) || p.at(SyntaxKind::AT) {
        p.bump();
        p.skip_trivia();
        p.parse_qualified_name();
        return;
    }
    parse_relational_expression(p);
    p.skip_trivia();
    let ghost s2 = p.state();
    if p.at(SyntaxKind::HASTYPE_KW) || p.at(SyntaxKind::ISTYPE_KW) || p.at(SyntaxKind::AS_KW)
        || p.at(SyntaxKind::META_KW) || p.at(SyntaxKind::AT) || p.at(SyntaxKind::AT_AT) {
        p.bump();
        p.skip_trivia();
        p.parse_qualified_name();
        assert(p.state() == run(s2, operator_and_type_outcome(p.spec_tokens(), s2.pos)));
    }
}

/// Range expressions joined by `<`, `>`, `<=` or `>=`.
pub fn parse_relational_expression(p: &mut Parser)
    requires
        old(p).wf(),
    ensures
        final(p).ran(*old(p), relational_outcome(old(p).spec_tokens(), old(p).spec_pos())),
        !is_relational_operator(final(p).current()),
    decreases old(p).remaining(), 10nat,
{
    let ghost ts = p.spec_tokens();
    parse_range_expression(p);
    p.skip_trivia();
    let ghost s1 = p.state();
    while p.at(SyntaxKind::LT) || p.at(SyntaxKind::GT) || p.at(SyntaxKind::LT_EQ) || p.at(SyntaxKind::GT_EQ)
        invariant
            p.advanced_from(*old(p)),
            p.spec_tokens() == ts,
            run(p.state(), relational_rest(ts, p.spec_pos())) == run(s1, relational_rest(ts, s1.pos)),
        decreases p.remaining(),
    {
        p.bump();
        p.skip_trivia();
        parse_range_expression(p);
        p.skip_trivia();
    }
}

/// An additive expression, optionally followed by `..` and another.
pub fn parse_range_expression(p: &mut Parser)
    requires
        old(p).wf(),
    ensures
        final(p).ran(*old(p), range_outcome(old(p).spec_tokens(), old(p).spec_pos())),
    decreases old(p).remaining(), 9nat,
{
    parse_additive_expression(p);
    p.skip_trivia();
    if p.at(SyntaxKind::DOT_DOT) {
        p.bump();
        p.skip_trivia();
        parse_additive_expression(p);
    }
}

/// Multiplicative expressions joined by `+` or `-`.
pub fn parse_additive_expression(p: &mut Parser)
    requires
        old(p).wf(),
    ensures
        final(p).ran(*old(p), additive_outcome(old(p).spec_tokens(), old(p).spec_pos())),
        final(p).current() != SyntaxKind::PLUS && final(p).current() != SyntaxKind::MINUS,
    decreases old(p).remaining(), 8nat,
{
    let ghost ts = p.spec_tokens();
    parse_multiplicative_expression(p);
    let ghost s1 = p.state();
    while p.at(SyntaxKind::PLUS) || p.at(SyntaxKind::MINUS)
        invariant
            p.advanced_from(*old(p)),
            p.spec_tokens() == ts,
            run(p.state(), additive_rest(ts, p.spec_pos())) == run(s1, additive_rest(ts, s1.pos)),
        decreases p.remaining(),
    {
        p.bump();
        p.skip_trivia();
        parse_multiplicative_expression(p);
    }
}

/// Exponentiation expressions joined by `*`, `/` or `%`.
pub fn parse_multiplicative_expression(p: &mut Parser)
    requires
        old(p).wf(),
    ensures
        final(p).ran(*old(p), multiplicative_outcome(old(p).spec_tokens(), old(p).spec_pos())),
        final(p).current() != SyntaxKind::STAR && final(p).current() != SyntaxKind::SLASH && final(p).current() != SyntaxKind::PERCENT,
    decreases old(p).remaining(), 7nat,
{
    let ghost ts = p.spec_tokens();
    parse_exponentiation_expression(p);
    let ghost s1 = p.state();
    while p.at(SyntaxKind::STAR) || p.at(SyntaxKind::SLASH) || p.at(SyntaxKind::PERCENT)
        invariant
            p.advanced_from(*old(p)),
            p.spec_tokens() == ts,
            run(p.state(), multiplicative_rest(ts, p.spec_pos())) == run(s1, multiplicative_rest(ts, s1.pos)),
        decreases p.remaining(),
    {
        p.bump();
        p.skip_trivia();
        parse_exponentiation_expression(p);
    }
}

/// A unary expression, optionally followed by `**` or `^` and an exponentiation expression (right-associative).
pub fn parse_exponentiation_expression(p: &mut Parser)
    requires
        old(p).wf(),
    ensures
        final(p).ran(*old(p), exponentiation_outcome(old(p).spec_tokens(), old(p).spec_pos())),
        final(p).current() != SyntaxKind::STAR_STAR && final(p).current() != SyntaxKind::CARET,
    decreases old(p).remaining(), 6nat,
{
    parse_unary_expression(p);
    p.skip_trivia();
    if p.at(SyntaxKind::STAR_STAR) || p.at(SyntaxKind::CARET) {
        p.bump();
        p.skip_trivia();
        parse_exponentiation_expression(p);
    }
}

/// An optional `+`, `-`, `~` or `not`, then an extent expression.
pub fn parse_unary_expression(p: &mut Parser)
    requires
        old(p).wf(),
    ensures
        final(p).ran(*old(p), unary_outcome(old(p).spec_tokens(), old(p).spec_pos())),
    decreases old(p).remaining(), 5nat,
{
    if p.at(SyntaxKind::PLUS) || p.at(SyntaxKind::MINUS) || p.at(SyntaxKind::TILDE) || p.at(SyntaxKind::NOT_KW) {
        p.bump();
        p.skip_trivia();
    }
    parse_extent_expression(p);
}

/// An optional `all`, then a primary expression.
pub fn parse_extent_expression(p: &mut Parser)
    requires
        old(p).wf(),
    ensures
        final(p).ran(*old(p), extent_outcome(old(p).spec_tokens(), old(p).spec_pos())),
    decreases old(p).remaining(), 4nat,
{
    if p.at(SyntaxKind::ALL_KW) {
        p.bump();
        p.skip_trivia();
    }
    parse_primary_expression(p);
}

/// A primary expression: a base expression.
pub fn parse_primary_expression(p: &mut Parser)
    requires
        old(p).wf(),
    ensures
        final(p).ran(*old(p), primary_outcome(old(p).spec_tokens(), old(p).spec_pos())),
    decreases old(p).remaining(), 3nat,
{
    parse_base_expression(p);
}

/// Whether `kind` is one of the literal token kinds.
pub open spec fn is_literal_kind(kind: SyntaxKind) -> bool {
    kind == SyntaxKind::INTEGER || kind == SyntaxKind::DECIMAL || kind == SyntaxKind::STRING || kind
        == SyntaxKind::TRUE_KW || kind == SyntaxKind::FALSE_KW || kind == SyntaxKind::NULL_KW
}

/// A literal: integer, decimal, string, `true`, `false` or `null`; whether
/// one was consumed.
fn parse_literal(p: &mut Parser) -> (r: bool)
    requires
        old(p).wf(),
    ensures
        r == is_literal_kind(old(p).current()),
        final(p).ran(*old(p), if r { bump_outcome(old(p).spec_tokens(), old(p).spec_pos()) } else { nothing() }),
{
    if p.at(SyntaxKind::INTEGER) || p.at(SyntaxKind::DECIMAL) || p.at(SyntaxKind::STRING) || p.at(
        SyntaxKind::TRUE_KW,
    ) || p.at(SyntaxKind::FALSE_KW) || p.at(SyntaxKind::NULL_KW) {
        p.bump();
        true
    } else {
        false
    }
}

/// Whether a token of kind `kind` can start a feature reference: anything
/// but trivia, errors, punctuation, operators and literals, since keywords
/// may be used as names in expressions.
pub open spec fn spec_is_feature_reference_token(kind: SyntaxKind) -> bool {
    !(kind == SyntaxKind::ERROR || kind == SyntaxKind::WHITESPACE || kind == SyntaxKind::LINE_COMMENT
        || kind == SyntaxKind::BLOCK_COMMENT || kind == SyntaxKind::L_BRACE || kind == SyntaxKind::R_BRACE
        || kind == SyntaxKind::L_BRACKET || kind == SyntaxKind::R_BRACKET || kind == SyntaxKind::L_PAREN
        || kind == SyntaxKind::R_PAREN || kind == SyntaxKind::SEMICOLON || kind == SyntaxKind::COLON
        || kind == SyntaxKind::COLON_COLON || kind == SyntaxKind::COLON_GT || kind == SyntaxKind::COLON_GT_GT
        || kind == SyntaxKind::COLON_COLON_GT || kind == SyntaxKind::DOT || kind == SyntaxKind::DOT_DOT
        || kind == SyntaxKind::COMMA || kind == SyntaxKind::EQ || kind == SyntaxKind::EQ_EQ || kind
        == SyntaxKind::EQ_EQ_EQ || kind == SyntaxKind::BANG_EQ || kind == SyntaxKind::BANG_EQ_EQ || kind
        == SyntaxKind::LT || kind == SyntaxKind::GT || kind == SyntaxKind::LT_EQ || kind == SyntaxKind::GT_EQ
        || kind == SyntaxKind::AT || kind == SyntaxKind::AT_AT || kind == SyntaxKind::HASH || kind
        == SyntaxKind::STAR || kind == SyntaxKind::STAR_STAR || kind == SyntaxKind::PLUS || kind
        == SyntaxKind::MINUS || kind == SyntaxKind::SLASH || kind == SyntaxKind::PERCENT || kind
        == SyntaxKind::CARET || kind == SyntaxKind::AMP || kind == SyntaxKind::AMP_AMP || kind
        == SyntaxKind::PIPE || kind == SyntaxKind::PIPE_PIPE || kind == SyntaxKind::BANG || kind
        == SyntaxKind::TILDE || kind == SyntaxKind::QUESTION || kind == SyntaxKind::QUESTION_QUESTION
        || kind == SyntaxKind::ARROW || kind == SyntaxKind::FAT_ARROW || kind == SyntaxKind::INTEGER
        || kind == SyntaxKind::DECIMAL || kind == SyntaxKind::STRING || kind == SyntaxKind::TRUE_KW
        || kind == SyntaxKind::FALSE_KW || kind == SyntaxKind::NULL_KW)
}

/// Whether a token of kind `kind` can start a feature reference.
fn is_feature_reference_token(kind: SyntaxKind) -> (r: bool)
    ensures
        r == spec_is_feature_reference_token(kind),
{
    !matches!(
        kind,
        SyntaxKind::ERROR | SyntaxKind::WHITESPACE | SyntaxKind::LINE_COMMENT
            | SyntaxKind::BLOCK_COMMENT | SyntaxKind::L_BRACE | SyntaxKind::R_BRACE
            | SyntaxKind::L_BRACKET | SyntaxKind::R_BRACKET | SyntaxKind::L_PAREN
            | SyntaxKind::R_PAREN | SyntaxKind::SEMICOLON | SyntaxKind::COLON
            | SyntaxKind::COLON_COLON | SyntaxKind::COLON_GT | SyntaxKind::COLON_GT_GT
            | SyntaxKind::COLON_COLON_GT | SyntaxKind::DOT | SyntaxKind::DOT_DOT | SyntaxKind::COMMA
            | SyntaxKind::EQ | SyntaxKind::EQ_EQ | SyntaxKind::EQ_EQ_EQ | SyntaxKind::BANG_EQ
            | SyntaxKind::BANG_EQ_EQ | SyntaxKind::LT | SyntaxKind::GT | SyntaxKind::LT_EQ
            | SyntaxKind::GT_EQ | SyntaxKind::AT | SyntaxKind::AT_AT | SyntaxKind::HASH
            | SyntaxKind::STAR | SyntaxKind::STAR_STAR | SyntaxKind::PLUS | SyntaxKind::MINUS
            | SyntaxKind::SLASH | SyntaxKind::PERCENT | SyntaxKind::CARET | SyntaxKind::AMP
            | SyntaxKind::AMP_AMP | SyntaxKind::PIPE | SyntaxKind::PIPE_PIPE | SyntaxKind::BANG
            | SyntaxKind::TILDE | SyntaxKind::QUESTION | SyntaxKind::QUESTION_QUESTION
            | SyntaxKind::ARROW | SyntaxKind::FAT_ARROW | SyntaxKind::INTEGER | SyntaxKind::DECIMAL
            | SyntaxKind::STRING | SyntaxKind::TRUE_KW | SyntaxKind::FALSE_KW | SyntaxKind::NULL_KW
    )
}

/// An instantiation `new T` or `new T(args)`.
fn parse_instantiation(p: &mut Parser)
    requires
        old(p).wf(),
        old(p).current() == SyntaxKind::NEW_KW,
    ensures
        final(p).ran(*old(p), instantiation_outcome(old(p).spec_tokens(), old(p).spec_pos())),
    decreases old(p).remaining(), 1nat,
{
    p.bump();
    p.skip_trivia();
    p.parse_qualified_name();
    p.skip_trivia();
    if p.at(SyntaxKind::L_PAREN) {
        parse_argument_list(p);
    }
}

/// A block expression `{ expr }`.
fn parse_block_expression(p: &mut Parser)
    requires
        old(p).wf(),
        old(p).current() == SyntaxKind::L_BRACE,
    ensures
        final(p).ran(*old(p), block_outcome(old(p).spec_tokens(), old(p).spec_pos())),
    decreases old(p).remaining(), 1nat,
{
    let ghost ts = p.spec_tokens();
    p.bump();
    p.skip_trivia();
    let ghost s1 = p.state();
    if !p.at(SyntaxKind::R_BRACE) {
        parse_expression(p);
    }
    assert(p.state() == run(s1, if kind_in(ts, s1.pos) != SyntaxKind::R_BRACE {
        expression_outcome(ts, s1.pos)
    } else {
        nothing()
    }));
    p.skip_trivia();
    p.expect(SyntaxKind::R_BRACE);
}

/// A parenthesized expression `(e)` or sequence `(e1, e2, ...)`.
fn parse_parenthesized_expression(p: &mut Parser)
    requires
        old(p).wf(),
        old(p).current() == SyntaxKind::L_PAREN,
    ensures
        final(p).ran(*old(p), parenthesized_outcome(old(p).spec_tokens(), old(p).spec_pos())),
    decreases old(p).remaining(), 1nat,
{
    let ghost ts = p.spec_tokens();
    p.bump();
    p.skip_trivia();
    let ghost s1 = p.state();
    if !p.at(SyntaxKind::R_PAREN) {
        parse_expression(p);
        let ghost s2 = p.state();
        while p.at(SyntaxKind::COMMA)
            invariant
                p.advanced_from(*old(p)),
                p.spec_tokens() == ts,
                run(p.state(), sequence_rest(ts, p.spec_pos())) == run(s2, sequence_rest(ts, s2.pos)),
            decreases p.remaining(),
        {
            p.bump();
            p.skip_trivia();
            parse_expression(p);
            p.skip_trivia();
        }
    }
    assert(p.state() == run(s1, if kind_in(ts, s1.pos) != SyntaxKind::R_PAREN {
        let e = expression_outcome(ts, s1.pos);
        followed_by(e, sequence_rest(ts, s1.pos + e.consumed))
    } else {
        nothing()
    }));
    p.skip_trivia();
    p.expect(SyntaxKind::R_PAREN);
}

/// Whether the tokens after a `{` start `name =`: the body of an
/// invocation with named bindings rather than a declaration body.
fn looks_like_invocation_body(p: &Parser) -> (r: bool)
    ensures
        r == starts_named_binding(p.spec_tokens(), p.spec_pos()),
{
    let lookahead: usize = 1;
    if p.peek_kind(lookahead) != SyntaxKind::IDENT {
        return false;
    }
    p.peek_kind(2) == SyntaxKind::EQ
}

/// An invocation body with named bindings `{ name = expr; ... }`, in an
/// `ARGUMENT_LIST` node; each binding in a node of its own.
#[verifier::rlimit(40)]
fn parse_invocation_body(p: &mut Parser)
    requires
        old(p).wf(),
        old(p).current() == SyntaxKind::L_BRACE,
    ensures
        final(p).ran(*old(p), invocation_body_outcome(old(p).spec_tokens(), old(p).spec_pos())),
    decreases old(p).remaining(), 0nat,
{
    let ghost ts = p.spec_tokens();
    p.start_node(SyntaxKind::ARGUMENT_LIST);
    p.bump();
    p.skip_trivia();
    let ghost s1 = p.state();
    while !p.at(SyntaxKind::R_BRACE) && !p.at(SyntaxKind::ERROR) && p.current_kind() != SyntaxKind::__LAST
        invariant_except_break
            run(p.state(), bindings_outcome(ts, p.spec_pos())) == run(s1, bindings_outcome(ts, s1.pos)),
        invariant
            p.wf(),
            p.spec_tokens() == ts,
            ts == old(p).spec_tokens(),
            p.spec_pos() > old(p).spec_pos(),
            p.spec_depth() == old(p).spec_depth() + 1,
        ensures
            p.wf(),
            p.spec_tokens() == ts,
            p.spec_pos() > old(p).spec_pos(),
            p.spec_depth() == old(p).spec_depth() + 1,
            p.state() == run(s1, bindings_outcome(ts, s1.pos)),
        decreases p.remaining(),
    {
        let start_pos = p.get_pos();
        let ghost s2 = p.state();
        if p.at_name_token() {
            let next = p.peek_kind(1);
            if next == SyntaxKind::EQ {
                p.start_node(SyntaxKind::ARGUMENT_LIST);
                p.bump();
                p.skip_trivia();
                p.bump();
                p.skip_trivia();
                parse_expression(p);
                p.skip_trivia();
                let ghost s3 = p.state();
                if p.at(SyntaxKind::SEMICOLON) {
                    p.bump();
                }
                assert(p.state() == run(s3, if kind_in(ts, s3.pos) == SyntaxKind::SEMICOLON {
                    bump_outcome(ts, s3.pos)
                } else {
                    nothing()
                }));
                p.finish_node();
                p.skip_trivia();
                continue;
            }
        }
        parse_expression(p);
        p.skip_trivia();
        let ghost s3 = p.state();
        if p.at(SyntaxKind::SEMICOLON) {
            p.bump();
            p.skip_trivia();
        }
        assert(p.state() == run(s3, if kind_in(ts, s3.pos) == SyntaxKind::SEMICOLON {
            followed_by(bump_outcome(ts, s3.pos), trivia_outcome(ts, s3.pos + 1))
        } else {
            nothing()
        }));
        let ghost s4 = p.state();
        if p.get_pos() == start_pos {
            p.bump_any();
            p.skip_trivia();
        }
        assert(p.state() == run(s4, if s4.pos == s2.pos {
            followed_by(bump_outcome(ts, s4.pos), trivia_outcome(ts, s4.pos + bump_outcome(ts, s4.pos).consumed))
        } else {
            nothing()
        }));
        break;
    }
    p.expect(SyntaxKind::R_BRACE);
    p.finish_node();
}

/// A feature reference `name`, an invocation `name(args)`, or an invocation with named bindings `name { x = e; }`.
fn parse_feature_reference(p: &mut Parser)
    requires
        old(p).wf(),
    ensures
        final(p).ran(*old(p), feature_reference_outcome(old(p).spec_tokens(), old(p).spec_pos())),
    decreases old(p).remaining(), 1nat,
{
    let ghost ts = p.spec_tokens();
    p.parse_qualified_name();
    p.skip_trivia();
    let ghost s1 = p.state();
    if p.at(SyntaxKind::L_PAREN) {
        parse_argument_list(p);
    } else if p.at(SyntaxKind::L_BRACE) && looks_like_invocation_body(p) {
        parse_invocation_body(p);
    }
}

/// A metadata access `@name`.
fn parse_metadata_access(p: &mut Parser)
    requires
        old(p).wf(),
        old(p).current() == SyntaxKind::AT,
    ensures
        final(p).ran(*old(p), metadata_access_outcome(old(p).spec_tokens(), old(p).spec_pos())),
    decreases old(p).remaining(), 1nat,
{
    p.bump();
    p.skip_trivia();
    p.parse_qualified_name();
}

/// A base expression: a literal, an instantiation, a block, a parenthesized expression or sequence, a feature reference or invocation, or a metadata access; nothing else is consumed.
pub fn parse_base_expression(p: &mut Parser)
    requires
        old(p).wf(),
    ensures
        final(p).ran(*old(p), base_outcome(old(p).spec_tokens(), old(p).spec_pos())),
    decreases old(p).remaining(), 2nat,
{
    p.skip_trivia();
    let kind = p.current_kind();
    if parse_literal(p) {
    } else if kind == SyntaxKind::NEW_KW {
        parse_instantiation(p);
    } else if kind == SyntaxKind::L_BRACE {
        parse_block_expression(p);
    } else if kind == SyntaxKind::L_PAREN {
        parse_parenthesized_expression(p);
    } else if is_feature_reference_token(kind) {
        parse_feature_reference(p);
    } else if kind == SyntaxKind::AT {
        parse_metadata_access(p);
    }
}

/// An argument list `(a, b, ...)` in an `ARGUMENT_LIST` node; a missing
/// `(` or `)` is noted.
#[verifier::rlimit(40)]
pub fn parse_argument_list(p: &mut Parser)
    requires
        old(p).wf(),
    ensures
        final(p).ran(*old(p), argument_list_outcome(old(p).spec_tokens(), old(p).spec_pos())),
        old(p).current() == SyntaxKind::L_PAREN ==> final(p).spec_pos() > old(p).spec_pos(),
    decreases old(p).remaining(), if old(p).current() == SyntaxKind::L_PAREN { 0nat } else { 22nat },
{
    let ghost ts = p.spec_tokens();
    p.start_node(SyntaxKind::ARGUMENT_LIST);
    p.expect(SyntaxKind::L_PAREN);
    p.skip_trivia();
    let ghost s1 = p.state();
    if !p.at(SyntaxKind::R_PAREN) {
        parse_argument(p);
        p.skip_trivia();
        let ghost s2 = p.state();
        while p.at(SyntaxKind::COMMA)
            invariant
                p.wf(),
                p.spec_tokens() == ts,
                ts == old(p).spec_tokens(),
                p.spec_pos() >= s1.pos,
                s1.pos >= old(p).spec_pos(),
                old(p).current() == SyntaxKind::L_PAREN ==> s1.pos > old(p).spec_pos(),
                p.spec_depth() == old(p).spec_depth() + 1,
                run(p.state(), argument_rest(ts, p.spec_pos())) == run(s2, argument_rest(ts, s2.pos)),
            decreases p.remaining(),
        {
            p.bump();
            p.skip_trivia();
            parse_argument(p);
            p.skip_trivia();
        }
    }
    assert(p.state() == run(s1, if kind_in(ts, s1.pos) != SyntaxKind::R_PAREN {
        let a = argument_outcome(ts, s1.pos);
        let t2 = trivia_outcome(ts, s1.pos + a.consumed);
        followed_by(a, followed_by(t2, argument_rest(ts, s1.pos + a.consumed + t2.consumed)))
    } else {
        nothing()
    }));
    p.expect(SyntaxKind::R_PAREN);
    p.finish_node();
}

/// An argument `expr` or named argument `name = expr`, in an `ARGUMENT_LIST` node.
pub fn parse_argument(p: &mut Parser)
    requires
        old(p).wf(),
    ensures
        final(p).ran(*old(p), argument_outcome(old(p).spec_tokens(), old(p).spec_pos())),
    decreases old(p).remaining(), 21nat,
{
    let ghost ts = p.spec_tokens();
    let ghost pos0 = p.spec_pos();
    p.start_node(SyntaxKind::ARGUMENT_LIST);
    let ghost s1 = p.state();
    if p.at(SyntaxKind::IDENT) {
        let next = p.peek_kind(1);
        if next == SyntaxKind::EQ {
            p.bump();
            p.skip_trivia();
            p.bump();
            p.skip_trivia();
        }
    }
    assert(p.state() == run(s1, if kind_in(ts, pos0) == SyntaxKind::IDENT && peek_from(ts, pos0 + 1, 1) == SyntaxKind::EQ {
        binding_name_outcome(ts, pos0)
    } else {
        nothing()
    }));
    parse_expression(p);
    p.finish_node();
}


/// The signs are the operators that join additive expressions, and each of
/// them may also stand before an operand: the unary operators are exactly
/// the additive operators, `~` and `not`.
pub proof fn law_unary_operators(k: SyntaxKind)
    ensures
        is_additive_operator(k) ==> is_unary_operator(k),
        is_unary_operator(k) <==> (is_additive_operator(k) || k == SyntaxKind::TILDE || k == SyntaxKind::NOT_KW),
{
}

/// A sign at the start of an operand is taken by the unary rule: the
/// outcome there begins by consuming the sign.
pub proof fn law_sign_prefixes_operand(ts: Seq<Token>, pos: int)
    requires
        is_additive_operator(kind_in(ts, pos)),
    ensures
        unary_outcome(ts, pos) == ({
            let t = trivia_outcome(ts, pos + 1);
            followed_by(bump_outcome(ts, pos), followed_by(t, extent_outcome(ts, pos + 1 + t.consumed)))
        }),
{
}

} // verus!
