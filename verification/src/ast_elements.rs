//! Typed views of definitions, usages and metadata in the syntax tree.

use vstd::prelude::*;
use crate::ast_names::{parse_u64, parse_u64_text, PrefixMetadata, QualifiedName};
use crate::syntax::{
    child_ids, children_of, children_passing, children_where, first_child_passing,
    first_child_where, has_child_token, has_token, is_node_of, kind_at, text_at, ChildFilter,
    SyntaxNode, SyntaxTree};
use crate::syntax_kind::SyntaxKind;

verus! {

/// The kind of a definition, from its keyword.
#[derive(Debug, Clone, Copy, PartialEq, Eq, Structural)]
pub enum DefinitionKind {
    Part,
    Attribute,
    Port,
    Item,
    Action,
    State,
    Constraint,
    Requirement,
    Case,
    Calc,
    Connection,
    Interface,
    Allocation,
    Flow,
    View,
    Viewpoint,
    Rendering,
    Metadata,
    Occurrence,
    Enum,
    Analysis,
    Verification,
    UseCase,
    Concern,
    Class,
    Struct,
    Assoc,
    Behavior,
    Function,
    Predicate,
    Interaction,
    Datatype,
    Classifier,
    Type,
    Metaclass,
}

/// The kind of a usage, from its keyword.
#[derive(Debug, Clone, Copy, PartialEq, Eq, Structural)]
pub enum UsageKind {
    Part,
    Attribute,
    Port,
    Item,
    Action,
    State,
    Constraint,
    Requirement,
    UseCase,
    Case,
    Calc,
    Connection,
    Interface,
    Allocation,
    Flow,
    Occurrence,
    Analysis,
    Verification,
    Feature,
    Step,
    Expr,
    Connector,
}

/// The direction of a feature.
#[derive(Debug, Clone, Copy, PartialEq, Eq, Hash, Structural)]
pub enum Direction {
    In,
    Out,
    InOut,
}

/// The usage kind that keyword `k` introduces, if any.
pub open spec fn usage_kind_of(k: SyntaxKind) -> Option<UsageKind> {
    match k {
        SyntaxKind::PART_KW => Some(UsageKind::Part),
        SyntaxKind::ATTRIBUTE_KW => Some(UsageKind::Attribute),
        SyntaxKind::PORT_KW => Some(UsageKind::Port),
        SyntaxKind::ITEM_KW => Some(UsageKind::Item),
        SyntaxKind::ACTION_KW => Some(UsageKind::Action),
        SyntaxKind::STATE_KW => Some(UsageKind::State),
        SyntaxKind::CONSTRAINT_KW => Some(UsageKind::Constraint),
        SyntaxKind::REQUIREMENT_KW => Some(UsageKind::Requirement),
        SyntaxKind::USE_KW => Some(UsageKind::UseCase),
        SyntaxKind::CASE_KW => Some(UsageKind::Case),
        SyntaxKind::CALC_KW => Some(UsageKind::Calc),
        SyntaxKind::CONNECTION_KW => Some(UsageKind::Connection),
        SyntaxKind::INTERFACE_KW => Some(UsageKind::Interface),
        SyntaxKind::ALLOCATION_KW => Some(UsageKind::Allocation),
        SyntaxKind::FLOW_KW => Some(UsageKind::Flow),
        SyntaxKind::MESSAGE_KW => Some(UsageKind::Flow),
        SyntaxKind::OCCURRENCE_KW => Some(UsageKind::Occurrence),
        SyntaxKind::ANALYSIS_KW => Some(UsageKind::Analysis),
        SyntaxKind::VERIFICATION_KW => Some(UsageKind::Verification),
        SyntaxKind::FEATURE_KW => Some(UsageKind::Feature),
        SyntaxKind::STEP_KW => Some(UsageKind::Step),
        SyntaxKind::EXPR_KW => Some(UsageKind::Expr),
        SyntaxKind::CONNECTOR_KW => Some(UsageKind::Connector),
        _ => None,
    }
}

/// The usage kind that keyword `k` introduces.
pub fn usage_kind_for(k: SyntaxKind) -> (r: Option<UsageKind>)
    ensures
        r == usage_kind_of(k),
{
    match k {
        SyntaxKind::PART_KW => Some(UsageKind::Part),
        SyntaxKind::ATTRIBUTE_KW => Some(UsageKind::Attribute),
        SyntaxKind::PORT_KW => Some(UsageKind::Port),
        SyntaxKind::ITEM_KW => Some(UsageKind::Item),
        SyntaxKind::ACTION_KW => Some(UsageKind::Action),
        SyntaxKind::STATE_KW => Some(UsageKind::State),
        SyntaxKind::CONSTRAINT_KW => Some(UsageKind::Constraint),
        SyntaxKind::REQUIREMENT_KW => Some(UsageKind::Requirement),
        SyntaxKind::USE_KW => Some(UsageKind::UseCase),
        SyntaxKind::CASE_KW => Some(UsageKind::Case),
        SyntaxKind::CALC_KW => Some(UsageKind::Calc),
        SyntaxKind::CONNECTION_KW => Some(UsageKind::Connection),
        SyntaxKind::INTERFACE_KW => Some(UsageKind::Interface),
        SyntaxKind::ALLOCATION_KW => Some(UsageKind::Allocation),
        SyntaxKind::FLOW_KW => Some(UsageKind::Flow),
        SyntaxKind::MESSAGE_KW => Some(UsageKind::Flow),
        SyntaxKind::OCCURRENCE_KW => Some(UsageKind::Occurrence),
        SyntaxKind::ANALYSIS_KW => Some(UsageKind::Analysis),
        SyntaxKind::VERIFICATION_KW => Some(UsageKind::Verification),
        SyntaxKind::FEATURE_KW => Some(UsageKind::Feature),
        SyntaxKind::STEP_KW => Some(UsageKind::Step),
        SyntaxKind::EXPR_KW => Some(UsageKind::Expr),
        SyntaxKind::CONNECTOR_KW => Some(UsageKind::Connector),
        _ => None,
    }
}

/// The usage kind of the first token among `cs` that names one.
pub open spec fn first_usage_kind(t: SyntaxTree, cs: Seq<usize>) -> Option<UsageKind>
    decreases cs.len(),
{
    if cs.len() == 0 {
        None
    } else if 0 <= cs[0] < t.entries@.len() && t.entries@[cs[0] as int].is_token && usage_kind_of(
        t.entries@[cs[0] as int].kind,
    ) is Some {
        usage_kind_of(t.entries@[cs[0] as int].kind)
    } else {
        first_usage_kind(t, cs.drop_first())
    }
}

/// The qualified name at node `c` of `tree`, if there is one.
pub open spec fn qn_at<'a>(tree: &'a SyntaxTree, c: Option<usize>) -> Option<QualifiedName<'a>> {
    match c {
        Some(i) => Some(QualifiedName(SyntaxNode { tree, index: i })),
        None => None,
    }
}

/// The first child of `n` that is a qualified name.
pub open spec fn first_qn(t: SyntaxTree, n: int) -> Option<usize> {
    first_child_passing(t, n, ChildFilter::NodeOf(SyntaxKind::QUALIFIED_NAME))
}

/// Whether `n` has a child specialization.
pub open spec fn has_specialization(t: SyntaxTree, n: int) -> bool {
    children_passing(t, n, ChildFilter::NodeOf(SyntaxKind::SPECIALIZATION)).len() > 0
}

/// Whether the node kind is one of the usage kinds.
pub open spec fn is_usage_kind(k: SyntaxKind) -> bool {
    k == SyntaxKind::USAGE || k == SyntaxKind::SUBJECT_USAGE || k == SyntaxKind::ACTOR_USAGE || k
        == SyntaxKind::STAKEHOLDER_USAGE || k == SyntaxKind::OBJECTIVE_USAGE
}

/// A usage (`USAGE` and the requirement-specific usage nodes).
#[derive(Debug, Clone, Copy)]
pub struct Usage<'a>(pub SyntaxNode<'a>);

/// A metadata usage `@M about x` (`METADATA_USAGE` node).
#[derive(Debug, Clone, Copy)]
pub struct MetadataUsage<'a>(pub SyntaxNode<'a>);

/// An `assert`/`assume`/`require` constraint (`REQUIREMENT_CONSTRAINT` node).
#[derive(Debug, Clone, Copy)]
pub struct RequirementConstraint<'a>(pub SyntaxNode<'a>);

/// A `from ... to ...` clause (`FROM_TO_CLAUSE` node).
#[derive(Debug, Clone, Copy)]
pub struct FromToClause<'a>(pub SyntaxNode<'a>);

impl<'a> MetadataUsage<'a> {
    /// The qualified names after the metadata type: the `about` targets.
    pub fn about_targets(&self) -> (r: Vec<QualifiedName<'a>>)
        ensures
            r@.len() == (if children_passing(
                *self.0.tree,
                self.0.index as int,
                ChildFilter::NodeOf(SyntaxKind::QUALIFIED_NAME),
            ).len() == 0 {
                0
            } else {
                children_passing(
                    *self.0.tree,
                    self.0.index as int,
                    ChildFilter::NodeOf(SyntaxKind::QUALIFIED_NAME),
                ).len() - 1
            }),
            forall|i: int|
                0 <= i < r@.len() ==> (#[trigger] r@[i]).0.tree == self.0.tree && r@[i].0.index
                    == children_passing(
                    *self.0.tree,
                    self.0.index as int,
                    ChildFilter::NodeOf(SyntaxKind::QUALIFIED_NAME),
                )[i + 1],
    {
        let qs = children_where(
            self.0.tree,
            self.0.index,
            ChildFilter::NodeOf(SyntaxKind::QUALIFIED_NAME),
        );
        let mut r: Vec<QualifiedName<'a>> = Vec::new();
        if qs.len() == 0 {
            return r;
        }
        let mut i: usize = 1;
        while i < qs.len()
            invariant
                1 <= i <= qs.len(),
                r@.len() == i - 1,
                forall|j: int|
                    0 <= j < r@.len() ==> (#[trigger] r@[j]).0.tree == self.0.tree && r@[j].0.index
                        == qs@[j + 1],
            decreases qs.len() - i,
        {
            r.push(QualifiedName(SyntaxNode { tree: self.0.tree, index: qs[i] }));
            i = i + 1;
        }
        r
    }
}

impl<'a> RequirementConstraint<'a> {
    /// Introduced by `assert`.
    pub fn is_assert(&self) -> (r: bool)
        ensures
            r == has_token(*self.0.tree, self.0.index as int, SyntaxKind::ASSERT_KW),
    {
        has_child_token(self.0.tree, self.0.index, SyntaxKind::ASSERT_KW)
    }

    /// Introduced by `assume`.
    pub fn is_assume(&self) -> (r: bool)
        ensures
            r == has_token(*self.0.tree, self.0.index as int, SyntaxKind::ASSUME_KW),
    {
        has_child_token(self.0.tree, self.0.index, SyntaxKind::ASSUME_KW)
    }

    /// Introduced by `require`.
    pub fn is_require(&self) -> (r: bool)
        ensures
            r == has_token(*self.0.tree, self.0.index as int, SyntaxKind::REQUIRE_KW),
    {
        has_child_token(self.0.tree, self.0.index, SyntaxKind::REQUIRE_KW)
    }
}

/// Where a reference-form target stops: a usage that names its own kind
/// or specializes something declares a local element instead.
pub open spec fn declares_locally(t: SyntaxTree, n: int) -> bool {
    first_usage_kind(t, child_ids(t, n)) is Some || has_specialization(t, n)
}

/// The reference target of a usage introduced by the keyword token `kw`
/// (`exhibit`): none when the keyword is missing or the usage declares a
/// local element.
pub open spec fn keyword_target(t: SyntaxTree, n: int, kw: SyntaxKind) -> Option<usize> {
    if !has_token(t, n, kw) || declares_locally(t, n) {
        None
    } else {
        first_qn(t, n)
    }
}

/// The reference target of a usage whose requirement constraint carries
/// the keyword `kw` (`assert`, `assume`, `require`).
pub open spec fn constraint_target(t: SyntaxTree, n: int, kw: SyntaxKind) -> Option<usize> {
    match first_child_passing(t, n, ChildFilter::NodeOf(SyntaxKind::REQUIREMENT_CONSTRAINT)) {
        None => None,
        Some(rc) => if !has_token(t, rc as int, kw) || declares_locally(t, n) {
            None
        } else {
            first_qn(t, n)
        },
    }
}

/// The running state of the scan for direct flow endpoints: whether
/// `flow` and then `to` were seen, and the source and target found.
pub open spec fn flow_scan(t: SyntaxTree, cs: Seq<usize>) -> (bool, bool, Option<usize>, Option<usize>)
    decreases cs.len(),
{
    if cs.len() == 0 {
        (false, false, None, None)
    } else {
        let (ff, ft, s, g) = flow_scan(t, cs.drop_last());
        let c = cs.last();
        if 0 <= c < t.entries@.len() {
            let e = t.entries@[c as int];
            if e.is_token {
                if e.kind == SyntaxKind::FLOW_KW {
                    (true, ft, s, g)
                } else if e.kind == SyntaxKind::TO_KW && ff {
                    (ff, true, s, g)
                } else {
                    (ff, ft, s, g)
                }
            } else if ff && e.kind == SyntaxKind::QUALIFIED_NAME {
                if !ft && s is None {
                    (ff, ft, Some(c), g)
                } else if ft && g is None {
                    (ff, ft, s, Some(c))
                } else {
                    (ff, ft, s, g)
                }
            } else {
                (ff, ft, s, g)
            }
        } else {
            (ff, ft, s, g)
        }
    }
}

/// The source and target of `flow X to Y` without a `from` clause.
pub open spec fn direct_flow(t: SyntaxTree, n: int) -> (Option<usize>, Option<usize>) {
    if !has_token(t, n, SyntaxKind::FLOW_KW) || first_child_passing(
        t,
        n,
        ChildFilter::NodeOf(SyntaxKind::FROM_TO_CLAUSE),
    ) is Some {
        (None, None)
    } else {
        let (_, _, s, g) = flow_scan(t, child_ids(t, n));
        (s, g)
    }
}

/// The lower and upper bounds found so far and whether `..` was seen.
pub type BoundsScan = (Option<u64>, Option<u64>, bool);

/// The bounds scan over the descendants of node `n`, in document order.
pub open spec fn bounds_of_node(t: SyntaxTree, n: int, st: BoundsScan) -> BoundsScan
    decreases t.entries@.len() - n, child_ids(t, n).len() + 1,
{
    bounds_of_seq(t, n, child_ids(t, n), st)
}

/// The bounds scan over the children `cs` of node `n` and their descendants.
pub open spec fn bounds_of_seq(t: SyntaxTree, n: int, cs: Seq<usize>, st: BoundsScan) -> BoundsScan
    decreases t.entries@.len() - n, cs.len(),
{
    if cs.len() == 0 {
        st
    } else {
        let st1 = bounds_of_seq(t, n, cs.drop_last(), st);
        let c = cs.last() as int;
        let k = kind_at(t, c);
        if k == SyntaxKind::INTEGER {
            if 0 <= c < t.entries@.len() && t.entries@[c].is_token && parse_u64(text_at(t, c)) is Some {
                if st1.2 {
                    (st1.0, parse_u64(text_at(t, c)), st1.2)
                } else {
                    (parse_u64(text_at(t, c)), st1.1, st1.2)
                }
            } else {
                st1
            }
        } else if k == SyntaxKind::STAR {
            if st1.2 {
                (st1.0, None, st1.2)
            } else {
                (None, st1.1, st1.2)
            }
        } else if k == SyntaxKind::DOT_DOT {
            (st1.0, st1.1, true)
        } else if n < c < t.entries@.len() && !t.entries@[c].is_token {
            bounds_of_node(t, c, st1)
        } else {
            st1
        }
    }
}

/// The bounds of the multiplicity node `m`: `[n]` is `n..n`, `*` is
/// unbounded.
pub open spec fn multiplicity_bounds(t: SyntaxTree, m: int) -> (Option<u64>, Option<u64>) {
    let (lower, upper, dot) = bounds_of_node(t, m, (None, None, false));
    if !dot && lower is Some {
        (lower, lower)
    } else {
        (lower, upper)
    }
}

/// The first multiplicity inside a typing or specialization among `cs`.
pub open spec fn nested_multiplicity(t: SyntaxTree, cs: Seq<usize>) -> Option<usize>
    decreases cs.len(),
{
    if cs.len() == 0 {
        None
    } else if (is_node_of(t, cs[0] as int, SyntaxKind::TYPING) || is_node_of(
        t,
        cs[0] as int,
        SyntaxKind::SPECIALIZATION,
    )) && first_child_passing(t, cs[0] as int, ChildFilter::NodeOf(SyntaxKind::MULTIPLICITY)) is Some {
        first_child_passing(t, cs[0] as int, ChildFilter::NodeOf(SyntaxKind::MULTIPLICITY))
    } else {
        nested_multiplicity(t, cs.drop_first())
    }
}

/// The multiplicity node of a usage: a direct one, else the first inside a
/// typing or specialization.
pub open spec fn usage_multiplicity_node(t: SyntaxTree, n: int) -> Option<usize> {
    match first_child_passing(t, n, ChildFilter::NodeOf(SyntaxKind::MULTIPLICITY)) {
        Some(m) => Some(m),
        None => nested_multiplicity(t, child_ids(t, n)),
    }
}

/// The siblings of `n` that come before it.
pub open spec fn before(s: Seq<usize>, x: usize) -> Seq<usize>
    decreases s.len(),
{
    if s.len() == 0 || s[0] == x {
        Seq::empty()
    } else {
        seq![s[0]] + before(s.drop_first(), x)
    }
}

/// The prefix metadata nodes that directly precede, past trivia, the end
/// of `s`, in document order.
pub open spec fn preceding_prefix(t: SyntaxTree, s: Seq<usize>) -> Seq<usize>
    decreases s.len(),
{
    if s.len() == 0 {
        Seq::empty()
    } else {
        let c = s.last() as int;
        if 0 <= c < t.entries@.len() && t.entries@[c].is_token && t.entries@[c].kind.spec_is_trivia() {
            preceding_prefix(t, s.drop_last())
        } else if is_node_of(t, c, SyntaxKind::PREFIX_METADATA) {
            preceding_prefix(t, s.drop_last()).push(s.last())
        } else {
            Seq::empty()
        }
    }
}

/// The prefix metadata of usage `n`: the `#name` nodes that precede it
/// among its siblings, then those among its own children.
pub open spec fn usage_prefix_metadata(t: SyntaxTree, n: int) -> Seq<usize> {
    let outer = if 0 <= n < t.entries@.len() {
        match t.entries@[n].parent {
            Some(p) => preceding_prefix(t, before(child_ids(t, p as int), n as usize)),
            None => Seq::empty(),
        }
    } else {
        Seq::empty()
    };
    outer + children_passing(t, n, ChildFilter::NodeOf(SyntaxKind::PREFIX_METADATA))
}

impl<'a> Usage<'a> {
    /// `node` as a usage, when its kind is a usage kind.
    pub fn cast(node: SyntaxNode<'a>) -> (r: Option<Usage<'a>>)
        ensures
            r == (if is_usage_kind(kind_at(*node.tree, node.index as int)) {
                Some(Usage(node))
            } else {
                None
            }),
    {
        let k = node.kind();
        if k == SyntaxKind::USAGE || k == SyntaxKind::SUBJECT_USAGE || k == SyntaxKind::ACTOR_USAGE
            || k == SyntaxKind::STAKEHOLDER_USAGE || k == SyntaxKind::OBJECTIVE_USAGE {
            Some(Usage(node))
        } else {
            None
        }
    }

    /// Declared with `include`.
    pub fn is_include(&self) -> (r: bool)
        ensures
            r == has_token(*self.0.tree, self.0.index as int, SyntaxKind::INCLUDE_KW),
    {
        has_child_token(self.0.tree, self.0.index, SyntaxKind::INCLUDE_KW)
    }

    /// Declared with `exhibit`.
    pub fn is_exhibit(&self) -> (r: bool)
        ensures
            r == has_token(*self.0.tree, self.0.index as int, SyntaxKind::EXHIBIT_KW),
    {
        has_child_token(self.0.tree, self.0.index, SyntaxKind::EXHIBIT_KW)
    }

    /// Declared with `flow`.
    pub fn is_flow(&self) -> (r: bool)
        ensures
            r == has_token(*self.0.tree, self.0.index as int, SyntaxKind::FLOW_KW),
    {
        has_child_token(self.0.tree, self.0.index, SyntaxKind::FLOW_KW)
    }

    /// The usage kind named by the usage's first kind keyword.
    pub fn usage_kind(&self) -> (r: Option<UsageKind>)
        ensures
            r == first_usage_kind(*self.0.tree, child_ids(*self.0.tree, self.0.index as int)),
    {
        let t = self.0.tree;
        let cs = children_of(t, self.0.index);
        let mut i: usize = 0;
        assert(cs@.subrange(0, cs@.len() as int) =~= cs@);
        while i < cs.len()
            invariant
                t == self.0.tree,
                cs@ == child_ids(*t, self.0.index as int),
                i <= cs.len(),
                first_usage_kind(*t, cs@) == first_usage_kind(
                    *t,
                    cs@.subrange(i as int, cs@.len() as int),
                ),
            decreases cs.len() - i,
        {
            let c = cs[i];
            proof {
                assert(cs@.subrange(i as int, cs@.len() as int).drop_first() =~= cs@.subrange(
                    i + 1,
                    cs@.len() as int,
                ));
                assert(cs@.subrange(i as int, cs@.len() as int)[0] == c);
            }
            if c < t.entries.len() && t.entries[c].is_token {
                let uk = usage_kind_for(t.entries[c].kind);
                if uk.is_some() {
                    assert(first_usage_kind(*t, cs@.subrange(i as int, cs@.len() as int)) == uk);
                    return uk;
                }
            }
            i = i + 1;
        }
        assert(cs@.subrange(i as int, cs@.len() as int) =~= Seq::<usize>::empty());
        None
    }

    /// Whether the usage declares a local element: it names its kind or
    /// specializes something.
    fn declares_locally(&self) -> (r: bool)
        ensures
            r == declares_locally(*self.0.tree, self.0.index as int),
    {
        self.usage_kind().is_some() || first_child_where(
            self.0.tree,
            self.0.index,
            ChildFilter::NodeOf(SyntaxKind::SPECIALIZATION),
        ).is_some()
    }

    /// The usage's first qualified name.
    fn first_qualified_name(&self) -> (r: Option<QualifiedName<'a>>)
        ensures
            r == qn_at(self.0.tree, first_qn(*self.0.tree, self.0.index as int)),
    {
        match first_child_where(
            self.0.tree,
            self.0.index,
            ChildFilter::NodeOf(SyntaxKind::QUALIFIED_NAME),
        ) {
            Some(c) => Some(QualifiedName(SyntaxNode { tree: self.0.tree, index: c })),
            None => None,
        }
    }

    /// The requirement constraint of the usage.
    pub fn requirement_constraint(&self) -> (r: Option<RequirementConstraint<'a>>)
        ensures
            r == (match first_child_passing(
                *self.0.tree,
                self.0.index as int,
                ChildFilter::NodeOf(SyntaxKind::REQUIREMENT_CONSTRAINT),
            ) {
                Some(c) => Some(RequirementConstraint(SyntaxNode { tree: self.0.tree, index: c })),
                None => None,
            }),
    {
        match first_child_where(
            self.0.tree,
            self.0.index,
            ChildFilter::NodeOf(SyntaxKind::REQUIREMENT_CONSTRAINT),
        ) {
            Some(c) => Some(RequirementConstraint(SyntaxNode { tree: self.0.tree, index: c })),
            None => None,
        }
    }

    /// The target of a reference-form `include x;`: none for a usage
    /// without `include` or with specializations.
    pub fn include_target(&self) -> (r: Option<QualifiedName<'a>>)
        ensures
            r == qn_at(
                self.0.tree,
                if !has_token(*self.0.tree, self.0.index as int, SyntaxKind::INCLUDE_KW)
                    || has_specialization(*self.0.tree, self.0.index as int) {
                    None
                } else {
                    first_qn(*self.0.tree, self.0.index as int)
                },
            ),
    {
        if !self.is_include() {
            return None;
        }
        if first_child_where(self.0.tree, self.0.index, ChildFilter::NodeOf(SyntaxKind::SPECIALIZATION)).is_some() {
            proof {
                crate::syntax::lemma_first_child_passing(
                    *self.0.tree,
                    self.0.index as int,
                    ChildFilter::NodeOf(SyntaxKind::SPECIALIZATION),
                );
            }
            return None;
        }
        self.first_qualified_name()
    }

    /// The target of a reference-form `exhibit x;`.
    pub fn exhibit_target(&self) -> (r: Option<QualifiedName<'a>>)
        ensures
            r == qn_at(
                self.0.tree,
                keyword_target(*self.0.tree, self.0.index as int, SyntaxKind::EXHIBIT_KW),
            ),
    {
        if !self.is_exhibit() {
            return None;
        }
        if self.declares_locally() {
            return None;
        }
        self.first_qualified_name()
    }

    /// The target of a reference-form `assert x;`.
    pub fn assert_target(&self) -> (r: Option<QualifiedName<'a>>)
        ensures
            r == qn_at(
                self.0.tree,
                constraint_target(*self.0.tree, self.0.index as int, SyntaxKind::ASSERT_KW),
            ),
    {
        let rc = match self.requirement_constraint() {
            Some(rc) => rc,
            None => return None,
        };
        if !rc.is_assert() {
            return None;
        }
        if self.declares_locally() {
            return None;
        }
        self.first_qualified_name()
    }

    /// The target of a reference-form `assume x;`.
    pub fn assume_target(&self) -> (r: Option<QualifiedName<'a>>)
        ensures
            r == qn_at(
                self.0.tree,
                constraint_target(*self.0.tree, self.0.index as int, SyntaxKind::ASSUME_KW),
            ),
    {
        let rc = match self.requirement_constraint() {
            Some(rc) => rc,
            None => return None,
        };
        if !rc.is_assume() {
            return None;
        }
        if self.declares_locally() {
            return None;
        }
        self.first_qualified_name()
    }

    /// The target of a reference-form `require x;`.
    pub fn require_target(&self) -> (r: Option<QualifiedName<'a>>)
        ensures
            r == qn_at(
                self.0.tree,
                constraint_target(*self.0.tree, self.0.index as int, SyntaxKind::REQUIRE_KW),
            ),
    {
        let rc = match self.requirement_constraint() {
            Some(rc) => rc,
            None => return None,
        };
        if !rc.is_require() {
            return None;
        }
        if self.declares_locally() {
            return None;
        }
        self.first_qualified_name()
    }

    /// The endpoints of `flow X to Y` written without `from`: the first
    /// qualified name after `flow` and the first after `to`.
    pub fn direct_flow_endpoints(&self) -> (r: (Option<QualifiedName<'a>>, Option<QualifiedName<'a>>))
        ensures
            r.0 == qn_at(self.0.tree, direct_flow(*self.0.tree, self.0.index as int).0),
            r.1 == qn_at(self.0.tree, direct_flow(*self.0.tree, self.0.index as int).1),
    {
        if !self.is_flow() {
            return (None, None);
        }
        if first_child_where(self.0.tree, self.0.index, ChildFilter::NodeOf(SyntaxKind::FROM_TO_CLAUSE)).is_some() {
            return (None, None);
        }
        let t = self.0.tree;
        let cs = children_of(t, self.0.index);
        let mut found_flow = false;
        let mut found_to = false;
        let mut source: Option<usize> = None;
        let mut target: Option<usize> = None;
        let mut i: usize = 0;
        while i < cs.len()
            invariant
                cs@ == child_ids(*t, self.0.index as int),
                i <= cs.len(),
                (found_flow, found_to, source, target) == flow_scan(*t, cs@.take(i as int)),
            decreases cs.len() - i,
        {
            let c = cs[i];
            proof {
                assert(cs@.take(i + 1).drop_last() =~= cs@.take(i as int));
                assert(cs@.take(i + 1).last() == c);
            }
            if c < t.entries.len() {
                if t.entries[c].is_token {
                    if t.entries[c].kind == SyntaxKind::FLOW_KW {
                        found_flow = true;
                    } else if t.entries[c].kind == SyntaxKind::TO_KW && found_flow {
                        found_to = true;
                    }
                } else if found_flow && t.entries[c].kind == SyntaxKind::QUALIFIED_NAME {
                    if !found_to && source.is_none() {
                        source = Some(c);
                    } else if found_to && target.is_none() {
                        target = Some(c);
                    }
                }
            }
            i = i + 1;
        }
        assert(cs@.take(cs@.len() as int) =~= cs@);
        let s = match source {
            Some(c) => Some(QualifiedName(SyntaxNode { tree: t, index: c })),
            None => None,
        };
        let g = match target {
            Some(c) => Some(QualifiedName(SyntaxNode { tree: t, index: c })),
            None => None,
        };
        (s, g)
    }

    /// The multiplicity bounds `(lower, upper)` of the usage, `None` for
    /// an unbounded side: from its own multiplicity, else from one inside
    /// its typing or a specialization.
    pub fn multiplicity(&self) -> (r: Option<(Option<u64>, Option<u64>)>)
        ensures
            r == (match usage_multiplicity_node(*self.0.tree, self.0.index as int) {
                Some(m) => Some(multiplicity_bounds(*self.0.tree, m as int)),
                None => None,
            }),
    {
        let t = self.0.tree;
        if let Some(m) = first_child_where(t, self.0.index, ChildFilter::NodeOf(SyntaxKind::MULTIPLICITY)) {
            return Some(parse_multiplicity_node(t, m));
        }
        let cs = children_of(t, self.0.index);
        let mut i: usize = 0;
        assert(cs@.subrange(0, cs@.len() as int) =~= cs@);
        while i < cs.len()
            invariant
                t == self.0.tree,
                cs@ == child_ids(*t, self.0.index as int),
                i <= cs.len(),
                first_child_passing(
                    *t,
                    self.0.index as int,
                    ChildFilter::NodeOf(SyntaxKind::MULTIPLICITY),
                ) is None,
                nested_multiplicity(*t, cs@) == nested_multiplicity(
                    *t,
                    cs@.subrange(i as int, cs@.len() as int),
                ),
            decreases cs.len() - i,
        {
            let c = cs[i];
            proof {
                assert(cs@.subrange(i as int, cs@.len() as int).drop_first() =~= cs@.subrange(
                    i + 1,
                    cs@.len() as int,
                ));
                assert(cs@.subrange(i as int, cs@.len() as int)[0] == c);
            }
            if c < t.entries.len() && !t.entries[c].is_token && (t.entries[c].kind
                == SyntaxKind::TYPING || t.entries[c].kind == SyntaxKind::SPECIALIZATION) {
                if let Some(m) = first_child_where(t, c, ChildFilter::NodeOf(SyntaxKind::MULTIPLICITY)) {
                    assert(is_node_of(*t, c as int, SyntaxKind::TYPING) || is_node_of(
                        *t,
                        c as int,
                        SyntaxKind::SPECIALIZATION,
                    ));
                    assert(nested_multiplicity(*t, cs@.subrange(i as int, cs@.len() as int))
                        == Some(m));
                    return Some(parse_multiplicity_node(t, m));
                }
            }
            i = i + 1;
        }
        assert(cs@.subrange(i as int, cs@.len() as int) =~= Seq::<usize>::empty());
        None
    }

    /// The prefix metadata of the usage: the `#name` nodes just before it
    /// among its siblings (past white space and comments), then those
    /// among its children.
    pub fn prefix_metadata(&self) -> (r: Vec<PrefixMetadata<'a>>)
        ensures
            r@.len() == usage_prefix_metadata(*self.0.tree, self.0.index as int).len(),
            forall|i: int|
                0 <= i < r@.len() ==> (#[trigger] r@[i]).0.tree == self.0.tree && r@[i].0.index
                    == usage_prefix_metadata(*self.0.tree, self.0.index as int)[i],
    {
        let t = self.0.tree;
        let n = self.0.index;
        let mut outer: Vec<usize> = Vec::new();
        if n < t.entries.len() {
            if let Some(p) = t.entries[n].parent {
                let sibs = children_of(t, p);
                let mut k: usize = 0;
                assert(sibs@.subrange(0, sibs@.len() as int) =~= sibs@);
                assert(sibs@.take(0) + before(sibs@, n) =~= before(sibs@, n));
                while k < sibs.len() && sibs[k] != n
                    invariant
                        sibs@ == child_ids(*t, p as int),
                        k <= sibs.len(),
                        before(sibs@, n) == sibs@.take(k as int) + before(
                            sibs@.subrange(k as int, sibs@.len() as int),
                            n,
                        ),
                    decreases sibs.len() - k,
                {
                    proof {
                        let rest = sibs@.subrange(k as int, sibs@.len() as int);
                        assert(rest.drop_first() =~= sibs@.subrange(k + 1, sibs@.len() as int));
                        assert(sibs@.take(k + 1) =~= sibs@.take(k as int) + seq![sibs@[k as int]]);
                    }
                    k = k + 1;
                }
                proof {
                    assert(before(sibs@.subrange(k as int, sibs@.len() as int), n) =~= Seq::<
                        usize,
                    >::empty());
                    assert(before(sibs@, n) =~= sibs@.take(k as int));
                }
                let mut j: usize = k;
                while j > 0
                    invariant
                        sibs@ == child_ids(*t, p as int),
                        j <= k <= sibs.len(),
                        preceding_prefix(*t, sibs@.take(k as int)) == preceding_prefix(
                            *t,
                            sibs@.take(j as int),
                        ) + outer@,
                    ensures
                        preceding_prefix(*t, sibs@.take(k as int)) == outer@,
                    decreases j,
                {
                    let c = sibs[j - 1];
                    proof {
                        assert(sibs@.take(0) =~= Seq::<usize>::empty());
                        assert(Seq::<usize>::empty() + outer@ =~= outer@);
                        assert(sibs@.take(j as int).drop_last() =~= sibs@.take(j - 1));
                        assert(sibs@.take(j as int).last() == c);
                    }
                    if c < t.entries.len() && t.entries[c].is_token && t.entries[c].kind.is_trivia() {
                        j = j - 1;
                    } else if c < t.entries.len() && !t.entries[c].is_token && t.entries[c].kind
                        == SyntaxKind::PREFIX_METADATA {
                        let ghost old_outer = outer@;
                        outer.insert(0, c);
                        proof {
                            assert(preceding_prefix(*t, sibs@.take(j - 1)).push(c) + old_outer
                                =~= preceding_prefix(*t, sibs@.take(j - 1)) + outer@);
                        }
                        j = j - 1;
                    } else {
                        proof {
                            assert(preceding_prefix(*t, sibs@.take(j as int)) =~= Seq::<
                                usize,
                            >::empty());
                            assert(preceding_prefix(*t, sibs@.take(j as int)) + outer@ =~= outer@);
                        }
                        break;
                    }
                }
                assert(outer@ == preceding_prefix(*t, before(child_ids(*t, p as int), n)));
            }
        }
        let inner = children_where(t, n, ChildFilter::NodeOf(SyntaxKind::PREFIX_METADATA));
        let ghost total = usage_prefix_metadata(*t, n as int);
        assert(total =~= outer@ + inner@);
        let mut r: Vec<PrefixMetadata<'a>> = Vec::new();
        let mut i: usize = 0;
        while i < outer.len()
            invariant
                total == outer@ + inner@,
                i <= outer.len(),
                r@.len() == i,
                forall|j: int|
                    0 <= j < r@.len() ==> (#[trigger] r@[j]).0.tree == t && r@[j].0.index
                        == total[j],
            decreases outer.len() - i,
        {
            r.push(PrefixMetadata(SyntaxNode { tree: t, index: outer[i] }));
            i = i + 1;
        }
        let mut i: usize = 0;
        while i < inner.len()
            invariant
                total == outer@ + inner@,
                i <= inner.len(),
                r@.len() == outer@.len() + i,
                forall|j: int|
                    0 <= j < r@.len() ==> (#[trigger] r@[j]).0.tree == t && r@[j].0.index
                        == total[j],
            decreases inner.len() - i,
        {
            r.push(PrefixMetadata(SyntaxNode { tree: t, index: inner[i] }));
            i = i + 1;
        }
        r
    }
}

/// The bounds scan over the descendants of node `n`.
fn find_bounds(t: &SyntaxTree, n: usize, st: BoundsScan) -> (r: BoundsScan)
    ensures
        r == bounds_of_node(*t, n as int, st),
    decreases t.entries@.len() - n,
{
    let cs = children_of(t, n);
    proof {
        crate::syntax::lemma_children_from_bounds(
            *t,
            n + 1,
            if n < t.entries@.len() { t.entries@[n as int].end as int } else { 0 },
        );
    }
    let mut cur = st;
    let mut i: usize = 0;
    while i < cs.len()
        invariant
            cs@ == child_ids(*t, n as int),
            forall|j: int| 0 <= j < cs@.len() ==> n < #[trigger] cs@[j] < t.entries@.len(),
            i <= cs.len(),
            cur == bounds_of_seq(*t, n as int, cs@.take(i as int), st),
        decreases cs.len() - i,
    {
        let c = cs[i];
        proof {
            assert(cs@.take(i + 1).drop_last() =~= cs@.take(i as int));
            assert(cs@.take(i + 1).last() == c);
        }
        let k = t.entries[c].kind;
        if k == SyntaxKind::INTEGER {
            if t.entries[c].is_token {
                if let Some(v) = parse_u64_text(t.entries[c].text.as_str()) {
                    if cur.2 {
                        cur = (cur.0, Some(v), cur.2);
                    } else {
                        cur = (Some(v), cur.1, cur.2);
                    }
                }
            }
        } else if k == SyntaxKind::STAR {
            if cur.2 {
                cur = (cur.0, None, cur.2);
            } else {
                cur = (None, cur.1, cur.2);
            }
        } else if k == SyntaxKind::DOT_DOT {
            cur = (cur.0, cur.1, true);
        } else if !t.entries[c].is_token {
            cur = find_bounds(t, c, cur);
        }
        i = i + 1;
    }
    assert(cs@.take(cs@.len() as int) =~= cs@);
    cur
}

/// The bounds of multiplicity node `m`.
fn parse_multiplicity_node(t: &SyntaxTree, m: usize) -> (r: (Option<u64>, Option<u64>))
    ensures
        r == multiplicity_bounds(*t, m as int),
{
    let (lower, upper, dot) = find_bounds(t, m, (None, None, false));
    if !dot && lower.is_some() {
        (lower, lower)
    } else {
        (lower, upper)
    }
}

} // verus!
