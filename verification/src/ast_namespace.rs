//! Namespaces, relationships and connectors in the syntax tree.

use vstd::prelude::*;
use crate::ast_elements::{first_qn, qn_at, MetadataUsage, Usage};
use crate::ast_names::{joined, segment_texts, Name, QualifiedName};
use crate::syntax::{
    child_ids, children_of, children_passing, children_where, first_child_passing,
    first_child_where, has_child_token, has_token, is_node_of, is_token_of, kind_at, ChildFilter, SyntaxNode,
    SyntaxTree,
};
use crate::syntax_kind::SyntaxKind;

verus! {

/// A package.
#[derive(Debug, Clone, Copy)]
pub struct Package<'a>(pub SyntaxNode<'a>);

/// A library package.
#[derive(Debug, Clone, Copy)]
pub struct LibraryPackage<'a>(pub SyntaxNode<'a>);

/// An import.
#[derive(Debug, Clone, Copy)]
pub struct Import<'a>(pub SyntaxNode<'a>);

/// An alias member.
#[derive(Debug, Clone, Copy)]
pub struct Alias<'a>(pub SyntaxNode<'a>);

/// A dependency.
#[derive(Debug, Clone, Copy)]
pub struct Dependency<'a>(pub SyntaxNode<'a>);

/// A definition.
#[derive(Debug, Clone, Copy)]
pub struct Definition<'a>(pub SyntaxNode<'a>);

/// An element filter.
#[derive(Debug, Clone, Copy)]
pub struct ElementFilter<'a>(pub SyntaxNode<'a>);

/// A comment or documentation element.
#[derive(Debug, Clone, Copy)]
pub struct Comment<'a>(pub SyntaxNode<'a>);

/// A standalone `bind a = b;`.
#[derive(Debug, Clone, Copy)]
pub struct BindingConnector<'a>(pub SyntaxNode<'a>);

/// A standalone succession `first a then b;`.
#[derive(Debug, Clone, Copy)]
pub struct Succession<'a>(pub SyntaxNode<'a>);

/// A transition usage.
#[derive(Debug, Clone, Copy)]
pub struct TransitionUsage<'a>(pub SyntaxNode<'a>);

/// A KerML connector.
#[derive(Debug, Clone, Copy)]
pub struct Connector<'a>(pub SyntaxNode<'a>);

/// A connect usage.
#[derive(Debug, Clone, Copy)]
pub struct ConnectUsage<'a>(pub SyntaxNode<'a>);

/// A send action usage.
#[derive(Debug, Clone, Copy)]
pub struct SendActionUsage<'a>(pub SyntaxNode<'a>);

/// An accept action usage.
#[derive(Debug, Clone, Copy)]
pub struct AcceptActionUsage<'a>(pub SyntaxNode<'a>);

/// An entry, do or exit state subaction.
#[derive(Debug, Clone, Copy)]
pub struct StateSubaction<'a>(pub SyntaxNode<'a>);

/// A control node (fork, join, merge, decide).
#[derive(Debug, Clone, Copy)]
pub struct ControlNode<'a>(pub SyntaxNode<'a>);

/// A for-loop action usage.
#[derive(Debug, Clone, Copy)]
pub struct ForLoopActionUsage<'a>(pub SyntaxNode<'a>);

/// An if action usage.
#[derive(Debug, Clone, Copy)]
pub struct IfActionUsage<'a>(pub SyntaxNode<'a>);

/// A while-loop action usage.
#[derive(Debug, Clone, Copy)]
pub struct WhileLoopActionUsage<'a>(pub SyntaxNode<'a>);

/// Any member of a namespace body.
#[derive(Debug, Clone, Copy)]
pub enum NamespaceMember<'a> {
    Package(Package<'a>),
    LibraryPackage(LibraryPackage<'a>),
    Import(Import<'a>),
    Alias(Alias<'a>),
    Dependency(Dependency<'a>),
    Definition(Definition<'a>),
    Usage(Usage<'a>),
    Filter(ElementFilter<'a>),
    Metadata(MetadataUsage<'a>),
    Comment(Comment<'a>),
    Bind(BindingConnector<'a>),
    Succession(Succession<'a>),
    Transition(TransitionUsage<'a>),
    Connector(Connector<'a>),
    ConnectUsage(ConnectUsage<'a>),
    SendAction(SendActionUsage<'a>),
    AcceptAction(AcceptActionUsage<'a>),
    StateSubaction(StateSubaction<'a>),
    ControlNode(ControlNode<'a>),
    ForLoop(ForLoopActionUsage<'a>),
    IfAction(IfActionUsage<'a>),
    WhileLoop(WhileLoopActionUsage<'a>),
}

/// Whether a node of kind `k` is a namespace member.
pub open spec fn is_member_kind(k: SyntaxKind) -> bool {
    k == SyntaxKind::PACKAGE || k == SyntaxKind::LIBRARY_PACKAGE || k == SyntaxKind::IMPORT || k == SyntaxKind::ALIAS_MEMBER || k == SyntaxKind::DEPENDENCY || k == SyntaxKind::DEFINITION || k == SyntaxKind::ACTION_DEFINITION || k == SyntaxKind::CALC_DEFINITION || k == SyntaxKind::CONSTRAINT_DEFINITION || k == SyntaxKind::REQUIREMENT_DEFINITION || k == SyntaxKind::USAGE || k == SyntaxKind::SUBJECT_USAGE || k == SyntaxKind::ACTOR_USAGE || k == SyntaxKind::STAKEHOLDER_USAGE || k == SyntaxKind::OBJECTIVE_USAGE || k == SyntaxKind::ACTION_USAGE || k == SyntaxKind::CALC_USAGE || k == SyntaxKind::CONSTRAINT_USAGE || k == SyntaxKind::REQUIREMENT_USAGE || k == SyntaxKind::ELEMENT_FILTER_MEMBER || k == SyntaxKind::METADATA_USAGE || k == SyntaxKind::COMMENT_ELEMENT || k == SyntaxKind::BINDING_CONNECTOR || k == SyntaxKind::SUCCESSION || k == SyntaxKind::TRANSITION_USAGE || k == SyntaxKind::CONNECTOR || k == SyntaxKind::CONNECT_USAGE || k == SyntaxKind::SEND_ACTION_USAGE || k == SyntaxKind::ACCEPT_ACTION_USAGE || k == SyntaxKind::STATE_SUBACTION || k == SyntaxKind::CONTROL_NODE || k == SyntaxKind::FOR_LOOP_ACTION_USAGE || k == SyntaxKind::IF_ACTION_USAGE || k == SyntaxKind::WHILE_LOOP_ACTION_USAGE
}

/// The namespace member that node `c` of `tree` is, if it is one.
pub open spec fn member_of<'a>(tree: &'a SyntaxTree, c: usize) -> Option<NamespaceMember<'a>> {
    let node = SyntaxNode { tree, index: c };
    if !(0 <= c < tree.entries@.len()) || tree.entries@[c as int].is_token {
        None
    } else {
        match tree.entries@[c as int].kind {
            SyntaxKind::PACKAGE => Some(NamespaceMember::Package(Package(node))),
            SyntaxKind::LIBRARY_PACKAGE => Some(NamespaceMember::LibraryPackage(LibraryPackage(node))),
            SyntaxKind::IMPORT => Some(NamespaceMember::Import(Import(node))),
            SyntaxKind::ALIAS_MEMBER => Some(NamespaceMember::Alias(Alias(node))),
            SyntaxKind::DEPENDENCY => Some(NamespaceMember::Dependency(Dependency(node))),
            SyntaxKind::DEFINITION | SyntaxKind::ACTION_DEFINITION | SyntaxKind::CALC_DEFINITION | SyntaxKind::CONSTRAINT_DEFINITION | SyntaxKind::REQUIREMENT_DEFINITION => Some(NamespaceMember::Definition(Definition(node))),
            SyntaxKind::USAGE | SyntaxKind::SUBJECT_USAGE | SyntaxKind::ACTOR_USAGE | SyntaxKind::STAKEHOLDER_USAGE | SyntaxKind::OBJECTIVE_USAGE | SyntaxKind::ACTION_USAGE | SyntaxKind::CALC_USAGE | SyntaxKind::CONSTRAINT_USAGE | SyntaxKind::REQUIREMENT_USAGE => Some(NamespaceMember::Usage(Usage(node))),
            SyntaxKind::ELEMENT_FILTER_MEMBER => Some(NamespaceMember::Filter(ElementFilter(node))),
            SyntaxKind::METADATA_USAGE => Some(NamespaceMember::Metadata(MetadataUsage(node))),
            SyntaxKind::COMMENT_ELEMENT => Some(NamespaceMember::Comment(Comment(node))),
            SyntaxKind::BINDING_CONNECTOR => Some(NamespaceMember::Bind(BindingConnector(node))),
            SyntaxKind::SUCCESSION => Some(NamespaceMember::Succession(Succession(node))),
            SyntaxKind::TRANSITION_USAGE => Some(NamespaceMember::Transition(TransitionUsage(node))),
            SyntaxKind::CONNECTOR => Some(NamespaceMember::Connector(Connector(node))),
            SyntaxKind::CONNECT_USAGE => Some(NamespaceMember::ConnectUsage(ConnectUsage(node))),
            SyntaxKind::SEND_ACTION_USAGE => Some(NamespaceMember::SendAction(SendActionUsage(node))),
            SyntaxKind::ACCEPT_ACTION_USAGE => Some(NamespaceMember::AcceptAction(AcceptActionUsage(node))),
            SyntaxKind::STATE_SUBACTION => Some(NamespaceMember::StateSubaction(StateSubaction(node))),
            SyntaxKind::CONTROL_NODE => Some(NamespaceMember::ControlNode(ControlNode(node))),
            SyntaxKind::FOR_LOOP_ACTION_USAGE => Some(NamespaceMember::ForLoop(ForLoopActionUsage(node))),
            SyntaxKind::IF_ACTION_USAGE => Some(NamespaceMember::IfAction(IfActionUsage(node))),
            SyntaxKind::WHILE_LOOP_ACTION_USAGE => Some(NamespaceMember::WhileLoop(WhileLoopActionUsage(node))),
            _ => None,
        }
    }
}

impl<'a> NamespaceMember<'a> {
    /// `node` as a namespace member, by its kind.
    pub fn cast(node: SyntaxNode<'a>) -> (r: Option<NamespaceMember<'a>>)
        ensures
            r == member_of(node.tree, node.index),
    {
        let t = node.tree;
        if node.index >= t.entries.len() || t.entries[node.index].is_token {
            return None;
        }
        match t.entries[node.index].kind {
            SyntaxKind::PACKAGE => Some(NamespaceMember::Package(Package(node))),
            SyntaxKind::LIBRARY_PACKAGE => Some(NamespaceMember::LibraryPackage(LibraryPackage(node))),
            SyntaxKind::IMPORT => Some(NamespaceMember::Import(Import(node))),
            SyntaxKind::ALIAS_MEMBER => Some(NamespaceMember::Alias(Alias(node))),
            SyntaxKind::DEPENDENCY => Some(NamespaceMember::Dependency(Dependency(node))),
            SyntaxKind::DEFINITION | SyntaxKind::ACTION_DEFINITION | SyntaxKind::CALC_DEFINITION | SyntaxKind::CONSTRAINT_DEFINITION | SyntaxKind::REQUIREMENT_DEFINITION => Some(NamespaceMember::Definition(Definition(node))),
            SyntaxKind::USAGE | SyntaxKind::SUBJECT_USAGE | SyntaxKind::ACTOR_USAGE | SyntaxKind::STAKEHOLDER_USAGE | SyntaxKind::OBJECTIVE_USAGE | SyntaxKind::ACTION_USAGE | SyntaxKind::CALC_USAGE | SyntaxKind::CONSTRAINT_USAGE | SyntaxKind::REQUIREMENT_USAGE => Some(NamespaceMember::Usage(Usage(node))),
            SyntaxKind::ELEMENT_FILTER_MEMBER => Some(NamespaceMember::Filter(ElementFilter(node))),
            SyntaxKind::METADATA_USAGE => Some(NamespaceMember::Metadata(MetadataUsage(node))),
            SyntaxKind::COMMENT_ELEMENT => Some(NamespaceMember::Comment(Comment(node))),
            SyntaxKind::BINDING_CONNECTOR => Some(NamespaceMember::Bind(BindingConnector(node))),
            SyntaxKind::SUCCESSION => Some(NamespaceMember::Succession(Succession(node))),
            SyntaxKind::TRANSITION_USAGE => Some(NamespaceMember::Transition(TransitionUsage(node))),
            SyntaxKind::CONNECTOR => Some(NamespaceMember::Connector(Connector(node))),
            SyntaxKind::CONNECT_USAGE => Some(NamespaceMember::ConnectUsage(ConnectUsage(node))),
            SyntaxKind::SEND_ACTION_USAGE => Some(NamespaceMember::SendAction(SendActionUsage(node))),
            SyntaxKind::ACCEPT_ACTION_USAGE => Some(NamespaceMember::AcceptAction(AcceptActionUsage(node))),
            SyntaxKind::STATE_SUBACTION => Some(NamespaceMember::StateSubaction(StateSubaction(node))),
            SyntaxKind::CONTROL_NODE => Some(NamespaceMember::ControlNode(ControlNode(node))),
            SyntaxKind::FOR_LOOP_ACTION_USAGE => Some(NamespaceMember::ForLoop(ForLoopActionUsage(node))),
            SyntaxKind::IF_ACTION_USAGE => Some(NamespaceMember::IfAction(IfActionUsage(node))),
            SyntaxKind::WHILE_LOOP_ACTION_USAGE => Some(NamespaceMember::WhileLoop(WhileLoopActionUsage(node))),
            _ => None,
        }
    }

    /// The member's node.
    pub open spec fn spec_node(self) -> SyntaxNode<'a> {
        match self {
            NamespaceMember::Package(x) => x.0,
            NamespaceMember::LibraryPackage(x) => x.0,
            NamespaceMember::Import(x) => x.0,
            NamespaceMember::Alias(x) => x.0,
            NamespaceMember::Dependency(x) => x.0,
            NamespaceMember::Definition(x) => x.0,
            NamespaceMember::Usage(x) => x.0,
            NamespaceMember::Filter(x) => x.0,
            NamespaceMember::Metadata(x) => x.0,
            NamespaceMember::Comment(x) => x.0,
            NamespaceMember::Bind(x) => x.0,
            NamespaceMember::Succession(x) => x.0,
            NamespaceMember::Transition(x) => x.0,
            NamespaceMember::Connector(x) => x.0,
            NamespaceMember::ConnectUsage(x) => x.0,
            NamespaceMember::SendAction(x) => x.0,
            NamespaceMember::AcceptAction(x) => x.0,
            NamespaceMember::StateSubaction(x) => x.0,
            NamespaceMember::ControlNode(x) => x.0,
            NamespaceMember::ForLoop(x) => x.0,
            NamespaceMember::IfAction(x) => x.0,
            NamespaceMember::WhileLoop(x) => x.0,
        }
    }

    /// The member's syntax node.
    pub fn syntax(&self) -> (r: SyntaxNode<'a>)
        ensures
            r == self.spec_node(),
    {
        match self {
            NamespaceMember::Package(x) => x.0,
            NamespaceMember::LibraryPackage(x) => x.0,
            NamespaceMember::Import(x) => x.0,
            NamespaceMember::Alias(x) => x.0,
            NamespaceMember::Dependency(x) => x.0,
            NamespaceMember::Definition(x) => x.0,
            NamespaceMember::Usage(x) => x.0,
            NamespaceMember::Filter(x) => x.0,
            NamespaceMember::Metadata(x) => x.0,
            NamespaceMember::Comment(x) => x.0,
            NamespaceMember::Bind(x) => x.0,
            NamespaceMember::Succession(x) => x.0,
            NamespaceMember::Transition(x) => x.0,
            NamespaceMember::Connector(x) => x.0,
            NamespaceMember::ConnectUsage(x) => x.0,
            NamespaceMember::SendAction(x) => x.0,
            NamespaceMember::AcceptAction(x) => x.0,
            NamespaceMember::StateSubaction(x) => x.0,
            NamespaceMember::ControlNode(x) => x.0,
            NamespaceMember::ForLoop(x) => x.0,
            NamespaceMember::IfAction(x) => x.0,
            NamespaceMember::WhileLoop(x) => x.0,
        }
    }
}

/// Whether entry `c` is a node that is a namespace member.
pub open spec fn is_member_node(t: SyntaxTree, c: int) -> bool {
    0 <= c < t.entries@.len() && !t.entries@[c].is_token && is_member_kind(t.entries@[c].kind)
}

/// The members that child `c` of a namespace body contributes: a state
/// subaction gives its member children, or itself when it has none; any
/// other member gives itself.
pub open spec fn member_contrib(t: SyntaxTree, c: int) -> Seq<usize> {
    if is_node_of(t, c, SyntaxKind::STATE_SUBACTION) {
        let nested = child_ids(t, c).filter(|x: usize| is_member_node(t, x as int));
        if nested.len() == 0 {
            seq![c as usize]
        } else {
            nested
        }
    } else if is_member_node(t, c) {
        seq![c as usize]
    } else {
        Seq::empty()
    }
}

/// The members contributed by the children `cs`, in order.
pub open spec fn members_seq(t: SyntaxTree, cs: Seq<usize>) -> Seq<usize>
    decreases cs.len(),
{
    if cs.len() == 0 {
        Seq::empty()
    } else {
        members_seq(t, cs.drop_last()) + member_contrib(t, cs.last() as int)
    }
}

/// Every member contributed is a namespace member node.
proof fn lemma_members_are_members(t: SyntaxTree, cs: Seq<usize>)
    ensures
        forall|j: int| 0 <= j < members_seq(t, cs).len() ==> is_member_node(t, #[trigger] members_seq(t, cs)[j] as int),
    decreases cs.len(),
{
    if cs.len() > 0 {
        lemma_members_are_members(t, cs.drop_last());
        let c = cs.last() as int;
        let pre = members_seq(t, cs.drop_last());
        let con = member_contrib(t, c);
        if is_node_of(t, c, SyntaxKind::STATE_SUBACTION) {
            let p = |x: usize| is_member_node(t, x as int);
            assert forall|k: int| 0 <= k < child_ids(t, c).filter(p).len() implies p(#[trigger] child_ids(t, c).filter(p)[k]) by {
                child_ids(t, c).lemma_filter_pred(p, k);
            }
        }
        assert forall|j: int| 0 <= j < members_seq(t, cs).len() implies is_member_node(t, #[trigger] members_seq(t, cs)[j] as int) by {
            assert(members_seq(t, cs) == pre + con);
            if j >= pre.len() {
                assert(members_seq(t, cs)[j] == con[j - pre.len()]);
            }
        }
    }
}

/// A namespace body `{ ... }` (`NAMESPACE_BODY` node).
#[derive(Debug, Clone, Copy)]
pub struct NamespaceBody<'a>(pub SyntaxNode<'a>);

/// The member children of node `c`, in order.
fn member_children(t: &SyntaxTree, c: usize) -> (r: Vec<usize>)
    ensures
        r@ == child_ids(*t, c as int).filter(|x: usize| is_member_node(*t, x as int)),
{
    let cs = children_of(t, c);
    let mut r: Vec<usize> = Vec::new();
    let mut i: usize = 0;
    while i < cs.len()
        invariant
            cs@ == child_ids(*t, c as int),
            i <= cs.len(),
            r@ == cs@.take(i as int).filter(|x: usize| is_member_node(*t, x as int)),
        decreases cs.len() - i,
    {
        let x = cs[i];
        proof {
            assert(cs@.take(i + 1).drop_last() =~= cs@.take(i as int));
            assert(cs@.take(i + 1).last() == x);
            reveal(Seq::filter);
        }
        let m = NamespaceMember::cast(SyntaxNode { tree: t, index: x });
        if m.is_some() {
            r.push(x);
        }
        i = i + 1;
    }
    assert(cs@.take(cs@.len() as int) =~= cs@);
    r
}

impl<'a> NamespaceBody<'a> {
    /// The members of the body, in order; a state subaction stands for the
    /// members inside it, or for itself when it holds none.
    pub fn members(&self) -> (r: Vec<NamespaceMember<'a>>)
        ensures
            r@.len() == members_seq(*self.0.tree, child_ids(*self.0.tree, self.0.index as int)).len(),
            forall|i: int|
                0 <= i < r@.len() ==> Some(#[trigger] r@[i]) == member_of(
                    self.0.tree,
                    members_seq(*self.0.tree, child_ids(*self.0.tree, self.0.index as int))[i],
                ),
    {
        let t = self.0.tree;
        let cs = children_of(t, self.0.index);
        let mut ids: Vec<usize> = Vec::new();
        let mut i: usize = 0;
        while i < cs.len()
            invariant
                t == self.0.tree,
                cs@ == child_ids(*t, self.0.index as int),
                i <= cs.len(),
                ids@ == members_seq(*t, cs@.take(i as int)),
            decreases cs.len() - i,
        {
            let c = cs[i];
            proof {
                assert(cs@.take(i + 1).drop_last() =~= cs@.take(i as int));
                assert(cs@.take(i + 1).last() == c);
            }
            if c < t.entries.len() && !t.entries[c].is_token && t.entries[c].kind
                == SyntaxKind::STATE_SUBACTION {
                let nested = member_children(t, c);
                if nested.len() == 0 {
                    ids.push(c);
                    proof {
                        assert(member_contrib(*t, c as int) =~= seq![c]);
                    }
                } else {
                    let ghost before = ids@;
                    let mut j: usize = 0;
                    while j < nested.len()
                        invariant
                            ids@ == before + nested@.take(j as int),
                            j <= nested.len(),
                        decreases nested.len() - j,
                    {
                        ids.push(nested[j]);
                        proof {
                            assert(nested@.take(j + 1) =~= nested@.take(j as int).push(nested@[j as int]));
                        }
                        j = j + 1;
                    }
                    assert(nested@.take(nested@.len() as int) =~= nested@);
                }
            } else {
                let m = NamespaceMember::cast(SyntaxNode { tree: t, index: c });
                if m.is_some() {
                    ids.push(c);
                    proof {
                        assert(member_contrib(*t, c as int) =~= seq![c]);
                    }
                } else {
                    proof {
                        assert(member_contrib(*t, c as int) =~= Seq::<usize>::empty());
                    }
                }
            }
            assert(ids@ =~= members_seq(*t, cs@.take(i as int)) + member_contrib(*t, c as int));
            i = i + 1;
        }
        assert(cs@.take(cs@.len() as int) =~= cs@);
        proof {
            lemma_members_are_members(*t, cs@);
        }
        let mut r: Vec<NamespaceMember<'a>> = Vec::new();
        let mut k: usize = 0;
        while k < ids.len()
            invariant
                t == self.0.tree,
                ids@ == members_seq(*t, child_ids(*t, self.0.index as int)),
                forall|j: int| 0 <= j < ids@.len() ==> #[trigger] member_of(t, ids@[j]) is Some,
                k <= ids.len(),
                r@.len() == k,
                forall|j: int| 0 <= j < k ==> Some(#[trigger] r@[j]) == member_of(t, ids@[j]),
            decreases ids.len() - k,
        {
            let m = NamespaceMember::cast(SyntaxNode { tree: t, index: ids[k] });
            assert(member_of(t, ids@[k as int]) is Some);
            r.push(m.unwrap());
            k = k + 1;
        }
        r
    }
}

/// The kind of a specialization, from its operator or keyword.
#[derive(Debug, Clone, Copy, PartialEq, Eq, Structural)]
pub enum SpecializationKind {
    Specializes,
    Subsets,
    Redefines,
    References,
    Conjugates,
    /// A feature chain, written `::>` or with `chains`.
    FeatureChain,
}

/// A specialization `:> x`, `:>> x`, `subsets x`, ... (`SPECIALIZATION` node).
#[derive(Debug, Clone, Copy)]
pub struct Specialization<'a>(pub SyntaxNode<'a>);

/// The specialization kind that the operator or keyword `k` spells.
pub open spec fn specialization_kind_of(k: SyntaxKind) -> Option<SpecializationKind> {
    match k {
        SyntaxKind::COLON_GT => Some(SpecializationKind::Specializes),
        SyntaxKind::COLON_GT_GT => Some(SpecializationKind::Redefines),
        SyntaxKind::COLON_COLON_GT => Some(SpecializationKind::FeatureChain),
        SyntaxKind::SPECIALIZES_KW => Some(SpecializationKind::Specializes),
        SyntaxKind::SUBSETS_KW => Some(SpecializationKind::Subsets),
        SyntaxKind::REDEFINES_KW => Some(SpecializationKind::Redefines),
        SyntaxKind::REFERENCES_KW => Some(SpecializationKind::References),
        SyntaxKind::TILDE => Some(SpecializationKind::Conjugates),
        SyntaxKind::FROM_KW => Some(SpecializationKind::FeatureChain),
        SyntaxKind::TO_KW => Some(SpecializationKind::FeatureChain),
        SyntaxKind::CHAINS_KW => Some(SpecializationKind::FeatureChain),
        _ => None,
    }
}

/// The specialization kind that the operator or keyword `k` spells.
fn specialization_kind_for(k: SyntaxKind) -> (r: Option<SpecializationKind>)
    ensures
        r == specialization_kind_of(k),
{
    match k {
        SyntaxKind::COLON_GT => Some(SpecializationKind::Specializes),
        SyntaxKind::COLON_GT_GT => Some(SpecializationKind::Redefines),
        SyntaxKind::COLON_COLON_GT => Some(SpecializationKind::FeatureChain),
        SyntaxKind::SPECIALIZES_KW => Some(SpecializationKind::Specializes),
        SyntaxKind::SUBSETS_KW => Some(SpecializationKind::Subsets),
        SyntaxKind::REDEFINES_KW => Some(SpecializationKind::Redefines),
        SyntaxKind::REFERENCES_KW => Some(SpecializationKind::References),
        SyntaxKind::TILDE => Some(SpecializationKind::Conjugates),
        SyntaxKind::FROM_KW => Some(SpecializationKind::FeatureChain),
        SyntaxKind::TO_KW => Some(SpecializationKind::FeatureChain),
        SyntaxKind::CHAINS_KW => Some(SpecializationKind::FeatureChain),
        _ => None,
    }
}

/// The kind spelled by the first token among `cs`, from position `j`, that
/// spells a specialization kind.
pub open spec fn specialization_kind_from(t: SyntaxTree, cs: Seq<usize>, j: int) -> Option<SpecializationKind>
    decreases cs.len() - j,
{
    if j < 0 || j >= cs.len() {
        None
    } else if 0 <= cs[j] < t.entries@.len() && t.entries@[cs[j] as int].is_token
        && specialization_kind_of(t.entries@[cs[j] as int].kind) is Some {
        specialization_kind_of(t.entries@[cs[j] as int].kind)
    } else {
        specialization_kind_from(t, cs, j + 1)
    }
}

impl<'a> Specialization<'a> {
    /// The kind of the specialization: the one spelled by its first operator
    /// or keyword token that spells one (`:>>` and `redefines` both give
    /// `Redefines`).
    #[verifier::loop_isolation(false)]
    pub fn kind(&self) -> (r: Option<SpecializationKind>)
        ensures
            r == specialization_kind_from(*self.0.tree, child_ids(*self.0.tree, self.0.index as int), 0),
    {
        let t = self.0.tree;
        let cs = children_of(t, self.0.index);
        let mut j: usize = 0;
        while j < cs.len()
            invariant
                j <= cs@.len(),
                specialization_kind_from(*t, cs@, 0) == specialization_kind_from(*t, cs@, j as int),
            decreases cs.len() - j,
        {
            let c = cs[j];
            if c < t.entries.len() && t.entries[c].is_token {
                let k = specialization_kind_for(t.entries[c].kind);
                if k.is_some() {
                    return k;
                }
            }
            j = j + 1;
        }
        None
    }

    /// Written with the shorthand `:>>` rather than `redefines`.
    pub fn is_shorthand_redefines(&self) -> (r: bool)
        ensures
            r == has_token(*self.0.tree, self.0.index as int, SyntaxKind::COLON_GT_GT),
    {
        has_child_token(self.0.tree, self.0.index, SyntaxKind::COLON_GT_GT)
    }
}

/// A `perform` action usage (`PERFORM_ACTION_USAGE` node).
#[derive(Debug, Clone, Copy)]
pub struct PerformActionUsage<'a>(pub SyntaxNode<'a>);

impl<'a> PerformActionUsage<'a> {
    /// The performed action: the first specialization.
    pub fn performed(&self) -> (r: Option<Specialization<'a>>)
        ensures
            r == (match first_child_passing(
                *self.0.tree,
                self.0.index as int,
                ChildFilter::NodeOf(SyntaxKind::SPECIALIZATION),
            ) {
                Some(c) => Some(Specialization(SyntaxNode { tree: self.0.tree, index: c })),
                None => None,
            }),
    {
        match first_child_where(
            self.0.tree,
            self.0.index,
            ChildFilter::NodeOf(SyntaxKind::SPECIALIZATION),
        ) {
            Some(c) => Some(Specialization(SyntaxNode { tree: self.0.tree, index: c })),
            None => None,
        }
    }
}

/// The filter that picks connector ends: KerML `CONNECTION_END` and SysML
/// `CONNECTOR_END` nodes.
pub open spec fn end_filter() -> ChildFilter {
    ChildFilter::NodeOfEither(SyntaxKind::CONNECTION_END, SyntaxKind::CONNECTOR_END)
}

/// The ends of connector `n`: those of its connector part when it has
/// some, else its own end children.
pub open spec fn connector_ends(t: SyntaxTree, n: int) -> Seq<usize> {
    let from_part = match first_child_passing(t, n, ChildFilter::NodeOf(SyntaxKind::CONNECTOR_PART)) {
        Some(cp) => children_passing(t, cp as int, end_filter()),
        None => Seq::empty(),
    };
    if from_part.len() == 0 {
        children_passing(t, n, end_filter())
    } else {
        from_part
    }
}

/// A connector end (`CONNECTION_END` or `CONNECTOR_END` node).
#[derive(Debug, Clone, Copy)]
pub struct ConnectorEnd<'a>(pub SyntaxNode<'a>);

/// The list of ends of a connector (`CONNECTOR_PART` node).
#[derive(Debug, Clone, Copy)]
pub struct ConnectorPart<'a>(pub SyntaxNode<'a>);

/// Node indices `ids` as connector ends of `tree`.
fn ends_at<'a>(tree: &'a SyntaxTree, ids: &Vec<usize>) -> (r: Vec<ConnectorEnd<'a>>)
    ensures
        r@.len() == ids@.len(),
        forall|i: int| 0 <= i < r@.len() ==> (#[trigger] r@[i]).0.tree == tree && r@[i].0.index == ids@[i],
{
    let mut r: Vec<ConnectorEnd<'a>> = Vec::new();
    let mut i: usize = 0;
    while i < ids.len()
        invariant
            i <= ids.len(),
            r@.len() == i,
            forall|j: int| 0 <= j < i ==> (#[trigger] r@[j]).0.tree == tree && r@[j].0.index == ids@[j],
        decreases ids.len() - i,
    {
        r.push(ConnectorEnd(SyntaxNode { tree, index: ids[i] }));
        i = i + 1;
    }
    r
}

impl<'a> Connector<'a> {
    /// The connector's ends: from its connector part when that has ends,
    /// else its direct end children.
    pub fn ends(&self) -> (r: Vec<ConnectorEnd<'a>>)
        ensures
            r@.len() == connector_ends(*self.0.tree, self.0.index as int).len(),
            forall|i: int|
                0 <= i < r@.len() ==> (#[trigger] r@[i]).0.tree == self.0.tree && r@[i].0.index
                    == connector_ends(*self.0.tree, self.0.index as int)[i],
    {
        let t = self.0.tree;
        let kinds = ChildFilter::NodeOfEither(SyntaxKind::CONNECTION_END, SyntaxKind::CONNECTOR_END);
        let from_part = match first_child_where(t, self.0.index, ChildFilter::NodeOf(SyntaxKind::CONNECTOR_PART)) {
            Some(cp) => children_where(t, cp, kinds),
            None => Vec::new(),
        };
        if from_part.len() == 0 {
            let direct = children_where(t, self.0.index, kinds);
            ends_at(t, &direct)
        } else {
            ends_at(t, &from_part)
        }
    }
}

/// Whether the end reference `r` carries `::>` or `references`.
pub open spec fn has_references(t: SyntaxTree, r: int) -> bool {
    exists|j: int|
        0 <= j < child_ids(t, r).len() && (kind_at(t, #[trigger] child_ids(t, r)[j] as int)
            == SyntaxKind::COLON_COLON_GT || kind_at(t, child_ids(t, r)[j] as int)
            == SyntaxKind::REFERENCES_KW)
}

/// The end reference node of end `n`.
pub open spec fn end_reference(t: SyntaxTree, n: int) -> Option<usize> {
    first_child_passing(t, n, ChildFilter::NodeOf(SyntaxKind::CONNECTOR_END_REFERENCE))
}

/// The qualified names among the children of `r`.
pub open spec fn qns_of(t: SyntaxTree, r: int) -> Seq<usize> {
    children_passing(t, r, ChildFilter::NodeOf(SyntaxKind::QUALIFIED_NAME))
}

/// The target of end `n`: after `::>`/`references` the second qualified
/// name of its reference, else the first; without a reference, its own
/// first qualified name.
pub open spec fn end_target(t: SyntaxTree, n: int) -> Option<usize> {
    match end_reference(t, n) {
        Some(r) => if has_references(t, r as int) && qns_of(t, r as int).len() > 1 {
            Some(qns_of(t, r as int)[1])
        } else if qns_of(t, r as int).len() > 0 {
            Some(qns_of(t, r as int)[0])
        } else {
            None
        },
        None => first_qn(t, n),
    }
}

/// The endpoint name of end `n`: the first qualified name of its
/// reference when that carries `::>` or `references`.
pub open spec fn end_endpoint_name(t: SyntaxTree, n: int) -> Option<usize> {
    match end_reference(t, n) {
        Some(r) => if has_references(t, r as int) {
            first_qn(t, r as int)
        } else {
            None
        },
        None => None,
    }
}

/// Whether the end reference `r` carries `::>` or `references`.
fn reference_marked(t: &SyntaxTree, r: usize) -> (b: bool)
    ensures
        b == has_references(*t, r as int),
{
    let cs = children_of(t, r);
    let mut i: usize = 0;
    while i < cs.len()
        invariant
            cs@ == child_ids(*t, r as int),
            i <= cs.len(),
            forall|j: int|
                0 <= j < i ==> kind_at(*t, #[trigger] cs@[j] as int) != SyntaxKind::COLON_COLON_GT
                    && kind_at(*t, cs@[j] as int) != SyntaxKind::REFERENCES_KW,
        decreases cs.len() - i,
    {
        let c = cs[i];
        let k = SyntaxNode { tree: t, index: c }.kind();
        if k == SyntaxKind::COLON_COLON_GT || k == SyntaxKind::REFERENCES_KW {
            assert(kind_at(*t, cs@[i as int] as int) == k);
            return true;
        }
        i = i + 1;
    }
    false
}

impl<'a> ConnectorEnd<'a> {
    /// The end's target reference.
    pub fn target(&self) -> (r: Option<QualifiedName<'a>>)
        ensures
            r == qn_at(self.0.tree, end_target(*self.0.tree, self.0.index as int)),
    {
        let t = self.0.tree;
        match first_child_where(t, self.0.index, ChildFilter::NodeOf(SyntaxKind::CONNECTOR_END_REFERENCE)) {
            Some(rn) => {
                let marked = reference_marked(t, rn);
                let qns = children_where(t, rn, ChildFilter::NodeOf(SyntaxKind::QUALIFIED_NAME));
                if marked && qns.len() > 1 {
                    Some(QualifiedName(SyntaxNode { tree: t, index: qns[1] }))
                } else if qns.len() > 0 {
                    Some(QualifiedName(SyntaxNode { tree: t, index: qns[0] }))
                } else {
                    None
                }
            },
            None => match first_child_where(t, self.0.index, ChildFilter::NodeOf(SyntaxKind::QUALIFIED_NAME)) {
                Some(c) => Some(QualifiedName(SyntaxNode { tree: t, index: c })),
                None => None,
            },
        }
    }

    /// The end's name before `::>`, if its reference has one.
    pub fn endpoint_name(&self) -> (r: Option<QualifiedName<'a>>)
        ensures
            r == qn_at(self.0.tree, end_endpoint_name(*self.0.tree, self.0.index as int)),
    {
        let t = self.0.tree;
        match first_child_where(t, self.0.index, ChildFilter::NodeOf(SyntaxKind::CONNECTOR_END_REFERENCE)) {
            Some(rn) => {
                if reference_marked(t, rn) {
                    match first_child_where(t, rn, ChildFilter::NodeOf(SyntaxKind::QUALIFIED_NAME)) {
                        Some(c) => Some(QualifiedName(SyntaxNode { tree: t, index: c })),
                        None => None,
                    }
                } else {
                    None
                }
            },
            None => None,
        }
    }
}


// ============================================================================
// IMPORTS, DEPENDENCIES, TRANSITIONS AND FILTERS
// ============================================================================

/// Some token inside the subtree of entry `n` has kind `k`.
pub open spec fn has_descendant_token(t: SyntaxTree, n: int, k: SyntaxKind) -> bool {
    0 <= n < t.entries@.len() && exists|i: int| n < i < t.entries@[n].end && #[trigger] is_token_of(t, i, k)
}

/// Whether some token inside the subtree of entry `n` has kind `k`.
#[verifier::loop_isolation(false)]
fn descendant_token(t: &SyntaxTree, n: usize, k: SyntaxKind) -> (r: bool)
    ensures
        r == has_descendant_token(*t, n as int, k),
{
    if n >= t.entries.len() {
        return false;
    }
    let end = t.entries[n].end;
    let mut i: usize = n + 1;
    while i < end && i < t.entries.len()
        invariant
            n < t.entries@.len(),
            end == t.entries@[n as int].end,
            n + 1 <= i,
            forall|j: int| n < j < i ==> !#[trigger] is_token_of(*t, j, k),
        decreases end - i,
    {
        if t.entries[i].is_token && t.entries[i].kind == k {
            assert(is_token_of(*t, i as int, k));
            return true;
        }
        i = i + 1;
    }
    false
}

/// The first position at or after `j` where `n` stands in `s`, or -1.
pub open spec fn index_from(s: Seq<usize>, n: usize, j: int) -> int
    decreases s.len() - j,
{
    if j < 0 || j >= s.len() {
        -1
    } else if s[j] == n {
        j
    } else {
        index_from(s, n, j + 1)
    }
}

/// The siblings before position `k` of `sibs`, read backwards over
/// whitespace, begin with a `public` keyword.
pub open spec fn public_before(t: SyntaxTree, sibs: Seq<usize>, k: int) -> bool
    decreases k,
{
    if k <= 0 || k > sibs.len() {
        false
    } else if is_token_of(t, sibs[k - 1] as int, SyntaxKind::PUBLIC_KW) {
        true
    } else if is_token_of(t, sibs[k - 1] as int, SyntaxKind::WHITESPACE) {
        public_before(t, sibs, k - 1)
    } else {
        false
    }
}

/// The sibling just before entry `n`, whitespace skipped, is a `public`
/// keyword.
pub open spec fn preceded_by_public(t: SyntaxTree, n: int) -> bool {
    0 <= n < t.entries@.len() && match t.entries@[n].parent {
        Some(p) => public_before(t, child_ids(t, p as int), index_from(child_ids(t, p as int), n as usize, 0)),
        None => false,
    }
}

/// The first position at or after `j` of a child of `cs` that is a `to`
/// keyword, or -1.
pub open spec fn to_from(t: SyntaxTree, cs: Seq<usize>, j: int) -> int
    decreases cs.len() - j,
{
    if j < 0 || j >= cs.len() {
        -1
    } else if is_token_of(t, cs[j] as int, SyntaxKind::TO_KW) {
        j
    } else {
        to_from(t, cs, j + 1)
    }
}

/// The qualified-name nodes among `cs`, in order.
pub open spec fn qn_prefix(t: SyntaxTree, cs: Seq<usize>) -> Seq<usize>
    decreases cs.len(),
{
    if cs.len() == 0 {
        Seq::empty()
    } else if is_node_of(t, cs.last() as int, SyntaxKind::QUALIFIED_NAME) {
        qn_prefix(t, cs.drop_last()).push(cs.last())
    } else {
        qn_prefix(t, cs.drop_last())
    }
}

/// The first qualified-name node among `cs` at or after position `j`.
pub open spec fn qn_from(t: SyntaxTree, cs: Seq<usize>, j: int) -> Option<usize>
    decreases cs.len() - j,
{
    if j < 0 || j >= cs.len() {
        None
    } else if is_node_of(t, cs[j] as int, SyntaxKind::QUALIFIED_NAME) {
        Some(cs[j])
    } else {
        qn_from(t, cs, j + 1)
    }
}

/// The sources of a dependency: its qualified names before the first `to`
/// (all of them when there is none).
pub open spec fn dependency_sources(t: SyntaxTree, n: int) -> Seq<usize> {
    let cs = child_ids(t, n);
    let p = to_from(t, cs, 0);
    qn_prefix(t, if p >= 0 { cs.take(p) } else { cs })
}

/// The target of a dependency: its first qualified name after the first
/// `to`, none without a `to`.
pub open spec fn dependency_target(t: SyntaxTree, n: int) -> Option<usize> {
    let cs = child_ids(t, n);
    let p = to_from(t, cs, 0);
    if p >= 0 {
        qn_from(t, cs, p + 1)
    } else {
        None
    }
}

/// Whether `k` ends the part of a transition where its name may stand.
pub open spec fn ends_transition_head(k: SyntaxKind) -> bool {
    k == SyntaxKind::FIRST_KW || k == SyntaxKind::ACCEPT_KW || k == SyntaxKind::THEN_KW
        || k == SyntaxKind::DO_KW || k == SyntaxKind::IF_KW || k == SyntaxKind::VIA_KW
}

/// The first name node among `cs` at or after position `j`, unless a token
/// that ends the transition head comes first.
pub open spec fn transition_name_from(t: SyntaxTree, cs: Seq<usize>, j: int) -> Option<usize>
    decreases cs.len() - j,
{
    if j < 0 || j >= cs.len() {
        None
    } else if 0 <= cs[j] < t.entries@.len() && t.entries@[cs[j] as int].is_token
        && ends_transition_head(t.entries@[cs[j] as int].kind) {
        None
    } else if is_node_of(t, cs[j] as int, SyntaxKind::NAME) {
        Some(cs[j])
    } else {
        transition_name_from(t, cs, j + 1)
    }
}

/// The qualified names among `cs` from position `j` on that follow an `@`
/// token (with anything but another qualified name between), each `@`
/// used once; `at` tells whether an unused `@` came before `j`.
pub open spec fn at_refs_from(t: SyntaxTree, cs: Seq<usize>, j: int, at: bool) -> Seq<usize>
    decreases cs.len() - j,
{
    if j < 0 || j >= cs.len() {
        Seq::empty()
    } else if is_token_of(t, cs[j] as int, SyntaxKind::AT) {
        at_refs_from(t, cs, j + 1, true)
    } else if at && is_node_of(t, cs[j] as int, SyntaxKind::QUALIFIED_NAME) {
        seq![cs[j]] + at_refs_from(t, cs, j + 1, false)
    } else {
        at_refs_from(t, cs, j + 1, at)
    }
}

/// The text of the qualified name at entry `q`.
pub open spec fn qn_text(t: SyntaxTree, q: int) -> Seq<char> {
    joined(
        segment_texts(t, children_passing(t, q, ChildFilter::NameToken)),
        if has_token(t, q, SyntaxKind::DOT) { "."@ } else { "::"@ },
    )
}

/// The metadata references of a filter: the texts of the qualified names
/// that follow `@` in its first expression.
pub open spec fn filter_metadata_refs(t: SyntaxTree, n: int) -> Seq<Seq<char>> {
    match first_child_passing(t, n, ChildFilter::NodeOf(SyntaxKind::EXPRESSION)) {
        Some(e) => at_refs_from(t, child_ids(t, e as int), 0, false).map_values(|q: usize| qn_text(t, q as int)),
        None => Seq::empty(),
    }
}

impl<'a> Import<'a> {
    /// Whether the import is recursive: a `**` token anywhere inside it, or
    /// at least two `*` tokens among its children.
    pub fn is_recursive(&self) -> (r: bool)
        ensures
            r == (has_descendant_token(*self.0.tree, self.0.index as int, SyntaxKind::STAR_STAR)
                || children_passing(*self.0.tree, self.0.index as int, ChildFilter::TokenOf(SyntaxKind::STAR)).len() >= 2),
    {
        if descendant_token(self.0.tree, self.0.index, SyntaxKind::STAR_STAR) {
            return true;
        }
        let stars = children_where(self.0.tree, self.0.index, ChildFilter::TokenOf(SyntaxKind::STAR));
        stars.len() >= 2
    }

    /// Whether the import is public: a `public` keyword among its children,
    /// or as the sibling before it, whitespace skipped.
    #[verifier::loop_isolation(false)]
    pub fn is_public(&self) -> (r: bool)
        ensures
            r == (has_token(*self.0.tree, self.0.index as int, SyntaxKind::PUBLIC_KW)
                || preceded_by_public(*self.0.tree, self.0.index as int)),
    {
        let t = self.0.tree;
        let n = self.0.index;
        if has_child_token(t, n, SyntaxKind::PUBLIC_KW) {
            return true;
        }
        if n >= t.entries.len() {
            return false;
        }
        let p = match t.entries[n].parent {
            Some(p) => p,
            None => return false,
        };
        let sibs = children_of(t, p);
        let mut j: usize = 0;
        while j < sibs.len() && sibs[j] != n
            invariant
                j <= sibs@.len(),
                index_from(sibs@, n, 0) == index_from(sibs@, n, j as int),
            decreases sibs.len() - j,
        {
            j = j + 1;
        }
        if j >= sibs.len() {
            assert(index_from(sibs@, n, j as int) == -1);
            return false;
        }
        assert(index_from(sibs@, n, 0) == j);
        let ghost k0 = j as int;
        let mut k: usize = j;
        while k > 0
            invariant
                k <= j < sibs@.len(),
                k0 == j,
                public_before(*t, sibs@, k0) == public_before(*t, sibs@, k as int),
            decreases k,
        {
            let c = sibs[k - 1];
            if c < t.entries.len() && t.entries[c].is_token && t.entries[c].kind == SyntaxKind::PUBLIC_KW {
                return true;
            }
            if c < t.entries.len() && t.entries[c].is_token && t.entries[c].kind == SyntaxKind::WHITESPACE {
                k = k - 1;
            } else {
                return false;
            }
        }
        false
    }
}

/// The qualified names at the given indices, as nodes of `tree`.
fn qualified_names<'a>(tree: &'a SyntaxTree, idx: &Vec<usize>) -> (r: Vec<QualifiedName<'a>>)
    ensures
        r@.len() == idx@.len(),
        forall|i: int| 0 <= i < r@.len() ==> (#[trigger] r@[i]).0.tree == tree && r@[i].0.index == idx@[i],
{
    let mut r: Vec<QualifiedName<'a>> = Vec::new();
    let mut i: usize = 0;
    while i < idx.len()
        invariant
            i <= idx@.len(),
            r@.len() == i,
            forall|m: int| 0 <= m < i ==> (#[trigger] r@[m]).0.tree == tree && r@[m].0.index == idx@[m],
        decreases idx.len() - i,
    {
        r.push(QualifiedName(SyntaxNode { tree, index: idx[i] }));
        i = i + 1;
    }
    r
}

/// The position of the first `to` keyword among `cs`, or -1.
fn find_to(t: &SyntaxTree, cs: &Vec<usize>) -> (r: Option<usize>)
    ensures
        match r {
            Some(p) => to_from(*t, cs@, 0) == p,
            None => to_from(*t, cs@, 0) == -1,
        },
        r matches Some(p) ==> p < cs@.len(),
{
    let mut j: usize = 0;
    while j < cs.len()
        invariant
            j <= cs@.len(),
            to_from(*t, cs@, 0) == to_from(*t, cs@, j as int),
        decreases cs.len() - j,
    {
        let c = cs[j];
        if c < t.entries.len() && t.entries[c].is_token && t.entries[c].kind == SyntaxKind::TO_KW {
            return Some(j);
        }
        j = j + 1;
    }
    None
}

impl<'a> Dependency<'a> {
    /// The source names: the qualified names before `to`
    /// (`dependency a, b to c` gives `a` and `b`).
    pub fn sources(&self) -> (r: Vec<QualifiedName<'a>>)
        ensures
            r@.len() == dependency_sources(*self.0.tree, self.0.index as int).len(),
            forall|i: int|
                0 <= i < r@.len() ==> (#[trigger] r@[i]).0.tree == self.0.tree && r@[i].0.index
                    == dependency_sources(*self.0.tree, self.0.index as int)[i],
    {
        let t = self.0.tree;
        let cs = children_of(t, self.0.index);
        let stop: usize = match find_to(t, &cs) {
            Some(p) => p,
            None => cs.len(),
        };
        let ghost part = cs@.take(stop as int);
        assert(part =~= (if to_from(*t, cs@, 0) >= 0 { cs@.take(to_from(*t, cs@, 0)) } else { cs@ }));
        let mut idx: Vec<usize> = Vec::new();
        let mut j: usize = 0;
        while j < stop
            invariant
                stop <= cs@.len(),
                j <= stop,
                idx@ == qn_prefix(*t, cs@.take(j as int)),
            decreases stop - j,
        {
            assert(cs@.take(j + 1).drop_last() =~= cs@.take(j as int));
            let c = cs[j];
            if c < t.entries.len() && !t.entries[c].is_token && t.entries[c].kind == SyntaxKind::QUALIFIED_NAME {
                idx.push(c);
            }
            j = j + 1;
        }
        qualified_names(t, &idx)
    }

    /// The target name: the first qualified name after `to`
    /// (`dependency a to c` gives `c`).
    #[verifier::loop_isolation(false)]
    pub fn target(&self) -> (r: Option<QualifiedName<'a>>)
        ensures
            match dependency_target(*self.0.tree, self.0.index as int) {
                Some(q) => r matches Some(x) && x.0.tree == self.0.tree && x.0.index == q,
                None => r is None,
            },
    {
        let t = self.0.tree;
        let cs = children_of(t, self.0.index);
        let p = match find_to(t, &cs) {
            Some(p) => p,
            None => return None,
        };
        let mut j: usize = p + 1;
        while j < cs.len()
            invariant
                p < cs@.len(),
                p + 1 <= j,
                qn_from(*t, cs@, p + 1) == qn_from(*t, cs@, j as int),
            decreases cs.len() - j,
        {
            let c = cs[j];
            if c < t.entries.len() && !t.entries[c].is_token && t.entries[c].kind == SyntaxKind::QUALIFIED_NAME {
                return Some(QualifiedName(SyntaxNode { tree: t, index: c }));
            }
            j = j + 1;
        }
        None
    }
}

impl<'a> TransitionUsage<'a> {
    /// The transition's name: the first name node, unless `first`,
    /// `accept`, `then`, `do`, `if` or `via` comes before it.
    #[verifier::loop_isolation(false)]
    pub fn name(&self) -> (r: Option<Name<'a>>)
        ensures
            match transition_name_from(*self.0.tree, child_ids(*self.0.tree, self.0.index as int), 0) {
                Some(c) => r matches Some(x) && x.0.tree == self.0.tree && x.0.index == c,
                None => r is None,
            },
    {
        let t = self.0.tree;
        let cs = children_of(t, self.0.index);
        let mut j: usize = 0;
        while j < cs.len()
            invariant
                j <= cs@.len(),
                transition_name_from(*t, cs@, 0) == transition_name_from(*t, cs@, j as int),
            decreases cs.len() - j,
        {
            let c = cs[j];
            if c < t.entries.len() {
                let k = t.entries[c].kind;
                if t.entries[c].is_token {
                    if k == SyntaxKind::FIRST_KW || k == SyntaxKind::ACCEPT_KW || k == SyntaxKind::THEN_KW
                        || k == SyntaxKind::DO_KW || k == SyntaxKind::IF_KW || k == SyntaxKind::VIA_KW {
                        return None;
                    }
                } else if k == SyntaxKind::NAME {
                    return Some(Name(SyntaxNode { tree: t, index: c }));
                }
            }
            j = j + 1;
        }
        None
    }
}

impl<'a> ElementFilter<'a> {
    /// The metadata references of the filter: the qualified names that
    /// follow `@` in its expression, as text (`filter @Safety;` gives
    /// `Safety`).
    #[verifier::loop_isolation(false)]
    pub fn metadata_refs(&self) -> (r: Vec<String>)
        ensures
            r@.map_values(|s: String| s@) == filter_metadata_refs(*self.0.tree, self.0.index as int),
    {
        let t = self.0.tree;
        let mut refs: Vec<String> = Vec::new();
        let e = match first_child_where(t, self.0.index, ChildFilter::NodeOf(SyntaxKind::EXPRESSION)) {
            Some(e) => e,
            None => {
                assert(refs@.map_values(|s: String| s@) =~= Seq::<Seq<char>>::empty());
                return refs;
            },
        };
        let cs = children_of(t, e);
        let ghost all = at_refs_from(*t, cs@, 0, false);
        let mut at_seen = false;
        let mut j: usize = 0;
        let ghost mut done: Seq<usize> = Seq::empty();
        while j < cs.len()
            invariant
                j <= cs@.len(),
                all == at_refs_from(*t, cs@, 0, false),
                all == done + at_refs_from(*t, cs@, j as int, at_seen),
                refs@.map_values(|s: String| s@) == done.map_values(|q: usize| qn_text(*t, q as int)),
            decreases cs.len() - j,
        {
            let c = cs[j];
            if c < t.entries.len() && t.entries[c].is_token && t.entries[c].kind == SyntaxKind::AT {
                at_seen = true;
            } else if at_seen && c < t.entries.len() && !t.entries[c].is_token && t.entries[c].kind == SyntaxKind::QUALIFIED_NAME {
                let qn = QualifiedName(SyntaxNode { tree: t, index: c });
                let text = qn.to_string_inner();
                proof {
                    assert(text@ == qn_text(*t, c as int));
                    let before = refs@.map_values(|s: String| s@);
                    assert(refs@.push(text).map_values(|s: String| s@) =~= before.push(text@));
                    assert(done.push(c).map_values(|q: usize| qn_text(*t, q as int)) =~= done.map_values(|q: usize| qn_text(*t, q as int)).push(qn_text(*t, c as int)));
                    assert(done + at_refs_from(*t, cs@, j as int, true) =~= done.push(c) + at_refs_from(*t, cs@, j + 1, false));
                    assert(refs@.push(text).map_values(|s: String| s@) =~= done.push(c).map_values(|q: usize| qn_text(*t, q as int)));
                    done = done.push(c);
                }
                refs.push(text);
                at_seen = false;
            }
            j = j + 1;
        }
        assert(all =~= done);
        refs
    }
}


/// The keyword, or for conjugation the symbol, that spells each kind of
/// specialization.
pub open spec fn spelling_of(k: SpecializationKind) -> SyntaxKind {
    match k {
        SpecializationKind::Specializes => SyntaxKind::SPECIALIZES_KW,
        SpecializationKind::Subsets => SyntaxKind::SUBSETS_KW,
        SpecializationKind::Redefines => SyntaxKind::REDEFINES_KW,
        SpecializationKind::References => SyntaxKind::REFERENCES_KW,
        SpecializationKind::Conjugates => SyntaxKind::TILDE,
        SpecializationKind::FeatureChain => SyntaxKind::CHAINS_KW,
    }
}

/// The keyword that a shorthand operator abbreviates: `:>` for
/// `specializes`, `:>>` for `redefines`, `::>` for `chains`.
pub open spec fn keyword_of_shorthand(k: SyntaxKind) -> Option<SyntaxKind> {
    match k {
        SyntaxKind::COLON_GT => Some(SyntaxKind::SPECIALIZES_KW),
        SyntaxKind::COLON_GT_GT => Some(SyntaxKind::REDEFINES_KW),
        SyntaxKind::COLON_COLON_GT => Some(SyntaxKind::CHAINS_KW),
        _ => None,
    }
}

/// Each kind of specialization is read from its own spelling, a shorthand
/// operator gives the same kind as the keyword it abbreviates, and a token
/// that is neither the spelling of a kind nor a shorthand for one can only
/// mark a feature chain.
pub proof fn law_specialization_spellings(s: SpecializationKind, k: SyntaxKind)
    ensures
        specialization_kind_of(spelling_of(s)) == Some(s),
        keyword_of_shorthand(k) matches Some(w) ==> specialization_kind_of(k) == specialization_kind_of(w)
            && specialization_kind_of(k) is Some,
        specialization_kind_of(k) matches Some(x) ==> (spelling_of(x) == k || keyword_of_shorthand(k) == Some(
            spelling_of(x),
        ) || x == SpecializationKind::FeatureChain),
{
}

} // verus!
