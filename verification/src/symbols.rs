//! Symbols for an analysis index, read from a model: one symbol per
//! element that is not a relationship, with its relationships by target
//! name.

use vstd::prelude::*;
use crate::element_kind::ElementKind;
use crate::model::{derefs, is_rel_from, lookup, select, Element, Model, PropertyValue};
use crate::ordered_map::{property_entries, property_map_get};
use crate::strings::{chars_of, str_eq};
use crate::model::push_char;
use crate::xmi_attrs::prop_get;
use crate::roundtrip::opt_text;

verus! {

/// The kind of a symbol.
#[derive(Debug, Clone, Copy, PartialEq, Eq, Structural)]
pub enum SymbolKind {
    Package,
    PartDefinition,
    ItemDefinition,
    ActionDefinition,
    PortDefinition,
    AttributeDefinition,
    ConnectionDefinition,
    InterfaceDefinition,
    AllocationDefinition,
    RequirementDefinition,
    ConstraintDefinition,
    StateDefinition,
    CalculationDefinition,
    UseCaseDefinition,
    AnalysisCaseDefinition,
    ConcernDefinition,
    ViewDefinition,
    ViewpointDefinition,
    RenderingDefinition,
    EnumerationDefinition,
    MetadataDefinition,
    DataType,
    Class,
    Structure,
    Behavior,
    Function,
    Association,
    Interaction,
    PartUsage,
    ItemUsage,
    ActionUsage,
    PortUsage,
    AttributeUsage,
    ConnectionUsage,
    InterfaceUsage,
    AllocationUsage,
    RequirementUsage,
    ConstraintUsage,
    StateUsage,
    TransitionUsage,
    CalculationUsage,
    ReferenceUsage,
    OccurrenceUsage,
    FlowConnectionUsage,
    Import,
    Comment,
    Alias,
    Other,
}

/// The kind of a relationship of a symbol.
#[derive(Debug, Clone, Copy, PartialEq, Eq, Structural)]
pub enum SymbolRelKind {
    Specializes,
    TypedBy,
    Redefines,
    Subsets,
    References,
    Satisfies,
    Performs,
    Exhibits,
    Includes,
    Asserts,
    Verifies,
}

/// The direction of a feature.
#[derive(Debug, Clone, Copy, PartialEq, Eq, Structural)]
pub enum Direction {
    In,
    Out,
    InOut,
}

/// Multiplicity bounds; a missing upper bound is unbounded.
#[derive(Debug, Clone, Copy, PartialEq, Eq, Structural)]
pub struct Multiplicity {
    pub lower: Option<u64>,
    pub upper: Option<u64>,
}

/// A relationship of a symbol, by the name of its target.
#[derive(Debug, Clone)]
pub struct SymbolRelationship {
    pub kind: SymbolRelKind,
    pub target: String,
    pub resolved_target: Option<String>,
}

/// A symbol: what an analysis index holds of one element.
#[derive(Debug, Clone)]
pub struct SymbolRecord {
    pub name: String,
    pub short_name: Option<String>,
    pub qualified_name: String,
    pub element_id: String,
    pub kind: SymbolKind,
    pub doc: Option<String>,
    pub supertypes: Vec<String>,
    pub relationships: Vec<SymbolRelationship>,
    pub is_public: bool,
    pub is_abstract: bool,
    pub is_variation: bool,
    pub is_readonly: bool,
    pub is_derived: bool,
    pub is_parallel: bool,
    pub is_individual: bool,
    pub is_end: bool,
    pub is_default: bool,
    pub is_ordered: bool,
    pub is_nonunique: bool,
    pub is_portion: bool,
    pub direction: Option<Direction>,
    pub multiplicity: Option<Multiplicity>,
}

/// The symbol kind of an element kind; kinds without one of their own are
/// `Other`.
pub open spec fn symbol_kind_of(k: ElementKind) -> SymbolKind {
    match k {
        ElementKind::Package | ElementKind::LibraryPackage => SymbolKind::Package,
        ElementKind::PartDefinition => SymbolKind::PartDefinition,
        ElementKind::ItemDefinition => SymbolKind::ItemDefinition,
        ElementKind::ActionDefinition => SymbolKind::ActionDefinition,
        ElementKind::PortDefinition => SymbolKind::PortDefinition,
        ElementKind::AttributeDefinition => SymbolKind::AttributeDefinition,
        ElementKind::ConnectionDefinition => SymbolKind::ConnectionDefinition,
        ElementKind::InterfaceDefinition => SymbolKind::InterfaceDefinition,
        ElementKind::AllocationDefinition => SymbolKind::AllocationDefinition,
        ElementKind::RequirementDefinition => SymbolKind::RequirementDefinition,
        ElementKind::ConstraintDefinition => SymbolKind::ConstraintDefinition,
        ElementKind::StateDefinition => SymbolKind::StateDefinition,
        ElementKind::CalculationDefinition => SymbolKind::CalculationDefinition,
        ElementKind::UseCaseDefinition => SymbolKind::UseCaseDefinition,
        ElementKind::AnalysisCaseDefinition => SymbolKind::AnalysisCaseDefinition,
        ElementKind::ConcernDefinition => SymbolKind::ConcernDefinition,
        ElementKind::ViewDefinition => SymbolKind::ViewDefinition,
        ElementKind::ViewpointDefinition => SymbolKind::ViewpointDefinition,
        ElementKind::RenderingDefinition => SymbolKind::RenderingDefinition,
        ElementKind::EnumerationDefinition => SymbolKind::EnumerationDefinition,
        ElementKind::MetadataDefinition => SymbolKind::MetadataDefinition,
        ElementKind::DataType => SymbolKind::DataType,
        ElementKind::Class => SymbolKind::Class,
        ElementKind::Structure => SymbolKind::Structure,
        ElementKind::Behavior => SymbolKind::Behavior,
        ElementKind::Function => SymbolKind::Function,
        ElementKind::Association | ElementKind::AssociationStructure => SymbolKind::Association,
        ElementKind::Interaction => SymbolKind::Interaction,
        ElementKind::PartUsage => SymbolKind::PartUsage,
        ElementKind::ItemUsage => SymbolKind::ItemUsage,
        ElementKind::ActionUsage => SymbolKind::ActionUsage,
        ElementKind::PortUsage => SymbolKind::PortUsage,
        ElementKind::AttributeUsage => SymbolKind::AttributeUsage,
        ElementKind::ConnectionUsage => SymbolKind::ConnectionUsage,
        ElementKind::InterfaceUsage => SymbolKind::InterfaceUsage,
        ElementKind::AllocationUsage => SymbolKind::AllocationUsage,
        ElementKind::RequirementUsage => SymbolKind::RequirementUsage,
        ElementKind::ConstraintUsage => SymbolKind::ConstraintUsage,
        ElementKind::StateUsage => SymbolKind::StateUsage,
        ElementKind::TransitionUsage => SymbolKind::TransitionUsage,
        ElementKind::CalculationUsage => SymbolKind::CalculationUsage,
        ElementKind::ReferenceUsage => SymbolKind::ReferenceUsage,
        ElementKind::OccurrenceUsage => SymbolKind::OccurrenceUsage,
        ElementKind::FlowConnectionUsage => SymbolKind::FlowConnectionUsage,
        ElementKind::Import | ElementKind::NamespaceImport | ElementKind::MembershipImport => SymbolKind::Import,
        ElementKind::Comment | ElementKind::Documentation => SymbolKind::Comment,
        _ => SymbolKind::Other,
    }
}

/// The symbol kind of an element kind.
pub fn symbol_kind_for(k: ElementKind) -> (r: SymbolKind)
    ensures
        r == symbol_kind_of(k),
{
    match k {
        ElementKind::Package | ElementKind::LibraryPackage => SymbolKind::Package,
        ElementKind::PartDefinition => SymbolKind::PartDefinition,
        ElementKind::ItemDefinition => SymbolKind::ItemDefinition,
        ElementKind::ActionDefinition => SymbolKind::ActionDefinition,
        ElementKind::PortDefinition => SymbolKind::PortDefinition,
        ElementKind::AttributeDefinition => SymbolKind::AttributeDefinition,
        ElementKind::ConnectionDefinition => SymbolKind::ConnectionDefinition,
        ElementKind::InterfaceDefinition => SymbolKind::InterfaceDefinition,
        ElementKind::AllocationDefinition => SymbolKind::AllocationDefinition,
        ElementKind::RequirementDefinition => SymbolKind::RequirementDefinition,
        ElementKind::ConstraintDefinition => SymbolKind::ConstraintDefinition,
        ElementKind::StateDefinition => SymbolKind::StateDefinition,
        ElementKind::CalculationDefinition => SymbolKind::CalculationDefinition,
        ElementKind::UseCaseDefinition => SymbolKind::UseCaseDefinition,
        ElementKind::AnalysisCaseDefinition => SymbolKind::AnalysisCaseDefinition,
        ElementKind::ConcernDefinition => SymbolKind::ConcernDefinition,
        ElementKind::ViewDefinition => SymbolKind::ViewDefinition,
        ElementKind::ViewpointDefinition => SymbolKind::ViewpointDefinition,
        ElementKind::RenderingDefinition => SymbolKind::RenderingDefinition,
        ElementKind::EnumerationDefinition => SymbolKind::EnumerationDefinition,
        ElementKind::MetadataDefinition => SymbolKind::MetadataDefinition,
        ElementKind::DataType => SymbolKind::DataType,
        ElementKind::Class => SymbolKind::Class,
        ElementKind::Structure => SymbolKind::Structure,
        ElementKind::Behavior => SymbolKind::Behavior,
        ElementKind::Function => SymbolKind::Function,
        ElementKind::Association | ElementKind::AssociationStructure => SymbolKind::Association,
        ElementKind::Interaction => SymbolKind::Interaction,
        ElementKind::PartUsage => SymbolKind::PartUsage,
        ElementKind::ItemUsage => SymbolKind::ItemUsage,
        ElementKind::ActionUsage => SymbolKind::ActionUsage,
        ElementKind::PortUsage => SymbolKind::PortUsage,
        ElementKind::AttributeUsage => SymbolKind::AttributeUsage,
        ElementKind::ConnectionUsage => SymbolKind::ConnectionUsage,
        ElementKind::InterfaceUsage => SymbolKind::InterfaceUsage,
        ElementKind::AllocationUsage => SymbolKind::AllocationUsage,
        ElementKind::RequirementUsage => SymbolKind::RequirementUsage,
        ElementKind::ConstraintUsage => SymbolKind::ConstraintUsage,
        ElementKind::StateUsage => SymbolKind::StateUsage,
        ElementKind::TransitionUsage => SymbolKind::TransitionUsage,
        ElementKind::CalculationUsage => SymbolKind::CalculationUsage,
        ElementKind::ReferenceUsage => SymbolKind::ReferenceUsage,
        ElementKind::OccurrenceUsage => SymbolKind::OccurrenceUsage,
        ElementKind::FlowConnectionUsage => SymbolKind::FlowConnectionUsage,
        ElementKind::Import | ElementKind::NamespaceImport | ElementKind::MembershipImport => SymbolKind::Import,
        ElementKind::Comment | ElementKind::Documentation => SymbolKind::Comment,
        _ => SymbolKind::Other,
    }
}

/// The relationship kind of a relationship element's kind, if it has one.
pub open spec fn rel_kind_of(k: ElementKind) -> Option<SymbolRelKind> {
    match k {
        ElementKind::Specialization => Some(SymbolRelKind::Specializes),
        ElementKind::FeatureTyping => Some(SymbolRelKind::TypedBy),
        ElementKind::Redefinition => Some(SymbolRelKind::Redefines),
        ElementKind::Subsetting => Some(SymbolRelKind::Subsets),
        ElementKind::Satisfaction => Some(SymbolRelKind::Satisfies),
        ElementKind::Verification => Some(SymbolRelKind::Verifies),
        ElementKind::ActionUsage => Some(SymbolRelKind::Performs),
        _ => None,
    }
}

/// The relationship kind of a relationship element's kind.
pub fn rel_kind_for(k: ElementKind) -> (r: Option<SymbolRelKind>)
    ensures
        r == rel_kind_of(k),
{
    match k {
        ElementKind::Specialization => Some(SymbolRelKind::Specializes),
        ElementKind::FeatureTyping => Some(SymbolRelKind::TypedBy),
        ElementKind::Redefinition => Some(SymbolRelKind::Redefines),
        ElementKind::Subsetting => Some(SymbolRelKind::Subsets),
        ElementKind::Satisfaction => Some(SymbolRelKind::Satisfies),
        ElementKind::Verification => Some(SymbolRelKind::Verifies),
        ElementKind::ActionUsage => Some(SymbolRelKind::Performs),
        _ => None,
    }
}

// ============================================================================
// NAMES
// ============================================================================

/// The position just after the last `::` in `s`, or 0 when there is none.
pub open spec fn after_last_separator(s: Seq<char>) -> int
    decreases s.len(),
{
    if s.len() < 2 {
        0
    } else if s[s.len() - 2] == ':' && s[s.len() - 1] == ':' {
        s.len() as int
    } else {
        after_last_separator(s.drop_last())
    }
}

proof fn lemma_after_last_separator(s: Seq<char>)
    ensures
        0 <= after_last_separator(s) <= s.len(),
    decreases s.len(),
{
    if s.len() >= 2 {
        lemma_after_last_separator(s.drop_last());
    }
}

/// The last `::`-separated segment of `s`.
pub open spec fn last_segment(s: Seq<char>) -> Seq<char> {
    s.skip(after_last_separator(s))
}

/// The last `::`-separated segment of `text`.
pub fn last_segment_of(text: &str) -> (r: String)
    ensures
        r@ == last_segment(text@),
{
    let cs = chars_of(text);
    let mut end: usize = 0;
    if cs.len() >= 2 {
        let mut j: usize = 1;
        assert(cs@.take(1).len() < 2);
        while j < cs.len()
            invariant
                1 <= j <= cs@.len(),
                end == after_last_separator(cs@.take(j as int)),
            decreases cs.len() - j,
        {
            proof {
                assert(cs@.take(j + 1).drop_last() =~= cs@.take(j as int));
            }
            if cs[j - 1] == ':' && cs[j] == ':' {
                end = j + 1;
            }
            j = j + 1;
        }
        assert(cs@.take(cs@.len() as int) =~= cs@);
    }
    proof {
        lemma_after_last_separator(cs@);
    }
    let mut r = String::new();
    let mut i: usize = end;
    while i < cs.len()
        invariant
            end <= i <= cs@.len(),
            r@ == cs@.subrange(end as int, i as int),
        decreases cs.len() - i,
    {
        push_char(&mut r, cs[i]);
        assert(cs@.subrange(end as int, i + 1) =~= cs@.subrange(end as int, i as int).push(cs@[i as int]));
        i = i + 1;
    }
    assert(cs@.subrange(end as int, cs@.len() as int) =~= cs@.skip(end as int));
    r
}

/// The qualified name of an element's symbol: its qualified name, else its
/// name, else its ID.
pub open spec fn symbol_qualified_name(e: Element) -> Seq<char> {
    match e.qualified_name {
        Some(q) => q@,
        None => match e.name {
            Some(n) => n@,
            None => e.id@,
        },
    }
}

/// The name of an element's symbol: its name, else the last segment of its
/// symbol's qualified name.
pub open spec fn symbol_name(e: Element) -> Seq<char> {
    match e.name {
        Some(n) => n@,
        None => last_segment(symbol_qualified_name(e)),
    }
}

/// The direction an element's `direction` property spells, if any.
pub open spec fn direction_of(e: Element) -> Option<Direction> {
    match prop_get(property_entries(e.properties), "direction"@) {
        Some(PropertyValue::String(s)) => if s@ == "in"@ {
            Some(Direction::In)
        } else if s@ == "out"@ {
            Some(Direction::Out)
        } else if s@ == "inout"@ {
            Some(Direction::InOut)
        } else {
            None
        },
        _ => None,
    }
}

/// The direction an element's `direction` property spells.
fn direction_for(e: &Element) -> (r: Option<Direction>)
    ensures
        r == direction_of(*e),
{
    match property_map_get(&e.properties, "direction") {
        Some(PropertyValue::String(s)) => {
            if str_eq(s.as_str(), "in") {
                Some(Direction::In)
            } else if str_eq(s.as_str(), "out") {
                Some(Direction::Out)
            } else if str_eq(s.as_str(), "inout") {
                Some(Direction::InOut)
            } else {
                None
            }
        },
        _ => None,
    }
}


// ============================================================================
// MULTIPLICITY
// ============================================================================

/// The bounds `b` after the child `cid` at position `i` of a
/// multiplicity range: an integer literal sets the lower bound when first
/// and the upper bound otherwise (negative values read as 0); an infinity
/// literal first clears the lower bound.
pub open spec fn bound_step(m: Seq<(crate::model::ElementId, Element)>, b: (Option<u64>, Option<u64>), i: int, cid: Seq<char>) -> (Option<u64>, Option<u64>) {
    match lookup(m, cid) {
        None => b,
        Some(c) => match c.kind {
            ElementKind::LiteralInteger => match prop_get(property_entries(c.properties), "value"@) {
                Some(PropertyValue::Integer(v)) => {
                    let val: u64 = if v < 0 { 0 } else { v as u64 };
                    if i == 0 { (Some(val), b.1) } else { (b.0, Some(val)) }
                },
                _ => b,
            },
            ElementKind::LiteralInfinity => if i == 0 { (None, b.1) } else { b },
            _ => b,
        },
    }
}

/// The bounds read from the children `ids` of a multiplicity range.
pub open spec fn range_bounds(m: Seq<(crate::model::ElementId, Element)>, ids: Seq<crate::model::ElementId>) -> (Option<u64>, Option<u64>)
    decreases ids.len(),
{
    if ids.len() == 0 {
        (None, None)
    } else {
        bound_step(m, range_bounds(m, ids.drop_last()), ids.len() - 1, ids.last()@)
    }
}

/// The first multiplicity range among the elements `ids` from position `j`.
pub open spec fn direct_range_from(m: Seq<(crate::model::ElementId, Element)>, ids: Seq<crate::model::ElementId>, j: int) -> Option<Element>
    decreases ids.len() - j,
{
    if j < 0 || j >= ids.len() {
        None
    } else {
        match lookup(m, ids[j]@) {
            Some(g) => if g.kind == ElementKind::MultiplicityRange { Some(g) } else { direct_range_from(m, ids, j + 1) },
            None => direct_range_from(m, ids, j + 1),
        }
    }
}

/// The multiplicity range of an element whose children from position `j`
/// are `ids`: the first child that is one, or else the first one among
/// that child's own children.
pub open spec fn range_from(m: Seq<(crate::model::ElementId, Element)>, ids: Seq<crate::model::ElementId>, j: int) -> Option<Element>
    decreases ids.len() - j,
{
    if j < 0 || j >= ids.len() {
        None
    } else {
        match lookup(m, ids[j]@) {
            None => range_from(m, ids, j + 1),
            Some(c) => if c.kind == ElementKind::MultiplicityRange {
                Some(c)
            } else {
                match direct_range_from(m, c.owned_elements@, 0) {
                    Some(g) => Some(g),
                    None => range_from(m, ids, j + 1),
                }
            },
        }
    }
}

/// The multiplicity of `e`: the bounds of its multiplicity range, when it
/// has one that gives a bound.
pub open spec fn multiplicity_of(m: Seq<(crate::model::ElementId, Element)>, e: Element) -> Option<Multiplicity> {
    match range_from(m, e.owned_elements@, 0) {
        None => None,
        Some(rg) => {
            let b = range_bounds(m, rg.owned_elements@);
            if b.0 is Some || b.1 is Some {
                Some(Multiplicity { lower: b.0, upper: b.1 })
            } else {
                None
            }
        },
    }
}

/// The bounds read from the children of a multiplicity range.
fn bounds_of_range(model: &Model, range: &Element) -> (r: (Option<u64>, Option<u64>))
    ensures
        r == range_bounds(model.entries(), range.owned_elements@),
{
    let ids = &range.owned_elements;
    let mut lower: Option<u64> = None;
    let mut upper: Option<u64> = None;
    let mut i: usize = 0;
    while i < ids.len()
        invariant
            i <= ids@.len(),
            (lower, upper) == range_bounds(model.entries(), ids@.take(i as int)),
        decreases ids.len() - i,
    {
        proof {
            assert(ids@.take(i + 1).drop_last() =~= ids@.take(i as int));
        }
        if let Some(child) = model.get(&ids[i]) {
            match child.kind {
                ElementKind::LiteralInteger => {
                    if let Some(PropertyValue::Integer(v)) = property_map_get(&child.properties, "value") {
                        let val: u64 = if *v < 0 { 0 } else { *v as u64 };
                        if i == 0 {
                            lower = Some(val);
                        } else {
                            upper = Some(val);
                        }
                    }
                },
                ElementKind::LiteralInfinity => {
                    if i == 0 {
                        lower = None;
                    }
                },
                _ => {},
            }
        }
        i = i + 1;
    }
    assert(ids@.take(ids@.len() as int) =~= ids@);
    (lower, upper)
}

/// The first multiplicity range among the elements `ids`.
fn direct_range<'a>(model: &'a Model, ids: &Vec<crate::model::ElementId>) -> (r: Option<&'a Element>)
    ensures
        match direct_range_from(model.entries(), ids@, 0) {
            Some(g) => r == Some(&g),
            None => r is None,
        },
{
    let mut j: usize = 0;
    while j < ids.len()
        invariant
            j <= ids@.len(),
            direct_range_from(model.entries(), ids@, 0) == direct_range_from(model.entries(), ids@, j as int),
        decreases ids.len() - j,
    {
        if let Some(g) = model.get(&ids[j]) {
            if g.kind == ElementKind::MultiplicityRange {
                return Some(g);
            }
        }
        j = j + 1;
    }
    None
}

/// The multiplicity of `e`.
pub fn multiplicity_for(model: &Model, e: &Element) -> (r: Option<Multiplicity>)
    ensures
        r == multiplicity_of(model.entries(), *e),
{
    let ids = &e.owned_elements;
    let mut j: usize = 0;
    let mut found: Option<&Element> = None;
    while j < ids.len()
        invariant_except_break
            found is None,
        invariant
            j <= ids@.len(),
            range_from(model.entries(), ids@, 0) == range_from(model.entries(), ids@, j as int),
        ensures
            match range_from(model.entries(), ids@, 0) {
                Some(g) => found == Some(&g),
                None => found is None,
            },
        decreases ids.len() - j,
    {
        if let Some(child) = model.get(&ids[j]) {
            if child.kind == ElementKind::MultiplicityRange {
                found = Some(child);
                break;
            }
            let g = direct_range(model, &child.owned_elements);
            if g.is_some() {
                found = g;
                break;
            }
        }
        j = j + 1;
    }
    match found {
        None => None,
        Some(rg) => {
            let b = bounds_of_range(model, rg);
            if b.0.is_some() || b.1.is_some() {
                Some(Multiplicity { lower: b.0, upper: b.1 })
            } else {
                None
            }
        },
    }
}

// ============================================================================
// SYMBOLS
// ============================================================================

/// The name a relationship's target goes by: its qualified name, else its
/// name, else its ID; an empty name when the relationship has no target.
pub open spec fn rel_target_name(m: Model, re: Element) -> Seq<char> {
    match re.spec_target() {
        Some(tid) => match m.spec_get(tid@) {
            Some(te) => match te.qualified_name {
                Some(q) => q@,
                None => match te.name {
                    Some(n) => n@,
                    None => tid@,
                },
            },
            None => tid@,
        },
        None => Seq::empty(),
    }
}

/// The relationships, by kind and target name, that the relationship
/// elements `rs` give, in order: those whose kind has no relationship kind
/// are left out.
pub open spec fn symbol_rels(m: Model, rs: Seq<Element>) -> Seq<(SymbolRelKind, Seq<char>)>
    decreases rs.len(),
{
    if rs.len() == 0 {
        Seq::empty()
    } else {
        let r0 = symbol_rels(m, rs.drop_last());
        match rel_kind_of(rs.last().kind) {
            Some(k) => r0.push((k, rel_target_name(m, rs.last()))),
            None => r0,
        }
    }
}

/// The relationship elements of `m` whose source is `e`, in order.
pub open spec fn rels_from(m: Model, e: Element) -> Seq<Element> {
    select(m.values(), |x: Element| is_rel_from(x, e.id@))
}

/// The target names of the specializations among `rels`, in order.
pub open spec fn specialized_names(rels: Seq<(SymbolRelKind, Seq<char>)>) -> Seq<Seq<char>>
    decreases rels.len(),
{
    if rels.len() == 0 {
        Seq::empty()
    } else if rels.last().0 == SymbolRelKind::Specializes {
        specialized_names(rels.drop_last()).push(rels.last().1)
    } else {
        specialized_names(rels.drop_last())
    }
}

/// The kind and target name of each relationship.
pub open spec fn rel_views(rs: Seq<SymbolRelationship>) -> Seq<(SymbolRelKind, Seq<char>)> {
    rs.map_values(|x: SymbolRelationship| (x.kind, x.target@))
}

/// The texts of a list of strings.
pub open spec fn string_views(ss: Seq<String>) -> Seq<Seq<char>> {
    ss.map_values(|x: String| x@)
}

/// Whether `r` is the symbol of element `e` of `m`.
pub open spec fn symbol_of(m: Model, e: Element, r: SymbolRecord) -> bool {
    &&& r.name@ == symbol_name(e)
    &&& r.short_name is None
    &&& r.qualified_name@ == symbol_qualified_name(e)
    &&& r.element_id@ == e.id@
    &&& r.kind == symbol_kind_of(e.kind)
    &&& opt_text(r.doc) == opt_text(e.documentation)
    &&& rel_views(r.relationships@) == symbol_rels(m, rels_from(m, e))
    &&& forall|i: int|
        0 <= i < r.relationships@.len() ==> opt_text((#[trigger] r.relationships@[i]).resolved_target)
            == Some(r.relationships@[i].target@)
    &&& string_views(r.supertypes@) == specialized_names(symbol_rels(m, rels_from(m, e)))
    &&& r.is_public
    &&& r.is_abstract == e.is_abstract && r.is_variation == e.is_variation
    &&& r.is_readonly == e.is_readonly && r.is_derived == e.is_derived
    &&& r.is_parallel == e.is_parallel && r.is_individual == e.is_individual
    &&& r.is_end == e.is_end && r.is_default == e.is_default
    &&& r.is_ordered == e.is_ordered && r.is_nonunique == e.is_nonunique
    &&& r.is_portion == e.is_portion
    &&& r.direction == direction_of(e)
    &&& r.multiplicity == multiplicity_of(m.entries(), e)
}

/// The elements of `m` that get a symbol: those that are not
/// relationships, in order.
pub open spec fn symbol_elements(m: Model) -> Seq<Element> {
    select(m.values(), |x: Element| !x.kind.spec_is_relationship())
}

/// The name of a relationship's target.
fn target_name_for(model: &Model, re: &Element) -> (r: String)
    ensures
        r@ == rel_target_name(*model, *re),
{
    match re.target() {
        Some(tid) => match model.get(tid) {
            Some(te) => match &te.qualified_name {
                Some(q) => q.clone(),
                None => match &te.name {
                    Some(n) => n.clone(),
                    None => String::from_str(tid.as_str()),
                },
            },
            None => String::from_str(tid.as_str()),
        },
        None => String::new(),
    }
}

/// The relationships of the symbol of `e`, by target name.
fn symbol_relationships(model: &Model, e: &Element) -> (r: Vec<SymbolRelationship>)
    ensures
        rel_views(r@) == symbol_rels(*model, rels_from(*model, *e)),
        forall|k: int| 0 <= k < r@.len() ==> opt_text((#[trigger] r@[k]).resolved_target) == Some(r@[k].target@),
{
    let rels = model.rel_elements_from(&e.id);
    let ghost all = rels_from(*model, *e);
    let mut relationships: Vec<SymbolRelationship> = Vec::new();
    let mut i: usize = 0;
    while i < rels.len()
        invariant
            i <= rels@.len(),
            derefs(rels@) == all,
            all == rels_from(*model, *e),
            rel_views(relationships@) == symbol_rels(*model, all.take(i as int)),
            forall|k: int|
                0 <= k < relationships@.len() ==> opt_text((#[trigger] relationships@[k]).resolved_target)
                    == Some(relationships@[k].target@),
        decreases rels.len() - i,
    {
        let re = rels[i];
        proof {
            assert(all.take(i + 1).drop_last() =~= all.take(i as int));
            assert(all.take(i + 1).last() == *re);
        }
        if let Some(k) = rel_kind_for(re.kind) {
            let target = target_name_for(model, re);
            let ghost before = relationships@;
            relationships.push(SymbolRelationship { kind: k, target: target.clone(), resolved_target: Some(target) });
            proof {
                assert(rel_views(relationships@) =~= rel_views(before).push((k, target@)));
            }
        }
        i = i + 1;
    }
    assert(all.take(all.len() as int) =~= all);
    relationships
}

/// The target names of the specializations among `rels`.
fn supertypes_of(rels: &Vec<SymbolRelationship>) -> (r: Vec<String>)
    ensures
        string_views(r@) == specialized_names(rel_views(rels@)),
{
    let ghost rv = rel_views(rels@);
    let mut supertypes: Vec<String> = Vec::new();
    let mut j: usize = 0;
    while j < rels.len()
        invariant
            j <= rels@.len(),
            rv == rel_views(rels@),
            string_views(supertypes@) == specialized_names(rv.take(j as int)),
        decreases rels.len() - j,
    {
        proof {
            assert(rv.take(j + 1).drop_last() =~= rv.take(j as int));
            assert(rv.take(j + 1).last() == (rels@[j as int].kind, rels@[j as int].target@));
        }
        if rels[j].kind == SymbolRelKind::Specializes {
            let ghost before = supertypes@;
            supertypes.push(rels[j].target.clone());
            proof {
                assert(string_views(supertypes@) =~= string_views(before).push(rels@[j as int].target@));
            }
        }
        j = j + 1;
    }
    assert(rv.take(rv.len() as int) =~= rv);
    supertypes
}

/// The symbol of element `e` of `model`.
fn symbol_for(model: &Model, e: &Element) -> (r: SymbolRecord)
    ensures
        symbol_of(*model, *e, r),
{
    let qualified_name = match &e.qualified_name {
        Some(q) => q.clone(),
        None => match &e.name {
            Some(n) => n.clone(),
            None => String::from_str(e.id.as_str()),
        },
    };
    let name = match &e.name {
        Some(n) => n.clone(),
        None => last_segment_of(qualified_name.as_str()),
    };
    let relationships = symbol_relationships(model, e);
    let supertypes = supertypes_of(&relationships);
    let doc = match &e.documentation {
        Some(d) => Some(d.clone()),
        None => None,
    };
    SymbolRecord {
        name,
        short_name: None,
        qualified_name,
        element_id: String::from_str(e.id.as_str()),
        kind: symbol_kind_for(e.kind),
        doc,
        supertypes,
        relationships,
        is_public: true,
        is_abstract: e.is_abstract,
        is_variation: e.is_variation,
        is_readonly: e.is_readonly,
        is_derived: e.is_derived,
        is_parallel: e.is_parallel,
        is_individual: e.is_individual,
        is_end: e.is_end,
        is_default: e.is_default,
        is_ordered: e.is_ordered,
        is_nonunique: e.is_nonunique,
        is_portion: e.is_portion,
        direction: direction_for(e),
        multiplicity: multiplicity_for(model, e),
    }
}

/// The symbols of a model: one for each element that is not a
/// relationship, in the model's order, with the relationships whose source
/// it is by target name. Symbols read from a model have no source
/// positions.
pub fn symbols_from_model(model: &Model) -> (r: Vec<SymbolRecord>)
    ensures
        r@.len() == symbol_elements(*model).len(),
        forall|i: int| 0 <= i < r@.len() ==> symbol_of(*model, symbol_elements(*model)[i], #[trigger] r@[i]),
{
    let values = model.iter_elements();
    let ghost vals = model.values();
    let ghost p = |x: Element| !x.kind.spec_is_relationship();
    let mut r: Vec<SymbolRecord> = Vec::new();
    let mut i: usize = 0;
    while i < values.len()
        invariant
            i <= values@.len(),
            derefs(values@) == vals,
            vals == model.values(),
            p == (|x: Element| !x.kind.spec_is_relationship()),
            r@.len() == select(vals.take(i as int), p).len(),
            forall|k: int| 0 <= k < r@.len() ==> symbol_of(*model, select(vals.take(i as int), p)[k], #[trigger] r@[k]),
        decreases values.len() - i,
    {
        let e = values[i];
        proof {
            assert(vals.take(i + 1).drop_last() =~= vals.take(i as int));
            assert(vals.take(i + 1).last() == *e);
        }
        if !e.kind.is_relationship() {
            let sym = symbol_for(model, e);
            r.push(sym);
        }
        i = i + 1;
    }
    assert(vals.take(vals.len() as int) =~= vals);
    r
}


// ============================================================================
// KINDS BACK TO ELEMENT KINDS
// ============================================================================

/// The element kind of a symbol kind; `Other` for kinds without one.
pub open spec fn element_kind_of_symbol(k: SymbolKind) -> ElementKind {
    match k {
        SymbolKind::Package => ElementKind::Package,
        SymbolKind::PartDefinition => ElementKind::PartDefinition,
        SymbolKind::ItemDefinition => ElementKind::ItemDefinition,
        SymbolKind::ActionDefinition => ElementKind::ActionDefinition,
        SymbolKind::PortDefinition => ElementKind::PortDefinition,
        SymbolKind::AttributeDefinition => ElementKind::AttributeDefinition,
        SymbolKind::ConnectionDefinition => ElementKind::ConnectionDefinition,
        SymbolKind::InterfaceDefinition => ElementKind::InterfaceDefinition,
        SymbolKind::AllocationDefinition => ElementKind::AllocationDefinition,
        SymbolKind::RequirementDefinition => ElementKind::RequirementDefinition,
        SymbolKind::ConstraintDefinition => ElementKind::ConstraintDefinition,
        SymbolKind::StateDefinition => ElementKind::StateDefinition,
        SymbolKind::CalculationDefinition => ElementKind::CalculationDefinition,
        SymbolKind::UseCaseDefinition => ElementKind::UseCaseDefinition,
        SymbolKind::AnalysisCaseDefinition => ElementKind::AnalysisCaseDefinition,
        SymbolKind::ConcernDefinition => ElementKind::ConcernDefinition,
        SymbolKind::ViewDefinition => ElementKind::ViewDefinition,
        SymbolKind::ViewpointDefinition => ElementKind::ViewpointDefinition,
        SymbolKind::RenderingDefinition => ElementKind::RenderingDefinition,
        SymbolKind::EnumerationDefinition => ElementKind::EnumerationDefinition,
        SymbolKind::DataType => ElementKind::DataType,
        SymbolKind::Class => ElementKind::Class,
        SymbolKind::Structure => ElementKind::Structure,
        SymbolKind::Behavior => ElementKind::Behavior,
        SymbolKind::Function => ElementKind::Function,
        SymbolKind::Association => ElementKind::Association,
        SymbolKind::MetadataDefinition => ElementKind::MetadataDefinition,
        SymbolKind::Interaction => ElementKind::Interaction,
        SymbolKind::PartUsage => ElementKind::PartUsage,
        SymbolKind::ItemUsage => ElementKind::ItemUsage,
        SymbolKind::ActionUsage => ElementKind::ActionUsage,
        SymbolKind::PortUsage => ElementKind::PortUsage,
        SymbolKind::AttributeUsage => ElementKind::AttributeUsage,
        SymbolKind::ConnectionUsage => ElementKind::ConnectionUsage,
        SymbolKind::InterfaceUsage => ElementKind::InterfaceUsage,
        SymbolKind::AllocationUsage => ElementKind::AllocationUsage,
        SymbolKind::RequirementUsage => ElementKind::RequirementUsage,
        SymbolKind::ConstraintUsage => ElementKind::ConstraintUsage,
        SymbolKind::StateUsage => ElementKind::StateUsage,
        SymbolKind::TransitionUsage => ElementKind::TransitionUsage,
        SymbolKind::CalculationUsage => ElementKind::CalculationUsage,
        SymbolKind::ReferenceUsage => ElementKind::ReferenceUsage,
        SymbolKind::OccurrenceUsage => ElementKind::OccurrenceUsage,
        SymbolKind::FlowConnectionUsage => ElementKind::FlowConnectionUsage,
        SymbolKind::Import => ElementKind::Import,
        SymbolKind::Comment => ElementKind::Comment,
        SymbolKind::Alias => ElementKind::Alias,
        SymbolKind::Other => ElementKind::Other,
    }
}

/// The element kind of a symbol kind.
pub fn element_kind_for_symbol(k: SymbolKind) -> (r: ElementKind)
    ensures
        r == element_kind_of_symbol(k),
{
    match k {
        SymbolKind::Package => ElementKind::Package,
        SymbolKind::PartDefinition => ElementKind::PartDefinition,
        SymbolKind::ItemDefinition => ElementKind::ItemDefinition,
        SymbolKind::ActionDefinition => ElementKind::ActionDefinition,
        SymbolKind::PortDefinition => ElementKind::PortDefinition,
        SymbolKind::AttributeDefinition => ElementKind::AttributeDefinition,
        SymbolKind::ConnectionDefinition => ElementKind::ConnectionDefinition,
        SymbolKind::InterfaceDefinition => ElementKind::InterfaceDefinition,
        SymbolKind::AllocationDefinition => ElementKind::AllocationDefinition,
        SymbolKind::RequirementDefinition => ElementKind::RequirementDefinition,
        SymbolKind::ConstraintDefinition => ElementKind::ConstraintDefinition,
        SymbolKind::StateDefinition => ElementKind::StateDefinition,
        SymbolKind::CalculationDefinition => ElementKind::CalculationDefinition,
        SymbolKind::UseCaseDefinition => ElementKind::UseCaseDefinition,
        SymbolKind::AnalysisCaseDefinition => ElementKind::AnalysisCaseDefinition,
        SymbolKind::ConcernDefinition => ElementKind::ConcernDefinition,
        SymbolKind::ViewDefinition => ElementKind::ViewDefinition,
        SymbolKind::ViewpointDefinition => ElementKind::ViewpointDefinition,
        SymbolKind::RenderingDefinition => ElementKind::RenderingDefinition,
        SymbolKind::EnumerationDefinition => ElementKind::EnumerationDefinition,
        SymbolKind::DataType => ElementKind::DataType,
        SymbolKind::Class => ElementKind::Class,
        SymbolKind::Structure => ElementKind::Structure,
        SymbolKind::Behavior => ElementKind::Behavior,
        SymbolKind::Function => ElementKind::Function,
        SymbolKind::Association => ElementKind::Association,
        SymbolKind::MetadataDefinition => ElementKind::MetadataDefinition,
        SymbolKind::Interaction => ElementKind::Interaction,
        SymbolKind::PartUsage => ElementKind::PartUsage,
        SymbolKind::ItemUsage => ElementKind::ItemUsage,
        SymbolKind::ActionUsage => ElementKind::ActionUsage,
        SymbolKind::PortUsage => ElementKind::PortUsage,
        SymbolKind::AttributeUsage => ElementKind::AttributeUsage,
        SymbolKind::ConnectionUsage => ElementKind::ConnectionUsage,
        SymbolKind::InterfaceUsage => ElementKind::InterfaceUsage,
        SymbolKind::AllocationUsage => ElementKind::AllocationUsage,
        SymbolKind::RequirementUsage => ElementKind::RequirementUsage,
        SymbolKind::ConstraintUsage => ElementKind::ConstraintUsage,
        SymbolKind::StateUsage => ElementKind::StateUsage,
        SymbolKind::TransitionUsage => ElementKind::TransitionUsage,
        SymbolKind::CalculationUsage => ElementKind::CalculationUsage,
        SymbolKind::ReferenceUsage => ElementKind::ReferenceUsage,
        SymbolKind::OccurrenceUsage => ElementKind::OccurrenceUsage,
        SymbolKind::FlowConnectionUsage => ElementKind::FlowConnectionUsage,
        SymbolKind::Import => ElementKind::Import,
        SymbolKind::Comment => ElementKind::Comment,
        SymbolKind::Alias => ElementKind::Alias,
        SymbolKind::Other => ElementKind::Other,
    }
}

/// The relationship element kind of a symbol relationship kind: none for
/// the kinds that are not relationships of their own in a model.
pub open spec fn element_kind_of_rel(k: SymbolRelKind) -> Option<ElementKind> {
    match k {
        SymbolRelKind::Specializes => Some(ElementKind::Specialization),
        SymbolRelKind::TypedBy => Some(ElementKind::FeatureTyping),
        SymbolRelKind::Redefines => Some(ElementKind::Redefinition),
        SymbolRelKind::Subsets => Some(ElementKind::Subsetting),
        SymbolRelKind::References => None,
        SymbolRelKind::Satisfies => Some(ElementKind::Satisfaction),
        SymbolRelKind::Performs => Some(ElementKind::ActionUsage),
        SymbolRelKind::Exhibits => None,
        SymbolRelKind::Includes => None,
        SymbolRelKind::Asserts => None,
        SymbolRelKind::Verifies => Some(ElementKind::Verification),
    }
}

/// The relationship element kind of a symbol relationship kind.
pub fn element_kind_for_rel(k: SymbolRelKind) -> (r: Option<ElementKind>)
    ensures
        r == element_kind_of_rel(k),
{
    match k {
        SymbolRelKind::Specializes => Some(ElementKind::Specialization),
        SymbolRelKind::TypedBy => Some(ElementKind::FeatureTyping),
        SymbolRelKind::Redefines => Some(ElementKind::Redefinition),
        SymbolRelKind::Subsets => Some(ElementKind::Subsetting),
        SymbolRelKind::References => None,
        SymbolRelKind::Satisfies => Some(ElementKind::Satisfaction),
        SymbolRelKind::Performs => Some(ElementKind::ActionUsage),
        SymbolRelKind::Exhibits => None,
        SymbolRelKind::Includes => None,
        SymbolRelKind::Asserts => None,
        SymbolRelKind::Verifies => Some(ElementKind::Verification),
    }
}

impl From<SymbolKind> for ElementKind {
    fn from(k: SymbolKind) -> (r: Self) {
        element_kind_for_symbol(k)
    }
}

impl vstd::std_specs::convert::FromSpecImpl<SymbolKind> for ElementKind {
    open spec fn obeys_from_spec() -> bool {
        true
    }

    open spec fn from_spec(k: SymbolKind) -> Self {
        element_kind_of_symbol(k)
    }
}

impl From<ElementKind> for SymbolKind {
    fn from(k: ElementKind) -> (r: Self) {
        symbol_kind_for(k)
    }
}

impl vstd::std_specs::convert::FromSpecImpl<ElementKind> for SymbolKind {
    open spec fn obeys_from_spec() -> bool {
        true
    }

    open spec fn from_spec(k: ElementKind) -> Self {
        symbol_kind_of(k)
    }
}

/// Turning a symbol kind into an element kind and back gives the symbol
/// kind again, for every kind but `Alias`, which models read back as
/// `Other`.
pub proof fn law_symbol_kind_roundtrip(k: SymbolKind)
    requires
        k != SymbolKind::Alias,
    ensures
        symbol_kind_of(element_kind_of_symbol(k)) == k,
{
}


/// The kind that stands for `k` among kinds that one symbol kind merges:
/// library packages are packages, association structures associations,
/// namespace and membership imports imports, documentation comments; every
/// other kind stands for itself.
pub open spec fn merged_kind(k: ElementKind) -> ElementKind {
    match k {
        ElementKind::LibraryPackage => ElementKind::Package,
        ElementKind::AssociationStructure => ElementKind::Association,
        ElementKind::NamespaceImport | ElementKind::MembershipImport => ElementKind::Import,
        ElementKind::Documentation => ElementKind::Comment,
        _ => k,
    }
}

/// A symbol kind of an element kind names that kind: a symbol kind other
/// than `Other` turns back into the element kind it was made from, with the
/// merged kinds turning into the kind they are merged into.
pub proof fn law_symbol_kind_names_its_element_kind(k: ElementKind)
    ensures
        symbol_kind_of(k) != SymbolKind::Other ==> element_kind_of_symbol(symbol_kind_of(k)) == merged_kind(k),
{
}

/// An element kind gets every symbol kind that names it: when a symbol kind
/// other than `Other` and `Alias` turns into the kind that `k` stands for,
/// that is the symbol kind of `k` (so documentation, like comments, gives
/// `Comment`).
pub proof fn law_symbol_kind_is_found(k: ElementKind, s: SymbolKind)
    requires
        s != SymbolKind::Other,
        s != SymbolKind::Alias,
        element_kind_of_symbol(s) == merged_kind(k),
    ensures
        symbol_kind_of(k) == s,
{
}


/// The relationship kinds of symbols and the relationship element kinds
/// they come from turn into each other: reading a relationship element's
/// kind as a symbol relationship kind and back gives it again, and so does
/// the other way round.
pub proof fn law_relationship_kinds_correspond(k: ElementKind, r: SymbolRelKind)
    ensures
        rel_kind_of(k) matches Some(x) ==> element_kind_of_rel(x) == Some(k),
        element_kind_of_rel(r) matches Some(e) ==> rel_kind_of(e) == Some(r),
{
}

} // verus!
