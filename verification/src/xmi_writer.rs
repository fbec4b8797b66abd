//! The XMI document the writer produces for a model, as a sequence of XML
//! events; turning the events into bytes is left to an XML serializer.

use vstd::prelude::*;
use crate::element_kind::ElementKind;
use crate::format::InterchangeError;
use crate::model::{lookup, Element, ElementId, Model, PropertyValue};
use crate::ordered_map::{
    element_map_get_index, element_map_get_index_of, element_map_len, find_key, lemma_find_key,
    property_entries, property_map_get,
};
use crate::xmi_attrs::{
    attrs_view, element_attrs, prop_get, AttrValue, AttrView, XmiWriter, XmlAttribute,
};

verus! {

/// An XML event: an element opened, an empty element, or an element
/// closed.
#[derive(Debug, PartialEq)]
pub enum XmlEvent {
    Start { name: String, attrs: Vec<XmlAttribute> },
    Empty { name: String, attrs: Vec<XmlAttribute> },
    End { name: String },
}

/// An XML event with its text taken by its characters.
pub enum EventView {
    Start(Seq<char>, Seq<(Seq<char>, AttrView)>),
    Empty(Seq<char>, Seq<(Seq<char>, AttrView)>),
    End(Seq<char>),
}

/// The view of an event.
pub open spec fn event_view(e: XmlEvent) -> EventView {
    match e {
        XmlEvent::Start { name, attrs } => EventView::Start(name@, attrs_view(attrs@)),
        XmlEvent::Empty { name, attrs } => EventView::Empty(name@, attrs_view(attrs@)),
        XmlEvent::End { name } => EventView::End(name@),
    }
}

/// The views of a list of events.
pub open spec fn events_view(es: Seq<XmlEvent>) -> Seq<EventView> {
    es.map_values(|e: XmlEvent| event_view(e))
}

/// Whether `rank` decreases from every element to each element it owns
/// that is in the model: ownership has no cycle.
pub open spec fn ranked(entries: Seq<(ElementId, Element)>, rank: spec_fn(Seq<char>) -> nat) -> bool {
    forall|k: Seq<char>, j: int|
        #![trigger lookup(entries, k), rank(k), lookup(entries, lookup(entries, k)->0.owned_elements@[j]@)]
        lookup(entries, k) is Some && 0 <= j < lookup(entries, k)->0.owned_elements@.len() && lookup(
            entries,
            lookup(entries, k)->0.owned_elements@[j]@,
        ) is Some ==> rank(lookup(entries, k)->0.owned_elements@[j]@) < rank(k)
}

/// Whether no element of the model owns itself, directly or not.
pub open spec fn acyclic_ownership(m: Model) -> bool {
    exists|rank: spec_fn(Seq<char>) -> nat| ranked(m.entries(), rank)
}

/// Whether, among the elements marked by `reach`, `rank` decreases from
/// every element to each element it owns that is in the model, and those
/// owned elements are marked too.
pub open spec fn ranked_from(
    entries: Seq<(ElementId, Element)>,
    rank: spec_fn(Seq<char>) -> nat,
    reach: spec_fn(Seq<char>) -> bool,
) -> bool {
    forall|k: Seq<char>, j: int|
        #![trigger lookup(entries, k), reach(k), lookup(entries, lookup(entries, k)->0.owned_elements@[j]@)]
        reach(k) && lookup(entries, k) is Some && 0 <= j < lookup(entries, k)->0.owned_elements@.len() && lookup(
            entries,
            lookup(entries, k)->0.owned_elements@[j]@,
        ) is Some ==> reach(lookup(entries, k)->0.owned_elements@[j]@) && rank(lookup(entries, k)->0.owned_elements@[j]@)
            < rank(k)
}

/// Whether no element reachable from the model's roots in it owns itself,
/// directly or not: the part of the ownership that is written has no cycle.
pub open spec fn roots_acyclic(m: Model) -> bool {
    exists|rank: spec_fn(Seq<char>) -> nat, reach: spec_fn(Seq<char>) -> bool|
        ranked_from(m.entries(), rank, reach) && forall|i: int|
            0 <= i < present_roots(m.entries(), m.roots@).len() ==> #[trigger] reach(present_roots(m.entries(), m.roots@)[i]@)
}

/// The XMI type written for `e`: the stored one it was read with, else its kind's.
pub open spec fn written_type(e: Element) -> Seq<char> {
    match prop_get(property_entries(e.properties), "_xsi_type"@) {
        Some(PropertyValue::String(t)) => t@,
        _ => e.kind.spec_xmi_type(),
    }
}

/// The name of the element that carries an `href` for a relationship of
/// kind `k`.
pub open spec fn href_element_name(k: ElementKind) -> Seq<char> {
    match k {
        ElementKind::NamespaceImport => "importedNamespace"@,
        ElementKind::MembershipImport => "importedMembership"@,
        ElementKind::Membership => "memberElement"@,
        ElementKind::Specialization => "superclassifier"@,
        ElementKind::FeatureTyping => "type"@,
        ElementKind::Subsetting | ElementKind::ReferenceSubsetting | ElementKind::CrossSubsetting => "subsettedFeature"@,
        ElementKind::Redefinition => "redefinedFeature"@,
        ElementKind::Disjoining => "disjoiningType"@,
        ElementKind::Conjugation => "originalType"@,
        ElementKind::FeatureChaining => "chainingFeature"@,
        _ => "target"@,
    }
}

/// The `href` child of `e`, when it has a string `href` property: named by
/// the stored tag, else by its kind, with the stored `xsi:type` if any.
pub open spec fn href_events(e: Element) -> Seq<EventView> {
    let props = property_entries(e.properties);
    match prop_get(props, "href"@) {
        Some(PropertyValue::String(href)) => {
            let name = match prop_get(props, "_href_tag"@) {
                Some(PropertyValue::String(tag)) => tag@,
                _ => href_element_name(e.kind),
            };
            let a = match prop_get(props, "_href_xsi_type"@) {
                Some(PropertyValue::String(x)) => seq![("xsi:type"@, AttrView::Text(x@))],
                _ => Seq::empty(),
            };
            seq![EventView::Empty(name, a.push(("href"@, AttrView::Text(href@))))]
        },
        _ => Seq::empty(),
    }
}

/// Whether `e` is written with content: an `href` property or children.
pub open spec fn has_content(e: Element) -> bool {
    prop_get(property_entries(e.properties), "href"@) is Some || e.owned_elements@.len() > 0
}

/// The events for an owned child stored under `k`: a relationship is
/// written directly as `ownedRelationship`, anything else as
/// `ownedRelatedElement`.
pub open spec fn owned_relationship_events(t: Seq<(ElementId, Element)>, rank: spec_fn(Seq<char>) -> nat, k: Seq<char>) -> Seq<EventView>
    decreases rank(k), 3nat, 0nat,
{
    match lookup(t, k) {
        None => Seq::empty(),
        Some(e) => if e.kind.spec_is_relationship() {
            relationship_direct_events(t, rank, k)
        } else {
            related_element_events(t, rank, k)
        },
    }
}

/// The events for the relationship stored under `k` written as an
/// `ownedRelationship`, its owned children as `ownedRelatedElement`s.
pub open spec fn relationship_direct_events(t: Seq<(ElementId, Element)>, rank: spec_fn(Seq<char>) -> nat, k: Seq<char>) -> Seq<EventView>
    decreases rank(k), 2nat, 0nat,
{
    match lookup(t, k) {
        None => Seq::empty(),
        Some(e) => {
            let a = element_attrs(seq![("xsi:type"@, AttrView::Text(written_type(e)))], e);
            if has_content(e) {
                seq![EventView::Start("ownedRelationship"@, a)] + href_events(e)
                    + related_children_events(t, rank, k, e.owned_elements@) + seq![EventView::End("ownedRelationship"@)]
            } else {
                seq![EventView::Empty("ownedRelationship"@, a)]
            }
        },
    }
}

/// The events for the element stored under `k` written as an
/// `ownedRelatedElement`, its owned children as owned relationships.
pub open spec fn related_element_events(t: Seq<(ElementId, Element)>, rank: spec_fn(Seq<char>) -> nat, k: Seq<char>) -> Seq<EventView>
    decreases rank(k), 2nat, 0nat,
{
    match lookup(t, k) {
        None => Seq::empty(),
        Some(e) => {
            let a = element_attrs(seq![("xsi:type"@, AttrView::Text(written_type(e)))], e);
            if has_content(e) {
                seq![EventView::Start("ownedRelatedElement"@, a)] + href_events(e)
                    + relationship_children_events(t, rank, k, e.owned_elements@) + seq![EventView::End("ownedRelatedElement"@)]
            } else {
                seq![EventView::Empty("ownedRelatedElement"@, a)]
            }
        },
    }
}

/// The `ownedRelatedElement` events for the children `ids` of the element
/// under `k` that are in the model.
pub open spec fn related_children_events(t: Seq<(ElementId, Element)>, rank: spec_fn(Seq<char>) -> nat, k: Seq<char>, ids: Seq<ElementId>) -> Seq<EventView>
    decreases rank(k), 1nat, ids.len(),
{
    if ids.len() == 0 {
        Seq::empty()
    } else {
        let c = ids.last()@;
        related_children_events(t, rank, k, ids.drop_last()) + if lookup(t, c) is Some && rank(c) < rank(k) {
            related_element_events(t, rank, c)
        } else {
            Seq::empty()
        }
    }
}

/// The owned-relationship events for the children `ids` of the element
/// under `k` that are in the model.
pub open spec fn relationship_children_events(t: Seq<(ElementId, Element)>, rank: spec_fn(Seq<char>) -> nat, k: Seq<char>, ids: Seq<ElementId>) -> Seq<EventView>
    decreases rank(k), 1nat, ids.len(),
{
    if ids.len() == 0 {
        Seq::empty()
    } else {
        let c = ids.last()@;
        relationship_children_events(t, rank, k, ids.drop_last()) + if lookup(t, c) is Some && rank(c) < rank(k) {
            owned_relationship_events(t, rank, c)
        } else {
            Seq::empty()
        }
    }
}

/// The view of the event list `es` grown by one event.
proof fn lemma_events_push(es: Seq<XmlEvent>, e: XmlEvent)
    ensures
        events_view(es.push(e)) == events_view(es).push(event_view(e)),
{
    assert(events_view(es.push(e)) =~= events_view(es).push(event_view(e)));
}

/// The XMI type written for `e`.
fn xmi_type_of(e: &Element) -> (r: String)
    ensures
        r@ == written_type(*e),
{
    match property_map_get(&e.properties, "_xsi_type") {
        Some(PropertyValue::String(t)) => t.clone(),
        _ => String::from_str(e.kind.xmi_type()),
    }
}

/// The name of the element that carries an `href` for kind `k`.
fn href_name(k: ElementKind) -> (r: &'static str)
    ensures
        r@ == href_element_name(k),
{
    match k {
        ElementKind::NamespaceImport => "importedNamespace",
        ElementKind::MembershipImport => "importedMembership",
        ElementKind::Membership => "memberElement",
        ElementKind::Specialization => "superclassifier",
        ElementKind::FeatureTyping => "type",
        ElementKind::Subsetting | ElementKind::ReferenceSubsetting | ElementKind::CrossSubsetting => "subsettedFeature",
        ElementKind::Redefinition => "redefinedFeature",
        ElementKind::Disjoining => "disjoiningType",
        ElementKind::Conjugation => "originalType",
        ElementKind::FeatureChaining => "chainingFeature",
        _ => "target",
    }
}

/// Write the `href` child of `e`, if it has one.
fn write_href_child(events: &mut Vec<XmlEvent>, e: &Element)
    ensures
        events_view(final(events)@) == events_view(old(events)@) + href_events(*e),
{
    match property_map_get(&e.properties, "href") {
        Some(PropertyValue::String(href)) => {
            let name = match property_map_get(&e.properties, "_href_tag") {
                Some(PropertyValue::String(tag)) => tag.clone(),
                _ => String::from_str(href_name(e.kind)),
            };
            let mut attrs: Vec<XmlAttribute> = Vec::new();
            match property_map_get(&e.properties, "_href_xsi_type") {
                Some(PropertyValue::String(x)) => {
                    attrs.push(XmlAttribute { key: String::from_str("xsi:type"), value: AttrValue::Text(x.clone()) });
                },
                _ => {},
            }
            attrs.push(XmlAttribute { key: String::from_str("href"), value: AttrValue::Text(href.clone()) });
            proof {
                reveal_strlit("xsi:type");
                reveal_strlit("href");
            }
            let ev = XmlEvent::Empty { name, attrs };
            proof {
                lemma_events_push(events@, ev);
                assert(attrs_view(attrs@) =~= (match prop_get(property_entries(e.properties), "_href_xsi_type"@) {
                    Some(PropertyValue::String(x)) => seq![("xsi:type"@, AttrView::Text(x@))],
                    _ => Seq::<(Seq<char>, AttrView)>::empty(),
                }).push(("href"@, AttrView::Text(href@))));
            }
            events.push(ev);
            proof {
                assert(events_view(events@) =~= events_view(old(events)@) + href_events(*e));
            }
        },
        _ => {
            assert(events_view(events@) =~= events_view(old(events)@) + href_events(*e));
        },
    }
}

impl XmiWriter {
    /// Write the child stored under `id` as an owned relationship.
    fn write_owned_relationship(&self, events: &mut Vec<XmlEvent>, model: &Model, id: &ElementId, Ghost(rank): Ghost<spec_fn(Seq<char>) -> nat>, Ghost(reach): Ghost<spec_fn(Seq<char>) -> bool>)
        requires
            ranked_from(model.entries(), rank, reach),
            reach(id@),
        ensures
            events_view(final(events)@) == events_view(old(events)@) + owned_relationship_events(model.entries(), rank, id@),
        decreases rank(id@), 3nat, 0nat,
    {
        match model.get(id) {
            None => {
                assert(events_view(events@) =~= events_view(old(events)@) + owned_relationship_events(model.entries(), rank, id@));
            },
            Some(child) => {
                if child.kind.is_relationship() {
                    self.write_relationship_direct(events, model, id, Ghost(rank), Ghost(reach));
                } else {
                    self.write_owned_related_element(events, model, id, Ghost(rank), Ghost(reach));
                }
            },
        }
    }

    /// Write the relationship stored under `id` as an `ownedRelationship`.
    fn write_relationship_direct(&self, events: &mut Vec<XmlEvent>, model: &Model, id: &ElementId, Ghost(rank): Ghost<spec_fn(Seq<char>) -> nat>, Ghost(reach): Ghost<spec_fn(Seq<char>) -> bool>)
        requires
            ranked_from(model.entries(), rank, reach),
            reach(id@),
        ensures
            events_view(final(events)@) == events_view(old(events)@) + relationship_direct_events(model.entries(), rank, id@),
        decreases rank(id@), 2nat, 0nat,
    {
        let child = match model.get(id) {
            None => {
                assert(events_view(events@) =~= events_view(old(events)@) + relationship_direct_events(model.entries(), rank, id@));
                return;
            },
            Some(c) => c,
        };
        let mut attrs: Vec<XmlAttribute> = Vec::new();
        let t = xmi_type_of(child);
        attrs.push(XmlAttribute { key: String::from_str("xsi:type"), value: AttrValue::Text(t) });
        proof {
            reveal_strlit("xsi:type");
            assert(attrs_view(attrs@) =~= seq![("xsi:type"@, AttrView::Text(written_type(*child)))]);
        }
        self.write_element_attrs(&mut attrs, child);
        let has_href = property_map_get(&child.properties, "href").is_some();
        let ghost start = events_view(events@);
        if has_href || child.owned_elements.len() > 0 {
            let ev = XmlEvent::Start { name: String::from_str("ownedRelationship"), attrs };
            proof { lemma_events_push(events@, ev); }
            events.push(ev);
            write_href_child(events, child);
            let ghost mid = events_view(events@);
            let mut i: usize = 0;
            while i < child.owned_elements.len()
                invariant
                    ranked_from(model.entries(), rank, reach),
                    reach(id@),
                    lookup(model.entries(), id@) == Some(*child),
                    i <= child.owned_elements@.len(),
                    events_view(events@) == mid + related_children_events(model.entries(), rank, id@, child.owned_elements@.take(i as int)),
                decreases child.owned_elements.len() - i,
            {
                let cid = &child.owned_elements[i];
                proof {
                    assert(child.owned_elements@.take(i + 1).drop_last() =~= child.owned_elements@.take(i as int));
                    assert(child.owned_elements@.take(i + 1).last() == *cid);
                    lemma_ranked_child(model.entries(), rank, reach, id@, *child, i as int);
                }
                let ghost before = events_view(events@);
                if model.get(cid).is_some() {
                    self.write_owned_related_element(events, model, cid, Ghost(rank), Ghost(reach));
                }
                proof {
                    assert(events_view(events@) =~= mid + related_children_events(model.entries(), rank, id@, child.owned_elements@.take(i + 1)));
                }
                i = i + 1;
            }
            assert(child.owned_elements@.take(child.owned_elements@.len() as int) =~= child.owned_elements@);
            let end = XmlEvent::End { name: String::from_str("ownedRelationship") };
            proof { lemma_events_push(events@, end); }
            events.push(end);
            proof {
                reveal_strlit("ownedRelationship");
                assert(events_view(events@) =~= events_view(old(events)@) + relationship_direct_events(model.entries(), rank, id@));
            }
        } else {
            let ev = XmlEvent::Empty { name: String::from_str("ownedRelationship"), attrs };
            proof { lemma_events_push(events@, ev); }
            events.push(ev);
            proof {
                reveal_strlit("ownedRelationship");
                assert(events_view(events@) =~= events_view(old(events)@) + relationship_direct_events(model.entries(), rank, id@));
            }
        }
    }

    /// Write the element stored under `id` as an `ownedRelatedElement`.
    fn write_owned_related_element(&self, events: &mut Vec<XmlEvent>, model: &Model, id: &ElementId, Ghost(rank): Ghost<spec_fn(Seq<char>) -> nat>, Ghost(reach): Ghost<spec_fn(Seq<char>) -> bool>)
        requires
            ranked_from(model.entries(), rank, reach),
            reach(id@),
        ensures
            events_view(final(events)@) == events_view(old(events)@) + related_element_events(model.entries(), rank, id@),
        decreases rank(id@), 2nat, 0nat,
    {
        let element = match model.get(id) {
            None => {
                assert(events_view(events@) =~= events_view(old(events)@) + related_element_events(model.entries(), rank, id@));
                return;
            },
            Some(c) => c,
        };
        let mut attrs: Vec<XmlAttribute> = Vec::new();
        let t = xmi_type_of(element);
        attrs.push(XmlAttribute { key: String::from_str("xsi:type"), value: AttrValue::Text(t) });
        proof {
            reveal_strlit("xsi:type");
            assert(attrs_view(attrs@) =~= seq![("xsi:type"@, AttrView::Text(written_type(*element)))]);
        }
        self.write_element_attrs(&mut attrs, element);
        let has_href = property_map_get(&element.properties, "href").is_some();
        if has_href || element.owned_elements.len() > 0 {
            let ev = XmlEvent::Start { name: String::from_str("ownedRelatedElement"), attrs };
            proof { lemma_events_push(events@, ev); }
            events.push(ev);
            write_href_child(events, element);
            let ghost mid = events_view(events@);
            let mut i: usize = 0;
            while i < element.owned_elements.len()
                invariant
                    ranked_from(model.entries(), rank, reach),
                    reach(id@),
                    lookup(model.entries(), id@) == Some(*element),
                    i <= element.owned_elements@.len(),
                    events_view(events@) == mid + relationship_children_events(model.entries(), rank, id@, element.owned_elements@.take(i as int)),
                decreases element.owned_elements.len() - i,
            {
                let cid = &element.owned_elements[i];
                proof {
                    assert(element.owned_elements@.take(i + 1).drop_last() =~= element.owned_elements@.take(i as int));
                    assert(element.owned_elements@.take(i + 1).last() == *cid);
                    lemma_ranked_child(model.entries(), rank, reach, id@, *element, i as int);
                }
                if model.get(cid).is_some() {
                    self.write_owned_relationship(events, model, cid, Ghost(rank), Ghost(reach));
                }
                proof {
                    assert(events_view(events@) =~= mid + relationship_children_events(model.entries(), rank, id@, element.owned_elements@.take(i + 1)));
                }
                i = i + 1;
            }
            assert(element.owned_elements@.take(element.owned_elements@.len() as int) =~= element.owned_elements@);
            let end = XmlEvent::End { name: String::from_str("ownedRelatedElement") };
            proof { lemma_events_push(events@, end); }
            events.push(end);
            proof {
                reveal_strlit("ownedRelatedElement");
                assert(events_view(events@) =~= events_view(old(events)@) + related_element_events(model.entries(), rank, id@));
            }
        } else {
            let ev = XmlEvent::Empty { name: String::from_str("ownedRelatedElement"), attrs };
            proof { lemma_events_push(events@, ev); }
            events.push(ev);
            proof {
                reveal_strlit("ownedRelatedElement");
                assert(events_view(events@) =~= events_view(old(events)@) + related_element_events(model.entries(), rank, id@));
            }
        }
    }
}

/// A child of the element stored under `k` that is in the model ranks
/// below it.
proof fn lemma_ranked_child(
    t: Seq<(ElementId, Element)>,
    rank: spec_fn(Seq<char>) -> nat,
    reach: spec_fn(Seq<char>) -> bool,
    k: Seq<char>,
    e: Element,
    j: int,
)
    requires
        ranked_from(t, rank, reach),
        reach(k),
        lookup(t, k) == Some(e),
        0 <= j < e.owned_elements@.len(),
    ensures
        lookup(t, e.owned_elements@[j]@) is Some ==> reach(e.owned_elements@[j]@) && rank(e.owned_elements@[j]@) < rank(k),
{
    if lookup(t, e.owned_elements@[j]@) is Some {
        assert(lookup(t, k)->0 == e);
        assert(reach(lookup(t, k)->0.owned_elements@[j]@) && rank(lookup(t, k)->0.owned_elements@[j]@) < rank(k));
    }
}

/// The URI of the XMI namespace.
pub open spec fn xmi_namespace() -> Seq<char> {
    "http://www.omg.org/XMI"@
}

/// The URI of the XML Schema instance namespace.
pub open spec fn xsi_namespace() -> Seq<char> {
    "http://www.w3.org/2001/XMLSchema-instance"@
}

/// The default URI of the KerML namespace.
pub open spec fn kerml_namespace() -> Seq<char> {
    "https://www.omg.org/spec/KerML/20250201"@
}

/// The default URI of the SysML namespace.
pub open spec fn sysml_namespace() -> Seq<char> {
    "https://www.omg.org/spec/SysML/20250201"@
}

/// The URI declared for prefix `p`, if any (the first declaration).
pub open spec fn declared_uri(ns: Seq<(String, String)>, p: Seq<char>) -> Option<Seq<char>>
    decreases ns.len(),
{
    if ns.len() == 0 {
        None
    } else if ns[0].0@ == p {
        Some(ns[0].1@)
    } else {
        declared_uri(ns.drop_first(), p)
    }
}

/// The attributes `a` followed by the KerML and SysML namespace
/// declarations: those the model declared, or both defaults when it
/// declared none.
pub open spec fn namespace_attrs(a: Seq<(Seq<char>, AttrView)>, m: Model) -> Seq<(Seq<char>, AttrView)> {
    let ns = m.metadata.declared_namespaces@;
    if ns.len() == 0 {
        a.push(("xmlns:kerml"@, AttrView::Text(kerml_namespace()))).push(("xmlns:sysml"@, AttrView::Text(sysml_namespace())))
    } else {
        let b = match declared_uri(ns, "kerml"@) {
            Some(u) => a.push(("xmlns:kerml"@, AttrView::Text(u))),
            None => a,
        };
        match declared_uri(ns, "sysml"@) {
            Some(u) => b.push(("xmlns:sysml"@, AttrView::Text(u))),
            None => b,
        }
    }
}

/// The attributes of a document root: XMI version, the XMI and XSI
/// namespaces, then the KerML and SysML ones.
pub open spec fn root_namespace_attrs(m: Model) -> Seq<(Seq<char>, AttrView)> {
    namespace_attrs(seq![
        ("xmi:version"@, AttrView::Text("2.0"@)),
        ("xmlns:xmi"@, AttrView::Text(xmi_namespace())),
        ("xmlns:xsi"@, AttrView::Text(xsi_namespace())),
    ], m)
}

/// The events for the single root stored under `k` as the document root.
pub open spec fn root_element_events(m: Model, rank: spec_fn(Seq<char>) -> nat, k: Seq<char>) -> Seq<EventView> {
    let t = m.entries();
    match lookup(t, k) {
        None => Seq::empty(),
        Some(e) => {
            let name = written_type(e);
            let a = element_attrs(root_namespace_attrs(m), e);
            if has_content(e) {
                seq![EventView::Start(name, a)] + href_events(e) + relationship_children_events(t, rank, k, e.owned_elements@)
                    + seq![EventView::End(name)]
            } else {
                seq![EventView::Empty(name, a)]
            }
        },
    }
}

/// The events for the root stored under `k` inside an `xmi:XMI` wrapper.
pub open spec fn nested_element_events(t: Seq<(ElementId, Element)>, rank: spec_fn(Seq<char>) -> nat, k: Seq<char>) -> Seq<EventView> {
    match lookup(t, k) {
        None => Seq::empty(),
        Some(e) => {
            let name = written_type(e);
            let a = element_attrs(Seq::empty(), e);
            if e.owned_elements@.len() > 0 {
                seq![EventView::Start(name, a)] + relationship_children_events(t, rank, k, e.owned_elements@)
                    + seq![EventView::End(name)]
            } else {
                seq![EventView::Empty(name, a)]
            }
        },
    }
}

/// The root IDs of `roots` whose elements are in the model, in order.
pub open spec fn present_roots(t: Seq<(ElementId, Element)>, roots: Seq<ElementId>) -> Seq<ElementId> {
    roots.filter(|r: ElementId| lookup(t, r@) is Some)
}

/// The nested events of each root of `ids`, in order.
pub open spec fn nested_roots_events(t: Seq<(ElementId, Element)>, rank: spec_fn(Seq<char>) -> nat, ids: Seq<ElementId>) -> Seq<EventView>
    decreases ids.len(),
{
    if ids.len() == 0 {
        Seq::empty()
    } else {
        nested_roots_events(t, rank, ids.drop_last()) + nested_element_events(t, rank, ids.last()@)
    }
}

/// The events of the XMI document for `m`: its single root as the document
/// root, or its roots inside an `xmi:XMI` wrapper.
pub open spec fn document_events(m: Model, rank: spec_fn(Seq<char>) -> nat) -> Seq<EventView> {
    let roots = present_roots(m.entries(), m.roots@);
    if roots.len() == 1 {
        root_element_events(m, rank, roots[0]@)
    } else {
        seq![EventView::Start("xmi:XMI"@, root_namespace_attrs(m))] + nested_roots_events(m.entries(), rank, roots)
            + seq![EventView::End("xmi:XMI"@)]
    }
}

/// The URI declared for `prefix`.
fn find_declared_uri<'a>(ns: &'a Vec<(String, String)>, prefix: &str) -> (r: Option<&'a String>)
    ensures
        match r {
            Some(u) => declared_uri(ns@, prefix@) == Some(u@),
            None => declared_uri(ns@, prefix@) is None,
        },
{
    let mut i: usize = 0;
    assert(ns@.subrange(0, ns@.len() as int) =~= ns@);
    while i < ns.len()
        invariant
            i <= ns@.len(),
            declared_uri(ns@, prefix@) == declared_uri(ns@.subrange(i as int, ns@.len() as int), prefix@),
        decreases ns.len() - i,
    {
        proof {
            assert(ns@.subrange(i as int, ns@.len() as int).drop_first() =~= ns@.subrange(i + 1, ns@.len() as int));
            assert(ns@.subrange(i as int, ns@.len() as int)[0] == ns@[i as int]);
        }
        if crate::strings::str_eq(ns[i].0.as_str(), prefix) {
            return Some(&ns[i].1);
        }
        i = i + 1;
    }
    assert(ns@.subrange(i as int, ns@.len() as int) =~= Seq::<(String, String)>::empty());
    None
}

/// Add an attribute whose value is text.
fn push_attr(attrs: &mut Vec<XmlAttribute>, key: &str, value: &str)
    ensures
        attrs_view(final(attrs)@) == attrs_view(old(attrs)@).push((key@, AttrView::Text(value@))),
{
    attrs.push(XmlAttribute { key: String::from_str(key), value: AttrValue::Text(String::from_str(value)) });
    assert(attrs_view(attrs@) =~= attrs_view(old(attrs)@).push((key@, AttrView::Text(value@))));
}

/// The attributes that open a document root.
fn root_attributes(model: &Model) -> (r: Vec<XmlAttribute>)
    ensures
        attrs_view(r@) == root_namespace_attrs(*model),
{
    proof {
        reveal_strlit("xmi:version");
        reveal_strlit("2.0");
        reveal_strlit("xmlns:xmi");
        reveal_strlit("xmlns:xsi");
        reveal_strlit("http://www.omg.org/XMI");
        reveal_strlit("http://www.w3.org/2001/XMLSchema-instance");
    }
    let mut attrs: Vec<XmlAttribute> = Vec::new();
    assert(attrs_view(attrs@) =~= Seq::<(Seq<char>, AttrView)>::empty());
    push_attr(&mut attrs, "xmi:version", "2.0");
    push_attr(&mut attrs, "xmlns:xmi", "http://www.omg.org/XMI");
    push_attr(&mut attrs, "xmlns:xsi", "http://www.w3.org/2001/XMLSchema-instance");
    let ghost base = attrs_view(attrs@);
    assert(base =~= seq![
        ("xmi:version"@, AttrView::Text("2.0"@)),
        ("xmlns:xmi"@, AttrView::Text(xmi_namespace())),
        ("xmlns:xsi"@, AttrView::Text(xsi_namespace())),
    ]);
    let ns = &model.metadata.declared_namespaces;
    if ns.len() == 0 {
        push_attr(&mut attrs, "xmlns:kerml", "https://www.omg.org/spec/KerML/20250201");
        push_attr(&mut attrs, "xmlns:sysml", "https://www.omg.org/spec/SysML/20250201");
        proof {
            reveal_strlit("https://www.omg.org/spec/KerML/20250201");
            reveal_strlit("https://www.omg.org/spec/SysML/20250201");
        }
    } else {
        if let Some(u) = find_declared_uri(ns, "kerml") {
            push_attr(&mut attrs, "xmlns:kerml", u.as_str());
        }
        if let Some(u) = find_declared_uri(ns, "sysml") {
            push_attr(&mut attrs, "xmlns:sysml", u.as_str());
        }
    }
    attrs
}

impl XmiWriter {
    /// Write the single root stored under `id` as the document root.
    fn write_root_element(&self, events: &mut Vec<XmlEvent>, model: &Model, id: &ElementId, Ghost(rank): Ghost<spec_fn(Seq<char>) -> nat>, Ghost(reach): Ghost<spec_fn(Seq<char>) -> bool>)
        requires
            ranked_from(model.entries(), rank, reach),
            reach(id@),
        ensures
            events_view(final(events)@) == events_view(old(events)@) + root_element_events(*model, rank, id@),
    {
        let element = match model.get(id) {
            None => {
                assert(events_view(events@) =~= events_view(old(events)@) + root_element_events(*model, rank, id@));
                return;
            },
            Some(c) => c,
        };
        let name = xmi_type_of(element);
        let mut attrs = root_attributes(model);
        self.write_element_attrs(&mut attrs, element);
        let has_href = property_map_get(&element.properties, "href").is_some();
        if has_href || element.owned_elements.len() > 0 {
            let ev = XmlEvent::Start { name: name.clone(), attrs };
            proof { lemma_events_push(events@, ev); }
            events.push(ev);
            write_href_child(events, element);
            let ghost mid = events_view(events@);
            let mut i: usize = 0;
            while i < element.owned_elements.len()
                invariant
                    ranked_from(model.entries(), rank, reach),
                    reach(id@),
                    lookup(model.entries(), id@) == Some(*element),
                    i <= element.owned_elements@.len(),
                    events_view(events@) == mid + relationship_children_events(model.entries(), rank, id@, element.owned_elements@.take(i as int)),
                decreases element.owned_elements.len() - i,
            {
                let cid = &element.owned_elements[i];
                proof {
                    assert(element.owned_elements@.take(i + 1).drop_last() =~= element.owned_elements@.take(i as int));
                    assert(element.owned_elements@.take(i + 1).last() == *cid);
                    lemma_ranked_child(model.entries(), rank, reach, id@, *element, i as int);
                }
                if model.get(cid).is_some() {
                    self.write_owned_relationship(events, model, cid, Ghost(rank), Ghost(reach));
                }
                proof {
                    assert(events_view(events@) =~= mid + relationship_children_events(model.entries(), rank, id@, element.owned_elements@.take(i + 1)));
                }
                i = i + 1;
            }
            assert(element.owned_elements@.take(element.owned_elements@.len() as int) =~= element.owned_elements@);
            let end = XmlEvent::End { name };
            proof { lemma_events_push(events@, end); }
            events.push(end);
            assert(events_view(events@) =~= events_view(old(events)@) + root_element_events(*model, rank, id@));
        } else {
            let ev = XmlEvent::Empty { name, attrs };
            proof { lemma_events_push(events@, ev); }
            events.push(ev);
            assert(events_view(events@) =~= events_view(old(events)@) + root_element_events(*model, rank, id@));
        }
    }

    /// Write the root stored under `id` inside an `xmi:XMI` wrapper.
    fn write_element_nested(&self, events: &mut Vec<XmlEvent>, model: &Model, id: &ElementId, Ghost(rank): Ghost<spec_fn(Seq<char>) -> nat>, Ghost(reach): Ghost<spec_fn(Seq<char>) -> bool>)
        requires
            ranked_from(model.entries(), rank, reach),
            reach(id@),
        ensures
            events_view(final(events)@) == events_view(old(events)@) + nested_element_events(model.entries(), rank, id@),
    {
        let element = match model.get(id) {
            None => {
                assert(events_view(events@) =~= events_view(old(events)@) + nested_element_events(model.entries(), rank, id@));
                return;
            },
            Some(c) => c,
        };
        let name = xmi_type_of(element);
        let mut attrs: Vec<XmlAttribute> = Vec::new();
        assert(attrs_view(attrs@) =~= Seq::<(Seq<char>, AttrView)>::empty());
        self.write_element_attrs(&mut attrs, element);
        if element.owned_elements.len() > 0 {
            let ev = XmlEvent::Start { name: name.clone(), attrs };
            proof { lemma_events_push(events@, ev); }
            events.push(ev);
            let ghost mid = events_view(events@);
            let mut i: usize = 0;
            while i < element.owned_elements.len()
                invariant
                    ranked_from(model.entries(), rank, reach),
                    reach(id@),
                    lookup(model.entries(), id@) == Some(*element),
                    i <= element.owned_elements@.len(),
                    events_view(events@) == mid + relationship_children_events(model.entries(), rank, id@, element.owned_elements@.take(i as int)),
                decreases element.owned_elements.len() - i,
            {
                let cid = &element.owned_elements[i];
                proof {
                    assert(element.owned_elements@.take(i + 1).drop_last() =~= element.owned_elements@.take(i as int));
                    assert(element.owned_elements@.take(i + 1).last() == *cid);
                    lemma_ranked_child(model.entries(), rank, reach, id@, *element, i as int);
                }
                if model.get(cid).is_some() {
                    self.write_owned_relationship(events, model, cid, Ghost(rank), Ghost(reach));
                }
                proof {
                    assert(events_view(events@) =~= mid + relationship_children_events(model.entries(), rank, id@, element.owned_elements@.take(i + 1)));
                }
                i = i + 1;
            }
            assert(element.owned_elements@.take(element.owned_elements@.len() as int) =~= element.owned_elements@);
            let end = XmlEvent::End { name };
            proof { lemma_events_push(events@, end); }
            events.push(end);
            assert(events_view(events@) =~= events_view(old(events)@) + nested_element_events(model.entries(), rank, id@));
        } else {
            let ev = XmlEvent::Empty { name, attrs };
            proof { lemma_events_push(events@, ev); }
            events.push(ev);
            assert(events_view(events@) =~= events_view(old(events)@) + nested_element_events(model.entries(), rank, id@));
        }
    }

    /// The XML events of the XMI document for `model`: with one root, that
    /// root is the document element; with several, they are wrapped in
    /// `xmi:XMI`; a model without roots in it is refused. The events come
    /// without the XML declaration, which the serializer writes.
    pub fn write_events(&self, model: &Model) -> (r: Result<Vec<XmlEvent>, InterchangeError>)
        requires
            roots_acyclic(*model),
        ensures
            present_roots(model.entries(), model.roots@).len() == 0 ==> (r matches Err(InterchangeError::Xml(m))
                && m@ == "Model has no root elements"@),
            present_roots(model.entries(), model.roots@).len() > 0 ==> (r matches Ok(events) && exists|
                rank: spec_fn(Seq<char>) -> nat,
                reach: spec_fn(Seq<char>) -> bool,
            |
                ranked_from(model.entries(), rank, reach) && (forall|i: int|
                    0 <= i < present_roots(model.entries(), model.roots@).len() ==> #[trigger] reach(
                        present_roots(model.entries(), model.roots@)[i]@,
                    )) && events_view(events@) == document_events(*model, rank)),
    {
        let ghost (rank, reach) = choose|rank: spec_fn(Seq<char>) -> nat, reach: spec_fn(Seq<char>) -> bool|
            ranked_from(model.entries(), rank, reach) && forall|i: int|
                0 <= i < present_roots(model.entries(), model.roots@).len() ==> #[trigger] reach(
                    present_roots(model.entries(), model.roots@)[i]@,
                );
        let mut roots: Vec<&ElementId> = Vec::new();
        let mut i: usize = 0;
        while i < model.roots.len()
            invariant
                i <= model.roots@.len(),
                roots@.len() <= i,
                roots@.map_values(|r: &ElementId| *r) == present_roots(model.entries(), model.roots@.take(i as int)),
            decreases model.roots.len() - i,
        {
            let rid = &model.roots[i];
            proof {
                assert(model.roots@.take(i + 1).drop_last() =~= model.roots@.take(i as int));
                assert(model.roots@.take(i + 1).last() == *rid);
                reveal(Seq::filter);
            }
            if model.get(rid).is_some() {
                let ghost before = roots@;
                roots.push(rid);
                assert(roots@.map_values(|r: &ElementId| *r) =~= before.map_values(|r: &ElementId| *r).push(*rid));
            }
            i = i + 1;
        }
        assert(model.roots@.take(model.roots@.len() as int) =~= model.roots@);
        let ghost present = present_roots(model.entries(), model.roots@);
        assert(roots@.map_values(|r: &ElementId| *r) == present);
        let mut events: Vec<XmlEvent> = Vec::new();
        assert(events_view(events@) =~= Seq::<EventView>::empty());
        if roots.len() == 1 {
            assert(present[0] == *roots@[0]);
            assert(reach(present[0]@));
            self.write_root_element(&mut events, model, roots[0], Ghost(rank), Ghost(reach));
            assert(events_view(events@) =~= document_events(*model, rank));
            Ok(events)
        } else if roots.len() == 0 {
            Err(InterchangeError::xml("Model has no root elements"))
        } else {
            let start = XmlEvent::Start { name: String::from_str("xmi:XMI"), attrs: root_attributes(model) };
            proof { lemma_events_push(events@, start); }
            events.push(start);
            let ghost mid = events_view(events@);
            let mut k: usize = 0;
            while k < roots.len()
                invariant
                    ranked_from(model.entries(), rank, reach),
                    forall|j: int| 0 <= j < present.len() ==> #[trigger] reach(present[j]@),
                    roots@.map_values(|r: &ElementId| *r) == present,
                    k <= roots@.len(),
                    events_view(events@) == mid + nested_roots_events(model.entries(), rank, present.take(k as int)),
                decreases roots.len() - k,
            {
                proof {
                    assert(present.take(k + 1).drop_last() =~= present.take(k as int));
                    assert(present.take(k + 1).last() == *roots@[k as int]);
                    assert(present[k as int] == *roots@[k as int]);
                    assert(reach(present[k as int]@));
                }
                self.write_element_nested(&mut events, model, roots[k], Ghost(rank), Ghost(reach));
                proof {
                    assert(events_view(events@) =~= mid + nested_roots_events(model.entries(), rank, present.take(k + 1)));
                }
                k = k + 1;
            }
            assert(present.take(present.len() as int) =~= present);
            let end = XmlEvent::End { name: String::from_str("xmi:XMI") };
            proof { lemma_events_push(events@, end); }
            events.push(end);
            proof {
                reveal_strlit("xmi:XMI");
                assert(events_view(events@) =~= document_events(*model, rank));
            }
            Ok(events)
        }
    }
}

/// Whether the entries ranked so far have all their children in the model
/// ranked lower, and are first entries for their keys.
pub open spec fn ranks_sound(t: Seq<(ElementId, Element)>, ranks: Seq<Option<usize>>) -> bool {
    &&& ranks.len() == t.len()
    &&& forall|i: int|
        0 <= i < t.len() && #[trigger] ranks[i] is Some ==> {
            &&& find_key(t, t[i].0@) == i
            &&& forall|j: int|
                0 <= j < t[i].1.owned_elements@.len() && find_key(t, t[i].1.owned_elements@[j]@) >= 0
                    ==> (ranks[find_key(t, #[trigger] t[i].1.owned_elements@[j]@)] matches Some(y) && y < ranks[i]->0)
        }
}

/// Whether every child of entry `i` that is in the model has a rank below `r`.
fn children_ranked_below(model: &Model, i: usize, ranks: &Vec<Option<usize>>, r: usize) -> (b: bool)
    requires
        i < model.entries().len(),
        ranks@.len() == model.entries().len(),
    ensures
        b == forall|j: int|
            0 <= j < model.entries()[i as int].1.owned_elements@.len() && find_key(model.entries(), model.entries()[i as int].1.owned_elements@[j]@) >= 0
                ==> (ranks@[find_key(model.entries(), #[trigger] model.entries()[i as int].1.owned_elements@[j]@)] matches Some(y) && y < r),
{
    let (_, e) = element_map_get_index(&model.elements, i).unwrap();
    let total = element_map_len(&model.elements);
    let mut j: usize = 0;
    while j < e.owned_elements.len()
        invariant
            total == model.entries().len(),
            *e == model.entries()[i as int].1,
            ranks@.len() == model.entries().len(),
            j <= e.owned_elements@.len(),
            forall|jj: int|
                0 <= jj < j && find_key(model.entries(), e.owned_elements@[jj]@) >= 0
                    ==> (ranks@[find_key(model.entries(), #[trigger] e.owned_elements@[jj]@)] matches Some(y) && y < r),
        decreases e.owned_elements.len() - j,
    {
        match element_map_get_index_of(&model.elements, &e.owned_elements[j]) {
            Some(jc) => {
                proof {
                    lemma_find_key(model.entries(), e.owned_elements@[j as int]@);
                    assert(jc as int == find_key(model.entries(), e.owned_elements@[j as int]@));
                }
                let bad = match ranks[jc] {
                    Some(y) => y >= r,
                    None => true,
                };
                if bad {
                    proof {
                        let jj = j as int;
                        assert(model.entries()[i as int].1.owned_elements@[jj] == e.owned_elements@[jj]);
                        assert(find_key(model.entries(), model.entries()[i as int].1.owned_elements@[jj]@) == jc as int);
                        assert(!(ranks@[find_key(model.entries(), model.entries()[i as int].1.owned_elements@[jj]@)] matches Some(y) && y < r));
                    }
                    return false;
                }
            },
            None => {},
        }
        j = j + 1;
    }
    true
}

/// How many entries have no rank yet.
pub open spec fn unranked_count(rs: Seq<Option<usize>>) -> nat
    decreases rs.len(),
{
    if rs.len() == 0 {
        0
    } else {
        unranked_count(rs.drop_last()) + if rs.last() is None { 1nat } else { 0nat }
    }
}

/// Ranking an unranked entry leaves one fewer unranked.
proof fn lemma_unranked_count_set(rs: Seq<Option<usize>>, i: int, v: usize)
    requires
        0 <= i < rs.len(),
        rs[i] is None,
    ensures
        unranked_count(rs.update(i, Some(v))) + 1 == unranked_count(rs),
    decreases rs.len(),
{
    let u = rs.update(i, Some(v));
    if i == rs.len() - 1 {
        assert(u.drop_last() =~= rs.drop_last());
    } else {
        assert(u.drop_last() =~= rs.drop_last().update(i, Some(v)));
        lemma_unranked_count_set(rs.drop_last(), i, v);
    }
}

/// There are no more unranked entries than entries.
proof fn lemma_unranked_count_bound(rs: Seq<Option<usize>>)
    ensures
        unranked_count(rs) <= rs.len(),
        unranked_count(rs) == 0 ==> forall|i: int| 0 <= i < rs.len() ==> rs[i] is Some,
    decreases rs.len(),
{
    if rs.len() > 0 {
        lemma_unranked_count_bound(rs.drop_last());
        assert forall|i: int| 0 <= i < rs.len() - 1 implies rs.drop_last()[i] == rs[i] by {}
    }
}

/// Every rank given is below `b`.
pub open spec fn ranks_below(rs: Seq<Option<usize>>, b: int) -> bool {
    forall|i: int| 0 <= i < rs.len() && #[trigger] rs[i] is Some ==> rs[i]->0 < b
}

/// Whether entry `a` is the first entry for its key.
pub open spec fn is_first_entry(t: Seq<(ElementId, Element)>, a: int) -> bool {
    find_key(t, t[a].0@) == a
}

/// Whether some child of entry `a` that is in the model has no rank.
pub open spec fn has_unranked_child(t: Seq<(ElementId, Element)>, rs: Seq<Option<usize>>, a: int) -> bool {
    exists|j: int|
        0 <= j < t[a].1.owned_elements@.len() && find_key(t, t[a].1.owned_elements@[j]@) >= 0
            && #[trigger] rs[find_key(t, t[a].1.owned_elements@[j]@)] is None
}

/// Whether every first entry without a rank has a child without a rank.
pub open spec fn unranked_closed(t: Seq<(ElementId, Element)>, rs: Seq<Option<usize>>, upto: int) -> bool {
    forall|a: int|
        0 <= a < upto && #[trigger] rs[a] is None && is_first_entry(t, a) ==> has_unranked_child(t, rs, a)
}

/// Under an ownership without cycles, an unranked first entry cannot have
/// every unranked first entry followed by an unranked child: following
/// unranked children would lower the rank of the ownership forever.
proof fn lemma_acyclic_unranked_not_closed(
    t: Seq<(ElementId, Element)>,
    rs: Seq<Option<usize>>,
    rank: spec_fn(Seq<char>) -> nat,
    i: int,
)
    requires
        ranked(t, rank),
        rs.len() == t.len(),
        0 <= i < t.len(),
        rs[i] is None,
        is_first_entry(t, i),
    ensures
        !unranked_closed(t, rs, t.len() as int),
    decreases rank(t[i].0@),
{
    if unranked_closed(t, rs, t.len() as int) {
        assert(has_unranked_child(t, rs, i));
        let j = choose|j: int|
            0 <= j < t[i].1.owned_elements@.len() && find_key(t, t[i].1.owned_elements@[j]@) >= 0
                && #[trigger] rs[find_key(t, t[i].1.owned_elements@[j]@)] is None;
        let k = t[i].0@;
        let ck = t[i].1.owned_elements@[j]@;
        let c = find_key(t, ck);
        lemma_find_key(t, ck);
        lemma_find_key(t, k);
        assert(lookup(t, k) == Some(t[i].1));
        assert(lookup(t, lookup(t, k)->0.owned_elements@[j]@) is Some);
        assert(rank(ck) < rank(k));
        assert(t[c].0@ == ck);
        assert(is_first_entry(t, c)) by {
            lemma_find_key_equal(t, t[c].0@, ck);
        }
        lemma_acyclic_unranked_not_closed(t, rs, rank, c);
    }
}

/// Ranks for the entries of `model`, given round by round to the elements
/// whose children are all ranked, until a round ranks nothing. Only the
/// first entry for each key is ranked, as lookups find.
fn compute_ranks(model: &Model) -> (ranks: Vec<Option<usize>>)
    ensures
        ranks_sound(model.entries(), ranks@),
        unranked_closed(model.entries(), ranks@, model.entries().len() as int),
{
    let ghost t = model.entries();
    let n = element_map_len(&model.elements);
    let mut ranks: Vec<Option<usize>> = Vec::new();
    let mut i: usize = 0;
    while i < n
        invariant
            n == t.len(),
            t == model.entries(),
            i <= n,
            ranks@.len() == i,
            forall|j: int| 0 <= j < i ==> ranks@[j] is None,
            unranked_count(ranks@) == i,
        decreases n - i,
    {
        proof {
            assert(ranks@.push(None).drop_last() =~= ranks@);
        }
        ranks.push(None);
        i = i + 1;
    }
    let mut round: usize = 0;
    loop
        invariant
            n == t.len(),
            t == model.entries(),
            ranks_sound(t, ranks@),
            ranks_below(ranks@, round as int),
            round + unranked_count(ranks@) <= n,
        ensures
            ranks_sound(t, ranks@),
            ranks_below(ranks@, round as int),
            unranked_closed(t, ranks@, n as int),
        decreases unranked_count(ranks@),
    {
        let ghost start = ranks@;
        let mut progress = false;
        let mut i: usize = 0;
        while i < n
            invariant
                n == t.len(),
                t == model.entries(),
                i <= n,
                ranks_sound(t, ranks@),
                ranks_below(start, round as int),
                ranks_below(ranks@, round + 1),
                round + unranked_count(start) <= n,
                unranked_count(ranks@) <= unranked_count(start),
                progress ==> unranked_count(ranks@) < unranked_count(start),
                !progress ==> ranks@ == start,
                !progress ==> unranked_closed(t, ranks@, i as int),
            decreases n - i,
        {
            if ranks[i].is_none() {
                let (k, _) = element_map_get_index(&model.elements, i).unwrap();
                let is_first = match element_map_get_index_of(&model.elements, k) {
                    Some(p) => p == i,
                    None => false,
                };
                proof {
                    lemma_find_key(t, t[i as int].0@);
                }
                if is_first && children_ranked_below(model, i, &ranks, round) {
                    let ghost old_ranks = ranks@;
                    ranks.set(i, Some(round));
                    progress = true;
                    proof {
                        lemma_unranked_count_set(old_ranks, i as int, round);
                        assert(old_ranks[i as int] is None);
                        assert forall|a: int| 0 <= a < t.len() && #[trigger] ranks@[a] is Some implies {
                            &&& find_key(t, t[a].0@) == a
                            &&& forall|j: int|
                                0 <= j < t[a].1.owned_elements@.len() && find_key(t, t[a].1.owned_elements@[j]@) >= 0
                                    ==> (ranks@[find_key(t, #[trigger] t[a].1.owned_elements@[j]@)] matches Some(y) && y < ranks@[a]->0)
                        } by {
                            if a == i {
                                assert forall|j: int|
                                    0 <= j < t[a].1.owned_elements@.len() && find_key(t, t[a].1.owned_elements@[j]@) >= 0
                                        implies (ranks@[find_key(t, #[trigger] t[a].1.owned_elements@[j]@)] matches Some(y) && y < ranks@[a]->0) by {
                                    let c = find_key(t, t[a].1.owned_elements@[j]@);
                                    lemma_find_key(t, t[a].1.owned_elements@[j]@);
                                    assert(old_ranks[c] matches Some(y) && y < round);
                                    assert(c != i);
                                    assert(ranks@[c] == old_ranks[c]);
                                }
                            } else {
                                assert(ranks@[a] == old_ranks[a]);
                                assert forall|j: int|
                                    0 <= j < t[a].1.owned_elements@.len() && find_key(t, t[a].1.owned_elements@[j]@) >= 0
                                        implies (ranks@[find_key(t, #[trigger] t[a].1.owned_elements@[j]@)] matches Some(y) && y < ranks@[a]->0) by {
                                    let c = find_key(t, t[a].1.owned_elements@[j]@);
                                    lemma_find_key(t, t[a].1.owned_elements@[j]@);
                                    assert(old_ranks[c] is Some);
                                    assert(c != i);
                                    assert(ranks@[c] == old_ranks[c]);
                                }
                            }
                        }
                        assert forall|a: int| 0 <= a < ranks@.len() && #[trigger] ranks@[a] is Some implies ranks@[a]->0 < round + 1 by {
                            if a != i {
                                assert(ranks@[a] == old_ranks[a]);
                            }
                        }
                    }
                } else {
                    proof {
                        if !progress && is_first {
                            let a = i as int;
                            assert(!(forall|j: int|
                                0 <= j < t[a].1.owned_elements@.len() && find_key(t, t[a].1.owned_elements@[j]@) >= 0
                                    ==> (ranks@[find_key(t, #[trigger] t[a].1.owned_elements@[j]@)] matches Some(y) && y < round)));
                            let j = choose|j: int|
                                0 <= j < t[a].1.owned_elements@.len() && find_key(t, t[a].1.owned_elements@[j]@) >= 0
                                    && !(ranks@[find_key(t, #[trigger] t[a].1.owned_elements@[j]@)] matches Some(y) && y < round);
                            let c = find_key(t, t[a].1.owned_elements@[j]@);
                            lemma_find_key(t, t[a].1.owned_elements@[j]@);
                            assert(ranks@[c] is None);
                            assert(has_unranked_child(t, ranks@, a));
                        }
                    }
                }
            }
            i = i + 1;
        }
        if !progress {
            break;
        }
        proof {
            lemma_unranked_count_bound(ranks@);
        }
        round = round + 1;
    }
    ranks
}

/// Whether ownership has no cycle, found by ranking, round by round, the
/// elements whose children are all ranked, until a round ranks nothing:
/// the ownership has a cycle exactly when an element is then left
/// unranked. Only the first entry for each key is ranked, as lookups find.
pub fn ownership_is_acyclic(model: &Model) -> (r: bool)
    ensures
        r == acyclic_ownership(*model),
{
    let ghost t = model.entries();
    let n = element_map_len(&model.elements);
    let ranks = compute_ranks(model);
    let mut i: usize = 0;
    while i < n
        invariant
            n == t.len(),
            t == model.entries(),
            i <= n,
            ranks_sound(t, ranks@),
            unranked_closed(t, ranks@, n as int),
            forall|j: int| 0 <= j < i && find_key(t, t[j].0@) == j ==> #[trigger] ranks@[j] is Some,
        decreases n - i,
    {
        if ranks[i].is_none() {
            let (k, _) = element_map_get_index(&model.elements, i).unwrap();
            match element_map_get_index_of(&model.elements, k) {
                Some(p) => {
                    if p == i {
                        proof {
                            lemma_find_key(t, t[i as int].0@);
                            if acyclic_ownership(*model) {
                                let rank = choose|rank: spec_fn(Seq<char>) -> nat| ranked(t, rank);
                                lemma_acyclic_unranked_not_closed(t, ranks@, rank, i as int);
                            }
                        }
                        return false;
                    }
                },
                None => {},
            }
            proof {
                lemma_find_key(t, t[i as int].0@);
            }
        }
        i = i + 1;
    }
    proof {
        let rs = ranks@;
        let rank = |k: Seq<char>| if find_key(t, k) >= 0 && rs[find_key(t, k)] is Some { rs[find_key(t, k)]->0 as nat } else { 0nat };
        assert forall|k: Seq<char>, j: int|
            #![trigger lookup(t, k), rank(k), lookup(t, lookup(t, k)->0.owned_elements@[j]@)]
            lookup(t, k) is Some && 0 <= j < lookup(t, k)->0.owned_elements@.len() && lookup(t, lookup(t, k)->0.owned_elements@[j]@) is Some
                implies rank(lookup(t, k)->0.owned_elements@[j]@) < rank(k) by {
            lemma_find_key(t, k);
            let a = find_key(t, k);
            lemma_find_key(t, t[a].0@);
            assert(find_key(t, t[a].0@) == a) by {
                lemma_find_key_equal(t, k, t[a].0@);
            }
            assert(rs[a] is Some);
            let c = t[a].1.owned_elements@[j]@;
            lemma_find_key(t, c);
            assert(find_key(t, t[a].1.owned_elements@[j]@) >= 0);
        }
        assert(ranked(t, rank));
    }
    true
}

/// Under an ownership without cycles below the elements marked `reach`,
/// an unranked first entry that is marked cannot have every unranked first
/// entry followed by an unranked child.
proof fn lemma_reachable_unranked_not_closed(
    t: Seq<(ElementId, Element)>,
    rs: Seq<Option<usize>>,
    rank: spec_fn(Seq<char>) -> nat,
    reach: spec_fn(Seq<char>) -> bool,
    i: int,
)
    requires
        ranked_from(t, rank, reach),
        rs.len() == t.len(),
        0 <= i < t.len(),
        reach(t[i].0@),
        rs[i] is None,
        is_first_entry(t, i),
    ensures
        !unranked_closed(t, rs, t.len() as int),
    decreases rank(t[i].0@),
{
    if unranked_closed(t, rs, t.len() as int) {
        assert(has_unranked_child(t, rs, i));
        let j = choose|j: int|
            0 <= j < t[i].1.owned_elements@.len() && find_key(t, t[i].1.owned_elements@[j]@) >= 0
                && #[trigger] rs[find_key(t, t[i].1.owned_elements@[j]@)] is None;
        let k = t[i].0@;
        let ck = t[i].1.owned_elements@[j]@;
        let c = find_key(t, ck);
        lemma_find_key(t, ck);
        lemma_find_key(t, k);
        assert(lookup(t, k) == Some(t[i].1));
        assert(lookup(t, lookup(t, k)->0.owned_elements@[j]@) is Some);
        assert(reach(ck) && rank(ck) < rank(k));
        assert(t[c].0@ == ck);
        assert(is_first_entry(t, c)) by {
            lemma_find_key_equal(t, t[c].0@, ck);
        }
        lemma_reachable_unranked_not_closed(t, rs, rank, reach, c);
    }
}

/// Whether the ownership reachable from the model's roots in it has no
/// cycle: every such root gets a rank when the elements are ranked round by
/// round.
pub fn roots_ownership_is_acyclic(model: &Model) -> (r: bool)
    ensures
        r == roots_acyclic(*model),
{
    let ghost t = model.entries();
    let ranks = compute_ranks(model);
    let ghost rs = ranks@;
    let ghost roots = model.roots@;
    let ghost present = present_roots(t, roots);
    let ghost p = |x: ElementId| lookup(t, x@) is Some;
    let n = element_map_len(&model.elements);
    let mut i: usize = 0;
    while i < model.roots.len()
        invariant
            t == model.entries(),
            n == t.len(),
            p == (|x: ElementId| lookup(t, x@) is Some),
            present == roots.filter(p),
            rs == ranks@,
            roots == model.roots@,
            ranks_sound(t, rs),
            unranked_closed(t, rs, t.len() as int),
            i <= roots.len(),
            forall|j: int| 0 <= j < i && find_key(t, #[trigger] roots[j]@) >= 0 ==> rs[find_key(t, roots[j]@)] is Some,
        decreases model.roots.len() - i,
    {
        match element_map_get_index_of(&model.elements, &model.roots[i]) {
            Some(a) => {
                proof {
                    lemma_find_key(t, roots[i as int]@);
                    assert(model.roots@[i as int] == roots[i as int]);
                    assert(find_key(t, roots[i as int]@) >= 0);
                    assert(find_key(t, roots[i as int]@) == a as int);
                }
                if ranks[a].is_none() {
                    proof {
                        let ai = a as int;
                        assert(t[ai].0@ == roots[i as int]@);
                        assert(is_first_entry(t, ai)) by {
                            lemma_find_key_equal(t, t[ai].0@, roots[i as int]@);
                        }
                        if roots_acyclic(*model) {
                            let (rank, reach) = choose|rank: spec_fn(Seq<char>) -> nat, reach: spec_fn(Seq<char>) -> bool|
                                ranked_from(model.entries(), rank, reach) && forall|i: int|
                                    0 <= i < present_roots(model.entries(), model.roots@).len() ==> #[trigger] reach(present_roots(model.entries(), model.roots@)[i]@);
                            lemma_find_key(t, roots[i as int]@);
                            assert(p(roots[i as int]));
                            roots.lemma_filter_contains(p, i as int);
                            assert(present.contains(roots[i as int]));
                            let q = choose|q: int| 0 <= q < present.len() && present[q] == roots[i as int];
                            assert(reach(present[q]@));
                            lemma_reachable_unranked_not_closed(t, rs, rank, reach, ai);
                        }
                    }
                    return false;
                }
            },
            None => {
                proof {
                    lemma_find_key(t, roots[i as int]@);
                }
            },
        }
        i = i + 1;
    }
    proof {
        let rank = |k: Seq<char>| if find_key(t, k) >= 0 && rs[find_key(t, k)] is Some { rs[find_key(t, k)]->0 as nat } else { 0nat };
        let reach = |k: Seq<char>| find_key(t, k) >= 0 && rs[find_key(t, k)] is Some;
        assert forall|k: Seq<char>, j: int|
            #![trigger lookup(t, k), reach(k), lookup(t, lookup(t, k)->0.owned_elements@[j]@)]
            reach(k) && lookup(t, k) is Some && 0 <= j < lookup(t, k)->0.owned_elements@.len() && lookup(t, lookup(t, k)->0.owned_elements@[j]@) is Some
                implies reach(lookup(t, k)->0.owned_elements@[j]@) && rank(lookup(t, k)->0.owned_elements@[j]@) < rank(k) by {
            lemma_find_key(t, k);
            let a = find_key(t, k);
            assert(rs[a] is Some);
            let c = t[a].1.owned_elements@[j]@;
            lemma_find_key(t, c);
            assert(find_key(t, t[a].1.owned_elements@[j]@) >= 0);
        }
        assert(ranked_from(t, rank, reach));
        assert forall|q: int| 0 <= q < present.len() implies #[trigger] reach(present[q]@) by {
            assert(present.contains(present[q]));
            roots.lemma_filter_contains_rev(p, present[q]);
            let j = choose|j: int| 0 <= j < roots.len() && roots[j] == present[q];
            roots.lemma_filter_pred(p, q);
            lemma_find_key(t, present[q]@);
            assert(find_key(t, roots[j]@) >= 0);
        }
    }
    true
}

/// Keys with the same content are found at the same place.
proof fn lemma_find_key_equal(t: Seq<(ElementId, Element)>, a: Seq<char>, b: Seq<char>)
    requires
        a == b,
    ensures
        find_key(t, a) == find_key(t, b),
{
}


/// The element that the writer makes for a relationship's target
/// reference is read back as the relationship's target: its name is a
/// target attribute for every kind.
pub proof fn law_href_names_targets(k: ElementKind)
    ensures
        crate::xmi_attrs::is_target_alias(href_element_name(k)),
{
}

} // verus!
