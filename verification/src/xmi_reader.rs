//! Reading a model from the tags of an XMI document.
//!
//! The reader takes the document as a list of parsed tags (start, empty and
//! end tags, with attribute values decoded) and builds the elements they
//! describe: wrapper tags are skipped, nesting gives ownership, endpoint
//! attributes and `href` children give relationships.

use vstd::prelude::*;
use indexmap::IndexMap;
use crate::element_kind::ElementKind;
use crate::model::{Element, ElementId, Model, PropertyValue, RelationshipData, Visibility, props_map, props_seq, prop_put, lemma_props_seq_put, lemma_props_map_put, lemma_put_from_insert, id_views, put_entry};
use crate::ordered_map::{property_entries, property_map_insert, element_entries, children_entries, find_key, lemma_find_key, children_map_new, children_map_push, children_map_len, children_map_get_index, element_map_new, element_map_insert, element_map_get_mut, element_map_into_values};
use crate::strings::str_eq;
use crate::ast_names::{all_digits, digits_value, lemma_digits_value_monotone};
use crate::strings::chars_of;
use crate::model::push_char;
use crate::xmi_attrs::{has_prefix, is_source_alias, is_target_alias, source_alias, starts_with, target_alias};

verus! {

/// One attribute of a parsed tag.
#[derive(Debug)]
pub struct TagAttribute {
    /// The attribute's qualified name.
    pub key: String,
    /// The value, with character and entity references decoded.
    pub value: String,
    /// The value read as a floating-point number, by its IEEE 754 bits,
    /// where the text is one.
    pub real_bits: Option<u64>,
}

/// A parsed start or empty tag: its qualified name and its attributes in
/// document order.
#[derive(Debug)]
pub struct XmlTag {
    pub name: String,
    pub attributes: Vec<TagAttribute>,
}

/// One token of an XML document, as the reader consumes it.
#[derive(Debug)]
pub enum XmlToken {
    /// A start tag.
    Start(XmlTag),
    /// A self-closing tag: a start tag and its end tag.
    Empty(XmlTag),
    /// An end tag.
    End,
}

// ============================================================================
// ATTRIBUTES
// ============================================================================

/// The value of the last attribute whose key is `a` or `b`.
pub open spec fn last_value(attrs: Seq<TagAttribute>, a: Seq<char>, b: Seq<char>) -> Option<String>
    decreases attrs.len(),
{
    if attrs.len() == 0 {
        None
    } else if attrs.last().key@ == a || attrs.last().key@ == b {
        Some(attrs.last().value)
    } else {
        last_value(attrs.drop_last(), a, b)
    }
}

/// The value of the last attribute whose key is `a` or `b`.
fn find_last_value(attrs: &Vec<TagAttribute>, a: &str, b: &str) -> (r: Option<String>)
    ensures
        r == last_value(attrs@, a@, b@),
{
    let mut found: Option<String> = None;
    let mut i: usize = 0;
    assert(attrs@.take(0) =~= Seq::<TagAttribute>::empty());
    while i < attrs.len()
        invariant
            i <= attrs@.len(),
            found == last_value(attrs@.take(i as int), a@, b@),
        decreases attrs.len() - i,
    {
        assert(attrs@.take(i + 1).drop_last() =~= attrs@.take(i as int));
        if str_eq(attrs[i].key.as_str(), a) || str_eq(attrs[i].key.as_str(), b) {
            found = Some(attrs[i].value.clone());
        }
        i = i + 1;
    }
    assert(attrs@.take(attrs@.len() as int) =~= attrs@);
    found
}

/// Whether some attribute has the key `k`.
pub open spec fn has_key(attrs: Seq<TagAttribute>, k: Seq<char>) -> bool {
    exists|i: int| 0 <= i < attrs.len() && #[trigger] attrs[i].key@ == k
}

/// Some attribute has the key `k`.
fn any_key(attrs: &Vec<TagAttribute>, k: &str) -> (r: bool)
    ensures
        r == has_key(attrs@, k@),
{
    let mut i: usize = 0;
    while i < attrs.len()
        invariant
            i <= attrs@.len(),
            forall|j: int| 0 <= j < i ==> #[trigger] attrs@[j].key@ != k@,
        decreases attrs.len() - i,
    {
        if str_eq(attrs[i].key.as_str(), k) {
            return true;
        }
        i = i + 1;
    }
    false
}

/// The ID a tag gives: `xmi:id` or `id`, else `elementId`.
pub open spec fn tag_id(attrs: Seq<TagAttribute>) -> Option<String> {
    match last_value(attrs, "xmi:id"@, "id"@) {
        Some(v) => Some(v),
        None => last_value(attrs, "elementId"@, "elementId"@),
    }
}

/// The type a tag gives in `xmi:type` or `xsi:type`.
pub open spec fn tag_type(attrs: Seq<TagAttribute>) -> Option<String> {
    last_value(attrs, "xmi:type"@, "xsi:type"@)
}

/// The kind of the element a tag describes: from its type attribute, else
/// from its own name.
pub open spec fn tag_kind(tag: XmlTag) -> ElementKind {
    match tag_type(tag.attributes@) {
        Some(t) => ElementKind::spec_from_xmi_type(t@),
        None => ElementKind::spec_from_xmi_type(tag.name@),
    }
}

/// Whether `k` is one of the boolean attributes of an element.
pub open spec fn is_flag_key(k: Seq<char>) -> bool {
    k == "isAbstract"@
        || k == "isVariation"@
        || k == "isDerived"@
        || k == "isReadOnly"@
        || k == "isParallel"@
        || k == "isIndividual"@
        || k == "isEnd"@
        || k == "isDefault"@
        || k == "isOrdered"@
        || k == "isNonunique"@
        || k == "isPortion"@
        || k == "isStandard"@
        || k == "isComposite"@
        || k == "isUnique"@
}

/// Whether attribute `k` is read into a field of the element (or into its
/// `href` property) rather than kept as a property of its own.
pub open spec fn is_tag_field_key(k: Seq<char>) -> bool {
    k == "xmi:id"@
        || k == "id"@
        || k == "xmi:type"@
        || k == "xsi:type"@
        || k == "name"@
        || k == "declaredName"@
        || k == "qualifiedName"@
        || k == "shortName"@
        || k == "declaredShortName"@
        || k == "elementId"@
        || is_flag_key(k)
        || k == "body"@
        || k == "href"@
}

/// Attribute `k` is read into a field.
fn tag_field_key(k: &str) -> (r: bool)
    ensures
        r == is_tag_field_key(k@),
{
    str_eq(k, "xmi:id")
        || str_eq(k, "id")
        || str_eq(k, "xmi:type")
        || str_eq(k, "xsi:type")
        || str_eq(k, "name")
        || str_eq(k, "declaredName")
        || str_eq(k, "qualifiedName")
        || str_eq(k, "shortName")
        || str_eq(k, "declaredShortName")
        || str_eq(k, "elementId")
        || str_eq(k, "isAbstract")
        || str_eq(k, "isVariation")
        || str_eq(k, "isDerived")
        || str_eq(k, "isReadOnly")
        || str_eq(k, "isParallel")
        || str_eq(k, "isIndividual")
        || str_eq(k, "isEnd")
        || str_eq(k, "isDefault")
        || str_eq(k, "isOrdered")
        || str_eq(k, "isNonunique")
        || str_eq(k, "isPortion")
        || str_eq(k, "isStandard")
        || str_eq(k, "isComposite")
        || str_eq(k, "isUnique")
        || str_eq(k, "body")
        || str_eq(k, "href")
}

/// Whether attribute `k` is kept as a property: not a field, and either a
/// relationship endpoint or not a namespace or version declaration.
pub open spec fn is_extra_key(k: Seq<char>) -> bool {
    !is_tag_field_key(k) && (is_source_alias(k) || is_target_alias(k) || !(has_prefix(k, "xmlns"@)
        || has_prefix(k, "xmi:version"@)))
}

/// Attribute `k` is kept as a property.
fn extra_key(k: &str) -> (r: bool)
    ensures
        r == is_extra_key(k@),
{
    !tag_field_key(k) && (source_alias(k) || target_alias(k) || !(starts_with(k, "xmlns") || starts_with(
        k,
        "xmi:version",
    )))
}

/// The value of flag `k`: its last attribute reads `true`.
pub open spec fn flag_value(attrs: Seq<TagAttribute>, k: Seq<char>) -> Option<bool> {
    match last_value(attrs, k, k) {
        Some(v) => Some(v@ == "true"@),
        None => None,
    }
}

/// The field value of flag `k`: false unless given.
pub open spec fn flag_field(attrs: Seq<TagAttribute>, k: Seq<char>) -> bool {
    flag_value(attrs, k) == Some(true)
}

/// The property map `m` after flag `k`, when given, is stored.
pub open spec fn flag_prop(m: Map<Seq<char>, PropertyValue>, attrs: Seq<TagAttribute>, k: Seq<char>) -> Map<Seq<char>, PropertyValue> {
    match flag_value(attrs, k) {
        Some(b) => m.insert(k, PropertyValue::Boolean(b)),
        None => m,
    }
}

/// The property map `m` after the first seven flags are stored.
pub open spec fn first_flag_props(m: Map<Seq<char>, PropertyValue>, a: Seq<TagAttribute>) -> Map<Seq<char>, PropertyValue> {
    flag_prop(flag_prop(flag_prop(flag_prop(flag_prop(flag_prop(flag_prop(m, a, "isAbstract"@), a, "isVariation"@), a, "isDerived"@), a, "isReadOnly"@), a, "isParallel"@), a, "isIndividual"@), a, "isEnd"@)
}

/// The property map `m` after the last seven flags are stored.
pub open spec fn last_flag_props(m: Map<Seq<char>, PropertyValue>, a: Seq<TagAttribute>) -> Map<Seq<char>, PropertyValue> {
    flag_prop(flag_prop(flag_prop(flag_prop(flag_prop(flag_prop(flag_prop(m, a, "isDefault"@), a, "isOrdered"@), a, "isNonunique"@), a, "isPortion"@), a, "isStandard"@), a, "isComposite"@), a, "isUnique"@)
}

/// The properties `s`, in order, after flag `k`, when given, is stored.
pub open spec fn flag_seq_prop(s: Seq<(Seq<char>, PropertyValue)>, attrs: Seq<TagAttribute>, k: Seq<char>) -> Seq<(Seq<char>, PropertyValue)> {
    match flag_value(attrs, k) {
        Some(b) => prop_put(s, k, PropertyValue::Boolean(b)),
        None => s,
    }
}

/// The properties `s`, in order, after the first seven flags are stored.
pub open spec fn first_flag_seq_props(s: Seq<(Seq<char>, PropertyValue)>, a: Seq<TagAttribute>) -> Seq<(Seq<char>, PropertyValue)> {
    flag_seq_prop(flag_seq_prop(flag_seq_prop(flag_seq_prop(flag_seq_prop(flag_seq_prop(flag_seq_prop(s, a, "isAbstract"@), a, "isVariation"@), a, "isDerived"@), a, "isReadOnly"@), a, "isParallel"@), a, "isIndividual"@), a, "isEnd"@)
}

/// The properties `s`, in order, after the last seven flags are stored.
pub open spec fn last_flag_seq_props(s: Seq<(Seq<char>, PropertyValue)>, a: Seq<TagAttribute>) -> Seq<(Seq<char>, PropertyValue)> {
    flag_seq_prop(flag_seq_prop(flag_seq_prop(flag_seq_prop(flag_seq_prop(flag_seq_prop(flag_seq_prop(s, a, "isDefault"@), a, "isOrdered"@), a, "isNonunique"@), a, "isPortion"@), a, "isStandard"@), a, "isComposite"@), a, "isUnique"@)
}

/// What `str::parse::<i64>` gives: an optional sign and a non-empty run of
/// decimal digits whose value fits in 64 bits, two's complement.
pub open spec fn parse_i64(s: Seq<char>) -> Option<i64> {
    if s.len() > 1 && s[0] == '-' {
        let d = s.drop_first();
        if all_digits(d) && digits_value(d) <= 0x8000_0000_0000_0000 {
            Some((0 - digits_value(d)) as i64)
        } else {
            None
        }
    } else {
        let d = if s.len() > 1 && s[0] == '+' {
            s.drop_first()
        } else {
            s
        };
        if d.len() > 0 && all_digits(d) && digits_value(d) <= i64::MAX {
            Some(digits_value(d) as i64)
        } else {
            None
        }
    }
}

/// The property an extra attribute becomes: the `value` of a literal
/// element is read by the literal's kind (an integer or real that does not
/// parse stays text), anything else is text.
pub open spec fn extra_value(a: TagAttribute, kind: ElementKind) -> PropertyValue {
    if a.key@ == "value"@ {
        match kind {
            ElementKind::LiteralInteger => match parse_i64(a.value@) {
                Some(i) => PropertyValue::Integer(i),
                None => PropertyValue::String(a.value),
            },
            ElementKind::LiteralReal => match a.real_bits {
                Some(x) => PropertyValue::Real(x),
                None => PropertyValue::String(a.value),
            },
            ElementKind::LiteralBoolean => PropertyValue::Boolean(a.value@ == "true"@),
            _ => PropertyValue::String(a.value),
        }
    } else {
        PropertyValue::String(a.value)
    }
}

/// The property map `m` after the extra attributes among `attrs` are
/// stored in order.
pub open spec fn extra_props(m: Map<Seq<char>, PropertyValue>, attrs: Seq<TagAttribute>, kind: ElementKind) -> Map<Seq<char>, PropertyValue>
    decreases attrs.len(),
{
    if attrs.len() == 0 {
        m
    } else {
        let m1 = extra_props(m, attrs.drop_last(), kind);
        if is_extra_key(attrs.last().key@) {
            m1.insert(attrs.last().key@, extra_value(attrs.last(), kind))
        } else {
            m1
        }
    }
}

/// The properties `s`, in order, after the extra attributes among `attrs`
/// are stored in order: a key already stored keeps its place and takes the
/// new value, a new key comes last.
pub open spec fn extra_seq(s: Seq<(Seq<char>, PropertyValue)>, attrs: Seq<TagAttribute>, kind: ElementKind) -> Seq<(Seq<char>, PropertyValue)>
    decreases attrs.len(),
{
    if attrs.len() == 0 {
        s
    } else {
        let s1 = extra_seq(s, attrs.drop_last(), kind);
        if is_extra_key(attrs.last().key@) {
            prop_put(s1, attrs.last().key@, extra_value(attrs.last(), kind))
        } else {
            s1
        }
    }
}

/// The properties of the element a tag describes: the XMI type read, the
/// flags, the `href`, then the extra attributes in order.
pub open spec fn tag_props(attrs: Seq<TagAttribute>, kind: ElementKind) -> Map<Seq<char>, PropertyValue> {
    let m0 = match tag_type(attrs) {
        Some(t) => Map::<Seq<char>, PropertyValue>::empty().insert("_xsi_type"@, PropertyValue::String(t)),
        None => Map::empty(),
    };
    let m1 = last_flag_props(first_flag_props(m0, attrs), attrs);
    let m2 = match last_value(attrs, "href"@, "href"@) {
        Some(h) => m1.insert("href"@, PropertyValue::String(h)),
        None => m1,
    };
    extra_props(m2, attrs, kind)
}

/// The properties, in their stored order, of the element a tag describes:
/// the XMI type read, the flags, the `href`, then the extra attributes.
pub open spec fn tag_prop_seq(attrs: Seq<TagAttribute>, kind: ElementKind) -> Seq<(Seq<char>, PropertyValue)> {
    let s0 = match tag_type(attrs) {
        Some(t) => seq![("_xsi_type"@, PropertyValue::String(t))],
        None => Seq::empty(),
    };
    let s1 = last_flag_seq_props(first_flag_seq_props(s0, attrs), attrs);
    let s2 = match last_value(attrs, "href"@, "href"@) {
        Some(h) => prop_put(s1, "href"@, PropertyValue::String(h)),
        None => s1,
    };
    extra_seq(s2, attrs, kind)
}

/// Whether `e` is the element that `tag` describes, owned by `parent`.
pub open spec fn element_from_tag(e: Element, tag: XmlTag, parent: Option<Seq<char>>) -> bool {
    let a = tag.attributes@;
    &&& tag_id(a) matches Some(id) && e.id@ == id@
    &&& e.kind == tag_kind(tag)
    &&& e.name == last_value(a, "name"@, "declaredName"@)
    &&& e.qualified_name == last_value(a, "qualifiedName"@, "qualifiedName"@)
    &&& e.short_name == last_value(a, "shortName"@, "declaredShortName"@)
    &&& e.documentation == last_value(a, "body"@, "body"@)
    &&& e.is_abstract == flag_field(a, "isAbstract"@)
    &&& e.is_variation == flag_field(a, "isVariation"@)
    &&& e.is_derived == flag_field(a, "isDerived"@)
    &&& e.is_readonly == flag_field(a, "isReadOnly"@)
    &&& e.is_parallel == flag_field(a, "isParallel"@)
    &&& e.is_individual == flag_field(a, "isIndividual"@)
    &&& e.is_end == flag_field(a, "isEnd"@)
    &&& e.is_default == flag_field(a, "isDefault"@)
    &&& e.is_ordered == flag_field(a, "isOrdered"@)
    &&& e.is_nonunique == flag_field(a, "isNonunique"@)
    &&& e.is_portion == flag_field(a, "isPortion"@)
    &&& e.visibility == Visibility::Public
    &&& e.relationship is None
    &&& e.owned_elements@.len() == 0
    &&& (match parent {
        Some(p) => e.owner matches Some(o) && o@ == p,
        None => e.owner is None,
    })
    &&& props_map(property_entries(e.properties)) == tag_props(a, e.kind)
    &&& props_seq(property_entries(e.properties)) == tag_prop_seq(a, e.kind)
}


// ============================================================================
// BUILDING ONE ELEMENT
// ============================================================================

/// Store `v` under `k` in the properties of `e`.
fn put_property(e: &mut Element, k: &str, v: PropertyValue)
    ensures
        *final(e) == (Element { properties: final(e).properties, ..*old(e) }),
        props_map(property_entries(final(e).properties)) == props_map(property_entries(old(e).properties)).insert(k@, v),
        props_seq(property_entries(final(e).properties)) == prop_put(props_seq(property_entries(old(e).properties)), k@, v),
{
    let ghost before = property_entries(e.properties);
    let key = String::from_str(k);
    let ghost kk = key;
    let ghost vv = v;
    let _ = property_map_insert(&mut e.properties, key, v);
    proof {
        lemma_put_from_insert(before, property_entries(e.properties), kk, vv);
        lemma_props_map_put(before, property_entries(e.properties), k@, vv);
        lemma_props_seq_put(before, property_entries(e.properties), k@, vv);
    }
}

/// Set `is_abstract` of `e` as the attribute `isAbstract` gives it, if it does,
/// field and property alike.
fn apply_flag_is_abstract(e: &mut Element, attrs: &Vec<TagAttribute>)
    ensures
        final(e).is_abstract == (if flag_value(attrs@, "isAbstract"@) is Some { flag_field(attrs@, "isAbstract"@) } else { old(e).is_abstract }),
        *final(e) == (Element { is_abstract: final(e).is_abstract, properties: final(e).properties, ..*old(e) }),
        props_map(property_entries(final(e).properties)) == flag_prop(props_map(property_entries(old(e).properties)), attrs@, "isAbstract"@),
        props_seq(property_entries(final(e).properties)) == flag_seq_prop(props_seq(property_entries(old(e).properties)), attrs@, "isAbstract"@),
{
    if let Some(v) = find_last_value(attrs, "isAbstract", "isAbstract") {
        let b = str_eq(v.as_str(), "true");
        let ghost before = property_entries(e.properties);
        e.set_abstract(b);
        proof {
            lemma_props_map_put(before, property_entries(e.properties), "isAbstract"@, PropertyValue::Boolean(b));
            lemma_props_seq_put(before, property_entries(e.properties), "isAbstract"@, PropertyValue::Boolean(b));
        }
    }
}

/// Set `is_variation` of `e` as the attribute `isVariation` gives it, if it does,
/// field and property alike.
fn apply_flag_is_variation(e: &mut Element, attrs: &Vec<TagAttribute>)
    ensures
        final(e).is_variation == (if flag_value(attrs@, "isVariation"@) is Some { flag_field(attrs@, "isVariation"@) } else { old(e).is_variation }),
        *final(e) == (Element { is_variation: final(e).is_variation, properties: final(e).properties, ..*old(e) }),
        props_map(property_entries(final(e).properties)) == flag_prop(props_map(property_entries(old(e).properties)), attrs@, "isVariation"@),
        props_seq(property_entries(final(e).properties)) == flag_seq_prop(props_seq(property_entries(old(e).properties)), attrs@, "isVariation"@),
{
    if let Some(v) = find_last_value(attrs, "isVariation", "isVariation") {
        let b = str_eq(v.as_str(), "true");
        let ghost before = property_entries(e.properties);
        e.set_variation(b);
        proof {
            lemma_props_map_put(before, property_entries(e.properties), "isVariation"@, PropertyValue::Boolean(b));
            lemma_props_seq_put(before, property_entries(e.properties), "isVariation"@, PropertyValue::Boolean(b));
        }
    }
}

/// Set `is_derived` of `e` as the attribute `isDerived` gives it, if it does,
/// field and property alike.
fn apply_flag_is_derived(e: &mut Element, attrs: &Vec<TagAttribute>)
    ensures
        final(e).is_derived == (if flag_value(attrs@, "isDerived"@) is Some { flag_field(attrs@, "isDerived"@) } else { old(e).is_derived }),
        *final(e) == (Element { is_derived: final(e).is_derived, properties: final(e).properties, ..*old(e) }),
        props_map(property_entries(final(e).properties)) == flag_prop(props_map(property_entries(old(e).properties)), attrs@, "isDerived"@),
        props_seq(property_entries(final(e).properties)) == flag_seq_prop(props_seq(property_entries(old(e).properties)), attrs@, "isDerived"@),
{
    if let Some(v) = find_last_value(attrs, "isDerived", "isDerived") {
        let b = str_eq(v.as_str(), "true");
        let ghost before = property_entries(e.properties);
        e.set_derived(b);
        proof {
            lemma_props_map_put(before, property_entries(e.properties), "isDerived"@, PropertyValue::Boolean(b));
            lemma_props_seq_put(before, property_entries(e.properties), "isDerived"@, PropertyValue::Boolean(b));
        }
    }
}

/// Set `is_readonly` of `e` as the attribute `isReadOnly` gives it, if it does,
/// field and property alike.
fn apply_flag_is_readonly(e: &mut Element, attrs: &Vec<TagAttribute>)
    ensures
        final(e).is_readonly == (if flag_value(attrs@, "isReadOnly"@) is Some { flag_field(attrs@, "isReadOnly"@) } else { old(e).is_readonly }),
        *final(e) == (Element { is_readonly: final(e).is_readonly, properties: final(e).properties, ..*old(e) }),
        props_map(property_entries(final(e).properties)) == flag_prop(props_map(property_entries(old(e).properties)), attrs@, "isReadOnly"@),
        props_seq(property_entries(final(e).properties)) == flag_seq_prop(props_seq(property_entries(old(e).properties)), attrs@, "isReadOnly"@),
{
    if let Some(v) = find_last_value(attrs, "isReadOnly", "isReadOnly") {
        let b = str_eq(v.as_str(), "true");
        let ghost before = property_entries(e.properties);
        e.set_readonly(b);
        proof {
            lemma_props_map_put(before, property_entries(e.properties), "isReadOnly"@, PropertyValue::Boolean(b));
            lemma_props_seq_put(before, property_entries(e.properties), "isReadOnly"@, PropertyValue::Boolean(b));
        }
    }
}

/// Set `is_parallel` of `e` as the attribute `isParallel` gives it, if it does,
/// field and property alike.
fn apply_flag_is_parallel(e: &mut Element, attrs: &Vec<TagAttribute>)
    ensures
        final(e).is_parallel == (if flag_value(attrs@, "isParallel"@) is Some { flag_field(attrs@, "isParallel"@) } else { old(e).is_parallel }),
        *final(e) == (Element { is_parallel: final(e).is_parallel, properties: final(e).properties, ..*old(e) }),
        props_map(property_entries(final(e).properties)) == flag_prop(props_map(property_entries(old(e).properties)), attrs@, "isParallel"@),
        props_seq(property_entries(final(e).properties)) == flag_seq_prop(props_seq(property_entries(old(e).properties)), attrs@, "isParallel"@),
{
    if let Some(v) = find_last_value(attrs, "isParallel", "isParallel") {
        let b = str_eq(v.as_str(), "true");
        let ghost before = property_entries(e.properties);
        e.set_parallel(b);
        proof {
            lemma_props_map_put(before, property_entries(e.properties), "isParallel"@, PropertyValue::Boolean(b));
            lemma_props_seq_put(before, property_entries(e.properties), "isParallel"@, PropertyValue::Boolean(b));
        }
    }
}

/// Set `is_individual` of `e` as the attribute `isIndividual` gives it, if it does,
/// field and property alike.
fn apply_flag_is_individual(e: &mut Element, attrs: &Vec<TagAttribute>)
    ensures
        final(e).is_individual == (if flag_value(attrs@, "isIndividual"@) is Some { flag_field(attrs@, "isIndividual"@) } else { old(e).is_individual }),
        *final(e) == (Element { is_individual: final(e).is_individual, properties: final(e).properties, ..*old(e) }),
        props_map(property_entries(final(e).properties)) == flag_prop(props_map(property_entries(old(e).properties)), attrs@, "isIndividual"@),
        props_seq(property_entries(final(e).properties)) == flag_seq_prop(props_seq(property_entries(old(e).properties)), attrs@, "isIndividual"@),
{
    if let Some(v) = find_last_value(attrs, "isIndividual", "isIndividual") {
        let b = str_eq(v.as_str(), "true");
        let ghost before = property_entries(e.properties);
        e.set_individual(b);
        proof {
            lemma_props_map_put(before, property_entries(e.properties), "isIndividual"@, PropertyValue::Boolean(b));
            lemma_props_seq_put(before, property_entries(e.properties), "isIndividual"@, PropertyValue::Boolean(b));
        }
    }
}

/// Set `is_end` of `e` as the attribute `isEnd` gives it, if it does,
/// field and property alike.
fn apply_flag_is_end(e: &mut Element, attrs: &Vec<TagAttribute>)
    ensures
        final(e).is_end == (if flag_value(attrs@, "isEnd"@) is Some { flag_field(attrs@, "isEnd"@) } else { old(e).is_end }),
        *final(e) == (Element { is_end: final(e).is_end, properties: final(e).properties, ..*old(e) }),
        props_map(property_entries(final(e).properties)) == flag_prop(props_map(property_entries(old(e).properties)), attrs@, "isEnd"@),
        props_seq(property_entries(final(e).properties)) == flag_seq_prop(props_seq(property_entries(old(e).properties)), attrs@, "isEnd"@),
{
    if let Some(v) = find_last_value(attrs, "isEnd", "isEnd") {
        let b = str_eq(v.as_str(), "true");
        let ghost before = property_entries(e.properties);
        e.set_end(b);
        proof {
            lemma_props_map_put(before, property_entries(e.properties), "isEnd"@, PropertyValue::Boolean(b));
            lemma_props_seq_put(before, property_entries(e.properties), "isEnd"@, PropertyValue::Boolean(b));
        }
    }
}

/// Set `is_default` of `e` as the attribute `isDefault` gives it, if it does,
/// field and property alike.
fn apply_flag_is_default(e: &mut Element, attrs: &Vec<TagAttribute>)
    ensures
        final(e).is_default == (if flag_value(attrs@, "isDefault"@) is Some { flag_field(attrs@, "isDefault"@) } else { old(e).is_default }),
        *final(e) == (Element { is_default: final(e).is_default, properties: final(e).properties, ..*old(e) }),
        props_map(property_entries(final(e).properties)) == flag_prop(props_map(property_entries(old(e).properties)), attrs@, "isDefault"@),
        props_seq(property_entries(final(e).properties)) == flag_seq_prop(props_seq(property_entries(old(e).properties)), attrs@, "isDefault"@),
{
    if let Some(v) = find_last_value(attrs, "isDefault", "isDefault") {
        let b = str_eq(v.as_str(), "true");
        let ghost before = property_entries(e.properties);
        e.set_default(b);
        proof {
            lemma_props_map_put(before, property_entries(e.properties), "isDefault"@, PropertyValue::Boolean(b));
            lemma_props_seq_put(before, property_entries(e.properties), "isDefault"@, PropertyValue::Boolean(b));
        }
    }
}

/// Set `is_ordered` of `e` as the attribute `isOrdered` gives it, if it does,
/// field and property alike.
fn apply_flag_is_ordered(e: &mut Element, attrs: &Vec<TagAttribute>)
    ensures
        final(e).is_ordered == (if flag_value(attrs@, "isOrdered"@) is Some { flag_field(attrs@, "isOrdered"@) } else { old(e).is_ordered }),
        *final(e) == (Element { is_ordered: final(e).is_ordered, properties: final(e).properties, ..*old(e) }),
        props_map(property_entries(final(e).properties)) == flag_prop(props_map(property_entries(old(e).properties)), attrs@, "isOrdered"@),
        props_seq(property_entries(final(e).properties)) == flag_seq_prop(props_seq(property_entries(old(e).properties)), attrs@, "isOrdered"@),
{
    if let Some(v) = find_last_value(attrs, "isOrdered", "isOrdered") {
        let b = str_eq(v.as_str(), "true");
        let ghost before = property_entries(e.properties);
        e.set_ordered(b);
        proof {
            lemma_props_map_put(before, property_entries(e.properties), "isOrdered"@, PropertyValue::Boolean(b));
            lemma_props_seq_put(before, property_entries(e.properties), "isOrdered"@, PropertyValue::Boolean(b));
        }
    }
}

/// Set `is_nonunique` of `e` as the attribute `isNonunique` gives it, if it does,
/// field and property alike.
fn apply_flag_is_nonunique(e: &mut Element, attrs: &Vec<TagAttribute>)
    ensures
        final(e).is_nonunique == (if flag_value(attrs@, "isNonunique"@) is Some { flag_field(attrs@, "isNonunique"@) } else { old(e).is_nonunique }),
        *final(e) == (Element { is_nonunique: final(e).is_nonunique, properties: final(e).properties, ..*old(e) }),
        props_map(property_entries(final(e).properties)) == flag_prop(props_map(property_entries(old(e).properties)), attrs@, "isNonunique"@),
        props_seq(property_entries(final(e).properties)) == flag_seq_prop(props_seq(property_entries(old(e).properties)), attrs@, "isNonunique"@),
{
    if let Some(v) = find_last_value(attrs, "isNonunique", "isNonunique") {
        let b = str_eq(v.as_str(), "true");
        let ghost before = property_entries(e.properties);
        e.set_nonunique(b);
        proof {
            lemma_props_map_put(before, property_entries(e.properties), "isNonunique"@, PropertyValue::Boolean(b));
            lemma_props_seq_put(before, property_entries(e.properties), "isNonunique"@, PropertyValue::Boolean(b));
        }
    }
}

/// Set `is_portion` of `e` as the attribute `isPortion` gives it, if it does,
/// field and property alike.
fn apply_flag_is_portion(e: &mut Element, attrs: &Vec<TagAttribute>)
    ensures
        final(e).is_portion == (if flag_value(attrs@, "isPortion"@) is Some { flag_field(attrs@, "isPortion"@) } else { old(e).is_portion }),
        *final(e) == (Element { is_portion: final(e).is_portion, properties: final(e).properties, ..*old(e) }),
        props_map(property_entries(final(e).properties)) == flag_prop(props_map(property_entries(old(e).properties)), attrs@, "isPortion"@),
        props_seq(property_entries(final(e).properties)) == flag_seq_prop(props_seq(property_entries(old(e).properties)), attrs@, "isPortion"@),
{
    if let Some(v) = find_last_value(attrs, "isPortion", "isPortion") {
        let b = str_eq(v.as_str(), "true");
        let ghost before = property_entries(e.properties);
        e.set_portion(b);
        proof {
            lemma_props_map_put(before, property_entries(e.properties), "isPortion"@, PropertyValue::Boolean(b));
            lemma_props_seq_put(before, property_entries(e.properties), "isPortion"@, PropertyValue::Boolean(b));
        }
    }
}

/// Store the property `isStandard` as the attribute gives it, if it does.
fn apply_property_flag_standard(e: &mut Element, attrs: &Vec<TagAttribute>)
    ensures
        *final(e) == (Element { properties: final(e).properties, ..*old(e) }),
        props_map(property_entries(final(e).properties)) == flag_prop(props_map(property_entries(old(e).properties)), attrs@, "isStandard"@),
        props_seq(property_entries(final(e).properties)) == flag_seq_prop(props_seq(property_entries(old(e).properties)), attrs@, "isStandard"@),
{
    if let Some(v) = find_last_value(attrs, "isStandard", "isStandard") {
        let b = str_eq(v.as_str(), "true");
        put_property(e, "isStandard", PropertyValue::Boolean(b));
    }
}

/// Store the property `isComposite` as the attribute gives it, if it does.
fn apply_property_flag_composite(e: &mut Element, attrs: &Vec<TagAttribute>)
    ensures
        *final(e) == (Element { properties: final(e).properties, ..*old(e) }),
        props_map(property_entries(final(e).properties)) == flag_prop(props_map(property_entries(old(e).properties)), attrs@, "isComposite"@),
        props_seq(property_entries(final(e).properties)) == flag_seq_prop(props_seq(property_entries(old(e).properties)), attrs@, "isComposite"@),
{
    if let Some(v) = find_last_value(attrs, "isComposite", "isComposite") {
        let b = str_eq(v.as_str(), "true");
        put_property(e, "isComposite", PropertyValue::Boolean(b));
    }
}

/// Store the property `isUnique` as the attribute gives it, if it does.
fn apply_property_flag_unique(e: &mut Element, attrs: &Vec<TagAttribute>)
    ensures
        *final(e) == (Element { properties: final(e).properties, ..*old(e) }),
        props_map(property_entries(final(e).properties)) == flag_prop(props_map(property_entries(old(e).properties)), attrs@, "isUnique"@),
        props_seq(property_entries(final(e).properties)) == flag_seq_prop(props_seq(property_entries(old(e).properties)), attrs@, "isUnique"@),
{
    if let Some(v) = find_last_value(attrs, "isUnique", "isUnique") {
        let b = str_eq(v.as_str(), "true");
        put_property(e, "isUnique", PropertyValue::Boolean(b));
    }
}

/// Set the first seven flags as the attributes give them.
fn apply_first_flags(e: &mut Element, attrs: &Vec<TagAttribute>)
    ensures
        final(e).is_abstract == (if flag_value(attrs@, "isAbstract"@) is Some { flag_field(attrs@, "isAbstract"@) } else { old(e).is_abstract }),
        final(e).is_variation == (if flag_value(attrs@, "isVariation"@) is Some { flag_field(attrs@, "isVariation"@) } else { old(e).is_variation }),
        final(e).is_derived == (if flag_value(attrs@, "isDerived"@) is Some { flag_field(attrs@, "isDerived"@) } else { old(e).is_derived }),
        final(e).is_readonly == (if flag_value(attrs@, "isReadOnly"@) is Some { flag_field(attrs@, "isReadOnly"@) } else { old(e).is_readonly }),
        final(e).is_parallel == (if flag_value(attrs@, "isParallel"@) is Some { flag_field(attrs@, "isParallel"@) } else { old(e).is_parallel }),
        final(e).is_individual == (if flag_value(attrs@, "isIndividual"@) is Some { flag_field(attrs@, "isIndividual"@) } else { old(e).is_individual }),
        final(e).is_end == (if flag_value(attrs@, "isEnd"@) is Some { flag_field(attrs@, "isEnd"@) } else { old(e).is_end }),
        *final(e) == (Element { is_abstract: final(e).is_abstract, is_variation: final(e).is_variation, is_derived: final(e).is_derived, is_readonly: final(e).is_readonly, is_parallel: final(e).is_parallel, is_individual: final(e).is_individual, is_end: final(e).is_end, properties: final(e).properties, ..*old(e) }),
        props_map(property_entries(final(e).properties)) == first_flag_props(props_map(property_entries(old(e).properties)), attrs@),
        props_seq(property_entries(final(e).properties)) == first_flag_seq_props(props_seq(property_entries(old(e).properties)), attrs@),
{
    apply_flag_is_abstract(e, attrs);
    apply_flag_is_variation(e, attrs);
    apply_flag_is_derived(e, attrs);
    apply_flag_is_readonly(e, attrs);
    apply_flag_is_parallel(e, attrs);
    apply_flag_is_individual(e, attrs);
    apply_flag_is_end(e, attrs);
}

/// Set the last seven flags as the attributes give them.
fn apply_last_flags(e: &mut Element, attrs: &Vec<TagAttribute>)
    ensures
        final(e).is_default == (if flag_value(attrs@, "isDefault"@) is Some { flag_field(attrs@, "isDefault"@) } else { old(e).is_default }),
        final(e).is_ordered == (if flag_value(attrs@, "isOrdered"@) is Some { flag_field(attrs@, "isOrdered"@) } else { old(e).is_ordered }),
        final(e).is_nonunique == (if flag_value(attrs@, "isNonunique"@) is Some { flag_field(attrs@, "isNonunique"@) } else { old(e).is_nonunique }),
        final(e).is_portion == (if flag_value(attrs@, "isPortion"@) is Some { flag_field(attrs@, "isPortion"@) } else { old(e).is_portion }),
        *final(e) == (Element { is_default: final(e).is_default, is_ordered: final(e).is_ordered, is_nonunique: final(e).is_nonunique, is_portion: final(e).is_portion, properties: final(e).properties, ..*old(e) }),
        props_map(property_entries(final(e).properties)) == last_flag_props(props_map(property_entries(old(e).properties)), attrs@),
        props_seq(property_entries(final(e).properties)) == last_flag_seq_props(props_seq(property_entries(old(e).properties)), attrs@),
{
    apply_flag_is_default(e, attrs);
    apply_flag_is_ordered(e, attrs);
    apply_flag_is_nonunique(e, attrs);
    apply_flag_is_portion(e, attrs);
    apply_property_flag_standard(e, attrs);
    apply_property_flag_composite(e, attrs);
    apply_property_flag_unique(e, attrs);
}

/// The value of the digits `cs[start..]` when they are a non-empty run of
/// decimal digits whose value is at most `max`.
fn digits_at_most(cs: &Vec<char>, start: usize, max: u64) -> (r: Option<u64>)
    requires
        start <= cs@.len(),
    ensures
        ({
            let d = cs@.subrange(start as int, cs@.len() as int);
            if d.len() > 0 && all_digits(d) && digits_value(d) <= max {
                r matches Some(v) && v == digits_value(d)
            } else {
                r is None
            }
        }),
        r matches Some(v) ==> v <= max,
{
    let ghost d = cs@.subrange(start as int, cs@.len() as int);
    if start >= cs.len() {
        return None;
    }
    let mut acc: u64 = 0;
    let mut i: usize = start;
    while i < cs.len()
        invariant
            d == cs@.subrange(start as int, cs@.len() as int),
            start < cs@.len(),
            start <= i <= cs@.len(),
            forall|j: int| start <= j < i ==> '0' <= #[trigger] cs@[j] <= '9',
            acc == digits_value(d.take(i - start)),
            acc <= max,
        decreases cs.len() - i,
    {
        let c = cs[i];
        proof {
            assert(d.take(i - start + 1).drop_last() =~= d.take(i - start));
            assert(d.take(i - start + 1).last() == c);
        }
        if !('0' <= c && c <= '9') {
            assert(d[i - start] == c);
            assert(!all_digits(d));
            return None;
        }
        let digit = (c as u32 - '0' as u32) as u64;
        assert(c as int - '0' as int == digit);
        assert(digits_value(d.take(i - start + 1)) == acc * 10 + digit);
        if digit > max || acc > (max - digit) / 10 {
            proof {
                assert(acc * 10 + digit > max) by (nonlinear_arith)
                    requires
                        digit > max || acc > (max - digit) / 10,
                        digit <= 9,
                        acc >= 0,
                ;
                if all_digits(d) {
                    lemma_digits_value_monotone(d, i - start + 1);
                }
            }
            return None;
        }
        assert(acc * 10 + digit <= max) by (nonlinear_arith)
            requires
                digit <= max,
                acc <= (max - digit) / 10,
        ;
        acc = acc * 10 + digit;
        i = i + 1;
    }
    proof {
        assert(d.take(i - start) =~= d);
        assert forall|j: int| 0 <= j < d.len() implies '0' <= #[trigger] d[j] <= '9' by {
            assert(d[j] == cs@[j + start]);
        }
    }
    Some(acc)
}

/// `text` read as an `i64`, as `str::parse::<i64>` reads it.
pub fn parse_i64_text(text: &str) -> (r: Option<i64>)
    ensures
        r == parse_i64(text@),
{
    let cs = chars_of(text);
    if cs.len() > 1 && cs[0] == '-' {
        assert(cs@.subrange(1, cs@.len() as int) =~= text@.drop_first());
        match digits_at_most(&cs, 1, 0x8000_0000_0000_0000) {
            Some(v) => {
                if v == 0x8000_0000_0000_0000 {
                    let ghost d = text@.drop_first();
                    assert(digits_value(d) == 0x8000_0000_0000_0000);
                    assert((0 - digits_value(d)) as i64 == i64::MIN);
                    assert(parse_i64(text@) == Some(i64::MIN));
                    Some(i64::MIN)
                } else {
                    let w: i64 = v as i64;
                    let n: i64 = 0 - w;
                    assert(parse_i64(text@) == Some(n));
                    Some(n)
                }
            },
            None => None,
        }
    } else {
        let start: usize = if cs.len() > 1 && cs[0] == '+' {
            1
        } else {
            0
        };
        assert(cs@.subrange(start as int, cs@.len() as int) =~= (if text@.len() > 1 && text@[0] == '+' {
            text@.drop_first()
        } else {
            text@
        }));
        match digits_at_most(&cs, start, 0x7fff_ffff_ffff_ffff) {
            Some(v) => {
                let ghost d = cs@.subrange(start as int, cs@.len() as int);
                assert(digits_value(d) == v);
                assert(digits_value(d) as i64 == v as i64);
                assert(parse_i64(text@) == Some(v as i64));
                Some(v as i64)
            },
            None => {
                assert(parse_i64(text@) is None);
                None
            },
        }
    }
}

/// The property that extra attribute `a` of an element of kind `kind` becomes.
fn extra_property(a: &TagAttribute, kind: ElementKind) -> (r: PropertyValue)
    ensures
        r == extra_value(*a, kind),
{
    if str_eq(a.key.as_str(), "value") {
        match kind {
            ElementKind::LiteralInteger => match parse_i64_text(a.value.as_str()) {
                Some(i) => PropertyValue::Integer(i),
                None => PropertyValue::String(a.value.clone()),
            },
            ElementKind::LiteralReal => match a.real_bits {
                Some(x) => PropertyValue::Real(x),
                None => PropertyValue::String(a.value.clone()),
            },
            ElementKind::LiteralBoolean => PropertyValue::Boolean(str_eq(a.value.as_str(), "true")),
            _ => PropertyValue::String(a.value.clone()),
        }
    } else {
        PropertyValue::String(a.value.clone())
    }
}

/// Store the extra attributes among `attrs`, in order, as properties of `e`.
fn add_extra_properties(e: &mut Element, attrs: &Vec<TagAttribute>)
    ensures
        *final(e) == (Element { properties: final(e).properties, ..*old(e) }),
        props_map(property_entries(final(e).properties)) == extra_props(props_map(property_entries(old(e).properties)), attrs@, old(e).kind),
        props_seq(property_entries(final(e).properties)) == extra_seq(props_seq(property_entries(old(e).properties)), attrs@, old(e).kind),
{
    let ghost m0 = props_map(property_entries(e.properties));
    let ghost s0 = props_seq(property_entries(e.properties));
    let ghost e0 = *e;
    let mut i: usize = 0;
    assert(attrs@.take(0) =~= Seq::<TagAttribute>::empty());
    while i < attrs.len()
        invariant
            i <= attrs@.len(),
            *e == (Element { properties: e.properties, ..e0 }),
            props_map(property_entries(e.properties)) == extra_props(m0, attrs@.take(i as int), e0.kind),
            props_seq(property_entries(e.properties)) == extra_seq(s0, attrs@.take(i as int), e0.kind),
        decreases attrs.len() - i,
    {
        assert(attrs@.take(i + 1).drop_last() =~= attrs@.take(i as int));
        let a = &attrs[i];
        if extra_key(a.key.as_str()) {
            let v = extra_property(a, e.kind);
            put_property(e, a.key.as_str(), v);
        }
        i = i + 1;
    }
    assert(attrs@.take(attrs@.len() as int) =~= attrs@);
}

/// The element that `tag` describes, under the ID `id` the tag gives,
/// owned by `parent`.
fn build_element(tag: &XmlTag, id: String, parent: Option<&String>) -> (e: Element)
    requires
        tag_id(tag.attributes@) == Some(id),
    ensures
        element_from_tag(e, *tag, match parent {
            Some(p) => Some(p@),
            None => None,
        }),
        e.id@ == id@,
{
    let a = &tag.attributes;
    let xmi_type = find_last_value(a, "xmi:type", "xsi:type");
    let kind = match &xmi_type {
        Some(t) => ElementKind::from_xmi_type(t.as_str()),
        None => ElementKind::from_xmi_type(tag.name.as_str()),
    };
    let mut element = Element::new(id, kind);
    assert(property_entries(element.properties) =~= Seq::<(String, PropertyValue)>::empty());
    assert(props_map(property_entries(element.properties)) =~= Map::<Seq<char>, PropertyValue>::empty());
    assert(props_seq(property_entries(element.properties)) =~= Seq::<(Seq<char>, PropertyValue)>::empty());
    if let Some(t) = &xmi_type {
        put_property(&mut element, "_xsi_type", PropertyValue::String(t.clone()));
        assert(props_seq(property_entries(element.properties)) =~= seq![("_xsi_type"@, PropertyValue::String(*t))]) by {
            reveal(prop_put);
        }
    }
    element.name = find_last_value(a, "name", "declaredName");
    element.qualified_name = find_last_value(a, "qualifiedName", "qualifiedName");
    element.short_name = find_last_value(a, "shortName", "declaredShortName");
    apply_first_flags(&mut element, a);
    apply_last_flags(&mut element, a);
    element.documentation = find_last_value(a, "body", "body");
    if let Some(h) = find_last_value(a, "href", "href") {
        put_property(&mut element, "href", PropertyValue::String(h));
    }
    add_extra_properties(&mut element, a);
    if let Some(p) = parent {
        element.owner = Some(ElementId(p.clone()));
    }
    element
}

// ============================================================================
// RESOLVING REFERENCES
// ============================================================================

/// The index of the first occurrence of `pat` in `s` at or after `i`, or -1.
pub open spec fn find_from(s: Seq<char>, pat: Seq<char>, i: int) -> int
    decreases s.len() + 1 - i,
{
    if i < 0 || i + pat.len() > s.len() {
        -1
    } else if s.subrange(i, i + pat.len()) == pat {
        i
    } else {
        find_from(s, pat, i + 1)
    }
}

/// The index of the first occurrence of `pat` in `s`, or -1.
pub open spec fn find_text(s: Seq<char>, pat: Seq<char>) -> int {
    find_from(s, pat, 0)
}

/// The first occurrence of `pat` in `cs`, as `find_text` gives it.
fn find_chars(cs: &Vec<char>, pat: &Vec<char>) -> (r: Option<usize>)
    ensures
        match r {
            Some(i) => find_text(cs@, pat@) == i && i + pat@.len() <= cs@.len(),
            None => find_text(cs@, pat@) == -1,
        },
{
    let n = cs.len();
    let m = pat.len();
    if m > n {
        assert(find_from(cs@, pat@, 0) == -1);
        return None;
    }
    let mut i: usize = 0;
    while i <= n - m
        invariant
            n == cs@.len(),
            m == pat@.len(),
            m <= n,
            i <= n - m + 1,
            find_text(cs@, pat@) == find_from(cs@, pat@, i as int),
        decreases n - i,
    {
        let mut j: usize = 0;
        let mut same = true;
        while j < m
            invariant
                n == cs@.len(),
                m == pat@.len(),
                i + m <= n,
                j <= m,
                same == (forall|k: int| 0 <= k < j ==> cs@[i + k] == pat@[k]),
            decreases m - j,
        {
            if cs[i + j] != pat[j] {
                same = false;
            }
            j = j + 1;
        }
        if same {
            assert(cs@.subrange(i as int, i + m) =~= pat@);
            return Some(i);
        } else {
            assert(cs@.subrange(i as int, i + m) != pat@) by {
                let k = choose|k: int| 0 <= k < m && cs@[i + k] != pat@[k];
                assert(cs@.subrange(i as int, i + m)[k] == cs@[i + k]);
            }
        }
        i = i + 1;
    }
    assert(find_from(cs@, pat@, i as int) == -1);
    None
}

/// The value of attribute `name` in an XML snippet: the text after the
/// first `name="` up to the next `"`.
pub open spec fn attr_value_in(xml: Seq<char>, name: Seq<char>) -> Option<Seq<char>> {
    let pat = name + "=\""@;
    let i = find_text(xml, pat);
    if i < 0 {
        None
    } else {
        let rest = xml.skip(i + pat.len());
        let j = find_text(rest, "\""@);
        if j < 0 {
            None
        } else {
            Some(rest.take(j))
        }
    }
}

/// The value of attribute `attr_name` in the XML snippet `xml`, as
/// `attr_value_in` gives it.
pub fn extract_attr_value(xml: &str, attr_name: &str) -> (r: Option<String>)
    ensures
        match r {
            Some(v) => attr_value_in(xml@, attr_name@) == Some(v@),
            None => attr_value_in(xml@, attr_name@) is None,
        },
{
    let cs = chars_of(xml);
    let mut pat = chars_of(attr_name);
    pat.push('=');
    pat.push('"');
    proof {
        reveal_strlit("=\"");
        assert(pat@ =~= attr_name@ + "=\""@);
    }
    let i = match find_chars(&cs, &pat) {
        Some(i) => i,
        None => return None,
    };
    let n = cs.len();
    let start = i + pat.len();
    let rest_s = string_of(&cs, start, n);
    let rest = chars_of(rest_s.as_str());
    assert(rest@ =~= xml@.skip(start as int));
    let quote: Vec<char> = vec!['"'];
    proof {
        reveal_strlit("\"");
        assert(quote@ =~= "\""@);
    }
    match find_chars(&rest, &quote) {
        Some(j) => {
            let v = string_of(&rest, 0, j);
            assert(v@ =~= rest@.take(j as int));
            Some(v)
        },
        None => None,
    }
}

/// The qualified name of the element with ID `element_id` in the XMI text
/// `content` of a file named `file_stem`: the file name and the element's
/// declared name (else its name), found within 500 characters of its
/// `xmi:id` attribute.
pub open spec fn referenced_name(content: Seq<char>, element_id: Seq<char>, file_stem: Seq<char>) -> Option<Seq<char>> {
    let pat = "xmi:id=\""@ + element_id + "\""@;
    let p = find_text(content, pat);
    if p < 0 {
        None
    } else {
        let end = if p + 500 < content.len() {
            p + 500
        } else {
            content.len() as int
        };
        let w = content.subrange(p, end);
        let name = match attr_value_in(w, "declaredName"@) {
            Some(n) => Some(n),
            None => attr_value_in(w, "name"@),
        };
        match name {
            Some(n) => Some(file_stem + "::"@ + n),
            None => None,
        }
    }
}

/// The qualified name that a reference to `element_id` in a file named
/// `file_stem` with the text `content` resolves to, as `referenced_name`
/// gives it.
pub fn resolve_referenced_name(content: &str, element_id: &str, file_stem: &str) -> (r: Option<String>)
    ensures
        match r {
            Some(v) => referenced_name(content@, element_id@, file_stem@) == Some(v@),
            None => referenced_name(content@, element_id@, file_stem@) is None,
        },
{
    let cs = chars_of(content);
    let mut pat = chars_of("xmi:id=\"");
    let idc = chars_of(element_id);
    let mut k: usize = 0;
    let ghost p0 = pat@;
    while k < idc.len()
        invariant
            k <= idc@.len(),
            pat@ == p0 + idc@.take(k as int),
        decreases idc.len() - k,
    {
        pat.push(idc[k]);
        assert(idc@.take(k + 1) =~= idc@.take(k as int).push(idc@[k as int]));
        k = k + 1;
    }
    pat.push('"');
    proof {
        reveal_strlit("\"");
        assert(idc@.take(idc@.len() as int) =~= idc@);
        assert(pat@ =~= "xmi:id=\""@ + element_id@ + "\""@);
    }
    let p = match find_chars(&cs, &pat) {
        Some(p) => p,
        None => return None,
    };
    let n = cs.len();
    let end = if n - p > 500 {
        p + 500
    } else {
        n
    };
    let w = string_of(&cs, p, end);
    let name = match extract_attr_value(w.as_str(), "declaredName") {
        Some(v) => Some(v),
        None => extract_attr_value(w.as_str(), "name"),
    };
    match name {
        Some(v) => {
            let mut out = String::from_str(file_stem);
            push_char(&mut out, ':');
            push_char(&mut out, ':');
            let vc = chars_of(v.as_str());
            let mut i: usize = 0;
            let ghost o0 = out@;
            while i < vc.len()
                invariant
                    i <= vc@.len(),
                    out@ == o0 + vc@.take(i as int),
                decreases vc.len() - i,
            {
                push_char(&mut out, vc[i]);
                assert(vc@.take(i + 1) =~= vc@.take(i as int).push(vc@[i as int]));
                i = i + 1;
            }
            proof {
                reveal_strlit("::");
                assert(vc@.take(vc@.len() as int) =~= vc@);
                assert(out@ =~= file_stem@ + "::"@ + v@);
            }
            Some(out)
        },
        None => None,
    }
}

/// The path, with `%20` read as a space, and the element ID of a reference
/// `path#id`; none without `#`.
pub open spec fn href_parts(h: Seq<char>) -> Option<(Seq<char>, Seq<char>)> {
    let hash = last_index_of(h, '#');
    if hash < 0 {
        None
    } else {
        Some((decode_spaces(h.take(hash)), h.skip(hash + 1)))
    }
}

/// The path and element ID of a reference, as `href_parts` gives them.
pub fn split_href(href: &str) -> (r: Option<(String, String)>)
    ensures
        match r {
            Some((p, id)) => href_parts(href@) == Some((p@, id@)),
            None => href_parts(href@) is None,
        },
{
    let cs = chars_of(href);
    let hash = match last_position(&cs, '#') {
        Some(i) => i,
        None => return None,
    };
    let head = string_of(&cs, 0, hash);
    let head_chars = chars_of(head.as_str());
    assert(head_chars@ =~= href@.take(hash as int));
    let path = decode_space_escapes(&head_chars);
    let n = path.len();
    let p = string_of(&path, 0, n);
    assert(p@ =~= path@);
    let m = cs.len();
    let id = string_of(&cs, hash + 1, m);
    Some((p, id))
}

// ============================================================================
// READER STATE
// ============================================================================

/// What an open tag stands for while its content is read.
#[derive(Clone, Copy, Debug, PartialEq, Eq, Structural)]
pub enum StackEntry {
    /// The XMI document wrapper.
    Root,
    /// A wrapper or reference tag that is not an element.
    Containment,
    /// An element, whose ID is on the parent stack.
    Element,
}

/// XMI document reader.
pub struct XmiReader {
    /// Elements by ID, in the order they were read.
    pub elements_by_id: IndexMap<ElementId, Element>,
    /// The IDs of the open elements, innermost last.
    pub parent_stack: Vec<String>,
    /// What each open tag stands for, innermost last.
    pub depth_stack: Vec<StackEntry>,
    /// Relationships found: ID, kind, source and target.
    pub relationships: Vec<(String, ElementKind, String, String)>,
    /// The children of each parent, in the order they were read.
    pub children_in_order: IndexMap<String, Vec<String>>,
    /// Names resolved for `href` references: reference, qualified name.
    pub href_name_cache: Vec<(String, String)>,
    /// Relationships with a source and no target yet: ID, source, kind.
    pub pending_rel_sources: Vec<(String, String, ElementKind)>,
    /// Namespace declarations of the document: prefix, URI.
    pub declared_namespaces: Vec<(String, String)>,
}

/// The state of a reader, by the characters of its texts.
pub ghost struct ReaderView {
    pub elements: Seq<(ElementId, Element)>,
    pub parents: Seq<Seq<char>>,
    pub depth: Seq<StackEntry>,
    pub relationships: Seq<(Seq<char>, ElementKind, Seq<char>, Seq<char>)>,
    pub children: Seq<(Seq<char>, Seq<Seq<char>>)>,
    pub cache: Seq<(Seq<char>, Seq<char>)>,
    pub pending: Seq<(Seq<char>, Seq<char>, ElementKind)>,
    pub namespaces: Seq<(Seq<char>, Seq<char>)>,
}

/// The texts of a list of strings.
pub open spec fn texts(ss: Seq<String>) -> Seq<Seq<char>> {
    ss.map_values(|s: String| s@)
}

/// The texts of a list of string pairs.
pub open spec fn pair_texts(ss: Seq<(String, String)>) -> Seq<(Seq<char>, Seq<char>)> {
    ss.map_values(|p: (String, String)| (p.0@, p.1@))
}

/// The texts of a list of relationships.
pub open spec fn relationship_texts(rs: Seq<(String, ElementKind, String, String)>) -> Seq<(Seq<char>, ElementKind, Seq<char>, Seq<char>)> {
    rs.map_values(|r: (String, ElementKind, String, String)| (r.0@, r.1, r.2@, r.3@))
}

/// The texts of a list of pending relationship sources.
pub open spec fn pending_texts(ps: Seq<(String, String, ElementKind)>) -> Seq<(Seq<char>, Seq<char>, ElementKind)> {
    ps.map_values(|p: (String, String, ElementKind)| (p.0@, p.1@, p.2))
}

/// The texts of the children lists.
pub open spec fn children_texts(cs: Seq<(String, Vec<String>)>) -> Seq<(Seq<char>, Seq<Seq<char>>)> {
    cs.map_values(|c: (String, Vec<String>)| (c.0@, texts(c.1@)))
}

impl View for XmiReader {
    type V = ReaderView;

    open spec fn view(&self) -> ReaderView {
        ReaderView {
            elements: element_entries(self.elements_by_id),
            parents: texts(self.parent_stack@),
            depth: self.depth_stack@,
            relationships: relationship_texts(self.relationships@),
            children: children_texts(children_entries(self.children_in_order)),
            cache: pair_texts(self.href_name_cache@),
            pending: pending_texts(self.pending_rel_sources@),
            namespaces: pair_texts(self.declared_namespaces@),
        }
    }
}

/// The index of the first item whose key, as `key` gives it, is `k`; -1
/// when there is none.
pub open spec fn key_index<T>(s: Seq<T>, key: spec_fn(T) -> Seq<char>, k: Seq<char>) -> int
    decreases s.len(),
{
    if s.len() == 0 {
        -1
    } else {
        let j = key_index(s.drop_last(), key, k);
        if j >= 0 {
            j
        } else if key(s.last()) == k {
            s.len() - 1
        } else {
            -1
        }
    }
}

/// `key_index` gives the first matching item, and -1 exactly when none matches.
pub proof fn lemma_key_index<T>(s: Seq<T>, key: spec_fn(T) -> Seq<char>, k: Seq<char>)
    ensures
        -1 <= key_index(s, key, k) < s.len(),
        key_index(s, key, k) >= 0 ==> key(s[key_index(s, key, k)]) == k,
        forall|i: int| 0 <= i < key_index(s, key, k) ==> key(#[trigger] s[i]) != k,
        key_index(s, key, k) == -1 <==> forall|i: int| 0 <= i < s.len() ==> key(#[trigger] s[i]) != k,
    decreases s.len(),
{
    if s.len() > 0 {
        lemma_key_index(s.drop_last(), key, k);
        assert forall|i: int| 0 <= i < s.len() - 1 implies s.drop_last()[i] == s[i] by {}
    }
}

/// The value stored with key `k` in a list of pairs.
pub open spec fn pair_get(s: Seq<(Seq<char>, Seq<char>)>, k: Seq<char>) -> Option<Seq<char>> {
    let i = key_index(s, |p: (Seq<char>, Seq<char>)| p.0, k);
    if i >= 0 {
        Some(s[i].1)
    } else {
        None
    }
}

/// The list of pairs with `v` stored under `k`, as a map stores it: in
/// place of the pair with that key, otherwise added last.
pub open spec fn pair_put(s: Seq<(Seq<char>, Seq<char>)>, k: Seq<char>, v: Seq<char>) -> Seq<(Seq<char>, Seq<char>)> {
    let i = key_index(s, |p: (Seq<char>, Seq<char>)| p.0, k);
    if i >= 0 {
        s.update(i, (k, v))
    } else {
        s.push((k, v))
    }
}

/// The namespace declarations `ns` after those among `attrs`
/// (`xmlns:prefix="uri"`) are stored in order.
pub open spec fn capture_namespaces(ns: Seq<(Seq<char>, Seq<char>)>, attrs: Seq<TagAttribute>) -> Seq<(Seq<char>, Seq<char>)>
    decreases attrs.len(),
{
    if attrs.len() == 0 {
        ns
    } else {
        let n1 = capture_namespaces(ns, attrs.drop_last());
        let a = attrs.last();
        if has_prefix(a.key@, "xmlns:"@) {
            pair_put(n1, a.key@.skip(6), a.value@)
        } else {
            n1
        }
    }
}

/// The children lists with `child` added last under `parent`, the list
/// added last when `parent` has none.
pub open spec fn children_put(c: Seq<(Seq<char>, Seq<Seq<char>>)>, parent: Seq<char>, child: Seq<char>) -> Seq<(Seq<char>, Seq<Seq<char>>)> {
    let i = key_index(c, |x: (Seq<char>, Seq<Seq<char>>)| x.0, parent);
    if i >= 0 {
        c.update(i, (c[i].0, c[i].1.push(child)))
    } else {
        c.push((parent, seq![child]))
    }
}

/// The pending sources with `(id, src, kind)` stored under `id`.
pub open spec fn pending_put(p: Seq<(Seq<char>, Seq<char>, ElementKind)>, id: Seq<char>, src: Seq<char>, kind: ElementKind) -> Seq<(Seq<char>, Seq<char>, ElementKind)> {
    let i = key_index(p, |x: (Seq<char>, Seq<char>, ElementKind)| x.0, id);
    if i >= 0 {
        p.update(i, (id, src, kind))
    } else {
        p.push((id, src, kind))
    }
}

/// The index of the pending source stored under `id`, or -1.
pub open spec fn pending_index(p: Seq<(Seq<char>, Seq<char>, ElementKind)>, id: Seq<char>) -> int {
    key_index(p, |x: (Seq<char>, Seq<char>, ElementKind)| x.0, id)
}

/// Whether `tag` names a wrapper of members or references that is not an
/// element itself.
pub open spec fn is_containment_tag(tag: Seq<char>) -> bool {
    tag == "ownedMember"@
        || tag == "ownedFeature"@
        || tag == "ownedElement"@
        || tag == "ownedImport"@
        || tag == "member"@
        || tag == "feature"@
        || tag == "ownedSpecialization"@
        || tag == "ownedSubsetting"@
        || tag == "ownedRedefinition"@
        || tag == "ownedTyping"@
        || tag == "importedMembership"@
        || tag == "superclassifier"@
        || tag == "redefinedFeature"@
        || tag == "subsettedFeature"@
}

/// The index of the last occurrence of `c` in `s`, or -1.
pub open spec fn last_index_of(s: Seq<char>, c: char) -> int
    decreases s.len(),
{
    if s.len() == 0 {
        -1
    } else if s.last() == c {
        s.len() - 1
    } else {
        last_index_of(s.drop_last(), c)
    }
}

/// The text after the last `#` of `h`, all of it when there is none.
pub open spec fn after_last_hash(h: Seq<char>) -> Seq<char> {
    h.skip(last_index_of(h, '#') + 1)
}

/// `s` with each `%20`, from left to right, replaced by a space.
pub open spec fn decode_spaces(s: Seq<char>) -> Seq<char>
    decreases s.len(),
{
    if s.len() == 0 {
        s
    } else if s.len() >= 3 && s[0] == '%' && s[1] == '2' && s[2] == '0' {
        seq![' '] + decode_spaces(s.skip(3))
    } else {
        seq![s[0]] + decode_spaces(s.skip(1))
    }
}

/// The file name, without its extension, of the path before the last `#`
/// of an `href`, with `%20` read as a space; none when there is no `#` or
/// the file name has no extension.
pub open spec fn href_file_name(h: Seq<char>) -> Option<Seq<char>> {
    let hash = last_index_of(h, '#');
    if hash < 0 {
        None
    } else {
        let path = decode_spaces(h.take(hash));
        let slash = last_index_of(path, '/');
        if slash >= 0 {
            let file = path.skip(slash + 1);
            let dot = last_index_of(file, '.');
            if dot >= 0 {
                Some(file.take(dot))
            } else {
                None
            }
        } else {
            let dot = last_index_of(path, '.');
            if dot >= 0 {
                Some(path.take(dot))
            } else {
                None
            }
        }
    }
}

/// The value of the last attribute whose key satisfies `p`.
pub open spec fn last_where(attrs: Seq<TagAttribute>, p: spec_fn(Seq<char>) -> bool) -> Option<String>
    decreases attrs.len(),
{
    if attrs.len() == 0 {
        None
    } else if p(attrs.last().key@) {
        Some(attrs.last().value)
    } else {
        last_where(attrs.drop_last(), p)
    }
}

/// The source endpoint a tag gives.
pub open spec fn source_ref(attrs: Seq<TagAttribute>) -> Option<String> {
    last_where(attrs, |k: Seq<char>| is_source_alias(k))
}

/// The target endpoint a tag gives.
pub open spec fn target_ref(attrs: Seq<TagAttribute>) -> Option<String> {
    last_where(attrs, |k: Seq<char>| is_target_alias(k))
}

/// The innermost open element, if any.
pub open spec fn innermost(parents: Seq<Seq<char>>) -> Option<Seq<char>> {
    if parents.len() > 0 {
        Some(parents.last())
    } else {
        None
    }
}

/// The namespaces after start tag `tag`: the first tag of the document
/// declares them.
pub open spec fn namespaces_after(r: ReaderView, tag: XmlTag) -> Seq<(Seq<char>, Seq<char>)> {
    if r.depth.len() == 0 {
        capture_namespaces(r.namespaces, tag.attributes@)
    } else {
        r.namespaces
    }
}

/// Whether a tag is the XMI document wrapper.
pub open spec fn is_document_tag(name: Seq<char>) -> bool {
    name == "xmi:XMI"@ || name == "XMI"@
}

/// Whether a tag is a wrapper of members: a containment tag that is not a
/// reference.
pub open spec fn is_wrapper_tag(tag: XmlTag) -> bool {
    is_containment_tag(tag.name@) && tag.name@ != "ownedRelationship"@ && tag.name@ != "ownedRelatedElement"@
        && !has_key(tag.attributes@, "href"@)
}

/// `r0` with `entry` opened and the namespaces `ns`.
pub open spec fn opened(r0: ReaderView, entry: StackEntry, ns: Seq<(Seq<char>, Seq<char>)>) -> ReaderView {
    ReaderView { depth: r0.depth.push(entry), namespaces: ns, ..r0 }
}

/// The relationships and pending sources after the element `id` of kind
/// `kind`, read from attributes `a` inside `parent`, is read: a
/// relationship whose source (given, else the parent) and target are
/// known is recorded, one with only a given source waits for its target.
pub open spec fn relationship_after(
    r0: ReaderView,
    a: Seq<TagAttribute>,
    id: Seq<char>,
    kind: ElementKind,
    parent: Option<Seq<char>>,
) -> (Seq<(Seq<char>, ElementKind, Seq<char>, Seq<char>)>, Seq<(Seq<char>, Seq<char>, ElementKind)>) {
    let src = match source_ref(a) {
        Some(s) => Some(s@),
        None => parent,
    };
    if kind.spec_is_relationship() {
        if src is Some && target_ref(a) is Some {
            (r0.relationships.push((id, kind, src.unwrap(), target_ref(a).unwrap()@)), r0.pending)
        } else if source_ref(a) is Some {
            (r0.relationships, pending_put(r0.pending, id, source_ref(a).unwrap()@, kind))
        } else {
            (r0.relationships, r0.pending)
        }
    } else {
        (r0.relationships, r0.pending)
    }
}

/// How the start tag of an element with ID `id` changes the reader: the
/// element is stored, becomes the innermost open element and a child of
/// the one before, and its relationship is recorded.
pub open spec fn element_tag_step(r0: ReaderView, r1: ReaderView, tag: XmlTag, id: Seq<char>, ns: Seq<(Seq<char>, Seq<char>)>) -> bool {
    let parent = innermost(r0.parents);
    let rp = relationship_after(r0, tag.attributes@, id, tag_kind(tag), parent);
    &&& exists|e: Element| element_from_tag(e, tag, parent) && e.id@ == id && r1.elements == #[trigger] put_entry(r0.elements, e.id, e)
    &&& r1.parents == r0.parents.push(id)
    &&& r1.depth == r0.depth.push(StackEntry::Element)
    &&& r1.children == (match parent {
        Some(p) => children_put(r0.children, p, id),
        None => r0.children,
    })
    &&& r1.relationships == rp.0
    &&& r1.pending == rp.1
    &&& r1.cache == r0.cache
    &&& r1.namespaces == ns
}

/// The name a reference resolves to: the name found for it, else the
/// referenced file's name.
pub open spec fn href_name(r: ReaderView, h: Seq<char>) -> Option<Seq<char>> {
    match pair_get(r.cache, h) {
        Some(n) => Some(n),
        None => href_file_name(h),
    }
}

/// The properties `m` with the reference `h` of a tag named `name`, of
/// type `ty`, recorded.
pub open spec fn href_props(m: Map<Seq<char>, PropertyValue>, h: String, name: String, ty: Option<String>) -> Map<Seq<char>, PropertyValue> {
    let m1 = m.insert("href"@, PropertyValue::String(h)).insert("_href_tag"@, PropertyValue::String(name));
    match ty {
        Some(t) => m1.insert("_href_xsi_type"@, PropertyValue::String(t)),
        None => m1,
    }
}

/// Whether `e1` is `e0` with the reference tag `tag`, whose reference is
/// `h` and resolves to `target_name`, recorded in its properties.
pub open spec fn href_recorded(e0: Element, e1: Element, tag: XmlTag, h: String, target_name: Option<Seq<char>>) -> bool {
    let m0 = props_map(property_entries(e0.properties));
    let ty = tag_type(tag.attributes@);
    &&& e1 == (Element { properties: e1.properties, ..e0 })
    &&& match target_name {
        Some(n) => exists|x: String| x@ == n && props_map(property_entries(e1.properties)) == #[trigger] href_props(
            m0.insert("href_target_name"@, PropertyValue::String(x)),
            h,
            tag.name,
            ty,
        ),
        None => props_map(property_entries(e1.properties)) == href_props(m0, h, tag.name, ty),
    }
}

/// How a reference tag (no ID, reference `h`) changes the reader: the
/// innermost open element records the reference, and a relationship
/// waiting for its target takes the referenced ID as target.
pub open spec fn href_tag_step(r0: ReaderView, r1: ReaderView, tag: XmlTag, h: String, ns: Seq<(Seq<char>, Seq<char>)>) -> bool {
    &&& r1.depth == r0.depth.push(StackEntry::Containment)
    &&& r1.parents == r0.parents
    &&& r1.children == r0.children
    &&& r1.cache == r0.cache
    &&& r1.namespaces == ns
    &&& match innermost(r0.parents) {
        None => r1.elements == r0.elements && r1.relationships == r0.relationships && r1.pending == r0.pending,
        Some(p) => {
            &&& ({
                let i = find_key(r0.elements, p);
                if i >= 0 {
                    r1.elements.len() == r0.elements.len() && r1.elements == r0.elements.update(i, (r0.elements[i].0, r1.elements[i].1))
                        && href_recorded(r0.elements[i].1, r1.elements[i].1, tag, h, href_name(r0, h@))
                } else {
                    r1.elements == r0.elements
                }
            })
            &&& ({
                let j = pending_index(r0.pending, p);
                if j >= 0 {
                    &&& r1.relationships == r0.relationships.push((p, r0.pending[j].2, r0.pending[j].1, after_last_hash(h@)))
                    &&& r1.pending == r0.pending.remove(j)
                } else {
                    r1.relationships == r0.relationships && r1.pending == r0.pending
                }
            })
        },
    }
}

/// How a start tag changes the reader.
pub open spec fn start_step(r0: ReaderView, r1: ReaderView, tag: XmlTag) -> bool {
    let ns = namespaces_after(r0, tag);
    if is_document_tag(tag.name@) {
        r1 == opened(r0, StackEntry::Root, ns)
    } else if is_wrapper_tag(tag) {
        r1 == opened(r0, StackEntry::Containment, ns)
    } else {
        match tag_id(tag.attributes@) {
            Some(id) => element_tag_step(r0, r1, tag, id@, ns),
            None => match last_value(tag.attributes@, "href"@, "href"@) {
                Some(h) => href_tag_step(r0, r1, tag, h, ns),
                None => r1 == opened(r0, StackEntry::Containment, ns),
            },
        }
    }
}

/// The reader after an end tag: the innermost open tag is closed, and with
/// an element the innermost open element.
pub open spec fn end_view(r: ReaderView) -> ReaderView {
    if r.depth.len() == 0 {
        r
    } else if r.depth.last() == StackEntry::Element {
        ReaderView {
            depth: r.depth.drop_last(),
            parents: if r.parents.len() > 0 {
                r.parents.drop_last()
            } else {
                r.parents
            },
            ..r
        }
    } else {
        ReaderView { depth: r.depth.drop_last(), ..r }
    }
}

/// How a token changes the reader; an empty tag opens and closes.
pub open spec fn token_step(r0: ReaderView, r1: ReaderView, t: XmlToken) -> bool {
    match t {
        XmlToken::Start(tag) => start_step(r0, r1, tag),
        XmlToken::Empty(tag) => exists|m: ReaderView| #[trigger] start_step(r0, m, tag) && r1 == end_view(m),
        XmlToken::End => r1 == end_view(r0),
    }
}

/// Whether `states` are the states before and after each of `items`, one
/// `step` apart.
pub open spec fn is_trace<S, T>(states: Seq<S>, items: Seq<T>, step: spec_fn(S, S, T) -> bool) -> bool {
    &&& states.len() == items.len() + 1
    &&& forall|i: int| 0 <= i < items.len() ==> step(#[trigger] states[i], states[i + 1], items[i])
}

/// Whether taking `items` in order, one `step` each, leads from `s0` to `s1`.
pub open spec fn steps<S, T>(s0: S, s1: S, items: Seq<T>, step: spec_fn(S, S, T) -> bool) -> bool {
    exists|states: Seq<S>| is_trace(states, items, step) && states[0] == s0 && #[trigger] states.last() == s1
}

/// No items lead from a state to itself.
proof fn lemma_steps_none<S, T>(s0: S, step: spec_fn(S, S, T) -> bool)
    ensures
        steps(s0, s0, Seq::<T>::empty(), step),
{
    let states = seq![s0];
    assert(is_trace(states, Seq::<T>::empty(), step));
    assert(states.last() == s0);
}

/// One more step extends a run of steps.
proof fn lemma_steps_push<S, T>(s0: S, s1: S, s2: S, items: Seq<T>, x: T, step: spec_fn(S, S, T) -> bool)
    requires
        steps(s0, s1, items, step),
        step(s1, s2, x),
    ensures
        steps(s0, s2, items.push(x), step),
{
    let states = choose|states: Seq<S>| is_trace(states, items, step) && states[0] == s0 && #[trigger] states.last() == s1;
    let t = states.push(s2);
    assert forall|i: int| 0 <= i < items.push(x).len() implies step(#[trigger] t[i], t[i + 1], items.push(x)[i]) by {
        if i < items.len() {
            assert(t[i] == states[i]);
            assert(t[i + 1] == states[i + 1]);
        } else {
            assert(t[i] == s1);
        }
    }
    assert(is_trace(t, items.push(x), step));
    assert(t.last() == s2);
}

/// Whether reading `toks` in order takes the reader from `r0` to `r1`.
pub open spec fn tokens_read(r0: ReaderView, r1: ReaderView, toks: Seq<XmlToken>) -> bool {
    steps(r0, r1, toks, |a: ReaderView, b: ReaderView, t: XmlToken| token_step(a, b, t))
}

/// The entries after each of `es`, in order, is added to `e0` under its ID.
pub open spec fn put_all(e0: Seq<(ElementId, Element)>, es: Seq<Element>) -> Seq<(ElementId, Element)>
    decreases es.len(),
{
    if es.len() == 0 {
        e0
    } else {
        put_entry(put_all(e0, es.drop_last()), es.last().id, es.last())
    }
}

/// The IDs of those of `es` that have no owner, in order.
pub open spec fn root_ids(es: Seq<Element>) -> Seq<ElementId>
    decreases es.len(),
{
    if es.len() == 0 {
        Seq::empty()
    } else if es.last().owner is None {
        root_ids(es.drop_last()).push(es.last().id)
    } else {
        root_ids(es.drop_last())
    }
}

/// Whether `x` is the relationship element made for a relationship found
/// only as an ID: of kind `kind`, from `src` to `tgt`, with nothing else.
pub open spec fn new_relationship_element(x: Element, id: Seq<char>, kind: ElementKind, src: Seq<char>, tgt: Seq<char>) -> bool {
    &&& x.id@ == id
    &&& x.kind == kind
    &&& x.owner is None
    &&& x.relationship matches Some(d) && id_views(d.source@) == seq![src] && id_views(d.target@) == seq![tgt]
    &&& (Element { relationship: None, ..x }).is_fresh()
}

/// How a relationship found by the reader enters the model's entries: the
/// element with its ID takes it as its relationship data, or a new
/// relationship element is added last.
pub open spec fn relationship_step(
    e0: Seq<(ElementId, Element)>,
    e1: Seq<(ElementId, Element)>,
    rel: (Seq<char>, ElementKind, Seq<char>, Seq<char>),
) -> bool {
    let i = find_key(e0, rel.0);
    if i >= 0 {
        &&& e1.len() == e0.len()
        &&& e1 == e0.update(i, (e0[i].0, e1[i].1))
        &&& e1[i].1 == (Element { relationship: e1[i].1.relationship, ..e0[i].1 })
        &&& e1[i].1.relationship matches Some(d) && id_views(d.source@) == seq![rel.2] && id_views(d.target@)
            == seq![rel.3]
    } else {
        &&& e1.len() == e0.len() + 1
        &&& e1.drop_last() == e0
        &&& e1.last().0@ == rel.0
        &&& new_relationship_element(e1.last().1, rel.0, rel.1, rel.2, rel.3)
    }
}

/// How the children recorded for a parent enter the model's entries: the
/// parent, if present, lists them after its own.
pub open spec fn children_step(
    e0: Seq<(ElementId, Element)>,
    e1: Seq<(ElementId, Element)>,
    c: (Seq<char>, Seq<Seq<char>>),
) -> bool {
    let i = find_key(e0, c.0);
    if i >= 0 {
        &&& e1.len() == e0.len()
        &&& e1 == e0.update(i, (e0[i].0, e1[i].1))
        &&& e1[i].1 == (Element { owned_elements: e1[i].1.owned_elements, ..e0[i].1 })
        &&& id_views(e1[i].1.owned_elements@) == id_views(e0[i].1.owned_elements@) + c.1
    } else {
        e1 == e0
    }
}

/// `relationship_step` as a step function.
pub open spec fn relationship_steps() -> spec_fn(Seq<(ElementId, Element)>, Seq<(ElementId, Element)>, (Seq<char>, ElementKind, Seq<char>, Seq<char>)) -> bool {
    |a: Seq<(ElementId, Element)>, b: Seq<(ElementId, Element)>, x: (Seq<char>, ElementKind, Seq<char>, Seq<char>)|
        relationship_step(a, b, x)
}

/// `children_step` as a step function.
pub open spec fn children_steps() -> spec_fn(Seq<(ElementId, Element)>, Seq<(ElementId, Element)>, (Seq<char>, Seq<Seq<char>>)) -> bool {
    |a: Seq<(ElementId, Element)>, b: Seq<(ElementId, Element)>, x: (Seq<char>, Seq<Seq<char>>)| children_step(a, b, x)
}

/// Whether `m` is the model built from what the reader `r` has read: its
/// elements added in order, then its relationships recorded, then the
/// children of each parent listed, with the document's namespaces.
pub open spec fn built_model(r: ReaderView, m: Model) -> bool {
    let values = r.elements.map_values(|p: (ElementId, Element)| p.1);
    &&& exists|e2: Seq<(ElementId, Element)>|
        steps(
            put_all(Seq::empty(), values),
            e2,
            r.relationships,
            relationship_steps(),
        ) && #[trigger] steps(
            e2,
            m.entries(),
            r.children,
            children_steps(),
        )
    &&& m.roots@ == root_ids(values)
    &&& pair_texts(m.metadata.declared_namespaces@) == r.namespaces
    &&& m.metadata.name is None && m.metadata.version is None && m.metadata.description is None
    &&& m.metadata.uri is None && m.metadata.sysml_version is None && m.metadata.tool is None
    &&& m.metadata.created is None && m.metadata.modified is None
}

// ============================================================================
// READING TAGS
// ============================================================================

/// The source endpoint a tag gives.
fn find_source_ref(attrs: &Vec<TagAttribute>) -> (r: Option<String>)
    ensures
        r == source_ref(attrs@),
{
    let mut found: Option<String> = None;
    let mut i: usize = 0;
    assert(attrs@.take(0) =~= Seq::<TagAttribute>::empty());
    while i < attrs.len()
        invariant
            i <= attrs@.len(),
            found == source_ref(attrs@.take(i as int)),
        decreases attrs.len() - i,
    {
        assert(attrs@.take(i + 1).drop_last() =~= attrs@.take(i as int));
        if source_alias(attrs[i].key.as_str()) {
            found = Some(attrs[i].value.clone());
        }
        i = i + 1;
    }
    assert(attrs@.take(attrs@.len() as int) =~= attrs@);
    found
}

/// The target endpoint a tag gives.
fn find_target_ref(attrs: &Vec<TagAttribute>) -> (r: Option<String>)
    ensures
        r == target_ref(attrs@),
{
    let mut found: Option<String> = None;
    let mut i: usize = 0;
    assert(attrs@.take(0) =~= Seq::<TagAttribute>::empty());
    while i < attrs.len()
        invariant
            i <= attrs@.len(),
            found == target_ref(attrs@.take(i as int)),
        decreases attrs.len() - i,
    {
        assert(attrs@.take(i + 1).drop_last() =~= attrs@.take(i as int));
        if target_alias(attrs[i].key.as_str()) {
            found = Some(attrs[i].value.clone());
        }
        i = i + 1;
    }
    assert(attrs@.take(attrs@.len() as int) =~= attrs@);
    found
}

/// The position of the pair with key `k`, as `key_index` gives it.
fn pair_position(s: &Vec<(String, String)>, k: &str) -> (r: Option<usize>)
    ensures
        match r {
            Some(i) => key_index(pair_texts(s@), |p: (Seq<char>, Seq<char>)| p.0, k@) == i,
            None => key_index(pair_texts(s@), |p: (Seq<char>, Seq<char>)| p.0, k@) == -1,
        },
        r matches Some(i) ==> i < s@.len(),
{
    let ghost t = pair_texts(s@);
    let ghost key = |p: (Seq<char>, Seq<char>)| p.0;
    proof {
        lemma_key_index(t, key, k@);
    }
    let mut i: usize = 0;
    while i < s.len()
        invariant
            t == pair_texts(s@),
            key == (|p: (Seq<char>, Seq<char>)| p.0),
            i <= s@.len(),
            forall|j: int| 0 <= j < i ==> key(#[trigger] t[j]) != k@,
            -1 <= key_index(t, key, k@) < t.len(),
            key_index(t, key, k@) >= 0 ==> key(t[key_index(t, key, k@)]) == k@,
            forall|j: int| 0 <= j < key_index(t, key, k@) ==> key(#[trigger] t[j]) != k@,
            key_index(t, key, k@) == -1 <==> forall|j: int| 0 <= j < t.len() ==> key(#[trigger] t[j]) != k@,
        decreases s.len() - i,
    {
        if str_eq(s[i].0.as_str(), k) {
            assert(key(t[i as int]) == k@);
            return Some(i);
        }
        i = i + 1;
    }
    None
}

/// Store `v` under `k` in a list of pairs, as a map stores it.
fn pair_store(s: &mut Vec<(String, String)>, k: String, v: String)
    ensures
        pair_texts(final(s)@) == pair_put(pair_texts(old(s)@), k@, v@),
{
    match pair_position(s, k.as_str()) {
        Some(i) => {
            s.set(i, (k, v));
            assert(pair_texts(s@) =~= pair_put(pair_texts(old(s)@), k@, v@));
        },
        None => {
            s.push((k, v));
            assert(pair_texts(s@) =~= pair_put(pair_texts(old(s)@), k@, v@));
        },
    }
}

/// The position of the pending source stored under `id`.
fn pending_position(p: &Vec<(String, String, ElementKind)>, id: &str) -> (r: Option<usize>)
    ensures
        match r {
            Some(i) => pending_index(pending_texts(p@), id@) == i,
            None => pending_index(pending_texts(p@), id@) == -1,
        },
        r matches Some(i) ==> i < p@.len(),
{
    let ghost t = pending_texts(p@);
    let ghost key = |x: (Seq<char>, Seq<char>, ElementKind)| x.0;
    proof {
        lemma_key_index(t, key, id@);
    }
    let mut i: usize = 0;
    while i < p.len()
        invariant
            t == pending_texts(p@),
            key == (|x: (Seq<char>, Seq<char>, ElementKind)| x.0),
            i <= p@.len(),
            forall|j: int| 0 <= j < i ==> key(#[trigger] t[j]) != id@,
            -1 <= key_index(t, key, id@) < t.len(),
            key_index(t, key, id@) >= 0 ==> key(t[key_index(t, key, id@)]) == id@,
            forall|j: int| 0 <= j < key_index(t, key, id@) ==> key(#[trigger] t[j]) != id@,
            key_index(t, key, id@) == -1 <==> forall|j: int| 0 <= j < t.len() ==> key(#[trigger] t[j]) != id@,
        decreases p.len() - i,
    {
        if str_eq(p[i].0.as_str(), id) {
            assert(key(t[i as int]) == id@);
            return Some(i);
        }
        i = i + 1;
    }
    None
}

/// Store the pending source `(id, src, kind)` under `id`.
fn pending_store(p: &mut Vec<(String, String, ElementKind)>, id: String, src: String, kind: ElementKind)
    ensures
        pending_texts(final(p)@) == pending_put(pending_texts(old(p)@), id@, src@, kind),
{
    match pending_position(p, id.as_str()) {
        Some(i) => {
            p.set(i, (id, src, kind));
            assert(pending_texts(p@) =~= pending_put(pending_texts(old(p)@), id@, src@, kind));
        },
        None => {
            p.push((id, src, kind));
            assert(pending_texts(p@) =~= pending_put(pending_texts(old(p)@), id@, src@, kind));
        },
    }
}

/// `find_key` over a list of entries is `key_index` over their key texts.
proof fn lemma_find_key_is_key_index<K: View<V = Seq<char>>, V, T>(
    s: Seq<(K, V)>,
    t: Seq<T>,
    key: spec_fn(T) -> Seq<char>,
    k: Seq<char>,
)
    requires
        s.len() == t.len(),
        forall|i: int| 0 <= i < s.len() ==> key(#[trigger] t[i]) == s[i].0@,
    ensures
        find_key(s, k) == key_index(t, key, k),
    decreases s.len(),
{
    if s.len() > 0 {
        lemma_find_key_is_key_index(s.drop_last(), t.drop_last(), key, k);
        assert(key(t[t.len() - 1]) == s[s.len() - 1].0@);
    }
}

/// The characters `cs[from..to]` as a string.
fn string_of(cs: &Vec<char>, from: usize, to: usize) -> (r: String)
    requires
        from <= to <= cs@.len(),
    ensures
        r@ == cs@.subrange(from as int, to as int),
{
    let mut out = String::new();
    let mut i: usize = from;
    while i < to
        invariant
            from <= i <= to <= cs@.len(),
            out@ == cs@.subrange(from as int, i as int),
        decreases to - i,
    {
        push_char(&mut out, cs[i]);
        assert(cs@.subrange(from as int, i + 1) =~= cs@.subrange(from as int, i as int).push(cs@[i as int]));
        i = i + 1;
    }
    out
}

/// The index of the last `c` in `cs`, as `last_index_of` gives it.
fn last_position(cs: &Vec<char>, c: char) -> (r: Option<usize>)
    ensures
        match r {
            Some(i) => last_index_of(cs@, c) == i && i < cs@.len(),
            None => last_index_of(cs@, c) == -1,
        },
{
    let mut found: Option<usize> = None;
    let mut i: usize = 0;
    assert(cs@.take(0) =~= Seq::<char>::empty());
    while i < cs.len()
        invariant
            i <= cs@.len(),
            match found {
                Some(j) => last_index_of(cs@.take(i as int), c) == j && j < i,
                None => last_index_of(cs@.take(i as int), c) == -1,
            },
        decreases cs.len() - i,
    {
        assert(cs@.take(i + 1).drop_last() =~= cs@.take(i as int));
        if cs[i] == c {
            found = Some(i);
        }
        i = i + 1;
    }
    assert(cs@.take(cs@.len() as int) =~= cs@);
    found
}

/// `s` with each `%20`, from left to right, replaced by a space.
fn decode_space_escapes(cs: &Vec<char>) -> (r: Vec<char>)
    ensures
        r@ == decode_spaces(cs@),
{
    let mut out: Vec<char> = Vec::new();
    let mut i: usize = 0;
    assert(cs@.skip(0) =~= cs@);
    while i < cs.len()
        invariant
            i <= cs@.len(),
            decode_spaces(cs@) == out@ + decode_spaces(cs@.skip(i as int)),
        decreases cs.len() - i,
    {
        let ghost rest = cs@.skip(i as int);
        if cs.len() - i >= 3 && cs[i] == '%' && cs[i + 1] == '2' && cs[i + 2] == '0' {
            assert(rest.skip(3) =~= cs@.skip(i + 3));
            assert(decode_spaces(rest) == seq![' '] + decode_spaces(rest.skip(3)));
            out.push(' ');
            assert(decode_spaces(cs@) =~= out@ + decode_spaces(cs@.skip(i + 3)));
            i = i + 3;
        } else {
            assert(rest.skip(1) =~= cs@.skip(i + 1));
            assert(decode_spaces(rest) == seq![cs@[i as int]] + decode_spaces(rest.skip(1)));
            out.push(cs[i]);
            assert(decode_spaces(cs@) =~= out@ + decode_spaces(cs@.skip(i + 1)));
            i = i + 1;
        }
    }
    assert(cs@.skip(i as int) =~= Seq::<char>::empty());
    assert(out@ + Seq::<char>::empty() =~= out@);
    out
}

/// The text after the last `#` of `h`, all of it when there is none.
fn after_last_hash_text(h: &str) -> (r: String)
    ensures
        r@ == after_last_hash(h@),
{
    let cs = chars_of(h);
    match last_position(&cs, '#') {
        Some(i) => {
            let n = cs.len();
            string_of(&cs, i + 1, n)
        },
        None => string_of(&cs, 0, cs.len()),
    }
}

/// The file name, without its extension, that an `href` refers to, as
/// `href_file_name` gives it.
pub fn extract_name_from_href_path(href: &str) -> (r: Option<String>)
    ensures
        match r {
            Some(n) => href_file_name(href@) == Some(n@),
            None => href_file_name(href@) is None,
        },
{
    let cs = chars_of(href);
    let hash = match last_position(&cs, '#') {
        Some(i) => i,
        None => return None,
    };
    let head = string_of(&cs, 0, hash);
    let head_chars = chars_of(head.as_str());
    assert(head_chars@ =~= href@.take(hash as int));
    let path = decode_space_escapes(&head_chars);
    match last_position(&path, '/') {
        Some(slash) => {
            let n = path.len();
            let file = string_of(&path, slash + 1, n);
            let file_chars = chars_of(file.as_str());
            assert(file_chars@ =~= path@.skip(slash + 1));
            match last_position(&file_chars, '.') {
                Some(dot) => {
                    let r = string_of(&file_chars, 0, dot);
                    assert(r@ =~= file_chars@.take(dot as int));
                    Some(r)
                },
                None => None,
            }
        },
        None => match last_position(&path, '.') {
            Some(dot) => {
                let r = string_of(&path, 0, dot);
                assert(r@ =~= path@.take(dot as int));
                Some(r)
            },
            None => None,
        },
    }
}

/// Record in `e` the reference `href` of the tag `tag`, and the name it
/// resolves to, if any.
fn record_href(e: &mut Element, tag: &XmlTag, href: String, name: Option<String>)
    ensures
        href_recorded(*old(e), *final(e), *tag, href, match name {
            Some(n) => Some(n@),
            None => None,
        }),
{
    let ghost e0 = *e;
    let ghost m0 = props_map(property_entries(e0.properties));
    let ghost mut mn = m0;
    let ghost nv = name;
    if let Some(n) = name {
        put_property(e, "href_target_name", PropertyValue::String(n));
        proof {
            mn = m0.insert("href_target_name"@, PropertyValue::String(nv.unwrap()));
        }
    }
    put_property(e, "href", PropertyValue::String(href.clone()));
    put_property(e, "_href_tag", PropertyValue::String(tag.name.clone()));
    if let Some(t) = find_last_value(&tag.attributes, "xmi:type", "xsi:type") {
        put_property(e, "_href_xsi_type", PropertyValue::String(t));
    }
    assert(props_map(property_entries(e.properties)) == href_props(mn, href, tag.name, tag_type(tag.attributes@)));
}

/// Whether `tag` names a wrapper of members or references.
fn containment_tag(tag: &str) -> (r: bool)
    ensures
        r == is_containment_tag(tag@),
{
    str_eq(tag, "ownedMember")
        || str_eq(tag, "ownedFeature")
        || str_eq(tag, "ownedElement")
        || str_eq(tag, "ownedImport")
        || str_eq(tag, "member")
        || str_eq(tag, "feature")
        || str_eq(tag, "ownedSpecialization")
        || str_eq(tag, "ownedSubsetting")
        || str_eq(tag, "ownedRedefinition")
        || str_eq(tag, "ownedTyping")
        || str_eq(tag, "importedMembership")
        || str_eq(tag, "superclassifier")
        || str_eq(tag, "redefinedFeature")
        || str_eq(tag, "subsettedFeature")
}

/// The reader with nothing read.
pub open spec fn empty_view(cache: Seq<(Seq<char>, Seq<char>)>) -> ReaderView {
    ReaderView {
        elements: Seq::empty(),
        parents: Seq::empty(),
        depth: Seq::empty(),
        relationships: Seq::empty(),
        children: Seq::empty(),
        cache,
        pending: Seq::empty(),
        namespaces: Seq::empty(),
    }
}

impl XmiReader {
    /// A reader with nothing read.
    pub fn new() -> (r: Self)
        ensures
            r@ == empty_view(Seq::empty()),
    {
        let r = XmiReader {
            elements_by_id: element_map_new(),
            parent_stack: Vec::new(),
            depth_stack: Vec::new(),
            relationships: Vec::new(),
            children_in_order: children_map_new(),
            href_name_cache: Vec::new(),
            pending_rel_sources: Vec::new(),
            declared_namespaces: Vec::new(),
        };
        assert(r@.parents =~= Seq::<Seq<char>>::empty());
        assert(r@.relationships =~= Seq::<(Seq<char>, ElementKind, Seq<char>, Seq<char>)>::empty());
        assert(r@.children =~= Seq::<(Seq<char>, Seq<Seq<char>>)>::empty());
        assert(r@.cache =~= Seq::<(Seq<char>, Seq<char>)>::empty());
        assert(r@.pending =~= Seq::<(Seq<char>, Seq<char>, ElementKind)>::empty());
        assert(r@.namespaces =~= Seq::<(Seq<char>, Seq<char>)>::empty());
        assert(r@ =~= empty_view(Seq::empty()));
        r
    }

    /// Record the qualified name that the reference `href` resolves to;
    /// references are resolved from this record as they are read.
    pub fn cache_href_name(&mut self, href: String, name: String)
        ensures
            final(self)@ == (ReaderView { cache: pair_put(old(self)@.cache, href@, name@), ..old(self)@ }),
    {
        pair_store(&mut self.href_name_cache, href, name);
    }

    /// The qualified name recorded for the reference `href`.
    fn resolve_href_name(&self, href: &str) -> (r: Option<String>)
        ensures
            match r {
                Some(n) => pair_get(self@.cache, href@) == Some(n@),
                None => pair_get(self@.cache, href@) is None,
            },
    {
        match pair_position(&self.href_name_cache, href) {
            Some(i) => Some(self.href_name_cache[i].1.clone()),
            None => None,
        }
    }

    /// Store the namespace declarations among `attrs`.
    fn capture_namespace_declarations(&mut self, attrs: &Vec<TagAttribute>)
        ensures
            final(self)@ == (ReaderView { namespaces: capture_namespaces(old(self)@.namespaces, attrs@), ..old(self)@ }),
    {
        let ghost r0 = self@;
        let mut i: usize = 0;
        assert(attrs@.take(0) =~= Seq::<TagAttribute>::empty());
        while i < attrs.len()
            invariant
                i <= attrs@.len(),
                self@ == (ReaderView { namespaces: capture_namespaces(r0.namespaces, attrs@.take(i as int)), ..r0 }),
            decreases attrs.len() - i,
        {
            assert(attrs@.take(i + 1).drop_last() =~= attrs@.take(i as int));
            let k = attrs[i].key.as_str();
            if starts_with(k, "xmlns:") {
                proof {
                    reveal_strlit("xmlns:");
                }
                let n = k.unicode_len();
                let prefix = String::from_str(k.substring_char(6, n));
                pair_store(&mut self.declared_namespaces, prefix, attrs[i].value.clone());
            }
            i = i + 1;
        }
        assert(attrs@.take(attrs@.len() as int) =~= attrs@);
    }

    /// The innermost open element, if any.
    fn innermost_parent(&self) -> (r: Option<String>)
        ensures
            match r {
                Some(p) => innermost(self@.parents) == Some(p@),
                None => innermost(self@.parents) is None,
            },
    {
        let n = self.parent_stack.len();
        if n > 0 {
            Some(self.parent_stack[n - 1].clone())
        } else {
            None
        }
    }

    /// Read the start tag of an element whose ID is `id`.
    fn handle_element_tag(&mut self, tag: &XmlTag, id: String)
        requires
            tag_id(tag.attributes@) == Some(id),
        ensures
            element_tag_step(old(self)@, final(self)@, *tag, id@, old(self)@.namespaces),
    {
        let ghost r0 = self@;
        let parent = self.innermost_parent();
        let ghost pv: Option<Seq<char>> = innermost(r0.parents);
        let element = build_element(tag, id.clone(), parent.as_ref());
        let kind = element.kind;
        if let Some(p) = &parent {
            let ghost before = children_entries(self.children_in_order);
            proof {
                lemma_find_key_is_key_index(before, children_texts(before), |x: (Seq<char>, Seq<Seq<char>>)| x.0, p@);
            }
            children_map_push(&mut self.children_in_order, p.clone(), id.clone());
            proof {
                let after = children_entries(self.children_in_order);
                lemma_find_key(before, p@);
                let i = find_key(before, p@);
                if i >= 0 {
                    assert(texts(after[i].1@) =~= texts(before[i].1@).push(id@));
                    assert(children_texts(after) =~= children_put(children_texts(before), p@, id@));
                } else {
                    assert(after =~= before.push(after.last()));
                    assert(texts(after.last().1@) =~= seq![id@]);
                    assert(children_texts(after) =~= children_put(children_texts(before), p@, id@));
                }
            }
        }
        assert(self@.children == (match pv {
            Some(p) => children_put(r0.children, p, id@),
            None => r0.children,
        }));
        if kind.is_relationship() {
            let sref = find_source_ref(&tag.attributes);
            let tref = find_target_ref(&tag.attributes);
            let src: Option<String> = match &sref {
                Some(s) => Some(s.clone()),
                None => match &parent {
                    Some(p) => Some(p.clone()),
                    None => None,
                },
            };
            match (src, tref) {
                (Some(sv), Some(tv)) => {
                    let ghost before = self.relationships@;
                    self.relationships.push((id.clone(), kind, sv, tv));
                    assert(relationship_texts(self.relationships@) =~= relationship_texts(before).push(
                        (id@, kind, self.relationships@.last().2@, self.relationships@.last().3@),
                    ));
                },
                _ => {
                    if let Some(sv) = sref {
                        pending_store(&mut self.pending_rel_sources, id.clone(), sv, kind);
                    }
                },
            }
        }
        let key = element.id.clone();
        let ghost e = element;
        let _ = element_map_insert(&mut self.elements_by_id, key, element);
        let ghost pbefore = self.parent_stack@;
        self.parent_stack.push(id);
        assert(texts(self.parent_stack@) =~= texts(pbefore).push(e.id@));
        self.depth_stack.push(StackEntry::Element);
        assert(self@.elements == put_entry(r0.elements, e.id, e));
    }

    /// Take the relationship waiting for a target under `p`, if any, and
    /// record it with the target `target`.
    fn complete_pending(&mut self, p: String, target: String)
        ensures
            ({
                let r0 = old(self)@;
                let j = pending_index(r0.pending, p@);
                if j >= 0 {
                    &&& final(self)@.relationships == r0.relationships.push((p@, r0.pending[j].2, r0.pending[j].1, target@))
                    &&& final(self)@.pending == r0.pending.remove(j)
                } else {
                    final(self)@.relationships == r0.relationships && final(self)@.pending == r0.pending
                }
            }),
            final(self)@.elements == old(self)@.elements,
            final(self)@.parents == old(self)@.parents,
            final(self)@.depth == old(self)@.depth,
            final(self)@.children == old(self)@.children,
            final(self)@.cache == old(self)@.cache,
            final(self)@.namespaces == old(self)@.namespaces,
    {
        let ghost r0 = self@;
        match pending_position(&self.pending_rel_sources, p.as_str()) {
            Some(j) => {
                let (_, src, kind) = self.pending_rel_sources.remove(j);
                self.relationships.push((p, kind, src, target));
                assert(pending_texts(self.pending_rel_sources@) =~= r0.pending.remove(j as int));
                assert(relationship_texts(self.relationships@) =~= r0.relationships.push(
                    (p@, r0.pending[j as int].2, r0.pending[j as int].1, target@),
                ));
            },
            None => {},
        }
    }

    /// Read a reference tag, one without ID that refers to `href`.
    fn handle_href_tag(&mut self, tag: &XmlTag, href: String)
        ensures
            href_tag_step(old(self)@, final(self)@, *tag, href, old(self)@.namespaces),
    {
        let ghost r0 = self@;
        if let Some(p) = self.innermost_parent() {
            let target_id = after_last_hash_text(href.as_str());
            let name = match self.resolve_href_name(href.as_str()) {
                Some(n) => Some(n),
                None => extract_name_from_href_path(href.as_str()),
            };
            let pid = ElementId(p.clone());
            proof {
                lemma_find_key(r0.elements, p@);
            }
            match element_map_get_mut(&mut self.elements_by_id, &pid) {
                Some(pe) => {
                    record_href(pe, tag, href, name);
                },
                None => {},
            }
            let ghost r1 = self@;
            assert(r1.pending == r0.pending);
            assert(r1.relationships == r0.relationships);
            self.complete_pending(p, target_id);
        }
        self.depth_stack.push(StackEntry::Containment);
    }

    /// Read a start tag.
    fn handle_start_element(&mut self, tag: &XmlTag)
        ensures
            start_step(old(self)@, final(self)@, *tag),
    {
        if self.depth_stack.len() == 0 {
            self.capture_namespace_declarations(&tag.attributes);
        }
        let name = tag.name.as_str();
        if str_eq(name, "xmi:XMI") || str_eq(name, "XMI") {
            self.depth_stack.push(StackEntry::Root);
            return;
        }
        let has_href = any_key(&tag.attributes, "href");
        if containment_tag(name) && !str_eq(name, "ownedRelationship") && !str_eq(name, "ownedRelatedElement")
            && !has_href {
            self.depth_stack.push(StackEntry::Containment);
            return;
        }
        let id = match find_last_value(&tag.attributes, "xmi:id", "id") {
            Some(v) => Some(v),
            None => find_last_value(&tag.attributes, "elementId", "elementId"),
        };
        match id {
            Some(id) => self.handle_element_tag(tag, id),
            None => match find_last_value(&tag.attributes, "href", "href") {
                Some(h) => self.handle_href_tag(tag, h),
                None => self.depth_stack.push(StackEntry::Containment),
            },
        }
    }

    /// Read an end tag.
    fn handle_end_element(&mut self)
        ensures
            final(self)@ == end_view(old(self)@),
    {
        let ghost r0 = self@;
        if let Some(StackEntry::Element) = self.depth_stack.pop() {
            let ghost before = self.parent_stack@;
            let _ = self.parent_stack.pop();
            proof {
                if before.len() > 0 {
                    assert(texts(self.parent_stack@) =~= texts(before).drop_last());
                }
            }
        }
    }

    /// Record the relationships found in the model `m`.
    fn add_relationships(&self, m: &mut Model)
        ensures
            steps(
                old(m).entries(),
                final(m).entries(),
                self@.relationships,
                relationship_steps(),
            ),
            final(m).roots == old(m).roots,
            final(m).metadata == old(m).metadata,
    {
        let ghost step = relationship_steps();
        let ghost e0 = m.entries();
        let ghost rels = self@.relationships;
        proof {
            lemma_steps_none(e0, step);
            assert(rels.take(0) =~= Seq::<(Seq<char>, ElementKind, Seq<char>, Seq<char>)>::empty());
        }
        let mut k: usize = 0;
        while k < self.relationships.len()
            invariant
                rels == self@.relationships,
                step == relationship_steps(),
                k <= rels.len(),
                rels.len() == self.relationships@.len(),
                steps(e0, m.entries(), rels.take(k as int), step),
                m.roots == old(m).roots,
                m.metadata == old(m).metadata,
            decreases self.relationships.len() - k,
        {
            let ghost before = m.entries();
            let rel = &self.relationships[k];
            let eid = ElementId(rel.0.clone());
            proof {
                lemma_find_key(before, rel.0@);
            }
            match m.get_mut(&eid) {
                Some(el) => {
                    el.relationship = Some(RelationshipData::new(ElementId(rel.2.clone()), ElementId(rel.3.clone())));
                },
                None => {
                    let _ = m.add_rel(eid, rel.1, rel.2.clone(), rel.3.clone(), None);
                },
            }
            proof {
                assert(rels[k as int] == (rel.0@, rel.1, rel.2@, rel.3@));
                assert(relationship_step(before, m.entries(), rels[k as int]));
                lemma_steps_push(e0, before, m.entries(), rels.take(k as int), rels[k as int], step);
                assert(rels.take(k + 1) =~= rels.take(k as int).push(rels[k as int]));
            }
            k = k + 1;
        }
        assert(rels.take(rels.len() as int) =~= rels);
    }

    /// List the children recorded for each parent in the model `m`.
    fn add_children(&self, m: &mut Model)
        ensures
            steps(
                old(m).entries(),
                final(m).entries(),
                self@.children,
                children_steps(),
            ),
            final(m).roots == old(m).roots,
            final(m).metadata == old(m).metadata,
    {
        let ghost step = children_steps();
        let ghost e0 = m.entries();
        let ghost cs = self@.children;
        proof {
            lemma_steps_none(e0, step);
            assert(cs.take(0) =~= Seq::<(Seq<char>, Seq<Seq<char>>)>::empty());
        }
        let n = children_map_len(&self.children_in_order);
        let mut k: usize = 0;
        while k < n
            invariant
                cs == self@.children,
                step == children_steps(),
                n == cs.len(),
                k <= n,
                steps(e0, m.entries(), cs.take(k as int), step),
                m.roots == old(m).roots,
                m.metadata == old(m).metadata,
            decreases n - k,
        {
            let ghost before = m.entries();
            let (parent, kids) = match children_map_get_index(&self.children_in_order, k) {
                Some(pair) => pair,
                None => {
                    proof {
                        assert(false);
                    }
                    return;
                },
            };
            proof {
                lemma_find_key(before, parent@);
            }
            let pid = ElementId(parent.clone());
            match m.get_mut(&pid) {
                Some(owner) => {
                    let ghost o0 = *owner;
                    let mut j: usize = 0;
                    while j < kids.len()
                        invariant
                            j <= kids@.len(),
                            *owner == (Element { owned_elements: owner.owned_elements, ..o0 }),
                            id_views(owner.owned_elements@) == id_views(o0.owned_elements@) + texts(kids@).take(j as int),
                        decreases kids.len() - j,
                    {
                        let ghost ob = owner.owned_elements@;
                        owner.owned_elements.push(ElementId(kids[j].clone()));
                        assert(id_views(owner.owned_elements@) =~= id_views(ob).push(kids@[j as int]@));
                        assert(texts(kids@).take(j + 1) =~= texts(kids@).take(j as int).push(kids@[j as int]@));
                        j = j + 1;
                    }
                    assert(texts(kids@).take(kids@.len() as int) =~= texts(kids@));
                },
                None => {},
            }
            proof {
                assert(cs[k as int] == (parent@, texts(kids@)));
                assert(children_step(before, m.entries(), cs[k as int]));
                lemma_steps_push(e0, before, m.entries(), cs.take(k as int), cs[k as int], step);
                assert(cs.take(k + 1) =~= cs.take(k as int).push(cs[k as int]));
            }
            k = k + 1;
        }
        assert(cs.take(cs.len() as int) =~= cs);
    }

    /// Add the elements `values` to the model `m`, in order.
    fn add_elements(m: &mut Model, values: Vec<Element>)
        ensures
            final(m).entries() == put_all(old(m).entries(), values@),
            final(m).roots@ == old(m).roots@ + root_ids(values@),
            final(m).metadata == old(m).metadata,
    {
        let ghost vals = values@;
        let mut rest = values;
        let mut k: usize = 0;
        let n = rest.len();
        assert(vals.take(0) =~= Seq::<Element>::empty());
        assert(old(m).roots@ + Seq::<ElementId>::empty() =~= old(m).roots@);
        while rest.len() > 0
            invariant
                n == vals.len(),
                k <= n,
                rest@ == vals.skip(k as int),
                m.entries() == put_all(old(m).entries(), vals.take(k as int)),
                m.roots@ == old(m).roots@ + root_ids(vals.take(k as int)),
                m.metadata == old(m).metadata,
            decreases rest.len(),
        {
            let e = rest.remove(0);
            assert(e == vals[k as int]);
            assert(vals.take(k + 1).drop_last() =~= vals.take(k as int));
            assert(vals.take(k + 1).last() == e);
            let ghost before = m.roots@;
            let _ = m.add_element(e);
            assert(m.roots@ =~= old(m).roots@ + root_ids(vals.take(k + 1)));
            assert(rest@ =~= vals.skip(k + 1));
            k = k + 1;
        }
        assert(k == n);
        assert(vals.take(k as int) =~= vals);
    }

    /// Build the model from what has been read; the elements, relationships,
    /// children and namespaces move into it.
    fn build_model(&mut self) -> (m: Model)
        ensures
            built_model(old(self)@, m),
            final(self)@ == (ReaderView {
                elements: Seq::empty(),
                relationships: Seq::empty(),
                children: Seq::empty(),
                namespaces: Seq::empty(),
                ..old(self)@
            }),
    {
        let ghost r0 = self@;
        let mut model = Model::new();
        let mut namespaces: Vec<(String, String)> = Vec::new();
        std::mem::swap(&mut namespaces, &mut self.declared_namespaces);
        model.metadata.declared_namespaces = namespaces;
        let mut elements = element_map_new();
        std::mem::swap(&mut elements, &mut self.elements_by_id);
        let values = element_map_into_values(elements);
        let ghost vals = values@;
        assert(model.entries() =~= Seq::<(ElementId, Element)>::empty());
        Self::add_elements(&mut model, values);
        assert(model.roots@ =~= root_ids(vals));
        let ghost e1 = model.entries();
        self.add_relationships(&mut model);
        let ghost e2 = model.entries();
        self.add_children(&mut model);
        self.relationships = Vec::new();
        self.children_in_order = children_map_new();
        assert(vals == r0.elements.map_values(|p: (ElementId, Element)| p.1));
        assert(e1 == put_all(Seq::empty(), vals));
        assert(steps(e1, e2, r0.relationships, relationship_steps()));
        assert(steps(e2, model.entries(), r0.children, children_steps()));
        assert(pair_texts(model.metadata.declared_namespaces@) == r0.namespaces);
        assert(self@.relationships =~= Seq::<(Seq<char>, ElementKind, Seq<char>, Seq<char>)>::empty());
        assert(self@.children =~= Seq::<(Seq<char>, Seq<Seq<char>>)>::empty());
        assert(self@.namespaces =~= Seq::<(Seq<char>, Seq<char>)>::empty());
        model
    }

    /// Read the tokens of an XMI document and build the model they
    /// describe; what was read moves into the model.
    pub fn read_tokens(&mut self, tokens: &Vec<XmlToken>) -> (m: Model)
        ensures
            exists|r1: ReaderView| tokens_read(old(self)@, r1, tokens@) && #[trigger] built_model(r1, m),
    {
        let ghost step = |a: ReaderView, b: ReaderView, t: XmlToken| token_step(a, b, t);
        let ghost r0 = self@;
        proof {
            lemma_steps_none(r0, step);
            assert(tokens@.take(0) =~= Seq::<XmlToken>::empty());
        }
        let mut i: usize = 0;
        while i < tokens.len()
            invariant
                i <= tokens@.len(),
                step == (|a: ReaderView, b: ReaderView, t: XmlToken| token_step(a, b, t)),
                steps(r0, self@, tokens@.take(i as int), step),
            decreases tokens.len() - i,
        {
            let ghost before = self@;
            match &tokens[i] {
                XmlToken::Start(tag) => {
                    self.handle_start_element(tag);
                },
                XmlToken::Empty(tag) => {
                    self.handle_start_element(tag);
                    let ghost mid = self@;
                    self.handle_end_element();
                    assert(start_step(before, mid, *tag) && self@ == end_view(mid));
                },
                XmlToken::End => {
                    self.handle_end_element();
                },
            }
            proof {
                assert(token_step(before, self@, tokens@[i as int]));
                lemma_steps_push(r0, before, self@, tokens@.take(i as int), tokens@[i as int], step);
                assert(tokens@.take(i + 1) =~= tokens@.take(i as int).push(tokens@[i as int]));
            }
            i = i + 1;
        }
        assert(tokens@.take(tokens@.len() as int) =~= tokens@);
        let ghost r1 = self@;
        let m = self.build_model();
        assert(tokens_read(r0, r1, tokens@));
        m
    }
}

} // verus!
