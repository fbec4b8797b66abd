//! JSON-LD, the format of the OMG Systems Modeling API.

use vstd::prelude::*;
use vstd::utf8::valid_utf8;
use vstd::utf8::decode_utf8;
use crate::format::{
    concat_str, first_non_whitespace, first_non_whitespace_char, utf8_text, FormatCapability,
    InterchangeError, ModelFormat,
};
use crate::element_kind::ElementKind;
use crate::json::{
    as_bool, as_str, json_get, json_get_bool, json_get_ref, json_get_str, json_view, lemma_array_view,
    lemma_object_view, members_view, obj_get, obj_insert, put_member, ref_id, views_of, JsonValue,
    JsonView,
};
use crate::model::{
    derefs, id_views, lemma_find_key_same_keys, lemma_props_map_put, lemma_props_seq_put, lemma_put_from_insert, prop_put, props_seq,
    props_map, select, Element, ElementId, Model, PropertyValue, Visibility,
};
use crate::ordered_map::{
    element_map_get_index, element_map_len, find_key, lemma_find_key, property_entries,
    property_map_get_index, property_map_insert, property_map_len,
};
use crate::strings::str_eq;

verus! {

/// The JSON-LD format.
#[derive(Debug, Clone, Copy)]
pub struct JsonLd;

/// Reads models from JSON-LD documents.
#[derive(Debug)]
pub struct JsonLdReader;

impl JsonLdReader {
    /// A reader.
    pub fn new() -> (r: JsonLdReader) {
        JsonLdReader
    }
}

/// Whether the first character of `text` that is not white space opens a
/// JSON object or array.
pub open spec fn looks_like_json(text: Seq<char>) -> bool {
    first_non_whitespace(text) == Some('{') || first_non_whitespace(text) == Some('[')
}

impl ModelFormat for JsonLd {
    fn name(&self) -> (r: &'static str)
        ensures
            r@ == "JSON-LD"@,
    {
        "JSON-LD"
    }

    fn extensions(&self) -> (r: &'static [&'static str])
        ensures
            r@.len() == 2,
            r@[0]@ == "jsonld"@,
            r@[1]@ == "json"@,
    {
        &["jsonld", "json"]
    }

    fn mime_type(&self) -> (r: &'static str)
        ensures
            r@ == "application/ld+json"@,
    {
        "application/ld+json"
    }

    fn capabilities(&self) -> (r: FormatCapability)
        ensures
            r.read && r.write && r.streaming && r.lossless,
    {
        FormatCapability { read: true, write: true, streaming: true, lossless: true }
    }

    /// Accepts UTF-8 text whose first character that is not white space is
    /// `{` or `[`.
    fn validate(&self, input: &[u8]) -> (r: Result<(), InterchangeError>)
        ensures
            !valid_utf8(input@) ==> (r matches Err(InterchangeError::Json(m))
                && m@.len() >= 15 && m@.subrange(0, 15) == "Invalid UTF-8: "@),
            valid_utf8(input@) && looks_like_json(decode_utf8(input@)) ==> r is Ok,
            valid_utf8(input@) && !looks_like_json(decode_utf8(input@)) ==> (r matches Err(
                InterchangeError::Json(m)) && m@ == "Not valid JSON"@),
    {
        match utf8_text(input) {
            Err(e) => {
                let m = concat_str("Invalid UTF-8: ", &e);
                proof {
                    reveal_strlit("Invalid UTF-8: ");
                    assert(m@.subrange(0, 15) =~= "Invalid UTF-8: "@);
                }
                Err(InterchangeError::Json(m))
            },
            Ok(content) => {
                let first = first_non_whitespace_char(content);
                match first {
                    Some(c) => {
                        if c == '{' || c == '[' {
                            Ok(())
                        } else {
                            Err(InterchangeError::json("Not valid JSON"))
                        }
                    },
                    None => Err(InterchangeError::json("Not valid JSON")),
                }
            },
        }
    }
}

/// Whether member `k` of an element object is read into a field rather than a property.
pub open spec fn is_element_field_key(k: Seq<char>) -> bool {
    k == "@id"@
        || k == "@type"@
        || k == "@context"@
        || k == "name"@
        || k == "declaredName"@
        || k == "qualifiedName"@
        || k == "shortName"@
        || k == "declaredShortName"@
        || k == "isAbstract"@
        || k == "isVariation"@
        || k == "isDerived"@
        || k == "isReadOnly"@
        || k == "isParallel"@
        || k == "isIndividual"@
        || k == "isEnd"@
        || k == "isDefault"@
        || k == "isOrdered"@
        || k == "isNonunique"@
        || k == "isPortion"@
        || k == "documentation"@
        || k == "body"@
        || k == "owner"@
        || k == "ownedMember"@
        || k == "ownedRelationship"@
        || k == "ownedRelatedElement"@
}

/// Member `k` of an element object is read into a field.
fn element_field_key(k: &str) -> (r: bool)
    ensures
        r == is_element_field_key(k@),
{
    str_eq(k, "@id")
        || str_eq(k, "@type")
        || str_eq(k, "@context")
        || str_eq(k, "name")
        || str_eq(k, "declaredName")
        || str_eq(k, "qualifiedName")
        || str_eq(k, "shortName")
        || str_eq(k, "declaredShortName")
        || str_eq(k, "isAbstract")
        || str_eq(k, "isVariation")
        || str_eq(k, "isDerived")
        || str_eq(k, "isReadOnly")
        || str_eq(k, "isParallel")
        || str_eq(k, "isIndividual")
        || str_eq(k, "isEnd")
        || str_eq(k, "isDefault")
        || str_eq(k, "isOrdered")
        || str_eq(k, "isNonunique")
        || str_eq(k, "isPortion")
        || str_eq(k, "documentation")
        || str_eq(k, "body")
        || str_eq(k, "owner")
        || str_eq(k, "ownedMember")
        || str_eq(k, "ownedRelationship")
        || str_eq(k, "ownedRelatedElement")
}

/// Whether member `k` of a relationship object is read into a field rather than a property.
pub open spec fn is_relationship_field_key(k: Seq<char>) -> bool {
    k == "@id"@
        || k == "@type"@
        || k == "@context"@
        || k == "source"@
        || k == "target"@
        || k == "owner"@
}

/// Member `k` of a relationship object is read into a field.
fn relationship_field_key(k: &str) -> (r: bool)
    ensures
        r == is_relationship_field_key(k@),
{
    str_eq(k, "@id")
        || str_eq(k, "@type")
        || str_eq(k, "@context")
        || str_eq(k, "source")
        || str_eq(k, "target")
        || str_eq(k, "owner")
}

/// The property map `m` after flag member `k` of `o`, if boolean, is stored.
pub open spec fn flag_step(m: Map<Seq<char>, PropertyValue>, o: Seq<(String, JsonValue)>, k: Seq<char>) -> Map<Seq<char>, PropertyValue> {
    match as_bool(obj_get(o, k)) {
        Some(b) => m.insert(k, PropertyValue::Boolean(b)),
        None => m,
    }
}

/// The property map `m0` after the first six flag members of `o` are stored.
pub open spec fn first_flag_props(m0: Map<Seq<char>, PropertyValue>, o: Seq<(String, JsonValue)>) -> Map<Seq<char>, PropertyValue> {
    flag_step(flag_step(flag_step(flag_step(flag_step(flag_step(m0, o, "isAbstract"@), o, "isVariation"@), o, "isDerived"@), o, "isReadOnly"@), o, "isParallel"@), o, "isIndividual"@)
}

/// The property map `m0` after the last five flag members of `o` are stored.
pub open spec fn last_flag_props(m0: Map<Seq<char>, PropertyValue>, o: Seq<(String, JsonValue)>) -> Map<Seq<char>, PropertyValue> {
    flag_step(flag_step(flag_step(flag_step(flag_step(m0, o, "isEnd"@), o, "isDefault"@), o, "isOrdered"@), o, "isNonunique"@), o, "isPortion"@)
}

/// The property map `m0` after the boolean flag members of `o` are stored,
/// in the reader's order.
pub open spec fn flag_props_over(m0: Map<Seq<char>, PropertyValue>, o: Seq<(String, JsonValue)>) -> Map<Seq<char>, PropertyValue> {
    last_flag_props(first_flag_props(m0, o), o)
}

/// The flag properties that the boolean flag members of `o` set.
pub open spec fn flag_props(o: Seq<(String, JsonValue)>) -> Map<Seq<char>, PropertyValue> {
    flag_props_over(Map::empty(), o)
}

/// The properties `s`, in order, after flag member `k` of `o`, if
/// boolean, is stored.
pub open spec fn flag_seq_step(s: Seq<(Seq<char>, PropertyValue)>, o: Seq<(String, JsonValue)>, k: Seq<char>) -> Seq<(Seq<char>, PropertyValue)> {
    match as_bool(obj_get(o, k)) {
        Some(b) => prop_put(s, k, PropertyValue::Boolean(b)),
        None => s,
    }
}

/// The properties `s`, in order, after the first six flag members of `o`
/// are stored.
pub open spec fn first_flag_seq(s: Seq<(Seq<char>, PropertyValue)>, o: Seq<(String, JsonValue)>) -> Seq<(Seq<char>, PropertyValue)> {
    flag_seq_step(flag_seq_step(flag_seq_step(flag_seq_step(flag_seq_step(flag_seq_step(s, o, "isAbstract"@), o, "isVariation"@), o, "isDerived"@), o, "isReadOnly"@), o, "isParallel"@), o, "isIndividual"@)
}

/// The properties `s`, in order, after the last five flag members of `o`
/// are stored.
pub open spec fn last_flag_seq(s: Seq<(Seq<char>, PropertyValue)>, o: Seq<(String, JsonValue)>) -> Seq<(Seq<char>, PropertyValue)> {
    flag_seq_step(flag_seq_step(flag_seq_step(flag_seq_step(flag_seq_step(s, o, "isEnd"@), o, "isDefault"@), o, "isOrdered"@), o, "isNonunique"@), o, "isPortion"@)
}

/// The properties `s`, in order, after the boolean flag members of `o` are
/// stored, in the reader's order.
pub open spec fn flag_seq_over(s: Seq<(Seq<char>, PropertyValue)>, o: Seq<(String, JsonValue)>) -> Seq<(Seq<char>, PropertyValue)> {
    last_flag_seq(first_flag_seq(s, o), o)
}

/// The flag properties, in order, that the boolean flag members of `o` set.
pub open spec fn flag_seq(o: Seq<(String, JsonValue)>) -> Seq<(Seq<char>, PropertyValue)> {
    flag_seq_over(Seq::empty(), o)
}

/// The value of flag member `k` of `o`: its boolean, else false.
pub open spec fn flag_of(o: Seq<(String, JsonValue)>, k: Seq<char>) -> bool {
    match as_bool(obj_get(o, k)) {
        Some(b) => b,
        None => false,
    }
}


/// The property that a scalar member value becomes: strings, booleans and
/// numbers; other values give none.
pub open spec fn scalar_property(v: JsonValue) -> Option<PropertyValue> {
    match v {
        JsonValue::String(s) => Some(PropertyValue::String(s)),
        JsonValue::Bool(b) => Some(PropertyValue::Boolean(b)),
        JsonValue::Integer(i) => Some(PropertyValue::Integer(i)),
        JsonValue::Real(x) => Some(PropertyValue::Real(x)),
        _ => None,
    }
}

/// The property map after storing, in order, the scalar members of `o`
/// that are not element fields.
pub open spec fn element_extra_props(m: Map<Seq<char>, PropertyValue>, o: Seq<(String, JsonValue)>) -> Map<Seq<char>, PropertyValue>
    decreases o.len(),
{
    if o.len() == 0 {
        m
    } else {
        let m1 = element_extra_props(m, o.drop_last());
        let (k, v) = o.last();
        if is_element_field_key(k@) {
            m1
        } else {
            match scalar_property(v) {
                Some(p) => m1.insert(k@, p),
                None => m1,
            }
        }
    }
}

/// The properties `s`, in order, after storing, in order, the scalar
/// members of `o` that are not element fields: a key already stored keeps
/// its place and takes the new value, a new key comes last.
pub open spec fn element_extra_seq(s: Seq<(Seq<char>, PropertyValue)>, o: Seq<(String, JsonValue)>) -> Seq<(Seq<char>, PropertyValue)>
    decreases o.len(),
{
    if o.len() == 0 {
        s
    } else {
        let s1 = element_extra_seq(s, o.drop_last());
        let (k, v) = o.last();
        if is_element_field_key(k@) {
            s1
        } else {
            match scalar_property(v) {
                Some(p) => prop_put(s1, k@, p),
                None => s1,
            }
        }
    }
}

/// The first of the members `a` and `b` of `o` that is present.
pub open spec fn first_present(o: Seq<(String, JsonValue)>, a: Seq<char>, b: Seq<char>) -> Option<JsonValue> {
    match obj_get(o, a) {
        Some(v) => Some(v),
        None => obj_get(o, b),
    }
}

/// The `@id` strings of the reference objects among `items`, in order.
pub open spec fn member_refs(items: Seq<JsonValue>) -> Seq<String>
    decreases items.len(),
{
    if items.len() == 0 {
        Seq::empty()
    } else {
        match ref_id(Some(items.last())) {
            Some(s) => member_refs(items.drop_last()).push(s),
            None => member_refs(items.drop_last()),
        }
    }
}

/// The `@id` strings that the `ownedMember` array of `o` refers to.
pub open spec fn owned_member_refs(o: Seq<(String, JsonValue)>) -> Seq<String> {
    match obj_get(o, "ownedMember"@) {
        Some(JsonValue::Array(items)) => member_refs(items@),
        _ => Seq::empty(),
    }
}

/// The kind named by the `@type` member of `o` (`Element` when absent).
pub open spec fn type_kind(o: Seq<(String, JsonValue)>) -> ElementKind {
    match as_str(obj_get(o, "@type"@)) {
        Some(t) => ElementKind::spec_from_xmi_type(t@),
        None => ElementKind::spec_from_xmi_type("Element"@),
    }
}

/// The texts of a list of IDs.
pub open spec fn id_texts(ids: Seq<ElementId>) -> Seq<Seq<char>> {
    ids.map_values(|i: ElementId| i@)
}

/// The texts of a list of strings.
pub open spec fn string_texts(ss: Seq<String>) -> Seq<Seq<char>> {
    ss.map_values(|s: String| s@)
}

/// Whether `e` is the element that the JSON-LD object `o` describes: the
/// fields from their members, flags false unless given, the remaining
/// scalar members as properties, public, and no relationship data.
pub open spec fn element_from_object(e: Element, o: Seq<(String, JsonValue)>) -> bool {
    &&& as_str(obj_get(o, "@id"@)) matches Some(id) && e.id@ == id@
    &&& e.kind == type_kind(o)
    &&& e.name == as_str(first_present(o, "name"@, "declaredName"@))
    &&& e.qualified_name == as_str(obj_get(o, "qualifiedName"@))
    &&& e.short_name == as_str(first_present(o, "shortName"@, "declaredShortName"@))
    &&& e.documentation == as_str(first_present(o, "documentation"@, "body"@))
    &&& (match ref_id(obj_get(o, "owner"@)) {
        Some(s) => e.owner matches Some(oid) && oid@ == s@,
        None => e.owner is None,
    })
    &&& id_texts(e.owned_elements@) == string_texts(owned_member_refs(o))
                &&& e.is_abstract == flag_of(o, "isAbstract"@)
                &&& e.is_variation == flag_of(o, "isVariation"@)
                &&& e.is_derived == flag_of(o, "isDerived"@)
                &&& e.is_readonly == flag_of(o, "isReadOnly"@)
                &&& e.is_parallel == flag_of(o, "isParallel"@)
                &&& e.is_individual == flag_of(o, "isIndividual"@)
                &&& e.is_end == flag_of(o, "isEnd"@)
                &&& e.is_default == flag_of(o, "isDefault"@)
                &&& e.is_ordered == flag_of(o, "isOrdered"@)
                &&& e.is_nonunique == flag_of(o, "isNonunique"@)
                &&& e.is_portion == flag_of(o, "isPortion"@)
    &&& e.visibility == Visibility::Public
    &&& e.relationship is None
    &&& props_map(property_entries(e.properties)) == element_extra_props(flag_props(o), o)
    &&& props_seq(property_entries(e.properties)) == element_extra_seq(flag_seq(o), o)
}

/// Set flag `isAbstract` if `o` gives it, field and property alike.
fn apply_flag_is_abstract(element: &mut Element, o: &Vec<(String, JsonValue)>)
    ensures
        final(element).is_abstract == (if as_bool(obj_get(o@, "isAbstract"@)) is Some { flag_of(o@, "isAbstract"@) } else { old(element).is_abstract }),
        *final(element) == (Element { is_abstract: final(element).is_abstract, properties: final(element).properties, ..*old(element) }),
        props_map(property_entries(final(element).properties)) == flag_step(props_map(property_entries(old(element).properties)), o@, "isAbstract"@),
        props_seq(property_entries(final(element).properties)) == flag_seq_step(props_seq(property_entries(old(element).properties)), o@, "isAbstract"@),
{
    if let Some(b) = json_get_bool(o, "isAbstract") {
        let ghost before = property_entries(element.properties);
        element.set_abstract(b);
        proof {
            lemma_props_map_put(before, property_entries(element.properties), "isAbstract"@, PropertyValue::Boolean(b));
            lemma_props_seq_put(before, property_entries(element.properties), "isAbstract"@, PropertyValue::Boolean(b));
        }
    }
}

/// Set flag `isVariation` if `o` gives it, field and property alike.
fn apply_flag_is_variation(element: &mut Element, o: &Vec<(String, JsonValue)>)
    ensures
        final(element).is_variation == (if as_bool(obj_get(o@, "isVariation"@)) is Some { flag_of(o@, "isVariation"@) } else { old(element).is_variation }),
        *final(element) == (Element { is_variation: final(element).is_variation, properties: final(element).properties, ..*old(element) }),
        props_map(property_entries(final(element).properties)) == flag_step(props_map(property_entries(old(element).properties)), o@, "isVariation"@),
        props_seq(property_entries(final(element).properties)) == flag_seq_step(props_seq(property_entries(old(element).properties)), o@, "isVariation"@),
{
    if let Some(b) = json_get_bool(o, "isVariation") {
        let ghost before = property_entries(element.properties);
        element.set_variation(b);
        proof {
            lemma_props_map_put(before, property_entries(element.properties), "isVariation"@, PropertyValue::Boolean(b));
            lemma_props_seq_put(before, property_entries(element.properties), "isVariation"@, PropertyValue::Boolean(b));
        }
    }
}

/// Set flag `isDerived` if `o` gives it, field and property alike.
fn apply_flag_is_derived(element: &mut Element, o: &Vec<(String, JsonValue)>)
    ensures
        final(element).is_derived == (if as_bool(obj_get(o@, "isDerived"@)) is Some { flag_of(o@, "isDerived"@) } else { old(element).is_derived }),
        *final(element) == (Element { is_derived: final(element).is_derived, properties: final(element).properties, ..*old(element) }),
        props_map(property_entries(final(element).properties)) == flag_step(props_map(property_entries(old(element).properties)), o@, "isDerived"@),
        props_seq(property_entries(final(element).properties)) == flag_seq_step(props_seq(property_entries(old(element).properties)), o@, "isDerived"@),
{
    if let Some(b) = json_get_bool(o, "isDerived") {
        let ghost before = property_entries(element.properties);
        element.set_derived(b);
        proof {
            lemma_props_map_put(before, property_entries(element.properties), "isDerived"@, PropertyValue::Boolean(b));
            lemma_props_seq_put(before, property_entries(element.properties), "isDerived"@, PropertyValue::Boolean(b));
        }
    }
}

/// Set flag `isReadOnly` if `o` gives it, field and property alike.
fn apply_flag_is_readonly(element: &mut Element, o: &Vec<(String, JsonValue)>)
    ensures
        final(element).is_readonly == (if as_bool(obj_get(o@, "isReadOnly"@)) is Some { flag_of(o@, "isReadOnly"@) } else { old(element).is_readonly }),
        *final(element) == (Element { is_readonly: final(element).is_readonly, properties: final(element).properties, ..*old(element) }),
        props_map(property_entries(final(element).properties)) == flag_step(props_map(property_entries(old(element).properties)), o@, "isReadOnly"@),
        props_seq(property_entries(final(element).properties)) == flag_seq_step(props_seq(property_entries(old(element).properties)), o@, "isReadOnly"@),
{
    if let Some(b) = json_get_bool(o, "isReadOnly") {
        let ghost before = property_entries(element.properties);
        element.set_readonly(b);
        proof {
            lemma_props_map_put(before, property_entries(element.properties), "isReadOnly"@, PropertyValue::Boolean(b));
            lemma_props_seq_put(before, property_entries(element.properties), "isReadOnly"@, PropertyValue::Boolean(b));
        }
    }
}

/// Set flag `isParallel` if `o` gives it, field and property alike.
fn apply_flag_is_parallel(element: &mut Element, o: &Vec<(String, JsonValue)>)
    ensures
        final(element).is_parallel == (if as_bool(obj_get(o@, "isParallel"@)) is Some { flag_of(o@, "isParallel"@) } else { old(element).is_parallel }),
        *final(element) == (Element { is_parallel: final(element).is_parallel, properties: final(element).properties, ..*old(element) }),
        props_map(property_entries(final(element).properties)) == flag_step(props_map(property_entries(old(element).properties)), o@, "isParallel"@),
        props_seq(property_entries(final(element).properties)) == flag_seq_step(props_seq(property_entries(old(element).properties)), o@, "isParallel"@),
{
    if let Some(b) = json_get_bool(o, "isParallel") {
        let ghost before = property_entries(element.properties);
        element.set_parallel(b);
        proof {
            lemma_props_map_put(before, property_entries(element.properties), "isParallel"@, PropertyValue::Boolean(b));
            lemma_props_seq_put(before, property_entries(element.properties), "isParallel"@, PropertyValue::Boolean(b));
        }
    }
}

/// Set flag `isIndividual` if `o` gives it, field and property alike.
fn apply_flag_is_individual(element: &mut Element, o: &Vec<(String, JsonValue)>)
    ensures
        final(element).is_individual == (if as_bool(obj_get(o@, "isIndividual"@)) is Some { flag_of(o@, "isIndividual"@) } else { old(element).is_individual }),
        *final(element) == (Element { is_individual: final(element).is_individual, properties: final(element).properties, ..*old(element) }),
        props_map(property_entries(final(element).properties)) == flag_step(props_map(property_entries(old(element).properties)), o@, "isIndividual"@),
        props_seq(property_entries(final(element).properties)) == flag_seq_step(props_seq(property_entries(old(element).properties)), o@, "isIndividual"@),
{
    if let Some(b) = json_get_bool(o, "isIndividual") {
        let ghost before = property_entries(element.properties);
        element.set_individual(b);
        proof {
            lemma_props_map_put(before, property_entries(element.properties), "isIndividual"@, PropertyValue::Boolean(b));
            lemma_props_seq_put(before, property_entries(element.properties), "isIndividual"@, PropertyValue::Boolean(b));
        }
    }
}

/// Set flag `isEnd` if `o` gives it, field and property alike.
fn apply_flag_is_end(element: &mut Element, o: &Vec<(String, JsonValue)>)
    ensures
        final(element).is_end == (if as_bool(obj_get(o@, "isEnd"@)) is Some { flag_of(o@, "isEnd"@) } else { old(element).is_end }),
        *final(element) == (Element { is_end: final(element).is_end, properties: final(element).properties, ..*old(element) }),
        props_map(property_entries(final(element).properties)) == flag_step(props_map(property_entries(old(element).properties)), o@, "isEnd"@),
        props_seq(property_entries(final(element).properties)) == flag_seq_step(props_seq(property_entries(old(element).properties)), o@, "isEnd"@),
{
    if let Some(b) = json_get_bool(o, "isEnd") {
        let ghost before = property_entries(element.properties);
        element.set_end(b);
        proof {
            lemma_props_map_put(before, property_entries(element.properties), "isEnd"@, PropertyValue::Boolean(b));
            lemma_props_seq_put(before, property_entries(element.properties), "isEnd"@, PropertyValue::Boolean(b));
        }
    }
}

/// Set flag `isDefault` if `o` gives it, field and property alike.
fn apply_flag_is_default(element: &mut Element, o: &Vec<(String, JsonValue)>)
    ensures
        final(element).is_default == (if as_bool(obj_get(o@, "isDefault"@)) is Some { flag_of(o@, "isDefault"@) } else { old(element).is_default }),
        *final(element) == (Element { is_default: final(element).is_default, properties: final(element).properties, ..*old(element) }),
        props_map(property_entries(final(element).properties)) == flag_step(props_map(property_entries(old(element).properties)), o@, "isDefault"@),
        props_seq(property_entries(final(element).properties)) == flag_seq_step(props_seq(property_entries(old(element).properties)), o@, "isDefault"@),
{
    if let Some(b) = json_get_bool(o, "isDefault") {
        let ghost before = property_entries(element.properties);
        element.set_default(b);
        proof {
            lemma_props_map_put(before, property_entries(element.properties), "isDefault"@, PropertyValue::Boolean(b));
            lemma_props_seq_put(before, property_entries(element.properties), "isDefault"@, PropertyValue::Boolean(b));
        }
    }
}

/// Set flag `isOrdered` if `o` gives it, field and property alike.
fn apply_flag_is_ordered(element: &mut Element, o: &Vec<(String, JsonValue)>)
    ensures
        final(element).is_ordered == (if as_bool(obj_get(o@, "isOrdered"@)) is Some { flag_of(o@, "isOrdered"@) } else { old(element).is_ordered }),
        *final(element) == (Element { is_ordered: final(element).is_ordered, properties: final(element).properties, ..*old(element) }),
        props_map(property_entries(final(element).properties)) == flag_step(props_map(property_entries(old(element).properties)), o@, "isOrdered"@),
        props_seq(property_entries(final(element).properties)) == flag_seq_step(props_seq(property_entries(old(element).properties)), o@, "isOrdered"@),
{
    if let Some(b) = json_get_bool(o, "isOrdered") {
        let ghost before = property_entries(element.properties);
        element.set_ordered(b);
        proof {
            lemma_props_map_put(before, property_entries(element.properties), "isOrdered"@, PropertyValue::Boolean(b));
            lemma_props_seq_put(before, property_entries(element.properties), "isOrdered"@, PropertyValue::Boolean(b));
        }
    }
}

/// Set flag `isNonunique` if `o` gives it, field and property alike.
fn apply_flag_is_nonunique(element: &mut Element, o: &Vec<(String, JsonValue)>)
    ensures
        final(element).is_nonunique == (if as_bool(obj_get(o@, "isNonunique"@)) is Some { flag_of(o@, "isNonunique"@) } else { old(element).is_nonunique }),
        *final(element) == (Element { is_nonunique: final(element).is_nonunique, properties: final(element).properties, ..*old(element) }),
        props_map(property_entries(final(element).properties)) == flag_step(props_map(property_entries(old(element).properties)), o@, "isNonunique"@),
        props_seq(property_entries(final(element).properties)) == flag_seq_step(props_seq(property_entries(old(element).properties)), o@, "isNonunique"@),
{
    if let Some(b) = json_get_bool(o, "isNonunique") {
        let ghost before = property_entries(element.properties);
        element.set_nonunique(b);
        proof {
            lemma_props_map_put(before, property_entries(element.properties), "isNonunique"@, PropertyValue::Boolean(b));
            lemma_props_seq_put(before, property_entries(element.properties), "isNonunique"@, PropertyValue::Boolean(b));
        }
    }
}

/// Set flag `isPortion` if `o` gives it, field and property alike.
fn apply_flag_is_portion(element: &mut Element, o: &Vec<(String, JsonValue)>)
    ensures
        final(element).is_portion == (if as_bool(obj_get(o@, "isPortion"@)) is Some { flag_of(o@, "isPortion"@) } else { old(element).is_portion }),
        *final(element) == (Element { is_portion: final(element).is_portion, properties: final(element).properties, ..*old(element) }),
        props_map(property_entries(final(element).properties)) == flag_step(props_map(property_entries(old(element).properties)), o@, "isPortion"@),
        props_seq(property_entries(final(element).properties)) == flag_seq_step(props_seq(property_entries(old(element).properties)), o@, "isPortion"@),
{
    if let Some(b) = json_get_bool(o, "isPortion") {
        let ghost before = property_entries(element.properties);
        element.set_portion(b);
        proof {
            lemma_props_map_put(before, property_entries(element.properties), "isPortion"@, PropertyValue::Boolean(b));
            lemma_props_seq_put(before, property_entries(element.properties), "isPortion"@, PropertyValue::Boolean(b));
        }
    }
}

/// Set the first six flags that `o` gives, field and property alike.
fn apply_first_flags(element: &mut Element, o: &Vec<(String, JsonValue)>)
    ensures
        final(element).is_abstract == (if as_bool(obj_get(o@, "isAbstract"@)) is Some { flag_of(o@, "isAbstract"@) } else { old(element).is_abstract }),
        final(element).is_variation == (if as_bool(obj_get(o@, "isVariation"@)) is Some { flag_of(o@, "isVariation"@) } else { old(element).is_variation }),
        final(element).is_derived == (if as_bool(obj_get(o@, "isDerived"@)) is Some { flag_of(o@, "isDerived"@) } else { old(element).is_derived }),
        final(element).is_readonly == (if as_bool(obj_get(o@, "isReadOnly"@)) is Some { flag_of(o@, "isReadOnly"@) } else { old(element).is_readonly }),
        final(element).is_parallel == (if as_bool(obj_get(o@, "isParallel"@)) is Some { flag_of(o@, "isParallel"@) } else { old(element).is_parallel }),
        final(element).is_individual == (if as_bool(obj_get(o@, "isIndividual"@)) is Some { flag_of(o@, "isIndividual"@) } else { old(element).is_individual }),
        *final(element) == (Element { is_abstract: final(element).is_abstract, is_variation: final(element).is_variation, is_derived: final(element).is_derived, is_readonly: final(element).is_readonly, is_parallel: final(element).is_parallel, is_individual: final(element).is_individual, properties: final(element).properties, ..*old(element) }),
        props_map(property_entries(final(element).properties)) == first_flag_props(props_map(property_entries(old(element).properties)), o@),
        props_seq(property_entries(final(element).properties)) == first_flag_seq(props_seq(property_entries(old(element).properties)), o@),
{
    apply_flag_is_abstract(element, o);
    apply_flag_is_variation(element, o);
    apply_flag_is_derived(element, o);
    apply_flag_is_readonly(element, o);
    apply_flag_is_parallel(element, o);
    apply_flag_is_individual(element, o);
}

/// Set the last five flags that `o` gives, field and property alike.
fn apply_last_flags(element: &mut Element, o: &Vec<(String, JsonValue)>)
    ensures
        final(element).is_end == (if as_bool(obj_get(o@, "isEnd"@)) is Some { flag_of(o@, "isEnd"@) } else { old(element).is_end }),
        final(element).is_default == (if as_bool(obj_get(o@, "isDefault"@)) is Some { flag_of(o@, "isDefault"@) } else { old(element).is_default }),
        final(element).is_ordered == (if as_bool(obj_get(o@, "isOrdered"@)) is Some { flag_of(o@, "isOrdered"@) } else { old(element).is_ordered }),
        final(element).is_nonunique == (if as_bool(obj_get(o@, "isNonunique"@)) is Some { flag_of(o@, "isNonunique"@) } else { old(element).is_nonunique }),
        final(element).is_portion == (if as_bool(obj_get(o@, "isPortion"@)) is Some { flag_of(o@, "isPortion"@) } else { old(element).is_portion }),
        *final(element) == (Element { is_end: final(element).is_end, is_default: final(element).is_default, is_ordered: final(element).is_ordered, is_nonunique: final(element).is_nonunique, is_portion: final(element).is_portion, properties: final(element).properties, ..*old(element) }),
        props_map(property_entries(final(element).properties)) == last_flag_props(props_map(property_entries(old(element).properties)), o@),
        props_seq(property_entries(final(element).properties)) == last_flag_seq(props_seq(property_entries(old(element).properties)), o@),
{
    apply_flag_is_end(element, o);
    apply_flag_is_default(element, o);
    apply_flag_is_ordered(element, o);
    apply_flag_is_nonunique(element, o);
    apply_flag_is_portion(element, o);
}

/// Set the flags that `o` gives, field and property alike.
fn apply_flags(element: &mut Element, o: &Vec<(String, JsonValue)>)
    ensures
        final(element).is_abstract == (if as_bool(obj_get(o@, "isAbstract"@)) is Some { flag_of(o@, "isAbstract"@) } else { old(element).is_abstract }),
        final(element).is_variation == (if as_bool(obj_get(o@, "isVariation"@)) is Some { flag_of(o@, "isVariation"@) } else { old(element).is_variation }),
        final(element).is_derived == (if as_bool(obj_get(o@, "isDerived"@)) is Some { flag_of(o@, "isDerived"@) } else { old(element).is_derived }),
        final(element).is_readonly == (if as_bool(obj_get(o@, "isReadOnly"@)) is Some { flag_of(o@, "isReadOnly"@) } else { old(element).is_readonly }),
        final(element).is_parallel == (if as_bool(obj_get(o@, "isParallel"@)) is Some { flag_of(o@, "isParallel"@) } else { old(element).is_parallel }),
        final(element).is_individual == (if as_bool(obj_get(o@, "isIndividual"@)) is Some { flag_of(o@, "isIndividual"@) } else { old(element).is_individual }),
        final(element).is_end == (if as_bool(obj_get(o@, "isEnd"@)) is Some { flag_of(o@, "isEnd"@) } else { old(element).is_end }),
        final(element).is_default == (if as_bool(obj_get(o@, "isDefault"@)) is Some { flag_of(o@, "isDefault"@) } else { old(element).is_default }),
        final(element).is_ordered == (if as_bool(obj_get(o@, "isOrdered"@)) is Some { flag_of(o@, "isOrdered"@) } else { old(element).is_ordered }),
        final(element).is_nonunique == (if as_bool(obj_get(o@, "isNonunique"@)) is Some { flag_of(o@, "isNonunique"@) } else { old(element).is_nonunique }),
        final(element).is_portion == (if as_bool(obj_get(o@, "isPortion"@)) is Some { flag_of(o@, "isPortion"@) } else { old(element).is_portion }),
        *final(element) == (Element { is_abstract: final(element).is_abstract, is_variation: final(element).is_variation, is_derived: final(element).is_derived, is_readonly: final(element).is_readonly, is_parallel: final(element).is_parallel, is_individual: final(element).is_individual, is_end: final(element).is_end, is_default: final(element).is_default, is_ordered: final(element).is_ordered, is_nonunique: final(element).is_nonunique, is_portion: final(element).is_portion, properties: final(element).properties, ..*old(element) }),
        props_map(property_entries(final(element).properties)) == flag_props_over(props_map(property_entries(old(element).properties)), o@),
        props_seq(property_entries(final(element).properties)) == flag_seq_over(props_seq(property_entries(old(element).properties)), o@),
{
    apply_first_flags(element, o);
    apply_last_flags(element, o);
}

/// The IDs that the `ownedMember` array of `o` refers to.
fn owned_member_ids(o: &Vec<(String, JsonValue)>) -> (r: Vec<ElementId>)
    ensures
        id_texts(r@) == string_texts(owned_member_refs(o@)),
{
    let mut r: Vec<ElementId> = Vec::new();
    if let Some(JsonValue::Array(members)) = json_get(o, "ownedMember") {
        let mut i: usize = 0;
        while i < members.len()
            invariant
                i <= members@.len(),
                id_texts(r@) == string_texts(member_refs(members@.take(i as int))),
            decreases members.len() - i,
        {
            proof {
                assert(members@.take(i + 1).drop_last() =~= members@.take(i as int));
                assert(members@.take(i + 1).last() == members@[i as int]);
            }
            if let JsonValue::Object(mo) = &members[i] {
                if let Some(mid) = json_get_str(mo, "@id") {
                    let ghost before = r@;
                    r.push(ElementId::new(mid.as_str()));
                    proof {
                        assert(id_texts(r@) =~= id_texts(before).push(mid@));
                        assert(string_texts(member_refs(members@.take(i + 1))) =~= string_texts(
                            member_refs(members@.take(i as int)),
                        ).push(mid@));
                    }
                }
            }
            i = i + 1;
        }
        assert(members@.take(members@.len() as int) =~= members@);
    } else {
        assert(id_texts(r@) =~= Seq::<Seq<char>>::empty());
        assert(string_texts(owned_member_refs(o@)) =~= Seq::<Seq<char>>::empty());
    }
    r
}

/// Store, in order, the scalar members of `o` that are not element fields
/// as properties.
fn add_extra_properties(element: &mut Element, o: &Vec<(String, JsonValue)>)
    ensures
        *final(element) == (Element { properties: final(element).properties, ..*old(element) }),
        props_map(property_entries(final(element).properties)) == element_extra_props(props_map(property_entries(old(element).properties)), o@),
        props_seq(property_entries(final(element).properties)) == element_extra_seq(props_seq(property_entries(old(element).properties)), o@),
{
    let ghost base = props_map(property_entries(element.properties));
    let ghost base_seq = props_seq(property_entries(element.properties));
    let mut i: usize = 0;
    assert(o@.take(0) =~= Seq::<(String, JsonValue)>::empty());
    while i < o.len()
        invariant
            i <= o@.len(),
            *element == (Element { properties: element.properties, ..*old(element) }),
            base == props_map(property_entries(old(element).properties)),
            base_seq == props_seq(property_entries(old(element).properties)),
            props_map(property_entries(element.properties)) == element_extra_props(base, o@.take(i as int)),
            props_seq(property_entries(element.properties)) == element_extra_seq(base_seq, o@.take(i as int)),
        decreases o.len() - i,
    {
        proof {
            assert(o@.take(i + 1).drop_last() =~= o@.take(i as int));
            assert(o@.take(i + 1).last() == o@[i as int]);
        }
        let key = &o[i].0;
        if !element_field_key(key.as_str()) {
            let value = match &o[i].1 {
                JsonValue::String(s) => Some(PropertyValue::String(s.clone())),
                JsonValue::Bool(b) => Some(PropertyValue::Boolean(*b)),
                JsonValue::Integer(n) => Some(PropertyValue::Integer(*n)),
                JsonValue::Real(x) => Some(PropertyValue::Real(*x)),
                _ => None,
            };
            if let Some(v) = value {
                let ghost before = property_entries(element.properties);
                let ghost vv = v;
                let _ = property_map_insert(&mut element.properties, key.clone(), v);
                proof {
                    lemma_put_from_insert(before, property_entries(element.properties), *key, vv);
                    lemma_props_map_put(before, property_entries(element.properties), key@, vv);
                    lemma_props_seq_put(before, property_entries(element.properties), key@, vv);
                }
            }
        }
        i = i + 1;
    }
    assert(o@.take(o@.len() as int) =~= o@);
}

/// Read an element from a JSON-LD object: none when it has no string
/// `@id`.
#[verifier::rlimit(100)]
pub fn parse_element(o: &Vec<(String, JsonValue)>) -> (r: Result<Option<Element>, InterchangeError>)
    ensures
        r matches Ok(x) && match x {
            None => as_str(obj_get(o@, "@id"@)) is None,
            Some(e) => element_from_object(e, o@),
        },
{
    let id = match json_get_str(o, "@id") {
        Some(s) => s,
        None => return Ok(None),
    };
    let kind = match json_get_str(o, "@type") {
        Some(t) => ElementKind::from_xmi_type(t.as_str()),
        None => ElementKind::from_xmi_type("Element"),
    };
    let mut element = Element::new(id.as_str(), kind);
    let name = match json_get(o, "name") {
        Some(v) => Some(v),
        None => json_get(o, "declaredName"),
    };
    if let Some(JsonValue::String(n)) = name {
        element.name = Some(n.clone());
    }
    if let Some(qn) = json_get_str(o, "qualifiedName") {
        element.qualified_name = Some(qn.clone());
    }
    let short_name = match json_get(o, "shortName") {
        Some(v) => Some(v),
        None => json_get(o, "declaredShortName"),
    };
    if let Some(JsonValue::String(sn)) = short_name {
        element.short_name = Some(sn.clone());
    }
    assert(props_map(property_entries(element.properties)) =~= Map::<Seq<char>, PropertyValue>::empty());
    assert(props_seq(property_entries(element.properties)) =~= Seq::<(Seq<char>, PropertyValue)>::empty());
    apply_flags(&mut element, o);
    assert(props_seq(property_entries(element.properties)) == flag_seq(o@));
    add_links_and_extras(&mut element, o);
    Ok(Some(element))
}

/// Read the documentation, the owner, the owned members and the extra
/// properties of an element from `o`.
#[verifier::rlimit(60)]
fn add_links_and_extras(element: &mut Element, o: &Vec<(String, JsonValue)>)
    requires
        old(element).documentation is None,
        old(element).owner is None,
    ensures
        final(element).documentation == as_str(first_present(o@, "documentation"@, "body"@)),
        (match ref_id(obj_get(o@, "owner"@)) {
            Some(s) => final(element).owner matches Some(oid) && oid@ == s@,
            None => final(element).owner is None,
        }),
        id_texts(final(element).owned_elements@) == string_texts(owned_member_refs(o@)),
        *final(element) == (Element {
            documentation: final(element).documentation,
            owner: final(element).owner,
            owned_elements: final(element).owned_elements,
            properties: final(element).properties,
            ..*old(element)
        }),
        props_map(property_entries(final(element).properties)) == element_extra_props(props_map(property_entries(old(element).properties)), o@),
        props_seq(property_entries(final(element).properties)) == element_extra_seq(props_seq(property_entries(old(element).properties)), o@),
{
    let doc = match json_get(o, "documentation") {
        Some(v) => Some(v),
        None => json_get(o, "body"),
    };
    if let Some(JsonValue::String(d)) = doc {
        element.documentation = Some(d.clone());
    }
    if let Some(owner_id) = json_get_ref(o, "owner") {
        element.owner = Some(ElementId::new(owner_id.as_str()));
    }
    element.owned_elements = owned_member_ids(o);
    add_extra_properties(element, o);
}

/// The property that a member value of a relationship object becomes:
/// scalars as for elements, and reference objects `{"@id": ...}` as
/// references.
pub open spec fn relationship_property(v: JsonValue) -> Option<PropertyValue> {
    match v {
        JsonValue::Object(inner) => match as_str(obj_get(inner@, "@id"@)) {
            Some(s) => Some(PropertyValue::Reference(ElementId(s))),
            None => None,
        },
        _ => scalar_property(v),
    }
}

/// The property map after storing, in order, the members of a relationship
/// object `o` that are not relationship fields.
pub open spec fn relationship_extra_props(m: Map<Seq<char>, PropertyValue>, o: Seq<(String, JsonValue)>) -> Map<Seq<char>, PropertyValue>
    decreases o.len(),
{
    if o.len() == 0 {
        m
    } else {
        let m1 = relationship_extra_props(m, o.drop_last());
        let (k, v) = o.last();
        if is_relationship_field_key(k@) {
            m1
        } else {
            match relationship_property(v) {
                Some(p) => m1.insert(k@, p),
                None => m1,
            }
        }
    }
}

/// The ID, type, source and target of a relationship object: present when
/// all four are.
pub open spec fn relationship_parts(o: Seq<(String, JsonValue)>) -> Option<(String, String, String, String)> {
    match (as_str(obj_get(o, "@id"@)), as_str(obj_get(o, "@type"@)), ref_id(obj_get(o, "source"@)), ref_id(obj_get(o, "target"@))) {
        (Some(id), Some(t), Some(src), Some(tgt)) => Some((id, t, src, tgt)),
        _ => None,
    }
}

/// No names, documentation, children or flags, and public.
pub open spec fn plain_attributes(e: Element) -> bool {
    &&& e.name is None
    &&& e.short_name is None
    &&& e.qualified_name is None
    &&& e.documentation is None
    &&& e.owned_elements@.len() == 0
    &&& !e.is_abstract
    &&& !e.is_variation
    &&& !e.is_derived
    &&& !e.is_readonly
    &&& !e.is_parallel
    &&& !e.is_individual
    &&& !e.is_end
    &&& !e.is_default
    &&& !e.is_ordered
    &&& !e.is_nonunique
    &&& !e.is_portion
    &&& e.visibility == Visibility::Public
}

/// The owner that the `owner` reference of `o` gives `e`.
pub open spec fn owner_from_object(e: Element, o: Seq<(String, JsonValue)>) -> bool {
    match ref_id(obj_get(o, "owner"@)) {
        Some(s) => e.owner matches Some(oid) && oid@ == s@,
        None => e.owner is None,
    }
}

/// Read a relationship object: its element (ID, kind, owner and extra
/// properties), source and target; none unless `@id`, `@type`, `source`
/// and `target` are all given.
pub fn parse_relationship(o: &Vec<(String, JsonValue)>) -> (r: Option<(Element, String, String)>)
    ensures
        match relationship_parts(o@) {
            None => r is None,
            Some((id, t, src, tgt)) => r matches Some((e, s, g)) && {
                &&& e.id@ == id@
                &&& e.kind == ElementKind::spec_from_xmi_type(t@)
                &&& owner_from_object(e, o@)
                &&& plain_attributes(e)
                &&& e.relationship is None
                &&& props_map(property_entries(e.properties)) == relationship_extra_props(Map::empty(), o@)
                &&& s == src
                &&& g == tgt
            },
        },
{
    let id = match json_get_str(o, "@id") {
        Some(s) => s,
        None => return None,
    };
    let type_str = match json_get_str(o, "@type") {
        Some(s) => s,
        None => return None,
    };
    let kind = ElementKind::from_xmi_type(type_str.as_str());
    let source = match json_get_ref(o, "source") {
        Some(s) => s.clone(),
        None => return None,
    };
    let target = match json_get_ref(o, "target") {
        Some(s) => s.clone(),
        None => return None,
    };
    let mut element = Element::new(id.as_str(), kind);
    if let Some(owner_id) = json_get_ref(o, "owner") {
        element.owner = Some(ElementId::new(owner_id.as_str()));
    }
    let ghost start = element;
    assert(props_map(property_entries(element.properties)) =~= Map::<Seq<char>, PropertyValue>::empty());
    let mut i: usize = 0;
    assert(o@.take(0) =~= Seq::<(String, JsonValue)>::empty());
    while i < o.len()
        invariant
            i <= o@.len(),
            element == (Element { properties: element.properties, ..start }),
            props_map(property_entries(element.properties)) == relationship_extra_props(Map::empty(), o@.take(i as int)),
        decreases o.len() - i,
    {
        proof {
            assert(o@.take(i + 1).drop_last() =~= o@.take(i as int));
            assert(o@.take(i + 1).last() == o@[i as int]);
        }
        let key = &o[i].0;
        if !relationship_field_key(key.as_str()) {
            let value = match &o[i].1 {
                JsonValue::String(s) => Some(PropertyValue::String(s.clone())),
                JsonValue::Bool(b) => Some(PropertyValue::Boolean(*b)),
                JsonValue::Integer(n) => Some(PropertyValue::Integer(*n)),
                JsonValue::Real(x) => Some(PropertyValue::Real(*x)),
                JsonValue::Object(inner) => match json_get_str(inner, "@id") {
                    Some(rid) => Some(PropertyValue::Reference(ElementId(rid.clone()))),
                    None => None,
                },
                _ => None,
            };
            if let Some(v) = value {
                let ghost before = property_entries(element.properties);
                let ghost vv = v;
                let _ = property_map_insert(&mut element.properties, key.clone(), v);
                proof {
                    lemma_put_from_insert(before, property_entries(element.properties), *key, vv);
                    lemma_props_map_put(before, property_entries(element.properties), key@, vv);
                    lemma_props_seq_put(before, property_entries(element.properties), key@, vv);
                }
            }
        }
        i = i + 1;
    }
    assert(o@.take(o@.len() as int) =~= o@);
    Some((element, source, target))
}

/// `after` is `before` with `e` stored under its ID: an entry with that ID
/// keeps its place and takes `e`, otherwise `e` is added last.
pub open spec fn entry_put(before: Seq<(ElementId, Element)>, after: Seq<(ElementId, Element)>, e: Element) -> bool {
    let i = find_key(before, e.id@);
    if i >= 0 {
        after == before.update(i, (before[i].0, e))
    } else {
        &&& after.len() == before.len() + 1
        &&& after.drop_last() == before
        &&& after.last().0@ == e.id@
        &&& after.last().1 == e
    }
}

/// Whether `e` is the relationship element that the relationship object
/// `o` describes.
pub open spec fn relationship_from_object(e: Element, o: Seq<(String, JsonValue)>) -> bool {
    match relationship_parts(o) {
        None => false,
        Some((id, t, src, tgt)) => {
            &&& e.id@ == id@
            &&& e.kind == ElementKind::spec_from_xmi_type(t@)
            &&& owner_from_object(e, o)
            &&& plain_attributes(e)
            &&& e.relationship matches Some(rd) && id_views(rd.source@) == seq![src@] && id_views(
                rd.target@,
            ) == seq![tgt@]
            &&& props_map(property_entries(e.properties)) == relationship_extra_props(Map::empty(), o)
        },
    }
}

/// How reading object `o` changes the entries and roots of a model: a
/// relationship object stores its relationship element; else an object
/// with an `@id` stores its element, which becomes a root when it has no
/// owner; else nothing changes.
pub open spec fn object_read(
    entries0: Seq<(ElementId, Element)>,
    roots0: Seq<ElementId>,
    entries1: Seq<(ElementId, Element)>,
    roots1: Seq<ElementId>,
    o: Seq<(String, JsonValue)>,
) -> bool {
    if relationship_parts(o) is Some {
        &&& exists|e: Element| relationship_from_object(e, o) && #[trigger] entry_put(entries0, entries1, e)
        &&& roots1 == roots0
    } else if as_str(obj_get(o, "@id"@)) is Some {
        exists|e: Element|
            element_from_object(e, o) && #[trigger] entry_put(entries0, entries1, e) && roots1 == (if e.owner is None {
                roots0.push(e.id)
            } else {
                roots0
            })
    } else {
        entries1 == entries0 && roots1 == roots0
    }
}

/// Read one JSON-LD object into the model: as a relationship when it has
/// `@id`, `@type`, `source` and `target`, else as an element.
fn read_object(model: &mut Model, o: &Vec<(String, JsonValue)>)
    ensures
        object_read(old(model).entries(), old(model).roots@, final(model).entries(), final(model).roots@, o@),
        final(model).metadata == old(model).metadata,
{
    match parse_relationship(o) {
        Some((element, source, target)) => {
            let Element { id, kind, owner, properties, .. } = element;
            let ghost e0 = element;
            let ghost before = model.entries();
            let rel_id = model.add_rel(id, kind, source, target, owner);
            let ghost mid = model.entries();
            proof {
                lemma_find_key(before, rel_id@);
                lemma_find_key(mid, rel_id@);
                if find_key(before, rel_id@) >= 0 {
                    lemma_find_key_same_keys(before, mid, rel_id@);
                } else {
                    assert forall|j: int| 0 <= j < before.len() implies before[j] == mid[j] by {
                        assert(mid.drop_last()[j] == mid[j]);
                    }
                    lemma_find_key(mid.drop_last(), rel_id@);
                    assert(find_key(mid, rel_id@) == mid.len() - 1);
                }
            }
            match model.get_mut(&rel_id) {
                Some(rel) => {
                    rel.properties = properties;
                },
                None => {
                    assert(false);
                },
            }
            proof {
                let i = find_key(before, rel_id@);
                let e = model.entries()[find_key(mid, rel_id@)].1;
                assert(relationship_from_object(e, o@));
                if i >= 0 {
                    assert(model.entries() =~= before.update(i, (before[i].0, e)));
                } else {
                    assert(model.entries().drop_last() =~= before);
                }
                assert(entry_put(before, model.entries(), e));
            }
        },
        None => {
            match parse_element(o) {
                Ok(Some(element)) => {
                    let ghost e = element;
                    let ghost before = model.entries();
                    model.add_element(element);
                    proof {
                        lemma_find_key(before, e.id@);
                        if find_key(before, e.id@) < 0 {
                            assert(model.entries().drop_last() =~= before);
                        }
                        assert(entry_put(before, model.entries(), e));
                    }
                },
                _ => {},
            }
        },
    }
}

/// The (owner, owned) claims that the elements' `owned_elements` lists
/// make, element by element in order.
pub open spec fn owner_claims(entries: Seq<(ElementId, Element)>) -> Seq<(ElementId, ElementId)>
    decreases entries.len(),
{
    if entries.len() == 0 {
        Seq::empty()
    } else {
        owner_claims(entries.drop_last()) + entries.last().1.owned_elements@.map_values(
            |o: ElementId| (entries.last().1.id, o),
        )
    }
}

/// The entries after applying the claims in order: a claim gives the
/// claimed element (found by ID) the claimant as owner unless it already
/// has one.
pub open spec fn apply_claims(entries: Seq<(ElementId, Element)>, claims: Seq<(ElementId, ElementId)>) -> Seq<(ElementId, Element)>
    decreases claims.len(),
{
    if claims.len() == 0 {
        entries
    } else {
        let e = apply_claims(entries, claims.drop_last());
        let (owner, owned) = claims.last();
        let j = find_key(e, owned@);
        if j >= 0 && e[j].1.owner is None {
            e.update(j, (e[j].0, Element { owner: Some(owner), ..e[j].1 }))
        } else {
            e
        }
    }
}

/// The ownership claims of the elements of `model`, in order.
fn collect_owner_claims(model: &Model) -> (updates: Vec<(ElementId, ElementId)>)
    ensures
        updates@ == owner_claims(model.entries()),
{
    let ghost start = model.entries();
    let n = element_map_len(&model.elements);
    let mut updates: Vec<(ElementId, ElementId)> = Vec::new();
    let mut i: usize = 0;
    while i < n
        invariant
            n == start.len(),
            start == model.entries(),
            i <= n,
            updates@ == owner_claims(start.take(i as int)),
        decreases n - i,
    {
        let (_, e) = element_map_get_index(&model.elements, i).unwrap();
        proof {
            assert(start.take(i + 1).drop_last() =~= start.take(i as int));
            assert(start.take(i + 1).last() == start[i as int]);
        }
        let ghost base = updates@;
        let mut j: usize = 0;
        while j < e.owned_elements.len()
            invariant
                j <= e.owned_elements@.len(),
                updates@ == base + e.owned_elements@.take(j as int).map_values(|o: ElementId| (e.id, o)),
            decreases e.owned_elements.len() - j,
        {
            updates.push((e.id.clone(), e.owned_elements[j].clone()));
            proof {
                assert(e.owned_elements@.take(j + 1) =~= e.owned_elements@.take(j as int).push(e.owned_elements@[j as int]));
                assert(updates@ =~= base + e.owned_elements@.take(j + 1).map_values(|o: ElementId| (e.id, o)));
            }
            j = j + 1;
        }
        assert(e.owned_elements@.take(e.owned_elements@.len() as int) =~= e.owned_elements@);
        i = i + 1;
    }
    assert(start.take(n as int) =~= start);
    updates
}

/// Apply one ownership claim: the element stored under `owned` takes
/// `owner` as its owner when it has none.
fn apply_owner_claim(model: &mut Model, owner: &ElementId, owned: &ElementId)
    ensures
        final(model).entries() == apply_claims(old(model).entries(), seq![(*owner, *owned)]),
        final(model).roots == old(model).roots,
        final(model).metadata == old(model).metadata,
{
    let ghost before = model.entries();
    let owner_id = owner.clone();
    match model.get_mut(owned) {
        Some(o) => {
            if o.owner.is_none() {
                o.owner = Some(owner_id);
            }
        },
        None => {},
    }
    proof {
        reveal_with_fuel(apply_claims, 2);
        assert(seq![(*owner, *owned)].drop_last() =~= Seq::<(ElementId, ElementId)>::empty());
        assert(seq![(*owner, *owned)].last() == (*owner, *owned));
        lemma_find_key(before, owned@);
        let jj = find_key(before, owned@);
        if jj >= 0 && before[jj].1.owner is None {
            assert(model.entries() =~= before.update(jj, (before[jj].0, Element { owner: Some(*owner), ..before[jj].1 })));
        } else if jj >= 0 {
            assert(model.entries() =~= before);
        }
    }
}

/// Applying the claims one more at a time.
proof fn lemma_apply_claims_step(entries: Seq<(ElementId, Element)>, claims: Seq<(ElementId, ElementId)>, k: int)
    requires
        0 <= k < claims.len(),
    ensures
        apply_claims(entries, claims.take(k + 1)) == apply_claims(apply_claims(entries, claims.take(k)), seq![claims[k]]),
{
    reveal_with_fuel(apply_claims, 2);
    assert(claims.take(k + 1).drop_last() =~= claims.take(k));
    assert(claims.take(k + 1).last() == claims[k]);
    assert(seq![claims[k]].drop_last() =~= Seq::<(ElementId, ElementId)>::empty());
    assert(seq![claims[k]].last() == claims[k]);
}

/// Give every element listed in another element's `owned_elements`, and
/// not yet owned, that element as owner (the first claim wins).
fn build_ownership(model: &mut Model)
    ensures
        final(model).entries() == apply_claims(old(model).entries(), owner_claims(old(model).entries())),
        final(model).roots == old(model).roots,
        final(model).metadata == old(model).metadata,
{
    let ghost start = model.entries();
    let updates = collect_owner_claims(model);
    let mut k: usize = 0;
    assert(updates@.take(0) =~= Seq::<(ElementId, ElementId)>::empty());
    while k < updates.len()
        invariant
            k <= updates@.len(),
            updates@ == owner_claims(start),
            model.entries() == apply_claims(start, updates@.take(k as int)),
            model.roots == old(model).roots,
            model.metadata == old(model).metadata,
        decreases updates.len() - k,
    {
        proof {
            lemma_apply_claims_step(start, updates@, k as int);
        }
        apply_owner_claim(model, &updates[k].0, &updates[k].1);
        k = k + 1;
    }
    assert(updates@.take(updates@.len() as int) =~= updates@);
}

/// How reading item `item` changes the entries and roots of a model: an
/// object is read as `object_read` says, anything else is skipped.
pub open spec fn item_read(
    entries0: Seq<(ElementId, Element)>,
    roots0: Seq<ElementId>,
    entries1: Seq<(ElementId, Element)>,
    roots1: Seq<ElementId>,
    item: JsonValue,
) -> bool {
    match item {
        JsonValue::Object(o) => object_read(entries0, roots0, entries1, roots1, o@),
        _ => entries1 == entries0 && roots1 == roots0,
    }
}

/// Whether `states` are the entries and roots of a model before and after
/// reading each of `items` in order.
pub open spec fn items_trace(states: Seq<(Seq<(ElementId, Element)>, Seq<ElementId>)>, items: Seq<JsonValue>) -> bool {
    &&& states.len() == items.len() + 1
    &&& forall|i: int| 0 <= i < items.len() ==> item_read(
        #[trigger] states[i].0,
        states[i].1,
        states[i + 1].0,
        states[i + 1].1,
        items[i],
    )
}

/// How reading the array items `items`, in order, changes the entries and
/// roots of a model.
pub open spec fn items_read(
    entries0: Seq<(ElementId, Element)>,
    roots0: Seq<ElementId>,
    entries1: Seq<(ElementId, Element)>,
    roots1: Seq<ElementId>,
    items: Seq<JsonValue>,
) -> bool {
    exists|states: Seq<(Seq<(ElementId, Element)>, Seq<ElementId>)>|
        items_trace(states, items) && states[0] == (entries0, roots0) && #[trigger] states.last() == (
            entries1,
            roots1,
        )
}

/// A JSON-LD document is an object or an array of objects.
pub open spec fn is_document(v: JsonValue) -> bool {
    v is Object || v is Array
}

/// The model a JSON-LD document describes, with `e` and `r` the entries
/// and roots read from its objects before ownership is built.
pub open spec fn document_read(v: JsonValue, e: Seq<(ElementId, Element)>, r: Seq<ElementId>) -> bool {
    match v {
        JsonValue::Object(o) => object_read(Seq::empty(), Seq::empty(), e, r, o@),
        JsonValue::Array(items) => items_read(Seq::empty(), Seq::empty(), e, r, items@),
        _ => false,
    }
}

impl JsonLdReader {
    /// The model that a JSON-LD document describes: its objects read in
    /// order, relationships as relationship elements and the others as
    /// elements, then every element listed under another's `ownedMember`
    /// and without owner given that owner. A document that is neither an
    /// object nor an array is refused.
    pub fn read_value(&self, value: &JsonValue) -> (r: Result<Model, InterchangeError>)
        ensures
            !is_document(*value) ==> (r matches Err(InterchangeError::Json(m)) && m@
                == "Expected object or array"@),
            is_document(*value) ==> (r matches Ok(model) && exists|e: Seq<(ElementId, Element)>, rs: Seq<ElementId>|
                document_read(*value, e, rs) && model.entries() == apply_claims(e, owner_claims(e))
                    && model.roots@ == rs),
    {
        let mut model = Model::new();
        assert(model.entries() =~= Seq::<(ElementId, Element)>::empty());
        assert(model.roots@ =~= Seq::<ElementId>::empty());
        match value {
            JsonValue::Object(o) => {
                read_object(&mut model, o);
            },
            JsonValue::Array(items) => {
                let mut i: usize = 0;
                let ghost mut states: Seq<(Seq<(ElementId, Element)>, Seq<ElementId>)> = seq![(model.entries(), model.roots@)];
                assert(items@.take(0) =~= Seq::<JsonValue>::empty());
                while i < items.len()
                    invariant
                        i <= items@.len(),
                        items_trace(states, items@.take(i as int)),
                        states[0] == (Seq::<(ElementId, Element)>::empty(), Seq::<ElementId>::empty()),
                        states.last() == (model.entries(), model.roots@),
                    decreases items.len() - i,
                {
                    let ghost em = model.entries();
                    let ghost rm = model.roots@;
                    if let JsonValue::Object(o) = &items[i] {
                        read_object(&mut model, o);
                    }
                    proof {
                        assert(item_read(em, rm, model.entries(), model.roots@, items@[i as int]));
                        let old_states = states;
                        states = states.push((model.entries(), model.roots@));
                        assert forall|j: int| 0 <= j < i + 1 implies item_read(
                            #[trigger] states[j].0,
                            states[j].1,
                            states[j + 1].0,
                            states[j + 1].1,
                            items@.take(i + 1)[j],
                        ) by {
                            if j < i {
                                assert(states[j] == old_states[j]);
                                assert(states[j + 1] == old_states[j + 1]);
                                assert(items@.take(i + 1)[j] == items@.take(i as int)[j]);
                            }
                        }
                    }
                    i = i + 1;
                }
                proof {
                    assert(items@.take(items@.len() as int) =~= items@);
                    assert(items_read(Seq::empty(), Seq::empty(), model.entries(), model.roots@, items@));
                }
            },
            _ => {
                return Err(InterchangeError::json("Expected object or array"));
            },
        }
        let ghost e = model.entries();
        let ghost rs = model.roots@;
        assert(document_read(*value, e, rs));
        build_ownership(&mut model);
        Ok(model)
    }
}

/// The SysML v2 JSON-LD context.
pub open spec fn sysml_context() -> Seq<char> {
    "https://www.omg.org/spec/SysML/20230201/context"@
}

/// A reference object `{"@id": id}`.
pub open spec fn ref_view(id: Seq<char>) -> JsonView {
    JsonView::Object(seq![("@id"@, JsonView::String(id))])
}

/// The JSON that a property value is written as: scalars as themselves,
/// references as reference objects, lists as arrays.
pub open spec fn property_view(p: PropertyValue) -> JsonView
    decreases p,
{
    match p {
        PropertyValue::String(s) => JsonView::String(s@),
        PropertyValue::Integer(i) => JsonView::Integer(i),
        PropertyValue::Real(x) => JsonView::Real(x),
        PropertyValue::Boolean(b) => JsonView::Bool(b),
        PropertyValue::Reference(id) => ref_view(id@),
        PropertyValue::List(items) => JsonView::Array(
            Seq::new(items@.len(), |i: int| if 0 <= i < items@.len() { property_view(items@[i]) } else { JsonView::Null }),
        ),
    }
}

/// The members `ms` after each property of `props` is set, in order.
pub open spec fn put_properties(ms: Seq<(Seq<char>, JsonView)>, props: Seq<(String, PropertyValue)>) -> Seq<(Seq<char>, JsonView)>
    decreases props.len(),
{
    if props.len() == 0 {
        ms
    } else {
        put_member(put_properties(ms, props.drop_last()), props.last().0@, property_view(props.last().1))
    }
}

/// The members that start the object for element `e`: the context for a
/// root, type, ID and names.
pub open spec fn element_head_members(e: Element) -> Seq<(Seq<char>, JsonView)> {
    let m0 = Seq::<(Seq<char>, JsonView)>::empty();
    let m1 = if e.owner is None { put_member(m0, "@context"@, JsonView::String(sysml_context())) } else { m0 };
    let m2 = put_member(m1, "@type"@, JsonView::String(e.kind.spec_jsonld_type()));
    let m3 = put_member(m2, "@id"@, JsonView::String(e.id@));
    let m4 = match e.name { Some(n) => put_member(m3, "name"@, JsonView::String(n@)), None => m3 };
    let m5 = match e.qualified_name { Some(n) => put_member(m4, "qualifiedName"@, JsonView::String(n@)), None => m4 };
    let m6 = match e.short_name { Some(n) => put_member(m5, "shortName"@, JsonView::String(n@)), None => m5 };
    match e.qualified_name { Some(n) => put_member(m6, "qualifiedName"@, JsonView::String(n@)), None => m6 }
}

/// The members `m0` after the flags of `e` that are set are written as
/// `true`.
pub open spec fn element_flag_members(e: Element, m0: Seq<(Seq<char>, JsonView)>) -> Seq<(Seq<char>, JsonView)> {
    let m1 = if e.is_abstract { put_member(m0, "isAbstract"@, JsonView::Bool(true)) } else { m0 };
    let m2 = if e.is_variation { put_member(m1, "isVariation"@, JsonView::Bool(true)) } else { m1 };
    let m3 = if e.is_derived { put_member(m2, "isDerived"@, JsonView::Bool(true)) } else { m2 };
    let m4 = if e.is_readonly { put_member(m3, "isReadOnly"@, JsonView::Bool(true)) } else { m3 };
    let m5 = if e.is_parallel { put_member(m4, "isParallel"@, JsonView::Bool(true)) } else { m4 };
    let m6 = if e.is_individual { put_member(m5, "isIndividual"@, JsonView::Bool(true)) } else { m5 };
    let m7 = if e.is_end { put_member(m6, "isEnd"@, JsonView::Bool(true)) } else { m6 };
    let m8 = if e.is_default { put_member(m7, "isDefault"@, JsonView::Bool(true)) } else { m7 };
    let m9 = if e.is_ordered { put_member(m8, "isOrdered"@, JsonView::Bool(true)) } else { m8 };
    let m10 = if e.is_nonunique { put_member(m9, "isNonunique"@, JsonView::Bool(true)) } else { m9 };
    let m11 = if e.is_portion { put_member(m10, "isPortion"@, JsonView::Bool(true)) } else { m10 };
    m11
}

/// The members of the JSON-LD object that element `e` is written as.
pub open spec fn element_members(e: Element) -> Seq<(Seq<char>, JsonView)> {
    let m18 = element_flag_members(e, element_head_members(e));
    let m19 = match e.documentation { Some(d) => put_member(m18, "documentation"@, JsonView::String(d@)), None => m18 };
    let m20 = put_properties(m19, property_entries(e.properties));
    let m21 = match e.owner { Some(o) => put_member(m20, "owner"@, ref_view(o@)), None => m20 };
    if e.owned_elements@.len() > 0 {
        put_member(m21, "ownedMember"@, JsonView::Array(e.owned_elements@.map_values(|id: ElementId| ref_view(id@))))
    } else {
        m21
    }
}

/// The members of the JSON-LD object that relationship element `e` is
/// written as.
pub open spec fn relationship_members(e: Element) -> Seq<(Seq<char>, JsonView)> {
    let m0 = Seq::<(Seq<char>, JsonView)>::empty();
    let m1 = put_member(m0, "@type"@, JsonView::String(e.kind.spec_jsonld_type()));
    let m2 = put_member(m1, "@id"@, JsonView::String(e.id@));
    let m3 = match e.spec_source() { Some(src) => put_member(m2, "source"@, ref_view(src@)), None => m2 };
    let m4 = match e.spec_target() { Some(tgt) => put_member(m3, "target"@, ref_view(tgt@)), None => m3 };
    let m5 = match e.owner { Some(o) => put_member(m4, "owner"@, ref_view(o@)), None => m4 };
    put_properties(m5, property_entries(e.properties))
}

/// The JSON that property value `p` is written as.
fn property_to_json(p: &PropertyValue) -> (r: JsonValue)
    ensures
        json_view(r) == property_view(*p),
    decreases p,
{
    match p {
        PropertyValue::String(s) => JsonValue::String(s.clone()),
        PropertyValue::Integer(i) => JsonValue::Integer(*i),
        PropertyValue::Real(x) => JsonValue::Real(*x),
        PropertyValue::Boolean(b) => JsonValue::Bool(*b),
        PropertyValue::Reference(id) => reference_json(id),
        PropertyValue::List(items) => {
            let mut out: Vec<JsonValue> = Vec::new();
            let mut i: usize = 0;
            while i < items.len()
                invariant
                    *p == PropertyValue::List(*items),
                    i <= items@.len(),
                    views_of(out@) == Seq::new(i as nat, |j: int| property_view(items@[j])),
                decreases items.len() - i,
            {
                proof {
                    let pp = *p;
                    let vv = *items;
                    assert(pp is List);
                    assert(decreases_to!(pp => pp->List_0));
                    assert(pp->List_0 == vv);
                    assert(decreases_to!(vv => vv@));
                    assert(decreases_to!(vv@ => vv@[i as int]));
                    assert(decreases_to!(pp => items@[i as int]));
                }
                let v = property_to_json(&items[i]);
                let ghost before = out@;
                out.push(v);
                proof {
                    assert(views_of(out@) =~= views_of(before).push(json_view(v)));
                    assert(views_of(out@) =~= Seq::new((i + 1) as nat, |j: int| property_view(items@[j])));
                }
                i = i + 1;
            }
            proof {
                lemma_array_view(out);
                let pv = property_view(*p);
                assert(pv->Array_0 =~= views_of(out@));
            }
            JsonValue::Array(out)
        },
    }
}

/// The reference object `{"@id": id}`.
fn reference_json(id: &ElementId) -> (r: JsonValue)
    ensures
        json_view(r) == ref_view(id@),
{
    let mut o: Vec<(String, JsonValue)> = Vec::new();
    o.push((String::from_str("@id"), JsonValue::String(String::from_str(id.as_str()))));
    proof {
        lemma_object_view(o);
        reveal_strlit("@id");
        assert(members_view(o@) =~= seq![("@id"@, JsonView::String(id@))]);
    }
    JsonValue::Object(o)
}

/// Set each property of `e`, in order, as a member of `obj`.
fn insert_properties(obj: &mut Vec<(String, JsonValue)>, e: &Element)
    ensures
        members_view(final(obj)@) == put_properties(members_view(old(obj)@), property_entries(e.properties)),
{
    let n = property_map_len(&e.properties);
    let ghost props = property_entries(e.properties);
    let ghost start = members_view(obj@);
    let mut i: usize = 0;
    assert(props.take(0) =~= Seq::<(String, PropertyValue)>::empty());
    while i < n
        invariant
            n == props.len(),
            props == property_entries(e.properties),
            i <= n,
            start == members_view(old(obj)@),
            members_view(obj@) == put_properties(start, props.take(i as int)),
        decreases n - i,
    {
        let (k, v) = property_map_get_index(&e.properties, i).unwrap();
        proof {
            assert(props.take(i + 1).drop_last() =~= props.take(i as int));
            assert(props.take(i + 1).last() == props[i as int]);
        }
        let jv = property_to_json(v);
        obj_insert(obj, k.clone(), jv);
        i = i + 1;
    }
    assert(props.take(n as int) =~= props);
}

/// Write the head members of element `e` into the empty object `obj`.
fn insert_head(obj: &mut Vec<(String, JsonValue)>, e: &Element)
    requires
        old(obj)@.len() == 0,
    ensures
        members_view(final(obj)@) == element_head_members(*e),
{
    proof {
        assert(members_view(obj@) =~= Seq::<(Seq<char>, JsonView)>::empty());
        reveal_strlit("https://www.omg.org/spec/SysML/20230201/context");
    }
    if e.owner.is_none() {
        obj_insert(obj, String::from_str("@context"), JsonValue::String(String::from_str("https://www.omg.org/spec/SysML/20230201/context")));
    }
    obj_insert(obj, String::from_str("@type"), JsonValue::String(String::from_str(e.kind.jsonld_type())));
    obj_insert(obj, String::from_str("@id"), JsonValue::String(String::from_str(e.id.as_str())));
    if let Some(n) = &e.name {
        obj_insert(obj, String::from_str("name"), JsonValue::String(n.clone()));
    }
    if let Some(n) = &e.qualified_name {
        obj_insert(obj, String::from_str("qualifiedName"), JsonValue::String(n.clone()));
    }
    if let Some(n) = &e.short_name {
        obj_insert(obj, String::from_str("shortName"), JsonValue::String(n.clone()));
    }
    if let Some(n) = &e.qualified_name {
        obj_insert(obj, String::from_str("qualifiedName"), JsonValue::String(n.clone()));
    }
}

/// Write the flags of `e` that are set into `obj` as `true`.
fn insert_flags(obj: &mut Vec<(String, JsonValue)>, e: &Element)
    ensures
        members_view(final(obj)@) == element_flag_members(*e, members_view(old(obj)@)),
{
    if e.is_abstract {
        obj_insert(obj, String::from_str("isAbstract"), JsonValue::Bool(true));
    }
    if e.is_variation {
        obj_insert(obj, String::from_str("isVariation"), JsonValue::Bool(true));
    }
    if e.is_derived {
        obj_insert(obj, String::from_str("isDerived"), JsonValue::Bool(true));
    }
    if e.is_readonly {
        obj_insert(obj, String::from_str("isReadOnly"), JsonValue::Bool(true));
    }
    if e.is_parallel {
        obj_insert(obj, String::from_str("isParallel"), JsonValue::Bool(true));
    }
    if e.is_individual {
        obj_insert(obj, String::from_str("isIndividual"), JsonValue::Bool(true));
    }
    if e.is_end {
        obj_insert(obj, String::from_str("isEnd"), JsonValue::Bool(true));
    }
    if e.is_default {
        obj_insert(obj, String::from_str("isDefault"), JsonValue::Bool(true));
    }
    if e.is_ordered {
        obj_insert(obj, String::from_str("isOrdered"), JsonValue::Bool(true));
    }
    if e.is_nonunique {
        obj_insert(obj, String::from_str("isNonunique"), JsonValue::Bool(true));
    }
    if e.is_portion {
        obj_insert(obj, String::from_str("isPortion"), JsonValue::Bool(true));
    }
}

/// The reference objects for `ids`, as an array.
fn reference_array(ids: &Vec<ElementId>) -> (r: JsonValue)
    ensures
        json_view(r) == JsonView::Array(ids@.map_values(|id: ElementId| ref_view(id@))),
{
    let mut members: Vec<JsonValue> = Vec::new();
    let mut i: usize = 0;
    while i < ids.len()
        invariant
            i <= ids@.len(),
            views_of(members@) == ids@.take(i as int).map_values(|id: ElementId| ref_view(id@)),
        decreases ids.len() - i,
    {
        let r = reference_json(&ids[i]);
        let ghost before = members@;
        members.push(r);
        proof {
            assert(views_of(members@) =~= views_of(before).push(json_view(r)));
            assert(ids@.take(i + 1) =~= ids@.take(i as int).push(ids@[i as int]));
            assert(views_of(members@) =~= ids@.take(i + 1).map_values(|id: ElementId| ref_view(id@)));
        }
        i = i + 1;
    }
    proof {
        assert(ids@.take(ids@.len() as int) =~= ids@);
        lemma_array_view(members);
    }
    JsonValue::Array(members)
}

/// The JSON-LD object that element `e` is written as.
fn element_to_json(e: &Element) -> (r: JsonValue)
    ensures
        json_view(r) == JsonView::Object(element_members(*e)),
{
    let mut obj: Vec<(String, JsonValue)> = Vec::new();
    insert_head(&mut obj, e);
    insert_flags(&mut obj, e);
    if let Some(d) = &e.documentation {
        obj_insert(&mut obj, String::from_str("documentation"), JsonValue::String(d.clone()));
    }
    insert_properties(&mut obj, e);
    if let Some(o) = &e.owner {
        obj_insert(&mut obj, String::from_str("owner"), reference_json(o));
    }
    if e.owned_elements.len() > 0 {
        let arr = reference_array(&e.owned_elements);
        obj_insert(&mut obj, String::from_str("ownedMember"), arr);
    }
    proof {
        lemma_object_view(obj);
    }
    JsonValue::Object(obj)
}

/// The JSON-LD object that relationship element `e` is written as.
fn relationship_to_json(e: &Element) -> (r: JsonValue)
    ensures
        json_view(r) == JsonView::Object(relationship_members(*e)),
{
    let mut obj: Vec<(String, JsonValue)> = Vec::new();
    proof {
        assert(members_view(obj@) =~= Seq::<(Seq<char>, JsonView)>::empty());
    }
    obj_insert(&mut obj, String::from_str("@type"), JsonValue::String(String::from_str(e.kind.jsonld_type())));
    obj_insert(&mut obj, String::from_str("@id"), JsonValue::String(String::from_str(e.id.as_str())));
    if let Some(src) = e.source() {
        obj_insert(&mut obj, String::from_str("source"), reference_json(src));
    }
    if let Some(tgt) = e.target() {
        obj_insert(&mut obj, String::from_str("target"), reference_json(tgt));
    }
    if let Some(o) = &e.owner {
        obj_insert(&mut obj, String::from_str("owner"), reference_json(o));
    }
    insert_properties(&mut obj, e);
    proof {
        lemma_object_view(obj);
    }
    JsonValue::Object(obj)
}

/// The JSON-LD document for a list of written objects: the object itself
/// when there is exactly one, else the array of all.
pub open spec fn document_of(items: Seq<JsonView>) -> JsonView {
    if items.len() == 1 {
        items[0]
    } else {
        JsonView::Array(items)
    }
}

/// The objects that a model is written as: its elements without
/// relationship data, then its relationship elements, each in model order.
pub open spec fn model_objects(m: Model) -> Seq<JsonView> {
    select(m.values(), |e: Element| e.relationship.is_none()).map_values(|e: Element| JsonView::Object(element_members(e)))
        + select(m.values(), |e: Element| e.relationship.is_some()).map_values(|e: Element| JsonView::Object(relationship_members(e)))
}

/// Writes models as JSON-LD documents.
#[derive(Debug)]
pub struct JsonLdWriter;

impl JsonLdWriter {
    /// A writer.
    pub fn new() -> (r: JsonLdWriter) {
        JsonLdWriter
    }

    /// The JSON-LD document for `model`: one object per element, the
    /// plain elements first and then the relationship elements; a single
    /// object stands alone, several form an array.
    pub fn to_value(&self, model: &Model) -> (r: JsonValue)
        ensures
            json_view(r) == document_of(model_objects(*model)),
    {
        let elements = model.iter_elements();
        let mut items: Vec<JsonValue> = Vec::new();
        let ghost plain = |e: Element| e.relationship.is_none();
        let mut i: usize = 0;
        while i < elements.len()
            invariant
                derefs(elements@) == model.values(),
                i <= elements@.len(),
                views_of(items@) == select(derefs(elements@).take(i as int), |e: Element| e.relationship.is_none()).map_values(
                    |e: Element| JsonView::Object(element_members(e)),
                ),
            decreases elements.len() - i,
        {
            let e = elements[i];
            proof {
                assert(derefs(elements@).take(i + 1).drop_last() =~= derefs(elements@).take(i as int));
                assert(derefs(elements@).take(i + 1).last() == *e);
            }
            if e.relationship.is_none() {
                let j = element_to_json(e);
                let ghost before = items@;
                items.push(j);
                proof {
                    assert(views_of(items@) =~= views_of(before).push(json_view(j)));
                }
            }
            i = i + 1;
        }
        assert(derefs(elements@).take(elements@.len() as int) =~= derefs(elements@));
        let rels = model.iter_relationship_elements();
        let ghost first = views_of(items@);
        let mut k: usize = 0;
        while k < rels.len()
            invariant
                k <= rels@.len(),
                views_of(items@) == first + derefs(rels@).take(k as int).map_values(
                    |e: Element| JsonView::Object(relationship_members(e)),
                ),
            decreases rels.len() - k,
        {
            let e = rels[k];
            let j = relationship_to_json(e);
            let ghost before = items@;
            items.push(j);
            proof {
                assert(derefs(rels@).take(k + 1) =~= derefs(rels@).take(k as int).push(*e));
                assert(views_of(items@) =~= views_of(before).push(json_view(j)));
                assert(views_of(items@) =~= first + derefs(rels@).take(k + 1).map_values(
                    |e: Element| JsonView::Object(relationship_members(e)),
                ));
            }
            k = k + 1;
        }
        assert(derefs(rels@).take(rels@.len() as int) =~= derefs(rels@));
        assert(views_of(items@) =~= model_objects(*model));
        if items.len() == 1 {
            let only = items.pop().unwrap();
            assert(json_view(only) == views_of(items@.push(only))[0]);
            only
        } else {
            proof {
                lemma_array_view(items);
            }
            JsonValue::Array(items)
        }
    }
}

} // verus!
