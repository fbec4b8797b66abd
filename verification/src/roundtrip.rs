//! What reading gives back of what was written.

use vstd::prelude::*;
use crate::element_kind::ElementKind;
use crate::json::{
    JsonValue, JsonView, as_str, json_view, lemma_member_get_put, lemma_obj_get_view,
    lemma_view_array, lemma_view_bool, lemma_view_object, lemma_view_string, member_get, members_view,
    obj_get, put_member, ref_id, views_of};
use crate::jsonld::{
    apply_claims, document_of, document_read, entry_put, item_read, items_trace, model_objects, object_read,
    owner_claims, element_flag_members, element_from_object, element_head_members, element_members, flag_of,
    id_texts, is_element_field_key, is_relationship_field_key, member_refs, owned_member_refs, property_view,
    put_properties, ref_view, relationship_from_object, relationship_members, relationship_parts, string_texts,};
use crate::kind_names::lemma_jsonld_type_roundtrip;
use crate::model::{Element, ElementId, Model, PropertyValue, id_views, select};
use crate::model_laws::{keys_are_ids, keys_distinct};
use crate::ordered_map::{find_key, lemma_find_key, property_entries};
use crate::xmi_attrs::{
    AttrView, bool_text, element_attrs, endpoint_attrs, escape_char, escape_text, flag_attr, flag_attrs, has_prefix,
    head_attrs, is_skipped_property, other_attrs, prop_get,};
use crate::xmi_reader::{TagAttribute, XmlTag, element_from_tag, is_tag_field_key, last_value};

verus! {

/// The value of the last property of `props` named `k`.
pub open spec fn last_property(props: Seq<(String, PropertyValue)>, k: Seq<char>) -> Option<PropertyValue>
    decreases props.len(),
{
    if props.len() == 0 {
        None
    } else if props.last().0@ == k {
        Some(props.last().1)
    } else {
        last_property(props.drop_last(), k)
    }
}

/// Reading a member after the properties are set: the last property of
/// that name, or what was there.
proof fn lemma_member_get_properties(ms: Seq<(Seq<char>, JsonView)>, props: Seq<(String, PropertyValue)>, k: Seq<char>)
    ensures
        member_get(put_properties(ms, props), k) == match last_property(props, k) {
            Some(p) => Some(property_view(p)),
            None => member_get(ms, k),
        },
    decreases props.len(),
{
    if props.len() > 0 {
        lemma_member_get_properties(ms, props.drop_last(), k);
        lemma_member_get_put(put_properties(ms, props.drop_last()), props.last().0@, property_view(props.last().1), k);
    }
}

/// The field of flag `k` of `e`, for the flags that have one.
pub open spec fn flag_field_value(e: Element, k: Seq<char>) -> Option<bool> {
    if k == "isAbstract"@ {
        Some(e.is_abstract)
    } else if k == "isVariation"@ {
        Some(e.is_variation)
    } else if k == "isDerived"@ {
        Some(e.is_derived)
    } else if k == "isReadOnly"@ {
        Some(e.is_readonly)
    } else if k == "isParallel"@ {
        Some(e.is_parallel)
    } else if k == "isIndividual"@ {
        Some(e.is_individual)
    } else if k == "isEnd"@ {
        Some(e.is_end)
    } else if k == "isDefault"@ {
        Some(e.is_default)
    } else if k == "isOrdered"@ {
        Some(e.is_ordered)
    } else if k == "isNonunique"@ {
        Some(e.is_nonunique)
    } else if k == "isPortion"@ {
        Some(e.is_portion)
    } else {
        None
    }
}

/// Whether the properties of `e` can stand beside its fields in one JSON-LD
/// object: a property named like a field is a flag that holds the field's
/// value (as the flag setters keep it), and none is named `source` or
/// `target`.
pub open spec fn properties_fit_fields(e: Element) -> bool {
    let props = property_entries(e.properties);
    forall|i: int|
        0 <= i < props.len() ==> {
            &&& is_element_field_key(#[trigger] props[i].0@) ==> (flag_field_value(e, props[i].0@) matches Some(
                b,
            ) && props[i].1 == PropertyValue::Boolean(b))
            &&& props[i].0@ != "source"@
            &&& props[i].0@ != "target"@
        }
}

/// Under `properties_fit_fields`, the last property named like a field or
/// an endpoint is absent, or a flag holding the field's value.
proof fn lemma_fitting_property(e: Element, props: Seq<(String, PropertyValue)>, k: Seq<char>)
    requires
        properties_fit_fields(e),
        props.len() <= property_entries(e.properties).len(),
        props == property_entries(e.properties).take(props.len() as int),
        is_element_field_key(k) || k == "source"@ || k == "target"@,
    ensures
        match last_property(props, k) {
            Some(p) => is_element_field_key(k) && (flag_field_value(e, k) matches Some(b) && p == PropertyValue::Boolean(b)),
            None => true,
        },
    decreases props.len(),
{
    if props.len() > 0 {
        let all = property_entries(e.properties);
        assert(props.drop_last() == all.take(props.len() - 1));
        assert(props.last() == all[props.len() - 1]);
        if props.last().0@ != k {
            lemma_fitting_property(e, props.drop_last(), k);
        }
    }
}

/// Every flag name starts with `i`.
proof fn lemma_flags_start_with_i(e: Element, k: Seq<char>)
    ensures
        flag_field_value(e, k) is Some ==> k.len() > 0 && k[0] == 'i',
{
    reveal_strlit("isAbstract");
    reveal_strlit("isVariation");
    reveal_strlit("isDerived");
    reveal_strlit("isReadOnly");
    reveal_strlit("isParallel");
    reveal_strlit("isIndividual");
    reveal_strlit("isEnd");
    reveal_strlit("isDefault");
    reveal_strlit("isOrdered");
    reveal_strlit("isNonunique");
    reveal_strlit("isPortion");
}

/// A property set after `ms` leaves a member named like a field that is
/// not a flag, or like an endpoint, as it was.
proof fn lemma_unflagged_key(e: Element, ms: Seq<(Seq<char>, JsonView)>, k: Seq<char>)
    requires
        properties_fit_fields(e),
        is_element_field_key(k) || k == "source"@ || k == "target"@,
        k.len() > 0 && k[0] != 'i',
    ensures
        member_get(put_properties(ms, property_entries(e.properties)), k) == member_get(ms, k),
{
    lemma_flags_start_with_i(e, k);
    let props = property_entries(e.properties);
    assert(props.take(props.len() as int) == props);
    lemma_member_get_properties(ms, props, k);
    lemma_fitting_property(e, props, k);
}

/// The text of an optional string.
pub open spec fn opt_text(s: Option<String>) -> Option<Seq<char>> {
    match s {
        Some(x) => Some(x@),
        None => None,
    }
}

/// The characters that tell the member names apart.
proof fn lemma_key_chars()
    ensures
        "@id"@.len() > 1 && "@id"@[0] == '@' && "@id"@[1] == 'i',
        "@type"@.len() > 1 && "@type"@[0] == '@' && "@type"@[1] == 't',
        "@context"@.len() > 1 && "@context"@[0] == '@' && "@context"@[1] == 'c',
        "name"@.len() > 0 && "name"@[0] == 'n',
        "declaredName"@.len() > 8 && "declaredName"@[0] == 'd' && "declaredName"@[1] == 'e' && "declaredName"@[8] == 'N',
        "declaredShortName"@.len() > 8 && "declaredShortName"@[0] == 'd' && "declaredShortName"@[1] == 'e' && "declaredShortName"@[8] == 'S',
        "documentation"@.len() > 1 && "documentation"@[0] == 'd' && "documentation"@[1] == 'o',
        "qualifiedName"@.len() > 0 && "qualifiedName"@[0] == 'q',
        "shortName"@.len() > 1 && "shortName"@[0] == 's' && "shortName"@[1] == 'h',
        "source"@.len() > 1 && "source"@[0] == 's' && "source"@[1] == 'o',
        "body"@.len() > 0 && "body"@[0] == 'b',
        "target"@.len() > 0 && "target"@[0] == 't',
        "owner"@.len() > 4 && "owner"@[0] == 'o' && "owner"@[4] == 'r',
        "ownedMember"@.len() > 4 && "ownedMember"@[0] == 'o' && "ownedMember"@[4] == 'd',
        "isAbstract"@.len() > 0 && "isAbstract"@[0] == 'i',
        "isVariation"@.len() > 0 && "isVariation"@[0] == 'i',
        "isDerived"@.len() > 0 && "isDerived"@[0] == 'i',
        "isReadOnly"@.len() > 0 && "isReadOnly"@[0] == 'i',
        "isParallel"@.len() > 0 && "isParallel"@[0] == 'i',
        "isIndividual"@.len() > 0 && "isIndividual"@[0] == 'i',
        "isEnd"@.len() > 0 && "isEnd"@[0] == 'i',
        "isDefault"@.len() > 0 && "isDefault"@[0] == 'i',
        "isOrdered"@.len() > 0 && "isOrdered"@[0] == 'i',
        "isNonunique"@.len() > 0 && "isNonunique"@[0] == 'i',
        "isPortion"@.len() > 0 && "isPortion"@[0] == 'i',
{
    reveal_strlit("@id");
    reveal_strlit("@type");
    reveal_strlit("@context");
    reveal_strlit("name");
    reveal_strlit("declaredName");
    reveal_strlit("qualifiedName");
    reveal_strlit("shortName");
    reveal_strlit("declaredShortName");
    reveal_strlit("documentation");
    reveal_strlit("body");
    reveal_strlit("source");
    reveal_strlit("target");
    reveal_strlit("owner");
    reveal_strlit("ownedMember");
    reveal_strlit("isAbstract");
    reveal_strlit("isVariation");
    reveal_strlit("isDerived");
    reveal_strlit("isReadOnly");
    reveal_strlit("isParallel");
    reveal_strlit("isIndividual");
    reveal_strlit("isEnd");
    reveal_strlit("isDefault");
    reveal_strlit("isOrdered");
    reveal_strlit("isNonunique");
    reveal_strlit("isPortion");
}

/// The flag members leave a member whose name does not start with `i` as it was.
proof fn lemma_flag_members_keep(e: Element, m0: Seq<(Seq<char>, JsonView)>, k: Seq<char>)
    requires
        k.len() > 0 && k[0] != 'i',
    ensures
        member_get(element_flag_members(e, m0), k) == member_get(m0, k),
{
    broadcast use lemma_member_get_put;

    lemma_key_chars();
}

/// What the head of a written element holds under the names the reader reads.
proof fn lemma_head_members(e: Element)
    ensures
        member_get(element_head_members(e), "@id"@) == Some(JsonView::String(e.id@)),
        member_get(element_head_members(e), "@type"@) == Some(JsonView::String(e.kind.spec_jsonld_type())),
        member_get(element_head_members(e), "name"@) == match e.name {
            Some(n) => Some(JsonView::String(n@)),
            None => None::<JsonView>,
        },
        member_get(element_head_members(e), "declaredName"@) is None,
        member_get(element_head_members(e), "qualifiedName"@) == match e.qualified_name {
            Some(n) => Some(JsonView::String(n@)),
            None => None::<JsonView>,
        },
        member_get(element_head_members(e), "shortName"@) == match e.short_name {
            Some(n) => Some(JsonView::String(n@)),
            None => None::<JsonView>,
        },
        member_get(element_head_members(e), "declaredShortName"@) is None,
        member_get(element_head_members(e), "documentation"@) is None,
        member_get(element_head_members(e), "body"@) is None,
        member_get(element_head_members(e), "source"@) is None,
        member_get(element_head_members(e), "target"@) is None,
        member_get(element_head_members(e), "owner"@) is None,
        member_get(element_head_members(e), "ownedMember"@) is None,
{
    broadcast use lemma_member_get_put;

    lemma_key_chars();
    let m0 = Seq::<(Seq<char>, JsonView)>::empty();
    assert(member_get(m0, "@id"@) is None);
    assert(member_get(m0, "@type"@) is None);
    assert(member_get(m0, "name"@) is None);
    assert(member_get(m0, "declaredName"@) is None);
    assert(member_get(m0, "qualifiedName"@) is None);
    assert(member_get(m0, "shortName"@) is None);
    assert(member_get(m0, "declaredShortName"@) is None);
    assert(member_get(m0, "documentation"@) is None);
    assert(member_get(m0, "body"@) is None);
    assert(member_get(m0, "source"@) is None);
    assert(member_get(m0, "target"@) is None);
    assert(member_get(m0, "owner"@) is None);
    assert(member_get(m0, "ownedMember"@) is None);
}

/// A member of a written element whose name is none of the names written
/// after the head, and not a property's, holds what the head holds.
proof fn lemma_member_from_head(e: Element, k: Seq<char>)
    requires
        properties_fit_fields(e),
        is_element_field_key(k) || k == "source"@ || k == "target"@,
        k.len() > 0 && k[0] != 'i',
        k != "documentation"@,
        k != "owner"@,
        k != "ownedMember"@,
    ensures
        member_get(element_members(e), k) == member_get(element_head_members(e), k),
{
    broadcast use lemma_member_get_put;

    let m18 = element_flag_members(e, element_head_members(e));
    lemma_flag_members_keep(e, element_head_members(e), k);
    let m19 = match e.documentation {
        Some(d) => put_member(m18, "documentation"@, JsonView::String(d@)),
        None => m18,
    };
    lemma_unflagged_key(e, m19, k);
}

/// The object view of a written element, read by name: the fields the
/// writer sets, and nothing under the endpoint names.
proof fn lemma_written_members(e: Element)
    requires
        properties_fit_fields(e),
    ensures
        member_get(element_members(e), "@id"@) == Some(JsonView::String(e.id@)),
        member_get(element_members(e), "@type"@) == Some(JsonView::String(e.kind.spec_jsonld_type())),
        member_get(element_members(e), "name"@) == match e.name {
            Some(n) => Some(JsonView::String(n@)),
            None => None::<JsonView>,
        },
        member_get(element_members(e), "declaredName"@) is None,
        member_get(element_members(e), "qualifiedName"@) == match e.qualified_name {
            Some(n) => Some(JsonView::String(n@)),
            None => None::<JsonView>,
        },
        member_get(element_members(e), "shortName"@) == match e.short_name {
            Some(n) => Some(JsonView::String(n@)),
            None => None::<JsonView>,
        },
        member_get(element_members(e), "declaredShortName"@) is None,
        member_get(element_members(e), "body"@) is None,
        member_get(element_members(e), "source"@) is None,
        member_get(element_members(e), "target"@) is None,
{
    lemma_key_chars();
    lemma_head_members(e);
    assert(is_element_field_key("@id"@));
    lemma_member_from_head(e, "@id"@);
    lemma_member_from_head(e, "@type"@);
    lemma_member_from_head(e, "name"@);
    lemma_member_from_head(e, "declaredName"@);
    lemma_member_from_head(e, "qualifiedName"@);
    lemma_member_from_head(e, "shortName"@);
    lemma_member_from_head(e, "declaredShortName"@);
    lemma_member_from_head(e, "body"@);
    lemma_member_from_head(e, "source"@);
    lemma_member_from_head(e, "target"@);
}

/// The characters that tell the flag names apart.
proof fn lemma_flag_chars()
    ensures
        "isAbstract"@.len() == 10 && "isAbstract"@[2] == 'A' && "isAbstract"@[3] == 'b' && "isAbstract"@[4] == 's',
        "isVariation"@.len() == 11 && "isVariation"@[2] == 'V' && "isVariation"@[3] == 'a' && "isVariation"@[4] == 'r',
        "isDerived"@.len() == 9 && "isDerived"@[2] == 'D' && "isDerived"@[3] == 'e' && "isDerived"@[4] == 'r',
        "isReadOnly"@.len() == 10 && "isReadOnly"@[2] == 'R' && "isReadOnly"@[3] == 'e' && "isReadOnly"@[4] == 'a',
        "isParallel"@.len() == 10 && "isParallel"@[2] == 'P' && "isParallel"@[3] == 'a' && "isParallel"@[4] == 'r',
        "isIndividual"@.len() == 12 && "isIndividual"@[2] == 'I' && "isIndividual"@[3] == 'n' && "isIndividual"@[4] == 'd',
        "isEnd"@.len() == 5 && "isEnd"@[2] == 'E' && "isEnd"@[3] == 'n' && "isEnd"@[4] == 'd',
        "isDefault"@.len() == 9 && "isDefault"@[2] == 'D' && "isDefault"@[3] == 'e' && "isDefault"@[4] == 'f',
        "isOrdered"@.len() == 9 && "isOrdered"@[2] == 'O' && "isOrdered"@[3] == 'r' && "isOrdered"@[4] == 'd',
        "isNonunique"@.len() == 11 && "isNonunique"@[2] == 'N' && "isNonunique"@[3] == 'o' && "isNonunique"@[4] == 'n',
        "isPortion"@.len() == 9 && "isPortion"@[2] == 'P' && "isPortion"@[3] == 'o' && "isPortion"@[4] == 'r',
{
    reveal_strlit("isAbstract");
    reveal_strlit("isVariation");
    reveal_strlit("isDerived");
    reveal_strlit("isReadOnly");
    reveal_strlit("isParallel");
    reveal_strlit("isIndividual");
    reveal_strlit("isEnd");
    reveal_strlit("isDefault");
    reveal_strlit("isOrdered");
    reveal_strlit("isNonunique");
    reveal_strlit("isPortion");
}

/// What the written members hold under the names written after the flags.
proof fn lemma_written_tail(e: Element)
    requires
        properties_fit_fields(e),
    ensures
        member_get(element_members(e), "documentation"@) == match e.documentation {
            Some(n) => Some(JsonView::String(n@)),
            None => None::<JsonView>,
        },
        member_get(element_members(e), "owner"@) == match e.owner {
            Some(o) => Some(ref_view(o@)),
            None => None::<JsonView>,
        },
        member_get(element_members(e), "ownedMember"@) == if e.owned_elements@.len() > 0 {
            Some(JsonView::Array(e.owned_elements@.map_values(|id: ElementId| ref_view(id@))))
        } else {
            None::<JsonView>
        },
{
    broadcast use lemma_member_get_put;

    lemma_key_chars();
    lemma_head_members(e);
    let m18 = element_flag_members(e, element_head_members(e));
    lemma_flag_members_keep(e, element_head_members(e), "documentation"@);
    lemma_flag_members_keep(e, element_head_members(e), "owner"@);
    lemma_flag_members_keep(e, element_head_members(e), "ownedMember"@);
    let m19 = match e.documentation {
        Some(d) => put_member(m18, "documentation"@, JsonView::String(d@)),
        None => m18,
    };
    lemma_unflagged_key(e, m19, "documentation"@);
    lemma_unflagged_key(e, m19, "owner"@);
    lemma_unflagged_key(e, m19, "ownedMember"@);
}

/// The flag members hold `isAbstract` as `true` when the flag is set.
proof fn lemma_flag_member_is_abstract(e: Element, m0: Seq<(Seq<char>, JsonView)>)
    ensures
        member_get(element_flag_members(e, m0), "isAbstract"@) == if e.is_abstract {
            Some(JsonView::Bool(true))
        } else {
            member_get(m0, "isAbstract"@)
        },
{
    broadcast use lemma_member_get_put;

    lemma_flag_chars();
}

/// The flag members hold `isVariation` as `true` when the flag is set.
proof fn lemma_flag_member_is_variation(e: Element, m0: Seq<(Seq<char>, JsonView)>)
    ensures
        member_get(element_flag_members(e, m0), "isVariation"@) == if e.is_variation {
            Some(JsonView::Bool(true))
        } else {
            member_get(m0, "isVariation"@)
        },
{
    broadcast use lemma_member_get_put;

    lemma_flag_chars();
}

/// The flag members hold `isDerived` as `true` when the flag is set.
proof fn lemma_flag_member_is_derived(e: Element, m0: Seq<(Seq<char>, JsonView)>)
    ensures
        member_get(element_flag_members(e, m0), "isDerived"@) == if e.is_derived {
            Some(JsonView::Bool(true))
        } else {
            member_get(m0, "isDerived"@)
        },
{
    broadcast use lemma_member_get_put;

    lemma_flag_chars();
}

/// The flag members hold `isReadOnly` as `true` when the flag is set.
proof fn lemma_flag_member_is_readonly(e: Element, m0: Seq<(Seq<char>, JsonView)>)
    ensures
        member_get(element_flag_members(e, m0), "isReadOnly"@) == if e.is_readonly {
            Some(JsonView::Bool(true))
        } else {
            member_get(m0, "isReadOnly"@)
        },
{
    broadcast use lemma_member_get_put;

    lemma_flag_chars();
}

/// The flag members hold `isParallel` as `true` when the flag is set.
proof fn lemma_flag_member_is_parallel(e: Element, m0: Seq<(Seq<char>, JsonView)>)
    ensures
        member_get(element_flag_members(e, m0), "isParallel"@) == if e.is_parallel {
            Some(JsonView::Bool(true))
        } else {
            member_get(m0, "isParallel"@)
        },
{
    broadcast use lemma_member_get_put;

    lemma_flag_chars();
}

/// The flag members hold `isIndividual` as `true` when the flag is set.
proof fn lemma_flag_member_is_individual(e: Element, m0: Seq<(Seq<char>, JsonView)>)
    ensures
        member_get(element_flag_members(e, m0), "isIndividual"@) == if e.is_individual {
            Some(JsonView::Bool(true))
        } else {
            member_get(m0, "isIndividual"@)
        },
{
    broadcast use lemma_member_get_put;

    lemma_flag_chars();
}

/// The flag members hold `isEnd` as `true` when the flag is set.
proof fn lemma_flag_member_is_end(e: Element, m0: Seq<(Seq<char>, JsonView)>)
    ensures
        member_get(element_flag_members(e, m0), "isEnd"@) == if e.is_end {
            Some(JsonView::Bool(true))
        } else {
            member_get(m0, "isEnd"@)
        },
{
    broadcast use lemma_member_get_put;

    lemma_flag_chars();
}

/// The flag members hold `isDefault` as `true` when the flag is set.
proof fn lemma_flag_member_is_default(e: Element, m0: Seq<(Seq<char>, JsonView)>)
    ensures
        member_get(element_flag_members(e, m0), "isDefault"@) == if e.is_default {
            Some(JsonView::Bool(true))
        } else {
            member_get(m0, "isDefault"@)
        },
{
    broadcast use lemma_member_get_put;

    lemma_flag_chars();
}

/// The flag members hold `isOrdered` as `true` when the flag is set.
proof fn lemma_flag_member_is_ordered(e: Element, m0: Seq<(Seq<char>, JsonView)>)
    ensures
        member_get(element_flag_members(e, m0), "isOrdered"@) == if e.is_ordered {
            Some(JsonView::Bool(true))
        } else {
            member_get(m0, "isOrdered"@)
        },
{
    broadcast use lemma_member_get_put;

    lemma_flag_chars();
}

/// The flag members hold `isNonunique` as `true` when the flag is set.
proof fn lemma_flag_member_is_nonunique(e: Element, m0: Seq<(Seq<char>, JsonView)>)
    ensures
        member_get(element_flag_members(e, m0), "isNonunique"@) == if e.is_nonunique {
            Some(JsonView::Bool(true))
        } else {
            member_get(m0, "isNonunique"@)
        },
{
    broadcast use lemma_member_get_put;

    lemma_flag_chars();
}

/// The flag members hold `isPortion` as `true` when the flag is set.
proof fn lemma_flag_member_is_portion(e: Element, m0: Seq<(Seq<char>, JsonView)>)
    ensures
        member_get(element_flag_members(e, m0), "isPortion"@) == if e.is_portion {
            Some(JsonView::Bool(true))
        } else {
            member_get(m0, "isPortion"@)
        },
{
    broadcast use lemma_member_get_put;

    lemma_flag_chars();
}

/// The flag members hold flag `k` as `true` when it is set.
proof fn lemma_flag_member(e: Element, m0: Seq<(Seq<char>, JsonView)>, k: Seq<char>)
    requires
        flag_field_value(e, k) is Some,
    ensures
        member_get(element_flag_members(e, m0), k) == if flag_field_value(e, k) == Some(true) {
            Some(JsonView::Bool(true))
        } else {
            member_get(m0, k)
        },
{
    if k == "isAbstract"@ {
        lemma_flag_member_is_abstract(e, m0);
    } else if k == "isVariation"@ {
        lemma_flag_member_is_variation(e, m0);
    } else if k == "isDerived"@ {
        lemma_flag_member_is_derived(e, m0);
    } else if k == "isReadOnly"@ {
        lemma_flag_member_is_readonly(e, m0);
    } else if k == "isParallel"@ {
        lemma_flag_member_is_parallel(e, m0);
    } else if k == "isIndividual"@ {
        lemma_flag_member_is_individual(e, m0);
    } else if k == "isEnd"@ {
        lemma_flag_member_is_end(e, m0);
    } else if k == "isDefault"@ {
        lemma_flag_member_is_default(e, m0);
    } else if k == "isOrdered"@ {
        lemma_flag_member_is_ordered(e, m0);
    } else if k == "isNonunique"@ {
        lemma_flag_member_is_nonunique(e, m0);
    } else if k == "isPortion"@ {
        lemma_flag_member_is_portion(e, m0);
    }
}

/// What the written members hold under a flag's name: the flag when it is
/// set, or a property holding it, else nothing.
proof fn lemma_written_flag(e: Element, k: Seq<char>)
    requires
        properties_fit_fields(e),
        flag_field_value(e, k) is Some,
    ensures
        match member_get(element_members(e), k) {
            Some(v) => v == JsonView::Bool(flag_field_value(e, k).unwrap()),
            None => flag_field_value(e, k) == Some(false),
        },
{
    lemma_key_chars();
    lemma_flags_start_with_i(e, k);
    let head = element_head_members(e);
    lemma_head_not_flag(e, k);
    let m18 = element_flag_members(e, head);
    lemma_flag_member(e, head, k);
    let m19 = match e.documentation {
        Some(d) => put_member(m18, "documentation"@, JsonView::String(d@)),
        None => m18,
    };
    lemma_member_get_put(m18, "documentation"@, JsonView::Bool(true), k);
    if let Some(d) = e.documentation {
        lemma_member_get_put(m18, "documentation"@, JsonView::String(d@), k);
    }
    let props = property_entries(e.properties);
    assert(props.take(props.len() as int) == props);
    lemma_member_get_properties(m19, props, k);
    lemma_fitting_property(e, props, k);
    assert(is_element_field_key(k));
    let m20 = put_properties(m19, props);
    let m21 = match e.owner {
        Some(x) => put_member(m20, "owner"@, ref_view(x@)),
        None => m20,
    };
    if let Some(x) = e.owner {
        lemma_member_get_put(m20, "owner"@, ref_view(x@), k);
    }
    if e.owned_elements@.len() > 0 {
        lemma_member_get_put(m21, "ownedMember"@, JsonView::Array(e.owned_elements@.map_values(|id: ElementId| ref_view(id@))), k);
    }
}

/// The head of a written element holds no flag.
proof fn lemma_head_not_flag(e: Element, k: Seq<char>)
    requires
        k.len() > 0 && k[0] == 'i',
    ensures
        member_get(element_head_members(e), k) is None,
{
    broadcast use lemma_member_get_put;

    lemma_key_chars();
    let m0 = Seq::<(Seq<char>, JsonView)>::empty();
    assert(member_get(m0, k) is None);
}

/// A member holding one pair reads that pair's value.
proof fn lemma_member_get_single(k: Seq<char>, v: JsonView)
    ensures
        member_get(seq![(k, v)], k) == Some(v),
{
    crate::json::lemma_member_index_is(seq![(k, v)], k, 0);
}

/// The reference written for `x` reads back as `x`.
proof fn read_reference(v: JsonValue, x: Seq<char>)
    requires
        json_view(v) == ref_view(x),
    ensures
        ref_id(Some(v)) matches Some(s) && s@ == x,
{
    lemma_view_object(v, seq![("@id"@, JsonView::String(x))]);
    let inner = v->Object_0;
    lemma_obj_get_view(inner@, "@id"@);
    lemma_member_get_single("@id"@, JsonView::String(x));
    lemma_view_string(obj_get(inner@, "@id"@).unwrap(), x);
}

/// The names, kind and documentation read back from the object written
/// for `e`.
proof fn read_back_names(e: Element, o: Seq<(String, JsonValue)>, e2: Element)
    requires
        e.kind != ElementKind::Alias,
        properties_fit_fields(e),
        members_view(o) == element_members(e),
        element_from_object(e2, o),
    ensures
        relationship_parts(o) is None,
        e2.id@ == e.id@,
        e2.kind == e.kind,
        opt_text(e2.name) == opt_text(e.name),
        opt_text(e2.qualified_name) == opt_text(e.qualified_name),
        opt_text(e2.short_name) == opt_text(e.short_name),
        opt_text(e2.documentation) == opt_text(e.documentation),
{
    lemma_written_members(e);
    lemma_written_tail(e);
    read_string_member(o, "@id"@);
    read_string_member(o, "@type"@);
    read_string_member(o, "name"@);
    read_string_member(o, "declaredName"@);
    read_string_member(o, "qualifiedName"@);
    read_string_member(o, "shortName"@);
    read_string_member(o, "declaredShortName"@);
    read_string_member(o, "documentation"@);
    read_string_member(o, "body"@);
    lemma_obj_get_view(o, "source"@);
    lemma_jsonld_type_roundtrip(e.kind);
}

/// The flags read back from the object written for `e`.
proof fn read_back_flags(e: Element, o: Seq<(String, JsonValue)>, e2: Element)
    requires
        properties_fit_fields(e),
        members_view(o) == element_members(e),
        element_from_object(e2, o),
    ensures
        e2.is_abstract == e.is_abstract,
        e2.is_variation == e.is_variation,
        e2.is_derived == e.is_derived,
        e2.is_readonly == e.is_readonly,
        e2.is_parallel == e.is_parallel,
        e2.is_individual == e.is_individual,
        e2.is_end == e.is_end,
        e2.is_default == e.is_default,
        e2.is_ordered == e.is_ordered,
        e2.is_nonunique == e.is_nonunique,
        e2.is_portion == e.is_portion,
{
    lemma_flag_chars();
    read_flag(e, o, "isAbstract"@);
    read_flag(e, o, "isVariation"@);
    read_flag(e, o, "isDerived"@);
    read_flag(e, o, "isReadOnly"@);
    read_flag(e, o, "isParallel"@);
    read_flag(e, o, "isIndividual"@);
    read_flag(e, o, "isEnd"@);
    read_flag(e, o, "isDefault"@);
    read_flag(e, o, "isOrdered"@);
    read_flag(e, o, "isNonunique"@);
    read_flag(e, o, "isPortion"@);
}

/// The owner and owned elements read back from the object written for `e`.
proof fn read_back_ownership(e: Element, o: Seq<(String, JsonValue)>, e2: Element)
    requires
        properties_fit_fields(e),
        members_view(o) == element_members(e),
        element_from_object(e2, o),
    ensures
        match e.owner {
            Some(x) => e2.owner matches Some(y) && y@ == x@,
            None => e2.owner is None,
        },
        id_texts(e2.owned_elements@) == id_texts(e.owned_elements@),
{
    lemma_written_tail(e);
    lemma_obj_get_view(o, "owner"@);
    lemma_obj_get_view(o, "ownedMember"@);
    if let Some(x) = e.owner {
        read_reference(obj_get(o, "owner"@).unwrap(), x@);
    }
    if e.owned_elements@.len() > 0 {
        let v = obj_get(o, "ownedMember"@).unwrap();
        lemma_view_array(v, e.owned_elements@.map_values(|id: ElementId| ref_view(id@)));
        let items = v->Array_0;
        lemma_member_refs(items@, e.owned_elements@);
    } else {
        assert(owned_member_refs(o) =~= Seq::<String>::empty());
        assert(id_texts(e.owned_elements@) =~= Seq::<Seq<char>>::empty());
        assert(string_texts(Seq::<String>::empty()) =~= Seq::<Seq<char>>::empty());
    }
}

/// Reading back the JSON-LD object written for an element that is not a
/// relationship gives its ID, kind, names, documentation, flags, owner and
/// owned elements, and the object is read as an element, not as a
/// relationship. This holds for every kind but `Alias`, and for elements
/// whose properties fit beside their fields.
pub proof fn law_jsonld_element_roundtrip(e: Element, o: Seq<(String, JsonValue)>, e2: Element)
    requires
        e.relationship is None,
        e.kind != ElementKind::Alias,
        properties_fit_fields(e),
        members_view(o) == element_members(e),
        element_from_object(e2, o),
    ensures
        relationship_parts(o) is None,
        e2.id@ == e.id@,
        e2.kind == e.kind,
        opt_text(e2.name) == opt_text(e.name),
        opt_text(e2.qualified_name) == opt_text(e.qualified_name),
        opt_text(e2.short_name) == opt_text(e.short_name),
        opt_text(e2.documentation) == opt_text(e.documentation),
        e2.is_abstract == e.is_abstract,
        e2.is_variation == e.is_variation,
        e2.is_derived == e.is_derived,
        e2.is_readonly == e.is_readonly,
        e2.is_parallel == e.is_parallel,
        e2.is_individual == e.is_individual,
        e2.is_end == e.is_end,
        e2.is_default == e.is_default,
        e2.is_ordered == e.is_ordered,
        e2.is_nonunique == e.is_nonunique,
        e2.is_portion == e.is_portion,
        match e.owner {
            Some(x) => e2.owner matches Some(y) && y@ == x@,
            None => e2.owner is None,
        },
        id_texts(e2.owned_elements@) == id_texts(e.owned_elements@),
{
    read_back_names(e, o, e2);
    read_back_flags(e, o, e2);
    read_back_ownership(e, o, e2);
}

/// A string member read from `o` has the characters of the string its view holds.
proof fn read_string_member(o: Seq<(String, JsonValue)>, k: Seq<char>)
    ensures
        match member_get(members_view(o), k) {
            Some(JsonView::String(s)) => as_str(obj_get(o, k)) matches Some(x) && x@ == s,
            None => obj_get(o, k) is None,
            _ => true,
        },
{
    lemma_obj_get_view(o, k);
    match member_get(members_view(o), k) {
        Some(JsonView::String(s)) => {
            lemma_view_string(obj_get(o, k).unwrap(), s);
        },
        _ => {},
    }
}

/// A flag read from the object written for `e` is the flag of `e`.
proof fn read_flag(e: Element, o: Seq<(String, JsonValue)>, k: Seq<char>)
    requires
        properties_fit_fields(e),
        members_view(o) == element_members(e),
        flag_field_value(e, k) is Some,
    ensures
        flag_of(o, k) == flag_field_value(e, k).unwrap(),
{
    lemma_written_flag(e, k);
    lemma_obj_get_view(o, k);
    match member_get(members_view(o), k) {
        Some(v) => {
            lemma_view_bool(obj_get(o, k).unwrap(), flag_field_value(e, k).unwrap());
        },
        None => {},
    }
}

/// The references written for a list of IDs are read back as those IDs.
proof fn lemma_member_refs(items: Seq<JsonValue>, ids: Seq<ElementId>)
    requires
        views_of(items) == ids.map_values(|id: ElementId| ref_view(id@)),
    ensures
        string_texts(member_refs(items)) == id_texts(ids),
    decreases items.len(),
{
    assert(items.len() == views_of(items).len());
    assert(items.len() == ids.len());
    if items.len() > 0 {
        let n = items.len() - 1;
        assert forall|i: int| 0 <= i < n implies #[trigger] views_of(items.drop_last())[i] == ids.drop_last().map_values(|id: ElementId| ref_view(id@))[i] by {
            assert(views_of(items)[i] == json_view(items[i]));
            assert(ids.map_values(|id: ElementId| ref_view(id@))[i] == ref_view(ids[i]@));
        }
        assert(views_of(items.drop_last()) =~= ids.drop_last().map_values(|id: ElementId| ref_view(id@)));
        assert(views_of(items)[n] == json_view(items[n]));
        assert(ids.map_values(|id: ElementId| ref_view(id@))[n] == ref_view(ids[n]@));
        lemma_member_refs(items.drop_last(), ids.drop_last());
        assert(json_view(items[n]) == ref_view(ids[n]@));
        read_reference(items[n], ids[n]@);
        assert(items.last() == items[n]);
        let r = ref_id(Some(items[n])).unwrap();
        assert(member_refs(items) == member_refs(items.drop_last()).push(r));
        assert(string_texts(member_refs(items)) =~= string_texts(member_refs(items.drop_last())).push(r@));
        assert(id_texts(ids) =~= id_texts(ids.drop_last()).push(ids[n]@));
    } else {
        assert(string_texts(member_refs(items)) =~= id_texts(ids));
    }
}

/// Whether no property of `e` is named like a field of a relationship object.
pub open spec fn properties_apart_from_relationship_fields(e: Element) -> bool {
    let props = property_entries(e.properties);
    forall|i: int| 0 <= i < props.len() ==> !is_relationship_field_key(#[trigger] props[i].0@)
}

/// A property set after `ms` leaves a relationship field member as it was.
proof fn lemma_relationship_field_kept(e: Element, ms: Seq<(Seq<char>, JsonView)>, k: Seq<char>)
    requires
        properties_apart_from_relationship_fields(e),
        is_relationship_field_key(k),
    ensures
        member_get(put_properties(ms, property_entries(e.properties)), k) == member_get(ms, k),
{
    let props = property_entries(e.properties);
    lemma_member_get_properties(ms, props, k);
    lemma_no_last_property(props, k);
}

/// A property list none of whose names is `k` has no last property `k`.
proof fn lemma_no_last_property(props: Seq<(String, PropertyValue)>, k: Seq<char>)
    requires
        is_relationship_field_key(k),
        forall|i: int| 0 <= i < props.len() ==> !is_relationship_field_key(#[trigger] props[i].0@),
    ensures
        last_property(props, k) is None,
    decreases props.len(),
{
    if props.len() > 0 {
        assert(!is_relationship_field_key(props[props.len() - 1].0@));
        assert forall|i: int| 0 <= i < props.drop_last().len() implies !is_relationship_field_key(
            #[trigger] props.drop_last()[i].0@,
        ) by {
            assert(props.drop_last()[i] == props[i]);
        }
        lemma_no_last_property(props.drop_last(), k);
    }
}

/// Reading back the JSON-LD object written for a relationship element with
/// a source and a target gives a relationship with its ID, kind, source,
/// target and owner. This holds for every kind but `Alias`, and for
/// elements none of whose properties is named like a relationship field.
pub proof fn law_jsonld_relationship_roundtrip(e: Element, o: Seq<(String, JsonValue)>, e2: Element)
    requires
        e.spec_source() is Some,
        e.spec_target() is Some,
        e.kind != ElementKind::Alias,
        properties_apart_from_relationship_fields(e),
        members_view(o) == relationship_members(e),
        relationship_from_object(e2, o),
    ensures
        relationship_parts(o) is Some,
        e2.id@ == e.id@,
        e2.kind == e.kind,
        e2.relationship matches Some(rd) && id_views(rd.source@) == seq![e.spec_source().unwrap()@]
            && id_views(rd.target@) == seq![e.spec_target().unwrap()@],
        match e.owner {
            Some(x) => e2.owner matches Some(y) && y@ == x@,
            None => e2.owner is None,
        },
{
    lemma_relationship_object(e, o);
}

/// What the object written for relationship element `e` gives: its ID,
/// its type (naming its kind), its source, its target and its owner.
proof fn lemma_relationship_object(e: Element, o: Seq<(String, JsonValue)>)
    requires
        e.spec_source() is Some,
        e.spec_target() is Some,
        e.kind != ElementKind::Alias,
        properties_apart_from_relationship_fields(e),
        members_view(o) == relationship_members(e),
    ensures
        relationship_parts(o) matches Some((id, t, s, g)) && id@ == e.id@ && ElementKind::spec_from_xmi_type(t@) == e.kind
            && s@ == e.spec_source().unwrap()@ && g@ == e.spec_target().unwrap()@,
        match e.owner {
            Some(x) => ref_id(obj_get(o, "owner"@)) matches Some(y) && y@ == x@,
            None => ref_id(obj_get(o, "owner"@)) is None,
        },
{
    broadcast use lemma_member_get_put;

    lemma_key_chars();
    reveal_strlit("@context");
    let src = e.spec_source().unwrap();
    let tgt = e.spec_target().unwrap();
    let m0 = Seq::<(Seq<char>, JsonView)>::empty();
    assert(member_get(m0, "@id"@) is None);
    assert(member_get(m0, "@type"@) is None);
    assert(member_get(m0, "source"@) is None);
    assert(member_get(m0, "target"@) is None);
    assert(member_get(m0, "owner"@) is None);
    let m1 = put_member(m0, "@type"@, JsonView::String(e.kind.spec_jsonld_type()));
    let m2 = put_member(m1, "@id"@, JsonView::String(e.id@));
    let m3 = put_member(m2, "source"@, ref_view(src@));
    let m4 = put_member(m3, "target"@, ref_view(tgt@));
    let m5 = match e.owner {
        Some(x) => put_member(m4, "owner"@, ref_view(x@)),
        None => m4,
    };
    assert(relationship_members(e) == put_properties(m5, property_entries(e.properties)));
    lemma_relationship_field_kept(e, m5, "@id"@);
    lemma_relationship_field_kept(e, m5, "@type"@);
    lemma_relationship_field_kept(e, m5, "source"@);
    lemma_relationship_field_kept(e, m5, "target"@);
    lemma_relationship_field_kept(e, m5, "owner"@);
    read_string_member(o, "@id"@);
    read_string_member(o, "@type"@);
    lemma_obj_get_view(o, "source"@);
    lemma_obj_get_view(o, "target"@);
    lemma_obj_get_view(o, "owner"@);
    read_reference(obj_get(o, "source"@).unwrap(), src@);
    read_reference(obj_get(o, "target"@).unwrap(), tgt@);
    if let Some(x) = e.owner {
        read_reference(obj_get(o, "owner"@).unwrap(), x@);
    }
    lemma_jsonld_type_roundtrip(e.kind);
}

// ============================================================================
// XMI
// ============================================================================

/// Whether the attribute `a` is what reading back the written attribute `w`
/// gives: the same name, the text of a plain value, the text whose escaped
/// form was written, or the number written.
pub open spec fn attribute_read_as(w: (Seq<char>, AttrView), a: TagAttribute) -> bool {
    &&& a.key@ == w.0
    &&& match w.1 {
        AttrView::Text(t) => a.value@ == t,
        AttrView::Escaped(t) => escape_text(a.value@) == t,
        AttrView::Real(x) => a.real_bits == Some(x),
    }
}

/// Whether `attrs` are what reading back the written attributes `ws` gives.
pub open spec fn attributes_read_as(ws: Seq<(Seq<char>, AttrView)>, attrs: Seq<TagAttribute>) -> bool {
    &&& ws.len() == attrs.len()
    &&& forall|i: int| 0 <= i < ws.len() ==> attribute_read_as(#[trigger] ws[i], attrs[i])
}

/// The value of the last written attribute named `a` or `b`.
pub open spec fn written_last(ws: Seq<(Seq<char>, AttrView)>, a: Seq<char>, b: Seq<char>) -> Option<AttrView>
    decreases ws.len(),
{
    if ws.len() == 0 {
        None
    } else if ws.last().0 == a || ws.last().0 == b {
        Some(ws.last().1)
    } else {
        written_last(ws.drop_last(), a, b)
    }
}

/// The last attribute named `a` or `b` after one more is written.
pub broadcast proof fn lemma_written_last_push(x: Seq<(Seq<char>, AttrView)>, w: (Seq<char>, AttrView), a: Seq<char>, b: Seq<char>)
    ensures
        #[trigger] written_last(x.push(w), a, b) == (if w.0 == a || w.0 == b {
            Some(w.1)
        } else {
            written_last(x, a, b)
        }),
{
    assert(x.push(w).drop_last() =~= x);
}

/// Reading the last attribute named `a` or `b` reads the last one written.
proof fn lemma_read_last(ws: Seq<(Seq<char>, AttrView)>, attrs: Seq<TagAttribute>, a: Seq<char>, b: Seq<char>)
    requires
        attributes_read_as(ws, attrs),
    ensures
        match written_last(ws, a, b) {
            Some(w) => last_value(attrs, a, b) matches Some(v) && (match w {
                AttrView::Text(t) => v@ == t,
                AttrView::Escaped(t) => escape_text(v@) == t,
                AttrView::Real(x) => true,
            }),
            None => last_value(attrs, a, b) is None,
        },
    decreases ws.len(),
{
    if ws.len() > 0 {
        let n = ws.len() - 1;
        assert(attribute_read_as(ws[n], attrs[n]));
        assert(attributes_read_as(ws.drop_last(), attrs.drop_last())) by {
            assert forall|i: int| 0 <= i < ws.drop_last().len() implies attribute_read_as(#[trigger] ws.drop_last()[i], attrs.drop_last()[i]) by {
                assert(attribute_read_as(ws[i], attrs[i]));
            }
        }
        lemma_read_last(ws.drop_last(), attrs.drop_last(), a, b);
        assert(ws.last() == ws[n]);
        assert(attrs.last() == attrs[n]);
    }
}

/// Escaping a text starting with `c` escapes `c` first.
proof fn lemma_escape_front(s: Seq<char>)
    requires
        s.len() > 0,
    ensures
        escape_text(s) == escape_char(s[0]) + escape_text(s.drop_first()),
    decreases s.len(),
{
    if s.len() == 1 {
        assert(s.drop_last() =~= Seq::<char>::empty());
        assert(s.drop_first() =~= Seq::<char>::empty());
        assert(escape_text(Seq::<char>::empty()) =~= Seq::<char>::empty());
        assert(escape_text(s) =~= escape_char(s[0]) + escape_text(s.drop_first()));
    } else {
        lemma_escape_front(s.drop_last());
        assert(s.drop_last().drop_first() =~= s.drop_first().drop_last());
        assert(s.drop_first().last() == s.last());
        assert(escape_text(s) =~= escape_char(s[0]) + escape_text(s.drop_first()));
    }
}

/// The escaped forms of the characters: one character that is not `&`, or
/// an entity from `&` to `;` whose second character tells which.
proof fn lemma_escape_char_shape(c: char)
    ensures
        escape_char(c).len() >= 1,
        escape_char(c)[0] == '&' <==> (c == '&' || c == '<' || c == '>' || c == '"' || c == '\n'),
        escape_char(c)[0] != '&' ==> escape_char(c) == seq![c],
        escape_char(c)[0] == '&' ==> escape_char(c).len() >= 2,
        c == '&' ==> escape_char(c)[1] == 'a',
        c == '<' ==> escape_char(c)[1] == 'l',
        c == '>' ==> escape_char(c)[1] == 'g',
        c == '"' ==> escape_char(c)[1] == 'q',
        c == '\n' ==> escape_char(c)[1] == '#',
{
    reveal_strlit("&amp;");
    reveal_strlit("&lt;");
    reveal_strlit("&gt;");
    reveal_strlit("&quot;");
    reveal_strlit("&#xA;");
}

/// Escaping never maps two texts to the same text.
proof fn lemma_escape_injective(s: Seq<char>, t: Seq<char>)
    requires
        escape_text(s) == escape_text(t),
    ensures
        s == t,
    decreases s.len() + t.len(),
{
    if s.len() == 0 || t.len() == 0 {
        if s.len() > 0 {
            lemma_escape_front(s);
            lemma_escape_char_shape(s[0]);
            assert(escape_text(t) =~= Seq::<char>::empty());
        } else if t.len() > 0 {
            lemma_escape_front(t);
            lemma_escape_char_shape(t[0]);
            assert(escape_text(s) =~= Seq::<char>::empty());
        } else {
            assert(s =~= t);
        }
    } else {
        lemma_escape_front(s);
        lemma_escape_front(t);
        let cs = escape_char(s[0]);
        let ct = escape_char(t[0]);
        lemma_escape_char_shape(s[0]);
        lemma_escape_char_shape(t[0]);
        let es = escape_text(s);
        assert(es[0] == cs[0]);
        assert(es[0] == ct[0]);
        if cs[0] == '&' {
            assert(es[1] == cs[1]);
            assert(es[1] == ct[1]);
        }
        assert(s[0] == t[0]);
        assert(cs == ct);
        assert(escape_text(s.drop_first()) =~= es.skip(cs.len() as int));
        assert(escape_text(t.drop_first()) =~= es.skip(cs.len() as int));
        lemma_escape_injective(s.drop_first(), t.drop_first());
        assert(s =~= seq![s[0]] + s.drop_first());
        assert(t =~= seq![t[0]] + t.drop_first());
    }
}

/// The characters that tell the written flag names apart.
proof fn lemma_written_flag_chars()
    ensures
        "isAbstract"@.len() == 10 && "isAbstract"@[0] == 'i' && "isAbstract"@[1] == 's' && "isAbstract"@[2] == 'A' && "isAbstract"@[3] == 'b' && "isAbstract"@[4] == 's',
        "isVariation"@.len() == 11 && "isVariation"@[0] == 'i' && "isVariation"@[1] == 's' && "isVariation"@[2] == 'V' && "isVariation"@[3] == 'a' && "isVariation"@[4] == 'r',
        "isDerived"@.len() == 9 && "isDerived"@[0] == 'i' && "isDerived"@[1] == 's' && "isDerived"@[2] == 'D' && "isDerived"@[3] == 'e' && "isDerived"@[4] == 'r',
        "isReadOnly"@.len() == 10 && "isReadOnly"@[0] == 'i' && "isReadOnly"@[1] == 's' && "isReadOnly"@[2] == 'R' && "isReadOnly"@[3] == 'e' && "isReadOnly"@[4] == 'a',
        "isParallel"@.len() == 10 && "isParallel"@[0] == 'i' && "isParallel"@[1] == 's' && "isParallel"@[2] == 'P' && "isParallel"@[3] == 'a' && "isParallel"@[4] == 'r',
        "isIndividual"@.len() == 12 && "isIndividual"@[0] == 'i' && "isIndividual"@[1] == 's' && "isIndividual"@[2] == 'I' && "isIndividual"@[3] == 'n' && "isIndividual"@[4] == 'd',
        "isEnd"@.len() == 5 && "isEnd"@[0] == 'i' && "isEnd"@[1] == 's' && "isEnd"@[2] == 'E' && "isEnd"@[3] == 'n' && "isEnd"@[4] == 'd',
        "isDefault"@.len() == 9 && "isDefault"@[0] == 'i' && "isDefault"@[1] == 's' && "isDefault"@[2] == 'D' && "isDefault"@[3] == 'e' && "isDefault"@[4] == 'f',
        "isNonunique"@.len() == 11 && "isNonunique"@[0] == 'i' && "isNonunique"@[1] == 's' && "isNonunique"@[2] == 'N' && "isNonunique"@[3] == 'o' && "isNonunique"@[4] == 'n',
        "isPortion"@.len() == 9 && "isPortion"@[0] == 'i' && "isPortion"@[1] == 's' && "isPortion"@[2] == 'P' && "isPortion"@[3] == 'o' && "isPortion"@[4] == 'r',
        "isUnique"@.len() == 8 && "isUnique"@[0] == 'i' && "isUnique"@[1] == 's' && "isUnique"@[2] == 'U' && "isUnique"@[3] == 'n' && "isUnique"@[4] == 'i',
        "isOrdered"@.len() == 9 && "isOrdered"@[0] == 'i' && "isOrdered"@[1] == 's' && "isOrdered"@[2] == 'O' && "isOrdered"@[3] == 'r' && "isOrdered"@[4] == 'd',
        "isComposite"@.len() == 11 && "isComposite"@[0] == 'i' && "isComposite"@[1] == 's' && "isComposite"@[2] == 'C' && "isComposite"@[3] == 'o' && "isComposite"@[4] == 'm',
        "isStandard"@.len() == 10 && "isStandard"@[0] == 'i' && "isStandard"@[1] == 's' && "isStandard"@[2] == 'S' && "isStandard"@[3] == 't' && "isStandard"@[4] == 'a',
{
    reveal_strlit("isAbstract");
    reveal_strlit("isVariation");
    reveal_strlit("isDerived");
    reveal_strlit("isReadOnly");
    reveal_strlit("isParallel");
    reveal_strlit("isIndividual");
    reveal_strlit("isEnd");
    reveal_strlit("isDefault");
    reveal_strlit("isNonunique");
    reveal_strlit("isPortion");
    reveal_strlit("isUnique");
    reveal_strlit("isOrdered");
    reveal_strlit("isComposite");
    reveal_strlit("isStandard");
}

/// Whether `k` cannot be a flag name: flag names start with `is`.
pub open spec fn unlike_flag(k: Seq<char>) -> bool {
    k.len() < 2 || k[0] != 'i' || k[1] != 's'
}

/// The written flags leave the last attribute named otherwise as it was.
proof fn lemma_flag_attrs_keep(x: Seq<(Seq<char>, AttrView)>, props: Seq<(String, PropertyValue)>, a: Seq<char>, b: Seq<char>)
    requires
        unlike_flag(a),
        unlike_flag(b),
    ensures
        written_last(flag_attrs(x, props), a, b) == written_last(x, a, b),
{
    broadcast use lemma_written_last_push;

    lemma_written_flag_chars();
    let x0 = x;
    let x1 = flag_attr(x0, props, "isAbstract"@);
    assert(written_last(x1, a, b) == written_last(x0, a, b));
    let x2 = flag_attr(x1, props, "isVariation"@);
    assert(written_last(x2, a, b) == written_last(x1, a, b));
    let x3 = flag_attr(x2, props, "isDerived"@);
    assert(written_last(x3, a, b) == written_last(x2, a, b));
    let x4 = flag_attr(x3, props, "isReadOnly"@);
    assert(written_last(x4, a, b) == written_last(x3, a, b));
    let x5 = flag_attr(x4, props, "isParallel"@);
    assert(written_last(x5, a, b) == written_last(x4, a, b));
    let x6 = flag_attr(x5, props, "isIndividual"@);
    assert(written_last(x6, a, b) == written_last(x5, a, b));
    let x7 = flag_attr(x6, props, "isEnd"@);
    assert(written_last(x7, a, b) == written_last(x6, a, b));
    let x8 = flag_attr(x7, props, "isDefault"@);
    assert(written_last(x8, a, b) == written_last(x7, a, b));
    let x9 = flag_attr(x8, props, "isNonunique"@);
    assert(written_last(x9, a, b) == written_last(x8, a, b));
    let x10 = flag_attr(x9, props, "isPortion"@);
    assert(written_last(x10, a, b) == written_last(x9, a, b));
    let x11 = flag_attr(x10, props, "isUnique"@);
    assert(written_last(x11, a, b) == written_last(x10, a, b));
    let x12 = flag_attr(x11, props, "isOrdered"@);
    assert(written_last(x12, a, b) == written_last(x11, a, b));
    let x13 = flag_attr(x12, props, "isComposite"@);
    assert(written_last(x13, a, b) == written_last(x12, a, b));
    let x14 = flag_attr(x13, props, "isStandard"@);
    assert(written_last(x14, a, b) == written_last(x13, a, b));
    assert(flag_attrs(x, props) == x14);
}

/// The written flags give `isAbstract` as its stored boolean.
proof fn lemma_flag_attrs_is_abstract(x: Seq<(Seq<char>, AttrView)>, props: Seq<(String, PropertyValue)>)
    ensures
        written_last(flag_attrs(x, props), "isAbstract"@, "isAbstract"@) == match prop_get(props, "isAbstract"@) {
            Some(PropertyValue::Boolean(b)) => Some(AttrView::Text(bool_text(b))),
            _ => written_last(x, "isAbstract"@, "isAbstract"@),
        },
{
    broadcast use lemma_written_last_push;

    lemma_written_flag_chars();
    let x0 = x;
    let x1 = flag_attr(x0, props, "isAbstract"@);
    let x2 = flag_attr(x1, props, "isVariation"@);
    assert(written_last(x2, "isAbstract"@, "isAbstract"@) == written_last(x1, "isAbstract"@, "isAbstract"@));
    let x3 = flag_attr(x2, props, "isDerived"@);
    assert(written_last(x3, "isAbstract"@, "isAbstract"@) == written_last(x2, "isAbstract"@, "isAbstract"@));
    let x4 = flag_attr(x3, props, "isReadOnly"@);
    assert(written_last(x4, "isAbstract"@, "isAbstract"@) == written_last(x3, "isAbstract"@, "isAbstract"@));
    let x5 = flag_attr(x4, props, "isParallel"@);
    assert(written_last(x5, "isAbstract"@, "isAbstract"@) == written_last(x4, "isAbstract"@, "isAbstract"@));
    let x6 = flag_attr(x5, props, "isIndividual"@);
    assert(written_last(x6, "isAbstract"@, "isAbstract"@) == written_last(x5, "isAbstract"@, "isAbstract"@));
    let x7 = flag_attr(x6, props, "isEnd"@);
    assert(written_last(x7, "isAbstract"@, "isAbstract"@) == written_last(x6, "isAbstract"@, "isAbstract"@));
    let x8 = flag_attr(x7, props, "isDefault"@);
    assert(written_last(x8, "isAbstract"@, "isAbstract"@) == written_last(x7, "isAbstract"@, "isAbstract"@));
    let x9 = flag_attr(x8, props, "isNonunique"@);
    assert(written_last(x9, "isAbstract"@, "isAbstract"@) == written_last(x8, "isAbstract"@, "isAbstract"@));
    let x10 = flag_attr(x9, props, "isPortion"@);
    assert(written_last(x10, "isAbstract"@, "isAbstract"@) == written_last(x9, "isAbstract"@, "isAbstract"@));
    let x11 = flag_attr(x10, props, "isUnique"@);
    assert(written_last(x11, "isAbstract"@, "isAbstract"@) == written_last(x10, "isAbstract"@, "isAbstract"@));
    let x12 = flag_attr(x11, props, "isOrdered"@);
    assert(written_last(x12, "isAbstract"@, "isAbstract"@) == written_last(x11, "isAbstract"@, "isAbstract"@));
    let x13 = flag_attr(x12, props, "isComposite"@);
    assert(written_last(x13, "isAbstract"@, "isAbstract"@) == written_last(x12, "isAbstract"@, "isAbstract"@));
    let x14 = flag_attr(x13, props, "isStandard"@);
    assert(written_last(x14, "isAbstract"@, "isAbstract"@) == written_last(x13, "isAbstract"@, "isAbstract"@));
    assert(flag_attrs(x, props) == x14);
}

/// The written flags give `isVariation` as its stored boolean.
proof fn lemma_flag_attrs_is_variation(x: Seq<(Seq<char>, AttrView)>, props: Seq<(String, PropertyValue)>)
    ensures
        written_last(flag_attrs(x, props), "isVariation"@, "isVariation"@) == match prop_get(props, "isVariation"@) {
            Some(PropertyValue::Boolean(b)) => Some(AttrView::Text(bool_text(b))),
            _ => written_last(x, "isVariation"@, "isVariation"@),
        },
{
    broadcast use lemma_written_last_push;

    lemma_written_flag_chars();
    let x0 = x;
    let x1 = flag_attr(x0, props, "isAbstract"@);
    assert(written_last(x1, "isVariation"@, "isVariation"@) == written_last(x0, "isVariation"@, "isVariation"@));
    let x2 = flag_attr(x1, props, "isVariation"@);
    let x3 = flag_attr(x2, props, "isDerived"@);
    assert(written_last(x3, "isVariation"@, "isVariation"@) == written_last(x2, "isVariation"@, "isVariation"@));
    let x4 = flag_attr(x3, props, "isReadOnly"@);
    assert(written_last(x4, "isVariation"@, "isVariation"@) == written_last(x3, "isVariation"@, "isVariation"@));
    let x5 = flag_attr(x4, props, "isParallel"@);
    assert(written_last(x5, "isVariation"@, "isVariation"@) == written_last(x4, "isVariation"@, "isVariation"@));
    let x6 = flag_attr(x5, props, "isIndividual"@);
    assert(written_last(x6, "isVariation"@, "isVariation"@) == written_last(x5, "isVariation"@, "isVariation"@));
    let x7 = flag_attr(x6, props, "isEnd"@);
    assert(written_last(x7, "isVariation"@, "isVariation"@) == written_last(x6, "isVariation"@, "isVariation"@));
    let x8 = flag_attr(x7, props, "isDefault"@);
    assert(written_last(x8, "isVariation"@, "isVariation"@) == written_last(x7, "isVariation"@, "isVariation"@));
    let x9 = flag_attr(x8, props, "isNonunique"@);
    assert(written_last(x9, "isVariation"@, "isVariation"@) == written_last(x8, "isVariation"@, "isVariation"@));
    let x10 = flag_attr(x9, props, "isPortion"@);
    assert(written_last(x10, "isVariation"@, "isVariation"@) == written_last(x9, "isVariation"@, "isVariation"@));
    let x11 = flag_attr(x10, props, "isUnique"@);
    assert(written_last(x11, "isVariation"@, "isVariation"@) == written_last(x10, "isVariation"@, "isVariation"@));
    let x12 = flag_attr(x11, props, "isOrdered"@);
    assert(written_last(x12, "isVariation"@, "isVariation"@) == written_last(x11, "isVariation"@, "isVariation"@));
    let x13 = flag_attr(x12, props, "isComposite"@);
    assert(written_last(x13, "isVariation"@, "isVariation"@) == written_last(x12, "isVariation"@, "isVariation"@));
    let x14 = flag_attr(x13, props, "isStandard"@);
    assert(written_last(x14, "isVariation"@, "isVariation"@) == written_last(x13, "isVariation"@, "isVariation"@));
    assert(flag_attrs(x, props) == x14);
}

/// The written flags give `isDerived` as its stored boolean.
proof fn lemma_flag_attrs_is_derived(x: Seq<(Seq<char>, AttrView)>, props: Seq<(String, PropertyValue)>)
    ensures
        written_last(flag_attrs(x, props), "isDerived"@, "isDerived"@) == match prop_get(props, "isDerived"@) {
            Some(PropertyValue::Boolean(b)) => Some(AttrView::Text(bool_text(b))),
            _ => written_last(x, "isDerived"@, "isDerived"@),
        },
{
    broadcast use lemma_written_last_push;

    lemma_written_flag_chars();
    let x0 = x;
    let x1 = flag_attr(x0, props, "isAbstract"@);
    assert(written_last(x1, "isDerived"@, "isDerived"@) == written_last(x0, "isDerived"@, "isDerived"@));
    let x2 = flag_attr(x1, props, "isVariation"@);
    assert(written_last(x2, "isDerived"@, "isDerived"@) == written_last(x1, "isDerived"@, "isDerived"@));
    let x3 = flag_attr(x2, props, "isDerived"@);
    let x4 = flag_attr(x3, props, "isReadOnly"@);
    assert(written_last(x4, "isDerived"@, "isDerived"@) == written_last(x3, "isDerived"@, "isDerived"@));
    let x5 = flag_attr(x4, props, "isParallel"@);
    assert(written_last(x5, "isDerived"@, "isDerived"@) == written_last(x4, "isDerived"@, "isDerived"@));
    let x6 = flag_attr(x5, props, "isIndividual"@);
    assert(written_last(x6, "isDerived"@, "isDerived"@) == written_last(x5, "isDerived"@, "isDerived"@));
    let x7 = flag_attr(x6, props, "isEnd"@);
    assert(written_last(x7, "isDerived"@, "isDerived"@) == written_last(x6, "isDerived"@, "isDerived"@));
    let x8 = flag_attr(x7, props, "isDefault"@);
    assert(written_last(x8, "isDerived"@, "isDerived"@) == written_last(x7, "isDerived"@, "isDerived"@));
    let x9 = flag_attr(x8, props, "isNonunique"@);
    assert(written_last(x9, "isDerived"@, "isDerived"@) == written_last(x8, "isDerived"@, "isDerived"@));
    let x10 = flag_attr(x9, props, "isPortion"@);
    assert(written_last(x10, "isDerived"@, "isDerived"@) == written_last(x9, "isDerived"@, "isDerived"@));
    let x11 = flag_attr(x10, props, "isUnique"@);
    assert(written_last(x11, "isDerived"@, "isDerived"@) == written_last(x10, "isDerived"@, "isDerived"@));
    let x12 = flag_attr(x11, props, "isOrdered"@);
    assert(written_last(x12, "isDerived"@, "isDerived"@) == written_last(x11, "isDerived"@, "isDerived"@));
    let x13 = flag_attr(x12, props, "isComposite"@);
    assert(written_last(x13, "isDerived"@, "isDerived"@) == written_last(x12, "isDerived"@, "isDerived"@));
    let x14 = flag_attr(x13, props, "isStandard"@);
    assert(written_last(x14, "isDerived"@, "isDerived"@) == written_last(x13, "isDerived"@, "isDerived"@));
    assert(flag_attrs(x, props) == x14);
}

/// The written flags give `isReadOnly` as its stored boolean.
proof fn lemma_flag_attrs_is_readonly(x: Seq<(Seq<char>, AttrView)>, props: Seq<(String, PropertyValue)>)
    ensures
        written_last(flag_attrs(x, props), "isReadOnly"@, "isReadOnly"@) == match prop_get(props, "isReadOnly"@) {
            Some(PropertyValue::Boolean(b)) => Some(AttrView::Text(bool_text(b))),
            _ => written_last(x, "isReadOnly"@, "isReadOnly"@),
        },
{
    broadcast use lemma_written_last_push;

    lemma_written_flag_chars();
    let x0 = x;
    let x1 = flag_attr(x0, props, "isAbstract"@);
    assert(written_last(x1, "isReadOnly"@, "isReadOnly"@) == written_last(x0, "isReadOnly"@, "isReadOnly"@));
    let x2 = flag_attr(x1, props, "isVariation"@);
    assert(written_last(x2, "isReadOnly"@, "isReadOnly"@) == written_last(x1, "isReadOnly"@, "isReadOnly"@));
    let x3 = flag_attr(x2, props, "isDerived"@);
    assert(written_last(x3, "isReadOnly"@, "isReadOnly"@) == written_last(x2, "isReadOnly"@, "isReadOnly"@));
    let x4 = flag_attr(x3, props, "isReadOnly"@);
    let x5 = flag_attr(x4, props, "isParallel"@);
    assert(written_last(x5, "isReadOnly"@, "isReadOnly"@) == written_last(x4, "isReadOnly"@, "isReadOnly"@));
    let x6 = flag_attr(x5, props, "isIndividual"@);
    assert(written_last(x6, "isReadOnly"@, "isReadOnly"@) == written_last(x5, "isReadOnly"@, "isReadOnly"@));
    let x7 = flag_attr(x6, props, "isEnd"@);
    assert(written_last(x7, "isReadOnly"@, "isReadOnly"@) == written_last(x6, "isReadOnly"@, "isReadOnly"@));
    let x8 = flag_attr(x7, props, "isDefault"@);
    assert(written_last(x8, "isReadOnly"@, "isReadOnly"@) == written_last(x7, "isReadOnly"@, "isReadOnly"@));
    let x9 = flag_attr(x8, props, "isNonunique"@);
    assert(written_last(x9, "isReadOnly"@, "isReadOnly"@) == written_last(x8, "isReadOnly"@, "isReadOnly"@));
    let x10 = flag_attr(x9, props, "isPortion"@);
    assert(written_last(x10, "isReadOnly"@, "isReadOnly"@) == written_last(x9, "isReadOnly"@, "isReadOnly"@));
    let x11 = flag_attr(x10, props, "isUnique"@);
    assert(written_last(x11, "isReadOnly"@, "isReadOnly"@) == written_last(x10, "isReadOnly"@, "isReadOnly"@));
    let x12 = flag_attr(x11, props, "isOrdered"@);
    assert(written_last(x12, "isReadOnly"@, "isReadOnly"@) == written_last(x11, "isReadOnly"@, "isReadOnly"@));
    let x13 = flag_attr(x12, props, "isComposite"@);
    assert(written_last(x13, "isReadOnly"@, "isReadOnly"@) == written_last(x12, "isReadOnly"@, "isReadOnly"@));
    let x14 = flag_attr(x13, props, "isStandard"@);
    assert(written_last(x14, "isReadOnly"@, "isReadOnly"@) == written_last(x13, "isReadOnly"@, "isReadOnly"@));
    assert(flag_attrs(x, props) == x14);
}

/// The written flags give `isParallel` as its stored boolean.
proof fn lemma_flag_attrs_is_parallel(x: Seq<(Seq<char>, AttrView)>, props: Seq<(String, PropertyValue)>)
    ensures
        written_last(flag_attrs(x, props), "isParallel"@, "isParallel"@) == match prop_get(props, "isParallel"@) {
            Some(PropertyValue::Boolean(b)) => Some(AttrView::Text(bool_text(b))),
            _ => written_last(x, "isParallel"@, "isParallel"@),
        },
{
    broadcast use lemma_written_last_push;

    lemma_written_flag_chars();
    let x0 = x;
    let x1 = flag_attr(x0, props, "isAbstract"@);
    assert(written_last(x1, "isParallel"@, "isParallel"@) == written_last(x0, "isParallel"@, "isParallel"@));
    let x2 = flag_attr(x1, props, "isVariation"@);
    assert(written_last(x2, "isParallel"@, "isParallel"@) == written_last(x1, "isParallel"@, "isParallel"@));
    let x3 = flag_attr(x2, props, "isDerived"@);
    assert(written_last(x3, "isParallel"@, "isParallel"@) == written_last(x2, "isParallel"@, "isParallel"@));
    let x4 = flag_attr(x3, props, "isReadOnly"@);
    assert(written_last(x4, "isParallel"@, "isParallel"@) == written_last(x3, "isParallel"@, "isParallel"@));
    let x5 = flag_attr(x4, props, "isParallel"@);
    let x6 = flag_attr(x5, props, "isIndividual"@);
    assert(written_last(x6, "isParallel"@, "isParallel"@) == written_last(x5, "isParallel"@, "isParallel"@));
    let x7 = flag_attr(x6, props, "isEnd"@);
    assert(written_last(x7, "isParallel"@, "isParallel"@) == written_last(x6, "isParallel"@, "isParallel"@));
    let x8 = flag_attr(x7, props, "isDefault"@);
    assert(written_last(x8, "isParallel"@, "isParallel"@) == written_last(x7, "isParallel"@, "isParallel"@));
    let x9 = flag_attr(x8, props, "isNonunique"@);
    assert(written_last(x9, "isParallel"@, "isParallel"@) == written_last(x8, "isParallel"@, "isParallel"@));
    let x10 = flag_attr(x9, props, "isPortion"@);
    assert(written_last(x10, "isParallel"@, "isParallel"@) == written_last(x9, "isParallel"@, "isParallel"@));
    let x11 = flag_attr(x10, props, "isUnique"@);
    assert(written_last(x11, "isParallel"@, "isParallel"@) == written_last(x10, "isParallel"@, "isParallel"@));
    let x12 = flag_attr(x11, props, "isOrdered"@);
    assert(written_last(x12, "isParallel"@, "isParallel"@) == written_last(x11, "isParallel"@, "isParallel"@));
    let x13 = flag_attr(x12, props, "isComposite"@);
    assert(written_last(x13, "isParallel"@, "isParallel"@) == written_last(x12, "isParallel"@, "isParallel"@));
    let x14 = flag_attr(x13, props, "isStandard"@);
    assert(written_last(x14, "isParallel"@, "isParallel"@) == written_last(x13, "isParallel"@, "isParallel"@));
    assert(flag_attrs(x, props) == x14);
}

/// The written flags give `isIndividual` as its stored boolean.
proof fn lemma_flag_attrs_is_individual(x: Seq<(Seq<char>, AttrView)>, props: Seq<(String, PropertyValue)>)
    ensures
        written_last(flag_attrs(x, props), "isIndividual"@, "isIndividual"@) == match prop_get(props, "isIndividual"@) {
            Some(PropertyValue::Boolean(b)) => Some(AttrView::Text(bool_text(b))),
            _ => written_last(x, "isIndividual"@, "isIndividual"@),
        },
{
    broadcast use lemma_written_last_push;

    lemma_written_flag_chars();
    let x0 = x;
    let x1 = flag_attr(x0, props, "isAbstract"@);
    assert(written_last(x1, "isIndividual"@, "isIndividual"@) == written_last(x0, "isIndividual"@, "isIndividual"@));
    let x2 = flag_attr(x1, props, "isVariation"@);
    assert(written_last(x2, "isIndividual"@, "isIndividual"@) == written_last(x1, "isIndividual"@, "isIndividual"@));
    let x3 = flag_attr(x2, props, "isDerived"@);
    assert(written_last(x3, "isIndividual"@, "isIndividual"@) == written_last(x2, "isIndividual"@, "isIndividual"@));
    let x4 = flag_attr(x3, props, "isReadOnly"@);
    assert(written_last(x4, "isIndividual"@, "isIndividual"@) == written_last(x3, "isIndividual"@, "isIndividual"@));
    let x5 = flag_attr(x4, props, "isParallel"@);
    assert(written_last(x5, "isIndividual"@, "isIndividual"@) == written_last(x4, "isIndividual"@, "isIndividual"@));
    let x6 = flag_attr(x5, props, "isIndividual"@);
    let x7 = flag_attr(x6, props, "isEnd"@);
    assert(written_last(x7, "isIndividual"@, "isIndividual"@) == written_last(x6, "isIndividual"@, "isIndividual"@));
    let x8 = flag_attr(x7, props, "isDefault"@);
    assert(written_last(x8, "isIndividual"@, "isIndividual"@) == written_last(x7, "isIndividual"@, "isIndividual"@));
    let x9 = flag_attr(x8, props, "isNonunique"@);
    assert(written_last(x9, "isIndividual"@, "isIndividual"@) == written_last(x8, "isIndividual"@, "isIndividual"@));
    let x10 = flag_attr(x9, props, "isPortion"@);
    assert(written_last(x10, "isIndividual"@, "isIndividual"@) == written_last(x9, "isIndividual"@, "isIndividual"@));
    let x11 = flag_attr(x10, props, "isUnique"@);
    assert(written_last(x11, "isIndividual"@, "isIndividual"@) == written_last(x10, "isIndividual"@, "isIndividual"@));
    let x12 = flag_attr(x11, props, "isOrdered"@);
    assert(written_last(x12, "isIndividual"@, "isIndividual"@) == written_last(x11, "isIndividual"@, "isIndividual"@));
    let x13 = flag_attr(x12, props, "isComposite"@);
    assert(written_last(x13, "isIndividual"@, "isIndividual"@) == written_last(x12, "isIndividual"@, "isIndividual"@));
    let x14 = flag_attr(x13, props, "isStandard"@);
    assert(written_last(x14, "isIndividual"@, "isIndividual"@) == written_last(x13, "isIndividual"@, "isIndividual"@));
    assert(flag_attrs(x, props) == x14);
}

/// The written flags give `isEnd` as its stored boolean.
proof fn lemma_flag_attrs_is_end(x: Seq<(Seq<char>, AttrView)>, props: Seq<(String, PropertyValue)>)
    ensures
        written_last(flag_attrs(x, props), "isEnd"@, "isEnd"@) == match prop_get(props, "isEnd"@) {
            Some(PropertyValue::Boolean(b)) => Some(AttrView::Text(bool_text(b))),
            _ => written_last(x, "isEnd"@, "isEnd"@),
        },
{
    broadcast use lemma_written_last_push;

    lemma_written_flag_chars();
    let x0 = x;
    let x1 = flag_attr(x0, props, "isAbstract"@);
    assert(written_last(x1, "isEnd"@, "isEnd"@) == written_last(x0, "isEnd"@, "isEnd"@));
    let x2 = flag_attr(x1, props, "isVariation"@);
    assert(written_last(x2, "isEnd"@, "isEnd"@) == written_last(x1, "isEnd"@, "isEnd"@));
    let x3 = flag_attr(x2, props, "isDerived"@);
    assert(written_last(x3, "isEnd"@, "isEnd"@) == written_last(x2, "isEnd"@, "isEnd"@));
    let x4 = flag_attr(x3, props, "isReadOnly"@);
    assert(written_last(x4, "isEnd"@, "isEnd"@) == written_last(x3, "isEnd"@, "isEnd"@));
    let x5 = flag_attr(x4, props, "isParallel"@);
    assert(written_last(x5, "isEnd"@, "isEnd"@) == written_last(x4, "isEnd"@, "isEnd"@));
    let x6 = flag_attr(x5, props, "isIndividual"@);
    assert(written_last(x6, "isEnd"@, "isEnd"@) == written_last(x5, "isEnd"@, "isEnd"@));
    let x7 = flag_attr(x6, props, "isEnd"@);
    let x8 = flag_attr(x7, props, "isDefault"@);
    assert(written_last(x8, "isEnd"@, "isEnd"@) == written_last(x7, "isEnd"@, "isEnd"@));
    let x9 = flag_attr(x8, props, "isNonunique"@);
    assert(written_last(x9, "isEnd"@, "isEnd"@) == written_last(x8, "isEnd"@, "isEnd"@));
    let x10 = flag_attr(x9, props, "isPortion"@);
    assert(written_last(x10, "isEnd"@, "isEnd"@) == written_last(x9, "isEnd"@, "isEnd"@));
    let x11 = flag_attr(x10, props, "isUnique"@);
    assert(written_last(x11, "isEnd"@, "isEnd"@) == written_last(x10, "isEnd"@, "isEnd"@));
    let x12 = flag_attr(x11, props, "isOrdered"@);
    assert(written_last(x12, "isEnd"@, "isEnd"@) == written_last(x11, "isEnd"@, "isEnd"@));
    let x13 = flag_attr(x12, props, "isComposite"@);
    assert(written_last(x13, "isEnd"@, "isEnd"@) == written_last(x12, "isEnd"@, "isEnd"@));
    let x14 = flag_attr(x13, props, "isStandard"@);
    assert(written_last(x14, "isEnd"@, "isEnd"@) == written_last(x13, "isEnd"@, "isEnd"@));
    assert(flag_attrs(x, props) == x14);
}

/// The written flags give `isDefault` as its stored boolean.
proof fn lemma_flag_attrs_is_default(x: Seq<(Seq<char>, AttrView)>, props: Seq<(String, PropertyValue)>)
    ensures
        written_last(flag_attrs(x, props), "isDefault"@, "isDefault"@) == match prop_get(props, "isDefault"@) {
            Some(PropertyValue::Boolean(b)) => Some(AttrView::Text(bool_text(b))),
            _ => written_last(x, "isDefault"@, "isDefault"@),
        },
{
    broadcast use lemma_written_last_push;

    lemma_written_flag_chars();
    let x0 = x;
    let x1 = flag_attr(x0, props, "isAbstract"@);
    assert(written_last(x1, "isDefault"@, "isDefault"@) == written_last(x0, "isDefault"@, "isDefault"@));
    let x2 = flag_attr(x1, props, "isVariation"@);
    assert(written_last(x2, "isDefault"@, "isDefault"@) == written_last(x1, "isDefault"@, "isDefault"@));
    let x3 = flag_attr(x2, props, "isDerived"@);
    assert(written_last(x3, "isDefault"@, "isDefault"@) == written_last(x2, "isDefault"@, "isDefault"@));
    let x4 = flag_attr(x3, props, "isReadOnly"@);
    assert(written_last(x4, "isDefault"@, "isDefault"@) == written_last(x3, "isDefault"@, "isDefault"@));
    let x5 = flag_attr(x4, props, "isParallel"@);
    assert(written_last(x5, "isDefault"@, "isDefault"@) == written_last(x4, "isDefault"@, "isDefault"@));
    let x6 = flag_attr(x5, props, "isIndividual"@);
    assert(written_last(x6, "isDefault"@, "isDefault"@) == written_last(x5, "isDefault"@, "isDefault"@));
    let x7 = flag_attr(x6, props, "isEnd"@);
    assert(written_last(x7, "isDefault"@, "isDefault"@) == written_last(x6, "isDefault"@, "isDefault"@));
    let x8 = flag_attr(x7, props, "isDefault"@);
    let x9 = flag_attr(x8, props, "isNonunique"@);
    assert(written_last(x9, "isDefault"@, "isDefault"@) == written_last(x8, "isDefault"@, "isDefault"@));
    let x10 = flag_attr(x9, props, "isPortion"@);
    assert(written_last(x10, "isDefault"@, "isDefault"@) == written_last(x9, "isDefault"@, "isDefault"@));
    let x11 = flag_attr(x10, props, "isUnique"@);
    assert(written_last(x11, "isDefault"@, "isDefault"@) == written_last(x10, "isDefault"@, "isDefault"@));
    let x12 = flag_attr(x11, props, "isOrdered"@);
    assert(written_last(x12, "isDefault"@, "isDefault"@) == written_last(x11, "isDefault"@, "isDefault"@));
    let x13 = flag_attr(x12, props, "isComposite"@);
    assert(written_last(x13, "isDefault"@, "isDefault"@) == written_last(x12, "isDefault"@, "isDefault"@));
    let x14 = flag_attr(x13, props, "isStandard"@);
    assert(written_last(x14, "isDefault"@, "isDefault"@) == written_last(x13, "isDefault"@, "isDefault"@));
    assert(flag_attrs(x, props) == x14);
}

/// The written flags give `isOrdered` as its stored boolean.
proof fn lemma_flag_attrs_is_ordered(x: Seq<(Seq<char>, AttrView)>, props: Seq<(String, PropertyValue)>)
    ensures
        written_last(flag_attrs(x, props), "isOrdered"@, "isOrdered"@) == match prop_get(props, "isOrdered"@) {
            Some(PropertyValue::Boolean(b)) => Some(AttrView::Text(bool_text(b))),
            _ => written_last(x, "isOrdered"@, "isOrdered"@),
        },
{
    broadcast use lemma_written_last_push;

    lemma_written_flag_chars();
    let x0 = x;
    let x1 = flag_attr(x0, props, "isAbstract"@);
    assert(written_last(x1, "isOrdered"@, "isOrdered"@) == written_last(x0, "isOrdered"@, "isOrdered"@));
    let x2 = flag_attr(x1, props, "isVariation"@);
    assert(written_last(x2, "isOrdered"@, "isOrdered"@) == written_last(x1, "isOrdered"@, "isOrdered"@));
    let x3 = flag_attr(x2, props, "isDerived"@);
    assert(written_last(x3, "isOrdered"@, "isOrdered"@) == written_last(x2, "isOrdered"@, "isOrdered"@));
    let x4 = flag_attr(x3, props, "isReadOnly"@);
    assert(written_last(x4, "isOrdered"@, "isOrdered"@) == written_last(x3, "isOrdered"@, "isOrdered"@));
    let x5 = flag_attr(x4, props, "isParallel"@);
    assert(written_last(x5, "isOrdered"@, "isOrdered"@) == written_last(x4, "isOrdered"@, "isOrdered"@));
    let x6 = flag_attr(x5, props, "isIndividual"@);
    assert(written_last(x6, "isOrdered"@, "isOrdered"@) == written_last(x5, "isOrdered"@, "isOrdered"@));
    let x7 = flag_attr(x6, props, "isEnd"@);
    assert(written_last(x7, "isOrdered"@, "isOrdered"@) == written_last(x6, "isOrdered"@, "isOrdered"@));
    let x8 = flag_attr(x7, props, "isDefault"@);
    assert(written_last(x8, "isOrdered"@, "isOrdered"@) == written_last(x7, "isOrdered"@, "isOrdered"@));
    let x9 = flag_attr(x8, props, "isNonunique"@);
    assert(written_last(x9, "isOrdered"@, "isOrdered"@) == written_last(x8, "isOrdered"@, "isOrdered"@));
    let x10 = flag_attr(x9, props, "isPortion"@);
    assert(written_last(x10, "isOrdered"@, "isOrdered"@) == written_last(x9, "isOrdered"@, "isOrdered"@));
    let x11 = flag_attr(x10, props, "isUnique"@);
    assert(written_last(x11, "isOrdered"@, "isOrdered"@) == written_last(x10, "isOrdered"@, "isOrdered"@));
    let x12 = flag_attr(x11, props, "isOrdered"@);
    let x13 = flag_attr(x12, props, "isComposite"@);
    assert(written_last(x13, "isOrdered"@, "isOrdered"@) == written_last(x12, "isOrdered"@, "isOrdered"@));
    let x14 = flag_attr(x13, props, "isStandard"@);
    assert(written_last(x14, "isOrdered"@, "isOrdered"@) == written_last(x13, "isOrdered"@, "isOrdered"@));
    assert(flag_attrs(x, props) == x14);
}

/// The written flags give `isNonunique` as its stored boolean.
proof fn lemma_flag_attrs_is_nonunique(x: Seq<(Seq<char>, AttrView)>, props: Seq<(String, PropertyValue)>)
    ensures
        written_last(flag_attrs(x, props), "isNonunique"@, "isNonunique"@) == match prop_get(props, "isNonunique"@) {
            Some(PropertyValue::Boolean(b)) => Some(AttrView::Text(bool_text(b))),
            _ => written_last(x, "isNonunique"@, "isNonunique"@),
        },
{
    broadcast use lemma_written_last_push;

    lemma_written_flag_chars();
    let x0 = x;
    let x1 = flag_attr(x0, props, "isAbstract"@);
    assert(written_last(x1, "isNonunique"@, "isNonunique"@) == written_last(x0, "isNonunique"@, "isNonunique"@));
    let x2 = flag_attr(x1, props, "isVariation"@);
    assert(written_last(x2, "isNonunique"@, "isNonunique"@) == written_last(x1, "isNonunique"@, "isNonunique"@));
    let x3 = flag_attr(x2, props, "isDerived"@);
    assert(written_last(x3, "isNonunique"@, "isNonunique"@) == written_last(x2, "isNonunique"@, "isNonunique"@));
    let x4 = flag_attr(x3, props, "isReadOnly"@);
    assert(written_last(x4, "isNonunique"@, "isNonunique"@) == written_last(x3, "isNonunique"@, "isNonunique"@));
    let x5 = flag_attr(x4, props, "isParallel"@);
    assert(written_last(x5, "isNonunique"@, "isNonunique"@) == written_last(x4, "isNonunique"@, "isNonunique"@));
    let x6 = flag_attr(x5, props, "isIndividual"@);
    assert(written_last(x6, "isNonunique"@, "isNonunique"@) == written_last(x5, "isNonunique"@, "isNonunique"@));
    let x7 = flag_attr(x6, props, "isEnd"@);
    assert(written_last(x7, "isNonunique"@, "isNonunique"@) == written_last(x6, "isNonunique"@, "isNonunique"@));
    let x8 = flag_attr(x7, props, "isDefault"@);
    assert(written_last(x8, "isNonunique"@, "isNonunique"@) == written_last(x7, "isNonunique"@, "isNonunique"@));
    let x9 = flag_attr(x8, props, "isNonunique"@);
    let x10 = flag_attr(x9, props, "isPortion"@);
    assert(written_last(x10, "isNonunique"@, "isNonunique"@) == written_last(x9, "isNonunique"@, "isNonunique"@));
    let x11 = flag_attr(x10, props, "isUnique"@);
    assert(written_last(x11, "isNonunique"@, "isNonunique"@) == written_last(x10, "isNonunique"@, "isNonunique"@));
    let x12 = flag_attr(x11, props, "isOrdered"@);
    assert(written_last(x12, "isNonunique"@, "isNonunique"@) == written_last(x11, "isNonunique"@, "isNonunique"@));
    let x13 = flag_attr(x12, props, "isComposite"@);
    assert(written_last(x13, "isNonunique"@, "isNonunique"@) == written_last(x12, "isNonunique"@, "isNonunique"@));
    let x14 = flag_attr(x13, props, "isStandard"@);
    assert(written_last(x14, "isNonunique"@, "isNonunique"@) == written_last(x13, "isNonunique"@, "isNonunique"@));
    assert(flag_attrs(x, props) == x14);
}

/// The written flags give `isPortion` as its stored boolean.
proof fn lemma_flag_attrs_is_portion(x: Seq<(Seq<char>, AttrView)>, props: Seq<(String, PropertyValue)>)
    ensures
        written_last(flag_attrs(x, props), "isPortion"@, "isPortion"@) == match prop_get(props, "isPortion"@) {
            Some(PropertyValue::Boolean(b)) => Some(AttrView::Text(bool_text(b))),
            _ => written_last(x, "isPortion"@, "isPortion"@),
        },
{
    broadcast use lemma_written_last_push;

    lemma_written_flag_chars();
    let x0 = x;
    let x1 = flag_attr(x0, props, "isAbstract"@);
    assert(written_last(x1, "isPortion"@, "isPortion"@) == written_last(x0, "isPortion"@, "isPortion"@));
    let x2 = flag_attr(x1, props, "isVariation"@);
    assert(written_last(x2, "isPortion"@, "isPortion"@) == written_last(x1, "isPortion"@, "isPortion"@));
    let x3 = flag_attr(x2, props, "isDerived"@);
    assert(written_last(x3, "isPortion"@, "isPortion"@) == written_last(x2, "isPortion"@, "isPortion"@));
    let x4 = flag_attr(x3, props, "isReadOnly"@);
    assert(written_last(x4, "isPortion"@, "isPortion"@) == written_last(x3, "isPortion"@, "isPortion"@));
    let x5 = flag_attr(x4, props, "isParallel"@);
    assert(written_last(x5, "isPortion"@, "isPortion"@) == written_last(x4, "isPortion"@, "isPortion"@));
    let x6 = flag_attr(x5, props, "isIndividual"@);
    assert(written_last(x6, "isPortion"@, "isPortion"@) == written_last(x5, "isPortion"@, "isPortion"@));
    let x7 = flag_attr(x6, props, "isEnd"@);
    assert(written_last(x7, "isPortion"@, "isPortion"@) == written_last(x6, "isPortion"@, "isPortion"@));
    let x8 = flag_attr(x7, props, "isDefault"@);
    assert(written_last(x8, "isPortion"@, "isPortion"@) == written_last(x7, "isPortion"@, "isPortion"@));
    let x9 = flag_attr(x8, props, "isNonunique"@);
    assert(written_last(x9, "isPortion"@, "isPortion"@) == written_last(x8, "isPortion"@, "isPortion"@));
    let x10 = flag_attr(x9, props, "isPortion"@);
    let x11 = flag_attr(x10, props, "isUnique"@);
    assert(written_last(x11, "isPortion"@, "isPortion"@) == written_last(x10, "isPortion"@, "isPortion"@));
    let x12 = flag_attr(x11, props, "isOrdered"@);
    assert(written_last(x12, "isPortion"@, "isPortion"@) == written_last(x11, "isPortion"@, "isPortion"@));
    let x13 = flag_attr(x12, props, "isComposite"@);
    assert(written_last(x13, "isPortion"@, "isPortion"@) == written_last(x12, "isPortion"@, "isPortion"@));
    let x14 = flag_attr(x13, props, "isStandard"@);
    assert(written_last(x14, "isPortion"@, "isPortion"@) == written_last(x13, "isPortion"@, "isPortion"@));
    assert(flag_attrs(x, props) == x14);
}

/// Whether the properties of `e` are written apart from the attributes the
/// reader takes into fields: a property named like such an attribute is
/// one the writer does not write as an attribute of its own.
pub open spec fn properties_written_apart(e: Element) -> bool {
    let props = property_entries(e.properties);
    forall|i: int|
        0 <= i < props.len() && is_tag_field_key(#[trigger] props[i].0@) ==> is_skipped_property(props[i].0@)
            || has_prefix(props[i].0@, "_"@)
}

/// Whether the flag fields of `e` are what its flag properties say: set
/// exactly when the property holds `true`, as the flag setters keep them.
pub open spec fn flags_follow_properties(e: Element) -> bool {
    let props = property_entries(e.properties);
    &&& e.is_abstract == (prop_get(props, "isAbstract"@) == Some(PropertyValue::Boolean(true)))
    &&& e.is_variation == (prop_get(props, "isVariation"@) == Some(PropertyValue::Boolean(true)))
    &&& e.is_derived == (prop_get(props, "isDerived"@) == Some(PropertyValue::Boolean(true)))
    &&& e.is_readonly == (prop_get(props, "isReadOnly"@) == Some(PropertyValue::Boolean(true)))
    &&& e.is_parallel == (prop_get(props, "isParallel"@) == Some(PropertyValue::Boolean(true)))
    &&& e.is_individual == (prop_get(props, "isIndividual"@) == Some(PropertyValue::Boolean(true)))
    &&& e.is_end == (prop_get(props, "isEnd"@) == Some(PropertyValue::Boolean(true)))
    &&& e.is_default == (prop_get(props, "isDefault"@) == Some(PropertyValue::Boolean(true)))
    &&& e.is_ordered == (prop_get(props, "isOrdered"@) == Some(PropertyValue::Boolean(true)))
    &&& e.is_nonunique == (prop_get(props, "isNonunique"@) == Some(PropertyValue::Boolean(true)))
    &&& e.is_portion == (prop_get(props, "isPortion"@) == Some(PropertyValue::Boolean(true)))
}

/// The properties written as attributes leave the last attribute named
/// like a field as it was.
proof fn lemma_other_attrs_keep(x: Seq<(Seq<char>, AttrView)>, props: Seq<(String, PropertyValue)>, a: Seq<char>, b: Seq<char>)
    requires
        is_tag_field_key(a),
        is_tag_field_key(b),
        forall|i: int|
            0 <= i < props.len() && is_tag_field_key(#[trigger] props[i].0@) ==> is_skipped_property(props[i].0@)
                || has_prefix(props[i].0@, "_"@),
    ensures
        written_last(other_attrs(x, props), a, b) == written_last(x, a, b),
    decreases props.len(),
{
    broadcast use lemma_written_last_push;

    if props.len() > 0 {
        assert forall|i: int|
            0 <= i < props.drop_last().len() && is_tag_field_key(#[trigger] props.drop_last()[i].0@) implies is_skipped_property(
            props.drop_last()[i].0@,
        ) || has_prefix(props.drop_last()[i].0@, "_"@) by {
            assert(props.drop_last()[i] == props[i]);
        }
        lemma_other_attrs_keep(x, props.drop_last(), a, b);
        assert(props.last() == props[props.len() - 1]);
    }
}

/// Attributes none of which is named `a` or `b` hold neither.
proof fn lemma_no_field_attrs(x: Seq<(Seq<char>, AttrView)>, a: Seq<char>, b: Seq<char>)
    requires
        forall|i: int| 0 <= i < x.len() ==> #[trigger] x[i].0 != a && x[i].0 != b,
    ensures
        written_last(x, a, b) is None,
    decreases x.len(),
{
    if x.len() > 0 {
        assert(x[x.len() - 1].0 != a);
        assert forall|i: int| 0 <= i < x.drop_last().len() implies #[trigger] x.drop_last()[i].0 != a && x.drop_last()[i].0 != b by {
            assert(x.drop_last()[i] == x[i]);
        }
        lemma_no_field_attrs(x.drop_last(), a, b);
    }
}

/// Whether the attributes `a` written before an element's own name none
/// of the fields the reader reads but its type.
pub open spec fn prefix_names_no_field(a: Seq<(Seq<char>, AttrView)>) -> bool {
    forall|i: int| 0 <= i < a.len() ==> !is_tag_field_key(#[trigger] a[i].0) || a[i].0 == "xmi:type"@ || a[i].0 == "xsi:type"@
}

/// The attributes before an element's own hold no field but its type.
proof fn lemma_prefix_none(a: Seq<(Seq<char>, AttrView)>, k1: Seq<char>, k2: Seq<char>)
    requires
        prefix_names_no_field(a),
        is_tag_field_key(k1),
        is_tag_field_key(k2),
        k1.len() != 8 && k2.len() != 8,
    ensures
        written_last(a, k1, k2) is None,
{
    reveal_strlit("xmi:type");
    reveal_strlit("xsi:type");
    assert forall|i: int| 0 <= i < a.len() implies #[trigger] a[i].0 != k1 && a[i].0 != k2 by {
        if a[i].0 == k1 || a[i].0 == k2 {
            assert(is_tag_field_key(a[i].0));
            assert(a[i].0 == "xmi:type"@ || a[i].0 == "xsi:type"@);
            assert(a[i].0.len() == 8);
        }
    }
    lemma_no_field_attrs(a, k1, k2);
}

/// The characters that tell the names of the ID, name and endpoint
/// attributes apart.
proof fn lemma_attr_name_chars()
    ensures
        "xmi:id"@.len() == 6 && "xmi:id"@[0] == 'x',
        "id"@.len() == 2 && "id"@[0] == 'i' && "id"@[1] == 'd',
        "elementId"@.len() == 9 && "elementId"@[0] == 'e',
        "name"@.len() == 4 && "name"@[0] == 'n',
        "declaredName"@.len() == 12 && "declaredName"@[0] == 'd' && "declaredName"@[8] == 'N',
        "shortName"@.len() == 9 && "shortName"@[0] == 's' && "shortName"@[1] == 'h',
        "declaredShortName"@.len() == 17 && "declaredShortName"@[0] == 'd' && "declaredShortName"@[8] == 'S',
        "qualifiedName"@.len() == 13 && "qualifiedName"@[0] == 'q',
        "body"@.len() == 4 && "body"@[0] == 'b',
        "source"@.len() == 6 && "source"@[0] == 's' && "source"@[1] == 'o',
        "target"@.len() == 6 && "target"@[0] == 't',
        "true"@.len() == 4 && "true"@[0] == 't',
        "false"@.len() == 5 && "false"@[0] == 'f',
{
    reveal_strlit("xmi:id");
    reveal_strlit("id");
    reveal_strlit("elementId");
    reveal_strlit("name");
    reveal_strlit("declaredName");
    reveal_strlit("shortName");
    reveal_strlit("declaredShortName");
    reveal_strlit("qualifiedName");
    reveal_strlit("body");
    reveal_strlit("source");
    reveal_strlit("target");
    reveal_strlit("true");
    reveal_strlit("false");
}

/// What the written attributes hold under a field's name, past the flags
/// and the properties: what the head and endpoints hold.
proof fn lemma_attrs_from_head(a: Seq<(Seq<char>, AttrView)>, e: Element, k1: Seq<char>, k2: Seq<char>)
    requires
        properties_written_apart(e),
        is_tag_field_key(k1),
        is_tag_field_key(k2),
        unlike_flag(k1),
        unlike_flag(k2),
        k1 != "body"@,
        k2 != "body"@,
    ensures
        written_last(element_attrs(a, e), k1, k2) == written_last(endpoint_attrs(head_attrs(a, e), e), k1, k2),
{
    broadcast use lemma_written_last_push;

    let props = property_entries(e.properties);
    let a4 = endpoint_attrs(head_attrs(a, e), e);
    let a5 = flag_attrs(a4, props);
    let a6 = match e.documentation {
        Some(d) => a5.push(("body"@, AttrView::Escaped(escape_text(d@)))),
        None => a5,
    };
    lemma_other_attrs_keep(a6, props, k1, k2);
    lemma_flag_attrs_keep(a4, props, k1, k2);
}

/// What the head and endpoint attributes hold under the names of the ID,
/// name and documentation fields.
proof fn lemma_head_attrs_values(a: Seq<(Seq<char>, AttrView)>, e: Element)
    requires
        prefix_names_no_field(a),
    ensures
        written_last(endpoint_attrs(head_attrs(a, e), e), "xmi:id"@, "id"@) == Some(AttrView::Text(e.id@)),
        written_last(endpoint_attrs(head_attrs(a, e), e), "name"@, "declaredName"@) == match e.name {
            Some(n) => Some(AttrView::Text(n@)),
            None => None::<AttrView>,
        },
        written_last(endpoint_attrs(head_attrs(a, e), e), "shortName"@, "declaredShortName"@) == match e.short_name {
            Some(n) => Some(AttrView::Text(n@)),
            None => None::<AttrView>,
        },
        written_last(endpoint_attrs(head_attrs(a, e), e), "qualifiedName"@, "qualifiedName"@) == match e.qualified_name {
            Some(n) => Some(AttrView::Text(n@)),
            None => None::<AttrView>,
        },
        written_last(endpoint_attrs(head_attrs(a, e), e), "body"@, "body"@) is None,
{
    broadcast use lemma_written_last_push;

    lemma_attr_name_chars();
    lemma_prefix_none(a, "name"@, "declaredName"@);
    lemma_prefix_none(a, "shortName"@, "declaredShortName"@);
    lemma_prefix_none(a, "qualifiedName"@, "qualifiedName"@);
    lemma_prefix_none(a, "body"@, "body"@);
}

/// The ID, names and documentation read back from the attributes written
/// for `e`.
proof fn read_back_xmi_names(a: Seq<(Seq<char>, AttrView)>, e: Element, tag: XmlTag, parent: Option<Seq<char>>, e2: Element)
    requires
        prefix_names_no_field(a),
        properties_written_apart(e),
        attributes_read_as(element_attrs(a, e), tag.attributes@),
        element_from_tag(e2, tag, parent),
    ensures
        e2.id@ == e.id@,
        opt_text(e2.name) == opt_text(e.name),
        opt_text(e2.short_name) == opt_text(e.short_name),
        opt_text(e2.qualified_name) == opt_text(e.qualified_name),
        opt_text(e2.documentation) == opt_text(e.documentation),
{
    broadcast use lemma_written_last_push;

    lemma_attr_name_chars();
    lemma_written_flag_chars();
    let ws = element_attrs(a, e);
    let attrs = tag.attributes@;
    assert(is_tag_field_key("xmi:id"@) && is_tag_field_key("id"@) && is_tag_field_key("name"@));
    lemma_head_attrs_values(a, e);
    lemma_attrs_from_head(a, e, "xmi:id"@, "id"@);
    lemma_attrs_from_head(a, e, "name"@, "declaredName"@);
    lemma_attrs_from_head(a, e, "shortName"@, "declaredShortName"@);
    lemma_attrs_from_head(a, e, "qualifiedName"@, "qualifiedName"@);
    lemma_read_last(ws, attrs, "xmi:id"@, "id"@);
    lemma_read_last(ws, attrs, "name"@, "declaredName"@);
    lemma_read_last(ws, attrs, "shortName"@, "declaredShortName"@);
    lemma_read_last(ws, attrs, "qualifiedName"@, "qualifiedName"@);
    lemma_read_last(ws, attrs, "body"@, "body"@);
    let props = property_entries(e.properties);
    let a4 = endpoint_attrs(head_attrs(a, e), e);
    let a5 = flag_attrs(a4, props);
    let a6 = match e.documentation {
        Some(d) => a5.push(("body"@, AttrView::Escaped(escape_text(d@)))),
        None => a5,
    };
    lemma_other_attrs_keep(a6, props, "body"@, "body"@);
    lemma_flag_attrs_keep(a4, props, "body"@, "body"@);
    if let Some(d) = e.documentation {
        let v = last_value(attrs, "body"@, "body"@).unwrap();
        lemma_escape_injective(v@, d@);
    }
}

/// Flag `isAbstract` read back from the attributes written for `e`.
proof fn read_back_xmi_is_abstract(a: Seq<(Seq<char>, AttrView)>, e: Element, tag: XmlTag, parent: Option<Seq<char>>, e2: Element)
    requires
        prefix_names_no_field(a),
        properties_written_apart(e),
        flags_follow_properties(e),
        attributes_read_as(element_attrs(a, e), tag.attributes@),
        element_from_tag(e2, tag, parent),
    ensures
        e2.is_abstract == e.is_abstract,
{
    broadcast use lemma_written_last_push;

    lemma_attr_name_chars();
    lemma_written_flag_chars();
    let ws = element_attrs(a, e);
    let attrs = tag.attributes@;
    let props = property_entries(e.properties);
    let a4 = endpoint_attrs(head_attrs(a, e), e);
    let a5 = flag_attrs(a4, props);
    let a6 = match e.documentation {
        Some(d) => a5.push(("body"@, AttrView::Escaped(escape_text(d@)))),
        None => a5,
    };
    assert(is_tag_field_key("isAbstract"@));
    lemma_other_attrs_keep(a6, props, "isAbstract"@, "isAbstract"@);
    lemma_flag_attrs_is_abstract(a4, props);
    lemma_prefix_none(a, "isAbstract"@, "isAbstract"@);
    lemma_read_last(ws, attrs, "isAbstract"@, "isAbstract"@);
}

/// Flag `isVariation` read back from the attributes written for `e`.
proof fn read_back_xmi_is_variation(a: Seq<(Seq<char>, AttrView)>, e: Element, tag: XmlTag, parent: Option<Seq<char>>, e2: Element)
    requires
        prefix_names_no_field(a),
        properties_written_apart(e),
        flags_follow_properties(e),
        attributes_read_as(element_attrs(a, e), tag.attributes@),
        element_from_tag(e2, tag, parent),
    ensures
        e2.is_variation == e.is_variation,
{
    broadcast use lemma_written_last_push;

    lemma_attr_name_chars();
    lemma_written_flag_chars();
    let ws = element_attrs(a, e);
    let attrs = tag.attributes@;
    let props = property_entries(e.properties);
    let a4 = endpoint_attrs(head_attrs(a, e), e);
    let a5 = flag_attrs(a4, props);
    let a6 = match e.documentation {
        Some(d) => a5.push(("body"@, AttrView::Escaped(escape_text(d@)))),
        None => a5,
    };
    assert(is_tag_field_key("isVariation"@));
    lemma_other_attrs_keep(a6, props, "isVariation"@, "isVariation"@);
    lemma_flag_attrs_is_variation(a4, props);
    lemma_prefix_none(a, "isVariation"@, "isVariation"@);
    lemma_read_last(ws, attrs, "isVariation"@, "isVariation"@);
}

/// Flag `isDerived` read back from the attributes written for `e`.
proof fn read_back_xmi_is_derived(a: Seq<(Seq<char>, AttrView)>, e: Element, tag: XmlTag, parent: Option<Seq<char>>, e2: Element)
    requires
        prefix_names_no_field(a),
        properties_written_apart(e),
        flags_follow_properties(e),
        attributes_read_as(element_attrs(a, e), tag.attributes@),
        element_from_tag(e2, tag, parent),
    ensures
        e2.is_derived == e.is_derived,
{
    broadcast use lemma_written_last_push;

    lemma_attr_name_chars();
    lemma_written_flag_chars();
    let ws = element_attrs(a, e);
    let attrs = tag.attributes@;
    let props = property_entries(e.properties);
    let a4 = endpoint_attrs(head_attrs(a, e), e);
    let a5 = flag_attrs(a4, props);
    let a6 = match e.documentation {
        Some(d) => a5.push(("body"@, AttrView::Escaped(escape_text(d@)))),
        None => a5,
    };
    assert(is_tag_field_key("isDerived"@));
    lemma_other_attrs_keep(a6, props, "isDerived"@, "isDerived"@);
    lemma_flag_attrs_is_derived(a4, props);
    lemma_prefix_none(a, "isDerived"@, "isDerived"@);
    lemma_read_last(ws, attrs, "isDerived"@, "isDerived"@);
}

/// Flag `isReadOnly` read back from the attributes written for `e`.
proof fn read_back_xmi_is_readonly(a: Seq<(Seq<char>, AttrView)>, e: Element, tag: XmlTag, parent: Option<Seq<char>>, e2: Element)
    requires
        prefix_names_no_field(a),
        properties_written_apart(e),
        flags_follow_properties(e),
        attributes_read_as(element_attrs(a, e), tag.attributes@),
        element_from_tag(e2, tag, parent),
    ensures
        e2.is_readonly == e.is_readonly,
{
    broadcast use lemma_written_last_push;

    lemma_attr_name_chars();
    lemma_written_flag_chars();
    let ws = element_attrs(a, e);
    let attrs = tag.attributes@;
    let props = property_entries(e.properties);
    let a4 = endpoint_attrs(head_attrs(a, e), e);
    let a5 = flag_attrs(a4, props);
    let a6 = match e.documentation {
        Some(d) => a5.push(("body"@, AttrView::Escaped(escape_text(d@)))),
        None => a5,
    };
    assert(is_tag_field_key("isReadOnly"@));
    lemma_other_attrs_keep(a6, props, "isReadOnly"@, "isReadOnly"@);
    lemma_flag_attrs_is_readonly(a4, props);
    lemma_prefix_none(a, "isReadOnly"@, "isReadOnly"@);
    lemma_read_last(ws, attrs, "isReadOnly"@, "isReadOnly"@);
}

/// Flag `isParallel` read back from the attributes written for `e`.
proof fn read_back_xmi_is_parallel(a: Seq<(Seq<char>, AttrView)>, e: Element, tag: XmlTag, parent: Option<Seq<char>>, e2: Element)
    requires
        prefix_names_no_field(a),
        properties_written_apart(e),
        flags_follow_properties(e),
        attributes_read_as(element_attrs(a, e), tag.attributes@),
        element_from_tag(e2, tag, parent),
    ensures
        e2.is_parallel == e.is_parallel,
{
    broadcast use lemma_written_last_push;

    lemma_attr_name_chars();
    lemma_written_flag_chars();
    let ws = element_attrs(a, e);
    let attrs = tag.attributes@;
    let props = property_entries(e.properties);
    let a4 = endpoint_attrs(head_attrs(a, e), e);
    let a5 = flag_attrs(a4, props);
    let a6 = match e.documentation {
        Some(d) => a5.push(("body"@, AttrView::Escaped(escape_text(d@)))),
        None => a5,
    };
    assert(is_tag_field_key("isParallel"@));
    lemma_other_attrs_keep(a6, props, "isParallel"@, "isParallel"@);
    lemma_flag_attrs_is_parallel(a4, props);
    lemma_prefix_none(a, "isParallel"@, "isParallel"@);
    lemma_read_last(ws, attrs, "isParallel"@, "isParallel"@);
}

/// Flag `isIndividual` read back from the attributes written for `e`.
proof fn read_back_xmi_is_individual(a: Seq<(Seq<char>, AttrView)>, e: Element, tag: XmlTag, parent: Option<Seq<char>>, e2: Element)
    requires
        prefix_names_no_field(a),
        properties_written_apart(e),
        flags_follow_properties(e),
        attributes_read_as(element_attrs(a, e), tag.attributes@),
        element_from_tag(e2, tag, parent),
    ensures
        e2.is_individual == e.is_individual,
{
    broadcast use lemma_written_last_push;

    lemma_attr_name_chars();
    lemma_written_flag_chars();
    let ws = element_attrs(a, e);
    let attrs = tag.attributes@;
    let props = property_entries(e.properties);
    let a4 = endpoint_attrs(head_attrs(a, e), e);
    let a5 = flag_attrs(a4, props);
    let a6 = match e.documentation {
        Some(d) => a5.push(("body"@, AttrView::Escaped(escape_text(d@)))),
        None => a5,
    };
    assert(is_tag_field_key("isIndividual"@));
    lemma_other_attrs_keep(a6, props, "isIndividual"@, "isIndividual"@);
    lemma_flag_attrs_is_individual(a4, props);
    lemma_prefix_none(a, "isIndividual"@, "isIndividual"@);
    lemma_read_last(ws, attrs, "isIndividual"@, "isIndividual"@);
}

/// Flag `isEnd` read back from the attributes written for `e`.
proof fn read_back_xmi_is_end(a: Seq<(Seq<char>, AttrView)>, e: Element, tag: XmlTag, parent: Option<Seq<char>>, e2: Element)
    requires
        prefix_names_no_field(a),
        properties_written_apart(e),
        flags_follow_properties(e),
        attributes_read_as(element_attrs(a, e), tag.attributes@),
        element_from_tag(e2, tag, parent),
    ensures
        e2.is_end == e.is_end,
{
    broadcast use lemma_written_last_push;

    lemma_attr_name_chars();
    lemma_written_flag_chars();
    let ws = element_attrs(a, e);
    let attrs = tag.attributes@;
    let props = property_entries(e.properties);
    let a4 = endpoint_attrs(head_attrs(a, e), e);
    let a5 = flag_attrs(a4, props);
    let a6 = match e.documentation {
        Some(d) => a5.push(("body"@, AttrView::Escaped(escape_text(d@)))),
        None => a5,
    };
    assert(is_tag_field_key("isEnd"@));
    lemma_other_attrs_keep(a6, props, "isEnd"@, "isEnd"@);
    lemma_flag_attrs_is_end(a4, props);
    lemma_prefix_none(a, "isEnd"@, "isEnd"@);
    lemma_read_last(ws, attrs, "isEnd"@, "isEnd"@);
}

/// Flag `isDefault` read back from the attributes written for `e`.
proof fn read_back_xmi_is_default(a: Seq<(Seq<char>, AttrView)>, e: Element, tag: XmlTag, parent: Option<Seq<char>>, e2: Element)
    requires
        prefix_names_no_field(a),
        properties_written_apart(e),
        flags_follow_properties(e),
        attributes_read_as(element_attrs(a, e), tag.attributes@),
        element_from_tag(e2, tag, parent),
    ensures
        e2.is_default == e.is_default,
{
    broadcast use lemma_written_last_push;

    lemma_attr_name_chars();
    lemma_written_flag_chars();
    let ws = element_attrs(a, e);
    let attrs = tag.attributes@;
    let props = property_entries(e.properties);
    let a4 = endpoint_attrs(head_attrs(a, e), e);
    let a5 = flag_attrs(a4, props);
    let a6 = match e.documentation {
        Some(d) => a5.push(("body"@, AttrView::Escaped(escape_text(d@)))),
        None => a5,
    };
    assert(is_tag_field_key("isDefault"@));
    lemma_other_attrs_keep(a6, props, "isDefault"@, "isDefault"@);
    lemma_flag_attrs_is_default(a4, props);
    lemma_prefix_none(a, "isDefault"@, "isDefault"@);
    lemma_read_last(ws, attrs, "isDefault"@, "isDefault"@);
}

/// Flag `isOrdered` read back from the attributes written for `e`.
proof fn read_back_xmi_is_ordered(a: Seq<(Seq<char>, AttrView)>, e: Element, tag: XmlTag, parent: Option<Seq<char>>, e2: Element)
    requires
        prefix_names_no_field(a),
        properties_written_apart(e),
        flags_follow_properties(e),
        attributes_read_as(element_attrs(a, e), tag.attributes@),
        element_from_tag(e2, tag, parent),
    ensures
        e2.is_ordered == e.is_ordered,
{
    broadcast use lemma_written_last_push;

    lemma_attr_name_chars();
    lemma_written_flag_chars();
    let ws = element_attrs(a, e);
    let attrs = tag.attributes@;
    let props = property_entries(e.properties);
    let a4 = endpoint_attrs(head_attrs(a, e), e);
    let a5 = flag_attrs(a4, props);
    let a6 = match e.documentation {
        Some(d) => a5.push(("body"@, AttrView::Escaped(escape_text(d@)))),
        None => a5,
    };
    assert(is_tag_field_key("isOrdered"@));
    lemma_other_attrs_keep(a6, props, "isOrdered"@, "isOrdered"@);
    lemma_flag_attrs_is_ordered(a4, props);
    lemma_prefix_none(a, "isOrdered"@, "isOrdered"@);
    lemma_read_last(ws, attrs, "isOrdered"@, "isOrdered"@);
}

/// Flag `isNonunique` read back from the attributes written for `e`.
proof fn read_back_xmi_is_nonunique(a: Seq<(Seq<char>, AttrView)>, e: Element, tag: XmlTag, parent: Option<Seq<char>>, e2: Element)
    requires
        prefix_names_no_field(a),
        properties_written_apart(e),
        flags_follow_properties(e),
        attributes_read_as(element_attrs(a, e), tag.attributes@),
        element_from_tag(e2, tag, parent),
    ensures
        e2.is_nonunique == e.is_nonunique,
{
    broadcast use lemma_written_last_push;

    lemma_attr_name_chars();
    lemma_written_flag_chars();
    let ws = element_attrs(a, e);
    let attrs = tag.attributes@;
    let props = property_entries(e.properties);
    let a4 = endpoint_attrs(head_attrs(a, e), e);
    let a5 = flag_attrs(a4, props);
    let a6 = match e.documentation {
        Some(d) => a5.push(("body"@, AttrView::Escaped(escape_text(d@)))),
        None => a5,
    };
    assert(is_tag_field_key("isNonunique"@));
    lemma_other_attrs_keep(a6, props, "isNonunique"@, "isNonunique"@);
    lemma_flag_attrs_is_nonunique(a4, props);
    lemma_prefix_none(a, "isNonunique"@, "isNonunique"@);
    lemma_read_last(ws, attrs, "isNonunique"@, "isNonunique"@);
}

/// Flag `isPortion` read back from the attributes written for `e`.
proof fn read_back_xmi_is_portion(a: Seq<(Seq<char>, AttrView)>, e: Element, tag: XmlTag, parent: Option<Seq<char>>, e2: Element)
    requires
        prefix_names_no_field(a),
        properties_written_apart(e),
        flags_follow_properties(e),
        attributes_read_as(element_attrs(a, e), tag.attributes@),
        element_from_tag(e2, tag, parent),
    ensures
        e2.is_portion == e.is_portion,
{
    broadcast use lemma_written_last_push;

    lemma_attr_name_chars();
    lemma_written_flag_chars();
    let ws = element_attrs(a, e);
    let attrs = tag.attributes@;
    let props = property_entries(e.properties);
    let a4 = endpoint_attrs(head_attrs(a, e), e);
    let a5 = flag_attrs(a4, props);
    let a6 = match e.documentation {
        Some(d) => a5.push(("body"@, AttrView::Escaped(escape_text(d@)))),
        None => a5,
    };
    assert(is_tag_field_key("isPortion"@));
    lemma_other_attrs_keep(a6, props, "isPortion"@, "isPortion"@);
    lemma_flag_attrs_is_portion(a4, props);
    lemma_prefix_none(a, "isPortion"@, "isPortion"@);
    lemma_read_last(ws, attrs, "isPortion"@, "isPortion"@);
}

/// Reading back, as the attributes of a tag, the attributes the XMI writer
/// writes for an element (after attributes `a` that name no field but the
/// type) gives its ID, names, documentation and flags. This holds for
/// elements whose properties are written apart from those attributes and
/// whose flags follow their flag properties.
pub proof fn law_xmi_element_roundtrip(a: Seq<(Seq<char>, AttrView)>, e: Element, tag: XmlTag, parent: Option<Seq<char>>, e2: Element)
    requires
        prefix_names_no_field(a),
        properties_written_apart(e),
        flags_follow_properties(e),
        attributes_read_as(element_attrs(a, e), tag.attributes@),
        element_from_tag(e2, tag, parent),
    ensures
        e2.id@ == e.id@,
        opt_text(e2.name) == opt_text(e.name),
        opt_text(e2.short_name) == opt_text(e.short_name),
        opt_text(e2.qualified_name) == opt_text(e.qualified_name),
        opt_text(e2.documentation) == opt_text(e.documentation),
        e2.is_abstract == e.is_abstract,
        e2.is_variation == e.is_variation,
        e2.is_derived == e.is_derived,
        e2.is_readonly == e.is_readonly,
        e2.is_parallel == e.is_parallel,
        e2.is_individual == e.is_individual,
        e2.is_end == e.is_end,
        e2.is_default == e.is_default,
        e2.is_ordered == e.is_ordered,
        e2.is_nonunique == e.is_nonunique,
        e2.is_portion == e.is_portion,
{
    read_back_xmi_names(a, e, tag, parent, e2);
    read_back_xmi_is_abstract(a, e, tag, parent, e2);
    read_back_xmi_is_variation(a, e, tag, parent, e2);
    read_back_xmi_is_derived(a, e, tag, parent, e2);
    read_back_xmi_is_readonly(a, e, tag, parent, e2);
    read_back_xmi_is_parallel(a, e, tag, parent, e2);
    read_back_xmi_is_individual(a, e, tag, parent, e2);
    read_back_xmi_is_end(a, e, tag, parent, e2);
    read_back_xmi_is_default(a, e, tag, parent, e2);
    read_back_xmi_is_ordered(a, e, tag, parent, e2);
    read_back_xmi_is_nonunique(a, e, tag, parent, e2);
    read_back_xmi_is_portion(a, e, tag, parent, e2);
}


/// Whether `b` carries what the JSON-LD object written for `a` gives back
/// of its fields: ID, kind, names, documentation, flags and owned elements.
pub open spec fn read_alike(a: Element, b: Element) -> bool {
    &&& b.id@ == a.id@
    &&& b.kind == a.kind
    &&& opt_text(b.name) == opt_text(a.name)
    &&& opt_text(b.qualified_name) == opt_text(a.qualified_name)
    &&& opt_text(b.short_name) == opt_text(a.short_name)
    &&& opt_text(b.documentation) == opt_text(a.documentation)
    &&& b.is_abstract == a.is_abstract
    &&& b.is_variation == a.is_variation
    &&& b.is_derived == a.is_derived
    &&& b.is_readonly == a.is_readonly
    &&& b.is_parallel == a.is_parallel
    &&& b.is_individual == a.is_individual
    &&& b.is_end == a.is_end
    &&& b.is_default == a.is_default
    &&& b.is_ordered == a.is_ordered
    &&& b.is_nonunique == a.is_nonunique
    &&& b.is_portion == a.is_portion
    &&& id_texts(b.owned_elements@) == id_texts(a.owned_elements@)
}

/// Whether `b` carries what the JSON-LD object written for relationship
/// element `a` gives back: ID, kind, source and target, and no children.
pub open spec fn relationship_read_alike(a: Element, b: Element) -> bool {
    &&& b.id@ == a.id@
    &&& b.kind == a.kind
    &&& b.relationship matches Some(rd) && id_views(rd.source@) == seq![a.spec_source().unwrap()@]
        && id_views(rd.target@) == seq![a.spec_target().unwrap()@]
    &&& b.owned_elements@.len() == 0
}

/// Whether `b` has the owner of `a`, by text.
pub open spec fn same_owner(a: Element, b: Element) -> bool {
    match a.owner {
        Some(x) => b.owner matches Some(y) && y@ == x@,
        None => b.owner is None,
    }
}

/// Whether element `e` is written as a JSON-LD object that reads back
/// alike: not an alias; without relationship data, with properties that
/// fit beside its fields; with it, with a source and a target and no
/// property named like a relationship field.
pub open spec fn jsonld_writable(e: Element) -> bool {
    &&& e.kind != ElementKind::Alias
    &&& if e.relationship is None {
        properties_fit_fields(e)
    } else {
        &&& e.spec_source() is Some
        &&& e.spec_target() is Some
        &&& properties_apart_from_relationship_fields(e)
    }
}

/// The elements of `m` in the order they are written: those without
/// relationship data, then the relationship elements.
pub open spec fn written_order(m: Model) -> Seq<Element> {
    select(m.values(), |e: Element| e.relationship.is_none()) + select(m.values(), |e: Element| e.relationship.is_some())
}

/// How many elements of `m` have no relationship data.
pub open spec fn plain_count(m: Model) -> int {
    select(m.values(), |e: Element| e.relationship.is_none()).len() as int
}

/// Whether entry `i` of `y` is element `i` of `w` read back: the same ID,
/// the same owner, and read alike, as an element for the first `plain`
/// and as a relationship after them.
pub open spec fn read_back_at(w: Seq<Element>, plain: int, y: Seq<(ElementId, Element)>, i: int) -> bool {
    &&& y[i].0@ == w[i].id@
    &&& same_owner(w[i], y[i].1)
    &&& if i < plain {
        read_alike(w[i], y[i].1)
    } else {
        relationship_read_alike(w[i], y[i].1)
    }
}

/// Whether entry `i` of `y` is element `i` of `w` read back but for its
/// owner: the same ID, and read alike, as an element for the first `plain`
/// and as a relationship after them.
pub open spec fn read_back_but_owner_at(w: Seq<Element>, plain: int, y: Seq<(ElementId, Element)>, i: int) -> bool {
    &&& y[i].0@ == w[i].id@
    &&& if i < plain {
        read_alike(w[i], y[i].1)
    } else {
        relationship_read_alike(w[i], y[i].1)
    }
}

/// Whether the entries `y` are the elements `w` read back, in order, but
/// for owners.
pub open spec fn read_back_but_owners(w: Seq<Element>, plain: int, y: Seq<(ElementId, Element)>) -> bool {
    &&& y.len() == w.len()
    &&& forall|i: int| 0 <= i < w.len() ==> #[trigger] read_back_but_owner_at(w, plain, y, i)
}

/// Whether the entries `y` are the elements `w` read back, in order.
pub open spec fn written_read_back(w: Seq<Element>, plain: int, y: Seq<(ElementId, Element)>) -> bool {
    &&& y.len() == w.len()
    &&& forall|i: int| 0 <= i < w.len() ==> #[trigger] read_back_at(w, plain, y, i)
}

/// Whether no two of `w` have the same ID.
pub open spec fn ids_distinct(w: Seq<Element>) -> bool {
    forall|i: int, j: int| 0 <= i < j < w.len() ==> #[trigger] w[i].id@ != #[trigger] w[j].id@
}

/// Whether every element of `vals` listed as owned by one of them already
/// names an owner.
pub open spec fn owners_named(vals: Seq<Element>) -> bool {
    forall|i: int, j: int, k: int|
        0 <= i < vals.len() && 0 <= j < vals[i].owned_elements@.len() && 0 <= k < vals.len()
            && #[trigger] vals[k].id@ == #[trigger] vals[i].owned_elements@[j]@ ==> vals[k].owner is Some
}

/// Reading the object written for the `k`-th of `w` after the ones before
/// it were read back stores its element last.
#[verifier::spinoff_prover]
proof fn lemma_object_read_back(
    w: Seq<Element>,
    plain: int,
    k: int,
    x0: Seq<(ElementId, Element)>,
    r0: Seq<ElementId>,
    x1: Seq<(ElementId, Element)>,
    r1: Seq<ElementId>,
    o: Seq<(String, JsonValue)>,
)
    requires
        ids_distinct(w),
        0 <= k < w.len(),
        jsonld_writable(w[k]),
        k < plain ==> w[k].relationship is None && members_view(o) == element_members(w[k]),
        k >= plain ==> w[k].relationship is Some && members_view(o) == relationship_members(w[k]),
        written_read_back(w.take(k), plain, x0),
        object_read(x0, r0, x1, r1, o),
    ensures
        written_read_back(w.take(k + 1), plain, x1),
{
    let e = w[k];
    let e2 = if k < plain {
        lemma_written_members(e);
        read_string_member(o, "@id"@);
        lemma_obj_get_view(o, "source"@);
        assert(relationship_parts(o) is None);
        let e2 = choose|e2: Element|
            element_from_object(e2, o) && #[trigger] entry_put(x0, x1, e2) && r1 == (if e2.owner is None {
                r0.push(e2.id)
            } else {
                r0
            });
        law_jsonld_element_roundtrip(e, o, e2);
        e2
    } else {
        lemma_relationship_object(e, o);
        let e2 = choose|e2: Element| relationship_from_object(e2, o) && #[trigger] entry_put(x0, x1, e2);
        law_jsonld_relationship_roundtrip(e, o, e2);
        e2
    };
    lemma_find_key(x0, e2.id@);
    assert forall|i: int| 0 <= i < x0.len() implies x0[i].0@ != e2.id@ by {
        assert(read_back_at(w.take(k), plain, x0, i));
        assert(w.take(k)[i] == w[i]);
        assert(x0[i].0@ == w[i].id@);
    }
    assert(find_key(x0, e2.id@) == -1);
    assert(x1.len() == k + 1);
    assert(x1[k].0@ == e2.id@ && x1[k].1 == e2);
    assert(same_owner(w[k], e2));
    assert(k < plain ==> read_alike(w[k], e2));
    assert(k >= plain ==> relationship_read_alike(w[k], e2));
    let wk = w.take(k + 1);
    assert forall|i: int| 0 <= i < wk.len() implies #[trigger] read_back_at(wk, plain, x1, i) by {
        if i < k {
            assert(x1[i] == x1.drop_last()[i]);
            assert(wk[i] == w.take(k)[i]);
            assert(read_back_at(w.take(k), plain, x0, i));
        } else {
            assert(wk[i] == w[k]);
        }
    }
    assert(x1.len() == wk.len());
}
/// Reading the objects written for `w`, one after another, reads them back.
#[verifier::spinoff_prover]
proof fn lemma_items_read_back(
    w: Seq<Element>,
    plain: int,
    items: Seq<JsonValue>,
    states: Seq<(Seq<(ElementId, Element)>, Seq<ElementId>)>,
    k: int,
)
    requires
        ids_distinct(w),
        forall|i: int| 0 <= i < w.len() ==> jsonld_writable(#[trigger] w[i]),
        forall|i: int| 0 <= i < w.len() ==> ((#[trigger] w[i]).relationship is None <==> i < plain),
        items.len() == w.len(),
        forall|i: int| 0 <= i < plain ==> json_view(#[trigger] items[i]) == JsonView::Object(element_members(w[i])),
        forall|i: int| plain <= i < w.len() ==> json_view(#[trigger] items[i]) == JsonView::Object(relationship_members(w[i])),
        items_trace(states, items),
        states[0].0.len() == 0,
        0 <= k <= w.len(),
    ensures
        written_read_back(w.take(k), plain, states[k].0),
    decreases k,
{
    if k == 0 {
        assert(w.take(0).len() == 0);
    } else {
        lemma_items_read_back(w, plain, items, states, k - 1);
        let item = items[k - 1];
        let ms = if k - 1 < plain { element_members(w[k - 1]) } else { relationship_members(w[k - 1]) };
        assert(json_view(item) == JsonView::Object(ms));
        lemma_view_object(item, ms);
        let o = item->Object_0;
        assert(item_read(states[k - 1].0, states[k - 1].1, states[k].0, states[k].1, items[k - 1]));
        assert(w[k - 1].relationship is None <==> k - 1 < plain);
        lemma_object_read_back(w, plain, k - 1, states[k - 1].0, states[k - 1].1, states[k].0, states[k].1, o@);
    }
}

/// Each element selected is an element of `s` that satisfies `p`.
proof fn lemma_select_member(s: Seq<Element>, p: spec_fn(Element) -> bool, k: int)
    requires
        0 <= k < select(s, p).len(),
    ensures
        exists|i: int| 0 <= i < s.len() && #[trigger] s[i] == select(s, p)[k] && p(s[i]),
    decreases s.len(),
{
    let front = select(s.drop_last(), p);
    if p(s.last()) && k == front.len() {
        assert(s[s.len() - 1] == select(s, p)[k]);
    } else {
        lemma_select_member(s.drop_last(), p, k);
        let i = choose|i: int| 0 <= i < s.drop_last().len() && #[trigger] s.drop_last()[i] == front[k] && p(s.drop_last()[i]);
        assert(s[i] == s.drop_last()[i]);
    }
}

/// Selecting keeps IDs distinct.
proof fn lemma_select_distinct(s: Seq<Element>, p: spec_fn(Element) -> bool)
    requires
        ids_distinct(s),
    ensures
        ids_distinct(select(s, p)),
    decreases s.len(),
{
    if s.len() > 0 {
        let d = s.drop_last();
        assert forall|i: int, j: int| 0 <= i < j < d.len() implies #[trigger] d[i].id@ != #[trigger] d[j].id@ by {
            assert(d[i] == s[i] && d[j] == s[j]);
        }
        lemma_select_distinct(d, p);
        let front = select(d, p);
        if p(s.last()) {
            let r = select(s, p);
            assert forall|i: int, j: int| 0 <= i < j < r.len() implies #[trigger] r[i].id@ != #[trigger] r[j].id@ by {
                if j == r.len() - 1 {
                    lemma_select_member(d, p, i);
                    let a = choose|a: int| 0 <= a < d.len() && #[trigger] d[a] == front[i] && p(d[a]);
                    assert(d[a] == s[a]);
                    assert(r[i] == front[i]);
                    assert(r[j] == s[s.len() - 1]);
                } else {
                    assert(r[i] == front[i] && r[j] == front[j]);
                }
            }
        }
    }
}

/// The elements without and with relationship data together are all.
proof fn lemma_written_order_len(s: Seq<Element>)
    ensures
        select(s, |e: Element| e.relationship.is_none()).len() + select(s, |e: Element| e.relationship.is_some()).len()
            == s.len(),
    decreases s.len(),
{
    if s.len() > 0 {
        lemma_written_order_len(s.drop_last());
    }
}

/// The written order of a model whose keys are its distinct IDs has
/// distinct IDs, and its elements are the model's.
#[verifier::spinoff_prover]
proof fn lemma_written_order(m: Model)
    requires
        keys_are_ids(m.entries()),
        keys_distinct(m.entries()),
    ensures
        ids_distinct(written_order(m)),
        written_order(m).len() == m.entries().len(),
        forall|i: int|
            0 <= i < written_order(m).len() ==> exists|a: int| 0 <= a < m.values().len() && #[trigger] m.values()[a] == #[trigger] written_order(m)[i],
{
    let t = m.entries();
    let vals = m.values();
    let pn = |e: Element| e.relationship.is_none();
    let ps = |e: Element| e.relationship.is_some();
    assert forall|i: int, j: int| 0 <= i < j < vals.len() implies #[trigger] vals[i].id@ != #[trigger] vals[j].id@ by {
        assert(vals[i] == t[i].1 && vals[j] == t[j].1);
        assert(t[i].0@ == t[i].1.id@ && t[j].0@ == t[j].1.id@);
    }
    lemma_select_distinct(vals, pn);
    lemma_select_distinct(vals, ps);
    lemma_written_order_len(vals);
    let a = select(vals, pn);
    let b = select(vals, ps);
    let w = written_order(m);
    assert(w == a + b);
    assert forall|i: int| #![trigger w[i]] 0 <= i < w.len() implies exists|x: int| 0 <= x < vals.len() && #[trigger] vals[x] == w[i] by {
        if i < a.len() {
            lemma_select_member(vals, pn, i);
        } else {
            lemma_select_member(vals, ps, i - a.len());
        }
    }
    assert forall|i: int, j: int| 0 <= i < j < w.len() implies #[trigger] w[i].id@ != #[trigger] w[j].id@ by {
        if j < a.len() {
            assert(w[i] == a[i] && w[j] == a[j]);
        } else if i >= a.len() {
            assert(w[i] == b[i - a.len()] && w[j] == b[j - a.len()]);
        } else {
            lemma_select_member(vals, pn, i);
            lemma_select_member(vals, ps, j - a.len());
            let x = choose|x: int| 0 <= x < vals.len() && #[trigger] vals[x] == a[i] && pn(vals[x]);
            let y = choose|y: int| 0 <= y < vals.len() && #[trigger] vals[y] == b[j - a.len()] && ps(vals[y]);
            assert(x != y);
            assert(w[i] == vals[x] && w[j] == vals[y]);
            if x > y {
                assert(vals[y].id@ != vals[x].id@);
            }
        }
    }
}

/// When every listed child among the written elements names an owner, so
/// does every listed child held by the entries read back, and building
/// ownership changes nothing.
#[verifier::spinoff_prover]
proof fn lemma_read_back_owners_settled(w: Seq<Element>, plain: int, e: Seq<(ElementId, Element)>)
    requires
        written_read_back(w, plain, e),
        owners_named(w),
    ensures
        apply_claims(e, owner_claims(e)) == e,
{
    let claims = owner_claims(e);
    assert forall|c: int| 0 <= c < claims.len() && find_key(e, claims[c].1@) >= 0 implies #[trigger] e[find_key(e, claims[c].1@)].1.owner is Some by {
        lemma_owner_claims_from(e, c);
        let (i, j) = choose|i: int, j: int|
            0 <= i < e.len() && 0 <= j < e[i].1.owned_elements@.len() && claims[c] == (
                e[i].1.id,
                #[trigger] e[i].1.owned_elements@[j],
            );
        assert(read_back_at(w, plain, e, i));
        assert(e[i].0@ == w[i].id@);
        assert(i < plain);
        assert(id_texts(e[i].1.owned_elements@) == id_texts(w[i].owned_elements@));
        assert(id_texts(e[i].1.owned_elements@).len() == e[i].1.owned_elements@.len());
        assert(id_texts(w[i].owned_elements@).len() == w[i].owned_elements@.len());
        assert(id_texts(e[i].1.owned_elements@)[j] == e[i].1.owned_elements@[j]@);
        assert(id_texts(w[i].owned_elements@)[j] == w[i].owned_elements@[j]@);
        let key = w[i].owned_elements@[j]@;
        assert(claims[c].1@ == key);
        lemma_find_key(e, key);
        let f = find_key(e, key);
        assert(read_back_at(w, plain, e, f));
        assert(e[f].0@ == w[f].id@);
        assert(w[f].id@ == w[i].owned_elements@[j]@);
        assert(w[f].owner is Some);
        assert(same_owner(w[f], e[f].1));
    }
    lemma_claims_settled(e, claims);
}

/// The objects of the document written for a model, read in order, give
/// back its elements in the order they were written.
#[verifier::spinoff_prover]
proof fn lemma_document_read_back(m: Model, v: JsonValue, e: Seq<(ElementId, Element)>, rs: Seq<ElementId>)
    requires
        keys_are_ids(m.entries()),
        keys_distinct(m.entries()),
        forall|i: int| 0 <= i < m.entries().len() ==> jsonld_writable(#[trigger] m.entries()[i].1),
        json_view(v) == document_of(model_objects(m)),
        document_read(v, e, rs),
    ensures
        written_read_back(written_order(m), plain_count(m), e),
{
    let t = m.entries();
    let vals = m.values();
    let pn = |x: Element| x.relationship.is_none();
    let ps = |x: Element| x.relationship.is_some();
    let a = select(vals, pn);
    let b = select(vals, ps);
    let w = written_order(m);
    let plain = a.len() as int;
    lemma_written_order(m);
    assert forall|i: int| 0 <= i < w.len() implies jsonld_writable(#[trigger] w[i]) by {
        let x = choose|x: int| 0 <= x < vals.len() && #[trigger] vals[x] == w[i];
        assert(vals[x] == t[x].1);
    }
    assert forall|i: int| 0 <= i < w.len() implies ((#[trigger] w[i]).relationship is None <==> i < plain) by {
        if i < plain {
            lemma_select_member(vals, pn, i);
            assert(w[i] == a[i]);
        } else {
            lemma_select_member(vals, ps, i - plain);
            assert(w[i] == b[i - plain]);
        }
    }
    let objs = model_objects(m);
    assert(objs.len() == w.len());
    assert forall|i: int| 0 <= i < w.len() implies #[trigger] objs[i] == (if i < plain {
        JsonView::Object(element_members(w[i]))
    } else {
        JsonView::Object(relationship_members(w[i]))
    }) by {
        if i < plain {
            assert(w[i] == a[i]);
        } else {
            assert(w[i] == b[i - plain]);
        }
    }
    if w.len() == 1 {
        assert(json_view(v) == objs[0]);
        let ms = if 0 < plain { element_members(w[0]) } else { relationship_members(w[0]) };
        lemma_view_object(v, ms);
        let o = v->Object_0;
        assert(object_read(Seq::empty(), Seq::empty(), e, rs, o@));
        assert(w.take(0) =~= Seq::<Element>::empty());
        lemma_object_read_back(w, plain, 0, Seq::empty(), Seq::empty(), e, rs, o@);
        assert(w.take(1) =~= w);
    } else {
        assert(json_view(v) == JsonView::Array(objs));
        lemma_view_array(v, objs);
        let items = (v->Array_0)@;
        let states = choose|states: Seq<(Seq<(ElementId, Element)>, Seq<ElementId>)>|
            items_trace(states, items) && states[0] == (Seq::<(ElementId, Element)>::empty(), Seq::<ElementId>::empty())
                && #[trigger] states.last() == (e, rs);
        assert forall|i: int| 0 <= i < plain implies json_view(#[trigger] items[i]) == JsonView::Object(element_members(w[i])) by {
            assert(views_of(items)[i] == json_view(items[i]));
            assert(objs[i] == JsonView::Object(element_members(w[i])));
        }
        assert forall|i: int| plain <= i < w.len() implies json_view(#[trigger] items[i]) == JsonView::Object(relationship_members(w[i])) by {
            assert(views_of(items)[i] == json_view(items[i]));
            assert(objs[i] == JsonView::Object(relationship_members(w[i])));
        }
        lemma_items_read_back(w, plain, items, states, w.len() as int);
        assert(w.take(w.len() as int) =~= w);
        assert(states[w.len() as int] == states.last());
    }
}

/// Writing a model whose keys are its distinct IDs as a JSON-LD document
/// and reading that document back gives its elements in the order they
/// are written (those without relationship data first, then the
/// relationship elements): each with its ID; an element with its kind,
/// names, documentation, flags and owned elements; a relationship element
/// with its kind, source and target. Owners come back too when every
/// listed child held by the model already names an owner (reading gives
/// an owner-less listed child its lister). This holds for models without
/// aliases, whose relationship elements have a source and a target, and
/// whose properties do not stand in for the fields they are written
/// beside.
#[verifier::spinoff_prover]
pub proof fn law_jsonld_document_roundtrip(
    m: Model,
    v: JsonValue,
    e: Seq<(ElementId, Element)>,
    rs: Seq<ElementId>,
    m2: Model,
)
    requires
        keys_are_ids(m.entries()),
        keys_distinct(m.entries()),
        forall|i: int| 0 <= i < m.entries().len() ==> jsonld_writable(#[trigger] m.entries()[i].1),
        json_view(v) == document_of(model_objects(m)),
        document_read(v, e, rs),
        m2.entries() == apply_claims(e, owner_claims(e)),
    ensures
        m2.entries().len() == m.entries().len(),
        read_back_but_owners(written_order(m), plain_count(m), m2.entries()),
        owners_named(m.values()) ==> written_read_back(written_order(m), plain_count(m), m2.entries()),
{
    let w = written_order(m);
    let vals = m.values();
    let plain = plain_count(m);
    lemma_written_order(m);
    lemma_document_read_back(m, v, e, rs);
    if owners_named(vals) {
        assert forall|i: int, j: int, k: int|
            0 <= i < w.len() && 0 <= j < w[i].owned_elements@.len() && 0 <= k < w.len()
                && #[trigger] w[k].id@ == #[trigger] w[i].owned_elements@[j]@ implies w[k].owner is Some by {
            let x = choose|x: int| 0 <= x < vals.len() && #[trigger] vals[x] == w[i];
            let y = choose|y: int| 0 <= y < vals.len() && #[trigger] vals[y] == w[k];
            assert(vals[y].id@ == vals[x].owned_elements@[j]@);
        }
        lemma_read_back_owners_settled(w, plain, e);
    }
    lemma_claims_read_alike(w, plain, e, m2.entries());
}

/// The entries after ownership is built from entries `e` that read back
/// `w` still read back `w`, but for owners.
#[verifier::spinoff_prover]
proof fn lemma_claims_read_alike(w: Seq<Element>, plain: int, e: Seq<(ElementId, Element)>, e2: Seq<(ElementId, Element)>)
    requires
        written_read_back(w, plain, e),
        e2 == apply_claims(e, owner_claims(e)),
    ensures
        read_back_but_owners(w, plain, e2),
{
    lemma_apply_claims_len(e, owner_claims(e));
    assert forall|i: int| 0 <= i < w.len() implies #[trigger] read_back_but_owner_at(w, plain, e2, i) by {
        lemma_apply_claims_alike(e, owner_claims(e), i);
        assert(read_back_at(w, plain, e, i));
        assert(e[i].0@ == w[i].id@);
        assert(id_texts(e2[i].1.owned_elements@).len() == e2[i].1.owned_elements@.len());
        assert(id_texts(e[i].1.owned_elements@).len() == e[i].1.owned_elements@.len());
        if i >= plain {
            assert(relationship_read_alike(w[i], e[i].1));
            assert(e2[i].1.owned_elements@.len() == 0);
            assert(relationship_read_alike(w[i], e2[i].1));
        }
    }
}

/// Claims that name no owner-less element change nothing.
proof fn lemma_claims_settled(e: Seq<(ElementId, Element)>, claims: Seq<(ElementId, ElementId)>)
    requires
        forall|c: int|
            0 <= c < claims.len() && find_key(e, claims[c].1@) >= 0 ==> #[trigger] e[find_key(e, claims[c].1@)].1.owner is Some,
    ensures
        apply_claims(e, claims) == e,
    decreases claims.len(),
{
    if claims.len() > 0 {
        let front = claims.drop_last();
        assert forall|c: int|
            0 <= c < front.len() && find_key(e, front[c].1@) >= 0 implies #[trigger] e[find_key(e, front[c].1@)].1.owner is Some by {
            assert(front[c] == claims[c]);
        }
        lemma_claims_settled(e, front);
        let c = claims.len() - 1;
        assert(claims.last() == claims[c]);
    }
}

/// Every claim is an element's ID and one of its owned elements.
proof fn lemma_owner_claims_from(e: Seq<(ElementId, Element)>, c: int)
    requires
        0 <= c < owner_claims(e).len(),
    ensures
        exists|i: int, j: int|
            0 <= i < e.len() && 0 <= j < e[i].1.owned_elements@.len() && owner_claims(e)[c] == (
                e[i].1.id,
                #[trigger] e[i].1.owned_elements@[j],
            ),
    decreases e.len(),
{
    let before = owner_claims(e.drop_last());
    let last = e.last().1.owned_elements@.map_values(|o: ElementId| (e.last().1.id, o));
    assert(owner_claims(e) == before + last);
    if c < before.len() {
        lemma_owner_claims_from(e.drop_last(), c);
        let (i, j) = choose|i: int, j: int|
            0 <= i < e.drop_last().len() && 0 <= j < e.drop_last()[i].1.owned_elements@.len() && before[c] == (
                e.drop_last()[i].1.id,
                #[trigger] e.drop_last()[i].1.owned_elements@[j],
            );
        assert(e.drop_last()[i] == e[i]);
        assert(owner_claims(e)[c] == (e[i].1.id, e[i].1.owned_elements@[j]));
    } else {
        let j = c - before.len();
        assert(owner_claims(e)[c] == last[j]);
        assert(owner_claims(e)[c] == (e[e.len() - 1].1.id, e[e.len() - 1].1.owned_elements@[j]));
    }
}

/// Applying claims keeps the number of entries.
#[verifier::spinoff_prover]
proof fn lemma_apply_claims_len(e: Seq<(ElementId, Element)>, claims: Seq<(ElementId, ElementId)>)
    ensures
        apply_claims(e, claims).len() == e.len(),
    decreases claims.len(),
{
    if claims.len() > 0 {
        lemma_apply_claims_len(e, claims.drop_last());
        let prev = apply_claims(e, claims.drop_last());
        let owned = claims.last().1;
        let j = find_key(prev, owned@);
        lemma_find_key(prev, owned@);
        if j >= 0 && prev[j].1.owner is None {
            assert(apply_claims(e, claims) == prev.update(j, (prev[j].0, Element { owner: Some(claims.last().0), ..prev[j].1 })));
        } else {
            assert(apply_claims(e, claims) == prev);
        }
    }
}


/// Applying claims changes only owners: every entry keeps its key, its
/// relationship data and what it is read alike by.
#[verifier::spinoff_prover]
#[verifier::rlimit(40)]
proof fn lemma_apply_claims_alike(e: Seq<(ElementId, Element)>, claims: Seq<(ElementId, ElementId)>, i: int)
    requires
        0 <= i < e.len(),
    ensures
        apply_claims(e, claims).len() == e.len(),
        apply_claims(e, claims)[i].0 == e[i].0,
        apply_claims(e, claims)[i].1.relationship == e[i].1.relationship,
        read_alike(e[i].1, apply_claims(e, claims)[i].1),
    decreases claims.len(),
{
    lemma_apply_claims_len(e, claims);
    if claims.len() > 0 {
        lemma_apply_claims_alike(e, claims.drop_last(), i);
        let prev = apply_claims(e, claims.drop_last());
        lemma_apply_claims_len(e, claims.drop_last());
        let owned = claims.last().1;
        let j = find_key(prev, owned@);
        lemma_find_key(prev, owned@);
        if j >= 0 && prev[j].1.owner is None {
            let next = prev.update(j, (prev[j].0, Element { owner: Some(claims.last().0), ..prev[j].1 }));
            assert(apply_claims(e, claims) == next);
            if i != j {
                assert(next[i] == prev[i]);
            }
        } else {
            assert(apply_claims(e, claims) == prev);
        }
    }
}

} // verus!
