//! The insertion-ordered maps of the model, held in `indexmap::IndexMap`.
//!
//! What a map holds is named by its sequence of entries in insertion order.
//! Keys are compared by their character content, which is what the derived
//! `Eq` and `Hash` of `ElementId` and `String` compare.

use vstd::prelude::*;
use indexmap::IndexMap;
use crate::model::{Element, ElementId, PropertyValue};
use crate::model_laws::keys_distinct;

verus! {

#[verifier::external_type_specification]
#[verifier::external_body]
#[verifier::reject_recursive_types(K)]
#[verifier::reject_recursive_types(V)]
#[verifier::reject_recursive_types(S)]
pub struct ExIndexMap<K, V, S>(IndexMap<K, V, S>);

/// The entries of an element map, in insertion order.
pub uninterp spec fn element_entries(m: IndexMap<ElementId, Element>) -> Seq<(ElementId, Element)>;

/// The entries of a property map, in insertion order.
pub uninterp spec fn property_entries(m: IndexMap<String, PropertyValue>) -> Seq<(String, PropertyValue)>;

/// The index of the first entry whose key has the content `k`, or -1.
pub open spec fn find_key<K: View<V = Seq<char>>, V>(entries: Seq<(K, V)>, k: Seq<char>) -> int
    decreases entries.len(),
{
    if entries.len() == 0 {
        -1
    } else {
        let j = find_key(entries.drop_last(), k);
        if j >= 0 {
            j
        } else if entries.last().0@ == k {
            entries.len() - 1
        } else {
            -1
        }
    }
}

/// `find_key` gives the first matching entry, and -1 exactly when none matches.
pub proof fn lemma_find_key<K: View<V = Seq<char>>, V>(entries: Seq<(K, V)>, k: Seq<char>)
    ensures
        -1 <= find_key(entries, k) < entries.len(),
        find_key(entries, k) >= 0 ==> entries[find_key(entries, k)].0@ == k,
        forall|i: int| 0 <= i < find_key(entries, k) ==> entries[i].0@ != k,
        find_key(entries, k) == -1 <==> forall|i: int| 0 <= i < entries.len() ==> entries[i].0@ != k,
    decreases entries.len(),
{
    if entries.len() > 0 {
        lemma_find_key(entries.drop_last(), k);
        assert forall|i: int| 0 <= i < entries.len() - 1 implies entries.drop_last()[i] == entries[i] by {}
    }
}

/// The position of the entry whose key has the content of `k`
/// (`IndexMap::get_index_of`).
#[verifier::external_body]
pub(crate) fn element_map_get_index_of(m: &IndexMap<ElementId, Element>, k: &ElementId) -> (r: Option<usize>)
    ensures
        find_key(element_entries(*m), k@) >= 0 ==> r == Some(find_key(element_entries(*m), k@) as usize),
        find_key(element_entries(*m), k@) < 0 ==> r.is_none(),
{
    m.get_index_of(k)
}

/// A fresh, empty element map (`IndexMap::new`).
#[verifier::external_body]
pub(crate) fn element_map_new() -> (m: IndexMap<ElementId, Element>)
    ensures
        element_entries(m) == Seq::<(ElementId, Element)>::empty(),
{
    IndexMap::new()
}

/// The number of entries (`IndexMap::len`).
#[verifier::external_body]
pub(crate) fn element_map_len(m: &IndexMap<ElementId, Element>) -> (n: usize)
    ensures
        n == element_entries(*m).len(),
{
    m.len()
}

/// The value stored under the key with the content of `k` (`IndexMap::get`).
#[verifier::external_body]
pub(crate) fn element_map_get<'a>(m: &'a IndexMap<ElementId, Element>, k: &ElementId) -> (r: Option<&'a Element>)
    ensures
        ({
            let i = find_key(element_entries(*m), k@);
            if i >= 0 {
                r == Some(&element_entries(*m)[i].1)
            } else {
                r.is_none()
            }
        }),
{
    m.get(k)
}

/// The entry at position `i` in insertion order (`IndexMap::get_index`).
#[verifier::external_body]
pub(crate) fn element_map_get_index<'a>(m: &'a IndexMap<ElementId, Element>, i: usize) -> (r: Option<(&'a ElementId, &'a Element)>)
    ensures
        i < element_entries(*m).len() ==> r == Some((&element_entries(*m)[i as int].0, &element_entries(*m)[i as int].1)),
        i >= element_entries(*m).len() ==> r.is_none(),
{
    m.get_index(i)
}

/// A mutable reference to the value stored under the key with the content
/// of `k` (`IndexMap::get_mut`); the entry keeps its key and its position.
/// The keys of the map, as of every `IndexMap`, have pairwise different
/// content afterwards.
#[verifier::external_body]
pub(crate) fn element_map_get_mut<'a>(m: &'a mut IndexMap<ElementId, Element>, k: &ElementId) -> (r: Option<&'a mut Element>)
    ensures
        ({
            let i = find_key(element_entries(*old(m)), k@);
            if i >= 0 {
                &&& r.is_some()
                &&& *r.unwrap() == element_entries(*old(m))[i].1
                &&& element_entries(*final(m)) == element_entries(*old(m)).update(
                    i,
                    (element_entries(*old(m))[i].0, *final(r.unwrap())),
                )
            } else {
                &&& r.is_none()
                &&& element_entries(*final(m)) == element_entries(*old(m))
            }
        }),
        keys_distinct(element_entries(*final(m))),
{
    m.get_mut(k)
}

/// Insert `v` under `k` (`IndexMap::insert`): an entry with an equal key keeps
/// its key and its position and takes the new value, and the old value is
/// returned; otherwise the pair is appended last. The keys of the map, as of
/// every `IndexMap`, have pairwise different content afterwards.
#[verifier::external_body]
pub(crate) fn element_map_insert(m: &mut IndexMap<ElementId, Element>, k: ElementId, v: Element) -> (r: Option<Element>)
    ensures
        ({
            let i = find_key(element_entries(*old(m)), k@);
            if i >= 0 {
                &&& r == Some(element_entries(*old(m))[i].1)
                &&& element_entries(*final(m)) == element_entries(*old(m)).update(
                    i,
                    (element_entries(*old(m))[i].0, v),
                )
            } else {
                &&& r.is_none()
                &&& element_entries(*final(m)) == element_entries(*old(m)).push((k, v))
            }
        }),
        keys_distinct(element_entries(*final(m))),
{
    m.insert(k, v)
}

/// A fresh, empty property map (`IndexMap::new`).
#[verifier::external_body]
pub(crate) fn property_map_new() -> (m: IndexMap<String, PropertyValue>)
    ensures
        property_entries(m) == Seq::<(String, PropertyValue)>::empty(),
{
    IndexMap::new()
}

/// The number of entries (`IndexMap::len`).
#[verifier::external_body]
pub(crate) fn property_map_len(m: &IndexMap<String, PropertyValue>) -> (n: usize)
    ensures
        n == property_entries(*m).len(),
{
    m.len()
}

/// The value stored under the key `k` (`IndexMap::get`).
#[verifier::external_body]
pub(crate) fn property_map_get<'a>(m: &'a IndexMap<String, PropertyValue>, k: &str) -> (r: Option<&'a PropertyValue>)
    ensures
        ({
            let i = find_key(property_entries(*m), k@);
            if i >= 0 {
                r == Some(&property_entries(*m)[i].1)
            } else {
                r.is_none()
            }
        }),
{
    m.get(k)
}

/// The entry at position `i` in insertion order (`IndexMap::get_index`).
#[verifier::external_body]
pub(crate) fn property_map_get_index<'a>(m: &'a IndexMap<String, PropertyValue>, i: usize) -> (r: Option<(&'a String, &'a PropertyValue)>)
    ensures
        i < property_entries(*m).len() ==> r == Some((&property_entries(*m)[i as int].0, &property_entries(*m)[i as int].1)),
        i >= property_entries(*m).len() ==> r.is_none(),
{
    m.get_index(i)
}

/// Insert `v` under `k` (`IndexMap::insert`), with the same placement as for
/// element maps.
#[verifier::external_body]
pub(crate) fn property_map_insert(m: &mut IndexMap<String, PropertyValue>, k: String, v: PropertyValue) -> (r: Option<PropertyValue>)
    ensures
        ({
            let i = find_key(property_entries(*old(m)), k@);
            if i >= 0 {
                &&& r == Some(property_entries(*old(m))[i].1)
                &&& property_entries(*final(m)) == property_entries(*old(m)).update(
                    i,
                    (property_entries(*old(m))[i].0, v),
                )
            } else {
                &&& r.is_none()
                &&& property_entries(*final(m)) == property_entries(*old(m)).push((k, v))
            }
        }),
{
    m.insert(k, v)
}


/// The entries of a map from a parent's ID text to its children's ID texts,
/// in insertion order.
pub uninterp spec fn children_entries(m: IndexMap<String, Vec<String>>) -> Seq<(String, Vec<String>)>;

/// A fresh, empty map of children (`IndexMap::new`).
#[verifier::external_body]
pub(crate) fn children_map_new() -> (m: IndexMap<String, Vec<String>>)
    ensures
        children_entries(m) == Seq::<(String, Vec<String>)>::empty(),
{
    IndexMap::new()
}

/// The list under `parent`, after adding an empty list last when there is
/// none (`entry(parent).or_default()`); the entry keeps its key and its
/// position and takes whatever the list becomes.
#[verifier::external_body]
pub(crate) fn children_map_entry<'a>(m: &'a mut IndexMap<String, Vec<String>>, parent: String) -> (r: &'a mut Vec<String>)
    ensures
        ({
            let before = children_entries(*old(m));
            let i = find_key(before, parent@);
            if i >= 0 {
                &&& *r == before[i].1
                &&& children_entries(*final(m)) == before.update(i, (before[i].0, *final(r)))
            } else {
                &&& r@ == Seq::<String>::empty()
                &&& children_entries(*final(m)) == before.push((parent, *final(r)))
            }
        }),
{
    m.entry(parent).or_default()
}

/// Append `child` to the list under `parent`, after adding an empty list
/// last when there is none.
pub(crate) fn children_map_push(m: &mut IndexMap<String, Vec<String>>, parent: String, child: String)
    ensures
        ({
            let before = children_entries(*old(m));
            let after = children_entries(*final(m));
            let i = find_key(before, parent@);
            if i >= 0 {
                &&& after.len() == before.len()
                &&& forall|j: int| 0 <= j < before.len() && j != i ==> after[j] == before[j]
                &&& after[i].0 == before[i].0
                &&& after[i].1@ == before[i].1@.push(child)
            } else {
                &&& after.len() == before.len() + 1
                &&& after.drop_last() == before
                &&& after.last().0 == parent
                &&& after.last().1@ == seq![child]
            }
        }),
{
    let ghost before = children_entries(*m);
    let ghost key = parent;
    let list = children_map_entry(m, parent);
    list.push(child);
    proof {
        lemma_find_key(before, key@);
        let after = children_entries(*m);
        if find_key(before, key@) < 0 {
            assert(after.drop_last() =~= before);
        }
    }
}

/// The number of entries (`IndexMap::len`).
#[verifier::external_body]
pub(crate) fn children_map_len(m: &IndexMap<String, Vec<String>>) -> (n: usize)
    ensures
        n == children_entries(*m).len(),
{
    m.len()
}

/// The entry at position `i` in insertion order (`IndexMap::get_index`).
#[verifier::external_body]
pub(crate) fn children_map_get_index<'a>(m: &'a IndexMap<String, Vec<String>>, i: usize) -> (r: Option<(&'a String, &'a Vec<String>)>)
    ensures
        i < children_entries(*m).len() ==> r == Some((&children_entries(*m)[i as int].0, &children_entries(*m)[i as int].1)),
        i >= children_entries(*m).len() ==> r.is_none(),
{
    m.get_index(i)
}

/// The values of an element map, in insertion order, the map consumed
/// (`IndexMap::into_values`).
#[verifier::external_body]
pub(crate) fn element_map_into_values(m: IndexMap<ElementId, Element>) -> (r: Vec<Element>)
    ensures
        r@ == element_entries(m).map_values(|p: (ElementId, Element)| p.1),
{
    m.into_values().collect()
}

} // verus!
