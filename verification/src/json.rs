//! JSON documents as values: what the JSON-LD reader reads and the
//! writer writes. Turning JSON text into values and back is left to the
//! caller.

use vstd::prelude::*;

verus! {

/// A JSON value. Numbers are integers when they fit in `i64`, else the
/// IEEE-754 bits of the nearest double; object members keep their order.
#[derive(Debug, PartialEq)]
pub enum JsonValue {
    Null,
    Bool(bool),
    Integer(i64),
    /// The IEEE-754 bits of a number that is not an `i64`.
    Real(u64),
    String(String),
    Array(Vec<JsonValue>),
    Object(Vec<(String, JsonValue)>),
}

/// The value of the first member of `o` named `k`.
pub open spec fn obj_get(o: Seq<(String, JsonValue)>, k: Seq<char>) -> Option<JsonValue>
    decreases o.len(),
{
    if o.len() == 0 {
        None
    } else if o[0].0@ == k {
        Some(o[0].1)
    } else {
        obj_get(o.drop_first(), k)
    }
}

/// The string that `v` holds, if it is a string.
pub open spec fn as_str(v: Option<JsonValue>) -> Option<String> {
    match v {
        Some(JsonValue::String(s)) => Some(s),
        _ => None,
    }
}

/// The boolean that `v` holds, if it is a boolean.
pub open spec fn as_bool(v: Option<JsonValue>) -> Option<bool> {
    match v {
        Some(JsonValue::Bool(b)) => Some(b),
        _ => None,
    }
}

/// The `@id` string of a reference object `{"@id": ...}`.
pub open spec fn ref_id(v: Option<JsonValue>) -> Option<String> {
    match v {
        Some(JsonValue::Object(o)) => as_str(obj_get(o@, "@id"@)),
        _ => None,
    }
}

/// The member of `o` named `k`.
pub fn json_get<'a>(o: &'a Vec<(String, JsonValue)>, k: &str) -> (r: Option<&'a JsonValue>)
    ensures
        match r {
            Some(v) => obj_get(o@, k@) == Some(*v),
            None => obj_get(o@, k@) is None,
        },
{
    let mut i: usize = 0;
    assert(o@.subrange(0, o@.len() as int) =~= o@);
    while i < o.len()
        invariant
            i <= o@.len(),
            obj_get(o@, k@) == obj_get(o@.subrange(i as int, o@.len() as int), k@),
        decreases o.len() - i,
    {
        proof {
            assert(o@.subrange(i as int, o@.len() as int).drop_first() =~= o@.subrange(
                i + 1,
                o@.len() as int,
            ));
            assert(o@.subrange(i as int, o@.len() as int)[0] == o@[i as int]);
        }
        if crate::strings::str_eq(o[i].0.as_str(), k) {
            return Some(&o[i].1);
        }
        i = i + 1;
    }
    assert(o@.subrange(i as int, o@.len() as int) =~= Seq::<(String, JsonValue)>::empty());
    None
}

/// The string member of `o` named `k`.
pub fn json_get_str<'a>(o: &'a Vec<(String, JsonValue)>, k: &str) -> (r: Option<&'a String>)
    ensures
        match r {
            Some(s) => as_str(obj_get(o@, k@)) == Some(*s),
            None => as_str(obj_get(o@, k@)) is None,
        },
{
    match json_get(o, k) {
        Some(JsonValue::String(s)) => Some(s),
        _ => None,
    }
}

/// The boolean member of `o` named `k`.
pub fn json_get_bool(o: &Vec<(String, JsonValue)>, k: &str) -> (r: Option<bool>)
    ensures
        r == as_bool(obj_get(o@, k@)),
{
    match json_get(o, k) {
        Some(JsonValue::Bool(b)) => Some(*b),
        _ => None,
    }
}

/// The `@id` of the reference object member of `o` named `k`.
pub fn json_get_ref<'a>(o: &'a Vec<(String, JsonValue)>, k: &str) -> (r: Option<&'a String>)
    ensures
        match r {
            Some(s) => ref_id(obj_get(o@, k@)) == Some(*s),
            None => ref_id(obj_get(o@, k@)) is None,
        },
{
    match json_get(o, k) {
        Some(JsonValue::Object(inner)) => json_get_str(inner, "@id"),
        _ => None,
    }
}

/// The value of the first member of `ms` named `k`.
pub open spec fn member_get(ms: Seq<(Seq<char>, JsonView)>, k: Seq<char>) -> Option<JsonView> {
    let i = member_index(ms, k);
    if i >= 0 {
        Some(ms[i].1)
    } else {
        None
    }
}

/// The member index is the first index with the name, and -1 when none has it.
pub proof fn lemma_member_index_is(ms: Seq<(Seq<char>, JsonView)>, k: Seq<char>, i: int)
    requires
        -1 <= i < ms.len(),
        i >= 0 ==> ms[i].0 == k,
        forall|j: int| 0 <= j < ms.len() && (i < 0 || j < i) ==> ms[j].0 != k,
    ensures
        member_index(ms, k) == i,
{
    lemma_member_index(ms, k);
    let m = member_index(ms, k);
    if m >= 0 && i >= 0 {
        if m < i {
            assert(ms[m].0 != k);
        } else if i < m {
            assert(ms[i].0 != k);
        }
    } else if m >= 0 {
        assert(ms[m].0 != k);
    } else if i >= 0 {
        assert(ms[i].0 != k);
    }
}

/// Reading a member after setting one: the member set, or what was there.
pub broadcast proof fn lemma_member_get_put(ms: Seq<(Seq<char>, JsonView)>, k: Seq<char>, v: JsonView, k2: Seq<char>)
    ensures
        #[trigger] member_get(put_member(ms, k, v), k2) == (if k2 == k {
            Some(v)
        } else {
            member_get(ms, k2)
        }),
{
    lemma_member_index(ms, k);
    lemma_member_index(ms, k2);
    let i = member_index(ms, k);
    let t = put_member(ms, k, v);
    if i >= 0 {
        assert(t == ms.update(i, (k, v)));
        if k2 == k {
            lemma_member_index_is(t, k2, i);
        } else {
            lemma_member_index_is(t, k2, member_index(ms, k2));
        }
    } else {
        assert(t == ms.push((k, v)));
        if k2 == k {
            lemma_member_index_is(t, k2, ms.len() as int);
        } else {
            lemma_member_index_is(t, k2, member_index(ms, k2));
        }
    }
}

/// `obj_get` gives the first member with the name, and none when none has it.
proof fn lemma_obj_get_first(o: Seq<(String, JsonValue)>, k: Seq<char>, i: int)
    requires
        -1 <= i < o.len(),
        i >= 0 ==> o[i].0@ == k,
        forall|j: int| 0 <= j < o.len() && (i < 0 || j < i) ==> o[j].0@ != k,
    ensures
        obj_get(o, k) == (if i >= 0 {
            Some(o[i].1)
        } else {
            None
        }),
    decreases o.len(),
{
    if o.len() > 0 {
        if i == 0 {
        } else {
            assert(o[0].0@ != k);
            let t = o.drop_first();
            assert forall|j: int| 0 <= j < t.len() && (i - 1 < 0 || j < i - 1) implies t[j].0@ != k by {
                assert(t[j] == o[j + 1]);
            }
            if i > 0 {
                assert(t[i - 1] == o[i]);
                lemma_obj_get_first(t, k, i - 1);
            } else {
                lemma_obj_get_first(t, k, -1);
            }
        }
    }
}

/// Reading a member of an object and of its view agree.
pub proof fn lemma_obj_get_view(o: Seq<(String, JsonValue)>, k: Seq<char>)
    ensures
        match obj_get(o, k) {
            Some(v) => member_get(members_view(o), k) == Some(json_view(v)),
            None => member_get(members_view(o), k) is None,
        },
{
    let ms = members_view(o);
    lemma_member_index(ms, k);
    let i = member_index(ms, k);
    assert forall|j: int| 0 <= j < o.len() && (i < 0 || j < i) implies o[j].0@ != k by {
        assert(ms[j].0 == o[j].0@);
    }
    if i >= 0 {
        assert(ms[i].0 == o[i].0@);
    }
    lemma_obj_get_first(o, k, i);
}

/// A value whose view is a string is a string with those characters.
pub proof fn lemma_view_string(v: JsonValue, s: Seq<char>)
    requires
        json_view(v) == JsonView::String(s),
    ensures
        v matches JsonValue::String(x) && x@ == s,
{
    match v {
        JsonValue::Array(a) => {
            lemma_array_view(a);
        },
        JsonValue::Object(o) => {
            lemma_object_view(o);
        },
        _ => {},
    }
}

/// A value whose view is a boolean is that boolean.
pub proof fn lemma_view_bool(v: JsonValue, b: bool)
    requires
        json_view(v) == JsonView::Bool(b),
    ensures
        v == JsonValue::Bool(b),
{
    match v {
        JsonValue::Array(a) => {
            lemma_array_view(a);
        },
        JsonValue::Object(o) => {
            lemma_object_view(o);
        },
        _ => {},
    }
}

/// A value whose view is an object is an object with those member views.
pub proof fn lemma_view_object(v: JsonValue, ms: Seq<(Seq<char>, JsonView)>)
    requires
        json_view(v) == JsonView::Object(ms),
    ensures
        v matches JsonValue::Object(o) && members_view(o@) == ms,
{
    match v {
        JsonValue::Array(a) => {
            lemma_array_view(a);
        },
        JsonValue::Object(o) => {
            lemma_object_view(o);
        },
        _ => {},
    }
}

/// A value whose view is an array is an array with those item views.
pub proof fn lemma_view_array(v: JsonValue, items: Seq<JsonView>)
    requires
        json_view(v) == JsonView::Array(items),
    ensures
        v matches JsonValue::Array(a) && views_of(a@) == items,
{
    match v {
        JsonValue::Array(a) => {
            lemma_array_view(a);
        },
        JsonValue::Object(o) => {
            lemma_object_view(o);
        },
        _ => {},
    }
}

} // verus!
verus! {

/// A JSON value with its strings taken by their characters.
pub enum JsonView {
    Null,
    Bool(bool),
    Integer(i64),
    Real(u64),
    String(Seq<char>),
    Array(Seq<JsonView>),
    Object(Seq<(Seq<char>, JsonView)>),
}

/// The value `v` with its strings taken by their characters.
pub open spec fn json_view(v: JsonValue) -> JsonView
    decreases v,
{
    match v {
        JsonValue::Null => JsonView::Null,
        JsonValue::Bool(b) => JsonView::Bool(b),
        JsonValue::Integer(i) => JsonView::Integer(i),
        JsonValue::Real(x) => JsonView::Real(x),
        JsonValue::String(s) => JsonView::String(s@),
        JsonValue::Array(a) => JsonView::Array(
            Seq::new(a@.len(), |i: int| if 0 <= i < a@.len() { json_view(a@[i]) } else { JsonView::Null }),
        ),
        JsonValue::Object(o) => JsonView::Object(
            Seq::new(o@.len(), |i: int| if 0 <= i < o@.len() { (o@[i].0@, json_view(o@[i].1)) } else { (Seq::empty(), JsonView::Null) }),
        ),
    }
}


/// The views of a list of values.
pub open spec fn views_of(a: Seq<JsonValue>) -> Seq<JsonView> {
    Seq::new(a.len(), |i: int| json_view(a[i]))
}

/// The views of a list of members.
pub open spec fn members_view(o: Seq<(String, JsonValue)>) -> Seq<(Seq<char>, JsonView)> {
    Seq::new(o.len(), |i: int| (o[i].0@, json_view(o[i].1)))
}

/// The view of an array is the array of the views.
pub proof fn lemma_array_view(a: Vec<JsonValue>)
    ensures
        json_view(JsonValue::Array(a)) == JsonView::Array(views_of(a@)),
{
    let v = json_view(JsonValue::Array(a));
    assert(v is Array);
    let s = v->Array_0;
    assert(s =~= views_of(a@));
}

/// The view of an object is the object of the member views.
pub proof fn lemma_object_view(o: Vec<(String, JsonValue)>)
    ensures
        json_view(JsonValue::Object(o)) == JsonView::Object(members_view(o@)),
{
    let v = json_view(JsonValue::Object(o));
    assert(v is Object);
    let s = v->Object_0;
    assert(s =~= members_view(o@));
}

/// The index of the first member of `ms` named `k`, or -1.
pub open spec fn member_index(ms: Seq<(Seq<char>, JsonView)>, k: Seq<char>) -> int
    decreases ms.len(),
{
    if ms.len() == 0 {
        -1
    } else {
        let j = member_index(ms.drop_last(), k);
        if j >= 0 {
            j
        } else if ms.last().0 == k {
            ms.len() - 1
        } else {
            -1
        }
    }
}

/// `ms` with member `k` set to `v`: a member with that name keeps its
/// place and takes the value, otherwise the member is added last, as
/// inserting into a JSON object does.
pub open spec fn put_member(ms: Seq<(Seq<char>, JsonView)>, k: Seq<char>, v: JsonView) -> Seq<(Seq<char>, JsonView)> {
    let i = member_index(ms, k);
    if i >= 0 {
        ms.update(i, (k, v))
    } else {
        ms.push((k, v))
    }
}

pub proof fn lemma_member_index(ms: Seq<(Seq<char>, JsonView)>, k: Seq<char>)
    ensures
        -1 <= member_index(ms, k) < ms.len(),
        member_index(ms, k) >= 0 ==> ms[member_index(ms, k)].0 == k,
        forall|i: int| 0 <= i < member_index(ms, k) ==> ms[i].0 != k,
        member_index(ms, k) == -1 ==> forall|i: int| 0 <= i < ms.len() ==> ms[i].0 != k,
    decreases ms.len(),
{
    if ms.len() > 0 {
        lemma_member_index(ms.drop_last(), k);
        assert forall|i: int| 0 <= i < ms.len() - 1 implies ms[i] == ms.drop_last()[i] by {}
    }
}

/// Set member `k` of the object `o` to `v`, as inserting into a JSON
/// object does.
pub fn obj_insert(o: &mut Vec<(String, JsonValue)>, k: String, v: JsonValue)
    ensures
        members_view(final(o)@) == put_member(members_view(old(o)@), k@, json_view(v)),
{
    let ghost before = members_view(o@);
    proof {
        lemma_member_index(before, k@);
    }
    let mut i: usize = 0;
    while i < o.len()
        invariant
            i <= o@.len(),
            before == members_view(o@),
            o@ == old(o)@,
            forall|j: int| 0 <= j < i ==> o@[j].0@ != k@,
        decreases o.len() - i,
    {
        if crate::strings::str_eq(o[i].0.as_str(), k.as_str()) {
            proof {
                assert(before[i as int].0 == k@);
                assert forall|j: int| 0 <= j < i implies before[j].0 != k@ by {
                    assert(before[j].0 == o@[j].0@);
                }
                lemma_member_index_first(before, k@, i as int);
            }
            let mut tmp = Vec::new();
            std::mem::swap(&mut tmp, o);
            let key = String::from_str(tmp[i].0.as_str());
            tmp.set(i, (key, v));
            std::mem::swap(&mut tmp, o);
            proof {
                assert(members_view(o@) =~= before.update(i as int, (k@, json_view(v))));
            }
            return;
        }
        i = i + 1;
    }
    proof {
        assert forall|j: int| 0 <= j < before.len() implies before[j].0 != k@ by {
            assert(before[j].0 == o@[j].0@);
        }
        lemma_member_index_none(before, k@);
    }
    let ghost vv = v;
    let ghost kk = k;
    o.push((k, v));
    proof {
        assert(members_view(o@) =~= before.push((kk@, json_view(vv))));
    }
}

proof fn lemma_member_index_first(ms: Seq<(Seq<char>, JsonView)>, k: Seq<char>, i: int)
    requires
        0 <= i < ms.len(),
        ms[i].0 == k,
        forall|j: int| 0 <= j < i ==> ms[j].0 != k,
    ensures
        member_index(ms, k) == i,
    decreases ms.len(),
{
    if i < ms.len() - 1 {
        lemma_member_index_first(ms.drop_last(), k, i);
    } else {
        lemma_member_index_none(ms.drop_last(), k);
    }
}

proof fn lemma_member_index_none(ms: Seq<(Seq<char>, JsonView)>, k: Seq<char>)
    requires
        forall|j: int| 0 <= j < ms.len() ==> ms[j].0 != k,
    ensures
        member_index(ms, k) == -1,
    decreases ms.len(),
{
    if ms.len() > 0 {
        lemma_member_index_none(ms.drop_last(), k);
    }
}

}
