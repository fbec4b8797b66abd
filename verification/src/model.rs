//! Standalone model representation for interchange.
//!
//! A `Model` stores elements by ID in insertion order; relationships are
//! themselves elements that carry `RelationshipData` (source and target IDs).

use vstd::prelude::*;
use indexmap::IndexMap;
use crate::element_kind::ElementKind;
use crate::model_laws::{keys_are_ids, keys_distinct};
use crate::ordered_map::{
    element_entries, element_map_get, element_map_get_index, element_map_get_mut,
    element_map_insert, element_map_len, element_map_new, find_key, lemma_find_key,
    property_entries, property_map_insert, property_map_new,
};

verus! {

// ============================================================================
// IDs
// ============================================================================

/// Unique identifier for a model element.
///
/// This corresponds to `xmi:id` in XMI and `@id` in JSON-LD.
#[derive(Debug, PartialEq, Eq, Hash)]
pub struct ElementId(pub String);

impl View for ElementId {
    type V = Seq<char>;

    open spec fn view(&self) -> Seq<char> {
        self.0@
    }
}

impl Clone for ElementId {
    fn clone(&self) -> (r: Self)
        ensures
            r == *self,
    {
        ElementId(self.0.clone())
    }
}

/// The hexadecimal digit for `d` (lower case).
pub open spec fn hex_digit(d: int) -> char {
    if d < 10 {
        (('0' as int) + d) as char
    } else {
        (('a' as int) + d - 10) as char
    }
}

/// The `width` lowest hexadecimal digits of `n`, most significant first,
/// as `format!("{:0width$x}", n)` writes them when `n < 16^width`.
pub open spec fn hex_digits(n: nat, width: nat) -> Seq<char>
    decreases width,
{
    if width == 0 {
        Seq::empty()
    } else {
        hex_digits(n / 16, (width - 1) as nat).push(hex_digit((n % 16) as int))
    }
}

#[verifier::external_type_specification]
#[verifier::external_body]
pub struct ExSystemTime(std::time::SystemTime);

#[verifier::external_type_specification]
#[verifier::external_body]
pub struct ExSystemTimeError(std::time::SystemTimeError);

/// The current time of the system clock (`SystemTime::now`). Nothing is
/// stated of it: it depends on the clock.
#[verifier::external_body]
fn clock_now() -> std::time::SystemTime {
    std::time::SystemTime::now()
}

/// The time elapsed from the Unix epoch to `t`, or an error when `t` is
/// before the epoch (`SystemTime::duration_since(UNIX_EPOCH)`). Nothing is
/// stated of the value, which depends on `t` and the clock.
#[verifier::external_body]
fn since_unix_epoch(t: &std::time::SystemTime) -> Result<std::time::Duration, std::time::SystemTimeError> {
    t.duration_since(std::time::UNIX_EPOCH)
}

/// The whole number of nanoseconds in `d` (`Duration::as_nanos`). Nothing
/// is stated of the value.
#[verifier::external_body]
fn duration_nanos(d: &std::time::Duration) -> u128 {
    d.as_nanos()
}

/// The current time in nanoseconds since the Unix epoch, or 0 when the
/// clock is before the epoch.
fn nanos_since_epoch() -> u128 {
    let now = clock_now();
    match since_unix_epoch(&now) {
        Ok(d) => duration_nanos(&d),
        Err(_) => 0,
    }
}

impl<'a> From<&'a str> for ElementId {
    fn from(s: &'a str) -> (r: Self)
        ensures
            r@ == s@,
    {
        ElementId(String::from_str(s))
    }
}

impl<'a> vstd::std_specs::convert::FromSpecImpl<&'a str> for ElementId {
    open spec fn obeys_from_spec() -> bool {
        false
    }

    open spec fn from_spec(s: &'a str) -> Self {
        choose|r: ElementId| r@ == s@
    }
}

impl From<String> for ElementId {
    fn from(s: String) -> (r: Self)
        ensures
            r@ == s@,
    {
        ElementId(s)
    }
}

impl vstd::std_specs::convert::FromSpecImpl<String> for ElementId {
    open spec fn obeys_from_spec() -> bool {
        true
    }

    open spec fn from_spec(s: String) -> Self {
        ElementId(s)
    }
}

/// A type from which an element ID is made.
pub trait IntoElementId {
    /// The characters of the ID made from this value.
    spec fn id_view(&self) -> Seq<char>;

    /// Make the element ID.
    fn into_element_id(self) -> (r: ElementId)
        ensures
            r@ == self.id_view(),
    ;
}

impl IntoElementId for ElementId {
    open spec fn id_view(&self) -> Seq<char> {
        self@
    }

    fn into_element_id(self) -> (r: ElementId) {
        self
    }
}

impl IntoElementId for String {
    open spec fn id_view(&self) -> Seq<char> {
        self@
    }

    fn into_element_id(self) -> (r: ElementId) {
        ElementId(self)
    }
}

impl<'a> IntoElementId for &'a str {
    open spec fn id_view(&self) -> Seq<char> {
        (*self)@
    }

    fn into_element_id(self) -> (r: ElementId) {
        ElementId(String::from_str(self))
    }
}

impl ElementId {
    /// Create a new element ID.
    pub fn new(id: &str) -> (r: Self)
        ensures
            r@ == id@,
    {
        ElementId(String::from_str(id))
    }

    /// The ID whose text is `nanos` as 32 lower-case hexadecimal digits.
    pub fn from_nanos(nanos: u128) -> (r: Self)
        ensures
            r@ == hex_digits(nanos as nat, 32),
    {
        let mut digits: Vec<char> = Vec::new();
        let mut n: u128 = nanos;
        let mut k: usize = 0;
        proof {
            assert(hex_digits(nanos as nat, 32) + digits@ =~= hex_digits(nanos as nat, 32));
            assert(pow16(0) == 1);
        }
        while k < 32
            invariant
                k <= 32,
                digits@.len() == k,
                n as nat == nanos as nat / pow16(k as nat),
                hex_digits(nanos as nat, 32) == hex_digits(n as nat, (32 - k) as nat) + digits@,
            decreases 32 - k,
        {
            let d = (n % 16) as u32;
            let c = if d < 10 {
                char_from_code(48 + d)
            } else {
                char_from_code(87 + d)
            };
            proof {
                lemma_div_pow16(nanos as nat, k as nat);
                assert(hex_digits(n as nat, (32 - k) as nat) == hex_digits(n as nat / 16, (32 - k - 1) as nat).push(hex_digit((n as nat % 16) as int)));
                assert(hex_digits(n as nat / 16, (32 - k - 1) as nat).push(c) + digits@ =~= hex_digits(n as nat / 16, (32 - k - 1) as nat) + seq![c].add(digits@));
            }
            digits.insert(0, c);
            n = n / 16;
            k = k + 1;
        }
        let mut s = String::new();
        let mut i: usize = 0;
        while i < 32
            invariant
                digits@.len() == 32,
                i <= 32,
                s@ == digits@.subrange(0, i as int),
            decreases 32 - i,
        {
            push_char(&mut s, digits[i]);
            proof {
                assert(digits@.subrange(0, i + 1) =~= digits@.subrange(0, i as int).push(digits@[i as int]));
            }
            i = i + 1;
        }
        proof {
            assert(hex_digits(n as nat, 0) =~= Seq::<char>::empty());
            assert(digits@.subrange(0, 32) =~= digits@);
            assert(Seq::<char>::empty() + digits@ =~= digits@);
        }
        ElementId(s)
    }

    /// Generate a new ID from the current time: 32 lower-case hexadecimal
    /// digits of the nanoseconds since the Unix epoch.
    pub fn generate() -> (r: Self)
        ensures
            exists|nanos: u128| r@ == hex_digits(nanos as nat, 32),
    {
        let nanos = nanos_since_epoch();
        Self::from_nanos(nanos)
    }

    /// Get the ID as a string slice.
    pub fn as_str(&self) -> (r: &str)
        ensures
            r@ == self@,
    {
        self.0.as_str()
    }

    /// Whether two IDs have the same text.
    pub fn same_as(&self, other: &ElementId) -> (r: bool)
        ensures
            r == (self@ == other@),
    {
        self.0 == other.0
    }
}

/// 16 to the power `k`.
pub open spec fn pow16(k: nat) -> nat
    decreases k,
{
    if k == 0 {
        1
    } else {
        16 * pow16((k - 1) as nat)
    }
}

proof fn lemma_div_pow16(x: nat, k: nat)
    ensures
        x / pow16(k + 1) == (x / pow16(k)) / 16,
        pow16(k) > 0,
    decreases k,
{
    if k > 0 {
        lemma_div_pow16(x, (k - 1) as nat);
    }
    vstd::arithmetic::div_mod::lemma_div_denominator(x as int, pow16(k) as int, 16);
    assert(pow16(k + 1) == pow16(k) * 16) by (nonlinear_arith)
        requires
            pow16(k + 1) == 16 * pow16(k),
    ;
}

/// The ASCII character with the given code.
pub(crate) fn char_from_code(code: u32) -> (c: char)
    requires
        code < 128,
    ensures
        c as u32 == code,
{
    let b: u8 = code as u8;
    b as char
}

/// Append a character to a string (`String::push`).
#[verifier::external_body]
pub(crate) fn push_char(s: &mut String, c: char)
    ensures
        final(s)@ == old(s)@.push(c),
{
    s.push(c)
}


// ============================================================================
// ELEMENT
// ============================================================================

/// Visibility of an element.
#[derive(Clone, Copy, Debug, PartialEq, Eq, Hash, Structural)]
pub enum Visibility {
    Public,
    Private,
    Protected,
}

impl Default for Visibility {
    fn default() -> (r: Self)
        ensures
            r == Visibility::Public,
    {
        Visibility::Public
    }
}

/// A property value that can be stored on an element.
#[derive(Debug, PartialEq)]
pub enum PropertyValue {
    /// String value.
    String(String),
    /// Integer value.
    Integer(i64),
    /// Floating-point value, held as its IEEE 754 bit pattern (`f64::to_bits`).
    Real(u64),
    /// Boolean value.
    Boolean(bool),
    /// Reference to another element by ID.
    Reference(ElementId),
    /// List of values.
    List(Vec<PropertyValue>),
}

/// Relationship-specific data stored on an `Element`: the source and target
/// references that make it a relationship edge.
#[derive(Clone, Debug, PartialEq, Eq)]
pub struct RelationshipData {
    /// Source element(s) of the relationship.
    pub source: Vec<ElementId>,
    /// Target element(s) of the relationship.
    pub target: Vec<ElementId>,
}

/// The text of each ID of a list.
pub open spec fn id_views(ids: Seq<ElementId>) -> Seq<Seq<char>> {
    ids.map_values(|id: ElementId| id@)
}

impl RelationshipData {
    /// Create relationship data with a single source and target.
    pub fn new<S: IntoElementId, T: IntoElementId>(source: S, target: T) -> (r: Self)
        ensures
            id_views(r.source@) == seq![source.id_view()],
            id_views(r.target@) == seq![target.id_view()],
    {
        let s = source.into_element_id();
        let t = target.into_element_id();
        let r = RelationshipData { source: vec![s], target: vec![t] };
        proof {
            assert(id_views(r.source@) =~= seq![s@]);
            assert(id_views(r.target@) =~= seq![t@]);
        }
        r
    }

    /// Create relationship data with multiple sources and targets.
    pub fn new_multi(sources: Vec<ElementId>, targets: Vec<ElementId>) -> (r: Self)
        ensures
            r.source@ == sources@,
            r.target@ == targets@,
    {
        RelationshipData { source: sources, target: targets }
    }

    /// Get the first source element ID, if any.
    pub fn source(&self) -> (r: Option<&ElementId>)
        ensures
            self.source@.len() > 0 ==> r == Some(&self.source@[0]),
            self.source@.len() == 0 ==> r.is_none(),
    {
        self.source.first()
    }

    /// Get the first target element ID, if any.
    pub fn target(&self) -> (r: Option<&ElementId>)
        ensures
            self.target@.len() > 0 ==> r == Some(&self.target@[0]),
            self.target@.len() == 0 ==> r.is_none(),
    {
        self.target.first()
    }
}

/// `after` is `before` with `v` stored under the key `k`: an entry with that
/// key keeps its place and takes the value, otherwise the pair is added last.
pub open spec fn property_put(
    before: Seq<(String, PropertyValue)>,
    after: Seq<(String, PropertyValue)>,
    k: Seq<char>,
    v: PropertyValue,
) -> bool {
    let i = find_key(before, k);
    if i >= 0 {
        after == before.update(i, (before[i].0, v))
    } else {
        &&& after.len() == before.len() + 1
        &&& after.drop_last() == before
        &&& after.last().0@ == k
        &&& after.last().1 == v
    }
}

pub proof fn lemma_put_from_insert(
    before: Seq<(String, PropertyValue)>,
    after: Seq<(String, PropertyValue)>,
    k: String,
    v: PropertyValue,
)
    requires
        find_key(before, k@) >= 0 ==> after == before.update(find_key(before, k@), (before[find_key(before, k@)].0, v)),
        find_key(before, k@) < 0 ==> after == before.push((k, v)),
    ensures
        property_put(before, after, k@, v),
{
    if find_key(before, k@) < 0 {
        assert(after.drop_last() =~= before);
    }
}

/// The properties as a map from key text to value; of two entries with the
/// same key, the first counts.
pub open spec fn props_map(entries: Seq<(String, PropertyValue)>) -> Map<Seq<char>, PropertyValue>
    decreases entries.len(),
{
    if entries.len() == 0 {
        Map::empty()
    } else {
        props_map(entries.drop_first()).insert(entries[0].0@, entries[0].1)
    }
}

/// The properties by key text and value, in their stored order.
pub open spec fn props_seq(entries: Seq<(String, PropertyValue)>) -> Seq<(Seq<char>, PropertyValue)> {
    entries.map_values(|e: (String, PropertyValue)| (e.0@, e.1))
}

/// The first place of key `k` among `s`, or -1.
pub open spec fn prop_pos(s: Seq<(Seq<char>, PropertyValue)>, k: Seq<char>) -> int
    decreases s.len(),
{
    if s.len() == 0 {
        -1
    } else if prop_pos(s.drop_last(), k) >= 0 {
        prop_pos(s.drop_last(), k)
    } else if s.last().0 == k {
        s.len() - 1
    } else {
        -1
    }
}

/// The properties `s` with `v` stored under `k`: in place of the value of
/// an entry with that key, else last.
#[verifier::opaque]
pub open spec fn prop_put(s: Seq<(Seq<char>, PropertyValue)>, k: Seq<char>, v: PropertyValue) -> Seq<(Seq<char>, PropertyValue)> {
    let i = prop_pos(s, k);
    if i >= 0 {
        s.update(i, (k, v))
    } else {
        s.push((k, v))
    }
}

/// A key is found at the same place among the entries and their texts.
proof fn lemma_prop_pos(entries: Seq<(String, PropertyValue)>, k: Seq<char>)
    ensures
        prop_pos(props_seq(entries), k) == find_key(entries, k),
    decreases entries.len(),
{
    if entries.len() > 0 {
        lemma_prop_pos(entries.drop_last(), k);
        assert(props_seq(entries).drop_last() =~= props_seq(entries.drop_last()));
    }
}

/// Storing a property, seen in order.
pub proof fn lemma_props_seq_put(
    before: Seq<(String, PropertyValue)>,
    after: Seq<(String, PropertyValue)>,
    k: Seq<char>,
    v: PropertyValue,
)
    requires
        property_put(before, after, k, v),
    ensures
        props_seq(after) == prop_put(props_seq(before), k, v),
{
    reveal(prop_put);
    lemma_prop_pos(before, k);
    lemma_find_key(before, k);
    let i = find_key(before, k);
    if i >= 0 {
        assert(props_seq(after) =~= prop_put(props_seq(before), k, v));
    } else {
        assert(after =~= after.drop_last().push(after.last()));
        assert(props_seq(after) =~= prop_put(props_seq(before), k, v));
    }
}

proof fn lemma_props_map_update(s: Seq<(String, PropertyValue)>, i: int, v: PropertyValue)
    requires
        0 <= i < s.len(),
        forall|j: int| 0 <= j < i ==> s[j].0@ != s[i].0@,
    ensures
        props_map(s.update(i, (s[i].0, v))) == props_map(s).insert(s[i].0@, v),
    decreases i,
{
    let t = s.update(i, (s[i].0, v));
    if i == 0 {
        assert(t.drop_first() =~= s.drop_first());
        assert(props_map(t) =~= props_map(s).insert(s[0].0@, v));
    } else {
        lemma_props_map_update(s.drop_first(), i - 1, v);
        assert(t.drop_first() =~= s.drop_first().update(i - 1, (s[i].0, v)));
        assert(props_map(t) =~= props_map(s).insert(s[i].0@, v));
    }
}

proof fn lemma_props_map_push(s: Seq<(String, PropertyValue)>, e: (String, PropertyValue))
    requires
        forall|j: int| 0 <= j < s.len() ==> s[j].0@ != e.0@,
    ensures
        props_map(s.push(e)) == props_map(s).insert(e.0@, e.1),
    decreases s.len(),
{
    if s.len() == 0 {
        assert(s.push(e).drop_first() =~= Seq::<(String, PropertyValue)>::empty());
        assert(s.push(e)[0] == e);
        assert(props_map(s.push(e)) == props_map(s.push(e).drop_first()).insert(e.0@, e.1));
        assert(props_map(s.push(e)) =~= props_map(s).insert(e.0@, e.1));
    } else {
        lemma_props_map_push(s.drop_first(), e);
        assert(s.push(e).drop_first() =~= s.drop_first().push(e));
        assert(s.push(e)[0] == s[0]);
        assert(s[0].0@ != e.0@);
        assert(props_map(s.push(e)) == props_map(s.drop_first().push(e)).insert(s[0].0@, s[0].1));
        assert(props_map(s) == props_map(s.drop_first()).insert(s[0].0@, s[0].1));
        assert(props_map(s.push(e)) =~= props_map(s).insert(e.0@, e.1));
    }
}

/// Storing `v` under `k` stores it in the map view.
pub proof fn lemma_props_map_put(
    before: Seq<(String, PropertyValue)>,
    after: Seq<(String, PropertyValue)>,
    k: Seq<char>,
    v: PropertyValue,
)
    requires
        property_put(before, after, k, v),
    ensures
        props_map(after) == props_map(before).insert(k, v),
{
    lemma_find_key(before, k);
    let i = find_key(before, k);
    if i >= 0 {
        lemma_props_map_update(before, i, v);
    } else {
        assert(after == before.push(after.last()));
        lemma_props_map_push(before, after.last());
    }
}

/// A model element with its properties.
#[derive(Debug)]
pub struct Element {
    /// Unique identifier.
    pub id: ElementId,
    /// The metatype.
    pub kind: ElementKind,
    /// The declared name (may be None for anonymous elements).
    pub name: Option<String>,
    /// Short name alias.
    pub short_name: Option<String>,
    /// Qualified name (computed from ownership hierarchy).
    pub qualified_name: Option<String>,
    /// The owning element's ID (None for root elements).
    pub owner: Option<ElementId>,
    /// IDs of directly owned elements.
    pub owned_elements: Vec<ElementId>,
    /// Documentation text.
    pub documentation: Option<String>,
    /// Whether this element is abstract.
    pub is_abstract: bool,
    /// Whether this is a variation (SysML).
    pub is_variation: bool,
    /// Whether this feature is derived.
    pub is_derived: bool,
    /// Whether this feature is read-only.
    pub is_readonly: bool,
    /// Whether this state is parallel (SysML).
    pub is_parallel: bool,
    /// Whether this is an individual (singleton occurrence).
    pub is_individual: bool,
    /// Whether this is an end feature (connector endpoint).
    pub is_end: bool,
    /// Whether this has a default value.
    pub is_default: bool,
    /// Whether values are ordered.
    pub is_ordered: bool,
    /// Whether values are nonunique (can have duplicates).
    pub is_nonunique: bool,
    /// Whether this is a portion (slice of occurrence).
    pub is_portion: bool,
    /// Visibility (public, private, protected).
    pub visibility: Visibility,
    /// Additional properties as key-value pairs, in insertion order.
    pub properties: IndexMap<String, PropertyValue>,
    /// Relationship-specific data (source/target), present when this element
    /// represents a relationship edge.
    pub relationship: Option<RelationshipData>,
}

impl Element {
    /// The state of a freshly created element: no names, no owner, no
    /// children, no documentation, every flag false, public, no properties,
    /// no relationship data.
    pub open spec fn is_fresh(&self) -> bool {
        &&& self.has_default_attributes()
        &&& self.owner.is_none()
        &&& self.owned_elements@.len() == 0
    }

    /// No names, no documentation, every flag false, public, no properties,
    /// no relationship data.
    pub open spec fn has_default_attributes(&self) -> bool {
        &&& self.name.is_none()
        &&& self.short_name.is_none()
        &&& self.qualified_name.is_none()
        &&& self.documentation.is_none()
        &&& !self.is_abstract
        &&& !self.is_variation
        &&& !self.is_derived
        &&& !self.is_readonly
        &&& !self.is_parallel
        &&& !self.is_individual
        &&& !self.is_end
        &&& !self.is_default
        &&& !self.is_ordered
        &&& !self.is_nonunique
        &&& !self.is_portion
        &&& self.visibility == Visibility::Public
        &&& property_entries(self.properties).len() == 0
        &&& self.relationship.is_none()
    }

    /// Create a new element with the given ID and kind.
    pub fn new<I: IntoElementId>(id: I, kind: ElementKind) -> (r: Self)
        ensures
            r.id@ == id.id_view(),
            r.kind == kind,
            r.is_fresh(),
    {
        Element {
            id: id.into_element_id(),
            kind,
            name: None,
            short_name: None,
            qualified_name: None,
            owner: None,
            owned_elements: Vec::new(),
            documentation: None,
            is_abstract: false,
            is_variation: false,
            is_derived: false,
            is_readonly: false,
            is_parallel: false,
            is_individual: false,
            is_end: false,
            is_default: false,
            is_ordered: false,
            is_nonunique: false,
            is_portion: false,
            visibility: Visibility::Public,
            properties: property_map_new(),
            relationship: None,
        }
    }

    /// Create a new relationship element with the given source and target.
    pub fn new_relationship<I: IntoElementId, S: IntoElementId, T: IntoElementId>(
        id: I,
        kind: ElementKind,
        source: S,
        target: T,
    ) -> (r: Self)
        ensures
            r.id@ == id.id_view(),
            r.kind == kind,
            r.relationship.is_some(),
            id_views(r.relationship.unwrap().source@) == seq![source.id_view()],
            id_views(r.relationship.unwrap().target@) == seq![target.id_view()],
            (Element { relationship: None, ..r }).is_fresh(),
    {
        let mut e = Self::new(id, kind);
        e.relationship = Some(RelationshipData::new(source, target));
        e
    }

    /// Returns `true` if this element carries relationship data.
    pub fn is_relationship_element(&self) -> (r: bool)
        ensures
            r == self.relationship.is_some(),
    {
        self.relationship.is_some()
    }

    /// Get the relationship data, if this element is a relationship.
    pub fn as_relationship(&self) -> (r: Option<&RelationshipData>)
        ensures
            r == match self.relationship {
                Some(ref rd) => Some(rd),
                None => None::<&RelationshipData>,
            },
    {
        self.relationship.as_ref()
    }

    /// Get a mutable reference to the relationship data.
    pub fn as_relationship_mut(&mut self) -> (r: Option<&mut RelationshipData>)
        ensures
            match old(self).relationship {
                None => r.is_none() && *final(self) == *old(self),
                Some(rd) => r.is_some() && *r.unwrap() == rd && *final(self) == (Element {
                    relationship: Some(*final(r.unwrap())),
                    ..*old(self)
                }),
            },
    {
        self.relationship.as_mut()
    }

    /// The first source ID of the relationship data, if any.
    pub open spec fn spec_source(&self) -> Option<ElementId> {
        match self.relationship {
            Some(rd) => if rd.source@.len() > 0 { Some(rd.source@[0]) } else { None },
            None => None,
        }
    }

    /// The first target ID of the relationship data, if any.
    pub open spec fn spec_target(&self) -> Option<ElementId> {
        match self.relationship {
            Some(rd) => if rd.target@.len() > 0 { Some(rd.target@[0]) } else { None },
            None => None,
        }
    }

    /// Get the first source element ID (convenience for relationship elements).
    pub fn source(&self) -> (r: Option<&ElementId>)
        ensures
            match self.spec_source() {
                Some(id) => r == Some(&id),
                None => r.is_none(),
            },
    {
        match &self.relationship {
            Some(rd) => rd.source(),
            None => None,
        }
    }

    /// Get the first target element ID (convenience for relationship elements).
    pub fn target(&self) -> (r: Option<&ElementId>)
        ensures
            match self.spec_target() {
                Some(id) => r == Some(&id),
                None => r.is_none(),
            },
    {
        match &self.relationship {
            Some(rd) => rd.target(),
            None => None,
        }
    }

    /// Set relationship data on this element.
    pub fn with_relationship<S: IntoElementId, T: IntoElementId>(self, source: S, target: T) -> (r: Self)
        ensures
            r.relationship.is_some(),
            id_views(r.relationship.unwrap().source@) == seq![source.id_view()],
            id_views(r.relationship.unwrap().target@) == seq![target.id_view()],
            r == (Element { relationship: r.relationship, ..self }),
    {
        let mut e = self;
        e.relationship = Some(RelationshipData::new(source, target));
        e
    }

    /// Set the name.
    pub fn with_name(self, name: &str) -> (r: Self)
        ensures
            r.name.is_some() && r.name.unwrap()@ == name@,
            r == (Element { name: r.name, ..self }),
    {
        let mut e = self;
        e.name = Some(String::from_str(name));
        e
    }

    /// Set the qualified name.
    pub fn with_qualified_name(self, qualified_name: &str) -> (r: Self)
        ensures
            r.qualified_name.is_some() && r.qualified_name.unwrap()@ == qualified_name@,
            r == (Element { qualified_name: r.qualified_name, ..self }),
    {
        let mut e = self;
        e.qualified_name = Some(String::from_str(qualified_name));
        e
    }

    /// Set the short name.
    pub fn with_short_name(self, short_name: &str) -> (r: Self)
        ensures
            r.short_name.is_some() && r.short_name.unwrap()@ == short_name@,
            r == (Element { short_name: r.short_name, ..self }),
    {
        let mut e = self;
        e.short_name = Some(String::from_str(short_name));
        e
    }

    /// Set the owner.
    pub fn with_owner<I: IntoElementId>(self, owner: I) -> (r: Self)
        ensures
            r.owner.is_some() && r.owner.unwrap()@ == owner.id_view(),
            r == (Element { owner: r.owner, ..self }),
    {
        let mut e = self;
        e.owner = Some(owner.into_element_id());
        e
    }

    /// Set the owner from an `Option<ElementId>`.
    pub fn with_owner_opt(self, owner: Option<ElementId>) -> (r: Self)
        ensures
            r == (Element { owner: owner, ..self }),
    {
        let mut e = self;
        e.owner = owner;
        e
    }

    /// Add an owned element ID.
    pub fn with_owned<I: IntoElementId>(self, owned: I) -> (r: Self)
        ensures
            r.owned_elements@.len() == self.owned_elements@.len() + 1,
            r.owned_elements@.drop_last() == self.owned_elements@,
            r.owned_elements@.last()@ == owned.id_view(),
            r == (Element { owned_elements: r.owned_elements, ..self }),
    {
        let mut e = self;
        let id = owned.into_element_id();
        e.owned_elements.push(id);
        proof {
            assert(e.owned_elements@.drop_last() =~= self.owned_elements@);
        }
        e
    }

    /// Set a property value: an existing key keeps its place and takes the
    /// new value, a new key is added last.
    pub fn with_property(self, key: &str, value: PropertyValue) -> (r: Self)
        ensures
            property_put(property_entries(self.properties), property_entries(r.properties), key@, value),
            r == (Element { properties: r.properties, ..self }),
    {
        let mut e = self;
        let ghost before = property_entries(e.properties);
        let k = String::from_str(key);
        let ghost kk = k;
        let ghost vv = value;
        let _ = property_map_insert(&mut e.properties, k, value);
        proof {
            lemma_put_from_insert(before, property_entries(e.properties), kk, vv);
        }
        e
    }

    /// Set `is_abstract`, and the `isAbstract` property to the same value.
    pub fn set_abstract(&mut self, value: bool)
        ensures
            *final(self) == (Element { is_abstract: value, properties: final(self).properties, ..*old(self) }),
            property_put(property_entries(old(self).properties), property_entries(final(self).properties), "isAbstract"@, PropertyValue::Boolean(value)),
    {
        self.is_abstract = value;
        let ghost before = property_entries(self.properties);
        let key = String::from_str("isAbstract");
        let ghost k = key;
        let _ = property_map_insert(&mut self.properties, key, PropertyValue::Boolean(value));
        proof {
            lemma_put_from_insert(before, property_entries(self.properties), k, PropertyValue::Boolean(value));
        }
    }

    /// Set `is_variation`, and the `isVariation` property to the same value.
    pub fn set_variation(&mut self, value: bool)
        ensures
            *final(self) == (Element { is_variation: value, properties: final(self).properties, ..*old(self) }),
            property_put(property_entries(old(self).properties), property_entries(final(self).properties), "isVariation"@, PropertyValue::Boolean(value)),
    {
        self.is_variation = value;
        let ghost before = property_entries(self.properties);
        let key = String::from_str("isVariation");
        let ghost k = key;
        let _ = property_map_insert(&mut self.properties, key, PropertyValue::Boolean(value));
        proof {
            lemma_put_from_insert(before, property_entries(self.properties), k, PropertyValue::Boolean(value));
        }
    }

    /// Set `is_derived`, and the `isDerived` property to the same value.
    pub fn set_derived(&mut self, value: bool)
        ensures
            *final(self) == (Element { is_derived: value, properties: final(self).properties, ..*old(self) }),
            property_put(property_entries(old(self).properties), property_entries(final(self).properties), "isDerived"@, PropertyValue::Boolean(value)),
    {
        self.is_derived = value;
        let ghost before = property_entries(self.properties);
        let key = String::from_str("isDerived");
        let ghost k = key;
        let _ = property_map_insert(&mut self.properties, key, PropertyValue::Boolean(value));
        proof {
            lemma_put_from_insert(before, property_entries(self.properties), k, PropertyValue::Boolean(value));
        }
    }

    /// Set `is_readonly`, and the `isReadOnly` property to the same value.
    pub fn set_readonly(&mut self, value: bool)
        ensures
            *final(self) == (Element { is_readonly: value, properties: final(self).properties, ..*old(self) }),
            property_put(property_entries(old(self).properties), property_entries(final(self).properties), "isReadOnly"@, PropertyValue::Boolean(value)),
    {
        self.is_readonly = value;
        let ghost before = property_entries(self.properties);
        let key = String::from_str("isReadOnly");
        let ghost k = key;
        let _ = property_map_insert(&mut self.properties, key, PropertyValue::Boolean(value));
        proof {
            lemma_put_from_insert(before, property_entries(self.properties), k, PropertyValue::Boolean(value));
        }
    }

    /// Set `is_parallel`, and the `isParallel` property to the same value.
    pub fn set_parallel(&mut self, value: bool)
        ensures
            *final(self) == (Element { is_parallel: value, properties: final(self).properties, ..*old(self) }),
            property_put(property_entries(old(self).properties), property_entries(final(self).properties), "isParallel"@, PropertyValue::Boolean(value)),
    {
        self.is_parallel = value;
        let ghost before = property_entries(self.properties);
        let key = String::from_str("isParallel");
        let ghost k = key;
        let _ = property_map_insert(&mut self.properties, key, PropertyValue::Boolean(value));
        proof {
            lemma_put_from_insert(before, property_entries(self.properties), k, PropertyValue::Boolean(value));
        }
    }

    /// Set `is_individual`, and the `isIndividual` property to the same value.
    pub fn set_individual(&mut self, value: bool)
        ensures
            *final(self) == (Element { is_individual: value, properties: final(self).properties, ..*old(self) }),
            property_put(property_entries(old(self).properties), property_entries(final(self).properties), "isIndividual"@, PropertyValue::Boolean(value)),
    {
        self.is_individual = value;
        let ghost before = property_entries(self.properties);
        let key = String::from_str("isIndividual");
        let ghost k = key;
        let _ = property_map_insert(&mut self.properties, key, PropertyValue::Boolean(value));
        proof {
            lemma_put_from_insert(before, property_entries(self.properties), k, PropertyValue::Boolean(value));
        }
    }

    /// Set `is_end`, and the `isEnd` property to the same value.
    pub fn set_end(&mut self, value: bool)
        ensures
            *final(self) == (Element { is_end: value, properties: final(self).properties, ..*old(self) }),
            property_put(property_entries(old(self).properties), property_entries(final(self).properties), "isEnd"@, PropertyValue::Boolean(value)),
    {
        self.is_end = value;
        let ghost before = property_entries(self.properties);
        let key = String::from_str("isEnd");
        let ghost k = key;
        let _ = property_map_insert(&mut self.properties, key, PropertyValue::Boolean(value));
        proof {
            lemma_put_from_insert(before, property_entries(self.properties), k, PropertyValue::Boolean(value));
        }
    }

    /// Set `is_default`, and the `isDefault` property to the same value.
    pub fn set_default(&mut self, value: bool)
        ensures
            *final(self) == (Element { is_default: value, properties: final(self).properties, ..*old(self) }),
            property_put(property_entries(old(self).properties), property_entries(final(self).properties), "isDefault"@, PropertyValue::Boolean(value)),
    {
        self.is_default = value;
        let ghost before = property_entries(self.properties);
        let key = String::from_str("isDefault");
        let ghost k = key;
        let _ = property_map_insert(&mut self.properties, key, PropertyValue::Boolean(value));
        proof {
            lemma_put_from_insert(before, property_entries(self.properties), k, PropertyValue::Boolean(value));
        }
    }

    /// Set `is_ordered`, and the `isOrdered` property to the same value.
    pub fn set_ordered(&mut self, value: bool)
        ensures
            *final(self) == (Element { is_ordered: value, properties: final(self).properties, ..*old(self) }),
            property_put(property_entries(old(self).properties), property_entries(final(self).properties), "isOrdered"@, PropertyValue::Boolean(value)),
    {
        self.is_ordered = value;
        let ghost before = property_entries(self.properties);
        let key = String::from_str("isOrdered");
        let ghost k = key;
        let _ = property_map_insert(&mut self.properties, key, PropertyValue::Boolean(value));
        proof {
            lemma_put_from_insert(before, property_entries(self.properties), k, PropertyValue::Boolean(value));
        }
    }

    /// Set `is_nonunique`, and the `isNonunique` property to the same value.
    pub fn set_nonunique(&mut self, value: bool)
        ensures
            *final(self) == (Element { is_nonunique: value, properties: final(self).properties, ..*old(self) }),
            property_put(property_entries(old(self).properties), property_entries(final(self).properties), "isNonunique"@, PropertyValue::Boolean(value)),
    {
        self.is_nonunique = value;
        let ghost before = property_entries(self.properties);
        let key = String::from_str("isNonunique");
        let ghost k = key;
        let _ = property_map_insert(&mut self.properties, key, PropertyValue::Boolean(value));
        proof {
            lemma_put_from_insert(before, property_entries(self.properties), k, PropertyValue::Boolean(value));
        }
    }

    /// Set `is_portion`, and the `isPortion` property to the same value.
    pub fn set_portion(&mut self, value: bool)
        ensures
            *final(self) == (Element { is_portion: value, properties: final(self).properties, ..*old(self) }),
            property_put(property_entries(old(self).properties), property_entries(final(self).properties), "isPortion"@, PropertyValue::Boolean(value)),
    {
        self.is_portion = value;
        let ghost before = property_entries(self.properties);
        let key = String::from_str("isPortion");
        let ghost k = key;
        let _ = property_map_insert(&mut self.properties, key, PropertyValue::Boolean(value));
        proof {
            lemma_put_from_insert(before, property_entries(self.properties), k, PropertyValue::Boolean(value));
        }
    }
}


// ============================================================================
// MODEL
// ============================================================================

/// Metadata about a model.
#[derive(Debug)]
pub struct ModelMetadata {
    /// Name of the model/project.
    pub name: Option<String>,
    /// Version string.
    pub version: Option<String>,
    /// Description.
    pub description: Option<String>,
    /// URI of the model.
    pub uri: Option<String>,
    /// SysML/KerML version this model conforms to.
    pub sysml_version: Option<String>,
    /// Tool that created this model.
    pub tool: Option<String>,
    /// Creation timestamp.
    pub created: Option<String>,
    /// Last modified timestamp.
    pub modified: Option<String>,
    /// Declared XML namespaces (prefix, URI), in the order they were declared.
    pub declared_namespaces: Vec<(String, String)>,
}

impl Default for ModelMetadata {
    fn default() -> (r: Self)
        ensures
            r.name.is_none() && r.version.is_none() && r.description.is_none() && r.uri.is_none(),
            r.sysml_version.is_none() && r.tool.is_none() && r.created.is_none() && r.modified.is_none(),
            r.declared_namespaces@.len() == 0,
    {
        ModelMetadata {
            name: None,
            version: None,
            description: None,
            uri: None,
            sysml_version: None,
            tool: None,
            created: None,
            modified: None,
            declared_namespaces: Vec::new(),
        }
    }
}

/// A complete SysML/KerML model.
///
/// Elements are stored by ID in insertion order, for deterministic output.
#[derive(Debug)]
pub struct Model {
    /// All elements by ID, in insertion order.
    pub elements: IndexMap<ElementId, Element>,
    /// Root element IDs (top-level packages).
    pub roots: Vec<ElementId>,
    /// Metadata about the model.
    pub metadata: ModelMetadata,
}

/// The element stored under the ID `id`, if any.
pub open spec fn lookup(entries: Seq<(ElementId, Element)>, id: Seq<char>) -> Option<Element> {
    let i = find_key(entries, id);
    if i >= 0 {
        Some(entries[i].1)
    } else {
        None
    }
}

/// The elements of a sequence that satisfy `p`, in order.
pub open spec fn select(s: Seq<Element>, p: spec_fn(Element) -> bool) -> Seq<Element>
    decreases s.len(),
{
    if s.len() == 0 {
        Seq::empty()
    } else if p(s.last()) {
        select(s.drop_last(), p).push(s.last())
    } else {
        select(s.drop_last(), p)
    }
}

/// The elements of a list of references.
pub open spec fn derefs(s: Seq<&Element>) -> Seq<Element> {
    s.map_values(|e: &Element| *e)
}

/// The values of a sequence of entries.
pub open spec fn entry_values(entries: Seq<(ElementId, Element)>) -> Seq<Element> {
    entries.map_values(|e: (ElementId, Element)| e.1)
}

/// Whether a list of IDs holds one with the text `id`.
pub open spec fn has_id(ids: Seq<ElementId>, id: Seq<char>) -> bool {
    exists|i: int| 0 <= i < ids.len() && ids[i]@ == id
}

/// Whether `e` is a relationship element with `source` among its sources.
pub open spec fn is_rel_from(e: Element, source: Seq<char>) -> bool {
    e.relationship.is_some() && has_id(e.relationship.unwrap().source@, source)
}

/// Whether `e` is a relationship element with `target` among its targets.
pub open spec fn is_rel_to(e: Element, target: Seq<char>) -> bool {
    e.relationship.is_some() && has_id(e.relationship.unwrap().target@, target)
}

/// Whether a list of IDs holds one with the given text.
fn contains_id(ids: &Vec<ElementId>, id: &ElementId) -> (r: bool)
    ensures
        r == has_id(ids@, id@),
{
    let mut i: usize = 0;
    while i < ids.len()
        invariant
            i <= ids@.len(),
            forall|j: int| 0 <= j < i ==> ids@[j]@ != id@,
        decreases ids@.len() - i,
    {
        if ids[i].same_as(id) {
            return true;
        }
        i = i + 1;
    }
    false
}

proof fn lemma_select_step(s: Seq<Element>, p: spec_fn(Element) -> bool, i: int)
    requires
        0 <= i < s.len(),
    ensures
        select(s.take(i + 1), p) == if p(s[i]) {
            select(s.take(i), p).push(s[i])
        } else {
            select(s.take(i), p)
        },
{
    assert(s.take(i + 1).drop_last() =~= s.take(i));
}

proof fn lemma_push_ref(r: Seq<&Element>, e: &Element)
    ensures
        derefs(r.push(e)) == derefs(r).push(*e),
{
    assert(derefs(r.push(e)) =~= derefs(r).push(*e));
}

/// After an insert that updates entry `i` in place, lookups find the same positions.
pub proof fn lemma_find_key_same_keys(a: Seq<(ElementId, Element)>, b: Seq<(ElementId, Element)>, k: Seq<char>)
    requires
        a.len() == b.len(),
        forall|i: int| 0 <= i < a.len() ==> a[i].0@ == b[i].0@,
    ensures
        find_key(a, k) == find_key(b, k),
    decreases a.len(),
{
    if a.len() > 0 {
        lemma_find_key_same_keys(a.drop_last(), b.drop_last(), k);
    }
}

/// The elements of the given IDs that are in the map, in order.
pub open spec fn root_elements(entries: Seq<(ElementId, Element)>, ids: Seq<ElementId>) -> Seq<Element>
    decreases ids.len(),
{
    if ids.len() == 0 {
        Seq::empty()
    } else {
        match lookup(entries, ids.last()@) {
            Some(e) => root_elements(entries, ids.drop_last()).push(e),
            None => root_elements(entries, ids.drop_last()),
        }
    }
}

/// The elements of the given IDs that are in the map and are not
/// relationships, in order.
pub open spec fn non_relationship_children(entries: Seq<(ElementId, Element)>, ids: Seq<ElementId>) -> Seq<Element>
    decreases ids.len(),
{
    if ids.len() == 0 {
        Seq::empty()
    } else {
        let rest = non_relationship_children(entries, ids.drop_last());
        match lookup(entries, ids.last()@) {
            Some(g) => if !g.kind.spec_is_relationship() { rest.push(g) } else { rest },
            None => rest,
        }
    }
}

/// What one owned ID contributes to the content members: the non-relationship
/// children of a membership, a non-relationship element itself, or nothing.
pub open spec fn child_contents(entries: Seq<(ElementId, Element)>, id: Seq<char>) -> Seq<Element> {
    match lookup(entries, id) {
        Some(c) => if c.kind.spec_is_membership() {
            non_relationship_children(entries, c.owned_elements@)
        } else if !c.kind.spec_is_relationship() {
            seq![c]
        } else {
            Seq::empty()
        },
        None => Seq::empty(),
    }
}

/// The content members reached from a list of owned IDs, in order.
pub open spec fn member_contents(entries: Seq<(ElementId, Element)>, ids: Seq<ElementId>) -> Seq<Element>
    decreases ids.len(),
{
    if ids.len() == 0 {
        Seq::empty()
    } else {
        member_contents(entries, ids.drop_last()) + child_contents(entries, ids.last()@)
    }
}

/// Whether `e` must be wrapped in a membership: it has an owner that is in
/// the map and is neither a membership nor a relationship, and `e` itself is
/// neither a relationship nor a membership.
pub open spec fn needs_wrapper(entries: Seq<(ElementId, Element)>, e: Element) -> bool {
    match e.owner {
        Some(o) => {
            &&& !e.kind.spec_is_relationship()
            &&& !e.kind.spec_is_membership()
            &&& match lookup(entries, o@) {
                Some(p) => !p.kind.spec_is_membership() && !p.kind.spec_is_relationship(),
                None => false,
            }
        },
        None => false,
    }
}

/// The (child, child kind, parent) of each element of `vals` that must be
/// wrapped, in order.
pub open spec fn targets_of(entries: Seq<(ElementId, Element)>, vals: Seq<Element>) -> Seq<(ElementId, ElementKind, ElementId)>
    decreases vals.len(),
{
    if vals.len() == 0 {
        Seq::empty()
    } else {
        let rest = targets_of(entries, vals.drop_last());
        let e = vals.last();
        if needs_wrapper(entries, e) {
            rest.push((e.id, e.kind, e.owner.unwrap()))
        } else {
            rest
        }
    }
}

/// The elements of a map that must be wrapped, in element order.
pub open spec fn wrap_targets(entries: Seq<(ElementId, Element)>) -> Seq<(ElementId, ElementKind, ElementId)> {
    targets_of(entries, entry_values(entries))
}

/// The map with the owner of the element stored under `cid` (if any) set to `owner`.
pub open spec fn set_owner_of(entries: Seq<(ElementId, Element)>, cid: Seq<char>, owner: ElementId) -> Seq<(ElementId, Element)> {
    let i = find_key(entries, cid);
    if i >= 0 {
        entries.update(i, (entries[i].0, Element { owner: Some(owner), ..entries[i].1 }))
    } else {
        entries
    }
}

/// The index of the first ID with the text `id`, or -1.
pub open spec fn first_id_index(ids: Seq<ElementId>, id: Seq<char>) -> int
    decreases ids.len(),
{
    if ids.len() == 0 {
        -1
    } else {
        let j = first_id_index(ids.drop_last(), id);
        if j >= 0 {
            j
        } else if ids.last()@ == id {
            ids.len() - 1
        } else {
            -1
        }
    }
}

proof fn lemma_first_id_index(ids: Seq<ElementId>, id: Seq<char>)
    ensures
        -1 <= first_id_index(ids, id) < ids.len(),
        first_id_index(ids, id) >= 0 ==> ids[first_id_index(ids, id)]@ == id,
        forall|i: int| 0 <= i < first_id_index(ids, id) ==> ids[i]@ != id,
        first_id_index(ids, id) == -1 ==> forall|i: int| 0 <= i < ids.len() ==> ids[i]@ != id,
    decreases ids.len(),
{
    if ids.len() > 0 {
        lemma_first_id_index(ids.drop_last(), id);
        assert forall|i: int| 0 <= i < ids.len() - 1 implies ids.drop_last()[i] == ids[i] by {}
    }
}

/// The position of the first ID with the same text as `id`.
fn id_position(ids: &Vec<ElementId>, id: &ElementId) -> (r: Option<usize>)
    ensures
        match r {
            Some(p) => p == first_id_index(ids@, id@) && p < ids@.len(),
            None => first_id_index(ids@, id@) == -1,
        },
{
    proof {
        lemma_first_id_index(ids@, id@);
    }
    let mut i: usize = 0;
    while i < ids.len()
        invariant
            i <= ids@.len(),
            forall|j: int| 0 <= j < i ==> ids@[j]@ != id@,
            -1 <= first_id_index(ids@, id@) < ids@.len(),
            first_id_index(ids@, id@) >= 0 ==> ids@[first_id_index(ids@, id@)]@ == id@,
            forall|j: int| 0 <= j < first_id_index(ids@, id@) ==> ids@[j]@ != id@,
            first_id_index(ids@, id@) == -1 ==> forall|j: int| 0 <= j < ids@.len() ==> ids@[j]@ != id@,
        decreases ids@.len() - i,
    {
        if ids[i].same_as(id) {
            proof {
                assert(first_id_index(ids@, id@) != -1);
                assert(first_id_index(ids@, id@) <= i);
            }
            return Some(i);
        }
        i = i + 1;
    }
    None
}

/// `after` is `before` with, in the children of the element stored under
/// `pid` (if any), the first ID with the text `cid` (if any) replaced by `m`.
pub open spec fn relinked(
    before: Seq<(ElementId, Element)>,
    after: Seq<(ElementId, Element)>,
    pid: Seq<char>,
    cid: Seq<char>,
    m: ElementId,
) -> bool {
    let i = find_key(before, pid);
    if i < 0 {
        after == before
    } else {
        let p = before[i].1;
        let j = first_id_index(p.owned_elements@, cid);
        if j < 0 {
            after == before
        } else {
            &&& after.len() == before.len()
            &&& forall|k: int| 0 <= k < before.len() && k != i ==> after[k] == before[k]
            &&& after[i].0 == before[i].0
            &&& after[i].1 == (Element { owned_elements: after[i].1.owned_elements, ..p })
            &&& after[i].1.owned_elements@ == p.owned_elements@.update(j, m)
        }
    }
}

/// The map with `v` stored under `k`: in place of an entry with the same
/// key text, otherwise added last.
pub open spec fn put_entry(entries: Seq<(ElementId, Element)>, k: ElementId, v: Element) -> Seq<(ElementId, Element)> {
    let i = find_key(entries, k@);
    if i >= 0 {
        entries.update(i, (entries[i].0, v))
    } else {
        entries.push((k, v))
    }
}

/// Storing an element under its ID, as `Model::add_element` does: looking
/// that ID up gives the element, every other ID gives what it gave
/// before, and the number of entries grows by one exactly when the ID was
/// new.
pub proof fn law_lookup_after_put(before: Seq<(ElementId, Element)>, e: Element, other: Seq<char>)
    ensures
        lookup(put_entry(before, e.id, e), e.id@) == Some(e),
        other != e.id@ ==> lookup(put_entry(before, e.id, e), other) == lookup(before, other),
        put_entry(before, e.id, e).len() == before.len() + (if lookup(before, e.id@) is Some {
            0int
        } else {
            1int
        }),
{
    let after = put_entry(before, e.id, e);
    lemma_find_key(before, e.id@);
    lemma_find_key(before, other);
    let i = find_key(before, e.id@);
    if i >= 0 {
        lemma_find_key_same_keys(before, after, e.id@);
        lemma_find_key_same_keys(before, after, other);
    } else {
        assert(after.drop_last() =~= before);
        lemma_find_key(after, e.id@);
        lemma_find_key(after, other);
        if find_key(before, other) >= 0 {
            assert(find_key(after, other) == find_key(before, other));
        }
    }
}

/// `m` is the membership made to wrap the target `t`.
pub open spec fn is_wrapper_for(m: Element, t: (ElementId, ElementKind, ElementId)) -> bool {
    &&& m.id@ == t.0@ + "-m"@
    &&& m.kind == ElementKind::spec_membership_kind_for(t.1)
    &&& m.owner == Some(t.2)
    &&& m.owned_elements@ == seq![t.0]
    &&& m.has_default_attributes()
}

/// One wrapping step: the child is re-owned by the membership, the parent's
/// child entry is relinked to the membership (giving `mid`), and the
/// membership is stored.
pub open spec fn wrap_step(
    before: Seq<(ElementId, Element)>,
    after: Seq<(ElementId, Element)>,
    t: (ElementId, ElementKind, ElementId),
    m: Element,
    mid: Seq<(ElementId, Element)>,
) -> bool {
    &&& is_wrapper_for(m, t)
    &&& relinked(set_owner_of(before, t.0@, m.id), mid, t.2@, t.0@, m.id)
    &&& after == put_entry(mid, m.id, m)
}

/// `states` are the maps from `e0` through each wrapping step of `ts`.
pub open spec fn wrap_trace(
    e0: Seq<(ElementId, Element)>,
    ts: Seq<(ElementId, ElementKind, ElementId)>,
    ms: Seq<Element>,
    mids: Seq<Seq<(ElementId, Element)>>,
    states: Seq<Seq<(ElementId, Element)>>,
) -> bool {
    &&& ms.len() == ts.len()
    &&& mids.len() == ts.len()
    &&& states.len() == ts.len() + 1
    &&& states[0] == e0
    &&& forall|k: int| 0 <= k < ts.len() ==> wrap_step(states[k], states[k + 1], ts[k], ms[k], mids[k])
}

impl Model {
    /// The entries of the element map, in insertion order.
    pub open spec fn entries(&self) -> Seq<(ElementId, Element)> {
        element_entries(self.elements)
    }

    /// The element stored under `id`, if any.
    pub open spec fn spec_get(&self, id: Seq<char>) -> Option<Element> {
        lookup(self.entries(), id)
    }

    /// All elements, in insertion order.
    pub open spec fn values(&self) -> Seq<Element> {
        entry_values(self.entries())
    }

    /// Create a new empty model.
    pub fn new() -> (r: Self)
        ensures
            r.entries().len() == 0,
            keys_distinct(r.entries()) && keys_are_ids(r.entries()),
            r.roots@.len() == 0,
            r.metadata.declared_namespaces@.len() == 0,
            r.metadata.name.is_none() && r.metadata.version.is_none() && r.metadata.description.is_none(),
            r.metadata.uri.is_none() && r.metadata.sysml_version.is_none() && r.metadata.tool.is_none(),
            r.metadata.created.is_none() && r.metadata.modified.is_none(),
    {
        Model { elements: element_map_new(), roots: Vec::new(), metadata: ModelMetadata::default() }
    }

    /// Add an element to the model, under its own ID: an element with that
    /// ID is replaced in place, otherwise the element is added last. An
    /// element without owner is also recorded as a root.
    pub fn add_element(&mut self, element: Element) -> (r: &ElementId)
        ensures
            r@ == element.id@,
            ({
                let i = find_key(old(self).entries(), element.id@);
                if i >= 0 {
                    final(self).entries() == old(self).entries().update(i, (old(self).entries()[i].0, element))
                } else {
                    final(self).entries() == old(self).entries().push((element.id, element))
                }
            }),
            final(self).roots@ == if element.owner.is_none() {
                old(self).roots@.push(element.id)
            } else {
                old(self).roots@
            },
            final(self).metadata == old(self).metadata,
            keys_distinct(final(self).entries()),
            keys_are_ids(old(self).entries()) ==> keys_are_ids(final(self).entries()),
    {
        let id = element.id.clone();
        if element.owner.is_none() {
            self.roots.push(id.clone());
        }
        let ghost before = self.entries();
        let _ = element_map_insert(&mut self.elements, id.clone(), element);
        proof {
            lemma_find_key(before, id@);
            let i = find_key(before, id@);
            if i >= 0 {
                lemma_find_key_same_keys(before, self.entries(), id@);
            } else {
                assert(self.entries().drop_last() =~= before);
                lemma_find_key(self.entries(), id@);
            }
            lemma_find_key(self.entries(), id@);
        }
        match element_map_get(&self.elements, &id) {
            Some(e) => &e.id,
            None => {
                proof {
                    assert(false);
                }
                &self.roots[0]
            },
        }
    }

    /// Add a relationship as an `Element` with `RelationshipData`, stored
    /// in the element map only (never recorded as a root): an element with
    /// that ID is replaced in place, otherwise it is added last.
    pub fn add_rel<I: IntoElementId, S: IntoElementId, T: IntoElementId>(
        &mut self,
        id: I,
        kind: ElementKind,
        source: S,
        target: T,
        owner: Option<ElementId>,
    ) -> (r: ElementId)
        ensures
            r@ == id.id_view(),
            ({
                let e = final(self).spec_get(id.id_view()).unwrap();
                &&& final(self).spec_get(id.id_view()).is_some()
                &&& e.id@ == id.id_view()
                &&& e.kind == kind
                &&& e.owner == owner
                &&& e.relationship.is_some()
                &&& id_views(e.relationship.unwrap().source@) == seq![source.id_view()]
                &&& id_views(e.relationship.unwrap().target@) == seq![target.id_view()]
                &&& (Element { relationship: None, owner: None, ..e }).is_fresh()
            }),
            ({
                let i = find_key(old(self).entries(), id.id_view());
                let e = final(self).spec_get(id.id_view()).unwrap();
                if i >= 0 {
                    final(self).entries() == old(self).entries().update(i, (old(self).entries()[i].0, e))
                } else {
                    final(self).entries().drop_last() == old(self).entries()
                        && final(self).entries().len() == old(self).entries().len() + 1
                        && final(self).entries().last().0@ == id.id_view()
                }
            }),
            final(self).roots == old(self).roots,
            final(self).metadata == old(self).metadata,
    {
        let id = id.into_element_id();
        let element = Element::new_relationship(id.clone(), kind, source, target).with_owner_opt(owner);
        let ghost before = self.entries();
        let ghost el = element;
        let _ = element_map_insert(&mut self.elements, id.clone(), element);
        proof {
            lemma_find_key(before, id@);
            let i = find_key(before, id@);
            if i >= 0 {
                lemma_find_key_same_keys(before, self.entries(), id@);
            } else {
                assert(self.entries().drop_last() =~= before);
            }
            lemma_find_key(self.entries(), id@);
        }
        id
    }

    /// Get an element by ID.
    pub fn get(&self, id: &ElementId) -> (r: Option<&Element>)
        ensures
            match self.spec_get(id@) {
                Some(e) => r == Some(&e),
                None => r.is_none(),
            },
    {
        element_map_get(&self.elements, id)
    }

    /// Get a mutable element by ID; the element keeps its place.
    pub fn get_mut(&mut self, id: &ElementId) -> (r: Option<&mut Element>)
        ensures
            ({
                let i = find_key(old(self).entries(), id@);
                if i >= 0 {
                    &&& r.is_some()
                    &&& *r.unwrap() == old(self).entries()[i].1
                    &&& final(self).entries() == old(self).entries().update(i, (old(self).entries()[i].0, *final(r.unwrap())))
                } else {
                    &&& r.is_none()
                    &&& final(self).entries() == old(self).entries()
                }
            }),
            final(self).roots == old(self).roots,
            final(self).metadata == old(self).metadata,
            keys_distinct(final(self).entries()),
    {
        element_map_get_mut(&mut self.elements, id)
    }

    /// Get the number of elements.
    pub fn element_count(&self) -> (r: usize)
        ensures
            r == self.entries().len(),
    {
        element_map_len(&self.elements)
    }

    /// All elements, in insertion order.
    pub fn iter_elements(&self) -> (r: Vec<&Element>)
        ensures
            derefs(r@) == self.values(),
    {
        let n = element_map_len(&self.elements);
        let mut r: Vec<&Element> = Vec::new();
        let mut i: usize = 0;
        while i < n
            invariant
                n == self.entries().len(),
                i <= n,
                derefs(r@) == self.values().take(i as int),
            decreases n - i,
        {
            let (_, e) = element_map_get_index(&self.elements, i).unwrap();
            proof {
                lemma_push_ref(r@, e);
                assert(self.values().take(i + 1) =~= self.values().take(i as int).push(*e));
            }
            r.push(e);
            i = i + 1;
        }
        proof {
            assert(self.values().take(n as int) =~= self.values());
        }
        r
    }

    /// The elements of the root IDs that are in the model, in root order.
    pub open spec fn spec_roots(&self) -> Seq<Element> {
        root_elements(self.entries(), self.roots@)
    }

    /// Iterate over root elements: the root IDs' elements, skipping IDs
    /// that are not in the model.
    pub fn iter_roots(&self) -> (r: Vec<&Element>)
        ensures
            derefs(r@) == self.spec_roots(),
    {
        let mut r: Vec<&Element> = Vec::new();
        let mut i: usize = 0;
        while i < self.roots.len()
            invariant
                i <= self.roots@.len(),
                derefs(r@) == root_elements(self.entries(), self.roots@.take(i as int)),
            decreases self.roots@.len() - i,
        {
            proof {
                assert(self.roots@.take(i + 1).drop_last() =~= self.roots@.take(i as int));
            }
            match element_map_get(&self.elements, &self.roots[i]) {
                Some(e) => {
                    proof {
                        lemma_push_ref(r@, e);
                    }
                    r.push(e);
                },
                None => {},
            }
            i = i + 1;
        }
        proof {
            assert(self.roots@.take(self.roots@.len() as int) =~= self.roots@);
        }
        r
    }

    /// Get relationship elements where the given element is a source.
    pub fn rel_elements_from(&self, source: &ElementId) -> (r: Vec<&Element>)
        ensures
            derefs(r@) == select(self.values(), |e: Element| is_rel_from(e, source@)),
    {
        let n = element_map_len(&self.elements);
        let mut r: Vec<&Element> = Vec::new();
        let mut i: usize = 0;
        while i < n
            invariant
                n == self.entries().len(),
                i <= n,
                derefs(r@) == select(self.values().take(i as int), |e: Element| is_rel_from(e, source@)),
            decreases n - i,
        {
            let (_, e) = element_map_get_index(&self.elements, i).unwrap();
            proof {
                lemma_select_step(self.values(), |e: Element| is_rel_from(e, source@), i as int);
                assert(self.values()[i as int] == *e);
            }
            if match &e.relationship { Some(rd) => contains_id(&rd.source, source), None => false } {
                proof {
                    lemma_push_ref(r@, e);
                }
                r.push(e);
            }
            i = i + 1;
        }
        proof {
            assert(self.values().take(n as int) =~= self.values());
        }
        r
    }

    /// Get relationship elements where the given element is a target.
    pub fn rel_elements_to(&self, target: &ElementId) -> (r: Vec<&Element>)
        ensures
            derefs(r@) == select(self.values(), |e: Element| is_rel_to(e, target@)),
    {
        let n = element_map_len(&self.elements);
        let mut r: Vec<&Element> = Vec::new();
        let mut i: usize = 0;
        while i < n
            invariant
                n == self.entries().len(),
                i <= n,
                derefs(r@) == select(self.values().take(i as int), |e: Element| is_rel_to(e, target@)),
            decreases n - i,
        {
            let (_, e) = element_map_get_index(&self.elements, i).unwrap();
            proof {
                lemma_select_step(self.values(), |e: Element| is_rel_to(e, target@), i as int);
                assert(self.values()[i as int] == *e);
            }
            if match &e.relationship { Some(rd) => contains_id(&rd.target, target), None => false } {
                proof {
                    lemma_push_ref(r@, e);
                }
                r.push(e);
            }
            i = i + 1;
        }
        proof {
            assert(self.values().take(n as int) =~= self.values());
        }
        r
    }

    /// Get relationship elements of a specific kind from a source.
    pub fn rel_elements_of_kind(&self, source: &ElementId, kind: ElementKind) -> (r: Vec<&Element>)
        ensures
            derefs(r@) == select(self.values(), |e: Element| is_rel_from(e, source@) && e.kind == kind),
    {
        let n = element_map_len(&self.elements);
        let mut r: Vec<&Element> = Vec::new();
        let mut i: usize = 0;
        while i < n
            invariant
                n == self.entries().len(),
                i <= n,
                derefs(r@) == select(self.values().take(i as int), |e: Element| is_rel_from(e, source@) && e.kind == kind),
            decreases n - i,
        {
            let (_, e) = element_map_get_index(&self.elements, i).unwrap();
            proof {
                lemma_select_step(self.values(), |e: Element| is_rel_from(e, source@) && e.kind == kind, i as int);
                assert(self.values()[i as int] == *e);
            }
            if (match &e.relationship { Some(rd) => contains_id(&rd.source, source), None => false }) && e.kind == kind {
                proof {
                    lemma_push_ref(r@, e);
                }
                r.push(e);
            }
            i = i + 1;
        }
        proof {
            assert(self.values().take(n as int) =~= self.values());
        }
        r
    }

    /// Get relationship elements of the given kind owned by a given element.
    pub fn rel_elements_owned_by(&self, owner_id: &ElementId, kind: ElementKind) -> (r: Vec<&Element>)
        ensures
            derefs(r@) == select(self.values(), |e: Element| e.kind == kind && e.relationship.is_some() && e.owner.is_some() && e.owner.unwrap()@ == owner_id@),
    {
        let n = element_map_len(&self.elements);
        let mut r: Vec<&Element> = Vec::new();
        let mut i: usize = 0;
        while i < n
            invariant
                n == self.entries().len(),
                i <= n,
                derefs(r@) == select(self.values().take(i as int), |e: Element| e.kind == kind && e.relationship.is_some() && e.owner.is_some() && e.owner.unwrap()@ == owner_id@),
            decreases n - i,
        {
            let (_, e) = element_map_get_index(&self.elements, i).unwrap();
            proof {
                lemma_select_step(self.values(), |e: Element| e.kind == kind && e.relationship.is_some() && e.owner.is_some() && e.owner.unwrap()@ == owner_id@, i as int);
                assert(self.values()[i as int] == *e);
            }
            if e.kind == kind && e.relationship.is_some() && match &e.owner { Some(o) => o.same_as(owner_id), None => false } {
                proof {
                    lemma_push_ref(r@, e);
                }
                r.push(e);
            }
            i = i + 1;
        }
        proof {
            assert(self.values().take(n as int) =~= self.values());
        }
        r
    }

    /// Iterate over all relationship elements.
    pub fn iter_relationship_elements(&self) -> (r: Vec<&Element>)
        ensures
            derefs(r@) == select(self.values(), |e: Element| e.relationship.is_some()),
    {
        let n = element_map_len(&self.elements);
        let mut r: Vec<&Element> = Vec::new();
        let mut i: usize = 0;
        while i < n
            invariant
                n == self.entries().len(),
                i <= n,
                derefs(r@) == select(self.values().take(i as int), |e: Element| e.relationship.is_some()),
            decreases n - i,
        {
            let (_, e) = element_map_get_index(&self.elements, i).unwrap();
            proof {
                lemma_select_step(self.values(), |e: Element| e.relationship.is_some(), i as int);
                assert(self.values()[i as int] == *e);
            }
            if e.relationship.is_some() {
                proof {
                    lemma_push_ref(r@, e);
                }
                r.push(e);
            }
            i = i + 1;
        }
        proof {
            assert(self.values().take(n as int) =~= self.values());
        }
        r
    }

    /// Get the number of relationships (counts relationship elements).
    pub fn relationship_count(&self) -> (r: usize)
        ensures
            r == select(self.values(), |e: Element| e.relationship.is_some()).len(),
    {
        self.iter_relationship_elements().len()
    }

    /// Resolve the first target element of a relationship element.
    pub fn rel_target<'a>(&'a self, rel_element: &'a Element) -> (r: Option<&'a Element>)
        ensures
            match rel_element.spec_target() {
                Some(tid) => match self.spec_get(tid@) {
                    Some(t) => r == Some(&t),
                    None => r.is_none(),
                },
                None => r.is_none(),
            },
    {
        match rel_element.target() {
            Some(tid) => self.get(tid),
            None => None,
        }
    }

    /// Get the "content" children of an element, looking through Membership
    /// wrappers: a membership child contributes its non-relationship
    /// children, any other non-relationship child contributes itself, and
    /// IDs that are not in the model are skipped.
    pub fn owned_members(&self, id: &ElementId) -> (r: Vec<&Element>)
        ensures
            derefs(r@) == match self.spec_get(id@) {
                Some(e) => member_contents(self.entries(), e.owned_elements@),
                None => Seq::empty(),
            },
    {
        let element = match self.get(id) {
            Some(e) => e,
            None => return Vec::new(),
        };
        let mut result: Vec<&Element> = Vec::new();
        let mut i: usize = 0;
        while i < element.owned_elements.len()
            invariant
                i <= element.owned_elements@.len(),
                derefs(result@) == member_contents(self.entries(), element.owned_elements@.take(i as int)),
            decreases element.owned_elements@.len() - i,
        {
            proof {
                assert(element.owned_elements@.take(i + 1).drop_last() =~= element.owned_elements@.take(i as int));
            }
            let ghost before = derefs(result@);
            if let Some(child) = self.get(&element.owned_elements[i]) {
                if child.kind.is_membership() {
                    let mut j: usize = 0;
                    while j < child.owned_elements.len()
                        invariant
                            j <= child.owned_elements@.len(),
                            derefs(result@) == before + non_relationship_children(self.entries(), child.owned_elements@.take(j as int)),
                        decreases child.owned_elements@.len() - j,
                    {
                        proof {
                            assert(child.owned_elements@.take(j + 1).drop_last() =~= child.owned_elements@.take(j as int));
                        }
                        if let Some(gc) = self.get(&child.owned_elements[j]) {
                            if !gc.kind.is_relationship() {
                                proof {
                                    lemma_push_ref(result@, gc);
                                    assert(before + non_relationship_children(self.entries(), child.owned_elements@.take(j as int)).push(*gc)
                                        =~= (before + non_relationship_children(self.entries(), child.owned_elements@.take(j as int))).push(*gc));
                                }
                                result.push(gc);
                            }
                        }
                        j = j + 1;
                    }
                    proof {
                        assert(child.owned_elements@.take(child.owned_elements@.len() as int) =~= child.owned_elements@);
                    }
                } else if !child.kind.is_relationship() {
                    proof {
                        lemma_push_ref(result@, child);
                        assert(before.push(*child) =~= before + seq![*child]);
                    }
                    result.push(child);
                }
            }
            proof {
                if self.spec_get(element.owned_elements@[i as int]@).is_none() {
                    assert(before + Seq::<Element>::empty() =~= before);
                } else if !self.spec_get(element.owned_elements@[i as int]@).unwrap().kind.spec_is_membership()
                    && self.spec_get(element.owned_elements@[i as int]@).unwrap().kind.spec_is_relationship() {
                    assert(before + Seq::<Element>::empty() =~= before);
                }
            }
            i = i + 1;
        }
        proof {
            assert(element.owned_elements@.take(element.owned_elements@.len() as int) =~= element.owned_elements@);
        }
        result
    }

    /// Set the owner of the element stored under `cid` (if any) to `owner`.
    fn set_owner_in_map(&mut self, cid: &ElementId, owner: &ElementId)
        ensures
            final(self).entries() == set_owner_of(old(self).entries(), cid@, *owner),
            final(self).roots == old(self).roots,
            final(self).metadata == old(self).metadata,
    {
        let ghost before = self.entries();
        match self.get_mut(cid) {
            Some(child) => {
                child.owner = Some(owner.clone());
            },
            None => {},
        }
        proof {
            assert(self.entries() =~= set_owner_of(before, cid@, *owner));
        }
    }

    /// In the children of the element stored under `pid` (if any), replace
    /// the first ID with the text of `cid` (if any) by `m`.
    fn relink_in_map(&mut self, pid: &ElementId, cid: &ElementId, m: &ElementId)
        ensures
            relinked(old(self).entries(), final(self).entries(), pid@, cid@, *m),
            final(self).roots == old(self).roots,
            final(self).metadata == old(self).metadata,
    {
        let ghost before = self.entries();
        let pos_opt = match self.get(pid) {
            Some(p) => id_position(&p.owned_elements, cid),
            None => None,
        };
        match pos_opt {
            Some(pos) => {
                proof {
                    lemma_find_key(before, pid@);
                }
                match self.get_mut(pid) {
                    Some(parent) => {
                        let ghost p0 = *parent;
                        parent.owned_elements.set(pos, m.clone());
                        proof {
                            assert(parent.owned_elements@ == p0.owned_elements@.update(pos as int, *m));
                        }
                    },
                    None => {},
                }
            },
            None => {},
        }
    }

    /// Wrap every element that has an owner, is neither a relationship nor
    /// a membership, and whose owner is in the model and is neither a
    /// membership nor a relationship, in an `OwningMembership` (or a
    /// `FeatureMembership` for Feature kinds) with ID `<child>-m`: the
    /// membership is owned by the parent and owns the child, the child is
    /// re-owned by the membership, and in the parent's children the first
    /// entry of the child is replaced by the membership.
    ///
    /// The elements to wrap are chosen from the model as it is on entry, in
    /// element order; each is then wrapped in turn.
    pub fn wrap_children_in_memberships(&mut self)
        ensures
            exists|ms: Seq<Element>, mids: Seq<Seq<(ElementId, Element)>>, states: Seq<Seq<(ElementId, Element)>>|
                wrap_trace(old(self).entries(), wrap_targets(old(self).entries()), ms, mids, states)
                && states.last() == final(self).entries(),
            final(self).roots == old(self).roots,
            final(self).metadata == old(self).metadata,
    {
        let ghost e0 = self.entries();
        let n = element_map_len(&self.elements);
        let mut to_wrap: Vec<(ElementId, ElementKind, ElementId)> = Vec::new();
        let mut i: usize = 0;
        while i < n
            invariant
                e0 == self.entries(),
                n == e0.len(),
                i <= n,
                to_wrap@ == targets_of(e0, entry_values(e0).take(i as int)),
            decreases n - i,
        {
            let (_, e) = element_map_get_index(&self.elements, i).unwrap();
            proof {
                assert(entry_values(e0).take(i + 1).drop_last() =~= entry_values(e0).take(i as int));
                assert(entry_values(e0)[i as int] == *e);
            }
            if let Some(owner_id) = &e.owner {
                if !e.kind.is_relationship() && !e.kind.is_membership() {
                    if let Some(owner) = self.get(owner_id) {
                        if !owner.kind.is_membership() && !owner.kind.is_relationship() {
                            to_wrap.push((e.id.clone(), e.kind, owner_id.clone()));
                        }
                    }
                }
            }
            i = i + 1;
        }
        proof {
            assert(entry_values(e0).take(n as int) =~= entry_values(e0));
        }
        let ghost ts = to_wrap@;
        let ghost mut ms: Seq<Element> = Seq::empty();
        let ghost mut mids: Seq<Seq<(ElementId, Element)>> = Seq::empty();
        let ghost mut states: Seq<Seq<(ElementId, Element)>> = seq![e0];
        let mut k: usize = 0;
        while k < to_wrap.len()
            invariant
                ts == to_wrap@,
                ts == wrap_targets(e0),
                k <= ts.len(),
                ms.len() == k,
                mids.len() == k,
                states.len() == k + 1,
                wrap_trace(e0, ts.take(k as int), ms, mids, states),
                states.last() == self.entries(),
                self.roots == old(self).roots,
                self.metadata == old(self).metadata,
            decreases ts.len() - k,
        {
            let child_id = to_wrap[k].0.clone();
            let child_kind = to_wrap[k].1;
            let parent_id = to_wrap[k].2.clone();
            let m_kind = ElementKind::membership_kind_for(child_kind);
            let m_id = ElementId(child_id.0.clone().concat("-m"));
            let mut membership = Element::new(m_id.clone(), m_kind);
            membership.owner = Some(parent_id.clone());
            membership.owned_elements.push(child_id.clone());
            let mref = membership.id.clone();
            let ghost e_start = self.entries();
            self.set_owner_in_map(&child_id, &mref);
            let ghost mid1 = self.entries();
            self.relink_in_map(&parent_id, &child_id, &mref);
            let ghost mid2 = self.entries();
            let ghost mem = membership;
            let key = membership.id.clone();
            let _ = element_map_insert(&mut self.elements, key, membership);
            proof {
                assert(self.entries() == put_entry(mid2, mem.id, mem));
                assert(mem.owned_elements@ =~= seq![ts[k as int].0]);
                assert(mem.id@ == ts[k as int].0@ + "-m"@);
                assert(mem.kind == ElementKind::spec_membership_kind_for(ts[k as int].1));
                assert(mem.owner == Some(ts[k as int].2));
                assert(mem.has_default_attributes());
                assert(is_wrapper_for(mem, ts[k as int]));
                assert(wrap_step(e_start, self.entries(), ts[k as int], mem, mid2));
                let ms2 = ms.push(mem);
                let mids2 = mids.push(mid2);
                let states2 = states.push(self.entries());
                assert(ts.take(k + 1).drop_last() =~= ts.take(k as int));
                assert forall|j: int| 0 <= j < k + 1 implies wrap_step(states2[j], states2[j + 1], ts.take(k + 1)[j], ms2[j], mids2[j]) by {
                    if j < k {
                        assert(wrap_step(states[j], states[j + 1], ts.take(k as int)[j], ms[j], mids[j]));
                    }
                }
                ms = ms2;
                mids = mids2;
                states = states2;
            }
            k = k + 1;
        }
        proof {
            assert(ts.take(ts.len() as int) =~= ts);
        }
    }
}

} // verus!
