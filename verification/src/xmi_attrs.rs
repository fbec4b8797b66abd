//! What the XMI writer writes for each element: its attributes, and the
//! XML events of the document.

use vstd::prelude::*;

use crate::model::{Element, PropertyValue};
use crate::ordered_map::{find_key, property_entries, property_map_get, property_map_get_index, property_map_len};
use crate::strings::str_eq;

verus! {

/// The value of an XML attribute.
#[derive(Debug, PartialEq)]
pub enum AttrValue {
    /// Text that the serializer escapes.
    Text(String),
    /// Text that is already escaped and is written as it is.
    Escaped(String),
    /// A floating-point number, by its IEEE-754 bits, written in Rust's
    /// shortest decimal form.
    Real(u64),
}

/// An attribute of an XML element.
#[derive(Debug, PartialEq)]
pub struct XmlAttribute {
    pub key: String,
    pub value: AttrValue,
}

/// An attribute value with its text taken by its characters.
pub enum AttrView {
    Text(Seq<char>),
    Escaped(Seq<char>),
    Real(u64),
}

/// The view of an attribute value.
pub open spec fn attr_value_view(v: AttrValue) -> AttrView {
    match v {
        AttrValue::Text(s) => AttrView::Text(s@),
        AttrValue::Escaped(s) => AttrView::Escaped(s@),
        AttrValue::Real(x) => AttrView::Real(x),
    }
}

/// The views of a list of attributes.
pub open spec fn attrs_view(a: Seq<XmlAttribute>) -> Seq<(Seq<char>, AttrView)> {
    a.map_values(|x: XmlAttribute| (x.key@, attr_value_view(x.value)))
}

/// Add the attribute `key = value` (text to be escaped).
fn push_text(attrs: &mut Vec<XmlAttribute>, key: &str, value: &str)
    ensures
        attrs_view(final(attrs)@) == attrs_view(old(attrs)@).push((key@, AttrView::Text(value@))),
{
    attrs.push(XmlAttribute { key: String::from_str(key), value: AttrValue::Text(String::from_str(value)) });
    assert(attrs_view(attrs@) =~= attrs_view(old(attrs)@).push((key@, AttrView::Text(value@))));
}

/// Add the attribute `key = value` with a value that is already escaped.
fn push_escaped(attrs: &mut Vec<XmlAttribute>, key: &str, value: String)
    ensures
        attrs_view(final(attrs)@) == attrs_view(old(attrs)@).push((key@, AttrView::Escaped(value@))),
{
    let ghost v = value@;
    attrs.push(XmlAttribute { key: String::from_str(key), value: AttrValue::Escaped(value) });
    assert(attrs_view(attrs@) =~= attrs_view(old(attrs)@).push((key@, AttrView::Escaped(v))));
}

/// Add the attribute `key = value` for a floating-point value.
fn push_real(attrs: &mut Vec<XmlAttribute>, key: &str, value: u64)
    ensures
        attrs_view(final(attrs)@) == attrs_view(old(attrs)@).push((key@, AttrView::Real(value))),
{
    attrs.push(XmlAttribute { key: String::from_str(key), value: AttrValue::Real(value) });
    assert(attrs_view(attrs@) =~= attrs_view(old(attrs)@).push((key@, AttrView::Real(value))));
}

/// The text of a boolean attribute.
pub open spec fn bool_text(b: bool) -> Seq<char> {
    if b { "true"@ } else { "false"@ }
}

/// The text of a boolean attribute.
fn bool_str(b: bool) -> (r: &'static str)
    ensures
        r@ == bool_text(b),
{
    if b { "true" } else { "false" }
}

/// The property stored under `k`, if any.
pub open spec fn prop_get(entries: Seq<(String, PropertyValue)>, k: Seq<char>) -> Option<PropertyValue> {
    let i = find_key(entries, k);
    if i >= 0 { Some(entries[i].1) } else { None }
}

/// Whether `s` starts with `p`.
pub open spec fn has_prefix(s: Seq<char>, p: Seq<char>) -> bool {
    p.len() <= s.len() && s.subrange(0, p.len() as int) == p
}

/// `s` starts with `p`.
pub(crate) fn starts_with(s: &str, p: &str) -> (r: bool)
    ensures
        r == has_prefix(s@, p@),
{
    let n = s.unicode_len();
    let m = p.unicode_len();
    if m > n {
        return false;
    }
    let mut i: usize = 0;
    while i < m
        invariant
            m == p@.len(),
            n == s@.len(),
            m <= n,
            i <= m,
            forall|j: int| 0 <= j < i ==> s@[j] == p@[j],
        decreases m - i,
    {
        if s.get_char(i) != p.get_char(i) {
            assert(s@.subrange(0, m as int)[i as int] != p@[i as int]);
            return false;
        }
        i = i + 1;
    }
    assert(s@.subrange(0, m as int) =~= p@);
    true
}

/// Whether `k` names a relationship source endpoint attribute.
pub open spec fn is_source_alias(k: Seq<char>) -> bool {
    k == "source"@
        || k == "relatedElement"@
        || k == "subclassifier"@
        || k == "typedFeature"@
        || k == "redefiningFeature"@
        || k == "subsettingFeature"@
        || k == "typeDisjoined"@
}

/// `k` names a relationship source endpoint attribute.
pub(crate) fn source_alias(k: &str) -> (r: bool)
    ensures
        r == is_source_alias(k@),
{
    str_eq(k, "source")
        || str_eq(k, "relatedElement")
        || str_eq(k, "subclassifier")
        || str_eq(k, "typedFeature")
        || str_eq(k, "redefiningFeature")
        || str_eq(k, "subsettingFeature")
        || str_eq(k, "typeDisjoined")
}

/// Whether `k` names a relationship target endpoint attribute.
pub open spec fn is_target_alias(k: Seq<char>) -> bool {
    k == "target"@
        || k == "superclassifier"@
        || k == "redefinedFeature"@
        || k == "subsettedFeature"@
        || k == "general"@
        || k == "specific"@
        || k == "type"@
        || k == "chainingFeature"@
        || k == "importedMembership"@
        || k == "importedNamespace"@
        || k == "disjoiningType"@
        || k == "originalType"@
        || k == "memberElement"@
        || k == "referencedFeature"@
}

/// `k` names a relationship target endpoint attribute.
pub(crate) fn target_alias(k: &str) -> (r: bool)
    ensures
        r == is_target_alias(k@),
{
    str_eq(k, "target")
        || str_eq(k, "superclassifier")
        || str_eq(k, "redefinedFeature")
        || str_eq(k, "subsettedFeature")
        || str_eq(k, "general")
        || str_eq(k, "specific")
        || str_eq(k, "type")
        || str_eq(k, "chainingFeature")
        || str_eq(k, "importedMembership")
        || str_eq(k, "importedNamespace")
        || str_eq(k, "disjoiningType")
        || str_eq(k, "originalType")
        || str_eq(k, "memberElement")
        || str_eq(k, "referencedFeature")
}

/// Whether property `k` is written elsewhere (the flags and `href`) or never.
pub open spec fn is_skipped_property(k: Seq<char>) -> bool {
    k == "isAbstract"@
        || k == "isVariation"@
        || k == "isDerived"@
        || k == "isReadOnly"@
        || k == "isParallel"@
        || k == "isIndividual"@
        || k == "isEnd"@
        || k == "isDefault"@
        || k == "isOrdered"@
        || k == "isNonunique"@
        || k == "isPortion"@
        || k == "isStandard"@
        || k == "isComposite"@
        || k == "isUnique"@
        || k == "href"@
        || k == "href_target_name"@
}

/// Property `k` is written elsewhere or never.
fn skipped_property(k: &str) -> (r: bool)
    ensures
        r == is_skipped_property(k@),
{
    str_eq(k, "isAbstract")
        || str_eq(k, "isVariation")
        || str_eq(k, "isDerived")
        || str_eq(k, "isReadOnly")
        || str_eq(k, "isParallel")
        || str_eq(k, "isIndividual")
        || str_eq(k, "isEnd")
        || str_eq(k, "isDefault")
        || str_eq(k, "isOrdered")
        || str_eq(k, "isNonunique")
        || str_eq(k, "isPortion")
        || str_eq(k, "isStandard")
        || str_eq(k, "isComposite")
        || str_eq(k, "isUnique")
        || str_eq(k, "href")
        || str_eq(k, "href_target_name")
}

/// Whether a property key marks endpoints that XMI carries structurally.
pub open spec fn is_structural_key(k: Seq<char>) -> bool {
    k == "href_target_name"@ || has_prefix(k, "_"@) || is_source_alias(k) || is_target_alias(k)
}

/// Whether a relationship element carries its endpoints structurally:
/// owned children, or a property that marks them.
pub open spec fn endpoints_are_structural(e: Element) -> bool {
    e.owned_elements@.len() > 0 || exists|i: int|
        0 <= i < property_entries(e.properties).len() && is_structural_key(
            #[trigger] property_entries(e.properties)[i].0@,
        )
}

/// `e` carries its endpoints structurally.
fn structural_endpoints(e: &Element) -> (r: bool)
    ensures
        r == endpoints_are_structural(*e),
{
    if e.owned_elements.len() > 0 {
        return true;
    }
    let n = property_map_len(&e.properties);
    let mut i: usize = 0;
    while i < n
        invariant
            n == property_entries(e.properties).len(),
            i <= n,
            forall|j: int| 0 <= j < i ==> !is_structural_key(#[trigger] property_entries(e.properties)[j].0@),
        decreases n - i,
    {
        let (k, _) = property_map_get_index(&e.properties, i).unwrap();
        let ks = k.as_str();
        if str_eq(ks, "href_target_name") || starts_with(ks, "_") || source_alias(ks) || target_alias(ks) {
            return true;
        }
        i = i + 1;
    }
    false
}

/// Whether element names are written as SysML `declaredName`s: the stored
/// XMI type it was read with says `sysml:`, or, without one, the kind is SysML.
pub open spec fn uses_sysml_naming(e: Element) -> bool {
    match prop_get(property_entries(e.properties), "_xsi_type"@) {
        Some(PropertyValue::String(t)) => has_prefix(t@, "sysml:"@),
        _ => e.kind.spec_is_sysml(),
    }
}

/// The escaped form of one character of documentation.
pub open spec fn escape_char(c: char) -> Seq<char> {
    if c == '&' {
        "&amp;"@
    } else if c == '<' {
        "&lt;"@
    } else if c == '>' {
        "&gt;"@
    } else if c == '"' {
        "&quot;"@
    } else if c == '\n' {
        "&#xA;"@
    } else {
        seq![c]
    }
}

/// Documentation text escaped for an XML attribute: `&`, `<`, `>`, `"` and
/// line breaks as entities.
pub open spec fn escape_text(s: Seq<char>) -> Seq<char>
    decreases s.len(),
{
    if s.len() == 0 {
        Seq::empty()
    } else {
        escape_text(s.drop_last()) + escape_char(s.last())
    }
}

/// `s` escaped for an XML attribute.
pub fn escape_attribute_text(s: &str) -> (r: String)
    ensures
        r@ == escape_text(s@),
{
    proof {
        reveal_strlit("&amp;");
        reveal_strlit("&lt;");
        reveal_strlit("&gt;");
        reveal_strlit("&quot;");
        reveal_strlit("&#xA;");
    }
    let cs = crate::strings::chars_of(s);
    let mut out = String::new();
    let mut i: usize = 0;
    while i < cs.len()
        invariant
            cs@ == s@,
            i <= cs@.len(),
            out@ == escape_text(cs@.take(i as int)),
        decreases cs.len() - i,
    {
        let c = cs[i];
        proof {
            assert(cs@.take(i + 1).drop_last() =~= cs@.take(i as int));
            assert(cs@.take(i + 1).last() == c);
        }
        if c == '&' {
            out.append("&amp;");
        } else if c == '<' {
            out.append("&lt;");
        } else if c == '>' {
            out.append("&gt;");
        } else if c == '"' {
            out.append("&quot;");
        } else if c == '\n' {
            out.append("&#xA;");
        } else {
            crate::model::push_char(&mut out, c);
        }
        i = i + 1;
    }
    assert(cs@.take(cs@.len() as int) =~= cs@);
    out
}

/// The decimal digits of `n`.
pub open spec fn decimal_digits(n: nat) -> Seq<char>
    decreases n,
{
    if n < 10 {
        seq![(('0' as int) + n) as char]
    } else {
        decimal_digits(n / 10).push((('0' as int) + n % 10) as char)
    }
}

/// The decimal text of `v`, as `i64::to_string` writes it.
pub open spec fn decimal_text(v: int) -> Seq<char> {
    if v < 0 {
        seq!['-'] + decimal_digits((-v) as nat)
    } else {
        decimal_digits(v as nat)
    }
}

/// The decimal text of `v`.
pub fn decimal_string(v: i64) -> (r: String)
    ensures
        r@ == decimal_text(v as int),
{
    let neg = v < 0;
    let mut n: u64 = if neg {
        if v == i64::MIN {
            9223372036854775808u64
        } else {
            (-v) as u64
        }
    } else {
        v as u64
    };
    let ghost total = n as nat;
    let mut digits: Vec<char> = Vec::new();
    assert(total == (if v < 0 { -(v as int) } else { v as int }));
    loop
        invariant_except_break
            decimal_digits(total) == decimal_digits(n as nat) + digits@,
        invariant
            total == (if v < 0 { -(v as int) } else { v as int }),
            neg == (v < 0),
        ensures
            decimal_digits(total) == digits@,
        decreases n,
    {
        let d = n % 10;
        let c = crate::model::char_from_code(48 + d as u32);
        proof {
            assert(decimal_digits(n as nat) == (if n < 10 { seq![c] } else { decimal_digits((n / 10) as nat).push(c) }));
        }
        if n < 10 {
            let ghost old_digits = digits@;
            digits.insert(0, c);
            assert(decimal_digits(total) =~= digits@);
            break;
        }
        let ghost old_digits = digits@;
        digits.insert(0, c);
        proof {
            assert(decimal_digits(total) =~= decimal_digits((n / 10) as nat) + digits@);
        }
        n = n / 10;
    }
    let mut out = String::new();
    if neg {
        crate::model::push_char(&mut out, '-');
    }
    let ghost prefix = out@;
    let mut i: usize = 0;
    while i < digits.len()
        invariant
            i <= digits@.len(),
            out@ == prefix + digits@.take(i as int),
        decreases digits.len() - i,
    {
        crate::model::push_char(&mut out, digits[i]);
        proof {
            assert(digits@.take(i + 1) =~= digits@.take(i as int).push(digits@[i as int]));
        }
        i = i + 1;
    }
    assert(digits@.take(digits@.len() as int) =~= digits@);
    assert(out@ =~= decimal_text(v as int));
    out
}

/// The attributes `a` followed by flag `k` when it is stored as a boolean.
pub open spec fn flag_attr(a: Seq<(Seq<char>, AttrView)>, props: Seq<(String, PropertyValue)>, k: Seq<char>) -> Seq<(Seq<char>, AttrView)> {
    match prop_get(props, k) {
        Some(PropertyValue::Boolean(b)) => a.push((k, AttrView::Text(bool_text(b)))),
        _ => a,
    }
}

/// The attributes `a` followed by the stored boolean flags, in the
/// writer's order.
pub open spec fn flag_attrs(a: Seq<(Seq<char>, AttrView)>, props: Seq<(String, PropertyValue)>) -> Seq<(Seq<char>, AttrView)> {
    flag_attr(flag_attr(flag_attr(flag_attr(flag_attr(flag_attr(flag_attr(flag_attr(flag_attr(flag_attr(flag_attr(flag_attr(flag_attr(flag_attr(a, props, "isAbstract"@), props, "isVariation"@), props, "isDerived"@), props, "isReadOnly"@), props, "isParallel"@), props, "isIndividual"@), props, "isEnd"@), props, "isDefault"@), props, "isNonunique"@), props, "isPortion"@), props, "isUnique"@), props, "isOrdered"@), props, "isComposite"@), props, "isStandard"@)
}

/// The attribute a property becomes: text for strings, integers, booleans
/// and references, the number for reals; lists give none.
pub open spec fn property_attr(v: PropertyValue) -> Option<AttrView> {
    match v {
        PropertyValue::String(s) => Some(AttrView::Text(s@)),
        PropertyValue::Integer(i) => Some(AttrView::Text(decimal_text(i as int))),
        PropertyValue::Real(x) => Some(AttrView::Real(x)),
        PropertyValue::Boolean(b) => Some(AttrView::Text(bool_text(b))),
        PropertyValue::Reference(id) => Some(AttrView::Text(id@)),
        PropertyValue::List(_) => None,
    }
}

/// The attributes `a` followed by the properties of `props` that are not
/// written elsewhere and not internal (`_`-prefixed), in order.
pub open spec fn other_attrs(a: Seq<(Seq<char>, AttrView)>, props: Seq<(String, PropertyValue)>) -> Seq<(Seq<char>, AttrView)>
    decreases props.len(),
{
    if props.len() == 0 {
        a
    } else {
        let b = other_attrs(a, props.drop_last());
        let (k, v) = props.last();
        if is_skipped_property(k@) || has_prefix(k@, "_"@) {
            b
        } else {
            match property_attr(v) {
                Some(x) => b.push((k@, x)),
                None => b,
            }
        }
    }
}

/// The attributes `a` followed by the ID and name attributes of `e`.
pub open spec fn head_attrs(a: Seq<(Seq<char>, AttrView)>, e: Element) -> Seq<(Seq<char>, AttrView)> {
    let a0 = a.push(("xmi:id"@, AttrView::Text(e.id@))).push(("elementId"@, AttrView::Text(e.id@)));
    let sys = uses_sysml_naming(e);
    let a1 = match e.name {
        Some(n) => a0.push((if sys { "declaredName"@ } else { "name"@ }, AttrView::Text(n@))),
        None => a0,
    };
    let a2 = match e.short_name {
        Some(n) => a1.push((if sys { "declaredShortName"@ } else { "shortName"@ }, AttrView::Text(n@))),
        None => a1,
    };
    match e.qualified_name {
        Some(q) => a2.push(("qualifiedName"@, AttrView::Text(q@))),
        None => a2,
    }
}

/// The attributes `a` followed by flat `source` and `target` attributes
/// for a relationship whose endpoints are not carried structurally.
pub open spec fn endpoint_attrs(a: Seq<(Seq<char>, AttrView)>, e: Element) -> Seq<(Seq<char>, AttrView)> {
    if e.relationship is Some && !endpoints_are_structural(e) {
        let x = match e.spec_source() {
            Some(s) => a.push(("source"@, AttrView::Text(s@))),
            None => a,
        };
        match e.spec_target() {
            Some(t) => x.push(("target"@, AttrView::Text(t@))),
            None => x,
        }
    } else {
        a
    }
}

/// The attributes `a` followed by all the attributes the writer gives
/// element `e`: ID, names, flat endpoints, flags, escaped documentation
/// `body`, then the other properties.
pub open spec fn element_attrs(a: Seq<(Seq<char>, AttrView)>, e: Element) -> Seq<(Seq<char>, AttrView)> {
    let props = property_entries(e.properties);
    let a4 = endpoint_attrs(head_attrs(a, e), e);
    let a5 = flag_attrs(a4, props);
    let a6 = match e.documentation {
        Some(d) => a5.push(("body"@, AttrView::Escaped(escape_text(d@)))),
        None => a5,
    };
    other_attrs(a6, props)
}

/// Add flag `k` when it is stored as a boolean.
fn push_flag(attrs: &mut Vec<XmlAttribute>, props: &indexmap::IndexMap<String, PropertyValue>, k: &str)
    ensures
        attrs_view(final(attrs)@) == flag_attr(attrs_view(old(attrs)@), property_entries(*props), k@),
{
    match property_map_get(props, k) {
        Some(PropertyValue::Boolean(b)) => push_text(attrs, k, bool_str(*b)),
        _ => {},
    }
}

/// Whether element names are written as SysML `declaredName`s.
fn sysml_naming(e: &Element) -> (r: bool)
    ensures
        r == uses_sysml_naming(*e),
{
    match property_map_get(&e.properties, "_xsi_type") {
        Some(PropertyValue::String(t)) => starts_with(t.as_str(), "sysml:"),
        _ => e.kind.is_sysml(),
    }
}

/// Add the ID and name attributes of `e`.
fn push_head(attrs: &mut Vec<XmlAttribute>, e: &Element)
    ensures
        attrs_view(final(attrs)@) == head_attrs(attrs_view(old(attrs)@), *e),
{
    push_text(attrs, "xmi:id", e.id.as_str());
    push_text(attrs, "elementId", e.id.as_str());
    let sys = sysml_naming(e);
    if let Some(n) = &e.name {
        if sys {
            push_text(attrs, "declaredName", n.as_str());
        } else {
            push_text(attrs, "name", n.as_str());
        }
    }
    if let Some(n) = &e.short_name {
        if sys {
            push_text(attrs, "declaredShortName", n.as_str());
        } else {
            push_text(attrs, "shortName", n.as_str());
        }
    }
    if let Some(q) = &e.qualified_name {
        push_text(attrs, "qualifiedName", q.as_str());
    }
}

/// Add flat endpoints for a relationship whose endpoints are not carried
/// structurally.
fn push_endpoints(attrs: &mut Vec<XmlAttribute>, e: &Element)
    ensures
        attrs_view(final(attrs)@) == endpoint_attrs(attrs_view(old(attrs)@), *e),
{
    if let Some(rel) = &e.relationship {
        if !structural_endpoints(e) {
            if let Some(src) = rel.source() {
                push_text(attrs, "source", src.as_str());
            }
            if let Some(tgt) = rel.target() {
                push_text(attrs, "target", tgt.as_str());
            }
        }
    }
}

/// Add the stored boolean flags of `e`.
fn push_flags(attrs: &mut Vec<XmlAttribute>, e: &Element)
    ensures
        attrs_view(final(attrs)@) == flag_attrs(attrs_view(old(attrs)@), property_entries(e.properties)),
{
    push_flag(attrs, &e.properties, "isAbstract");
    push_flag(attrs, &e.properties, "isVariation");
    push_flag(attrs, &e.properties, "isDerived");
    push_flag(attrs, &e.properties, "isReadOnly");
    push_flag(attrs, &e.properties, "isParallel");
    push_flag(attrs, &e.properties, "isIndividual");
    push_flag(attrs, &e.properties, "isEnd");
    push_flag(attrs, &e.properties, "isDefault");
    push_flag(attrs, &e.properties, "isNonunique");
    push_flag(attrs, &e.properties, "isPortion");
    push_flag(attrs, &e.properties, "isUnique");
    push_flag(attrs, &e.properties, "isOrdered");
    push_flag(attrs, &e.properties, "isComposite");
    push_flag(attrs, &e.properties, "isStandard");
}

/// Add the properties of `e` that are not written elsewhere.
fn push_other_properties(attrs: &mut Vec<XmlAttribute>, e: &Element)
    ensures
        attrs_view(final(attrs)@) == other_attrs(attrs_view(old(attrs)@), property_entries(e.properties)),
{
    let n = property_map_len(&e.properties);
    let ghost props = property_entries(e.properties);
    let ghost start = attrs_view(attrs@);
    let mut i: usize = 0;
    assert(props.take(0) =~= Seq::<(String, PropertyValue)>::empty());
    while i < n
        invariant
            n == props.len(),
            props == property_entries(e.properties),
            i <= n,
            start == attrs_view(old(attrs)@),
            attrs_view(attrs@) == other_attrs(start, props.take(i as int)),
        decreases n - i,
    {
        let (k, v) = property_map_get_index(&e.properties, i).unwrap();
        proof {
            assert(props.take(i + 1).drop_last() =~= props.take(i as int));
            assert(props.take(i + 1).last() == props[i as int]);
        }
        let ks = k.as_str();
        if !(skipped_property(ks) || starts_with(ks, "_")) {
            match v {
                PropertyValue::String(s) => push_text(attrs, ks, s.as_str()),
                PropertyValue::Integer(x) => {
                    let t = decimal_string(*x);
                    push_text(attrs, ks, t.as_str());
                },
                PropertyValue::Real(x) => push_real(attrs, ks, *x),
                PropertyValue::Boolean(b) => push_text(attrs, ks, bool_str(*b)),
                PropertyValue::Reference(id) => push_text(attrs, ks, id.as_str()),
                PropertyValue::List(_) => {},
            }
        }
        i = i + 1;
    }
    assert(props.take(n as int) =~= props);
}

/// Writes models as XMI documents.
#[derive(Debug)]
pub struct XmiWriter;

impl XmiWriter {
    /// A writer.
    pub fn new() -> (r: XmiWriter) {
        XmiWriter
    }

    /// Add the attributes of `element` to `attrs`: `xmi:id` and
    /// `elementId`, the names (`declaredName`/`declaredShortName` for SysML
    /// elements), the qualified name, flat `source`/`target` for a
    /// relationship without structural endpoints, the stored flags, the
    /// escaped documentation `body`, then every other property that is not
    /// internal.
    pub fn write_element_attrs(&self, attrs: &mut Vec<XmlAttribute>, element: &Element)
        ensures
            attrs_view(final(attrs)@) == element_attrs(attrs_view(old(attrs)@), *element),
    {
        push_head(attrs, element);
        push_endpoints(attrs, element);
        push_flags(attrs, element);
        if let Some(d) = &element.documentation {
            let esc = escape_attribute_text(d.as_str());
            push_escaped(attrs, "body", esc);
        }
        push_other_properties(attrs, element);
    }
}


/// The attribute that holds the target of a relationship of kind `k` in
/// the KerML and SysML metamodels, where the kind has one of its own.
pub open spec fn metamodel_target_attribute(k: crate::element_kind::ElementKind) -> Option<Seq<char>> {
    match k {
        crate::element_kind::ElementKind::Specialization => Some("general"@),
        crate::element_kind::ElementKind::FeatureTyping => Some("type"@),
        crate::element_kind::ElementKind::Redefinition => Some("redefinedFeature"@),
        crate::element_kind::ElementKind::Subsetting => Some("subsettedFeature"@),
        crate::element_kind::ElementKind::ReferenceSubsetting => Some("referencedFeature"@),
        crate::element_kind::ElementKind::Disjoining => Some("disjoiningType"@),
        crate::element_kind::ElementKind::Conjugation => Some("originalType"@),
        crate::element_kind::ElementKind::FeatureChaining => Some("chainingFeature"@),
        crate::element_kind::ElementKind::NamespaceImport => Some("importedNamespace"@),
        crate::element_kind::ElementKind::MembershipImport => Some("importedMembership"@),
        crate::element_kind::ElementKind::Membership => Some("memberElement"@),
        _ => None,
    }
}

/// The attribute that holds the source of a relationship of kind `k` in
/// the KerML metamodel, where the kind has one of its own.
pub open spec fn metamodel_source_attribute(k: crate::element_kind::ElementKind) -> Option<Seq<char>> {
    match k {
        crate::element_kind::ElementKind::FeatureTyping => Some("typedFeature"@),
        crate::element_kind::ElementKind::Redefinition => Some("redefiningFeature"@),
        crate::element_kind::ElementKind::Subsetting => Some("subsettingFeature"@),
        crate::element_kind::ElementKind::Disjoining => Some("typeDisjoined"@),
        _ => None,
    }
}

/// Every relationship's own target attribute is read as its target, and
/// its own source attribute as its source.
pub proof fn law_endpoint_attributes(k: crate::element_kind::ElementKind)
    ensures
        metamodel_target_attribute(k) matches Some(t) ==> is_target_alias(t),
        metamodel_source_attribute(k) matches Some(s) ==> is_source_alias(s),
{
    reveal_strlit("general");
    reveal_strlit("type");
    reveal_strlit("redefinedFeature");
    reveal_strlit("subsettedFeature");
    reveal_strlit("referencedFeature");
    reveal_strlit("disjoiningType");
    reveal_strlit("originalType");
    reveal_strlit("chainingFeature");
    reveal_strlit("importedNamespace");
    reveal_strlit("importedMembership");
    reveal_strlit("memberElement");
    reveal_strlit("typedFeature");
    reveal_strlit("redefiningFeature");
    reveal_strlit("subsettingFeature");
    reveal_strlit("typeDisjoined");
}

} // verus!
