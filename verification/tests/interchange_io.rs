use std::borrow::Cow;
use std::io::Cursor;

use quick_xml::events::attributes::Attribute;
use quick_xml::events::{BytesDecl, BytesEnd, BytesStart, Event};
use quick_xml::name::QName;
use quick_xml::Reader;
use quick_xml::Writer;
use serde_json::Value;

use syster::element_kind::ElementKind;
use syster::format::InterchangeError;
use syster::json::JsonValue;
use syster::jsonld::{JsonLdReader, JsonLdWriter};
use syster::model::{Element, ElementId, Model, PropertyValue};
use syster::xmi_attrs::{AttrValue, XmiWriter, XmlAttribute};
use syster::xmi_writer::{ownership_is_acyclic, roots_ownership_is_acyclic, XmlEvent};
use syster::xmi_reader::{TagAttribute, XmiReader, XmlTag, XmlToken};

/// A `serde_json` value as a library JSON value; numbers that are not
/// `i64` keep the bits of their `f64`.
fn json_value_from(v: &Value) -> JsonValue {
    match v {
        Value::Null => JsonValue::Null,
        Value::Bool(b) => JsonValue::Bool(*b),
        Value::Number(n) => match n.as_i64() {
            Some(i) => JsonValue::Integer(i),
            // Floating point stays outside the library: only its bits go in.
            None => JsonValue::Real(n.as_f64().unwrap_or(0.0).to_bits()),
        },
        Value::String(s) => JsonValue::String(s.clone()),
        Value::Array(a) => JsonValue::Array(a.iter().map(json_value_from).collect()),
        Value::Object(o) => {
            JsonValue::Object(o.iter().map(|(k, x)| (k.clone(), json_value_from(x))).collect())
        }
    }
}

/// A library JSON value as a `serde_json` value.
fn json_value_to(v: &JsonValue) -> Value {
    match v {
        JsonValue::Null => Value::Null,
        JsonValue::Bool(b) => Value::Bool(*b),
        JsonValue::Integer(i) => Value::from(*i),
        // Floating point stays outside the library: the bits become a number here.
        JsonValue::Real(bits) => Value::from(f64::from_bits(*bits)),
        JsonValue::String(s) => Value::String(s.clone()),
        JsonValue::Array(a) => Value::Array(a.iter().map(json_value_to).collect()),
        JsonValue::Object(o) => {
            Value::Object(o.iter().map(|(k, x)| (k.clone(), json_value_to(x))).collect())
        }
    }
}

/// Read a model from JSON-LD bytes.
fn read_jsonld(input: &[u8]) -> Result<Model, InterchangeError> {
    let value: Value = serde_json::from_slice(input)
        .map_err(|e| InterchangeError::json(&format!("Parse error: {e}")))?;
    JsonLdReader::new().read_value(&json_value_from(&value))
}

/// Write a model as pretty-printed JSON-LD bytes.
fn write_jsonld(model: &Model) -> Result<Vec<u8>, InterchangeError> {
    let value = JsonLdWriter::new().to_value(model);
    serde_json::to_vec_pretty(&json_value_to(&value))
        .map_err(|e| InterchangeError::json(&format!("Serialization error: {e}")))
}

fn xml_error(e: std::io::Error) -> InterchangeError {
    InterchangeError::xml(&format!("Write error: {e}"))
}

fn start_tag<'a>(name: &'a str, attrs: &'a [XmlAttribute]) -> BytesStart<'a> {
    let mut start = BytesStart::new(name);
    for a in attrs {
        match &a.value {
            AttrValue::Text(v) => start.push_attribute((a.key.as_str(), v.as_str())),
            AttrValue::Escaped(v) => start.push_attribute(Attribute {
                key: QName(a.key.as_str()),
                value: Cow::Borrowed(v.as_str()),
            }),
            // Floating point stays outside the library: the bits are formatted here.
            AttrValue::Real(bits) => {
                let text = f64::from_bits(*bits).to_string();
                start.push_attribute((a.key.as_str(), text.as_str()));
            }
        }
    }
    start
}

/// Write XML events as an ASCII XMI document, indented by two spaces and
/// ending with a newline.
fn xml_bytes(events: &[XmlEvent]) -> Result<Vec<u8>, InterchangeError> {
    let mut writer = Writer::new_with_indent(Cursor::new(Vec::new()), b' ', 2);
    writer
        .write_event(Event::Decl(BytesDecl::new("1.0", Some("ASCII"), None)))
        .map_err(xml_error)?;
    for ev in events {
        match ev {
            XmlEvent::Start { name, attrs } => writer
                .write_event(Event::Start(start_tag(name, attrs)))
                .map_err(xml_error)?,
            XmlEvent::Empty { name, attrs } => writer
                .write_event(Event::Empty(start_tag(name, attrs)))
                .map_err(xml_error)?,
            XmlEvent::End { name } => writer
                .write_event(Event::End(BytesEnd::new(name.as_str())))
                .map_err(xml_error)?,
        }
    }
    let mut output = writer.into_inner().into_inner();
    output.push(b'\n');
    Ok(output)
}

/// Write a model as XMI bytes. A model whose ownership has a cycle cannot
/// be written as a tree and is refused.
fn write_xmi(model: &Model) -> Result<Vec<u8>, InterchangeError> {
    if !roots_ownership_is_acyclic(model) {
        return Err(InterchangeError::xml("Model ownership has a cycle"));
    }
    let events = XmiWriter::new().write_events(model)?;
    xml_bytes(&events)
}

fn xml_tag(e: &BytesStart<'_>) -> Result<XmlTag, InterchangeError> {
    let name = e.name().as_ref().to_string();
    let mut attributes = Vec::new();
    for attr_result in e.attributes() {
        let attr = attr_result.map_err(|err| InterchangeError::xml(&format!("Attribute error: {err}")))?;
        let key = attr.key.as_ref().to_string();
        #[allow(deprecated)]
        let value = attr
            .unescape_value()
            .map_err(|err| InterchangeError::xml(&format!("Attribute value error: {err}")))?
            .to_string();
        // Floating point stays outside the library: the number is read here.
        let real_bits = value.parse::<f64>().ok().map(f64::to_bits);
        attributes.push(TagAttribute { key, value, real_bits });
    }
    Ok(XmlTag { name, attributes })
}

/// Split XML bytes into the tokens the XMI reader consumes.
fn xml_tokens(input: &[u8]) -> Result<Vec<XmlToken>, InterchangeError> {
    let mut reader = Reader::from_reader(input);
    reader.config_mut().trim_text(true);
    let mut buf = Vec::new();
    let mut tokens = Vec::new();
    loop {
        match reader.read_event_into(&mut buf) {
            Ok(Event::Start(ref e)) => tokens.push(XmlToken::Start(xml_tag(e)?)),
            Ok(Event::Empty(ref e)) => tokens.push(XmlToken::Empty(xml_tag(e)?)),
            Ok(Event::End(_)) => tokens.push(XmlToken::End),
            Ok(Event::Eof) => break,
            Err(e) => {
                return Err(InterchangeError::xml(&format!(
                    "XML parse error at position {}: {e}",
                    reader.error_position()
                )));
            }
            _ => {}
        }
        buf.clear();
    }
    Ok(tokens)
}

/// Read a model from XMI bytes.
fn read_xmi(input: &[u8]) -> Result<Model, InterchangeError> {
    let tokens = xml_tokens(input)?;
    Ok(XmiReader::new().read_tokens(&tokens))
}

#[test]
fn test_jsonld_write_single_element() {
    let mut model = Model::new();
    model.add_element(Element::new("pkg1", ElementKind::Package).with_name("TestPackage"));

    let json_bytes = write_jsonld(&model).expect("Write failed");
    let json_str = String::from_utf8(json_bytes).expect("Invalid UTF-8");

    assert!(json_str.contains("@context"));
    assert!(json_str.contains("@type"));
    assert!(json_str.contains("Package"));
    assert!(json_str.contains("pkg1"));
    assert!(json_str.contains("TestPackage"));
}

#[test]
fn test_jsonld_write_multiple_elements() {
    let mut model = Model::new();
    model.add_element(Element::new("pkg1", ElementKind::Package).with_name("Package1"));
    model.add_element(Element::new("pkg2", ElementKind::Package).with_name("Package2"));

    let json_bytes = write_jsonld(&model).expect("Write failed");
    let json_str = String::from_utf8(json_bytes).expect("Invalid UTF-8");

    assert!(json_str.trim().starts_with('['));
    assert!(json_str.contains("Package1"));
    assert!(json_str.contains("Package2"));
}

#[test]
fn test_jsonld_read_single_element() {
    let json = br#"{
        "@type": "Package",
        "@id": "pkg1",
        "name": "TestPackage"
    }"#;

    let model = read_jsonld(json).expect("Read failed");
    assert_eq!(model.element_count(), 1);

    let pkg = model.get(&ElementId::new("pkg1")).expect("Package not found");
    assert_eq!(pkg.name.as_deref(), Some("TestPackage"));
    assert_eq!(pkg.kind, ElementKind::Package);
}

#[test]
fn test_jsonld_read_array() {
    let json = br#"[
        {"@type": "Package", "@id": "pkg1", "name": "First"},
        {"@type": "Package", "@id": "pkg2", "name": "Second"}
    ]"#;

    let model = read_jsonld(json).expect("Read failed");
    assert_eq!(model.element_count(), 2);
}

#[test]
fn test_jsonld_read_with_attributes() {
    let json = br#"{
        "@type": "Class",
        "@id": "cls1",
        "name": "AbstractClass",
        "qualifiedName": "Pkg::AbstractClass",
        "shortName": "AC",
        "isAbstract": true,
        "documentation": "This is a doc comment",
        "isStandard": true,
        "customNumber": 42,
        "customString": "hello"
    }"#;

    let model = read_jsonld(json).expect("Read failed");
    let cls = model.get(&ElementId::new("cls1")).expect("Class not found");

    assert_eq!(cls.name.as_deref(), Some("AbstractClass"));
    assert_eq!(cls.qualified_name.as_deref(), Some("Pkg::AbstractClass"));
    assert_eq!(cls.short_name.as_deref(), Some("AC"));
    assert!(cls.is_abstract);
    assert_eq!(cls.documentation.as_deref(), Some("This is a doc comment"));
    assert_eq!(cls.properties.get("isStandard"), Some(&PropertyValue::Boolean(true)));
    assert_eq!(cls.properties.get("customNumber"), Some(&PropertyValue::Integer(42)));
    assert_eq!(
        cls.properties.get("customString"),
        Some(&PropertyValue::String("hello".to_string()))
    );
}

#[test]
fn test_jsonld_write_with_attributes() {
    let mut model = Model::new();
    let mut cls = Element::new("cls1", ElementKind::Class);
    cls.name = Some("AbstractClass".to_string());
    cls.short_name = Some("AC".to_string());
    cls.qualified_name = Some("Pkg::AbstractClass".to_string());
    cls.set_abstract(true);
    cls.documentation = Some("This is documented".to_string());
    cls.properties.insert("isStandard".to_string(), PropertyValue::Boolean(true));
    cls.properties.insert("count".to_string(), PropertyValue::Integer(99));
    model.add_element(cls);

    let json_bytes = write_jsonld(&model).expect("Write failed");
    let json_str = String::from_utf8(json_bytes).expect("Invalid UTF-8");

    assert!(json_str.contains("\"isAbstract\": true"));
    assert!(json_str.contains("\"documentation\": \"This is documented\""));
    assert!(json_str.contains("\"isStandard\": true"));
    assert!(json_str.contains("\"count\": 99"));
    assert!(json_str.contains("\"shortName\": \"AC\""));
    assert!(json_str.contains("\"qualifiedName\": \"Pkg::AbstractClass\""));
}

#[test]
fn test_jsonld_write_relationship_properties() {
    let mut model = Model::new();
    model.add_element(Element::new("src", ElementKind::ConstraintUsage).with_name("source"));
    model.add_element(Element::new("tgt", ElementKind::ConstraintUsage).with_name("target"));

    let rel_id = model.add_rel(
        "rel1",
        ElementKind::RequirementConstraintMembership,
        "src",
        "tgt",
        Some(ElementId::new("src")),
    );
    let rel = model.get_mut(&rel_id).expect("relationship should exist");
    rel.properties.insert(
        "kind".to_string(),
        PropertyValue::String("assumption".to_string()),
    );

    let json_bytes = write_jsonld(&model).expect("Write failed");
    let json: Value = serde_json::from_slice(&json_bytes).expect("valid json");
    let items = json.as_array().expect("multiple elements should serialize as array");
    let rel_json = items
        .iter()
        .find(|item| item.get("@id") == Some(&Value::String("rel1".to_string())))
        .expect("relationship element should be present");

    assert_eq!(
        rel_json.get("@type"),
        Some(&Value::String("RequirementConstraintMembership".to_string()))
    );
    assert_eq!(rel_json.get("kind"), Some(&Value::String("assumption".to_string())));
    let mut expected_target = serde_json::Map::new();
    expected_target.insert("@id".to_string(), Value::String("tgt".to_string()));
    assert_eq!(rel_json.get("target"), Some(&Value::Object(expected_target)));
    assert!(
        rel_json.get("referencedConstraint").is_none(),
        "generic target should remain the only target-carrying field in JSON-LD"
    );
}

#[test]
fn test_jsonld_read_relationship_properties() {
    let json = br#"[
        {"@type": "ConstraintUsage", "@id": "src", "name": "source"},
        {"@type": "ConstraintUsage", "@id": "tgt", "name": "target"},
        {
            "@type": "RequirementConstraintMembership",
            "@id": "rel1",
            "source": {"@id": "src"},
            "target": {"@id": "tgt"},
            "owner": {"@id": "src"},
            "kind": "assumption"
        }
    ]"#;

    let model = read_jsonld(json).expect("Read failed");
    let rel = model.get(&ElementId::new("rel1")).expect("relationship should exist");

    assert_eq!(rel.kind, ElementKind::RequirementConstraintMembership);
    assert_eq!(
        rel.properties.get("kind"),
        Some(&PropertyValue::String("assumption".to_string()))
    );
    assert!(rel.properties.get("referencedConstraint").is_none());
}

#[test]
fn test_jsonld_roundtrip() {
    let mut model = Model::new();
    let pkg = Element::new("pkg1", ElementKind::Package).with_name("RoundtripTest");
    model.add_element(pkg);

    let part = Element::new("part1", ElementKind::PartDefinition)
        .with_name("Vehicle")
        .with_owner("pkg1");
    model.add_element(part);

    if let Some(pkg) = model.get_mut(&ElementId::new("pkg1")) {
        pkg.owned_elements.push(ElementId::new("part1"));
    }

    let json_bytes = write_jsonld(&model).expect("Write failed");
    let model2 = read_jsonld(&json_bytes).expect("Read failed");

    assert_eq!(model2.element_count(), 2);
    let pkg2 = model2.get(&ElementId::new("pkg1")).unwrap();
    assert_eq!(pkg2.name.as_deref(), Some("RoundtripTest"));
}

#[test]
fn test_jsonld_roundtrip_with_all_attributes() {
    let mut model = Model::new();

    let mut cls = Element::new("cls1", ElementKind::Class);
    cls.name = Some("TestClass".to_string());
    cls.short_name = Some("TC".to_string());
    cls.set_abstract(true);
    cls.documentation = Some("A documented class".to_string());
    cls.properties.insert("isStandard".to_string(), PropertyValue::Boolean(true));
    cls.properties.insert("priority".to_string(), PropertyValue::Integer(5));
    cls.properties.insert("ratio".to_string(), PropertyValue::Real(2.5f64.to_bits()));
    cls.properties.insert("label".to_string(), PropertyValue::String("test".to_string()));
    model.add_element(cls);

    let json_bytes = write_jsonld(&model).expect("Write failed");
    let model2 = read_jsonld(&json_bytes).expect("Read failed");

    let cls2 = model2.get(&ElementId::new("cls1")).expect("Class not found");
    assert_eq!(cls2.name.as_deref(), Some("TestClass"));
    assert_eq!(cls2.short_name.as_deref(), Some("TC"));
    assert!(cls2.is_abstract, "isAbstract not preserved");
    assert_eq!(cls2.documentation.as_deref(), Some("A documented class"));
    assert_eq!(
        cls2.properties.get("isStandard"),
        Some(&PropertyValue::Boolean(true)),
        "isStandard property not preserved"
    );
    assert_eq!(
        cls2.properties.get("priority"),
        Some(&PropertyValue::Integer(5)),
        "priority property not preserved"
    );
    assert_eq!(
        cls2.properties.get("ratio"),
        Some(&PropertyValue::Real(2.5f64.to_bits())),
        "ratio property not preserved"
    );
    assert_eq!(
        cls2.properties.get("label"),
        Some(&PropertyValue::String("test".to_string())),
        "label property not preserved"
    );
}

#[test]
fn test_jsonld_read_is_variation() {
    let json = r#"{
        "@context": "https://www.omg.org/spec/SysML/20230201/sysml-context.jsonld",
        "@type": "PartDefinition",
        "@id": "pd1",
        "name": "VariantPart",
        "isVariation": true
    }"#;

    let model = read_jsonld(json.as_bytes()).expect("Failed to read JSON-LD");
    let elem = model.get(&ElementId::new("pd1")).expect("Element not found");
    assert!(elem.is_variation, "isVariation should be true");
}

#[test]
fn test_jsonld_read_is_derived() {
    let json = r#"{
        "@context": "https://www.omg.org/spec/SysML/20230201/sysml-context.jsonld",
        "@type": "Feature",
        "@id": "f1",
        "name": "derivedFeature",
        "isDerived": true
    }"#;

    let model = read_jsonld(json.as_bytes()).expect("Failed to read JSON-LD");
    let elem = model.get(&ElementId::new("f1")).expect("Element not found");
    assert!(elem.is_derived, "isDerived should be true");
}

#[test]
fn test_jsonld_read_is_readonly() {
    let json = r#"{
        "@context": "https://www.omg.org/spec/SysML/20230201/sysml-context.jsonld",
        "@type": "AttributeUsage",
        "@id": "a1",
        "name": "constantValue",
        "isReadOnly": true
    }"#;

    let model = read_jsonld(json.as_bytes()).expect("Failed to read JSON-LD");
    let elem = model.get(&ElementId::new("a1")).expect("Element not found");
    assert!(elem.is_readonly, "isReadOnly should be true");
}

#[test]
fn test_jsonld_read_is_parallel() {
    let json = r#"{
        "@context": "https://www.omg.org/spec/SysML/20230201/sysml-context.jsonld",
        "@type": "StateUsage",
        "@id": "s1",
        "name": "parallelState",
        "isParallel": true
    }"#;

    let model = read_jsonld(json.as_bytes()).expect("Failed to read JSON-LD");
    let elem = model.get(&ElementId::new("s1")).expect("Element not found");
    assert!(elem.is_parallel, "isParallel should be true");
}

#[test]
fn test_jsonld_write_modifiers() {
    let mut model = Model::new();

    let mut elem = Element::new("pd1", ElementKind::PartDefinition);
    elem.name = Some("TestPart".into());
    elem.set_abstract(true);
    elem.set_variation(true);
    model.add_element(elem);

    let mut feat = Element::new("f1", ElementKind::Feature);
    feat.name = Some("TestFeature".into());
    feat.set_derived(true);
    feat.set_readonly(true);
    model.add_element(feat);

    let mut state = Element::new("s1", ElementKind::StateUsage);
    state.name = Some("TestState".into());
    state.set_parallel(true);
    model.add_element(state);

    let output = write_jsonld(&model).expect("Failed to write JSON-LD");
    let output_str = String::from_utf8(output).expect("Invalid UTF-8");

    assert!(output_str.contains(r#""isAbstract": true"#), "Should contain isAbstract");
    assert!(output_str.contains(r#""isVariation": true"#), "Should contain isVariation");
    assert!(output_str.contains(r#""isDerived": true"#), "Should contain isDerived");
    assert!(output_str.contains(r#""isReadOnly": true"#), "Should contain isReadOnly");
    assert!(output_str.contains(r#""isParallel": true"#), "Should contain isParallel");
}

#[test]
fn test_jsonld_roundtrip_modifiers() {
    let mut model = Model::new();

    let mut elem = Element::new("pd1", ElementKind::PartDefinition);
    elem.name = Some("AbstractVariation".into());
    elem.set_abstract(true);
    elem.set_variation(true);
    model.add_element(elem);

    let mut feat = Element::new("f1", ElementKind::AttributeUsage);
    feat.name = Some("DerivedReadonly".into());
    feat.set_derived(true);
    feat.set_readonly(true);
    model.add_element(feat);

    let mut state = Element::new("s1", ElementKind::StateUsage);
    state.name = Some("ParallelState".into());
    state.set_parallel(true);
    model.add_element(state);

    let json_bytes = write_jsonld(&model).expect("Write failed");
    let model2 = read_jsonld(&json_bytes).expect("Read failed");

    let elem2 = model2.get(&ElementId::new("pd1")).unwrap();
    assert!(elem2.is_abstract, "isAbstract not preserved");
    assert!(elem2.is_variation, "isVariation not preserved");

    let feat2 = model2.get(&ElementId::new("f1")).unwrap();
    assert!(feat2.is_derived, "isDerived not preserved");
    assert!(feat2.is_readonly, "isReadOnly not preserved");

    let state2 = model2.get(&ElementId::new("s1")).unwrap();
    assert!(state2.is_parallel, "isParallel not preserved");
}

#[test]
fn test_jsonld_modifiers_default_false() {
    let json = r#"{
        "@context": "https://www.omg.org/spec/SysML/20230201/sysml-context.jsonld",
        "@type": "PartDefinition",
        "@id": "pd1",
        "name": "NormalPart"
    }"#;

    let model = read_jsonld(json.as_bytes()).expect("Failed to read JSON-LD");
    let elem = model.get(&ElementId::new("pd1")).expect("Element not found");

    assert!(!elem.is_abstract, "isAbstract should default to false");
    assert!(!elem.is_variation, "isVariation should default to false");
    assert!(!elem.is_derived, "isDerived should default to false");
    assert!(!elem.is_readonly, "isReadOnly should default to false");
    assert!(!elem.is_parallel, "isParallel should default to false");
}

#[test]
fn jsonld_reader_refuses_scalar_documents() {
    let err = JsonLdReader::new().read_value(&JsonValue::Integer(3)).unwrap_err();
    assert_eq!(err.message(), "Expected object or array");
}

#[test]
fn jsonld_reader_builds_ownership_from_owned_members() {
    let json = br#"[
        {"@type": "Package", "@id": "p", "ownedMember": [{"@id": "a"}, {"@id": "b"}]},
        {"@type": "PartDefinition", "@id": "a"},
        {"@type": "PartDefinition", "@id": "b", "owner": {"@id": "x"}}
    ]"#;
    let model = read_jsonld(json).expect("Read failed");
    assert_eq!(model.get(&ElementId::new("a")).unwrap().owner.as_ref().unwrap().as_str(), "p");
    assert_eq!(model.get(&ElementId::new("b")).unwrap().owner.as_ref().unwrap().as_str(), "x");
    assert_eq!(model.get(&ElementId::new("p")).unwrap().owned_elements.len(), 2);
}

#[test]
fn jsonld_reader_skips_objects_without_id() {
    let json = br#"[{"@type": "Package"}, 7, {"@id": "q"}]"#;
    let model = read_jsonld(json).expect("Read failed");
    assert_eq!(model.element_count(), 1);
    assert_eq!(model.get(&ElementId::new("q")).unwrap().kind, ElementKind::Other);
}

#[test]
fn test_xmi_write_simple_model() {
    let mut model = Model::new();
    model.add_element(Element::new("pkg1", ElementKind::Package).with_name("TestPackage"));

    let output = write_xmi(&model).expect("Failed to write XMI");
    let output_str = String::from_utf8(output).expect("Invalid UTF-8");

    assert!(output_str.contains("sysml:Package"), "Missing sysml:Package. Got:\n{}", output_str);
    assert!(output_str.contains(r#"xmi:id="pkg1""#), "Missing xmi:id. Got:\n{}", output_str);
    assert!(
        output_str.contains(r#"declaredName="TestPackage""#),
        "Missing declaredName. Got:\n{}",
        output_str
    );
}

#[test]
fn test_xmi_write_modifiers() {
    let mut model = Model::new();

    let mut elem = Element::new("pd1", ElementKind::PartDefinition);
    elem.name = Some("TestPart".into());
    elem.set_abstract(true);
    elem.set_variation(true);
    model.add_element(elem);

    let mut feat = Element::new("f1", ElementKind::Feature);
    feat.name = Some("TestFeature".into());
    feat.set_derived(true);
    feat.set_readonly(true);
    model.add_element(feat);

    let mut state = Element::new("s1", ElementKind::StateUsage);
    state.name = Some("TestState".into());
    state.set_parallel(true);
    model.add_element(state);

    let output = write_xmi(&model).expect("Failed to write XMI");
    let output_str = String::from_utf8(output).expect("Invalid UTF-8");

    assert!(output_str.contains(r#"isAbstract="true""#), "Should contain isAbstract");
    assert!(output_str.contains(r#"isVariation="true""#), "Should contain isVariation");
    assert!(output_str.contains(r#"isDerived="true""#), "Should contain isDerived");
    assert!(output_str.contains(r#"isReadOnly="true""#), "Should contain isReadOnly");
    assert!(output_str.contains(r#"isParallel="true""#), "Should contain isParallel");
}

#[test]
fn xmi_writer_refuses_model_without_roots() {
    let model = Model::new();
    let err = XmiWriter::new().write_events(&model).unwrap_err();
    assert_eq!(err.message(), "Model has no root elements");
}

#[test]
fn xmi_writer_escapes_documentation_once() {
    let mut model = Model::new();
    let mut doc = Element::new("doc1", ElementKind::Documentation);
    doc.documentation = Some("a < b & c\n\"q\"".to_string());
    model.add_element(doc);
    let out = String::from_utf8(write_xmi(&model).unwrap()).unwrap();
    assert!(out.contains(r#"body="a &lt; b &amp; c&#xA;&quot;q&quot;""#), "{}", out);
    assert!(!out.contains("&amp;#xA;"));
}

#[test]
fn xmi_writer_wraps_several_roots_and_nests_children() {
    let mut model = Model::new();
    model.add_element(Element::new("p1", ElementKind::Package).with_name("A").with_owned("m1"));
    model.add_element(Element::new("p2", ElementKind::Package).with_name("B"));
    model.add_element(
        Element::new("m1", ElementKind::OwningMembership)
            .with_owner("p1")
            .with_owned("d1"),
    );
    model.add_element(Element::new("d1", ElementKind::PartDefinition).with_owner("m1").with_name("D"));
    let events = XmiWriter::new().write_events(&model).unwrap();
    match &events[0] {
        XmlEvent::Start { name, .. } => assert_eq!(name, "xmi:XMI"),
        other => panic!("unexpected first event {:?}", other),
    }
    let out = String::from_utf8(xml_bytes(&events).unwrap()).unwrap();
    assert!(out.contains("<ownedRelationship xsi:type=\"kerml:OwningMembership\""), "{}", out);
    assert!(out.contains("<ownedRelatedElement xsi:type=\"sysml:PartDefinition\""), "{}", out);
    assert!(out.trim_end().ends_with("</xmi:XMI>"));
}

#[test]
fn ownership_cycle_is_detected() {
    let mut model = Model::new();
    model.add_element(Element::new("a", ElementKind::Package).with_owned("b"));
    model.add_element(Element::new("b", ElementKind::Package).with_owner("a").with_owned("a"));
    assert!(!ownership_is_acyclic(&model));
    let mut ok = Model::new();
    ok.add_element(Element::new("a", ElementKind::Package).with_owned("b"));
    ok.add_element(Element::new("b", ElementKind::Package).with_owner("a"));
    assert!(ownership_is_acyclic(&ok));
}

#[test]
fn test_xmi_read_simple_package() {
    let xmi_content = br#"<?xml version="1.0" encoding="UTF-8"?>
<xmi:XMI xmlns:xmi="http://www.omg.org/spec/XMI/20131001"
 xmlns:sysml="http://www.omg.org/spec/SysML/20230201">
  <sysml:Package xmi:id="pkg1" name="MyPackage"/>
</xmi:XMI>"#;

    let model = read_xmi(xmi_content).expect("Failed to read XMI");
    assert_eq!(model.element_count(), 1);

    let pkg = model
        .get(&ElementId::new("pkg1"))
        .expect("Package not found");
    assert_eq!(pkg.name.as_deref(), Some("MyPackage"));
    assert_eq!(pkg.kind, ElementKind::Package);
}

#[test]
fn test_xmi_read_nested_elements() {
    let xmi_content = br#"<?xml version="1.0" encoding="UTF-8"?>
<xmi:XMI xmlns:xmi="http://www.omg.org/spec/XMI/20131001"
 xmlns:sysml="http://www.omg.org/spec/SysML/20230201">
  <sysml:Package xmi:id="pkg1" name="Vehicles">
    <ownedMember>
      <sysml:PartDefinition xmi:id="pd1" name="Car"/>
    </ownedMember>
    <ownedMember>
      <sysml:PartDefinition xmi:id="pd2" name="Truck"/>
    </ownedMember>
  </sysml:Package>
</xmi:XMI>"#;

    let model = read_xmi(xmi_content).expect("Failed to read XMI");
    assert_eq!(model.element_count(), 3);

    let pkg = model
        .get(&ElementId::new("pkg1"))
        .expect("Package not found");
    assert_eq!(pkg.owned_elements.len(), 2);

    let car = model.get(&ElementId::new("pd1")).expect("Car not found");
    assert_eq!(car.name.as_deref(), Some("Car"));
    assert_eq!(car.kind, ElementKind::PartDefinition);
    assert_eq!(car.owner.as_ref().map(|id| id.as_str()), Some("pkg1"));
}

#[test]
fn test_xmi_roundtrip() {
    // Create a model
    let mut model = Model::new();
    let pkg = Element::new("pkg1", ElementKind::Package).with_name("RoundtripTest");
    model.add_element(pkg);

    let part = Element::new("part1", ElementKind::PartDefinition)
        .with_name("Vehicle")
        .with_owner("pkg1");
    model.add_element(part);

    // Update ownership
    if let Some(pkg) = model.get_mut(&ElementId::new("pkg1")) {
        pkg.owned_elements.push(ElementId::new("part1"));
    }

    // Write to XMI
    let xmi_bytes = write_xmi(&model).expect("Write failed");

    // Read back
    let model2 = read_xmi(&xmi_bytes).expect("Read failed");

    // Verify
    assert_eq!(model2.element_count(), 2);
    let pkg2 = model2.get(&ElementId::new("pkg1")).unwrap();
    assert_eq!(pkg2.name.as_deref(), Some("RoundtripTest"));
    assert_eq!(pkg2.owned_elements.len(), 1);
}

#[test]
fn test_xmi_read_is_abstract() {
    let xmi_content = br#"<?xml version="1.0" encoding="UTF-8"?>
<xmi:XMI xmlns:xmi="http://www.omg.org/spec/XMI/20131001"
 xmlns:sysml="http://www.omg.org/spec/SysML/20230201">
  <sysml:PartDefinition xmi:id="pd1" name="AbstractPart" isAbstract="true"/>
</xmi:XMI>"#;

    let model = read_xmi(xmi_content).expect("Failed to read XMI");
    let elem = model
        .get(&ElementId::new("pd1"))
        .expect("Element not found");
    assert!(elem.is_abstract, "isAbstract should be true");
}

#[test]
fn test_xmi_read_is_variation() {
    let xmi_content = br#"<?xml version="1.0" encoding="UTF-8"?>
<xmi:XMI xmlns:xmi="http://www.omg.org/spec/XMI/20131001"
 xmlns:sysml="http://www.omg.org/spec/SysML/20230201">
  <sysml:PartDefinition xmi:id="pd1" name="VariantPart" isVariation="true"/>
</xmi:XMI>"#;

    let model = read_xmi(xmi_content).expect("Failed to read XMI");
    let elem = model
        .get(&ElementId::new("pd1"))
        .expect("Element not found");
    assert!(elem.is_variation, "isVariation should be true");
}

#[test]
fn test_xmi_read_is_derived() {
    let xmi_content = br#"<?xml version="1.0" encoding="UTF-8"?>
<xmi:XMI xmlns:xmi="http://www.omg.org/spec/XMI/20131001"
 xmlns:kerml="http://www.omg.org/spec/KerML/20230201">
  <kerml:Feature xmi:id="f1" name="derivedFeature" isDerived="true"/>
</xmi:XMI>"#;

    let model = read_xmi(xmi_content).expect("Failed to read XMI");
    let elem = model.get(&ElementId::new("f1")).expect("Element not found");
    assert!(elem.is_derived, "isDerived should be true");
}

#[test]
fn test_xmi_read_is_readonly() {
    let xmi_content = br#"<?xml version="1.0" encoding="UTF-8"?>
<xmi:XMI xmlns:xmi="http://www.omg.org/spec/XMI/20131001"
 xmlns:sysml="http://www.omg.org/spec/SysML/20230201">
  <sysml:AttributeUsage xmi:id="a1" name="constantValue" isReadOnly="true"/>
</xmi:XMI>"#;

    let model = read_xmi(xmi_content).expect("Failed to read XMI");
    let elem = model.get(&ElementId::new("a1")).expect("Element not found");
    assert!(elem.is_readonly, "isReadOnly should be true");
}

#[test]
fn test_xmi_read_is_parallel() {
    let xmi_content = br#"<?xml version="1.0" encoding="UTF-8"?>
<xmi:XMI xmlns:xmi="http://www.omg.org/spec/XMI/20131001"
 xmlns:sysml="http://www.omg.org/spec/SysML/20230201">
  <sysml:StateUsage xmi:id="s1" name="parallelState" isParallel="true"/>
</xmi:XMI>"#;

    let model = read_xmi(xmi_content).expect("Failed to read XMI");
    let elem = model.get(&ElementId::new("s1")).expect("Element not found");
    assert!(elem.is_parallel, "isParallel should be true");
}

#[test]
fn test_xmi_roundtrip_modifiers() {
    let mut model = Model::new();

    let mut elem = Element::new("pd1", ElementKind::PartDefinition);
    elem.name = Some("AbstractVariation".into());
    elem.set_abstract(true);
    elem.set_variation(true);
    model.add_element(elem);

    let mut feat = Element::new("f1", ElementKind::AttributeUsage);
    feat.name = Some("DerivedReadonly".into());
    feat.set_derived(true);
    feat.set_readonly(true);
    model.add_element(feat);

    let mut state = Element::new("s1", ElementKind::StateUsage);
    state.name = Some("ParallelState".into());
    state.set_parallel(true);
    model.add_element(state);

    // Write and read back
    let xmi_bytes = write_xmi(&model).expect("Write failed");
    let model2 = read_xmi(&xmi_bytes).expect("Read failed");

    // Verify all modifiers preserved
    let elem2 = model2.get(&ElementId::new("pd1")).unwrap();
    assert!(elem2.is_abstract, "isAbstract not preserved");
    assert!(elem2.is_variation, "isVariation not preserved");

    let feat2 = model2.get(&ElementId::new("f1")).unwrap();
    assert!(feat2.is_derived, "isDerived not preserved");
    assert!(feat2.is_readonly, "isReadOnly not preserved");

    let state2 = model2.get(&ElementId::new("s1")).unwrap();
    assert!(state2.is_parallel, "isParallel not preserved");
}

#[test]
fn test_xmi_modifiers_default_false() {
    let xmi_content = br#"<?xml version="1.0" encoding="UTF-8"?>
<xmi:XMI xmlns:xmi="http://www.omg.org/spec/XMI/20131001"
 xmlns:sysml="http://www.omg.org/spec/SysML/20230201">
  <sysml:PartDefinition xmi:id="pd1" name="NormalPart"/>
</xmi:XMI>"#;

    let model = read_xmi(xmi_content).expect("Failed to read XMI");
    let elem = model
        .get(&ElementId::new("pd1"))
        .expect("Element not found");

    // All modifiers should default to false when not specified
    assert!(!elem.is_abstract, "isAbstract should default to false");
    assert!(!elem.is_variation, "isVariation should default to false");
    assert!(!elem.is_derived, "isDerived should default to false");
    assert!(!elem.is_readonly, "isReadOnly should default to false");
    assert!(!elem.is_parallel, "isParallel should default to false");
}

#[test]
fn test_membership_import_href_child_roundtrip() {
    // This is the exact structure from Quantities.sysmlx - MembershipImport with
    // <importedMembership href="..."/> child element
    let input = r#"<?xml version="1.0" encoding="ASCII"?>
<sysml:Namespace xmi:version="2.0" xmlns:xmi="http://www.omg.org/spec/XMI/20131001" xmlns:xsi="http://www.w3.org/2001/XMLSchema-instance" xmlns:sysml="https://www.omg.org/spec/SysML/20250201" xmi:id="ns1" elementId="ns1">
  <ownedRelationship xsi:type="sysml:MembershipImport" xmi:id="aed4e039-574f-5c98-83de-3aca582b628a" elementId="aed4e039-574f-5c98-83de-3aca582b628a">
    <importedMembership href="../../Kernel%20Libraries/Kernel%20Data%20Type%20Library/ScalarValues.kermlx#a9e3be1d-4057-5cda-bdc0-eff9df4b33ea"/>
  </ownedRelationship>
</sysml:Namespace>"#;

    let model = read_xmi(input.as_bytes()).expect("Failed to read XMI");
    let output = write_xmi(&model).expect("Failed to write XMI");
    let output_str = String::from_utf8(output).expect("Invalid UTF-8");

    // The output MUST contain the <importedMembership href="..."/> child element
    assert!(
        output_str.contains("<importedMembership href="),
        "Output must contain <importedMembership href=...> child element.\nGot:\n{}",
        output_str
    );
}

#[test]
fn test_namespace_import_href_child_roundtrip() {
    // Similar test for NamespaceImport with <importedNamespace href="..."/> child
    let input = r#"<?xml version="1.0" encoding="ASCII"?>
<sysml:Namespace xmi:version="2.0" xmlns:xmi="http://www.omg.org/spec/XMI/20131001" xmlns:xsi="http://www.w3.org/2001/XMLSchema-instance" xmlns:sysml="https://www.omg.org/spec/SysML/20250201" xmi:id="ns1" elementId="ns1">
  <ownedRelationship xsi:type="sysml:NamespaceImport" xmi:id="4c829288-5c6b-5120-967f-9415c466b325" elementId="4c829288-5c6b-5120-967f-9415c466b325">
    <importedNamespace href="../../Kernel%20Libraries/Kernel%20Data%20Type%20Library/Collections.kermlx#9837d4a5-c753-58a8-b614-16d4cb5fac19"/>
  </ownedRelationship>
</sysml:Namespace>"#;

    let model = read_xmi(input.as_bytes()).expect("Failed to read XMI");
    let output = write_xmi(&model).expect("Failed to write XMI");
    let output_str = String::from_utf8(output).expect("Invalid UTF-8");

    // The output MUST contain the <importedNamespace href="..."/> child element
    assert!(
        output_str.contains("<importedNamespace href="),
        "Output must contain <importedNamespace href=...> child element.\nGot:\n{}",
        output_str
    );
}

#[test]
fn test_documentation_body_newline_escaping() {
    // Documentation body with newline should use &#xA; entity, not literal newline
    let input = r#"<?xml version="1.0" encoding="ASCII"?>
<sysml:Documentation xmi:version="2.0" xmlns:xmi="http://www.omg.org/spec/XMI/20131001" xmlns:sysml="https://www.omg.org/spec/SysML/20250201" xmi:id="doc1" elementId="doc1" body="Line one.&#xA;Line two.&#xA;"/>"#;

    let model = read_xmi(input.as_bytes()).expect("Failed to read XMI");

    // Verify the newline was parsed correctly
    let doc = model.get(&ElementId::new("doc1")).expect("doc not found");
    assert_eq!(
        doc.documentation.as_deref(),
        Some("Line one.\nLine two.\n"),
        "Newlines should be parsed from &#xA;"
    );

    // Write it back
    let output = write_xmi(&model).expect("Failed to write XMI");
    let output_str = String::from_utf8(output).expect("Invalid UTF-8");

    // Output must use &#xA; entity, NOT literal newlines or double-escaped &amp;#xA;
    assert!(
        output_str.contains("&#xA;"),
        "Output must contain &#xA; entity for newlines.\nGot:\n{}",
        output_str
    );
    assert!(
        !output_str.contains("&amp;#xA;"),
        "Output must NOT double-escape to &amp;#xA;.\nGot:\n{}",
        output_str
    );
}

#[test]
fn xmi_reader_records_relationships_and_namespaces() {
    let input = br#"<?xml version="1.0" encoding="UTF-8"?>
<xmi:XMI xmlns:xmi="http://www.omg.org/spec/XMI/20131001" xmlns:sysml="https://example.org/sysml">
  <sysml:Package xmi:id="p" name="P">
    <ownedRelationship xsi:type="sysml:Specialization" xmi:id="s1" specific="a" general="b"/>
    <ownedRelationship xsi:type="sysml:FeatureTyping" xmi:id="t1">
      <type href="../lib/Base.kermlx#base-id"/>
    </ownedRelationship>
  </sysml:Package>
</xmi:XMI>"#;
    let model = read_xmi(input).expect("read");
    assert_eq!(model.metadata.declared_namespaces.len(), 2);
    assert!(model
        .metadata
        .declared_namespaces
        .iter()
        .any(|(p, u)| p == "sysml" && u == "https://example.org/sysml"));
    let s1 = model.get(&ElementId::new("s1")).unwrap();
    let rel = s1.relationship.as_ref().expect("relationship data");
    assert_eq!(rel.source[0].as_str(), "p");
    assert_eq!(rel.target[0].as_str(), "b");
    assert_eq!(s1.owner.as_ref().unwrap().as_str(), "p");
    // No endpoint attribute, so nothing waits for the reference's target.
    let t1 = model.get(&ElementId::new("t1")).unwrap();
    assert!(t1.relationship.is_none());
    match t1.properties.get("href_target_name") {
        Some(PropertyValue::String(s)) => assert_eq!(s, "Base"),
        other => panic!("unexpected {:?}", other),
    }
    let p = model.get(&ElementId::new("p")).unwrap();
    assert_eq!(p.owned_elements.len(), 2);
    assert_eq!(model.roots.len(), 1);
}

#[test]
fn xmi_reader_href_child_completes_pending_relationship() {
    let input = br#"<sysml:Namespace xmlns:sysml="s" xmi:id="ns">
  <ownedRelationship xsi:type="sysml:MembershipImport" xmi:id="imp" source="ns">
    <importedMembership href="../A%20B/Scalar%20Values.kermlx#uuid-1"/>
  </ownedRelationship>
</sysml:Namespace>"#;
    let model = read_xmi(input).expect("read");
    let imp = model.get(&ElementId::new("imp")).unwrap();
    let rel = imp.relationship.as_ref().expect("relationship");
    assert_eq!(rel.source[0].as_str(), "ns");
    assert_eq!(rel.target[0].as_str(), "uuid-1");
    match imp.properties.get("href_target_name") {
        Some(PropertyValue::String(s)) => assert_eq!(s, "Scalar Values"),
        other => panic!("unexpected {:?}", other),
    }
    match imp.properties.get("_href_tag") {
        Some(PropertyValue::String(s)) => assert_eq!(s, "importedMembership"),
        other => panic!("unexpected {:?}", other),
    }
}

#[test]
fn xmi_reader_types_literal_values() {
    let input = br#"<xmi:XMI xmlns:sysml="s">
  <sysml:LiteralInteger xmi:id="i" value="-42"/>
  <sysml:LiteralInteger xmi:id="j" value="4x"/>
  <sysml:LiteralBoolean xmi:id="b" value="true"/>
  <sysml:Package xmi:id="q" value="7" note="n"/>
</xmi:XMI>"#;
    let model = read_xmi(input).expect("read");
    assert_eq!(model.get(&ElementId::new("i")).unwrap().properties.get("value"), Some(&PropertyValue::Integer(-42)));
    assert_eq!(
        model.get(&ElementId::new("j")).unwrap().properties.get("value"),
        Some(&PropertyValue::String("4x".to_string()))
    );
    assert_eq!(model.get(&ElementId::new("b")).unwrap().properties.get("value"), Some(&PropertyValue::Boolean(true)));
    let q = model.get(&ElementId::new("q")).unwrap();
    assert_eq!(q.properties.get("value"), Some(&PropertyValue::String("7".to_string())));
    assert_eq!(q.properties.get("note"), Some(&PropertyValue::String("n".to_string())));
    assert!(q.properties.get("xmlns:sysml").is_none());
}

#[test]
fn xmi_reader_reports_malformed_xml() {
    let err = read_xmi(b"<a><b></a>").unwrap_err();
    assert!(err.message().starts_with("XML parse error at position"), "{}", err.message());
}

#[test]
fn jsonld_document_roundtrip_keeps_order_and_fields() {
    let mut model = Model::new();
    let mut pkg = Element::new("pkg1", ElementKind::Package).with_name("P");
    pkg.owned_elements.push(ElementId::new("a"));
    pkg.owned_elements.push(ElementId::new("b"));
    model.add_element(pkg);
    let mut a = Element::new("a", ElementKind::PartDefinition).with_name("A").with_owner("pkg1");
    a.set_abstract(true);
    model.add_element(a);
    let b = Element::new("b", ElementKind::AttributeUsage).with_short_name("bb").with_owner("pkg1");
    model.add_element(b);

    let model2 = read_jsonld(&write_jsonld(&model).unwrap()).unwrap();
    let ids: Vec<String> = model2.iter_elements().iter().map(|e| e.id.as_str().to_string()).collect();
    assert_eq!(ids, vec!["pkg1", "a", "b"]);
    let pkg2 = model2.get(&ElementId::new("pkg1")).unwrap();
    let owned: Vec<&str> = pkg2.owned_elements.iter().map(|i| i.as_str()).collect();
    assert_eq!(owned, vec!["a", "b"]);
    assert!(pkg2.owner.is_none());
    let a2 = model2.get(&ElementId::new("a")).unwrap();
    assert!(a2.is_abstract);
    assert_eq!(a2.owner.as_ref().map(|o| o.as_str()), Some("pkg1"));
    let b2 = model2.get(&ElementId::new("b")).unwrap();
    assert_eq!(b2.short_name.as_deref(), Some("bb"));
    assert_eq!(b2.kind, ElementKind::AttributeUsage);
}

#[test]
fn jsonld_reading_gives_a_listed_child_its_lister() {
    let mut model = Model::new();
    let mut pkg = Element::new("pkg1", ElementKind::Package);
    pkg.owned_elements.push(ElementId::new("c"));
    model.add_element(pkg);
    model.add_element(Element::new("c", ElementKind::PartUsage));

    let model2 = read_jsonld(&write_jsonld(&model).unwrap()).unwrap();
    let c2 = model2.get(&ElementId::new("c")).unwrap();
    assert_eq!(c2.owner.as_ref().map(|o| o.as_str()), Some("pkg1"));
}

#[test]
fn jsonld_document_roundtrip_puts_relationships_after_elements() {
    let mut model = Model::new();
    model.add_element(Element::new("src", ElementKind::PartUsage).with_name("a"));
    model.add_rel("rel1", ElementKind::Subsetting, "src", "tgt", None);
    model.add_element(Element::new("tgt", ElementKind::PartUsage).with_name("b"));

    let model2 = read_jsonld(&write_jsonld(&model).unwrap()).unwrap();
    let ids: Vec<String> = model2.iter_elements().iter().map(|e| e.id.as_str().to_string()).collect();
    assert_eq!(ids, vec!["src", "tgt", "rel1"]);
    let rel = model2.get(&ElementId::new("rel1")).unwrap();
    assert_eq!(rel.kind, ElementKind::Subsetting);
    assert_eq!(rel.source().map(|s| s.as_str()), Some("src"));
    assert_eq!(rel.target().map(|t| t.as_str()), Some("tgt"));
    assert!(rel.owner.is_none());
}

#[test]
fn xmi_reader_keeps_property_order() {
    let input = br#"<xmi:XMI xmlns:sysml="s">
  <sysml:PartUsage xmi:id="p" xmi:type="sysml:PartUsage" zeta="1" isUnique="false" isAbstract="true" alpha="2"/>
</xmi:XMI>"#;
    let model = read_xmi(input).expect("read");
    let p = model.get(&ElementId::new("p")).unwrap();
    let keys: Vec<&str> = p.properties.keys().map(|k| k.as_str()).collect();
    assert_eq!(keys, vec!["_xsi_type", "isAbstract", "isUnique", "zeta", "alpha"]);
    assert_eq!(p.properties.get("isUnique"), Some(&PropertyValue::Boolean(false)));
}

#[test]
fn jsonld_reader_keeps_property_order() {
    let input = br#"{"@id": "x", "@type": "PartUsage", "zeta": "1", "isAbstract": true, "alpha": 2}"#;
    let model = read_jsonld(input).expect("read");
    let x = model.get(&ElementId::new("x")).unwrap();
    let keys: Vec<&str> = x.properties.keys().map(|k| k.as_str()).collect();
    assert_eq!(keys, vec!["isAbstract", "alpha", "zeta"]);
    assert_eq!(x.properties.get("alpha"), Some(&PropertyValue::Integer(2)));
}

#[test]
fn only_cycles_below_the_roots_stop_writing() {
    let mut model = Model::new();
    model.add_element(Element::new("r", ElementKind::Package));
    model.add_element(Element::new("c1", ElementKind::Package).with_owner("c2").with_owned("c2"));
    model.add_element(Element::new("c2", ElementKind::Package).with_owner("c1").with_owned("c1"));
    assert!(!ownership_is_acyclic(&model));
    assert!(roots_ownership_is_acyclic(&model));
    assert!(write_xmi(&model).is_ok());

    let mut looped = Model::new();
    looped.add_element(Element::new("a", ElementKind::Package).with_owned("b"));
    looped.add_element(Element::new("b", ElementKind::Package).with_owner("a").with_owned("a"));
    assert!(!roots_ownership_is_acyclic(&looped));
    assert!(write_xmi(&looped).is_err());
}
