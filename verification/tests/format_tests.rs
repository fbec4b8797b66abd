use syster::element_kind::ElementKind;
use syster::format::ModelFormat;
use syster::jsonld::JsonLd;
use syster::xmi::Xmi;

#[test]
fn test_jsonld_format_metadata() {
    let jsonld = JsonLd;
    assert_eq!(jsonld.name(), "JSON-LD");
    assert_eq!(jsonld.extensions(), &["jsonld", "json"]);
    assert_eq!(jsonld.mime_type(), "application/ld+json");
    assert!(jsonld.capabilities().read);
    assert!(jsonld.capabilities().write);
    assert!(jsonld.capabilities().streaming);
}

#[test]
fn test_jsonld_validate_object() {
    let jsonld = JsonLd;
    let input = br#"{"@context": "...", "@type": "Package"}"#;
    assert!(jsonld.validate(input).is_ok());
}

#[test]
fn test_jsonld_validate_array() {
    let jsonld = JsonLd;
    let input = br#"[{"@id": "1"}, {"@id": "2"}]"#;
    assert!(jsonld.validate(input).is_ok());
}

#[test]
fn test_jsonld_validate_invalid() {
    let jsonld = JsonLd;
    let input = b"not json";
    assert!(jsonld.validate(input).is_err());
}

#[test]
fn test_xmi_format_metadata() {
    let xmi = Xmi;
    assert_eq!(xmi.name(), "XMI");
    assert_eq!(xmi.extensions(), &["xmi"]);
    assert_eq!(xmi.mime_type(), "application/xmi+xml");
    assert!(xmi.capabilities().read);
    assert!(xmi.capabilities().write);
}

#[test]
fn test_xmi_validate_valid() {
    let xmi = Xmi;
    let input =
        br#"<?xml version="1.0"?><xmi:XMI xmlns:xmi="http://www.omg.org/spec/XMI/20131001"/>"#;
    assert!(xmi.validate(input).is_ok());
}

#[test]
fn test_xmi_validate_invalid() {
    let xmi = Xmi;
    let input = b"<root>not xmi</root>";
    assert!(xmi.validate(input).is_err());
}

#[test]
fn test_element_kind_from_xmi() {
    assert_eq!(ElementKind::from_xmi_type("sysml:Package"), ElementKind::Package);
    assert_eq!(
        ElementKind::from_xmi_type("sysml:PartDefinition"),
        ElementKind::PartDefinition
    );
    assert_eq!(ElementKind::from_xmi_type("kerml:Feature"), ElementKind::Feature);
}

#[test]
fn test_relationship_element_kind_from_xmi() {
    assert_eq!(
        ElementKind::from_xmi_type("kerml:Specialization"),
        ElementKind::Specialization
    );
    assert_eq!(
        ElementKind::from_xmi_type("kerml:FeatureTyping"),
        ElementKind::FeatureTyping
    );
}

#[test]
fn jsonld_validate_skips_leading_whitespace() {
    assert!(JsonLd.validate(b" \n\t {}").is_ok());
    assert!(JsonLd.validate(b"   ").is_err());
    assert!(JsonLd.validate(b"").is_err());
}

#[test]
fn validate_rejects_invalid_utf8() {
    let bad: &[u8] = &[0xff, 0xfe, b'{'];
    match JsonLd.validate(bad) {
        Err(e) => assert!(e.message().starts_with("Invalid UTF-8: ")),
        Ok(()) => panic!("accepted invalid UTF-8"),
    }
    match Xmi.validate(bad) {
        Err(e) => assert!(e.message().starts_with("Invalid UTF-8: ")),
        Ok(()) => panic!("accepted invalid UTF-8"),
    }
}

#[test]
fn xmi_validate_accepts_namespace_roots() {
    assert!(Xmi.validate(b"<sysml:Namespace/>").is_ok());
    assert!(Xmi.validate(b"<kerml:Namespace/>").is_ok());
    match Xmi.validate(b"<root/>") {
        Err(e) => assert_eq!(e.message(), "Missing XMI/SysML root element"),
        Ok(()) => panic!("accepted a document without an XMI root"),
    }
}
