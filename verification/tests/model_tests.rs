use syster::element_kind::ElementKind;
use syster::model::{Element, ElementId, Model, RelationshipData};
use syster::xmi_reader::{extract_attr_value, extract_name_from_href_path, parse_i64_text, resolve_referenced_name, split_href};

#[test]
fn test_element_id_generation() {
    let id1 = ElementId::generate();
    let id2 = ElementId::generate();
    assert_ne!(id1, id2);
}

#[test]
fn test_element_builder() {
    let element = Element::new("pkg1", ElementKind::Package)
        .with_name("MyPackage")
        .with_short_name("mp");

    assert_eq!(element.id.as_str(), "pkg1");
    assert_eq!(element.name.as_deref(), Some("MyPackage"));
    assert_eq!(element.short_name.as_deref(), Some("mp"));
    assert_eq!(element.kind, ElementKind::Package);
}

#[test]
fn test_model_add_elements() {
    let mut model = Model::new();

    let pkg = Element::new("pkg1", ElementKind::Package).with_name("Root");
    model.add_element(pkg);

    let part = Element::new("part1", ElementKind::PartDefinition)
        .with_name("Vehicle")
        .with_owner("pkg1");
    model.add_element(part);

    assert_eq!(model.element_count(), 2);
    assert_eq!(model.roots.len(), 1);
    assert_eq!(
        model.get(&ElementId::new("pkg1")).unwrap().name.as_deref(),
        Some("Root")
    );
}

#[test]
fn test_model_relationships() {
    let mut model = Model::new();

    model.add_element(Element::new("def1", ElementKind::PartDefinition).with_name("Base"));
    model.add_element(Element::new("def2", ElementKind::PartDefinition).with_name("Derived"));

    model.add_rel("rel1", ElementKind::Specialization, "def2", "def1", None);

    assert_eq!(model.relationship_count(), 1);
    let source_id = ElementId::new("def2");
    let rels: Vec<_> = model.rel_elements_from(&source_id);
    assert_eq!(rels.len(), 1);
    assert_eq!(rels[0].target().unwrap().as_str(), "def1");
}

#[test]
fn test_element_kind_xmi_roundtrip() {
    let kinds = [
        ElementKind::Package,
        ElementKind::PartDefinition,
        ElementKind::ActionUsage,
        ElementKind::Specialization,
    ];

    for kind in kinds {
        let xmi_type = kind.xmi_type();
        let parsed = ElementKind::from_xmi_type(xmi_type);
        assert_eq!(kind, parsed, "Failed roundtrip for {xmi_type}");
    }
}

#[test]
fn test_relationship_data_new() {
    let rd = RelationshipData::new("src1", "tgt1");
    assert_eq!(rd.source().unwrap().as_str(), "src1");
    assert_eq!(rd.target().unwrap().as_str(), "tgt1");
    assert_eq!(rd.source.len(), 1);
    assert_eq!(rd.target.len(), 1);
}

#[test]
fn test_relationship_data_multi() {
    let rd = RelationshipData::new_multi(
        vec![ElementId::new("s1"), ElementId::new("s2")],
        vec![ElementId::new("t1")],
    );
    assert_eq!(rd.source.len(), 2);
    assert_eq!(rd.target.len(), 1);
    assert_eq!(rd.source().unwrap().as_str(), "s1");
}

#[test]
fn test_element_new_has_no_relationship_data() {
    let e = Element::new("e1", ElementKind::Package);
    assert!(!e.is_relationship_element());
    assert!(e.as_relationship().is_none());
    assert!(e.source().is_none());
    assert!(e.target().is_none());
}

#[test]
fn test_element_new_relationship() {
    let e = Element::new_relationship("rel1", ElementKind::Specialization, "derived", "base");
    assert!(e.is_relationship_element());
    assert_eq!(e.source().unwrap().as_str(), "derived");
    assert_eq!(e.target().unwrap().as_str(), "base");
    assert_eq!(e.kind, ElementKind::Specialization);
}

#[test]
fn test_element_with_relationship_builder() {
    let e = Element::new("rel2", ElementKind::FeatureTyping)
        .with_name("typing1")
        .with_relationship("feature1", "type1");
    assert!(e.is_relationship_element());
    assert_eq!(e.name.as_deref(), Some("typing1"));
    assert_eq!(e.source().unwrap().as_str(), "feature1");
    assert_eq!(e.target().unwrap().as_str(), "type1");
}

#[test]
fn test_element_as_relationship_mut() {
    let mut e = Element::new_relationship("rel3", ElementKind::Subsetting, "sub", "super");
    let rd = e.as_relationship_mut().unwrap();
    rd.target.push(ElementId::new("super2"));
    assert_eq!(e.as_relationship().unwrap().target.len(), 2);
}

#[test]
fn test_add_rel_creates_element() {
    let mut model = Model::new();
    model.add_element(Element::new("a", ElementKind::PartDefinition).with_name("A"));
    model.add_element(Element::new("b", ElementKind::PartDefinition).with_name("B"));

    model.add_rel("rel1", ElementKind::Specialization, "b", "a", None);

    assert_eq!(model.relationship_count(), 1);
    let rel_el = model.get(&ElementId::new("rel1")).unwrap();
    assert!(rel_el.is_relationship_element());
    assert_eq!(rel_el.kind, ElementKind::Specialization);
    assert_eq!(rel_el.source().unwrap().as_str(), "b");
    assert_eq!(rel_el.target().unwrap().as_str(), "a");
}

#[test]
fn test_add_rel_preserves_owner() {
    let mut model = Model::new();
    model.add_element(Element::new("feat", ElementKind::Feature));
    model.add_element(Element::new("typ", ElementKind::Class));

    model.add_rel(
        "rel_t",
        ElementKind::FeatureTyping,
        "feat",
        "typ",
        Some(ElementId::new("feat")),
    );

    let el = model.get(&ElementId::new("rel_t")).unwrap();
    assert_eq!(el.owner.as_ref().unwrap().as_str(), "feat");
}

#[test]
fn test_add_rel_does_not_duplicate() {
    let mut model = Model::new();

    let existing = Element::new("rel_x", ElementKind::FeatureTyping).with_name("pre-existing");
    model.add_element(existing);

    model.add_rel("rel_x", ElementKind::FeatureTyping, "s", "t", None);

    let el = model.get(&ElementId::new("rel_x")).unwrap();
    assert!(el.is_relationship_element());
    assert_eq!(model.relationship_count(), 1);
}

#[test]
fn test_relationship_element_kinds_are_relationships() {
    let kinds = [
        ElementKind::Specialization,
        ElementKind::FeatureTyping,
        ElementKind::Subsetting,
        ElementKind::Redefinition,
        ElementKind::Membership,
        ElementKind::OwningMembership,
        ElementKind::FeatureMembership,
        ElementKind::NamespaceImport,
        ElementKind::MembershipImport,
        ElementKind::FeatureChaining,
        ElementKind::Disjoining,
        ElementKind::Dependency,
        ElementKind::Verification,
    ];

    for ek in kinds {
        assert!(
            ek.is_relationship(),
            "{:?} should be a relationship ElementKind",
            ek
        );
    }
}

#[test]
fn parse_i64_text_reads_like_std() {
    for s in ["0", "42", "-42", "+7", "-", "+", "", "9223372036854775807", "-9223372036854775808", "9223372036854775808", "-9223372036854775809", "1_0", "-+1", " 1"] {
        assert_eq!(parse_i64_text(s), s.parse::<i64>().ok(), "{:?}", s);
    }
}

#[test]
fn href_file_name_is_the_referenced_file_stem() {
    assert_eq!(
        extract_name_from_href_path("../Kernel%20Data%20Type%20Library/ScalarValues.kermlx#uuid").as_deref(),
        Some("ScalarValues")
    );
    assert_eq!(extract_name_from_href_path("Base.sysmlx#x").as_deref(), Some("Base"));
    assert_eq!(extract_name_from_href_path("dir/noext#x"), None);
    assert_eq!(extract_name_from_href_path("File.kermlx"), None);
    assert_eq!(extract_name_from_href_path("a%20b.c#d").as_deref(), Some("a b"));
}

#[test]
fn attribute_values_and_referenced_names() {
    assert_eq!(extract_attr_value(r#"<a name="x" declaredName="Y">"#, "declaredName").as_deref(), Some("Y"));
    assert_eq!(extract_attr_value(r#"<a name="x">"#, "name").as_deref(), Some("x"));
    assert_eq!(extract_attr_value(r#"<a name="x>"#, "name"), None);
    assert_eq!(extract_attr_value(r#"<a>"#, "name"), None);
    let content = r#"<x xmi:id="u1" declaredName="Real"/><y xmi:id="u2" name="Int"/>"#;
    assert_eq!(resolve_referenced_name(content, "u1", "ScalarValues").as_deref(), Some("ScalarValues::Real"));
    assert_eq!(resolve_referenced_name(content, "u2", "S").as_deref(), Some("S::Int"));
    assert_eq!(resolve_referenced_name(content, "u3", "S"), None);
    assert_eq!(
        split_href("../A%20B/C.kermlx#id-1"),
        Some(("../A B/C.kermlx".to_string(), "id-1".to_string()))
    );
    assert_eq!(split_href("no-hash"), None);
}

#[test]
fn wrap_children_wraps_each_child_once() {
    let mut model = Model::new();
    model.add_element(Element::new("pkg", ElementKind::Package).with_owned("part"));
    model.add_element(
        Element::new("part", ElementKind::PartDefinition)
            .with_owner("pkg")
            .with_owned("attr"),
    );
    model.add_element(Element::new("attr", ElementKind::AttributeUsage).with_owner("part"));
    model.wrap_children_in_memberships();
    assert_eq!(model.element_count(), 5);
    let part = model.get(&ElementId::new("part")).unwrap();
    assert_eq!(part.owner.as_ref().unwrap().as_str(), "part-m");
    assert_eq!(model.get(&ElementId::new("part-m")).unwrap().kind, ElementKind::OwningMembership);
    assert_eq!(model.get(&ElementId::new("attr-m")).unwrap().kind, ElementKind::FeatureMembership);
    let pkg = model.get(&ElementId::new("pkg")).unwrap();
    assert_eq!(pkg.owned_elements[0].as_str(), "part-m");

    // A second run finds nothing left to wrap.
    model.wrap_children_in_memberships();
    assert_eq!(model.element_count(), 5);
    assert_eq!(model.get(&ElementId::new("part")).unwrap().owner.as_ref().unwrap().as_str(), "part-m");
    assert!(model.get(&ElementId::new("part-m-m")).is_none());
}

#[test]
fn added_element_is_found_under_its_id() {
    let mut model = Model::new();
    model.add_element(Element::new("a", ElementKind::Package).with_name("First"));
    model.add_element(Element::new("b", ElementKind::Package));
    model.add_element(Element::new("a", ElementKind::PartDefinition).with_name("Second"));
    assert_eq!(model.element_count(), 2);
    let a = model.get(&ElementId::new("a")).unwrap();
    assert_eq!(a.kind, ElementKind::PartDefinition);
    assert_eq!(a.name.as_deref(), Some("Second"));
    let ids: Vec<&str> = model.iter_elements().iter().map(|e| e.id.as_str()).collect();
    assert_eq!(ids, vec!["a", "b"]);
}
