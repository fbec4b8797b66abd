use syster::element_kind::ElementKind;
use syster::model::{Element, ElementId, Model, PropertyValue};
use syster::symbols::{element_kind_for_rel, element_kind_for_symbol, last_segment_of, multiplicity_for, symbols_from_model, Direction, Multiplicity, SymbolKind, SymbolRelKind};

#[test]
fn test_symbols_from_empty_model() {
    let model = Model::new();
    let symbols = symbols_from_model(&model);
    assert!(symbols.is_empty(), "Empty model should produce no symbols");
}

#[test]
fn test_symbols_from_model_single_package() {
    let mut model = Model::new();
    let pkg = Element::new(ElementId::new("TestPackage"), ElementKind::Package).with_name("TestPackage");
    model.add_element(pkg);
    let symbols = symbols_from_model(&model);
    assert_eq!(symbols.len(), 1, "Should have one symbol");
    assert_eq!(symbols[0].name.as_str(), "TestPackage");
    assert_eq!(symbols[0].kind, SymbolKind::Package);
    assert_eq!(symbols[0].qualified_name.as_str(), "TestPackage");
}

#[test]
fn test_symbols_from_model_with_part_definitions() {
    let mut model = Model::new();
    let pkg = Element::new(ElementId::new("Vehicle"), ElementKind::Package).with_name("Vehicle");
    model.add_element(pkg);
    let car = Element::new(ElementId::new("Vehicle::Car"), ElementKind::PartDefinition)
        .with_name("Car")
        .with_owner(ElementId::new("Vehicle"));
    model.add_element(car);
    let engine = Element::new(ElementId::new("Vehicle::Engine"), ElementKind::PartDefinition)
        .with_name("Engine")
        .with_owner(ElementId::new("Vehicle"));
    model.add_element(engine);
    let symbols = symbols_from_model(&model);
    assert_eq!(symbols.len(), 3, "Should have 3 symbols");
    let car_sym = symbols.iter().find(|s| s.name.as_str() == "Car").expect("Should have Car");
    assert_eq!(car_sym.kind, SymbolKind::PartDefinition);
    assert_eq!(car_sym.qualified_name.as_str(), "Car");
    let engine_sym = symbols.iter().find(|s| s.name.as_str() == "Engine").expect("Should have Engine");
    assert_eq!(engine_sym.kind, SymbolKind::PartDefinition);
}

#[test]
fn test_symbols_from_model_with_relationships() {
    let mut model = Model::new();
    let vehicle = Element::new(ElementId::new("Vehicle"), ElementKind::PartDefinition).with_name("Vehicle");
    model.add_element(vehicle);
    let car = Element::new(ElementId::new("Car"), ElementKind::PartDefinition).with_name("Car");
    model.add_element(car);
    model.add_rel(
        ElementId::new("rel_1"),
        ElementKind::Specialization,
        ElementId::new("Car"),
        ElementId::new("Vehicle"),
        None,
    );
    let symbols = symbols_from_model(&model);
    let car_sym = symbols.iter().find(|s| s.name.as_str() == "Car").expect("Should have Car");
    assert!(!car_sym.relationships.is_empty(), "Car should have relationships");
    let spec_rel = car_sym
        .relationships
        .iter()
        .find(|r| r.kind == SymbolRelKind::Specializes)
        .expect("Should have specialization");
    assert_eq!(spec_rel.target.as_str(), "Vehicle");
    assert!(car_sym.supertypes.iter().any(|s| s.as_str() == "Vehicle"));
}

#[test]
fn test_symbols_from_model_with_documentation() {
    let mut model = Model::new();
    let mut pkg = Element::new(ElementId::new("MyPackage"), ElementKind::Package).with_name("MyPackage");
    pkg.documentation = Some("This is a documented package".into());
    model.add_element(pkg);
    let symbols = symbols_from_model(&model);
    assert_eq!(symbols.len(), 1);
    assert_eq!(symbols[0].doc.as_deref(), Some("This is a documented package"));
}

#[test]
fn symbols_skip_relationships_and_fall_back_to_names() {
    let mut model = Model::new();
    let mut a = Element::new("a", ElementKind::AttributeUsage);
    a.qualified_name = Some("P::Q::speed".to_string());
    a.properties.insert("direction".to_string(), PropertyValue::String("inout".to_string()));
    model.add_element(a);
    model.add_rel("t", ElementKind::FeatureTyping, "a", "missing", None);
    let symbols = symbols_from_model(&model);
    assert_eq!(symbols.len(), 1);
    assert_eq!(symbols[0].name.as_str(), "speed");
    assert_eq!(symbols[0].kind, SymbolKind::AttributeUsage);
    assert_eq!(symbols[0].direction, Some(Direction::InOut));
    assert_eq!(symbols[0].relationships.len(), 1);
    assert_eq!(symbols[0].relationships[0].kind, SymbolRelKind::TypedBy);
    assert_eq!(symbols[0].relationships[0].target.as_str(), "missing");
    assert_eq!(symbols[0].relationships[0].resolved_target.as_deref(), Some("missing"));
    assert!(symbols[0].supertypes.is_empty());
}

#[test]
fn last_segment_follows_the_last_separator() {
    assert_eq!(last_segment_of("A::B::C"), "C");
    assert_eq!(last_segment_of("plain"), "plain");
    assert_eq!(last_segment_of("a:::b"), "b");
}

#[test]
fn multiplicity_is_read_from_a_range_child() {
    let mut model = Model::new();
    let mut part = Element::new("p", ElementKind::PartUsage);
    part.owned_elements.push(ElementId::new("m"));
    model.add_element(part);
    let mut membership = Element::new("m", ElementKind::OwningMembership).with_owner("p");
    membership.owned_elements.push(ElementId::new("r"));
    model.add_element(membership);
    let mut range = Element::new("r", ElementKind::MultiplicityRange).with_owner("m");
    range.owned_elements.push(ElementId::new("lo"));
    range.owned_elements.push(ElementId::new("hi"));
    model.add_element(range);
    let mut lo = Element::new("lo", ElementKind::LiteralInteger).with_owner("r");
    lo.properties.insert("value".to_string(), PropertyValue::Integer(-3));
    model.add_element(lo);
    let mut hi = Element::new("hi", ElementKind::LiteralInteger).with_owner("r");
    hi.properties.insert("value".to_string(), PropertyValue::Integer(4));
    model.add_element(hi);
    let p = model.get(&ElementId::new("p")).unwrap();
    assert_eq!(multiplicity_for(&model, p), Some(Multiplicity { lower: Some(0), upper: Some(4) }));
}

#[test]
fn symbol_kinds_convert_to_element_kinds_and_back() {
    assert_eq!(ElementKind::from(SymbolKind::PartDefinition), ElementKind::PartDefinition);
    assert_eq!(SymbolKind::from(ElementKind::LibraryPackage), SymbolKind::Package);
    assert_eq!(SymbolKind::from(ElementKind::NamespaceImport), SymbolKind::Import);
    assert_eq!(element_kind_for_symbol(SymbolKind::Alias), ElementKind::Alias);
    assert_eq!(SymbolKind::from(ElementKind::Alias), SymbolKind::Other);
    assert_eq!(SymbolKind::from(element_kind_for_symbol(SymbolKind::StateUsage)), SymbolKind::StateUsage);
    assert_eq!(element_kind_for_rel(SymbolRelKind::TypedBy), Some(ElementKind::FeatureTyping));
    assert_eq!(element_kind_for_rel(SymbolRelKind::Exhibits), None);
}
