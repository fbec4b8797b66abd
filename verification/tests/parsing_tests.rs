use syster::ast_elements::{Usage, UsageKind};
use syster::ast_names::{parse_u64_text, strip_unrestricted_name, PrefixMetadata, QualifiedName};
use syster::ast_namespace::{Dependency, ElementFilter, Import, Specialization, SpecializationKind, TransitionUsage};
use syster::expr::{parse_argument_list, parse_expression};
use syster::sysml_members::{parse_allocate_end_member, parse_edge_succession, parse_filter};
use syster::parser::{ParseError, Parser, Token};
use syster::source_map::SourceMap;
use syster::syntax::{SyntaxNode, SyntaxTree, TreeBuilder};
use syster::syntax_kind::SyntaxKind;
use syster::sysml_keywords::{
    has_def_keyword, is_definition_or_usage_start, is_sysml_definition_keyword, is_sysml_usage_keyword, is_usage_prefix,
    parse_definition_keyword, peek_for_direct_flow,
};
use syster::element_kind::ElementKind;
use syster::model::{Element, ElementId, Model};

fn tok(kind: SyntaxKind, text: &str) -> Token {
    Token { kind, text: text.to_string() }
}

fn token_texts(t: &SyntaxTree) -> Vec<String> {
    t.entries.iter().filter(|e| e.is_token).map(|e| e.text.clone()).collect()
}

fn node_kinds(t: &SyntaxTree) -> Vec<SyntaxKind> {
    t.entries.iter().filter(|e| !e.is_token).map(|e| e.kind).collect()
}

fn parse_expr_tokens(tokens: Vec<Token>) -> (SyntaxTree, Vec<ParseError>, bool) {
    let mut p = Parser::new(tokens);
    let progressed = parse_expression(&mut p);
    let (tree, errors) = p.finish();
    (tree, errors, progressed)
}

#[test]
fn expression_tree_keeps_every_token_in_order() {
    let tokens = vec![
        tok(SyntaxKind::INTEGER, "1"),
        tok(SyntaxKind::WHITESPACE, " "),
        tok(SyntaxKind::PLUS, "+"),
        tok(SyntaxKind::WHITESPACE, " "),
        tok(SyntaxKind::INTEGER, "2"),
        tok(SyntaxKind::WHITESPACE, " "),
        tok(SyntaxKind::STAR, "*"),
        tok(SyntaxKind::WHITESPACE, " "),
        tok(SyntaxKind::IDENT, "x"),
    ];
    let (tree, errors, progressed) = parse_expr_tokens(tokens);
    assert!(progressed);
    assert!(errors.is_empty(), "{:?}", errors);
    assert_eq!(token_texts(&tree), vec!["1", " ", "+", " ", "2", " ", "*", " ", "x"]);
    let kinds = node_kinds(&tree);
    assert!(kinds.contains(&SyntaxKind::EXPRESSION));
}

#[test]
fn empty_input_makes_no_progress() {
    let (tree, _errors, progressed) = parse_expr_tokens(Vec::new());
    assert!(!progressed);
    assert!(token_texts(&tree).is_empty());
}

#[test]
fn call_arguments_are_kept_in_the_tree() {
    let tokens = vec![
        tok(SyntaxKind::IDENT, "f"),
        tok(SyntaxKind::L_PAREN, "("),
        tok(SyntaxKind::INTEGER, "1"),
        tok(SyntaxKind::COMMA, ","),
        tok(SyntaxKind::IDENT, "y"),
        tok(SyntaxKind::R_PAREN, ")"),
    ];
    let (tree, errors, progressed) = parse_expr_tokens(tokens);
    assert!(progressed);
    assert!(errors.is_empty(), "{:?}", errors);
    assert_eq!(token_texts(&tree), vec!["f", "(", "1", ",", "y", ")"]);
    assert!(node_kinds(&tree).contains(&SyntaxKind::ARGUMENT_LIST));
}

#[test]
fn parser_expect_notes_missing_tokens() {
    let mut p = Parser::new(vec![tok(SyntaxKind::IDENT, "a")]);
    p.start_node(SyntaxKind::QUALIFIED_NAME);
    p.expect(SyntaxKind::COLON_COLON);
    p.finish_node();
    let (tree, errors) = p.finish();
    assert_eq!(errors, vec![ParseError { pos: 0, expected: SyntaxKind::COLON_COLON }]);
    assert!(token_texts(&tree).is_empty());
}

#[test]
fn qualified_name_segments_come_from_the_parsed_name() {
    let tokens = vec![
        tok(SyntaxKind::IDENT, "A"),
        tok(SyntaxKind::COLON_COLON, "::"),
        tok(SyntaxKind::IDENT, "'b c'"),
        tok(SyntaxKind::COLON_COLON, "::"),
        tok(SyntaxKind::IDENT, "D"),
    ];
    let mut p = Parser::new(tokens);
    p.parse_qualified_name();
    let (tree, errors) = p.finish();
    assert!(errors.is_empty());
    let root = SyntaxNode { tree: &tree, index: 0 };
    assert_eq!(root.kind(), SyntaxKind::QUALIFIED_NAME);
    assert_eq!(QualifiedName(root).segments(), vec!["A", "b c", "D"]);
}

#[test]
fn qualified_name_without_name_notes_an_identifier() {
    let mut p = Parser::new(vec![tok(SyntaxKind::COMMA, ",")]);
    p.parse_qualified_name();
    let (_tree, errors) = p.finish();
    assert_eq!(errors, vec![ParseError { pos: 0, expected: SyntaxKind::IDENT }]);
}

#[test]
fn peek_skips_trivia() {
    let p = Parser::new(vec![
        tok(SyntaxKind::IDENT, "a"),
        tok(SyntaxKind::WHITESPACE, " "),
        tok(SyntaxKind::COLON_COLON, "::"),
    ]);
    assert_eq!(p.current_kind(), SyntaxKind::IDENT);
    assert_eq!(p.peek_kind(1), SyntaxKind::COLON_COLON);
    assert_eq!(p.peek_kind(2), SyntaxKind::ERROR);
}

#[test]
fn usage_kind_comes_from_its_keyword() {
    let mut b = TreeBuilder::new();
    b.start_node(SyntaxKind::USAGE);
    b.token(SyntaxKind::PART_KW, "part");
    b.token(SyntaxKind::WHITESPACE, " ");
    b.start_node(SyntaxKind::NAME);
    b.token(SyntaxKind::IDENT, "wheel");
    b.finish_node();
    b.finish_node();
    let tree = b.finish();
    let node = SyntaxNode { tree: &tree, index: 0 };
    let usage = Usage::cast(node).expect("a usage");
    assert_eq!(usage.usage_kind(), Some(UsageKind::Part));
    assert!(!usage.is_include());
    assert!(Usage::cast(node.at(2)).is_none());
}

#[test]
fn keyword_classes() {
    assert!(is_sysml_definition_keyword(SyntaxKind::PART_KW));
    assert!(is_sysml_usage_keyword(SyntaxKind::PART_KW));
    assert!(!is_sysml_definition_keyword(SyntaxKind::IDENT));
    assert!(is_usage_prefix(SyntaxKind::REF_KW));
    assert!(!is_usage_prefix(SyntaxKind::COMMA));
}

#[test]
fn source_map_records_and_replaces_spans() {
    let mut map = SourceMap::new();
    assert!(map.is_empty());
    map.record(ElementId::new("a"), (0, 10));
    map.record(ElementId::new("b"), (11, 20));
    map.record(ElementId::new("a"), (3, 4));
    assert_eq!(map.len(), 2);
    assert_eq!(map.span(&ElementId::new("a")), Some((3, 4)));
    assert_eq!(map.span(&ElementId::new("c")), None);
    let ids: Vec<&str> = map.mapped_ids().iter().map(|i| i.as_str()).collect();
    assert_eq!(ids, vec!["a", "b"]);
}

#[test]
fn names_and_numbers() {
    assert_eq!(strip_unrestricted_name("'my name'"), "my name");
    assert_eq!(strip_unrestricted_name("plain"), "plain");
    assert_eq!(parse_u64_text("18446744073709551615"), Some(u64::MAX));
    assert_eq!(parse_u64_text("18446744073709551616"), None);
    assert_eq!(parse_u64_text("+5"), Some(5));
    assert_eq!(parse_u64_text("-5"), None);
}

#[test]
fn mapped_ancestor_is_the_nearest_mapped_owner() {
    use_model_for_ancestors();
}

fn use_model_for_ancestors() {
    let mut model = Model::new();
    model.add_element(Element::new("a", ElementKind::Package));
    model.add_element(Element::new("b", ElementKind::OwningMembership).with_owner("a"));
    model.add_element(Element::new("c", ElementKind::PartDefinition).with_owner("b"));
    model.add_element(Element::new("d", ElementKind::PartDefinition).with_owner("missing"));
    let mut map = SourceMap::new();
    map.record(ElementId::new("a"), (0, 5));
    assert_eq!(map.find_mapped_ancestor(&ElementId::new("c"), &model).map(|i| i.as_str().to_string()), Some("a".to_string()));
    assert_eq!(map.find_mapped_ancestor(&ElementId::new("a"), &model), None);
    assert_eq!(map.find_mapped_ancestor(&ElementId::new("d"), &model), None);
    map.record(ElementId::new("b"), (1, 4));
    assert_eq!(map.find_mapped_ancestor(&ElementId::new("c"), &model).map(|i| i.as_str().to_string()), Some("b".to_string()));
}

#[test]
fn named_argument_nodes_come_in_document_order() {
    let tokens = vec![
        tok(SyntaxKind::IDENT, "f"),
        tok(SyntaxKind::L_PAREN, "("),
        tok(SyntaxKind::IDENT, "a"),
        tok(SyntaxKind::EQ, "="),
        tok(SyntaxKind::INTEGER, "1"),
        tok(SyntaxKind::R_PAREN, ")"),
    ];
    let (tree, errors, progressed) = parse_expr_tokens(tokens);
    assert!(progressed);
    assert!(errors.is_empty());
    assert_eq!(
        node_kinds(&tree),
        vec![
            SyntaxKind::EXPRESSION,
            SyntaxKind::QUALIFIED_NAME,
            SyntaxKind::ARGUMENT_LIST,
            SyntaxKind::ARGUMENT_LIST,
            SyntaxKind::EXPRESSION,
        ]
    );
    assert_eq!(token_texts(&tree), vec!["f", "(", "a", "=", "1", ")"]);
}

#[test]
fn inline_conditional_without_colon_notes_it() {
    let tokens = vec![
        tok(SyntaxKind::IDENT, "x"),
        tok(SyntaxKind::WHITESPACE, " "),
        tok(SyntaxKind::QUESTION, "?"),
        tok(SyntaxKind::WHITESPACE, " "),
        tok(SyntaxKind::INTEGER, "1"),
    ];
    let (tree, errors, progressed) = parse_expr_tokens(tokens);
    assert!(progressed);
    assert_eq!(errors, vec![ParseError { pos: 5, expected: SyntaxKind::COLON }]);
    assert_eq!(
        node_kinds(&tree),
        vec![
            SyntaxKind::EXPRESSION,
            SyntaxKind::QUALIFIED_NAME,
            SyntaxKind::EXPRESSION,
            SyntaxKind::EXPRESSION,
        ]
    );
    assert_eq!(token_texts(&tree), vec!["x", " ", "?", " ", "1"]);
}

#[test]
fn inline_conditional_reads_both_branches() {
    let tokens = vec![
        tok(SyntaxKind::IDENT, "x"),
        tok(SyntaxKind::QUESTION, "?"),
        tok(SyntaxKind::INTEGER, "1"),
        tok(SyntaxKind::COLON, ":"),
        tok(SyntaxKind::INTEGER, "2"),
    ];
    let (tree, errors, _) = parse_expr_tokens(tokens);
    assert!(errors.is_empty());
    assert_eq!(
        node_kinds(&tree),
        vec![
            SyntaxKind::EXPRESSION,
            SyntaxKind::QUALIFIED_NAME,
            SyntaxKind::EXPRESSION,
            SyntaxKind::EXPRESSION,
        ]
    );
    assert_eq!(token_texts(&tree), vec!["x", "?", "1", ":", "2"]);
}

#[test]
fn def_keyword_is_found_before_the_declaration_ends() {
    let p = Parser::new(vec![
        tok(SyntaxKind::ABSTRACT_KW, "abstract"),
        tok(SyntaxKind::WHITESPACE, " "),
        tok(SyntaxKind::PART_KW, "part"),
        tok(SyntaxKind::WHITESPACE, " "),
        tok(SyntaxKind::DEF_KW, "def"),
    ]);
    assert!(has_def_keyword(&p));
    assert!(is_definition_or_usage_start(&p));
    let q = Parser::new(vec![
        tok(SyntaxKind::PART_KW, "part"),
        tok(SyntaxKind::IDENT, "x"),
        tok(SyntaxKind::COLON, ":"),
        tok(SyntaxKind::DEF_KW, "def"),
    ]);
    assert!(!has_def_keyword(&q));
}

#[test]
fn direct_flow_needs_to_without_from() {
    let direct = Parser::new(vec![
        tok(SyntaxKind::IDENT, "a"),
        tok(SyntaxKind::DOT, "."),
        tok(SyntaxKind::IDENT, "b"),
        tok(SyntaxKind::TO_KW, "to"),
        tok(SyntaxKind::IDENT, "c"),
    ]);
    assert!(peek_for_direct_flow(&direct));
    let named = Parser::new(vec![
        tok(SyntaxKind::IDENT, "f"),
        tok(SyntaxKind::FROM_KW, "from"),
        tok(SyntaxKind::IDENT, "a"),
        tok(SyntaxKind::TO_KW, "to"),
        tok(SyntaxKind::IDENT, "b"),
    ]);
    assert!(!peek_for_direct_flow(&named));
    let typed = Parser::new(vec![tok(SyntaxKind::IDENT, "f"), tok(SyntaxKind::COLON, ":")]);
    assert!(!peek_for_direct_flow(&typed));
}

#[test]
fn definition_keyword_takes_use_case() {
    let mut p = Parser::new(vec![
        tok(SyntaxKind::USE_KW, "use"),
        tok(SyntaxKind::WHITESPACE, " "),
        tok(SyntaxKind::CASE_KW, "case"),
        tok(SyntaxKind::WHITESPACE, " "),
    ]);
    parse_definition_keyword(&mut p);
    assert_eq!(p.get_pos(), 3);
    let mut q = Parser::new(vec![tok(SyntaxKind::PART_KW, "part"), tok(SyntaxKind::DEF_KW, "def")]);
    parse_definition_keyword(&mut q);
    assert_eq!(q.get_pos(), 1);
    let mut r = Parser::new(vec![tok(SyntaxKind::IDENT, "x")]);
    parse_definition_keyword(&mut r);
    assert_eq!(r.get_pos(), 0);
}

#[test]
fn qualified_name_text_joins_segments() {
    let mut p = Parser::new(vec![
        tok(SyntaxKind::IDENT, "Vehicle"),
        tok(SyntaxKind::COLON_COLON, "::"),
        tok(SyntaxKind::IDENT, "'Engine'"),
    ]);
    p.parse_qualified_name();
    let (tree, _) = p.finish();
    let qn = QualifiedName(SyntaxNode { tree: &tree, index: 0 });
    assert_eq!(qn.to_string_inner(), "Vehicle::Engine");
    let mut q = Parser::new(vec![
        tok(SyntaxKind::IDENT, "a"),
        tok(SyntaxKind::DOT, "."),
        tok(SyntaxKind::IDENT, "b"),
        tok(SyntaxKind::DOT, "."),
        tok(SyntaxKind::IDENT, "c"),
    ]);
    q.parse_qualified_name();
    let (tree2, _) = q.finish();
    assert_eq!(QualifiedName(SyntaxNode { tree: &tree2, index: 0 }).to_string_inner(), "a.b.c");
}

#[test]
fn argument_list_notes_a_missing_open_paren() {
    let mut p = Parser::new(vec![tok(SyntaxKind::INTEGER, "1"), tok(SyntaxKind::R_PAREN, ")")]);
    parse_argument_list(&mut p);
    let (tree, errors) = p.finish();
    assert_eq!(errors, vec![ParseError { pos: 0, expected: SyntaxKind::L_PAREN }]);
    assert_eq!(token_texts(&tree), vec!["1", ")"]);
    assert_eq!(node_kinds(&tree)[0], SyntaxKind::ARGUMENT_LIST);
}

#[test]
fn filter_member_reads_expression_and_semicolon() {
    let mut p = Parser::new(vec![
        tok(SyntaxKind::FILTER_KW, "filter"),
        tok(SyntaxKind::WHITESPACE, " "),
        tok(SyntaxKind::AT, "@"),
        tok(SyntaxKind::IDENT, "Safety"),
        tok(SyntaxKind::SEMICOLON, ";"),
    ]);
    parse_filter(&mut p);
    let (tree, errors) = p.finish();
    assert!(errors.is_empty(), "{:?}", errors);
    assert_eq!(node_kinds(&tree)[0], SyntaxKind::ELEMENT_FILTER_MEMBER);
    assert_eq!(token_texts(&tree), vec!["filter", " ", "@", "Safety", ";"]);
}

#[test]
fn edge_succession_wraps_both_ends() {
    let mut p = Parser::new(vec![
        tok(SyntaxKind::IDENT, "edge"),
        tok(SyntaxKind::WHITESPACE, " "),
        tok(SyntaxKind::IDENT, "a"),
        tok(SyntaxKind::WHITESPACE, " "),
        tok(SyntaxKind::TO_KW, "to"),
        tok(SyntaxKind::WHITESPACE, " "),
        tok(SyntaxKind::IDENT, "b"),
        tok(SyntaxKind::SEMICOLON, ";"),
    ]);
    parse_edge_succession(&mut p);
    let (tree, errors) = p.finish();
    assert!(errors.is_empty());
    assert_eq!(
        node_kinds(&tree),
        vec![
            SyntaxKind::SUCCESSION,
            SyntaxKind::SUCCESSION_ITEM,
            SyntaxKind::QUALIFIED_NAME,
            SyntaxKind::SUCCESSION_ITEM,
            SyntaxKind::QUALIFIED_NAME,
        ]
    );
    let mut q = Parser::new(vec![tok(SyntaxKind::IDENT, "edge")]);
    parse_edge_succession(&mut q);
    let (_, errors2) = q.finish();
    assert_eq!(errors2, vec![ParseError { pos: 1, expected: SyntaxKind::SEMICOLON }]);
}

#[test]
fn allocate_end_reads_named_reference() {
    let mut p = Parser::new(vec![
        tok(SyntaxKind::IDENT, "x"),
        tok(SyntaxKind::WHITESPACE, " "),
        tok(SyntaxKind::COLON_COLON_GT, "::>"),
        tok(SyntaxKind::WHITESPACE, " "),
        tok(SyntaxKind::IDENT, "a"),
        tok(SyntaxKind::COLON_COLON, "::"),
        tok(SyntaxKind::IDENT, "b"),
        tok(SyntaxKind::WHITESPACE, " "),
    ]);
    parse_allocate_end_member(&mut p);
    assert_eq!(p.get_pos(), 8);
    let (tree, errors) = p.finish();
    assert!(errors.is_empty());
    assert_eq!(node_kinds(&tree), vec![SyntaxKind::QUALIFIED_NAME]);
}

fn qn_node(b: &mut TreeBuilder, name: &str) {
    b.start_node(SyntaxKind::QUALIFIED_NAME);
    b.token(SyntaxKind::IDENT, name);
    b.finish_node();
}

#[test]
fn import_is_public_and_recursive() {
    let mut b = TreeBuilder::new();
    b.start_node(SyntaxKind::PACKAGE);
    b.token(SyntaxKind::PUBLIC_KW, "public");
    b.token(SyntaxKind::WHITESPACE, " ");
    b.start_node(SyntaxKind::IMPORT);
    b.token(SyntaxKind::IMPORT_KW, "import");
    qn_node(&mut b, "P");
    b.token(SyntaxKind::COLON_COLON, "::");
    b.token(SyntaxKind::STAR_STAR, "**");
    b.finish_node();
    b.start_node(SyntaxKind::IMPORT);
    b.token(SyntaxKind::IMPORT_KW, "import");
    qn_node(&mut b, "Q");
    b.token(SyntaxKind::COLON_COLON, "::");
    b.token(SyntaxKind::STAR, "*");
    b.finish_node();
    b.finish_node();
    let tree = b.finish();
    let first = Import(SyntaxNode { tree: &tree, index: 3 });
    assert!(first.is_public());
    assert!(first.is_recursive());
    let second_index = (0..tree.entries.len())
        .filter(|&i| tree.entries[i].kind == SyntaxKind::IMPORT && !tree.entries[i].is_token)
        .nth(1)
        .unwrap();
    let second = Import(SyntaxNode { tree: &tree, index: second_index });
    assert!(!second.is_public());
    assert!(!second.is_recursive());
}

#[test]
fn dependency_splits_sources_and_target_at_to() {
    let mut b = TreeBuilder::new();
    b.start_node(SyntaxKind::DEPENDENCY);
    b.token(SyntaxKind::DEPENDENCY_KW, "dependency");
    qn_node(&mut b, "a");
    b.token(SyntaxKind::COMMA, ",");
    qn_node(&mut b, "b");
    b.token(SyntaxKind::TO_KW, "to");
    qn_node(&mut b, "c");
    b.finish_node();
    let tree = b.finish();
    let d = Dependency(SyntaxNode { tree: &tree, index: 0 });
    let sources: Vec<String> = d.sources().iter().map(|q| q.to_string_inner()).collect();
    assert_eq!(sources, vec!["a", "b"]);
    assert_eq!(d.target().map(|q| q.to_string_inner()), Some("c".to_string()));

    let mut b2 = TreeBuilder::new();
    b2.start_node(SyntaxKind::DEPENDENCY);
    qn_node(&mut b2, "x");
    b2.finish_node();
    let tree2 = b2.finish();
    let d2 = Dependency(SyntaxNode { tree: &tree2, index: 0 });
    assert_eq!(d2.sources().len(), 1);
    assert!(d2.target().is_none());
}

#[test]
fn transition_name_stops_at_body_keywords() {
    let mut b = TreeBuilder::new();
    b.start_node(SyntaxKind::TRANSITION_USAGE);
    b.token(SyntaxKind::TRANSITION_KW, "transition");
    b.start_node(SyntaxKind::NAME);
    b.token(SyntaxKind::IDENT, "t1");
    b.finish_node();
    b.token(SyntaxKind::FIRST_KW, "first");
    b.finish_node();
    let tree = b.finish();
    let t = TransitionUsage(SyntaxNode { tree: &tree, index: 0 });
    assert_eq!(t.name().and_then(|n| n.text()), Some("t1".to_string()));

    let mut b2 = TreeBuilder::new();
    b2.start_node(SyntaxKind::TRANSITION_USAGE);
    b2.token(SyntaxKind::FIRST_KW, "first");
    b2.start_node(SyntaxKind::NAME);
    b2.token(SyntaxKind::IDENT, "s");
    b2.finish_node();
    b2.finish_node();
    let tree2 = b2.finish();
    assert!(TransitionUsage(SyntaxNode { tree: &tree2, index: 0 }).name().is_none());
}

#[test]
fn filter_metadata_refs_follow_at_signs() {
    let mut b = TreeBuilder::new();
    b.start_node(SyntaxKind::ELEMENT_FILTER_MEMBER);
    b.token(SyntaxKind::FILTER_KW, "filter");
    b.start_node(SyntaxKind::EXPRESSION);
    b.token(SyntaxKind::AT, "@");
    qn_node(&mut b, "Safety");
    b.token(SyntaxKind::AND_KW, "and");
    qn_node(&mut b, "Plain");
    b.token(SyntaxKind::AT, "@");
    b.token(SyntaxKind::WHITESPACE, " ");
    qn_node(&mut b, "Security");
    b.finish_node();
    b.token(SyntaxKind::SEMICOLON, ";");
    b.finish_node();
    let tree = b.finish();
    let f = ElementFilter(SyntaxNode { tree: &tree, index: 0 });
    assert_eq!(f.metadata_refs(), vec!["Safety".to_string(), "Security".to_string()]);
}

#[test]
fn element_ids_convert_from_text() {
    assert_eq!(ElementId::from("a-1").as_str(), "a-1");
    assert_eq!(ElementId::from(String::from("b")).as_str(), "b");
}

#[test]
fn source_map_default_is_empty_and_clone_keeps_spans() {
    let empty = SourceMap::default();
    assert!(empty.is_empty());
    let mut sm = SourceMap::new();
    sm.record(ElementId::new("a"), (0, 4));
    sm.record(ElementId::new("b"), (5, 9));
    let copy = sm.clone();
    assert_eq!(copy.span(&ElementId::new("a")), Some((0, 4)));
    assert_eq!(copy.span(&ElementId::new("b")), Some((5, 9)));
    assert_eq!(copy.len(), 2);
}

#[test]
fn qualified_name_segments_carry_byte_ranges() {
    let mut p = Parser::new(vec![
        tok(SyntaxKind::IDENT, "Vehicle"),
        tok(SyntaxKind::COLON_COLON, "::"),
        tok(SyntaxKind::IDENT, "'Engine'"),
    ]);
    p.parse_qualified_name();
    let (tree, _) = p.finish();
    let qn = QualifiedName(SyntaxNode { tree: &tree, index: 0 });
    assert_eq!(
        qn.segments_with_ranges(),
        vec![("Vehicle".to_string(), (0, 7)), ("Engine".to_string(), (9, 17))]
    );
}

#[test]
fn prefix_metadata_name_range_skips_the_hash() {
    let mut b = TreeBuilder::new();
    b.start_node(SyntaxKind::PREFIX_METADATA);
    b.token(SyntaxKind::HASH, "#");
    b.token(SyntaxKind::IDENT, "mop");
    b.finish_node();
    let tree = b.finish();
    let pm = PrefixMetadata(SyntaxNode { tree: &tree, index: 0 });
    assert_eq!(pm.name_range(), Some((1, 4)));
}

#[test]
fn specialization_kind_reads_the_operator() {
    let build = |op: SyntaxKind, text: &str| {
        let mut b = TreeBuilder::new();
        b.start_node(SyntaxKind::SPECIALIZATION);
        b.token(op, text);
        b.token(SyntaxKind::WHITESPACE, " ");
        qn_node(&mut b, "name");
        b.finish_node();
        b.finish()
    };
    let shorthand = build(SyntaxKind::COLON_GT_GT, ":>>");
    let s = Specialization(SyntaxNode { tree: &shorthand, index: 0 });
    assert!(s.is_shorthand_redefines());
    assert_eq!(s.kind(), Some(SpecializationKind::Redefines));
    let keyword = build(SyntaxKind::REDEFINES_KW, "redefines");
    let s = Specialization(SyntaxNode { tree: &keyword, index: 0 });
    assert!(!s.is_shorthand_redefines());
    assert_eq!(s.kind(), Some(SpecializationKind::Redefines));
    let subclass = build(SyntaxKind::COLON_GT, ":>");
    let s = Specialization(SyntaxNode { tree: &subclass, index: 0 });
    assert!(!s.is_shorthand_redefines());
    assert_eq!(s.kind(), Some(SpecializationKind::Specializes));
}
