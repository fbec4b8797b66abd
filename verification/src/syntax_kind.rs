//! The kinds of tokens and nodes in a KerML/SysML syntax tree.

use vstd::prelude::*;

verus! {

/// The kind of a token or of a node of the syntax tree.
///
/// Token kinds name lexemes (keywords end in `_KW`); node kinds name
/// grammar constructs. `ERROR` is what the token stream reports past its
/// end, and `__LAST` closes the list.
#[allow(non_camel_case_types)]
#[derive(Debug, Clone, Copy, PartialEq, Eq, Hash, Structural)]
pub enum SyntaxKind {
    ABOUT_KW,
    ABSTRACT_KW,
    ACCEPT_ACTION_USAGE,
    ACCEPT_KW,
    ACTION_DEFINITION,
    ACTION_KW,
    ACTION_USAGE,
    ACTOR_KW,
    ACTOR_USAGE,
    AFTER_KW,
    ALIAS_KW,
    ALIAS_MEMBER,
    ALLOCATE_KW,
    ALLOCATION_KW,
    ALL_KW,
    AMP,
    AMP_AMP,
    ANALYSIS_KW,
    AND_KW,
    ARGUMENT_LIST,
    ARROW,
    ASSERT_KW,
    ASSIGN_KW,
    ASSOC_KW,
    ASSUME_KW,
    AS_KW,
    AT,
    ATTRIBUTE_KW,
    AT_AT,
    AT_KW,
    BANG,
    BANG_EQ,
    BANG_EQ_EQ,
    BEHAVIOR_KW,
    BINDING_CONNECTOR,
    BINDING_KW,
    BIND_KW,
    BLOCK_COMMENT,
    BY_KW,
    CALC_DEFINITION,
    CALC_KW,
    CALC_USAGE,
    CARET,
    CASE_KW,
    CHAINS_KW,
    CLASSIFIER_KW,
    CLASS_KW,
    COLON,
    COLON_COLON,
    COLON_COLON_GT,
    COLON_EQ,
    COLON_GT,
    COLON_GT_GT,
    COMMA,
    COMMENT_ELEMENT,
    COMMENT_KW,
    COMPOSITE_KW,
    CONCERN_KW,
    CONJUGATE_KW,
    CONJUGATION_KW,
    CONNECTION_END,
    CONNECTION_KW,
    CONNECTOR,
    CONNECTOR_END,
    CONNECTOR_END_REFERENCE,
    CONNECTOR_KW,
    CONNECTOR_PART,
    CONNECT_KW,
    CONNECT_USAGE,
    CONSTANT_KW,
    CONSTRAINT_BODY,
    CONSTRAINT_DEFINITION,
    CONSTRAINT_KW,
    CONSTRAINT_USAGE,
    CONST_KW,
    CONTROL_NODE,
    DATATYPE_KW,
    DECIDE_KW,
    DECIMAL,
    DEFAULT_KW,
    DEFINITION,
    DEF_KW,
    DEPENDENCY,
    DEPENDENCY_KW,
    DERIVED_KW,
    DISJOINING_KW,
    DISJOINT_KW,
    DOC_KW,
    DOT,
    DOT_DOT,
    DO_KW,
    ELEMENT_FILTER_MEMBER,
    ELSE_KW,
    END_KW,
    ENTRY_KW,
    ENUM_KW,
    EQ,
    EQ_EQ,
    EQ_EQ_EQ,
    ERROR,
    EVENT_KW,
    EXHIBIT_KW,
    EXIT_KW,
    EXPOSE_KW,
    EXPRESSION,
    EXPR_KW,
    FALSE_KW,
    FAT_ARROW,
    FEATURE_KW,
    FEATURING_KW,
    FILTER_KW,
    FILTER_PACKAGE,
    FIRST_KW,
    FLOW_KW,
    FORK_KW,
    FOR_KW,
    FOR_LOOP_ACTION_USAGE,
    FRAME_KW,
    FROM_KW,
    FROM_TO_CLAUSE,
    FROM_TO_SOURCE,
    FROM_TO_TARGET,
    FUNCTION_KW,
    GT,
    GT_EQ,
    HASH,
    HASTYPE_KW,
    IDENT,
    IF_ACTION_USAGE,
    IF_KW,
    IMPLIES_KW,
    IMPORT,
    IMPORT_KW,
    INCLUDE_KW,
    INDIVIDUAL_KW,
    INOUT_KW,
    INTEGER,
    INTERACTION_KW,
    INTERFACE_KW,
    INVERSE_KW,
    INVERTING_KW,
    INV_KW,
    IN_KW,
    ISTYPE_KW,
    ITEM_KW,
    JOIN_KW,
    LANGUAGE_KW,
    LIBRARY_KW,
    LIBRARY_PACKAGE,
    LINE_COMMENT,
    LITERAL_EXPR,
    LOCALE_KW,
    LOOP_KW,
    LT,
    LT_EQ,
    L_BRACE,
    L_BRACKET,
    L_PAREN,
    MEMBER_KW,
    MERGE_KW,
    MESSAGE_KW,
    METACLASS_KW,
    METADATA_KW,
    METADATA_USAGE,
    META_KW,
    MINUS,
    MULTIPLICITY,
    MULTIPLICITY_KW,
    NAME,
    NAMESPACE_BODY,
    NAMESPACE_KW,
    NEW_KW,
    NONUNIQUE_KW,
    NOT_KW,
    NULL_KW,
    OBJECTIVE_KW,
    OBJECTIVE_USAGE,
    OCCURRENCE_KW,
    OF_KW,
    ORDERED_KW,
    OR_KW,
    OUT_KW,
    PACKAGE,
    PACKAGE_KW,
    PARALLEL_KW,
    PART_KW,
    PERCENT,
    PERFORM_ACTION_USAGE,
    PERFORM_KW,
    PIPE,
    PIPE_PIPE,
    PLUS,
    PORTION_KW,
    PORT_KW,
    PREDICATE_KW,
    PREFIX_METADATA,
    PRIVATE_KW,
    PROTECTED_KW,
    PUBLIC_KW,
    QUALIFIED_NAME,
    QUESTION,
    QUESTION_QUESTION,
    READONLY_KW,
    REDEFINES_KW,
    REDEFINITION_KW,
    REFERENCES_KW,
    REF_KW,
    RENDERING_KW,
    RENDER_KW,
    REP_KW,
    REQUIREMENT_CONSTRAINT,
    REQUIREMENT_DEFINITION,
    REQUIREMENT_KW,
    REQUIREMENT_USAGE,
    REQUIREMENT_VERIFICATION,
    REQUIRE_KW,
    RETURN_KW,
    R_BRACE,
    R_BRACKET,
    R_PAREN,
    SATISFY_KW,
    SEMICOLON,
    SEND_ACTION_USAGE,
    SEND_KW,
    SHORT_NAME,
    SLASH,
    SNAPSHOT_KW,
    SOURCE_FILE,
    SPECIALIZATION,
    SPECIALIZATION_KW,
    SPECIALIZES_KW,
    STAKEHOLDER_KW,
    STAKEHOLDER_USAGE,
    STANDARD_KW,
    STAR,
    STAR_STAR,
    STATE_KW,
    STATE_SUBACTION,
    STEP_KW,
    STRING,
    STRUCT_KW,
    SUBCLASSIFIER_KW,
    SUBJECT_KW,
    SUBJECT_USAGE,
    SUBSETS_KW,
    SUBSET_KW,
    SUBTYPE_KW,
    SUCCESSION,
    SUCCESSION_ITEM,
    SUCCESSION_KW,
    TERMINATE_KW,
    TEXTUAL_REPRESENTATION,
    THEN_KW,
    TILDE,
    TIMESLICE_KW,
    TO_KW,
    TRANSITION_KW,
    TRANSITION_USAGE,
    TRUE_KW,
    TYPED_KW,
    TYPE_KW,
    TYPING,
    TYPING_KW,
    UNTIL_KW,
    USAGE,
    USE_KW,
    VARIANT_KW,
    VARIATION_KW,
    VAR_KW,
    VERIFICATION_KW,
    VERIFY_KW,
    VIA_KW,
    VIEWPOINT_KW,
    VIEW_KW,
    WHEN_KW,
    WHILE_KW,
    WHILE_LOOP_ACTION_USAGE,
    WHITESPACE,
    XOR_KW,
    __LAST,
}

impl SyntaxKind {
    /// Whether `k` is a keyword.
    pub open spec fn spec_is_keyword(self) -> bool {
    matches!(self, SyntaxKind::ABOUT_KW | SyntaxKind::ABSTRACT_KW | SyntaxKind::ACCEPT_KW | SyntaxKind::ACTION_KW | SyntaxKind::ACTOR_KW | SyntaxKind::AFTER_KW | SyntaxKind::ALIAS_KW | SyntaxKind::ALLOCATE_KW | SyntaxKind::ALLOCATION_KW | SyntaxKind::ALL_KW | SyntaxKind::ANALYSIS_KW | SyntaxKind::AND_KW | SyntaxKind::ASSERT_KW | SyntaxKind::ASSIGN_KW | SyntaxKind::ASSOC_KW | SyntaxKind::ASSUME_KW | SyntaxKind::AS_KW | SyntaxKind::ATTRIBUTE_KW | SyntaxKind::AT_KW | SyntaxKind::BEHAVIOR_KW | SyntaxKind::BINDING_KW | SyntaxKind::BIND_KW | SyntaxKind::BY_KW | SyntaxKind::CALC_KW | SyntaxKind::CASE_KW | SyntaxKind::CHAINS_KW | SyntaxKind::CLASSIFIER_KW | SyntaxKind::CLASS_KW | SyntaxKind::COMMENT_KW | SyntaxKind::COMPOSITE_KW | SyntaxKind::CONCERN_KW | SyntaxKind::CONJUGATE_KW | SyntaxKind::CONJUGATION_KW | SyntaxKind::CONNECTION_KW | SyntaxKind::CONNECTOR_KW | SyntaxKind::CONNECT_KW | SyntaxKind::CONSTANT_KW | SyntaxKind::CONSTRAINT_KW | SyntaxKind::CONST_KW | SyntaxKind::DATATYPE_KW | SyntaxKind::DECIDE_KW | SyntaxKind::DEFAULT_KW | SyntaxKind::DEF_KW | SyntaxKind::DEPENDENCY_KW | SyntaxKind::DERIVED_KW | SyntaxKind::DISJOINING_KW | SyntaxKind::DISJOINT_KW | SyntaxKind::DOC_KW | SyntaxKind::DO_KW | SyntaxKind::ELSE_KW | SyntaxKind::END_KW | SyntaxKind::ENTRY_KW | SyntaxKind::ENUM_KW | SyntaxKind::EVENT_KW | SyntaxKind::EXHIBIT_KW | SyntaxKind::EXIT_KW | SyntaxKind::EXPOSE_KW | SyntaxKind::EXPR_KW | SyntaxKind::FALSE_KW | SyntaxKind::FEATURE_KW | SyntaxKind::FEATURING_KW | SyntaxKind::FILTER_KW | SyntaxKind::FIRST_KW | SyntaxKind::FLOW_KW | SyntaxKind::FORK_KW | SyntaxKind::FOR_KW | SyntaxKind::FRAME_KW | SyntaxKind::FROM_KW | SyntaxKind::FUNCTION_KW | SyntaxKind::HASTYPE_KW | SyntaxKind::IF_KW | SyntaxKind::IMPLIES_KW | SyntaxKind::IMPORT_KW | SyntaxKind::INCLUDE_KW | SyntaxKind::INDIVIDUAL_KW | SyntaxKind::INOUT_KW | SyntaxKind::INTERACTION_KW | SyntaxKind::INTERFACE_KW | SyntaxKind::INVERSE_KW | SyntaxKind::INVERTING_KW | SyntaxKind::INV_KW | SyntaxKind::IN_KW | SyntaxKind::ISTYPE_KW | SyntaxKind::ITEM_KW | SyntaxKind::JOIN_KW | SyntaxKind::LANGUAGE_KW | SyntaxKind::LIBRARY_KW | SyntaxKind::LOCALE_KW | SyntaxKind::LOOP_KW | SyntaxKind::MEMBER_KW | SyntaxKind::MERGE_KW | SyntaxKind::MESSAGE_KW | SyntaxKind::METACLASS_KW | SyntaxKind::METADATA_KW | SyntaxKind::META_KW | SyntaxKind::MULTIPLICITY_KW | SyntaxKind::NAMESPACE_KW | SyntaxKind::NEW_KW | SyntaxKind::NONUNIQUE_KW | SyntaxKind::NOT_KW | SyntaxKind::NULL_KW | SyntaxKind::OBJECTIVE_KW | SyntaxKind::OCCURRENCE_KW | SyntaxKind::OF_KW | SyntaxKind::ORDERED_KW | SyntaxKind::OR_KW | SyntaxKind::OUT_KW | SyntaxKind::PACKAGE_KW | SyntaxKind::PARALLEL_KW | SyntaxKind::PART_KW | SyntaxKind::PERFORM_KW | SyntaxKind::PORTION_KW | SyntaxKind::PORT_KW | SyntaxKind::PREDICATE_KW | SyntaxKind::PRIVATE_KW | SyntaxKind::PROTECTED_KW | SyntaxKind::PUBLIC_KW | SyntaxKind::READONLY_KW | SyntaxKind::REDEFINES_KW | SyntaxKind::REDEFINITION_KW | SyntaxKind::REFERENCES_KW | SyntaxKind::REF_KW | SyntaxKind::RENDERING_KW | SyntaxKind::RENDER_KW | SyntaxKind::REP_KW | SyntaxKind::REQUIREMENT_KW | SyntaxKind::REQUIRE_KW | SyntaxKind::RETURN_KW | SyntaxKind::SATISFY_KW | SyntaxKind::SEND_KW | SyntaxKind::SNAPSHOT_KW | SyntaxKind::SPECIALIZATION_KW | SyntaxKind::SPECIALIZES_KW | SyntaxKind::STAKEHOLDER_KW | SyntaxKind::STANDARD_KW | SyntaxKind::STATE_KW | SyntaxKind::STEP_KW | SyntaxKind::STRUCT_KW | SyntaxKind::SUBCLASSIFIER_KW | SyntaxKind::SUBJECT_KW | SyntaxKind::SUBSETS_KW | SyntaxKind::SUBSET_KW | SyntaxKind::SUBTYPE_KW | SyntaxKind::SUCCESSION_KW | SyntaxKind::TERMINATE_KW | SyntaxKind::THEN_KW | SyntaxKind::TIMESLICE_KW | SyntaxKind::TO_KW | SyntaxKind::TRANSITION_KW | SyntaxKind::TRUE_KW | SyntaxKind::TYPED_KW | SyntaxKind::TYPE_KW | SyntaxKind::TYPING_KW | SyntaxKind::UNTIL_KW | SyntaxKind::USE_KW | SyntaxKind::VARIANT_KW | SyntaxKind::VARIATION_KW | SyntaxKind::VAR_KW | SyntaxKind::VERIFICATION_KW | SyntaxKind::VERIFY_KW | SyntaxKind::VIA_KW | SyntaxKind::VIEWPOINT_KW | SyntaxKind::VIEW_KW | SyntaxKind::WHEN_KW | SyntaxKind::WHILE_KW | SyntaxKind::XOR_KW)
}

    /// Whether `k` is white space or a comment.
    pub open spec fn spec_is_trivia(self) -> bool {
    self == SyntaxKind::WHITESPACE || self == SyntaxKind::LINE_COMMENT || self == SyntaxKind::BLOCK_COMMENT
}

    /// Whether this kind is a keyword.
    #[verifier::when_used_as_spec(spec_is_keyword)]
    pub fn is_keyword(self) -> (r: bool)
        ensures
            r == self.spec_is_keyword(),
    {
        matches!(self, SyntaxKind::ABOUT_KW | SyntaxKind::ABSTRACT_KW | SyntaxKind::ACCEPT_KW | SyntaxKind::ACTION_KW | SyntaxKind::ACTOR_KW | SyntaxKind::AFTER_KW | SyntaxKind::ALIAS_KW | SyntaxKind::ALLOCATE_KW | SyntaxKind::ALLOCATION_KW | SyntaxKind::ALL_KW | SyntaxKind::ANALYSIS_KW | SyntaxKind::AND_KW | SyntaxKind::ASSERT_KW | SyntaxKind::ASSIGN_KW | SyntaxKind::ASSOC_KW | SyntaxKind::ASSUME_KW | SyntaxKind::AS_KW | SyntaxKind::ATTRIBUTE_KW | SyntaxKind::AT_KW | SyntaxKind::BEHAVIOR_KW | SyntaxKind::BINDING_KW | SyntaxKind::BIND_KW | SyntaxKind::BY_KW | SyntaxKind::CALC_KW | SyntaxKind::CASE_KW | SyntaxKind::CHAINS_KW | SyntaxKind::CLASSIFIER_KW | SyntaxKind::CLASS_KW | SyntaxKind::COMMENT_KW | SyntaxKind::COMPOSITE_KW | SyntaxKind::CONCERN_KW | SyntaxKind::CONJUGATE_KW | SyntaxKind::CONJUGATION_KW | SyntaxKind::CONNECTION_KW | SyntaxKind::CONNECTOR_KW | SyntaxKind::CONNECT_KW | SyntaxKind::CONSTANT_KW | SyntaxKind::CONSTRAINT_KW | SyntaxKind::CONST_KW | SyntaxKind::DATATYPE_KW | SyntaxKind::DECIDE_KW | SyntaxKind::DEFAULT_KW | SyntaxKind::DEF_KW | SyntaxKind::DEPENDENCY_KW | SyntaxKind::DERIVED_KW | SyntaxKind::DISJOINING_KW | SyntaxKind::DISJOINT_KW | SyntaxKind::DOC_KW | SyntaxKind::DO_KW | SyntaxKind::ELSE_KW | SyntaxKind::END_KW | SyntaxKind::ENTRY_KW | SyntaxKind::ENUM_KW | SyntaxKind::EVENT_KW | SyntaxKind::EXHIBIT_KW | SyntaxKind::EXIT_KW | SyntaxKind::EXPOSE_KW | SyntaxKind::EXPR_KW | SyntaxKind::FALSE_KW | SyntaxKind::FEATURE_KW | SyntaxKind::FEATURING_KW | SyntaxKind::FILTER_KW | SyntaxKind::FIRST_KW | SyntaxKind::FLOW_KW | SyntaxKind::FORK_KW | SyntaxKind::FOR_KW | SyntaxKind::FRAME_KW | SyntaxKind::FROM_KW | SyntaxKind::FUNCTION_KW | SyntaxKind::HASTYPE_KW | SyntaxKind::IF_KW | SyntaxKind::IMPLIES_KW | SyntaxKind::IMPORT_KW | SyntaxKind::INCLUDE_KW | SyntaxKind::INDIVIDUAL_KW | SyntaxKind::INOUT_KW | SyntaxKind::INTERACTION_KW | SyntaxKind::INTERFACE_KW | SyntaxKind::INVERSE_KW | SyntaxKind::INVERTING_KW | SyntaxKind::INV_KW | SyntaxKind::IN_KW | SyntaxKind::ISTYPE_KW | SyntaxKind::ITEM_KW | SyntaxKind::JOIN_KW | SyntaxKind::LANGUAGE_KW | SyntaxKind::LIBRARY_KW | SyntaxKind::LOCALE_KW | SyntaxKind::LOOP_KW | SyntaxKind::MEMBER_KW | SyntaxKind::MERGE_KW | SyntaxKind::MESSAGE_KW | SyntaxKind::METACLASS_KW | SyntaxKind::METADATA_KW | SyntaxKind::META_KW | SyntaxKind::MULTIPLICITY_KW | SyntaxKind::NAMESPACE_KW | SyntaxKind::NEW_KW | SyntaxKind::NONUNIQUE_KW | SyntaxKind::NOT_KW | SyntaxKind::NULL_KW | SyntaxKind::OBJECTIVE_KW | SyntaxKind::OCCURRENCE_KW | SyntaxKind::OF_KW | SyntaxKind::ORDERED_KW | SyntaxKind::OR_KW | SyntaxKind::OUT_KW | SyntaxKind::PACKAGE_KW | SyntaxKind::PARALLEL_KW | SyntaxKind::PART_KW | SyntaxKind::PERFORM_KW | SyntaxKind::PORTION_KW | SyntaxKind::PORT_KW | SyntaxKind::PREDICATE_KW | SyntaxKind::PRIVATE_KW | SyntaxKind::PROTECTED_KW | SyntaxKind::PUBLIC_KW | SyntaxKind::READONLY_KW | SyntaxKind::REDEFINES_KW | SyntaxKind::REDEFINITION_KW | SyntaxKind::REFERENCES_KW | SyntaxKind::REF_KW | SyntaxKind::RENDERING_KW | SyntaxKind::RENDER_KW | SyntaxKind::REP_KW | SyntaxKind::REQUIREMENT_KW | SyntaxKind::REQUIRE_KW | SyntaxKind::RETURN_KW | SyntaxKind::SATISFY_KW | SyntaxKind::SEND_KW | SyntaxKind::SNAPSHOT_KW | SyntaxKind::SPECIALIZATION_KW | SyntaxKind::SPECIALIZES_KW | SyntaxKind::STAKEHOLDER_KW | SyntaxKind::STANDARD_KW | SyntaxKind::STATE_KW | SyntaxKind::STEP_KW | SyntaxKind::STRUCT_KW | SyntaxKind::SUBCLASSIFIER_KW | SyntaxKind::SUBJECT_KW | SyntaxKind::SUBSETS_KW | SyntaxKind::SUBSET_KW | SyntaxKind::SUBTYPE_KW | SyntaxKind::SUCCESSION_KW | SyntaxKind::TERMINATE_KW | SyntaxKind::THEN_KW | SyntaxKind::TIMESLICE_KW | SyntaxKind::TO_KW | SyntaxKind::TRANSITION_KW | SyntaxKind::TRUE_KW | SyntaxKind::TYPED_KW | SyntaxKind::TYPE_KW | SyntaxKind::TYPING_KW | SyntaxKind::UNTIL_KW | SyntaxKind::USE_KW | SyntaxKind::VARIANT_KW | SyntaxKind::VARIATION_KW | SyntaxKind::VAR_KW | SyntaxKind::VERIFICATION_KW | SyntaxKind::VERIFY_KW | SyntaxKind::VIA_KW | SyntaxKind::VIEWPOINT_KW | SyntaxKind::VIEW_KW | SyntaxKind::WHEN_KW | SyntaxKind::WHILE_KW | SyntaxKind::XOR_KW)
    }

    /// Whether this kind is white space or a comment.
    #[verifier::when_used_as_spec(spec_is_trivia)]
    pub fn is_trivia(self) -> (r: bool)
        ensures
            r == self.spec_is_trivia(),
    {
        self == SyntaxKind::WHITESPACE || self == SyntaxKind::LINE_COMMENT || self == SyntaxKind::BLOCK_COMMENT
    }
}

} // verus!
