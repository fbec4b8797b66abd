//! Metaclasses of model elements and their names in the interchange formats.

use vstd::prelude::*;
use crate::strings::{after_last_colon, str_eq, suffix_after_colon};

verus! {

/// The metatype of a model element.
///
/// Maps to SysML v2 / KerML metaclasses.
#[derive(Clone, Copy, Debug, PartialEq, Eq, Hash, Structural)]
pub enum ElementKind {
    // Namespaces and Packages
    Namespace,
    Package,
    LibraryPackage,

    // KerML Classifiers
    Class,
    DataType,
    Structure,
    Association,
    AssociationStructure,
    Interaction,
    Behavior,
    Function,
    Predicate,

    // SysML Definitions
    PartDefinition,
    ItemDefinition,
    ActionDefinition,
    PortDefinition,
    AttributeDefinition,
    ConnectionDefinition,
    InterfaceDefinition,
    AllocationDefinition,
    RequirementDefinition,
    ConstraintDefinition,
    StateDefinition,
    CalculationDefinition,
    OccurrenceDefinition,
    UseCaseDefinition,
    AnalysisCaseDefinition,
    VerificationCaseDefinition,
    ConcernDefinition,
    ViewDefinition,
    ViewpointDefinition,
    RenderingDefinition,
    EnumerationDefinition,
    MetadataDefinition,

    // SysML Usages
    PartUsage,
    ItemUsage,
    ActionUsage,
    PortUsage,
    AttributeUsage,
    ConnectionUsage,
    InterfaceUsage,
    AllocationUsage,
    RequirementUsage,
    ConstraintUsage,
    StateUsage,
    TransitionUsage,
    CalculationUsage,
    ReferenceUsage,
    OccurrenceUsage,
    UseCaseUsage,
    AnalysisCaseUsage,
    VerificationCaseUsage,
    FlowConnectionUsage,
    SuccessionFlowConnectionUsage,

    // KerML Features
    Feature,
    Step,
    Expression,
    BooleanExpression,
    Invariant,
    Connector,
    BindingConnector,
    Succession,
    Flow,

    // Multiplicity and Literals
    MultiplicityRange,
    LiteralInteger,
    LiteralReal,
    LiteralInfinity,
    LiteralBoolean,
    LiteralString,
    NullExpression,

    // Expressions
    FeatureReferenceExpression,
    OperatorExpression,
    InvocationExpression,
    FeatureChainExpression,
    ConstructorExpression,

    // Relationships (first-class)
    Membership,
    OwningMembership,
    FeatureMembership,
    ReturnParameterMembership,
    ParameterMembership,
    EndFeatureMembership,
    ResultExpressionMembership,
    Import,
    NamespaceImport,
    MembershipImport,
    Specialization,
    FeatureTyping,
    Subsetting,
    ReferenceSubsetting,
    CrossSubsetting,
    Redefinition,
    Conjugation,
    FeatureValue,
    FeatureChaining,
    FeatureInverting,
    Intersecting,
    Disjoining,
    Unioning,

    // Dependency and requirement relationships
    Dependency,
    PerformActionUsage,
    ExhibitStateUsage,
    IncludeUseCaseUsage,
    AssertConstraintUsage,
    RequirementConstraintMembership,
    Satisfaction,
    Verification,

    // Comments and documentation
    Comment,
    Documentation,
    TextualRepresentation,

    // Aliases
    Alias,

    // Annotations
    MetadataUsage,
    AnnotatingElement,
    Annotation,

    // Classifiers
    Classifier,
    Metaclass,

    // Generic
    Other,
}
impl ElementKind {
    /// Returns true if this is a definition (type-like).
    pub open spec fn spec_is_definition(&self) -> bool {
        match self {
            Self::Package
            | Self::LibraryPackage
            | Self::Class
            | Self::DataType
            | Self::Structure
            | Self::Association
            | Self::AssociationStructure
            | Self::Interaction
            | Self::Behavior
            | Self::Function
            | Self::Predicate
            | Self::PartDefinition
            | Self::ItemDefinition
            | Self::ActionDefinition
            | Self::PortDefinition
            | Self::AttributeDefinition
            | Self::ConnectionDefinition
            | Self::InterfaceDefinition
            | Self::AllocationDefinition
            | Self::RequirementDefinition
            | Self::ConstraintDefinition
            | Self::StateDefinition
            | Self::CalculationDefinition
            | Self::OccurrenceDefinition
            | Self::UseCaseDefinition
            | Self::AnalysisCaseDefinition
            | Self::VerificationCaseDefinition
            | Self::ConcernDefinition
            | Self::ViewDefinition
            | Self::ViewpointDefinition
            | Self::RenderingDefinition
            | Self::EnumerationDefinition
            | Self::MetadataDefinition => true,
            _ => false,
        }
    }

    /// Returns true if this is a definition (type-like).
    #[verifier::when_used_as_spec(spec_is_definition)]
    pub fn is_definition(&self) -> (r: bool)
        ensures
            r == self.spec_is_definition(),
    {
        match self {
            Self::Package
            | Self::LibraryPackage
            | Self::Class
            | Self::DataType
            | Self::Structure
            | Self::Association
            | Self::AssociationStructure
            | Self::Interaction
            | Self::Behavior
            | Self::Function
            | Self::Predicate
            | Self::PartDefinition
            | Self::ItemDefinition
            | Self::ActionDefinition
            | Self::PortDefinition
            | Self::AttributeDefinition
            | Self::ConnectionDefinition
            | Self::InterfaceDefinition
            | Self::AllocationDefinition
            | Self::RequirementDefinition
            | Self::ConstraintDefinition
            | Self::StateDefinition
            | Self::CalculationDefinition
            | Self::OccurrenceDefinition
            | Self::UseCaseDefinition
            | Self::AnalysisCaseDefinition
            | Self::VerificationCaseDefinition
            | Self::ConcernDefinition
            | Self::ViewDefinition
            | Self::ViewpointDefinition
            | Self::RenderingDefinition
            | Self::EnumerationDefinition
            | Self::MetadataDefinition => true,
            _ => false,
        }
    }

    /// Returns true if this is a usage (instance-like).
    pub open spec fn spec_is_usage(&self) -> bool {
        match self {
            Self::PartUsage
            | Self::ItemUsage
            | Self::ActionUsage
            | Self::PerformActionUsage
            | Self::PortUsage
            | Self::AttributeUsage
            | Self::ConnectionUsage
            | Self::InterfaceUsage
            | Self::AllocationUsage
            | Self::RequirementUsage
            | Self::Satisfaction
            | Self::ConstraintUsage
            | Self::AssertConstraintUsage
            | Self::StateUsage
            | Self::ExhibitStateUsage
            | Self::TransitionUsage
            | Self::CalculationUsage
            | Self::ReferenceUsage
            | Self::OccurrenceUsage
            | Self::UseCaseUsage
            | Self::IncludeUseCaseUsage
            | Self::AnalysisCaseUsage
            | Self::VerificationCaseUsage
            | Self::FlowConnectionUsage
            | Self::SuccessionFlowConnectionUsage
            | Self::Feature
            | Self::Step
            | Self::Expression
            | Self::BooleanExpression
            | Self::Invariant => true,
            _ => false,
        }
    }

    /// Returns true if this is a usage (instance-like).
    #[verifier::when_used_as_spec(spec_is_usage)]
    pub fn is_usage(&self) -> (r: bool)
        ensures
            r == self.spec_is_usage(),
    {
        match self {
            Self::PartUsage
            | Self::ItemUsage
            | Self::ActionUsage
            | Self::PerformActionUsage
            | Self::PortUsage
            | Self::AttributeUsage
            | Self::ConnectionUsage
            | Self::InterfaceUsage
            | Self::AllocationUsage
            | Self::RequirementUsage
            | Self::Satisfaction
            | Self::ConstraintUsage
            | Self::AssertConstraintUsage
            | Self::StateUsage
            | Self::ExhibitStateUsage
            | Self::TransitionUsage
            | Self::CalculationUsage
            | Self::ReferenceUsage
            | Self::OccurrenceUsage
            | Self::UseCaseUsage
            | Self::IncludeUseCaseUsage
            | Self::AnalysisCaseUsage
            | Self::VerificationCaseUsage
            | Self::FlowConnectionUsage
            | Self::SuccessionFlowConnectionUsage
            | Self::Feature
            | Self::Step
            | Self::Expression
            | Self::BooleanExpression
            | Self::Invariant => true,
            _ => false,
        }
    }

    /// Returns true if this is a relationship.
    pub open spec fn spec_is_relationship(&self) -> bool {
        match self {
            Self::Membership
            | Self::OwningMembership
            | Self::FeatureMembership
            | Self::ReturnParameterMembership
            | Self::ParameterMembership
            | Self::EndFeatureMembership
            | Self::ResultExpressionMembership
            | Self::Import
            | Self::NamespaceImport
            | Self::MembershipImport
            | Self::Specialization
            | Self::FeatureTyping
            | Self::Subsetting
            | Self::ReferenceSubsetting
            | Self::CrossSubsetting
            | Self::Redefinition
            | Self::Conjugation
            | Self::FeatureValue
            | Self::FeatureChaining
            | Self::FeatureInverting
            | Self::Intersecting
            | Self::Disjoining
            | Self::Unioning
            | Self::Dependency
            | Self::RequirementConstraintMembership
            | Self::Verification
            | Self::Annotation => true,
            _ => false,
        }
    }

    /// Returns true if this is a relationship.
    #[verifier::when_used_as_spec(spec_is_relationship)]
    pub fn is_relationship(&self) -> (r: bool)
        ensures
            r == self.spec_is_relationship(),
    {
        match self {
            Self::Membership
            | Self::OwningMembership
            | Self::FeatureMembership
            | Self::ReturnParameterMembership
            | Self::ParameterMembership
            | Self::EndFeatureMembership
            | Self::ResultExpressionMembership
            | Self::Import
            | Self::NamespaceImport
            | Self::MembershipImport
            | Self::Specialization
            | Self::FeatureTyping
            | Self::Subsetting
            | Self::ReferenceSubsetting
            | Self::CrossSubsetting
            | Self::Redefinition
            | Self::Conjugation
            | Self::FeatureValue
            | Self::FeatureChaining
            | Self::FeatureInverting
            | Self::Intersecting
            | Self::Disjoining
            | Self::Unioning
            | Self::Dependency
            | Self::RequirementConstraintMembership
            | Self::Verification
            | Self::Annotation => true,
            _ => false,
        }
    }

    /// Returns true if this is a membership relationship: an ownership intermediary that traversal looks through to reach the owned content.
    pub open spec fn spec_is_membership(&self) -> bool {
        match self {
            Self::OwningMembership
            | Self::FeatureMembership
            | Self::ReturnParameterMembership
            | Self::ParameterMembership
            | Self::EndFeatureMembership
            | Self::ResultExpressionMembership => true,
            _ => false,
        }
    }

    /// Returns true if this is a membership relationship: an ownership intermediary that traversal looks through to reach the owned content.
    #[verifier::when_used_as_spec(spec_is_membership)]
    pub fn is_membership(&self) -> (r: bool)
        ensures
            r == self.spec_is_membership(),
    {
        match self {
            Self::OwningMembership
            | Self::FeatureMembership
            | Self::ReturnParameterMembership
            | Self::ParameterMembership
            | Self::EndFeatureMembership
            | Self::ResultExpressionMembership => true,
            _ => false,
        }
    }

    /// Returns true if this kind is rendered inline in SysML text (as part of the declaration line) rather than as a body member.
    pub open spec fn spec_is_inline_rendered(&self) -> bool {
        match self {
            Self::FeatureValue
            | Self::FeatureTyping
            | Self::Specialization
            | Self::Redefinition
            | Self::Subsetting
            | Self::ReferenceSubsetting
            | Self::CrossSubsetting
            | Self::FeatureChaining
            | Self::Conjugation => true,
            _ => false,
        }
    }

    /// Returns true if this kind is rendered inline in SysML text (as part of the declaration line) rather than as a body member.
    #[verifier::when_used_as_spec(spec_is_inline_rendered)]
    pub fn is_inline_rendered(&self) -> (r: bool)
        ensures
            r == self.spec_is_inline_rendered(),
    {
        match self {
            Self::FeatureValue
            | Self::FeatureTyping
            | Self::Specialization
            | Self::Redefinition
            | Self::Subsetting
            | Self::ReferenceSubsetting
            | Self::CrossSubsetting
            | Self::FeatureChaining
            | Self::Conjugation => true,
            _ => false,
        }
    }

    /// Returns true if this is a SysML (not KerML) element kind; such elements use `declaredName` instead of `name`.
    pub open spec fn spec_is_sysml(&self) -> bool {
        match self {
            Self::Namespace
            | Self::Package
            | Self::LibraryPackage
            | Self::PartDefinition
            | Self::ItemDefinition
            | Self::ActionDefinition
            | Self::PortDefinition
            | Self::AttributeDefinition
            | Self::ConnectionDefinition
            | Self::InterfaceDefinition
            | Self::AllocationDefinition
            | Self::RequirementDefinition
            | Self::ConstraintDefinition
            | Self::UseCaseDefinition
            | Self::ConcernDefinition
            | Self::ViewDefinition
            | Self::ViewpointDefinition
            | Self::RenderingDefinition
            | Self::StateDefinition
            | Self::TransitionUsage
            | Self::CalculationDefinition
            | Self::OccurrenceDefinition
            | Self::AnalysisCaseDefinition
            | Self::VerificationCaseDefinition
            | Self::EnumerationDefinition
            | Self::MetadataDefinition
            | Self::PartUsage
            | Self::ItemUsage
            | Self::ActionUsage
            | Self::PortUsage
            | Self::AttributeUsage
            | Self::ConnectionUsage
            | Self::InterfaceUsage
            | Self::AllocationUsage
            | Self::RequirementUsage
            | Self::ConstraintUsage
            | Self::StateUsage
            | Self::CalculationUsage
            | Self::ReferenceUsage
            | Self::OccurrenceUsage
            | Self::UseCaseUsage
            | Self::AnalysisCaseUsage
            | Self::VerificationCaseUsage
            | Self::FlowConnectionUsage
            | Self::SuccessionFlowConnectionUsage
            | Self::MetadataUsage => true,
            _ => false,
        }
    }

    /// Returns true if this is a SysML (not KerML) element kind; such elements use `declaredName` instead of `name`.
    #[verifier::when_used_as_spec(spec_is_sysml)]
    pub fn is_sysml(&self) -> (r: bool)
        ensures
            r == self.spec_is_sysml(),
    {
        match self {
            Self::Namespace
            | Self::Package
            | Self::LibraryPackage
            | Self::PartDefinition
            | Self::ItemDefinition
            | Self::ActionDefinition
            | Self::PortDefinition
            | Self::AttributeDefinition
            | Self::ConnectionDefinition
            | Self::InterfaceDefinition
            | Self::AllocationDefinition
            | Self::RequirementDefinition
            | Self::ConstraintDefinition
            | Self::UseCaseDefinition
            | Self::ConcernDefinition
            | Self::ViewDefinition
            | Self::ViewpointDefinition
            | Self::RenderingDefinition
            | Self::StateDefinition
            | Self::TransitionUsage
            | Self::CalculationDefinition
            | Self::OccurrenceDefinition
            | Self::AnalysisCaseDefinition
            | Self::VerificationCaseDefinition
            | Self::EnumerationDefinition
            | Self::MetadataDefinition
            | Self::PartUsage
            | Self::ItemUsage
            | Self::ActionUsage
            | Self::PortUsage
            | Self::AttributeUsage
            | Self::ConnectionUsage
            | Self::InterfaceUsage
            | Self::AllocationUsage
            | Self::RequirementUsage
            | Self::ConstraintUsage
            | Self::StateUsage
            | Self::CalculationUsage
            | Self::ReferenceUsage
            | Self::OccurrenceUsage
            | Self::UseCaseUsage
            | Self::AnalysisCaseUsage
            | Self::VerificationCaseUsage
            | Self::FlowConnectionUsage
            | Self::SuccessionFlowConnectionUsage
            | Self::MetadataUsage => true,
            _ => false,
        }
    }

    /// Returns true if this kind is a Feature (or Feature subtype) in the KerML metamodel.
    pub open spec fn spec_is_feature_kind(&self) -> bool {
        self.spec_is_usage() || match self {
            Self::Connector
            | Self::BindingConnector
            | Self::Succession
            | Self::Flow
            | Self::MultiplicityRange
            | Self::LiteralInteger
            | Self::LiteralReal
            | Self::LiteralInfinity
            | Self::LiteralBoolean
            | Self::LiteralString
            | Self::NullExpression
            | Self::FeatureReferenceExpression
            | Self::OperatorExpression
            | Self::InvocationExpression
            | Self::FeatureChainExpression
            | Self::ConstructorExpression => true,
            _ => false,
        }
    }

    /// Returns true if this kind is a Feature (or Feature subtype) in the KerML metamodel.
    ///
    /// Feature children of Types are owned through `FeatureMembership`;
    /// other children use `OwningMembership`.
    #[verifier::when_used_as_spec(spec_is_feature_kind)]
    pub fn is_feature_kind(&self) -> (r: bool)
        ensures
            r == self.spec_is_feature_kind(),
    {
        self.is_usage() || match self {
            Self::Connector
            | Self::BindingConnector
            | Self::Succession
            | Self::Flow
            | Self::MultiplicityRange
            | Self::LiteralInteger
            | Self::LiteralReal
            | Self::LiteralInfinity
            | Self::LiteralBoolean
            | Self::LiteralString
            | Self::NullExpression
            | Self::FeatureReferenceExpression
            | Self::OperatorExpression
            | Self::InvocationExpression
            | Self::FeatureChainExpression
            | Self::ConstructorExpression => true,
            _ => false,
        }
    }

    /// The membership kind that wraps a child of the given kind.
    pub open spec fn spec_membership_kind_for(child_kind: ElementKind) -> ElementKind {
        if child_kind.spec_is_feature_kind() {
            ElementKind::FeatureMembership
        } else {
            ElementKind::OwningMembership
        }
    }

    /// Pick the appropriate membership kind for wrapping a child element:
    /// `FeatureMembership` if the child is a Feature subtype, otherwise `OwningMembership`.
    #[verifier::when_used_as_spec(spec_membership_kind_for)]
    pub fn membership_kind_for(child_kind: ElementKind) -> (r: ElementKind)
        ensures
            r == Self::spec_membership_kind_for(child_kind),
    {
        if child_kind.is_feature_kind() {
            Self::FeatureMembership
        } else {
            Self::OwningMembership
        }
    }

    /// The XMI type name for this kind.
    pub open spec fn spec_xmi_type(&self) -> Seq<char> {
        match self {
            Self::Namespace => "sysml:Namespace"@,
            Self::Package => "sysml:Package"@,
            Self::LibraryPackage => "sysml:LibraryPackage"@,
            Self::Class => "kerml:Class"@,
            Self::DataType => "kerml:DataType"@,
            Self::Structure => "kerml:Structure"@,
            Self::Association => "kerml:Association"@,
            Self::AssociationStructure => "kerml:AssociationStructure"@,
            Self::Interaction => "kerml:Interaction"@,
            Self::Behavior => "kerml:Behavior"@,
            Self::Function => "kerml:Function"@,
            Self::Predicate => "kerml:Predicate"@,
            Self::PartDefinition => "sysml:PartDefinition"@,
            Self::ItemDefinition => "sysml:ItemDefinition"@,
            Self::ActionDefinition => "sysml:ActionDefinition"@,
            Self::PortDefinition => "sysml:PortDefinition"@,
            Self::AttributeDefinition => "sysml:AttributeDefinition"@,
            Self::ConnectionDefinition => "sysml:ConnectionDefinition"@,
            Self::InterfaceDefinition => "sysml:InterfaceDefinition"@,
            Self::AllocationDefinition => "sysml:AllocationDefinition"@,
            Self::RequirementDefinition => "sysml:RequirementDefinition"@,
            Self::ConstraintDefinition => "sysml:ConstraintDefinition"@,
            Self::StateDefinition => "sysml:StateDefinition"@,
            Self::CalculationDefinition => "sysml:CalculationDefinition"@,
            Self::OccurrenceDefinition => "sysml:OccurrenceDefinition"@,
            Self::UseCaseDefinition => "sysml:UseCaseDefinition"@,
            Self::AnalysisCaseDefinition => "sysml:AnalysisCaseDefinition"@,
            Self::VerificationCaseDefinition => "sysml:VerificationCaseDefinition"@,
            Self::ConcernDefinition => "sysml:ConcernDefinition"@,
            Self::ViewDefinition => "sysml:ViewDefinition"@,
            Self::ViewpointDefinition => "sysml:ViewpointDefinition"@,
            Self::RenderingDefinition => "sysml:RenderingDefinition"@,
            Self::EnumerationDefinition => "sysml:EnumerationDefinition"@,
            Self::MetadataDefinition => "sysml:MetadataDefinition"@,
            Self::PartUsage => "sysml:PartUsage"@,
            Self::ItemUsage => "sysml:ItemUsage"@,
            Self::ActionUsage => "sysml:ActionUsage"@,
            Self::PortUsage => "sysml:PortUsage"@,
            Self::AttributeUsage => "sysml:AttributeUsage"@,
            Self::ConnectionUsage => "sysml:ConnectionUsage"@,
            Self::InterfaceUsage => "sysml:InterfaceUsage"@,
            Self::AllocationUsage => "sysml:AllocationUsage"@,
            Self::RequirementUsage => "sysml:RequirementUsage"@,
            Self::ConstraintUsage => "sysml:ConstraintUsage"@,
            Self::StateUsage => "sysml:StateUsage"@,
            Self::TransitionUsage => "sysml:TransitionUsage"@,
            Self::CalculationUsage => "sysml:CalculationUsage"@,
            Self::ReferenceUsage => "sysml:ReferenceUsage"@,
            Self::OccurrenceUsage => "sysml:OccurrenceUsage"@,
            Self::UseCaseUsage => "sysml:UseCaseUsage"@,
            Self::AnalysisCaseUsage => "sysml:AnalysisCaseUsage"@,
            Self::VerificationCaseUsage => "sysml:VerificationCaseUsage"@,
            Self::FlowConnectionUsage => "sysml:FlowConnectionUsage"@,
            Self::SuccessionFlowConnectionUsage => "sysml:SuccessionFlowConnectionUsage"@,
            Self::Feature => "kerml:Feature"@,
            Self::Step => "kerml:Step"@,
            Self::Expression => "kerml:Expression"@,
            Self::BooleanExpression => "kerml:BooleanExpression"@,
            Self::Invariant => "kerml:Invariant"@,
            Self::Connector => "kerml:Connector"@,
            Self::BindingConnector => "kerml:BindingConnector"@,
            Self::Succession => "kerml:Succession"@,
            Self::Flow => "kerml:Flow"@,
            Self::MultiplicityRange => "kerml:MultiplicityRange"@,
            Self::LiteralInteger => "kerml:LiteralInteger"@,
            Self::LiteralReal => "kerml:LiteralRational"@,
            Self::LiteralInfinity => "kerml:LiteralInfinity"@,
            Self::LiteralBoolean => "kerml:LiteralBoolean"@,
            Self::LiteralString => "kerml:LiteralString"@,
            Self::NullExpression => "kerml:NullExpression"@,
            Self::FeatureReferenceExpression => "kerml:FeatureReferenceExpression"@,
            Self::OperatorExpression => "kerml:OperatorExpression"@,
            Self::InvocationExpression => "kerml:InvocationExpression"@,
            Self::FeatureChainExpression => "kerml:FeatureChainExpression"@,
            Self::ConstructorExpression => "kerml:ConstructorExpression"@,
            Self::Membership => "kerml:Membership"@,
            Self::OwningMembership => "kerml:OwningMembership"@,
            Self::FeatureMembership => "kerml:FeatureMembership"@,
            Self::ReturnParameterMembership => "kerml:ReturnParameterMembership"@,
            Self::ParameterMembership => "kerml:ParameterMembership"@,
            Self::EndFeatureMembership => "kerml:EndFeatureMembership"@,
            Self::ResultExpressionMembership => "kerml:ResultExpressionMembership"@,
            Self::Import => "kerml:Import"@,
            Self::NamespaceImport => "kerml:NamespaceImport"@,
            Self::MembershipImport => "kerml:MembershipImport"@,
            Self::Specialization => "kerml:Specialization"@,
            Self::FeatureTyping => "kerml:FeatureTyping"@,
            Self::Subsetting => "kerml:Subsetting"@,
            Self::ReferenceSubsetting => "kerml:ReferenceSubsetting"@,
            Self::CrossSubsetting => "kerml:CrossSubsetting"@,
            Self::Redefinition => "kerml:Redefinition"@,
            Self::Conjugation => "kerml:Conjugation"@,
            Self::FeatureValue => "kerml:FeatureValue"@,
            Self::FeatureChaining => "kerml:FeatureChaining"@,
            Self::FeatureInverting => "kerml:FeatureInverting"@,
            Self::Intersecting => "kerml:Intersecting"@,
            Self::Disjoining => "kerml:Disjoining"@,
            Self::Unioning => "kerml:Unioning"@,
            Self::Dependency => "kerml:Dependency"@,
            Self::PerformActionUsage => "sysml:PerformActionUsage"@,
            Self::ExhibitStateUsage => "sysml:ExhibitStateUsage"@,
            Self::IncludeUseCaseUsage => "sysml:IncludeUseCaseUsage"@,
            Self::AssertConstraintUsage => "sysml:AssertConstraintUsage"@,
            Self::RequirementConstraintMembership => "sysml:RequirementConstraintMembership"@,
            Self::Satisfaction => "sysml:SatisfyRequirementUsage"@,
            Self::Verification => "sysml:RequirementVerificationMembership"@,
            Self::Comment => "kerml:Comment"@,
            Self::Documentation => "kerml:Documentation"@,
            Self::TextualRepresentation => "kerml:TextualRepresentation"@,
            Self::MetadataUsage => "sysml:MetadataUsage"@,
            Self::AnnotatingElement => "kerml:AnnotatingElement"@,
            Self::Annotation => "kerml:Annotation"@,
            Self::Classifier => "kerml:Classifier"@,
            Self::Metaclass => "kerml:Metaclass"@,
            Self::Alias => "kerml:Membership"@,
            Self::Other => "kerml:Element"@,
        }
    }

    /// The XMI type name for this kind.
    pub fn xmi_type(&self) -> (r: &'static str)
        ensures
            r@ == self.spec_xmi_type(),
    {
        match self {
            Self::Namespace => "sysml:Namespace",
            Self::Package => "sysml:Package",
            Self::LibraryPackage => "sysml:LibraryPackage",
            Self::Class => "kerml:Class",
            Self::DataType => "kerml:DataType",
            Self::Structure => "kerml:Structure",
            Self::Association => "kerml:Association",
            Self::AssociationStructure => "kerml:AssociationStructure",
            Self::Interaction => "kerml:Interaction",
            Self::Behavior => "kerml:Behavior",
            Self::Function => "kerml:Function",
            Self::Predicate => "kerml:Predicate",
            Self::PartDefinition => "sysml:PartDefinition",
            Self::ItemDefinition => "sysml:ItemDefinition",
            Self::ActionDefinition => "sysml:ActionDefinition",
            Self::PortDefinition => "sysml:PortDefinition",
            Self::AttributeDefinition => "sysml:AttributeDefinition",
            Self::ConnectionDefinition => "sysml:ConnectionDefinition",
            Self::InterfaceDefinition => "sysml:InterfaceDefinition",
            Self::AllocationDefinition => "sysml:AllocationDefinition",
            Self::RequirementDefinition => "sysml:RequirementDefinition",
            Self::ConstraintDefinition => "sysml:ConstraintDefinition",
            Self::StateDefinition => "sysml:StateDefinition",
            Self::CalculationDefinition => "sysml:CalculationDefinition",
            Self::OccurrenceDefinition => "sysml:OccurrenceDefinition",
            Self::UseCaseDefinition => "sysml:UseCaseDefinition",
            Self::AnalysisCaseDefinition => "sysml:AnalysisCaseDefinition",
            Self::VerificationCaseDefinition => "sysml:VerificationCaseDefinition",
            Self::ConcernDefinition => "sysml:ConcernDefinition",
            Self::ViewDefinition => "sysml:ViewDefinition",
            Self::ViewpointDefinition => "sysml:ViewpointDefinition",
            Self::RenderingDefinition => "sysml:RenderingDefinition",
            Self::EnumerationDefinition => "sysml:EnumerationDefinition",
            Self::MetadataDefinition => "sysml:MetadataDefinition",
            Self::PartUsage => "sysml:PartUsage",
            Self::ItemUsage => "sysml:ItemUsage",
            Self::ActionUsage => "sysml:ActionUsage",
            Self::PortUsage => "sysml:PortUsage",
            Self::AttributeUsage => "sysml:AttributeUsage",
            Self::ConnectionUsage => "sysml:ConnectionUsage",
            Self::InterfaceUsage => "sysml:InterfaceUsage",
            Self::AllocationUsage => "sysml:AllocationUsage",
            Self::RequirementUsage => "sysml:RequirementUsage",
            Self::ConstraintUsage => "sysml:ConstraintUsage",
            Self::StateUsage => "sysml:StateUsage",
            Self::TransitionUsage => "sysml:TransitionUsage",
            Self::CalculationUsage => "sysml:CalculationUsage",
            Self::ReferenceUsage => "sysml:ReferenceUsage",
            Self::OccurrenceUsage => "sysml:OccurrenceUsage",
            Self::UseCaseUsage => "sysml:UseCaseUsage",
            Self::AnalysisCaseUsage => "sysml:AnalysisCaseUsage",
            Self::VerificationCaseUsage => "sysml:VerificationCaseUsage",
            Self::FlowConnectionUsage => "sysml:FlowConnectionUsage",
            Self::SuccessionFlowConnectionUsage => "sysml:SuccessionFlowConnectionUsage",
            Self::Feature => "kerml:Feature",
            Self::Step => "kerml:Step",
            Self::Expression => "kerml:Expression",
            Self::BooleanExpression => "kerml:BooleanExpression",
            Self::Invariant => "kerml:Invariant",
            Self::Connector => "kerml:Connector",
            Self::BindingConnector => "kerml:BindingConnector",
            Self::Succession => "kerml:Succession",
            Self::Flow => "kerml:Flow",
            Self::MultiplicityRange => "kerml:MultiplicityRange",
            Self::LiteralInteger => "kerml:LiteralInteger",
            Self::LiteralReal => "kerml:LiteralRational",
            Self::LiteralInfinity => "kerml:LiteralInfinity",
            Self::LiteralBoolean => "kerml:LiteralBoolean",
            Self::LiteralString => "kerml:LiteralString",
            Self::NullExpression => "kerml:NullExpression",
            Self::FeatureReferenceExpression => "kerml:FeatureReferenceExpression",
            Self::OperatorExpression => "kerml:OperatorExpression",
            Self::InvocationExpression => "kerml:InvocationExpression",
            Self::FeatureChainExpression => "kerml:FeatureChainExpression",
            Self::ConstructorExpression => "kerml:ConstructorExpression",
            Self::Membership => "kerml:Membership",
            Self::OwningMembership => "kerml:OwningMembership",
            Self::FeatureMembership => "kerml:FeatureMembership",
            Self::ReturnParameterMembership => "kerml:ReturnParameterMembership",
            Self::ParameterMembership => "kerml:ParameterMembership",
            Self::EndFeatureMembership => "kerml:EndFeatureMembership",
            Self::ResultExpressionMembership => "kerml:ResultExpressionMembership",
            Self::Import => "kerml:Import",
            Self::NamespaceImport => "kerml:NamespaceImport",
            Self::MembershipImport => "kerml:MembershipImport",
            Self::Specialization => "kerml:Specialization",
            Self::FeatureTyping => "kerml:FeatureTyping",
            Self::Subsetting => "kerml:Subsetting",
            Self::ReferenceSubsetting => "kerml:ReferenceSubsetting",
            Self::CrossSubsetting => "kerml:CrossSubsetting",
            Self::Redefinition => "kerml:Redefinition",
            Self::Conjugation => "kerml:Conjugation",
            Self::FeatureValue => "kerml:FeatureValue",
            Self::FeatureChaining => "kerml:FeatureChaining",
            Self::FeatureInverting => "kerml:FeatureInverting",
            Self::Intersecting => "kerml:Intersecting",
            Self::Disjoining => "kerml:Disjoining",
            Self::Unioning => "kerml:Unioning",
            Self::Dependency => "kerml:Dependency",
            Self::PerformActionUsage => "sysml:PerformActionUsage",
            Self::ExhibitStateUsage => "sysml:ExhibitStateUsage",
            Self::IncludeUseCaseUsage => "sysml:IncludeUseCaseUsage",
            Self::AssertConstraintUsage => "sysml:AssertConstraintUsage",
            Self::RequirementConstraintMembership => "sysml:RequirementConstraintMembership",
            Self::Satisfaction => "sysml:SatisfyRequirementUsage",
            Self::Verification => "sysml:RequirementVerificationMembership",
            Self::Comment => "kerml:Comment",
            Self::Documentation => "kerml:Documentation",
            Self::TextualRepresentation => "kerml:TextualRepresentation",
            Self::MetadataUsage => "sysml:MetadataUsage",
            Self::AnnotatingElement => "kerml:AnnotatingElement",
            Self::Annotation => "kerml:Annotation",
            Self::Classifier => "kerml:Classifier",
            Self::Metaclass => "kerml:Metaclass",
            Self::Alias => "kerml:Membership",
            Self::Other => "kerml:Element",
        }
    }

    /// The `xsi:type` value for this kind (official XMI format).
    pub open spec fn spec_xsi_type(&self) -> Seq<char> {
        match self {
            Self::Package => "sysml:Package"@,
            Self::LibraryPackage => "sysml:LibraryPackage"@,
            Self::Class => "sysml:Class"@,
            Self::DataType => "sysml:DataType"@,
            Self::Structure => "sysml:Structure"@,
            Self::Association => "sysml:Association"@,
            Self::AssociationStructure => "sysml:AssociationStructure"@,
            Self::Interaction => "sysml:Interaction"@,
            Self::Behavior => "sysml:Behavior"@,
            Self::Function => "sysml:Function"@,
            Self::Predicate => "sysml:Predicate"@,
            Self::PartDefinition => "sysml:PartDefinition"@,
            Self::ItemDefinition => "sysml:ItemDefinition"@,
            Self::ActionDefinition => "sysml:ActionDefinition"@,
            Self::PortDefinition => "sysml:PortDefinition"@,
            Self::AttributeDefinition => "sysml:AttributeDefinition"@,
            Self::ConnectionDefinition => "sysml:ConnectionDefinition"@,
            Self::InterfaceDefinition => "sysml:InterfaceDefinition"@,
            Self::AllocationDefinition => "sysml:AllocationDefinition"@,
            Self::RequirementDefinition => "sysml:RequirementDefinition"@,
            Self::ConstraintDefinition => "sysml:ConstraintDefinition"@,
            Self::StateDefinition => "sysml:StateDefinition"@,
            Self::CalculationDefinition => "sysml:CalculationDefinition"@,
            Self::OccurrenceDefinition => "sysml:OccurrenceDefinition"@,
            Self::UseCaseDefinition => "sysml:UseCaseDefinition"@,
            Self::AnalysisCaseDefinition => "sysml:AnalysisCaseDefinition"@,
            Self::VerificationCaseDefinition => "sysml:VerificationCaseDefinition"@,
            Self::ConcernDefinition => "sysml:ConcernDefinition"@,
            Self::ViewDefinition => "sysml:ViewDefinition"@,
            Self::ViewpointDefinition => "sysml:ViewpointDefinition"@,
            Self::RenderingDefinition => "sysml:RenderingDefinition"@,
            Self::EnumerationDefinition => "sysml:EnumerationDefinition"@,
            Self::MetadataDefinition => "sysml:MetadataDefinition"@,
            Self::PartUsage => "sysml:PartUsage"@,
            Self::ItemUsage => "sysml:ItemUsage"@,
            Self::ActionUsage => "sysml:ActionUsage"@,
            Self::PortUsage => "sysml:PortUsage"@,
            Self::AttributeUsage => "sysml:AttributeUsage"@,
            Self::ConnectionUsage => "sysml:ConnectionUsage"@,
            Self::InterfaceUsage => "sysml:InterfaceUsage"@,
            Self::AllocationUsage => "sysml:AllocationUsage"@,
            Self::RequirementUsage => "sysml:RequirementUsage"@,
            Self::ConstraintUsage => "sysml:ConstraintUsage"@,
            Self::StateUsage => "sysml:StateUsage"@,
            Self::TransitionUsage => "sysml:TransitionUsage"@,
            Self::CalculationUsage => "sysml:CalculationUsage"@,
            Self::ReferenceUsage => "sysml:ReferenceUsage"@,
            Self::OccurrenceUsage => "sysml:OccurrenceUsage"@,
            Self::UseCaseUsage => "sysml:UseCaseUsage"@,
            Self::AnalysisCaseUsage => "sysml:AnalysisCaseUsage"@,
            Self::VerificationCaseUsage => "sysml:VerificationCaseUsage"@,
            Self::FlowConnectionUsage => "sysml:FlowConnectionUsage"@,
            Self::SuccessionFlowConnectionUsage => "sysml:SuccessionFlowConnectionUsage"@,
            Self::Feature => "sysml:Feature"@,
            Self::Step => "sysml:Step"@,
            Self::Expression => "sysml:Expression"@,
            Self::BooleanExpression => "sysml:BooleanExpression"@,
            Self::Invariant => "sysml:Invariant"@,
            Self::Connector => "sysml:Connector"@,
            Self::BindingConnector => "sysml:BindingConnector"@,
            Self::Succession => "sysml:Succession"@,
            Self::Flow => "sysml:Flow"@,
            Self::MultiplicityRange => "sysml:MultiplicityRange"@,
            Self::LiteralInteger => "sysml:LiteralInteger"@,
            Self::LiteralReal => "sysml:LiteralRational"@,
            Self::LiteralInfinity => "sysml:LiteralInfinity"@,
            Self::LiteralBoolean => "sysml:LiteralBoolean"@,
            Self::LiteralString => "sysml:LiteralString"@,
            Self::NullExpression => "sysml:NullExpression"@,
            Self::FeatureReferenceExpression => "sysml:FeatureReferenceExpression"@,
            Self::OperatorExpression => "sysml:OperatorExpression"@,
            Self::InvocationExpression => "sysml:InvocationExpression"@,
            Self::FeatureChainExpression => "sysml:FeatureChainExpression"@,
            Self::ConstructorExpression => "sysml:ConstructorExpression"@,
            Self::Membership => "sysml:Membership"@,
            Self::OwningMembership => "sysml:OwningMembership"@,
            Self::FeatureMembership => "sysml:FeatureMembership"@,
            Self::ReturnParameterMembership => "sysml:ReturnParameterMembership"@,
            Self::ParameterMembership => "sysml:ParameterMembership"@,
            Self::EndFeatureMembership => "sysml:EndFeatureMembership"@,
            Self::ResultExpressionMembership => "sysml:ResultExpressionMembership"@,
            Self::Import => "sysml:Import"@,
            Self::NamespaceImport => "sysml:NamespaceImport"@,
            Self::MembershipImport => "sysml:MembershipImport"@,
            Self::Specialization => "sysml:Subclassification"@,
            Self::FeatureTyping => "sysml:FeatureTyping"@,
            Self::Subsetting => "sysml:Subsetting"@,
            Self::ReferenceSubsetting => "sysml:ReferenceSubsetting"@,
            Self::CrossSubsetting => "sysml:CrossSubsetting"@,
            Self::Redefinition => "sysml:Redefinition"@,
            Self::Conjugation => "sysml:Conjugation"@,
            Self::FeatureValue => "sysml:FeatureValue"@,
            Self::FeatureChaining => "sysml:FeatureChaining"@,
            Self::FeatureInverting => "sysml:FeatureInverting"@,
            Self::Intersecting => "sysml:Intersecting"@,
            Self::Disjoining => "sysml:Disjoining"@,
            Self::Unioning => "sysml:Unioning"@,
            Self::Dependency => "sysml:Dependency"@,
            Self::PerformActionUsage => "sysml:PerformActionUsage"@,
            Self::ExhibitStateUsage => "sysml:ExhibitStateUsage"@,
            Self::IncludeUseCaseUsage => "sysml:IncludeUseCaseUsage"@,
            Self::AssertConstraintUsage => "sysml:AssertConstraintUsage"@,
            Self::RequirementConstraintMembership => "sysml:RequirementConstraintMembership"@,
            Self::Satisfaction => "sysml:SatisfyRequirementUsage"@,
            Self::Verification => "sysml:RequirementVerificationMembership"@,
            Self::Comment => "sysml:Comment"@,
            Self::Documentation => "sysml:Documentation"@,
            Self::TextualRepresentation => "sysml:TextualRepresentation"@,
            Self::MetadataUsage => "sysml:MetadataUsage"@,
            Self::AnnotatingElement => "sysml:AnnotatingElement"@,
            Self::Annotation => "sysml:Annotation"@,
            Self::Classifier => "sysml:Classifier"@,
            Self::Metaclass => "sysml:Metaclass"@,
            Self::Alias => "sysml:Membership"@,
            Self::Other => "sysml:Element"@,
            Self::Namespace => "sysml:Namespace"@,
        }
    }

    /// The `xsi:type` value for this kind (official XMI format).
    pub fn xsi_type(&self) -> (r: &'static str)
        ensures
            r@ == self.spec_xsi_type(),
    {
        match self {
            Self::Package => "sysml:Package",
            Self::LibraryPackage => "sysml:LibraryPackage",
            Self::Class => "sysml:Class",
            Self::DataType => "sysml:DataType",
            Self::Structure => "sysml:Structure",
            Self::Association => "sysml:Association",
            Self::AssociationStructure => "sysml:AssociationStructure",
            Self::Interaction => "sysml:Interaction",
            Self::Behavior => "sysml:Behavior",
            Self::Function => "sysml:Function",
            Self::Predicate => "sysml:Predicate",
            Self::PartDefinition => "sysml:PartDefinition",
            Self::ItemDefinition => "sysml:ItemDefinition",
            Self::ActionDefinition => "sysml:ActionDefinition",
            Self::PortDefinition => "sysml:PortDefinition",
            Self::AttributeDefinition => "sysml:AttributeDefinition",
            Self::ConnectionDefinition => "sysml:ConnectionDefinition",
            Self::InterfaceDefinition => "sysml:InterfaceDefinition",
            Self::AllocationDefinition => "sysml:AllocationDefinition",
            Self::RequirementDefinition => "sysml:RequirementDefinition",
            Self::ConstraintDefinition => "sysml:ConstraintDefinition",
            Self::StateDefinition => "sysml:StateDefinition",
            Self::CalculationDefinition => "sysml:CalculationDefinition",
            Self::OccurrenceDefinition => "sysml:OccurrenceDefinition",
            Self::UseCaseDefinition => "sysml:UseCaseDefinition",
            Self::AnalysisCaseDefinition => "sysml:AnalysisCaseDefinition",
            Self::VerificationCaseDefinition => "sysml:VerificationCaseDefinition",
            Self::ConcernDefinition => "sysml:ConcernDefinition",
            Self::ViewDefinition => "sysml:ViewDefinition",
            Self::ViewpointDefinition => "sysml:ViewpointDefinition",
            Self::RenderingDefinition => "sysml:RenderingDefinition",
            Self::EnumerationDefinition => "sysml:EnumerationDefinition",
            Self::MetadataDefinition => "sysml:MetadataDefinition",
            Self::PartUsage => "sysml:PartUsage",
            Self::ItemUsage => "sysml:ItemUsage",
            Self::ActionUsage => "sysml:ActionUsage",
            Self::PortUsage => "sysml:PortUsage",
            Self::AttributeUsage => "sysml:AttributeUsage",
            Self::ConnectionUsage => "sysml:ConnectionUsage",
            Self::InterfaceUsage => "sysml:InterfaceUsage",
            Self::AllocationUsage => "sysml:AllocationUsage",
            Self::RequirementUsage => "sysml:RequirementUsage",
            Self::ConstraintUsage => "sysml:ConstraintUsage",
            Self::StateUsage => "sysml:StateUsage",
            Self::TransitionUsage => "sysml:TransitionUsage",
            Self::CalculationUsage => "sysml:CalculationUsage",
            Self::ReferenceUsage => "sysml:ReferenceUsage",
            Self::OccurrenceUsage => "sysml:OccurrenceUsage",
            Self::UseCaseUsage => "sysml:UseCaseUsage",
            Self::AnalysisCaseUsage => "sysml:AnalysisCaseUsage",
            Self::VerificationCaseUsage => "sysml:VerificationCaseUsage",
            Self::FlowConnectionUsage => "sysml:FlowConnectionUsage",
            Self::SuccessionFlowConnectionUsage => "sysml:SuccessionFlowConnectionUsage",
            Self::Feature => "sysml:Feature",
            Self::Step => "sysml:Step",
            Self::Expression => "sysml:Expression",
            Self::BooleanExpression => "sysml:BooleanExpression",
            Self::Invariant => "sysml:Invariant",
            Self::Connector => "sysml:Connector",
            Self::BindingConnector => "sysml:BindingConnector",
            Self::Succession => "sysml:Succession",
            Self::Flow => "sysml:Flow",
            Self::MultiplicityRange => "sysml:MultiplicityRange",
            Self::LiteralInteger => "sysml:LiteralInteger",
            Self::LiteralReal => "sysml:LiteralRational",
            Self::LiteralInfinity => "sysml:LiteralInfinity",
            Self::LiteralBoolean => "sysml:LiteralBoolean",
            Self::LiteralString => "sysml:LiteralString",
            Self::NullExpression => "sysml:NullExpression",
            Self::FeatureReferenceExpression => "sysml:FeatureReferenceExpression",
            Self::OperatorExpression => "sysml:OperatorExpression",
            Self::InvocationExpression => "sysml:InvocationExpression",
            Self::FeatureChainExpression => "sysml:FeatureChainExpression",
            Self::ConstructorExpression => "sysml:ConstructorExpression",
            Self::Membership => "sysml:Membership",
            Self::OwningMembership => "sysml:OwningMembership",
            Self::FeatureMembership => "sysml:FeatureMembership",
            Self::ReturnParameterMembership => "sysml:ReturnParameterMembership",
            Self::ParameterMembership => "sysml:ParameterMembership",
            Self::EndFeatureMembership => "sysml:EndFeatureMembership",
            Self::ResultExpressionMembership => "sysml:ResultExpressionMembership",
            Self::Import => "sysml:Import",
            Self::NamespaceImport => "sysml:NamespaceImport",
            Self::MembershipImport => "sysml:MembershipImport",
            Self::Specialization => "sysml:Subclassification",
            Self::FeatureTyping => "sysml:FeatureTyping",
            Self::Subsetting => "sysml:Subsetting",
            Self::ReferenceSubsetting => "sysml:ReferenceSubsetting",
            Self::CrossSubsetting => "sysml:CrossSubsetting",
            Self::Redefinition => "sysml:Redefinition",
            Self::Conjugation => "sysml:Conjugation",
            Self::FeatureValue => "sysml:FeatureValue",
            Self::FeatureChaining => "sysml:FeatureChaining",
            Self::FeatureInverting => "sysml:FeatureInverting",
            Self::Intersecting => "sysml:Intersecting",
            Self::Disjoining => "sysml:Disjoining",
            Self::Unioning => "sysml:Unioning",
            Self::Dependency => "sysml:Dependency",
            Self::PerformActionUsage => "sysml:PerformActionUsage",
            Self::ExhibitStateUsage => "sysml:ExhibitStateUsage",
            Self::IncludeUseCaseUsage => "sysml:IncludeUseCaseUsage",
            Self::AssertConstraintUsage => "sysml:AssertConstraintUsage",
            Self::RequirementConstraintMembership => "sysml:RequirementConstraintMembership",
            Self::Satisfaction => "sysml:SatisfyRequirementUsage",
            Self::Verification => "sysml:RequirementVerificationMembership",
            Self::Comment => "sysml:Comment",
            Self::Documentation => "sysml:Documentation",
            Self::TextualRepresentation => "sysml:TextualRepresentation",
            Self::MetadataUsage => "sysml:MetadataUsage",
            Self::AnnotatingElement => "sysml:AnnotatingElement",
            Self::Annotation => "sysml:Annotation",
            Self::Classifier => "sysml:Classifier",
            Self::Metaclass => "sysml:Metaclass",
            Self::Alias => "sysml:Membership",
            Self::Other => "sysml:Element",
            Self::Namespace => "sysml:Namespace",
        }
    }

    /// The kind named by an unprefixed metaclass name; unknown names give `Other`.
    /// The names are grouped by length, so a name is compared only with names
    /// of its own length.
    pub open spec fn spec_kind_from_type_name(n: Seq<char>) -> ElementKind {
        if n.len() == 4 {
            if n == "Step"@ {
                ElementKind::Step
            } else if n == "Flow"@ {
                ElementKind::Flow
            } else {
                ElementKind::Other
            }
        } else if n.len() == 5 {
            if n == "Class"@ {
                ElementKind::Class
            } else {
                ElementKind::Other
            }
        } else if n.len() == 6 {
            if n == "Import"@ {
                ElementKind::Import
            } else {
                ElementKind::Other
            }
        } else if n.len() == 7 {
            if n == "Package"@ {
                ElementKind::Package
            } else if n == "Feature"@ {
                ElementKind::Feature
            } else if n == "Comment"@ {
                ElementKind::Comment
            } else {
                ElementKind::Other
            }
        } else if n.len() == 8 {
            if n == "DataType"@ {
                ElementKind::DataType
            } else if n == "Behavior"@ {
                ElementKind::Behavior
            } else if n == "Function"@ {
                ElementKind::Function
            } else if n == "Unioning"@ {
                ElementKind::Unioning
            } else {
                ElementKind::Other
            }
        } else if n.len() == 9 {
            if n == "Namespace"@ {
                ElementKind::Namespace
            } else if n == "Structure"@ {
                ElementKind::Structure
            } else if n == "Predicate"@ {
                ElementKind::Predicate
            } else if n == "PartUsage"@ {
                ElementKind::PartUsage
            } else if n == "ItemUsage"@ {
                ElementKind::ItemUsage
            } else if n == "PortUsage"@ {
                ElementKind::PortUsage
            } else if n == "Invariant"@ {
                ElementKind::Invariant
            } else if n == "Connector"@ {
                ElementKind::Connector
            } else if n == "Metaclass"@ {
                ElementKind::Metaclass
            } else {
                ElementKind::Other
            }
        } else if n.len() == 10 {
            if n == "StateUsage"@ {
                ElementKind::StateUsage
            } else if n == "Expression"@ {
                ElementKind::Expression
            } else if n == "Succession"@ {
                ElementKind::Succession
            } else if n == "Membership"@ {
                ElementKind::Membership
            } else if n == "Subsetting"@ {
                ElementKind::Subsetting
            } else if n == "Disjoining"@ {
                ElementKind::Disjoining
            } else if n == "Dependency"@ {
                ElementKind::Dependency
            } else if n == "Annotation"@ {
                ElementKind::Annotation
            } else if n == "Classifier"@ {
                ElementKind::Classifier
            } else {
                ElementKind::Other
            }
        } else if n.len() == 11 {
            if n == "Association"@ {
                ElementKind::Association
            } else if n == "Interaction"@ {
                ElementKind::Interaction
            } else if n == "ActionUsage"@ {
                ElementKind::ActionUsage
            } else if n == "LiteralReal"@ {
                ElementKind::LiteralReal
            } else if n == "Conjugation"@ {
                ElementKind::Conjugation
            } else {
                ElementKind::Other
            }
        } else if n.len() == 12 {
            if n == "UseCaseUsage"@ {
                ElementKind::UseCaseUsage
            } else if n == "Redefinition"@ {
                ElementKind::Redefinition
            } else if n == "FeatureValue"@ {
                ElementKind::FeatureValue
            } else if n == "Intersecting"@ {
                ElementKind::Intersecting
            } else {
                ElementKind::Other
            }
        } else if n.len() == 13 {
            if n == "LiteralString"@ {
                ElementKind::LiteralString
            } else if n == "FeatureTyping"@ {
                ElementKind::FeatureTyping
            } else if n == "Documentation"@ {
                ElementKind::Documentation
            } else if n == "MetadataUsage"@ {
                ElementKind::MetadataUsage
            } else {
                ElementKind::Other
            }
        } else if n.len() == 14 {
            if n == "LibraryPackage"@ {
                ElementKind::LibraryPackage
            } else if n == "PartDefinition"@ {
                ElementKind::PartDefinition
            } else if n == "ItemDefinition"@ {
                ElementKind::ItemDefinition
            } else if n == "PortDefinition"@ {
                ElementKind::PortDefinition
            } else if n == "ViewDefinition"@ {
                ElementKind::ViewDefinition
            } else if n == "AttributeUsage"@ {
                ElementKind::AttributeUsage
            } else if n == "InterfaceUsage"@ {
                ElementKind::InterfaceUsage
            } else if n == "ReferenceUsage"@ {
                ElementKind::ReferenceUsage
            } else if n == "LiteralInteger"@ {
                ElementKind::LiteralInteger
            } else if n == "LiteralBoolean"@ {
                ElementKind::LiteralBoolean
            } else if n == "NullExpression"@ {
                ElementKind::NullExpression
            } else if n == "Specialization"@ {
                ElementKind::Specialization
            } else {
                ElementKind::Other
            }
        } else if n.len() == 15 {
            if n == "StateDefinition"@ {
                ElementKind::StateDefinition
            } else if n == "ConnectionUsage"@ {
                ElementKind::ConnectionUsage
            } else if n == "AllocationUsage"@ {
                ElementKind::AllocationUsage
            } else if n == "ConstraintUsage"@ {
                ElementKind::ConstraintUsage
            } else if n == "TransitionUsage"@ {
                ElementKind::TransitionUsage
            } else if n == "OccurrenceUsage"@ {
                ElementKind::OccurrenceUsage
            } else if n == "LiteralRational"@ {
                ElementKind::LiteralReal
            } else if n == "LiteralInfinity"@ {
                ElementKind::LiteralInfinity
            } else if n == "NamespaceImport"@ {
                ElementKind::NamespaceImport
            } else if n == "CrossSubsetting"@ {
                ElementKind::CrossSubsetting
            } else if n == "FeatureChaining"@ {
                ElementKind::FeatureChaining
            } else {
                ElementKind::Other
            }
        } else if n.len() == 16 {
            if n == "ActionDefinition"@ {
                ElementKind::ActionDefinition
            } else if n == "RequirementUsage"@ {
                ElementKind::RequirementUsage
            } else if n == "CalculationUsage"@ {
                ElementKind::CalculationUsage
            } else if n == "BindingConnector"@ {
                ElementKind::BindingConnector
            } else if n == "OwningMembership"@ {
                ElementKind::OwningMembership
            } else if n == "MembershipImport"@ {
                ElementKind::MembershipImport
            } else if n == "FeatureInverting"@ {
                ElementKind::FeatureInverting
            } else {
                ElementKind::Other
            }
        } else if n.len() == 17 {
            if n == "UseCaseDefinition"@ {
                ElementKind::UseCaseDefinition
            } else if n == "ConcernDefinition"@ {
                ElementKind::ConcernDefinition
            } else if n == "AnalysisCaseUsage"@ {
                ElementKind::AnalysisCaseUsage
            } else if n == "BooleanExpression"@ {
                ElementKind::BooleanExpression
            } else if n == "MultiplicityRange"@ {
                ElementKind::MultiplicityRange
            } else if n == "FeatureMembership"@ {
                ElementKind::FeatureMembership
            } else if n == "Subclassification"@ {
                ElementKind::Specialization
            } else if n == "ExhibitStateUsage"@ {
                ElementKind::ExhibitStateUsage
            } else if n == "AnnotatingElement"@ {
                ElementKind::AnnotatingElement
            } else {
                ElementKind::Other
            }
        } else if n.len() == 18 {
            if n == "MetadataDefinition"@ {
                ElementKind::MetadataDefinition
            } else if n == "OperatorExpression"@ {
                ElementKind::OperatorExpression
            } else if n == "PerformActionUsage"@ {
                ElementKind::PerformActionUsage
            } else {
                ElementKind::Other
            }
        } else if n.len() == 19 {
            if n == "AttributeDefinition"@ {
                ElementKind::AttributeDefinition
            } else if n == "InterfaceDefinition"@ {
                ElementKind::InterfaceDefinition
            } else if n == "ViewpointDefinition"@ {
                ElementKind::ViewpointDefinition
            } else if n == "RenderingDefinition"@ {
                ElementKind::RenderingDefinition
            } else if n == "FlowConnectionUsage"@ {
                ElementKind::FlowConnectionUsage
            } else if n == "ParameterMembership"@ {
                ElementKind::ParameterMembership
            } else if n == "ReferenceSubsetting"@ {
                ElementKind::ReferenceSubsetting
            } else if n == "IncludeUseCaseUsage"@ {
                ElementKind::IncludeUseCaseUsage
            } else {
                ElementKind::Other
            }
        } else if n.len() == 20 {
            if n == "AssociationStructure"@ {
                ElementKind::AssociationStructure
            } else if n == "ConnectionDefinition"@ {
                ElementKind::ConnectionDefinition
            } else if n == "AllocationDefinition"@ {
                ElementKind::AllocationDefinition
            } else if n == "ConstraintDefinition"@ {
                ElementKind::ConstraintDefinition
            } else if n == "OccurrenceDefinition"@ {
                ElementKind::OccurrenceDefinition
            } else if n == "InvocationExpression"@ {
                ElementKind::InvocationExpression
            } else if n == "EndFeatureMembership"@ {
                ElementKind::EndFeatureMembership
            } else {
                ElementKind::Other
            }
        } else if n.len() == 21 {
            if n == "RequirementDefinition"@ {
                ElementKind::RequirementDefinition
            } else if n == "CalculationDefinition"@ {
                ElementKind::CalculationDefinition
            } else if n == "EnumerationDefinition"@ {
                ElementKind::EnumerationDefinition
            } else if n == "VerificationCaseUsage"@ {
                ElementKind::VerificationCaseUsage
            } else if n == "ConstructorExpression"@ {
                ElementKind::ConstructorExpression
            } else if n == "AssertConstraintUsage"@ {
                ElementKind::AssertConstraintUsage
            } else if n == "TextualRepresentation"@ {
                ElementKind::TextualRepresentation
            } else {
                ElementKind::Other
            }
        } else if n.len() == 22 {
            if n == "AnalysisCaseDefinition"@ {
                ElementKind::AnalysisCaseDefinition
            } else if n == "FeatureChainExpression"@ {
                ElementKind::FeatureChainExpression
            } else {
                ElementKind::Other
            }
        } else if n.len() == 23 {
            if n == "SatisfyRequirementUsage"@ {
                ElementKind::Satisfaction
            } else {
                ElementKind::Other
            }
        } else if n.len() == 25 {
            if n == "ReturnParameterMembership"@ {
                ElementKind::ReturnParameterMembership
            } else {
                ElementKind::Other
            }
        } else if n.len() == 26 {
            if n == "VerificationCaseDefinition"@ {
                ElementKind::VerificationCaseDefinition
            } else if n == "FeatureReferenceExpression"@ {
                ElementKind::FeatureReferenceExpression
            } else if n == "ResultExpressionMembership"@ {
                ElementKind::ResultExpressionMembership
            } else {
                ElementKind::Other
            }
        } else if n.len() == 29 {
            if n == "SuccessionFlowConnectionUsage"@ {
                ElementKind::SuccessionFlowConnectionUsage
            } else {
                ElementKind::Other
            }
        } else if n.len() == 31 {
            if n == "RequirementConstraintMembership"@ {
                ElementKind::RequirementConstraintMembership
            } else {
                ElementKind::Other
            }
        } else if n.len() == 33 {
            if n == "RequirementVerificationMembership"@ {
                ElementKind::Verification
            } else {
                ElementKind::Other
            }
        } else {
            ElementKind::Other
        }
    }

    /// The kind named by an XMI type such as `sysml:PartDefinition`: the
    /// namespace prefix is stripped and the metaclass name looked up.
    pub open spec fn spec_from_xmi_type(xmi_type: Seq<char>) -> ElementKind {
        Self::spec_kind_from_type_name(after_last_colon(xmi_type))
    }

    /// Parse from an XMI type name (a namespace prefix, if present, is stripped).
    pub fn from_xmi_type(xmi_type: &str) -> (r: Self)
        ensures
            r == Self::spec_from_xmi_type(xmi_type@),
    {
        let n = suffix_after_colon(xmi_type);
        let len = n.unicode_len();
        if len == 4 {
            if str_eq(n, "Step") {
                Self::Step
            } else if str_eq(n, "Flow") {
                Self::Flow
            } else {
                Self::Other
            }
        } else if len == 5 {
            if str_eq(n, "Class") {
                Self::Class
            } else {
                Self::Other
            }
        } else if len == 6 {
            if str_eq(n, "Import") {
                Self::Import
            } else {
                Self::Other
            }
        } else if len == 7 {
            if str_eq(n, "Package") {
                Self::Package
            } else if str_eq(n, "Feature") {
                Self::Feature
            } else if str_eq(n, "Comment") {
                Self::Comment
            } else {
                Self::Other
            }
        } else if len == 8 {
            if str_eq(n, "DataType") {
                Self::DataType
            } else if str_eq(n, "Behavior") {
                Self::Behavior
            } else if str_eq(n, "Function") {
                Self::Function
            } else if str_eq(n, "Unioning") {
                Self::Unioning
            } else {
                Self::Other
            }
        } else if len == 9 {
            if str_eq(n, "Namespace") {
                Self::Namespace
            } else if str_eq(n, "Structure") {
                Self::Structure
            } else if str_eq(n, "Predicate") {
                Self::Predicate
            } else if str_eq(n, "PartUsage") {
                Self::PartUsage
            } else if str_eq(n, "ItemUsage") {
                Self::ItemUsage
            } else if str_eq(n, "PortUsage") {
                Self::PortUsage
            } else if str_eq(n, "Invariant") {
                Self::Invariant
            } else if str_eq(n, "Connector") {
                Self::Connector
            } else if str_eq(n, "Metaclass") {
                Self::Metaclass
            } else {
                Self::Other
            }
        } else if len == 10 {
            if str_eq(n, "StateUsage") {
                Self::StateUsage
            } else if str_eq(n, "Expression") {
                Self::Expression
            } else if str_eq(n, "Succession") {
                Self::Succession
            } else if str_eq(n, "Membership") {
                Self::Membership
            } else if str_eq(n, "Subsetting") {
                Self::Subsetting
            } else if str_eq(n, "Disjoining") {
                Self::Disjoining
            } else if str_eq(n, "Dependency") {
                Self::Dependency
            } else if str_eq(n, "Annotation") {
                Self::Annotation
            } else if str_eq(n, "Classifier") {
                Self::Classifier
            } else {
                Self::Other
            }
        } else if len == 11 {
            if str_eq(n, "Association") {
                Self::Association
            } else if str_eq(n, "Interaction") {
                Self::Interaction
            } else if str_eq(n, "ActionUsage") {
                Self::ActionUsage
            } else if str_eq(n, "LiteralReal") {
                Self::LiteralReal
            } else if str_eq(n, "Conjugation") {
                Self::Conjugation
            } else {
                Self::Other
            }
        } else if len == 12 {
            if str_eq(n, "UseCaseUsage") {
                Self::UseCaseUsage
            } else if str_eq(n, "Redefinition") {
                Self::Redefinition
            } else if str_eq(n, "FeatureValue") {
                Self::FeatureValue
            } else if str_eq(n, "Intersecting") {
                Self::Intersecting
            } else {
                Self::Other
            }
        } else if len == 13 {
            if str_eq(n, "LiteralString") {
                Self::LiteralString
            } else if str_eq(n, "FeatureTyping") {
                Self::FeatureTyping
            } else if str_eq(n, "Documentation") {
                Self::Documentation
            } else if str_eq(n, "MetadataUsage") {
                Self::MetadataUsage
            } else {
                Self::Other
            }
        } else if len == 14 {
            if str_eq(n, "LibraryPackage") {
                Self::LibraryPackage
            } else if str_eq(n, "PartDefinition") {
                Self::PartDefinition
            } else if str_eq(n, "ItemDefinition") {
                Self::ItemDefinition
            } else if str_eq(n, "PortDefinition") {
                Self::PortDefinition
            } else if str_eq(n, "ViewDefinition") {
                Self::ViewDefinition
            } else if str_eq(n, "AttributeUsage") {
                Self::AttributeUsage
            } else if str_eq(n, "InterfaceUsage") {
                Self::InterfaceUsage
            } else if str_eq(n, "ReferenceUsage") {
                Self::ReferenceUsage
            } else if str_eq(n, "LiteralInteger") {
                Self::LiteralInteger
            } else if str_eq(n, "LiteralBoolean") {
                Self::LiteralBoolean
            } else if str_eq(n, "NullExpression") {
                Self::NullExpression
            } else if str_eq(n, "Specialization") {
                Self::Specialization
            } else {
                Self::Other
            }
        } else if len == 15 {
            if str_eq(n, "StateDefinition") {
                Self::StateDefinition
            } else if str_eq(n, "ConnectionUsage") {
                Self::ConnectionUsage
            } else if str_eq(n, "AllocationUsage") {
                Self::AllocationUsage
            } else if str_eq(n, "ConstraintUsage") {
                Self::ConstraintUsage
            } else if str_eq(n, "TransitionUsage") {
                Self::TransitionUsage
            } else if str_eq(n, "OccurrenceUsage") {
                Self::OccurrenceUsage
            } else if str_eq(n, "LiteralRational") {
                Self::LiteralReal
            } else if str_eq(n, "LiteralInfinity") {
                Self::LiteralInfinity
            } else if str_eq(n, "NamespaceImport") {
                Self::NamespaceImport
            } else if str_eq(n, "CrossSubsetting") {
                Self::CrossSubsetting
            } else if str_eq(n, "FeatureChaining") {
                Self::FeatureChaining
            } else {
                Self::Other
            }
        } else if len == 16 {
            if str_eq(n, "ActionDefinition") {
                Self::ActionDefinition
            } else if str_eq(n, "RequirementUsage") {
                Self::RequirementUsage
            } else if str_eq(n, "CalculationUsage") {
                Self::CalculationUsage
            } else if str_eq(n, "BindingConnector") {
                Self::BindingConnector
            } else if str_eq(n, "OwningMembership") {
                Self::OwningMembership
            } else if str_eq(n, "MembershipImport") {
                Self::MembershipImport
            } else if str_eq(n, "FeatureInverting") {
                Self::FeatureInverting
            } else {
                Self::Other
            }
        } else if len == 17 {
            if str_eq(n, "UseCaseDefinition") {
                Self::UseCaseDefinition
            } else if str_eq(n, "ConcernDefinition") {
                Self::ConcernDefinition
            } else if str_eq(n, "AnalysisCaseUsage") {
                Self::AnalysisCaseUsage
            } else if str_eq(n, "BooleanExpression") {
                Self::BooleanExpression
            } else if str_eq(n, "MultiplicityRange") {
                Self::MultiplicityRange
            } else if str_eq(n, "FeatureMembership") {
                Self::FeatureMembership
            } else if str_eq(n, "Subclassification") {
                Self::Specialization
            } else if str_eq(n, "ExhibitStateUsage") {
                Self::ExhibitStateUsage
            } else if str_eq(n, "AnnotatingElement") {
                Self::AnnotatingElement
            } else {
                Self::Other
            }
        } else if len == 18 {
            if str_eq(n, "MetadataDefinition") {
                Self::MetadataDefinition
            } else if str_eq(n, "OperatorExpression") {
                Self::OperatorExpression
            } else if str_eq(n, "PerformActionUsage") {
                Self::PerformActionUsage
            } else {
                Self::Other
            }
        } else if len == 19 {
            if str_eq(n, "AttributeDefinition") {
                Self::AttributeDefinition
            } else if str_eq(n, "InterfaceDefinition") {
                Self::InterfaceDefinition
            } else if str_eq(n, "ViewpointDefinition") {
                Self::ViewpointDefinition
            } else if str_eq(n, "RenderingDefinition") {
                Self::RenderingDefinition
            } else if str_eq(n, "FlowConnectionUsage") {
                Self::FlowConnectionUsage
            } else if str_eq(n, "ParameterMembership") {
                Self::ParameterMembership
            } else if str_eq(n, "ReferenceSubsetting") {
                Self::ReferenceSubsetting
            } else if str_eq(n, "IncludeUseCaseUsage") {
                Self::IncludeUseCaseUsage
            } else {
                Self::Other
            }
        } else if len == 20 {
            if str_eq(n, "AssociationStructure") {
                Self::AssociationStructure
            } else if str_eq(n, "ConnectionDefinition") {
                Self::ConnectionDefinition
            } else if str_eq(n, "AllocationDefinition") {
                Self::AllocationDefinition
            } else if str_eq(n, "ConstraintDefinition") {
                Self::ConstraintDefinition
            } else if str_eq(n, "OccurrenceDefinition") {
                Self::OccurrenceDefinition
            } else if str_eq(n, "InvocationExpression") {
                Self::InvocationExpression
            } else if str_eq(n, "EndFeatureMembership") {
                Self::EndFeatureMembership
            } else {
                Self::Other
            }
        } else if len == 21 {
            if str_eq(n, "RequirementDefinition") {
                Self::RequirementDefinition
            } else if str_eq(n, "CalculationDefinition") {
                Self::CalculationDefinition
            } else if str_eq(n, "EnumerationDefinition") {
                Self::EnumerationDefinition
            } else if str_eq(n, "VerificationCaseUsage") {
                Self::VerificationCaseUsage
            } else if str_eq(n, "ConstructorExpression") {
                Self::ConstructorExpression
            } else if str_eq(n, "AssertConstraintUsage") {
                Self::AssertConstraintUsage
            } else if str_eq(n, "TextualRepresentation") {
                Self::TextualRepresentation
            } else {
                Self::Other
            }
        } else if len == 22 {
            if str_eq(n, "AnalysisCaseDefinition") {
                Self::AnalysisCaseDefinition
            } else if str_eq(n, "FeatureChainExpression") {
                Self::FeatureChainExpression
            } else {
                Self::Other
            }
        } else if len == 23 {
            if str_eq(n, "SatisfyRequirementUsage") {
                Self::Satisfaction
            } else {
                Self::Other
            }
        } else if len == 25 {
            if str_eq(n, "ReturnParameterMembership") {
                Self::ReturnParameterMembership
            } else {
                Self::Other
            }
        } else if len == 26 {
            if str_eq(n, "VerificationCaseDefinition") {
                Self::VerificationCaseDefinition
            } else if str_eq(n, "FeatureReferenceExpression") {
                Self::FeatureReferenceExpression
            } else if str_eq(n, "ResultExpressionMembership") {
                Self::ResultExpressionMembership
            } else {
                Self::Other
            }
        } else if len == 29 {
            if str_eq(n, "SuccessionFlowConnectionUsage") {
                Self::SuccessionFlowConnectionUsage
            } else {
                Self::Other
            }
        } else if len == 31 {
            if str_eq(n, "RequirementConstraintMembership") {
                Self::RequirementConstraintMembership
            } else {
                Self::Other
            }
        } else if len == 33 {
            if str_eq(n, "RequirementVerificationMembership") {
                Self::Verification
            } else {
                Self::Other
            }
        } else {
            Self::Other
        }
    }

    /// The JSON-LD `@type` value: the XMI type name without its namespace prefix.
    pub open spec fn spec_jsonld_type(&self) -> Seq<char> {
        after_last_colon(self.spec_xmi_type())
    }

    /// Get the JSON-LD `@type` value.
    pub fn jsonld_type(&self) -> (r: &'static str)
        ensures
            r@ == self.spec_jsonld_type(),
    {
        suffix_after_colon(self.xmi_type())
    }
}

/// The classes of kinds fit together: memberships and inline-rendered kinds
/// are relationships; definitions, usages and relationships are pairwise
/// disjoint; every usage is a Feature kind and no Feature kind is a
/// definition or a relationship; and the membership chosen to wrap any child
/// is a membership.
pub proof fn lemma_kind_classes(k: ElementKind)
    ensures
        k.spec_is_membership() ==> k.spec_is_relationship(),
        k.spec_is_inline_rendered() ==> k.spec_is_relationship(),
        !(k.spec_is_definition() && k.spec_is_usage()),
        !(k.spec_is_definition() && k.spec_is_relationship()),
        !(k.spec_is_usage() && k.spec_is_relationship()),
        k.spec_is_usage() ==> k.spec_is_feature_kind(),
        k.spec_is_feature_kind() ==> !k.spec_is_definition() && !k.spec_is_relationship(),
        ElementKind::spec_membership_kind_for(k).spec_is_membership(),
        ElementKind::spec_membership_kind_for(k).spec_is_relationship(),
{
}

} // verus!
