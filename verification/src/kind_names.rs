//! Round-trip laws for the metaclass names written by the interchange formats.
//!
//! Each written type name is first shown to reduce, after its namespace prefix
//! is stripped, to the bare metaclass name; each bare name is then shown to be
//! looked up as its own kind. Last come the laws on how the names of a
//! kind are built from its JSON-LD type.
use vstd::prelude::*;
use crate::strings::{after_last_colon, lemma_after_last_colon_has_no_colon, lemma_after_last_colon_idempotent};
use crate::element_kind::ElementKind;
verus! {
proof fn lemma_suffix_sysml_Namespace()
    ensures
        after_last_colon("sysml:Namespace"@) == "Namespace"@,
{
    reveal_with_fuel(after_last_colon, 17);
    reveal_strlit("sysml:Namespace");
    reveal_strlit("Namespace");
    assert(after_last_colon("sysml:Namespace"@) =~= "Namespace"@);
}

proof fn lemma_suffix_sysml_Package()
    ensures
        after_last_colon("sysml:Package"@) == "Package"@,
{
    reveal_with_fuel(after_last_colon, 15);
    reveal_strlit("sysml:Package");
    reveal_strlit("Package");
    assert(after_last_colon("sysml:Package"@) =~= "Package"@);
}

proof fn lemma_suffix_sysml_LibraryPackage()
    ensures
        after_last_colon("sysml:LibraryPackage"@) == "LibraryPackage"@,
{
    reveal_with_fuel(after_last_colon, 22);
    reveal_strlit("sysml:LibraryPackage");
    reveal_strlit("LibraryPackage");
    assert(after_last_colon("sysml:LibraryPackage"@) =~= "LibraryPackage"@);
}

proof fn lemma_suffix_kerml_Class()
    ensures
        after_last_colon("kerml:Class"@) == "Class"@,
{
    reveal_with_fuel(after_last_colon, 13);
    reveal_strlit("kerml:Class");
    reveal_strlit("Class");
    assert(after_last_colon("kerml:Class"@) =~= "Class"@);
}

proof fn lemma_suffix_sysml_Class()
    ensures
        after_last_colon("sysml:Class"@) == "Class"@,
{
    reveal_with_fuel(after_last_colon, 13);
    reveal_strlit("sysml:Class");
    reveal_strlit("Class");
    assert(after_last_colon("sysml:Class"@) =~= "Class"@);
}

proof fn lemma_suffix_kerml_DataType()
    ensures
        after_last_colon("kerml:DataType"@) == "DataType"@,
{
    reveal_with_fuel(after_last_colon, 16);
    reveal_strlit("kerml:DataType");
    reveal_strlit("DataType");
    assert(after_last_colon("kerml:DataType"@) =~= "DataType"@);
}

proof fn lemma_suffix_sysml_DataType()
    ensures
        after_last_colon("sysml:DataType"@) == "DataType"@,
{
    reveal_with_fuel(after_last_colon, 16);
    reveal_strlit("sysml:DataType");
    reveal_strlit("DataType");
    assert(after_last_colon("sysml:DataType"@) =~= "DataType"@);
}

proof fn lemma_suffix_kerml_Structure()
    ensures
        after_last_colon("kerml:Structure"@) == "Structure"@,
{
    reveal_with_fuel(after_last_colon, 17);
    reveal_strlit("kerml:Structure");
    reveal_strlit("Structure");
    assert(after_last_colon("kerml:Structure"@) =~= "Structure"@);
}

proof fn lemma_suffix_sysml_Structure()
    ensures
        after_last_colon("sysml:Structure"@) == "Structure"@,
{
    reveal_with_fuel(after_last_colon, 17);
    reveal_strlit("sysml:Structure");
    reveal_strlit("Structure");
    assert(after_last_colon("sysml:Structure"@) =~= "Structure"@);
}

proof fn lemma_suffix_kerml_Association()
    ensures
        after_last_colon("kerml:Association"@) == "Association"@,
{
    reveal_with_fuel(after_last_colon, 19);
    reveal_strlit("kerml:Association");
    reveal_strlit("Association");
    assert(after_last_colon("kerml:Association"@) =~= "Association"@);
}

proof fn lemma_suffix_sysml_Association()
    ensures
        after_last_colon("sysml:Association"@) == "Association"@,
{
    reveal_with_fuel(after_last_colon, 19);
    reveal_strlit("sysml:Association");
    reveal_strlit("Association");
    assert(after_last_colon("sysml:Association"@) =~= "Association"@);
}

proof fn lemma_suffix_kerml_AssociationStructure()
    ensures
        after_last_colon("kerml:AssociationStructure"@) == "AssociationStructure"@,
{
    reveal_with_fuel(after_last_colon, 28);
    reveal_strlit("kerml:AssociationStructure");
    reveal_strlit("AssociationStructure");
    assert(after_last_colon("kerml:AssociationStructure"@) =~= "AssociationStructure"@);
}

proof fn lemma_suffix_sysml_AssociationStructure()
    ensures
        after_last_colon("sysml:AssociationStructure"@) == "AssociationStructure"@,
{
    reveal_with_fuel(after_last_colon, 28);
    reveal_strlit("sysml:AssociationStructure");
    reveal_strlit("AssociationStructure");
    assert(after_last_colon("sysml:AssociationStructure"@) =~= "AssociationStructure"@);
}

proof fn lemma_suffix_kerml_Interaction()
    ensures
        after_last_colon("kerml:Interaction"@) == "Interaction"@,
{
    reveal_with_fuel(after_last_colon, 19);
    reveal_strlit("kerml:Interaction");
    reveal_strlit("Interaction");
    assert(after_last_colon("kerml:Interaction"@) =~= "Interaction"@);
}

proof fn lemma_suffix_sysml_Interaction()
    ensures
        after_last_colon("sysml:Interaction"@) == "Interaction"@,
{
    reveal_with_fuel(after_last_colon, 19);
    reveal_strlit("sysml:Interaction");
    reveal_strlit("Interaction");
    assert(after_last_colon("sysml:Interaction"@) =~= "Interaction"@);
}

proof fn lemma_suffix_kerml_Behavior()
    ensures
        after_last_colon("kerml:Behavior"@) == "Behavior"@,
{
    reveal_with_fuel(after_last_colon, 16);
    reveal_strlit("kerml:Behavior");
    reveal_strlit("Behavior");
    assert(after_last_colon("kerml:Behavior"@) =~= "Behavior"@);
}

proof fn lemma_suffix_sysml_Behavior()
    ensures
        after_last_colon("sysml:Behavior"@) == "Behavior"@,
{
    reveal_with_fuel(after_last_colon, 16);
    reveal_strlit("sysml:Behavior");
    reveal_strlit("Behavior");
    assert(after_last_colon("sysml:Behavior"@) =~= "Behavior"@);
}

proof fn lemma_suffix_kerml_Function()
    ensures
        after_last_colon("kerml:Function"@) == "Function"@,
{
    reveal_with_fuel(after_last_colon, 16);
    reveal_strlit("kerml:Function");
    reveal_strlit("Function");
    assert(after_last_colon("kerml:Function"@) =~= "Function"@);
}

proof fn lemma_suffix_sysml_Function()
    ensures
        after_last_colon("sysml:Function"@) == "Function"@,
{
    reveal_with_fuel(after_last_colon, 16);
    reveal_strlit("sysml:Function");
    reveal_strlit("Function");
    assert(after_last_colon("sysml:Function"@) =~= "Function"@);
}

proof fn lemma_suffix_kerml_Predicate()
    ensures
        after_last_colon("kerml:Predicate"@) == "Predicate"@,
{
    reveal_with_fuel(after_last_colon, 17);
    reveal_strlit("kerml:Predicate");
    reveal_strlit("Predicate");
    assert(after_last_colon("kerml:Predicate"@) =~= "Predicate"@);
}

proof fn lemma_suffix_sysml_Predicate()
    ensures
        after_last_colon("sysml:Predicate"@) == "Predicate"@,
{
    reveal_with_fuel(after_last_colon, 17);
    reveal_strlit("sysml:Predicate");
    reveal_strlit("Predicate");
    assert(after_last_colon("sysml:Predicate"@) =~= "Predicate"@);
}

proof fn lemma_suffix_sysml_PartDefinition()
    ensures
        after_last_colon("sysml:PartDefinition"@) == "PartDefinition"@,
{
    reveal_with_fuel(after_last_colon, 22);
    reveal_strlit("sysml:PartDefinition");
    reveal_strlit("PartDefinition");
    assert(after_last_colon("sysml:PartDefinition"@) =~= "PartDefinition"@);
}

proof fn lemma_suffix_sysml_ItemDefinition()
    ensures
        after_last_colon("sysml:ItemDefinition"@) == "ItemDefinition"@,
{
    reveal_with_fuel(after_last_colon, 22);
    reveal_strlit("sysml:ItemDefinition");
    reveal_strlit("ItemDefinition");
    assert(after_last_colon("sysml:ItemDefinition"@) =~= "ItemDefinition"@);
}

proof fn lemma_suffix_sysml_ActionDefinition()
    ensures
        after_last_colon("sysml:ActionDefinition"@) == "ActionDefinition"@,
{
    reveal_with_fuel(after_last_colon, 24);
    reveal_strlit("sysml:ActionDefinition");
    reveal_strlit("ActionDefinition");
    assert(after_last_colon("sysml:ActionDefinition"@) =~= "ActionDefinition"@);
}

proof fn lemma_suffix_sysml_PortDefinition()
    ensures
        after_last_colon("sysml:PortDefinition"@) == "PortDefinition"@,
{
    reveal_with_fuel(after_last_colon, 22);
    reveal_strlit("sysml:PortDefinition");
    reveal_strlit("PortDefinition");
    assert(after_last_colon("sysml:PortDefinition"@) =~= "PortDefinition"@);
}

proof fn lemma_suffix_sysml_AttributeDefinition()
    ensures
        after_last_colon("sysml:AttributeDefinition"@) == "AttributeDefinition"@,
{
    reveal_with_fuel(after_last_colon, 27);
    reveal_strlit("sysml:AttributeDefinition");
    reveal_strlit("AttributeDefinition");
    assert(after_last_colon("sysml:AttributeDefinition"@) =~= "AttributeDefinition"@);
}

proof fn lemma_suffix_sysml_ConnectionDefinition()
    ensures
        after_last_colon("sysml:ConnectionDefinition"@) == "ConnectionDefinition"@,
{
    reveal_with_fuel(after_last_colon, 28);
    reveal_strlit("sysml:ConnectionDefinition");
    reveal_strlit("ConnectionDefinition");
    assert(after_last_colon("sysml:ConnectionDefinition"@) =~= "ConnectionDefinition"@);
}

proof fn lemma_suffix_sysml_InterfaceDefinition()
    ensures
        after_last_colon("sysml:InterfaceDefinition"@) == "InterfaceDefinition"@,
{
    reveal_with_fuel(after_last_colon, 27);
    reveal_strlit("sysml:InterfaceDefinition");
    reveal_strlit("InterfaceDefinition");
    assert(after_last_colon("sysml:InterfaceDefinition"@) =~= "InterfaceDefinition"@);
}

proof fn lemma_suffix_sysml_AllocationDefinition()
    ensures
        after_last_colon("sysml:AllocationDefinition"@) == "AllocationDefinition"@,
{
    reveal_with_fuel(after_last_colon, 28);
    reveal_strlit("sysml:AllocationDefinition");
    reveal_strlit("AllocationDefinition");
    assert(after_last_colon("sysml:AllocationDefinition"@) =~= "AllocationDefinition"@);
}

proof fn lemma_suffix_sysml_RequirementDefinition()
    ensures
        after_last_colon("sysml:RequirementDefinition"@) == "RequirementDefinition"@,
{
    reveal_with_fuel(after_last_colon, 29);
    reveal_strlit("sysml:RequirementDefinition");
    reveal_strlit("RequirementDefinition");
    assert(after_last_colon("sysml:RequirementDefinition"@) =~= "RequirementDefinition"@);
}

proof fn lemma_suffix_sysml_ConstraintDefinition()
    ensures
        after_last_colon("sysml:ConstraintDefinition"@) == "ConstraintDefinition"@,
{
    reveal_with_fuel(after_last_colon, 28);
    reveal_strlit("sysml:ConstraintDefinition");
    reveal_strlit("ConstraintDefinition");
    assert(after_last_colon("sysml:ConstraintDefinition"@) =~= "ConstraintDefinition"@);
}

proof fn lemma_suffix_sysml_StateDefinition()
    ensures
        after_last_colon("sysml:StateDefinition"@) == "StateDefinition"@,
{
    reveal_with_fuel(after_last_colon, 23);
    reveal_strlit("sysml:StateDefinition");
    reveal_strlit("StateDefinition");
    assert(after_last_colon("sysml:StateDefinition"@) =~= "StateDefinition"@);
}

proof fn lemma_suffix_sysml_CalculationDefinition()
    ensures
        after_last_colon("sysml:CalculationDefinition"@) == "CalculationDefinition"@,
{
    reveal_with_fuel(after_last_colon, 29);
    reveal_strlit("sysml:CalculationDefinition");
    reveal_strlit("CalculationDefinition");
    assert(after_last_colon("sysml:CalculationDefinition"@) =~= "CalculationDefinition"@);
}

proof fn lemma_suffix_sysml_OccurrenceDefinition()
    ensures
        after_last_colon("sysml:OccurrenceDefinition"@) == "OccurrenceDefinition"@,
{
    reveal_with_fuel(after_last_colon, 28);
    reveal_strlit("sysml:OccurrenceDefinition");
    reveal_strlit("OccurrenceDefinition");
    assert(after_last_colon("sysml:OccurrenceDefinition"@) =~= "OccurrenceDefinition"@);
}

proof fn lemma_suffix_sysml_UseCaseDefinition()
    ensures
        after_last_colon("sysml:UseCaseDefinition"@) == "UseCaseDefinition"@,
{
    reveal_with_fuel(after_last_colon, 25);
    reveal_strlit("sysml:UseCaseDefinition");
    reveal_strlit("UseCaseDefinition");
    assert(after_last_colon("sysml:UseCaseDefinition"@) =~= "UseCaseDefinition"@);
}

proof fn lemma_suffix_sysml_AnalysisCaseDefinition()
    ensures
        after_last_colon("sysml:AnalysisCaseDefinition"@) == "AnalysisCaseDefinition"@,
{
    reveal_with_fuel(after_last_colon, 30);
    reveal_strlit("sysml:AnalysisCaseDefinition");
    reveal_strlit("AnalysisCaseDefinition");
    assert(after_last_colon("sysml:AnalysisCaseDefinition"@) =~= "AnalysisCaseDefinition"@);
}

#[verifier::rlimit(60)]
proof fn lemma_suffix_sysml_VerificationCaseDefinition()
    ensures
        after_last_colon("sysml:VerificationCaseDefinition"@) == "VerificationCaseDefinition"@,
{
    reveal_with_fuel(after_last_colon, 34);
    reveal_strlit("sysml:VerificationCaseDefinition");
    reveal_strlit("VerificationCaseDefinition");
    assert(after_last_colon("sysml:VerificationCaseDefinition"@) =~= "VerificationCaseDefinition"@);
}

proof fn lemma_suffix_sysml_ConcernDefinition()
    ensures
        after_last_colon("sysml:ConcernDefinition"@) == "ConcernDefinition"@,
{
    reveal_with_fuel(after_last_colon, 25);
    reveal_strlit("sysml:ConcernDefinition");
    reveal_strlit("ConcernDefinition");
    assert(after_last_colon("sysml:ConcernDefinition"@) =~= "ConcernDefinition"@);
}

proof fn lemma_suffix_sysml_ViewDefinition()
    ensures
        after_last_colon("sysml:ViewDefinition"@) == "ViewDefinition"@,
{
    reveal_with_fuel(after_last_colon, 22);
    reveal_strlit("sysml:ViewDefinition");
    reveal_strlit("ViewDefinition");
    assert(after_last_colon("sysml:ViewDefinition"@) =~= "ViewDefinition"@);
}

proof fn lemma_suffix_sysml_ViewpointDefinition()
    ensures
        after_last_colon("sysml:ViewpointDefinition"@) == "ViewpointDefinition"@,
{
    reveal_with_fuel(after_last_colon, 27);
    reveal_strlit("sysml:ViewpointDefinition");
    reveal_strlit("ViewpointDefinition");
    assert(after_last_colon("sysml:ViewpointDefinition"@) =~= "ViewpointDefinition"@);
}

proof fn lemma_suffix_sysml_RenderingDefinition()
    ensures
        after_last_colon("sysml:RenderingDefinition"@) == "RenderingDefinition"@,
{
    reveal_with_fuel(after_last_colon, 27);
    reveal_strlit("sysml:RenderingDefinition");
    reveal_strlit("RenderingDefinition");
    assert(after_last_colon("sysml:RenderingDefinition"@) =~= "RenderingDefinition"@);
}

proof fn lemma_suffix_sysml_EnumerationDefinition()
    ensures
        after_last_colon("sysml:EnumerationDefinition"@) == "EnumerationDefinition"@,
{
    reveal_with_fuel(after_last_colon, 29);
    reveal_strlit("sysml:EnumerationDefinition");
    reveal_strlit("EnumerationDefinition");
    assert(after_last_colon("sysml:EnumerationDefinition"@) =~= "EnumerationDefinition"@);
}

proof fn lemma_suffix_sysml_MetadataDefinition()
    ensures
        after_last_colon("sysml:MetadataDefinition"@) == "MetadataDefinition"@,
{
    reveal_with_fuel(after_last_colon, 26);
    reveal_strlit("sysml:MetadataDefinition");
    reveal_strlit("MetadataDefinition");
    assert(after_last_colon("sysml:MetadataDefinition"@) =~= "MetadataDefinition"@);
}

proof fn lemma_suffix_sysml_PartUsage()
    ensures
        after_last_colon("sysml:PartUsage"@) == "PartUsage"@,
{
    reveal_with_fuel(after_last_colon, 17);
    reveal_strlit("sysml:PartUsage");
    reveal_strlit("PartUsage");
    assert(after_last_colon("sysml:PartUsage"@) =~= "PartUsage"@);
}

proof fn lemma_suffix_sysml_ItemUsage()
    ensures
        after_last_colon("sysml:ItemUsage"@) == "ItemUsage"@,
{
    reveal_with_fuel(after_last_colon, 17);
    reveal_strlit("sysml:ItemUsage");
    reveal_strlit("ItemUsage");
    assert(after_last_colon("sysml:ItemUsage"@) =~= "ItemUsage"@);
}

proof fn lemma_suffix_sysml_ActionUsage()
    ensures
        after_last_colon("sysml:ActionUsage"@) == "ActionUsage"@,
{
    reveal_with_fuel(after_last_colon, 19);
    reveal_strlit("sysml:ActionUsage");
    reveal_strlit("ActionUsage");
    assert(after_last_colon("sysml:ActionUsage"@) =~= "ActionUsage"@);
}

proof fn lemma_suffix_sysml_PortUsage()
    ensures
        after_last_colon("sysml:PortUsage"@) == "PortUsage"@,
{
    reveal_with_fuel(after_last_colon, 17);
    reveal_strlit("sysml:PortUsage");
    reveal_strlit("PortUsage");
    assert(after_last_colon("sysml:PortUsage"@) =~= "PortUsage"@);
}

proof fn lemma_suffix_sysml_AttributeUsage()
    ensures
        after_last_colon("sysml:AttributeUsage"@) == "AttributeUsage"@,
{
    reveal_with_fuel(after_last_colon, 22);
    reveal_strlit("sysml:AttributeUsage");
    reveal_strlit("AttributeUsage");
    assert(after_last_colon("sysml:AttributeUsage"@) =~= "AttributeUsage"@);
}

proof fn lemma_suffix_sysml_ConnectionUsage()
    ensures
        after_last_colon("sysml:ConnectionUsage"@) == "ConnectionUsage"@,
{
    reveal_with_fuel(after_last_colon, 23);
    reveal_strlit("sysml:ConnectionUsage");
    reveal_strlit("ConnectionUsage");
    assert(after_last_colon("sysml:ConnectionUsage"@) =~= "ConnectionUsage"@);
}

proof fn lemma_suffix_sysml_InterfaceUsage()
    ensures
        after_last_colon("sysml:InterfaceUsage"@) == "InterfaceUsage"@,
{
    reveal_with_fuel(after_last_colon, 22);
    reveal_strlit("sysml:InterfaceUsage");
    reveal_strlit("InterfaceUsage");
    assert(after_last_colon("sysml:InterfaceUsage"@) =~= "InterfaceUsage"@);
}

proof fn lemma_suffix_sysml_AllocationUsage()
    ensures
        after_last_colon("sysml:AllocationUsage"@) == "AllocationUsage"@,
{
    reveal_with_fuel(after_last_colon, 23);
    reveal_strlit("sysml:AllocationUsage");
    reveal_strlit("AllocationUsage");
    assert(after_last_colon("sysml:AllocationUsage"@) =~= "AllocationUsage"@);
}

proof fn lemma_suffix_sysml_RequirementUsage()
    ensures
        after_last_colon("sysml:RequirementUsage"@) == "RequirementUsage"@,
{
    reveal_with_fuel(after_last_colon, 24);
    reveal_strlit("sysml:RequirementUsage");
    reveal_strlit("RequirementUsage");
    assert(after_last_colon("sysml:RequirementUsage"@) =~= "RequirementUsage"@);
}

proof fn lemma_suffix_sysml_ConstraintUsage()
    ensures
        after_last_colon("sysml:ConstraintUsage"@) == "ConstraintUsage"@,
{
    reveal_with_fuel(after_last_colon, 23);
    reveal_strlit("sysml:ConstraintUsage");
    reveal_strlit("ConstraintUsage");
    assert(after_last_colon("sysml:ConstraintUsage"@) =~= "ConstraintUsage"@);
}

proof fn lemma_suffix_sysml_StateUsage()
    ensures
        after_last_colon("sysml:StateUsage"@) == "StateUsage"@,
{
    reveal_with_fuel(after_last_colon, 18);
    reveal_strlit("sysml:StateUsage");
    reveal_strlit("StateUsage");
    assert(after_last_colon("sysml:StateUsage"@) =~= "StateUsage"@);
}

proof fn lemma_suffix_sysml_TransitionUsage()
    ensures
        after_last_colon("sysml:TransitionUsage"@) == "TransitionUsage"@,
{
    reveal_with_fuel(after_last_colon, 23);
    reveal_strlit("sysml:TransitionUsage");
    reveal_strlit("TransitionUsage");
    assert(after_last_colon("sysml:TransitionUsage"@) =~= "TransitionUsage"@);
}

proof fn lemma_suffix_sysml_CalculationUsage()
    ensures
        after_last_colon("sysml:CalculationUsage"@) == "CalculationUsage"@,
{
    reveal_with_fuel(after_last_colon, 24);
    reveal_strlit("sysml:CalculationUsage");
    reveal_strlit("CalculationUsage");
    assert(after_last_colon("sysml:CalculationUsage"@) =~= "CalculationUsage"@);
}

proof fn lemma_suffix_sysml_ReferenceUsage()
    ensures
        after_last_colon("sysml:ReferenceUsage"@) == "ReferenceUsage"@,
{
    reveal_with_fuel(after_last_colon, 22);
    reveal_strlit("sysml:ReferenceUsage");
    reveal_strlit("ReferenceUsage");
    assert(after_last_colon("sysml:ReferenceUsage"@) =~= "ReferenceUsage"@);
}

proof fn lemma_suffix_sysml_OccurrenceUsage()
    ensures
        after_last_colon("sysml:OccurrenceUsage"@) == "OccurrenceUsage"@,
{
    reveal_with_fuel(after_last_colon, 23);
    reveal_strlit("sysml:OccurrenceUsage");
    reveal_strlit("OccurrenceUsage");
    assert(after_last_colon("sysml:OccurrenceUsage"@) =~= "OccurrenceUsage"@);
}

proof fn lemma_suffix_sysml_UseCaseUsage()
    ensures
        after_last_colon("sysml:UseCaseUsage"@) == "UseCaseUsage"@,
{
    reveal_with_fuel(after_last_colon, 20);
    reveal_strlit("sysml:UseCaseUsage");
    reveal_strlit("UseCaseUsage");
    assert(after_last_colon("sysml:UseCaseUsage"@) =~= "UseCaseUsage"@);
}

proof fn lemma_suffix_sysml_AnalysisCaseUsage()
    ensures
        after_last_colon("sysml:AnalysisCaseUsage"@) == "AnalysisCaseUsage"@,
{
    reveal_with_fuel(after_last_colon, 25);
    reveal_strlit("sysml:AnalysisCaseUsage");
    reveal_strlit("AnalysisCaseUsage");
    assert(after_last_colon("sysml:AnalysisCaseUsage"@) =~= "AnalysisCaseUsage"@);
}

proof fn lemma_suffix_sysml_VerificationCaseUsage()
    ensures
        after_last_colon("sysml:VerificationCaseUsage"@) == "VerificationCaseUsage"@,
{
    reveal_with_fuel(after_last_colon, 29);
    reveal_strlit("sysml:VerificationCaseUsage");
    reveal_strlit("VerificationCaseUsage");
    assert(after_last_colon("sysml:VerificationCaseUsage"@) =~= "VerificationCaseUsage"@);
}

proof fn lemma_suffix_sysml_FlowConnectionUsage()
    ensures
        after_last_colon("sysml:FlowConnectionUsage"@) == "FlowConnectionUsage"@,
{
    reveal_with_fuel(after_last_colon, 27);
    reveal_strlit("sysml:FlowConnectionUsage");
    reveal_strlit("FlowConnectionUsage");
    assert(after_last_colon("sysml:FlowConnectionUsage"@) =~= "FlowConnectionUsage"@);
}

#[verifier::rlimit(60)]
proof fn lemma_suffix_sysml_SuccessionFlowConnectionUsage()
    ensures
        after_last_colon("sysml:SuccessionFlowConnectionUsage"@) == "SuccessionFlowConnectionUsage"@,
{
    reveal_with_fuel(after_last_colon, 37);
    reveal_strlit("sysml:SuccessionFlowConnectionUsage");
    reveal_strlit("SuccessionFlowConnectionUsage");
    assert(after_last_colon("sysml:SuccessionFlowConnectionUsage"@) =~= "SuccessionFlowConnectionUsage"@);
}

proof fn lemma_suffix_kerml_Feature()
    ensures
        after_last_colon("kerml:Feature"@) == "Feature"@,
{
    reveal_with_fuel(after_last_colon, 15);
    reveal_strlit("kerml:Feature");
    reveal_strlit("Feature");
    assert(after_last_colon("kerml:Feature"@) =~= "Feature"@);
}

proof fn lemma_suffix_sysml_Feature()
    ensures
        after_last_colon("sysml:Feature"@) == "Feature"@,
{
    reveal_with_fuel(after_last_colon, 15);
    reveal_strlit("sysml:Feature");
    reveal_strlit("Feature");
    assert(after_last_colon("sysml:Feature"@) =~= "Feature"@);
}

proof fn lemma_suffix_kerml_Step()
    ensures
        after_last_colon("kerml:Step"@) == "Step"@,
{
    reveal_with_fuel(after_last_colon, 12);
    reveal_strlit("kerml:Step");
    reveal_strlit("Step");
    assert(after_last_colon("kerml:Step"@) =~= "Step"@);
}

proof fn lemma_suffix_sysml_Step()
    ensures
        after_last_colon("sysml:Step"@) == "Step"@,
{
    reveal_with_fuel(after_last_colon, 12);
    reveal_strlit("sysml:Step");
    reveal_strlit("Step");
    assert(after_last_colon("sysml:Step"@) =~= "Step"@);
}

proof fn lemma_suffix_kerml_Expression()
    ensures
        after_last_colon("kerml:Expression"@) == "Expression"@,
{
    reveal_with_fuel(after_last_colon, 18);
    reveal_strlit("kerml:Expression");
    reveal_strlit("Expression");
    assert(after_last_colon("kerml:Expression"@) =~= "Expression"@);
}

proof fn lemma_suffix_sysml_Expression()
    ensures
        after_last_colon("sysml:Expression"@) == "Expression"@,
{
    reveal_with_fuel(after_last_colon, 18);
    reveal_strlit("sysml:Expression");
    reveal_strlit("Expression");
    assert(after_last_colon("sysml:Expression"@) =~= "Expression"@);
}

proof fn lemma_suffix_kerml_BooleanExpression()
    ensures
        after_last_colon("kerml:BooleanExpression"@) == "BooleanExpression"@,
{
    reveal_with_fuel(after_last_colon, 25);
    reveal_strlit("kerml:BooleanExpression");
    reveal_strlit("BooleanExpression");
    assert(after_last_colon("kerml:BooleanExpression"@) =~= "BooleanExpression"@);
}

proof fn lemma_suffix_sysml_BooleanExpression()
    ensures
        after_last_colon("sysml:BooleanExpression"@) == "BooleanExpression"@,
{
    reveal_with_fuel(after_last_colon, 25);
    reveal_strlit("sysml:BooleanExpression");
    reveal_strlit("BooleanExpression");
    assert(after_last_colon("sysml:BooleanExpression"@) =~= "BooleanExpression"@);
}

proof fn lemma_suffix_kerml_Invariant()
    ensures
        after_last_colon("kerml:Invariant"@) == "Invariant"@,
{
    reveal_with_fuel(after_last_colon, 17);
    reveal_strlit("kerml:Invariant");
    reveal_strlit("Invariant");
    assert(after_last_colon("kerml:Invariant"@) =~= "Invariant"@);
}

proof fn lemma_suffix_sysml_Invariant()
    ensures
        after_last_colon("sysml:Invariant"@) == "Invariant"@,
{
    reveal_with_fuel(after_last_colon, 17);
    reveal_strlit("sysml:Invariant");
    reveal_strlit("Invariant");
    assert(after_last_colon("sysml:Invariant"@) =~= "Invariant"@);
}

proof fn lemma_suffix_kerml_Connector()
    ensures
        after_last_colon("kerml:Connector"@) == "Connector"@,
{
    reveal_with_fuel(after_last_colon, 17);
    reveal_strlit("kerml:Connector");
    reveal_strlit("Connector");
    assert(after_last_colon("kerml:Connector"@) =~= "Connector"@);
}

proof fn lemma_suffix_sysml_Connector()
    ensures
        after_last_colon("sysml:Connector"@) == "Connector"@,
{
    reveal_with_fuel(after_last_colon, 17);
    reveal_strlit("sysml:Connector");
    reveal_strlit("Connector");
    assert(after_last_colon("sysml:Connector"@) =~= "Connector"@);
}

proof fn lemma_suffix_kerml_BindingConnector()
    ensures
        after_last_colon("kerml:BindingConnector"@) == "BindingConnector"@,
{
    reveal_with_fuel(after_last_colon, 24);
    reveal_strlit("kerml:BindingConnector");
    reveal_strlit("BindingConnector");
    assert(after_last_colon("kerml:BindingConnector"@) =~= "BindingConnector"@);
}

proof fn lemma_suffix_sysml_BindingConnector()
    ensures
        after_last_colon("sysml:BindingConnector"@) == "BindingConnector"@,
{
    reveal_with_fuel(after_last_colon, 24);
    reveal_strlit("sysml:BindingConnector");
    reveal_strlit("BindingConnector");
    assert(after_last_colon("sysml:BindingConnector"@) =~= "BindingConnector"@);
}

proof fn lemma_suffix_kerml_Succession()
    ensures
        after_last_colon("kerml:Succession"@) == "Succession"@,
{
    reveal_with_fuel(after_last_colon, 18);
    reveal_strlit("kerml:Succession");
    reveal_strlit("Succession");
    assert(after_last_colon("kerml:Succession"@) =~= "Succession"@);
}

proof fn lemma_suffix_sysml_Succession()
    ensures
        after_last_colon("sysml:Succession"@) == "Succession"@,
{
    reveal_with_fuel(after_last_colon, 18);
    reveal_strlit("sysml:Succession");
    reveal_strlit("Succession");
    assert(after_last_colon("sysml:Succession"@) =~= "Succession"@);
}

proof fn lemma_suffix_kerml_Flow()
    ensures
        after_last_colon("kerml:Flow"@) == "Flow"@,
{
    reveal_with_fuel(after_last_colon, 12);
    reveal_strlit("kerml:Flow");
    reveal_strlit("Flow");
    assert(after_last_colon("kerml:Flow"@) =~= "Flow"@);
}

proof fn lemma_suffix_sysml_Flow()
    ensures
        after_last_colon("sysml:Flow"@) == "Flow"@,
{
    reveal_with_fuel(after_last_colon, 12);
    reveal_strlit("sysml:Flow");
    reveal_strlit("Flow");
    assert(after_last_colon("sysml:Flow"@) =~= "Flow"@);
}

proof fn lemma_suffix_kerml_MultiplicityRange()
    ensures
        after_last_colon("kerml:MultiplicityRange"@) == "MultiplicityRange"@,
{
    reveal_with_fuel(after_last_colon, 25);
    reveal_strlit("kerml:MultiplicityRange");
    reveal_strlit("MultiplicityRange");
    assert(after_last_colon("kerml:MultiplicityRange"@) =~= "MultiplicityRange"@);
}

proof fn lemma_suffix_sysml_MultiplicityRange()
    ensures
        after_last_colon("sysml:MultiplicityRange"@) == "MultiplicityRange"@,
{
    reveal_with_fuel(after_last_colon, 25);
    reveal_strlit("sysml:MultiplicityRange");
    reveal_strlit("MultiplicityRange");
    assert(after_last_colon("sysml:MultiplicityRange"@) =~= "MultiplicityRange"@);
}

proof fn lemma_suffix_kerml_LiteralInteger()
    ensures
        after_last_colon("kerml:LiteralInteger"@) == "LiteralInteger"@,
{
    reveal_with_fuel(after_last_colon, 22);
    reveal_strlit("kerml:LiteralInteger");
    reveal_strlit("LiteralInteger");
    assert(after_last_colon("kerml:LiteralInteger"@) =~= "LiteralInteger"@);
}

proof fn lemma_suffix_sysml_LiteralInteger()
    ensures
        after_last_colon("sysml:LiteralInteger"@) == "LiteralInteger"@,
{
    reveal_with_fuel(after_last_colon, 22);
    reveal_strlit("sysml:LiteralInteger");
    reveal_strlit("LiteralInteger");
    assert(after_last_colon("sysml:LiteralInteger"@) =~= "LiteralInteger"@);
}

proof fn lemma_suffix_kerml_LiteralRational()
    ensures
        after_last_colon("kerml:LiteralRational"@) == "LiteralRational"@,
{
    reveal_with_fuel(after_last_colon, 23);
    reveal_strlit("kerml:LiteralRational");
    reveal_strlit("LiteralRational");
    assert(after_last_colon("kerml:LiteralRational"@) =~= "LiteralRational"@);
}

proof fn lemma_suffix_sysml_LiteralRational()
    ensures
        after_last_colon("sysml:LiteralRational"@) == "LiteralRational"@,
{
    reveal_with_fuel(after_last_colon, 23);
    reveal_strlit("sysml:LiteralRational");
    reveal_strlit("LiteralRational");
    assert(after_last_colon("sysml:LiteralRational"@) =~= "LiteralRational"@);
}

proof fn lemma_suffix_kerml_LiteralInfinity()
    ensures
        after_last_colon("kerml:LiteralInfinity"@) == "LiteralInfinity"@,
{
    reveal_with_fuel(after_last_colon, 23);
    reveal_strlit("kerml:LiteralInfinity");
    reveal_strlit("LiteralInfinity");
    assert(after_last_colon("kerml:LiteralInfinity"@) =~= "LiteralInfinity"@);
}

proof fn lemma_suffix_sysml_LiteralInfinity()
    ensures
        after_last_colon("sysml:LiteralInfinity"@) == "LiteralInfinity"@,
{
    reveal_with_fuel(after_last_colon, 23);
    reveal_strlit("sysml:LiteralInfinity");
    reveal_strlit("LiteralInfinity");
    assert(after_last_colon("sysml:LiteralInfinity"@) =~= "LiteralInfinity"@);
}

proof fn lemma_suffix_kerml_LiteralBoolean()
    ensures
        after_last_colon("kerml:LiteralBoolean"@) == "LiteralBoolean"@,
{
    reveal_with_fuel(after_last_colon, 22);
    reveal_strlit("kerml:LiteralBoolean");
    reveal_strlit("LiteralBoolean");
    assert(after_last_colon("kerml:LiteralBoolean"@) =~= "LiteralBoolean"@);
}

proof fn lemma_suffix_sysml_LiteralBoolean()
    ensures
        after_last_colon("sysml:LiteralBoolean"@) == "LiteralBoolean"@,
{
    reveal_with_fuel(after_last_colon, 22);
    reveal_strlit("sysml:LiteralBoolean");
    reveal_strlit("LiteralBoolean");
    assert(after_last_colon("sysml:LiteralBoolean"@) =~= "LiteralBoolean"@);
}

proof fn lemma_suffix_kerml_LiteralString()
    ensures
        after_last_colon("kerml:LiteralString"@) == "LiteralString"@,
{
    reveal_with_fuel(after_last_colon, 21);
    reveal_strlit("kerml:LiteralString");
    reveal_strlit("LiteralString");
    assert(after_last_colon("kerml:LiteralString"@) =~= "LiteralString"@);
}

proof fn lemma_suffix_sysml_LiteralString()
    ensures
        after_last_colon("sysml:LiteralString"@) == "LiteralString"@,
{
    reveal_with_fuel(after_last_colon, 21);
    reveal_strlit("sysml:LiteralString");
    reveal_strlit("LiteralString");
    assert(after_last_colon("sysml:LiteralString"@) =~= "LiteralString"@);
}

proof fn lemma_suffix_kerml_NullExpression()
    ensures
        after_last_colon("kerml:NullExpression"@) == "NullExpression"@,
{
    reveal_with_fuel(after_last_colon, 22);
    reveal_strlit("kerml:NullExpression");
    reveal_strlit("NullExpression");
    assert(after_last_colon("kerml:NullExpression"@) =~= "NullExpression"@);
}

proof fn lemma_suffix_sysml_NullExpression()
    ensures
        after_last_colon("sysml:NullExpression"@) == "NullExpression"@,
{
    reveal_with_fuel(after_last_colon, 22);
    reveal_strlit("sysml:NullExpression");
    reveal_strlit("NullExpression");
    assert(after_last_colon("sysml:NullExpression"@) =~= "NullExpression"@);
}

#[verifier::rlimit(60)]
proof fn lemma_suffix_kerml_FeatureReferenceExpression()
    ensures
        after_last_colon("kerml:FeatureReferenceExpression"@) == "FeatureReferenceExpression"@,
{
    reveal_with_fuel(after_last_colon, 34);
    reveal_strlit("kerml:FeatureReferenceExpression");
    reveal_strlit("FeatureReferenceExpression");
    assert(after_last_colon("kerml:FeatureReferenceExpression"@) =~= "FeatureReferenceExpression"@);
}

#[verifier::rlimit(60)]
proof fn lemma_suffix_sysml_FeatureReferenceExpression()
    ensures
        after_last_colon("sysml:FeatureReferenceExpression"@) == "FeatureReferenceExpression"@,
{
    reveal_with_fuel(after_last_colon, 34);
    reveal_strlit("sysml:FeatureReferenceExpression");
    reveal_strlit("FeatureReferenceExpression");
    assert(after_last_colon("sysml:FeatureReferenceExpression"@) =~= "FeatureReferenceExpression"@);
}

proof fn lemma_suffix_kerml_OperatorExpression()
    ensures
        after_last_colon("kerml:OperatorExpression"@) == "OperatorExpression"@,
{
    reveal_with_fuel(after_last_colon, 26);
    reveal_strlit("kerml:OperatorExpression");
    reveal_strlit("OperatorExpression");
    assert(after_last_colon("kerml:OperatorExpression"@) =~= "OperatorExpression"@);
}

proof fn lemma_suffix_sysml_OperatorExpression()
    ensures
        after_last_colon("sysml:OperatorExpression"@) == "OperatorExpression"@,
{
    reveal_with_fuel(after_last_colon, 26);
    reveal_strlit("sysml:OperatorExpression");
    reveal_strlit("OperatorExpression");
    assert(after_last_colon("sysml:OperatorExpression"@) =~= "OperatorExpression"@);
}

proof fn lemma_suffix_kerml_InvocationExpression()
    ensures
        after_last_colon("kerml:InvocationExpression"@) == "InvocationExpression"@,
{
    reveal_with_fuel(after_last_colon, 28);
    reveal_strlit("kerml:InvocationExpression");
    reveal_strlit("InvocationExpression");
    assert(after_last_colon("kerml:InvocationExpression"@) =~= "InvocationExpression"@);
}

proof fn lemma_suffix_sysml_InvocationExpression()
    ensures
        after_last_colon("sysml:InvocationExpression"@) == "InvocationExpression"@,
{
    reveal_with_fuel(after_last_colon, 28);
    reveal_strlit("sysml:InvocationExpression");
    reveal_strlit("InvocationExpression");
    assert(after_last_colon("sysml:InvocationExpression"@) =~= "InvocationExpression"@);
}

proof fn lemma_suffix_kerml_FeatureChainExpression()
    ensures
        after_last_colon("kerml:FeatureChainExpression"@) == "FeatureChainExpression"@,
{
    reveal_with_fuel(after_last_colon, 30);
    reveal_strlit("kerml:FeatureChainExpression");
    reveal_strlit("FeatureChainExpression");
    assert(after_last_colon("kerml:FeatureChainExpression"@) =~= "FeatureChainExpression"@);
}

proof fn lemma_suffix_sysml_FeatureChainExpression()
    ensures
        after_last_colon("sysml:FeatureChainExpression"@) == "FeatureChainExpression"@,
{
    reveal_with_fuel(after_last_colon, 30);
    reveal_strlit("sysml:FeatureChainExpression");
    reveal_strlit("FeatureChainExpression");
    assert(after_last_colon("sysml:FeatureChainExpression"@) =~= "FeatureChainExpression"@);
}

proof fn lemma_suffix_kerml_ConstructorExpression()
    ensures
        after_last_colon("kerml:ConstructorExpression"@) == "ConstructorExpression"@,
{
    reveal_with_fuel(after_last_colon, 29);
    reveal_strlit("kerml:ConstructorExpression");
    reveal_strlit("ConstructorExpression");
    assert(after_last_colon("kerml:ConstructorExpression"@) =~= "ConstructorExpression"@);
}

proof fn lemma_suffix_sysml_ConstructorExpression()
    ensures
        after_last_colon("sysml:ConstructorExpression"@) == "ConstructorExpression"@,
{
    reveal_with_fuel(after_last_colon, 29);
    reveal_strlit("sysml:ConstructorExpression");
    reveal_strlit("ConstructorExpression");
    assert(after_last_colon("sysml:ConstructorExpression"@) =~= "ConstructorExpression"@);
}

proof fn lemma_suffix_kerml_Membership()
    ensures
        after_last_colon("kerml:Membership"@) == "Membership"@,
{
    reveal_with_fuel(after_last_colon, 18);
    reveal_strlit("kerml:Membership");
    reveal_strlit("Membership");
    assert(after_last_colon("kerml:Membership"@) =~= "Membership"@);
}

proof fn lemma_suffix_sysml_Membership()
    ensures
        after_last_colon("sysml:Membership"@) == "Membership"@,
{
    reveal_with_fuel(after_last_colon, 18);
    reveal_strlit("sysml:Membership");
    reveal_strlit("Membership");
    assert(after_last_colon("sysml:Membership"@) =~= "Membership"@);
}

proof fn lemma_suffix_kerml_OwningMembership()
    ensures
        after_last_colon("kerml:OwningMembership"@) == "OwningMembership"@,
{
    reveal_with_fuel(after_last_colon, 24);
    reveal_strlit("kerml:OwningMembership");
    reveal_strlit("OwningMembership");
    assert(after_last_colon("kerml:OwningMembership"@) =~= "OwningMembership"@);
}

proof fn lemma_suffix_sysml_OwningMembership()
    ensures
        after_last_colon("sysml:OwningMembership"@) == "OwningMembership"@,
{
    reveal_with_fuel(after_last_colon, 24);
    reveal_strlit("sysml:OwningMembership");
    reveal_strlit("OwningMembership");
    assert(after_last_colon("sysml:OwningMembership"@) =~= "OwningMembership"@);
}

proof fn lemma_suffix_kerml_FeatureMembership()
    ensures
        after_last_colon("kerml:FeatureMembership"@) == "FeatureMembership"@,
{
    reveal_with_fuel(after_last_colon, 25);
    reveal_strlit("kerml:FeatureMembership");
    reveal_strlit("FeatureMembership");
    assert(after_last_colon("kerml:FeatureMembership"@) =~= "FeatureMembership"@);
}

proof fn lemma_suffix_sysml_FeatureMembership()
    ensures
        after_last_colon("sysml:FeatureMembership"@) == "FeatureMembership"@,
{
    reveal_with_fuel(after_last_colon, 25);
    reveal_strlit("sysml:FeatureMembership");
    reveal_strlit("FeatureMembership");
    assert(after_last_colon("sysml:FeatureMembership"@) =~= "FeatureMembership"@);
}

#[verifier::rlimit(60)]
proof fn lemma_suffix_kerml_ReturnParameterMembership()
    ensures
        after_last_colon("kerml:ReturnParameterMembership"@) == "ReturnParameterMembership"@,
{
    reveal_with_fuel(after_last_colon, 33);
    reveal_strlit("kerml:ReturnParameterMembership");
    reveal_strlit("ReturnParameterMembership");
    assert(after_last_colon("kerml:ReturnParameterMembership"@) =~= "ReturnParameterMembership"@);
}

#[verifier::rlimit(60)]
proof fn lemma_suffix_sysml_ReturnParameterMembership()
    ensures
        after_last_colon("sysml:ReturnParameterMembership"@) == "ReturnParameterMembership"@,
{
    reveal_with_fuel(after_last_colon, 33);
    reveal_strlit("sysml:ReturnParameterMembership");
    reveal_strlit("ReturnParameterMembership");
    assert(after_last_colon("sysml:ReturnParameterMembership"@) =~= "ReturnParameterMembership"@);
}

proof fn lemma_suffix_kerml_ParameterMembership()
    ensures
        after_last_colon("kerml:ParameterMembership"@) == "ParameterMembership"@,
{
    reveal_with_fuel(after_last_colon, 27);
    reveal_strlit("kerml:ParameterMembership");
    reveal_strlit("ParameterMembership");
    assert(after_last_colon("kerml:ParameterMembership"@) =~= "ParameterMembership"@);
}

proof fn lemma_suffix_sysml_ParameterMembership()
    ensures
        after_last_colon("sysml:ParameterMembership"@) == "ParameterMembership"@,
{
    reveal_with_fuel(after_last_colon, 27);
    reveal_strlit("sysml:ParameterMembership");
    reveal_strlit("ParameterMembership");
    assert(after_last_colon("sysml:ParameterMembership"@) =~= "ParameterMembership"@);
}

proof fn lemma_suffix_kerml_EndFeatureMembership()
    ensures
        after_last_colon("kerml:EndFeatureMembership"@) == "EndFeatureMembership"@,
{
    reveal_with_fuel(after_last_colon, 28);
    reveal_strlit("kerml:EndFeatureMembership");
    reveal_strlit("EndFeatureMembership");
    assert(after_last_colon("kerml:EndFeatureMembership"@) =~= "EndFeatureMembership"@);
}

proof fn lemma_suffix_sysml_EndFeatureMembership()
    ensures
        after_last_colon("sysml:EndFeatureMembership"@) == "EndFeatureMembership"@,
{
    reveal_with_fuel(after_last_colon, 28);
    reveal_strlit("sysml:EndFeatureMembership");
    reveal_strlit("EndFeatureMembership");
    assert(after_last_colon("sysml:EndFeatureMembership"@) =~= "EndFeatureMembership"@);
}

#[verifier::rlimit(60)]
proof fn lemma_suffix_kerml_ResultExpressionMembership()
    ensures
        after_last_colon("kerml:ResultExpressionMembership"@) == "ResultExpressionMembership"@,
{
    reveal_with_fuel(after_last_colon, 34);
    reveal_strlit("kerml:ResultExpressionMembership");
    reveal_strlit("ResultExpressionMembership");
    assert(after_last_colon("kerml:ResultExpressionMembership"@) =~= "ResultExpressionMembership"@);
}

#[verifier::rlimit(60)]
proof fn lemma_suffix_sysml_ResultExpressionMembership()
    ensures
        after_last_colon("sysml:ResultExpressionMembership"@) == "ResultExpressionMembership"@,
{
    reveal_with_fuel(after_last_colon, 34);
    reveal_strlit("sysml:ResultExpressionMembership");
    reveal_strlit("ResultExpressionMembership");
    assert(after_last_colon("sysml:ResultExpressionMembership"@) =~= "ResultExpressionMembership"@);
}

proof fn lemma_suffix_kerml_Import()
    ensures
        after_last_colon("kerml:Import"@) == "Import"@,
{
    reveal_with_fuel(after_last_colon, 14);
    reveal_strlit("kerml:Import");
    reveal_strlit("Import");
    assert(after_last_colon("kerml:Import"@) =~= "Import"@);
}

proof fn lemma_suffix_sysml_Import()
    ensures
        after_last_colon("sysml:Import"@) == "Import"@,
{
    reveal_with_fuel(after_last_colon, 14);
    reveal_strlit("sysml:Import");
    reveal_strlit("Import");
    assert(after_last_colon("sysml:Import"@) =~= "Import"@);
}

proof fn lemma_suffix_kerml_NamespaceImport()
    ensures
        after_last_colon("kerml:NamespaceImport"@) == "NamespaceImport"@,
{
    reveal_with_fuel(after_last_colon, 23);
    reveal_strlit("kerml:NamespaceImport");
    reveal_strlit("NamespaceImport");
    assert(after_last_colon("kerml:NamespaceImport"@) =~= "NamespaceImport"@);
}

proof fn lemma_suffix_sysml_NamespaceImport()
    ensures
        after_last_colon("sysml:NamespaceImport"@) == "NamespaceImport"@,
{
    reveal_with_fuel(after_last_colon, 23);
    reveal_strlit("sysml:NamespaceImport");
    reveal_strlit("NamespaceImport");
    assert(after_last_colon("sysml:NamespaceImport"@) =~= "NamespaceImport"@);
}

proof fn lemma_suffix_kerml_MembershipImport()
    ensures
        after_last_colon("kerml:MembershipImport"@) == "MembershipImport"@,
{
    reveal_with_fuel(after_last_colon, 24);
    reveal_strlit("kerml:MembershipImport");
    reveal_strlit("MembershipImport");
    assert(after_last_colon("kerml:MembershipImport"@) =~= "MembershipImport"@);
}

proof fn lemma_suffix_sysml_MembershipImport()
    ensures
        after_last_colon("sysml:MembershipImport"@) == "MembershipImport"@,
{
    reveal_with_fuel(after_last_colon, 24);
    reveal_strlit("sysml:MembershipImport");
    reveal_strlit("MembershipImport");
    assert(after_last_colon("sysml:MembershipImport"@) =~= "MembershipImport"@);
}

proof fn lemma_suffix_kerml_Specialization()
    ensures
        after_last_colon("kerml:Specialization"@) == "Specialization"@,
{
    reveal_with_fuel(after_last_colon, 22);
    reveal_strlit("kerml:Specialization");
    reveal_strlit("Specialization");
    assert(after_last_colon("kerml:Specialization"@) =~= "Specialization"@);
}

proof fn lemma_suffix_sysml_Subclassification()
    ensures
        after_last_colon("sysml:Subclassification"@) == "Subclassification"@,
{
    reveal_with_fuel(after_last_colon, 25);
    reveal_strlit("sysml:Subclassification");
    reveal_strlit("Subclassification");
    assert(after_last_colon("sysml:Subclassification"@) =~= "Subclassification"@);
}

proof fn lemma_suffix_kerml_FeatureTyping()
    ensures
        after_last_colon("kerml:FeatureTyping"@) == "FeatureTyping"@,
{
    reveal_with_fuel(after_last_colon, 21);
    reveal_strlit("kerml:FeatureTyping");
    reveal_strlit("FeatureTyping");
    assert(after_last_colon("kerml:FeatureTyping"@) =~= "FeatureTyping"@);
}

proof fn lemma_suffix_sysml_FeatureTyping()
    ensures
        after_last_colon("sysml:FeatureTyping"@) == "FeatureTyping"@,
{
    reveal_with_fuel(after_last_colon, 21);
    reveal_strlit("sysml:FeatureTyping");
    reveal_strlit("FeatureTyping");
    assert(after_last_colon("sysml:FeatureTyping"@) =~= "FeatureTyping"@);
}

proof fn lemma_suffix_kerml_Subsetting()
    ensures
        after_last_colon("kerml:Subsetting"@) == "Subsetting"@,
{
    reveal_with_fuel(after_last_colon, 18);
    reveal_strlit("kerml:Subsetting");
    reveal_strlit("Subsetting");
    assert(after_last_colon("kerml:Subsetting"@) =~= "Subsetting"@);
}

proof fn lemma_suffix_sysml_Subsetting()
    ensures
        after_last_colon("sysml:Subsetting"@) == "Subsetting"@,
{
    reveal_with_fuel(after_last_colon, 18);
    reveal_strlit("sysml:Subsetting");
    reveal_strlit("Subsetting");
    assert(after_last_colon("sysml:Subsetting"@) =~= "Subsetting"@);
}

proof fn lemma_suffix_kerml_ReferenceSubsetting()
    ensures
        after_last_colon("kerml:ReferenceSubsetting"@) == "ReferenceSubsetting"@,
{
    reveal_with_fuel(after_last_colon, 27);
    reveal_strlit("kerml:ReferenceSubsetting");
    reveal_strlit("ReferenceSubsetting");
    assert(after_last_colon("kerml:ReferenceSubsetting"@) =~= "ReferenceSubsetting"@);
}

proof fn lemma_suffix_sysml_ReferenceSubsetting()
    ensures
        after_last_colon("sysml:ReferenceSubsetting"@) == "ReferenceSubsetting"@,
{
    reveal_with_fuel(after_last_colon, 27);
    reveal_strlit("sysml:ReferenceSubsetting");
    reveal_strlit("ReferenceSubsetting");
    assert(after_last_colon("sysml:ReferenceSubsetting"@) =~= "ReferenceSubsetting"@);
}

proof fn lemma_suffix_kerml_CrossSubsetting()
    ensures
        after_last_colon("kerml:CrossSubsetting"@) == "CrossSubsetting"@,
{
    reveal_with_fuel(after_last_colon, 23);
    reveal_strlit("kerml:CrossSubsetting");
    reveal_strlit("CrossSubsetting");
    assert(after_last_colon("kerml:CrossSubsetting"@) =~= "CrossSubsetting"@);
}

proof fn lemma_suffix_sysml_CrossSubsetting()
    ensures
        after_last_colon("sysml:CrossSubsetting"@) == "CrossSubsetting"@,
{
    reveal_with_fuel(after_last_colon, 23);
    reveal_strlit("sysml:CrossSubsetting");
    reveal_strlit("CrossSubsetting");
    assert(after_last_colon("sysml:CrossSubsetting"@) =~= "CrossSubsetting"@);
}

proof fn lemma_suffix_kerml_Redefinition()
    ensures
        after_last_colon("kerml:Redefinition"@) == "Redefinition"@,
{
    reveal_with_fuel(after_last_colon, 20);
    reveal_strlit("kerml:Redefinition");
    reveal_strlit("Redefinition");
    assert(after_last_colon("kerml:Redefinition"@) =~= "Redefinition"@);
}

proof fn lemma_suffix_sysml_Redefinition()
    ensures
        after_last_colon("sysml:Redefinition"@) == "Redefinition"@,
{
    reveal_with_fuel(after_last_colon, 20);
    reveal_strlit("sysml:Redefinition");
    reveal_strlit("Redefinition");
    assert(after_last_colon("sysml:Redefinition"@) =~= "Redefinition"@);
}

proof fn lemma_suffix_kerml_Conjugation()
    ensures
        after_last_colon("kerml:Conjugation"@) == "Conjugation"@,
{
    reveal_with_fuel(after_last_colon, 19);
    reveal_strlit("kerml:Conjugation");
    reveal_strlit("Conjugation");
    assert(after_last_colon("kerml:Conjugation"@) =~= "Conjugation"@);
}

proof fn lemma_suffix_sysml_Conjugation()
    ensures
        after_last_colon("sysml:Conjugation"@) == "Conjugation"@,
{
    reveal_with_fuel(after_last_colon, 19);
    reveal_strlit("sysml:Conjugation");
    reveal_strlit("Conjugation");
    assert(after_last_colon("sysml:Conjugation"@) =~= "Conjugation"@);
}

proof fn lemma_suffix_kerml_FeatureValue()
    ensures
        after_last_colon("kerml:FeatureValue"@) == "FeatureValue"@,
{
    reveal_with_fuel(after_last_colon, 20);
    reveal_strlit("kerml:FeatureValue");
    reveal_strlit("FeatureValue");
    assert(after_last_colon("kerml:FeatureValue"@) =~= "FeatureValue"@);
}

proof fn lemma_suffix_sysml_FeatureValue()
    ensures
        after_last_colon("sysml:FeatureValue"@) == "FeatureValue"@,
{
    reveal_with_fuel(after_last_colon, 20);
    reveal_strlit("sysml:FeatureValue");
    reveal_strlit("FeatureValue");
    assert(after_last_colon("sysml:FeatureValue"@) =~= "FeatureValue"@);
}

proof fn lemma_suffix_kerml_FeatureChaining()
    ensures
        after_last_colon("kerml:FeatureChaining"@) == "FeatureChaining"@,
{
    reveal_with_fuel(after_last_colon, 23);
    reveal_strlit("kerml:FeatureChaining");
    reveal_strlit("FeatureChaining");
    assert(after_last_colon("kerml:FeatureChaining"@) =~= "FeatureChaining"@);
}

proof fn lemma_suffix_sysml_FeatureChaining()
    ensures
        after_last_colon("sysml:FeatureChaining"@) == "FeatureChaining"@,
{
    reveal_with_fuel(after_last_colon, 23);
    reveal_strlit("sysml:FeatureChaining");
    reveal_strlit("FeatureChaining");
    assert(after_last_colon("sysml:FeatureChaining"@) =~= "FeatureChaining"@);
}

proof fn lemma_suffix_kerml_FeatureInverting()
    ensures
        after_last_colon("kerml:FeatureInverting"@) == "FeatureInverting"@,
{
    reveal_with_fuel(after_last_colon, 24);
    reveal_strlit("kerml:FeatureInverting");
    reveal_strlit("FeatureInverting");
    assert(after_last_colon("kerml:FeatureInverting"@) =~= "FeatureInverting"@);
}

proof fn lemma_suffix_sysml_FeatureInverting()
    ensures
        after_last_colon("sysml:FeatureInverting"@) == "FeatureInverting"@,
{
    reveal_with_fuel(after_last_colon, 24);
    reveal_strlit("sysml:FeatureInverting");
    reveal_strlit("FeatureInverting");
    assert(after_last_colon("sysml:FeatureInverting"@) =~= "FeatureInverting"@);
}

proof fn lemma_suffix_kerml_Intersecting()
    ensures
        after_last_colon("kerml:Intersecting"@) == "Intersecting"@,
{
    reveal_with_fuel(after_last_colon, 20);
    reveal_strlit("kerml:Intersecting");
    reveal_strlit("Intersecting");
    assert(after_last_colon("kerml:Intersecting"@) =~= "Intersecting"@);
}

proof fn lemma_suffix_sysml_Intersecting()
    ensures
        after_last_colon("sysml:Intersecting"@) == "Intersecting"@,
{
    reveal_with_fuel(after_last_colon, 20);
    reveal_strlit("sysml:Intersecting");
    reveal_strlit("Intersecting");
    assert(after_last_colon("sysml:Intersecting"@) =~= "Intersecting"@);
}

proof fn lemma_suffix_kerml_Disjoining()
    ensures
        after_last_colon("kerml:Disjoining"@) == "Disjoining"@,
{
    reveal_with_fuel(after_last_colon, 18);
    reveal_strlit("kerml:Disjoining");
    reveal_strlit("Disjoining");
    assert(after_last_colon("kerml:Disjoining"@) =~= "Disjoining"@);
}

proof fn lemma_suffix_sysml_Disjoining()
    ensures
        after_last_colon("sysml:Disjoining"@) == "Disjoining"@,
{
    reveal_with_fuel(after_last_colon, 18);
    reveal_strlit("sysml:Disjoining");
    reveal_strlit("Disjoining");
    assert(after_last_colon("sysml:Disjoining"@) =~= "Disjoining"@);
}

proof fn lemma_suffix_kerml_Unioning()
    ensures
        after_last_colon("kerml:Unioning"@) == "Unioning"@,
{
    reveal_with_fuel(after_last_colon, 16);
    reveal_strlit("kerml:Unioning");
    reveal_strlit("Unioning");
    assert(after_last_colon("kerml:Unioning"@) =~= "Unioning"@);
}

proof fn lemma_suffix_sysml_Unioning()
    ensures
        after_last_colon("sysml:Unioning"@) == "Unioning"@,
{
    reveal_with_fuel(after_last_colon, 16);
    reveal_strlit("sysml:Unioning");
    reveal_strlit("Unioning");
    assert(after_last_colon("sysml:Unioning"@) =~= "Unioning"@);
}

proof fn lemma_suffix_kerml_Dependency()
    ensures
        after_last_colon("kerml:Dependency"@) == "Dependency"@,
{
    reveal_with_fuel(after_last_colon, 18);
    reveal_strlit("kerml:Dependency");
    reveal_strlit("Dependency");
    assert(after_last_colon("kerml:Dependency"@) =~= "Dependency"@);
}

proof fn lemma_suffix_sysml_Dependency()
    ensures
        after_last_colon("sysml:Dependency"@) == "Dependency"@,
{
    reveal_with_fuel(after_last_colon, 18);
    reveal_strlit("sysml:Dependency");
    reveal_strlit("Dependency");
    assert(after_last_colon("sysml:Dependency"@) =~= "Dependency"@);
}

proof fn lemma_suffix_sysml_PerformActionUsage()
    ensures
        after_last_colon("sysml:PerformActionUsage"@) == "PerformActionUsage"@,
{
    reveal_with_fuel(after_last_colon, 26);
    reveal_strlit("sysml:PerformActionUsage");
    reveal_strlit("PerformActionUsage");
    assert(after_last_colon("sysml:PerformActionUsage"@) =~= "PerformActionUsage"@);
}

proof fn lemma_suffix_sysml_ExhibitStateUsage()
    ensures
        after_last_colon("sysml:ExhibitStateUsage"@) == "ExhibitStateUsage"@,
{
    reveal_with_fuel(after_last_colon, 25);
    reveal_strlit("sysml:ExhibitStateUsage");
    reveal_strlit("ExhibitStateUsage");
    assert(after_last_colon("sysml:ExhibitStateUsage"@) =~= "ExhibitStateUsage"@);
}

proof fn lemma_suffix_sysml_IncludeUseCaseUsage()
    ensures
        after_last_colon("sysml:IncludeUseCaseUsage"@) == "IncludeUseCaseUsage"@,
{
    reveal_with_fuel(after_last_colon, 27);
    reveal_strlit("sysml:IncludeUseCaseUsage");
    reveal_strlit("IncludeUseCaseUsage");
    assert(after_last_colon("sysml:IncludeUseCaseUsage"@) =~= "IncludeUseCaseUsage"@);
}

proof fn lemma_suffix_sysml_AssertConstraintUsage()
    ensures
        after_last_colon("sysml:AssertConstraintUsage"@) == "AssertConstraintUsage"@,
{
    reveal_with_fuel(after_last_colon, 29);
    reveal_strlit("sysml:AssertConstraintUsage");
    reveal_strlit("AssertConstraintUsage");
    assert(after_last_colon("sysml:AssertConstraintUsage"@) =~= "AssertConstraintUsage"@);
}

#[verifier::rlimit(60)]
proof fn lemma_suffix_sysml_RequirementConstraintMembership()
    ensures
        after_last_colon("sysml:RequirementConstraintMembership"@) == "RequirementConstraintMembership"@,
{
    reveal_with_fuel(after_last_colon, 39);
    reveal_strlit("sysml:RequirementConstraintMembership");
    reveal_strlit("RequirementConstraintMembership");
    assert(after_last_colon("sysml:RequirementConstraintMembership"@) =~= "RequirementConstraintMembership"@);
}

#[verifier::rlimit(60)]
proof fn lemma_suffix_sysml_SatisfyRequirementUsage()
    ensures
        after_last_colon("sysml:SatisfyRequirementUsage"@) == "SatisfyRequirementUsage"@,
{
    reveal_with_fuel(after_last_colon, 31);
    reveal_strlit("sysml:SatisfyRequirementUsage");
    reveal_strlit("SatisfyRequirementUsage");
    assert(after_last_colon("sysml:SatisfyRequirementUsage"@) =~= "SatisfyRequirementUsage"@);
}

#[verifier::rlimit(60)]
proof fn lemma_suffix_sysml_RequirementVerificationMembership()
    ensures
        after_last_colon("sysml:RequirementVerificationMembership"@) == "RequirementVerificationMembership"@,
{
    reveal_with_fuel(after_last_colon, 41);
    reveal_strlit("sysml:RequirementVerificationMembership");
    reveal_strlit("RequirementVerificationMembership");
    assert(after_last_colon("sysml:RequirementVerificationMembership"@) =~= "RequirementVerificationMembership"@);
}

proof fn lemma_suffix_kerml_Comment()
    ensures
        after_last_colon("kerml:Comment"@) == "Comment"@,
{
    reveal_with_fuel(after_last_colon, 15);
    reveal_strlit("kerml:Comment");
    reveal_strlit("Comment");
    assert(after_last_colon("kerml:Comment"@) =~= "Comment"@);
}

proof fn lemma_suffix_sysml_Comment()
    ensures
        after_last_colon("sysml:Comment"@) == "Comment"@,
{
    reveal_with_fuel(after_last_colon, 15);
    reveal_strlit("sysml:Comment");
    reveal_strlit("Comment");
    assert(after_last_colon("sysml:Comment"@) =~= "Comment"@);
}

proof fn lemma_suffix_kerml_Documentation()
    ensures
        after_last_colon("kerml:Documentation"@) == "Documentation"@,
{
    reveal_with_fuel(after_last_colon, 21);
    reveal_strlit("kerml:Documentation");
    reveal_strlit("Documentation");
    assert(after_last_colon("kerml:Documentation"@) =~= "Documentation"@);
}

proof fn lemma_suffix_sysml_Documentation()
    ensures
        after_last_colon("sysml:Documentation"@) == "Documentation"@,
{
    reveal_with_fuel(after_last_colon, 21);
    reveal_strlit("sysml:Documentation");
    reveal_strlit("Documentation");
    assert(after_last_colon("sysml:Documentation"@) =~= "Documentation"@);
}

proof fn lemma_suffix_kerml_TextualRepresentation()
    ensures
        after_last_colon("kerml:TextualRepresentation"@) == "TextualRepresentation"@,
{
    reveal_with_fuel(after_last_colon, 29);
    reveal_strlit("kerml:TextualRepresentation");
    reveal_strlit("TextualRepresentation");
    assert(after_last_colon("kerml:TextualRepresentation"@) =~= "TextualRepresentation"@);
}

proof fn lemma_suffix_sysml_TextualRepresentation()
    ensures
        after_last_colon("sysml:TextualRepresentation"@) == "TextualRepresentation"@,
{
    reveal_with_fuel(after_last_colon, 29);
    reveal_strlit("sysml:TextualRepresentation");
    reveal_strlit("TextualRepresentation");
    assert(after_last_colon("sysml:TextualRepresentation"@) =~= "TextualRepresentation"@);
}

proof fn lemma_suffix_sysml_MetadataUsage()
    ensures
        after_last_colon("sysml:MetadataUsage"@) == "MetadataUsage"@,
{
    reveal_with_fuel(after_last_colon, 21);
    reveal_strlit("sysml:MetadataUsage");
    reveal_strlit("MetadataUsage");
    assert(after_last_colon("sysml:MetadataUsage"@) =~= "MetadataUsage"@);
}

proof fn lemma_suffix_kerml_AnnotatingElement()
    ensures
        after_last_colon("kerml:AnnotatingElement"@) == "AnnotatingElement"@,
{
    reveal_with_fuel(after_last_colon, 25);
    reveal_strlit("kerml:AnnotatingElement");
    reveal_strlit("AnnotatingElement");
    assert(after_last_colon("kerml:AnnotatingElement"@) =~= "AnnotatingElement"@);
}

proof fn lemma_suffix_sysml_AnnotatingElement()
    ensures
        after_last_colon("sysml:AnnotatingElement"@) == "AnnotatingElement"@,
{
    reveal_with_fuel(after_last_colon, 25);
    reveal_strlit("sysml:AnnotatingElement");
    reveal_strlit("AnnotatingElement");
    assert(after_last_colon("sysml:AnnotatingElement"@) =~= "AnnotatingElement"@);
}

proof fn lemma_suffix_kerml_Annotation()
    ensures
        after_last_colon("kerml:Annotation"@) == "Annotation"@,
{
    reveal_with_fuel(after_last_colon, 18);
    reveal_strlit("kerml:Annotation");
    reveal_strlit("Annotation");
    assert(after_last_colon("kerml:Annotation"@) =~= "Annotation"@);
}

proof fn lemma_suffix_sysml_Annotation()
    ensures
        after_last_colon("sysml:Annotation"@) == "Annotation"@,
{
    reveal_with_fuel(after_last_colon, 18);
    reveal_strlit("sysml:Annotation");
    reveal_strlit("Annotation");
    assert(after_last_colon("sysml:Annotation"@) =~= "Annotation"@);
}

proof fn lemma_suffix_kerml_Classifier()
    ensures
        after_last_colon("kerml:Classifier"@) == "Classifier"@,
{
    reveal_with_fuel(after_last_colon, 18);
    reveal_strlit("kerml:Classifier");
    reveal_strlit("Classifier");
    assert(after_last_colon("kerml:Classifier"@) =~= "Classifier"@);
}

proof fn lemma_suffix_sysml_Classifier()
    ensures
        after_last_colon("sysml:Classifier"@) == "Classifier"@,
{
    reveal_with_fuel(after_last_colon, 18);
    reveal_strlit("sysml:Classifier");
    reveal_strlit("Classifier");
    assert(after_last_colon("sysml:Classifier"@) =~= "Classifier"@);
}

proof fn lemma_suffix_kerml_Metaclass()
    ensures
        after_last_colon("kerml:Metaclass"@) == "Metaclass"@,
{
    reveal_with_fuel(after_last_colon, 17);
    reveal_strlit("kerml:Metaclass");
    reveal_strlit("Metaclass");
    assert(after_last_colon("kerml:Metaclass"@) =~= "Metaclass"@);
}

proof fn lemma_suffix_sysml_Metaclass()
    ensures
        after_last_colon("sysml:Metaclass"@) == "Metaclass"@,
{
    reveal_with_fuel(after_last_colon, 17);
    reveal_strlit("sysml:Metaclass");
    reveal_strlit("Metaclass");
    assert(after_last_colon("sysml:Metaclass"@) =~= "Metaclass"@);
}

proof fn lemma_suffix_kerml_Element()
    ensures
        after_last_colon("kerml:Element"@) == "Element"@,
{
    reveal_with_fuel(after_last_colon, 15);
    reveal_strlit("kerml:Element");
    reveal_strlit("Element");
    assert(after_last_colon("kerml:Element"@) =~= "Element"@);
}

proof fn lemma_suffix_sysml_Element()
    ensures
        after_last_colon("sysml:Element"@) == "Element"@,
{
    reveal_with_fuel(after_last_colon, 15);
    reveal_strlit("sysml:Element");
    reveal_strlit("Element");
    assert(after_last_colon("sysml:Element"@) =~= "Element"@);
}

proof fn lemma_type_names_0()
    ensures
        ElementKind::spec_kind_from_type_name("Namespace"@) == ElementKind::Namespace,
        ElementKind::spec_kind_from_type_name("Package"@) == ElementKind::Package,
        ElementKind::spec_kind_from_type_name("LibraryPackage"@) == ElementKind::LibraryPackage,
        ElementKind::spec_kind_from_type_name("Class"@) == ElementKind::Class,
        ElementKind::spec_kind_from_type_name("DataType"@) == ElementKind::DataType,
        ElementKind::spec_kind_from_type_name("Structure"@) == ElementKind::Structure,
{
    assert(ElementKind::spec_kind_from_type_name("Namespace"@) == ElementKind::Namespace) by {
        reveal_strlit("Namespace");
    }
    assert(ElementKind::spec_kind_from_type_name("Package"@) == ElementKind::Package) by {
        reveal_strlit("Package");
    }
    assert(ElementKind::spec_kind_from_type_name("LibraryPackage"@) == ElementKind::LibraryPackage) by {
        reveal_strlit("LibraryPackage");
    }
    assert(ElementKind::spec_kind_from_type_name("Class"@) == ElementKind::Class) by {
        reveal_strlit("Class");
    }
    assert(ElementKind::spec_kind_from_type_name("DataType"@) == ElementKind::DataType) by {
        reveal_strlit("DataType");
    }
    assert(ElementKind::spec_kind_from_type_name("Structure"@) == ElementKind::Structure) by {
        reveal_strlit("Structure");
        reveal_strlit("Namespace");
        assert("Structure"@[0] != "Namespace"@[0]);
    }
}

proof fn lemma_type_names_1()
    ensures
        ElementKind::spec_kind_from_type_name("Association"@) == ElementKind::Association,
        ElementKind::spec_kind_from_type_name("AssociationStructure"@) == ElementKind::AssociationStructure,
        ElementKind::spec_kind_from_type_name("Interaction"@) == ElementKind::Interaction,
        ElementKind::spec_kind_from_type_name("Behavior"@) == ElementKind::Behavior,
        ElementKind::spec_kind_from_type_name("Function"@) == ElementKind::Function,
        ElementKind::spec_kind_from_type_name("Predicate"@) == ElementKind::Predicate,
{
    assert(ElementKind::spec_kind_from_type_name("Association"@) == ElementKind::Association) by {
        reveal_strlit("Association");
    }
    assert(ElementKind::spec_kind_from_type_name("AssociationStructure"@) == ElementKind::AssociationStructure) by {
        reveal_strlit("AssociationStructure");
    }
    assert(ElementKind::spec_kind_from_type_name("Interaction"@) == ElementKind::Interaction) by {
        reveal_strlit("Interaction");
        reveal_strlit("Association");
        assert("Interaction"@[0] != "Association"@[0]);
    }
    assert(ElementKind::spec_kind_from_type_name("Behavior"@) == ElementKind::Behavior) by {
        reveal_strlit("Behavior");
        reveal_strlit("DataType");
        assert("Behavior"@[0] != "DataType"@[0]);
    }
    assert(ElementKind::spec_kind_from_type_name("Function"@) == ElementKind::Function) by {
        reveal_strlit("Function");
        reveal_strlit("DataType");
        assert("Function"@[0] != "DataType"@[0]);
        reveal_strlit("Behavior");
        assert("Function"@[0] != "Behavior"@[0]);
    }
    assert(ElementKind::spec_kind_from_type_name("Predicate"@) == ElementKind::Predicate) by {
        reveal_strlit("Predicate");
        reveal_strlit("Namespace");
        assert("Predicate"@[0] != "Namespace"@[0]);
        reveal_strlit("Structure");
        assert("Predicate"@[0] != "Structure"@[0]);
    }
}

proof fn lemma_type_names_2()
    ensures
        ElementKind::spec_kind_from_type_name("PartDefinition"@) == ElementKind::PartDefinition,
        ElementKind::spec_kind_from_type_name("ItemDefinition"@) == ElementKind::ItemDefinition,
        ElementKind::spec_kind_from_type_name("ActionDefinition"@) == ElementKind::ActionDefinition,
        ElementKind::spec_kind_from_type_name("PortDefinition"@) == ElementKind::PortDefinition,
        ElementKind::spec_kind_from_type_name("AttributeDefinition"@) == ElementKind::AttributeDefinition,
        ElementKind::spec_kind_from_type_name("ConnectionDefinition"@) == ElementKind::ConnectionDefinition,
{
    assert(ElementKind::spec_kind_from_type_name("PartDefinition"@) == ElementKind::PartDefinition) by {
        reveal_strlit("PartDefinition");
        reveal_strlit("LibraryPackage");
        assert("PartDefinition"@[0] != "LibraryPackage"@[0]);
    }
    assert(ElementKind::spec_kind_from_type_name("ItemDefinition"@) == ElementKind::ItemDefinition) by {
        reveal_strlit("ItemDefinition");
        reveal_strlit("LibraryPackage");
        assert("ItemDefinition"@[0] != "LibraryPackage"@[0]);
        reveal_strlit("PartDefinition");
        assert("ItemDefinition"@[0] != "PartDefinition"@[0]);
    }
    assert(ElementKind::spec_kind_from_type_name("ActionDefinition"@) == ElementKind::ActionDefinition) by {
        reveal_strlit("ActionDefinition");
    }
    assert(ElementKind::spec_kind_from_type_name("PortDefinition"@) == ElementKind::PortDefinition) by {
        reveal_strlit("PortDefinition");
        reveal_strlit("LibraryPackage");
        assert("PortDefinition"@[0] != "LibraryPackage"@[0]);
        reveal_strlit("PartDefinition");
        assert("PortDefinition"@[1] != "PartDefinition"@[1]);
        reveal_strlit("ItemDefinition");
        assert("PortDefinition"@[0] != "ItemDefinition"@[0]);
    }
    assert(ElementKind::spec_kind_from_type_name("AttributeDefinition"@) == ElementKind::AttributeDefinition) by {
        reveal_strlit("AttributeDefinition");
    }
    assert(ElementKind::spec_kind_from_type_name("ConnectionDefinition"@) == ElementKind::ConnectionDefinition) by {
        reveal_strlit("ConnectionDefinition");
        reveal_strlit("AssociationStructure");
        assert("ConnectionDefinition"@[0] != "AssociationStructure"@[0]);
    }
}

proof fn lemma_type_names_3()
    ensures
        ElementKind::spec_kind_from_type_name("InterfaceDefinition"@) == ElementKind::InterfaceDefinition,
        ElementKind::spec_kind_from_type_name("AllocationDefinition"@) == ElementKind::AllocationDefinition,
        ElementKind::spec_kind_from_type_name("RequirementDefinition"@) == ElementKind::RequirementDefinition,
        ElementKind::spec_kind_from_type_name("ConstraintDefinition"@) == ElementKind::ConstraintDefinition,
        ElementKind::spec_kind_from_type_name("StateDefinition"@) == ElementKind::StateDefinition,
        ElementKind::spec_kind_from_type_name("CalculationDefinition"@) == ElementKind::CalculationDefinition,
{
    assert(ElementKind::spec_kind_from_type_name("InterfaceDefinition"@) == ElementKind::InterfaceDefinition) by {
        reveal_strlit("InterfaceDefinition");
        reveal_strlit("AttributeDefinition");
        assert("InterfaceDefinition"@[0] != "AttributeDefinition"@[0]);
    }
    assert(ElementKind::spec_kind_from_type_name("AllocationDefinition"@) == ElementKind::AllocationDefinition) by {
        reveal_strlit("AllocationDefinition");
        reveal_strlit("AssociationStructure");
        assert("AllocationDefinition"@[1] != "AssociationStructure"@[1]);
        reveal_strlit("ConnectionDefinition");
        assert("AllocationDefinition"@[0] != "ConnectionDefinition"@[0]);
    }
    assert(ElementKind::spec_kind_from_type_name("RequirementDefinition"@) == ElementKind::RequirementDefinition) by {
        reveal_strlit("RequirementDefinition");
    }
    assert(ElementKind::spec_kind_from_type_name("ConstraintDefinition"@) == ElementKind::ConstraintDefinition) by {
        reveal_strlit("ConstraintDefinition");
        reveal_strlit("AssociationStructure");
        assert("ConstraintDefinition"@[0] != "AssociationStructure"@[0]);
        reveal_strlit("ConnectionDefinition");
        assert("ConstraintDefinition"@[3] != "ConnectionDefinition"@[3]);
        reveal_strlit("AllocationDefinition");
        assert("ConstraintDefinition"@[0] != "AllocationDefinition"@[0]);
    }
    assert(ElementKind::spec_kind_from_type_name("StateDefinition"@) == ElementKind::StateDefinition) by {
        reveal_strlit("StateDefinition");
    }
    assert(ElementKind::spec_kind_from_type_name("CalculationDefinition"@) == ElementKind::CalculationDefinition) by {
        reveal_strlit("CalculationDefinition");
        reveal_strlit("RequirementDefinition");
        assert("CalculationDefinition"@[0] != "RequirementDefinition"@[0]);
    }
}

proof fn lemma_type_names_4()
    ensures
        ElementKind::spec_kind_from_type_name("OccurrenceDefinition"@) == ElementKind::OccurrenceDefinition,
        ElementKind::spec_kind_from_type_name("UseCaseDefinition"@) == ElementKind::UseCaseDefinition,
        ElementKind::spec_kind_from_type_name("AnalysisCaseDefinition"@) == ElementKind::AnalysisCaseDefinition,
        ElementKind::spec_kind_from_type_name("VerificationCaseDefinition"@) == ElementKind::VerificationCaseDefinition,
        ElementKind::spec_kind_from_type_name("ConcernDefinition"@) == ElementKind::ConcernDefinition,
        ElementKind::spec_kind_from_type_name("ViewDefinition"@) == ElementKind::ViewDefinition,
{
    assert(ElementKind::spec_kind_from_type_name("OccurrenceDefinition"@) == ElementKind::OccurrenceDefinition) by {
        reveal_strlit("OccurrenceDefinition");
        reveal_strlit("AssociationStructure");
        assert("OccurrenceDefinition"@[0] != "AssociationStructure"@[0]);
        reveal_strlit("ConnectionDefinition");
        assert("OccurrenceDefinition"@[0] != "ConnectionDefinition"@[0]);
        reveal_strlit("AllocationDefinition");
        assert("OccurrenceDefinition"@[0] != "AllocationDefinition"@[0]);
        reveal_strlit("ConstraintDefinition");
        assert("OccurrenceDefinition"@[0] != "ConstraintDefinition"@[0]);
    }
    assert(ElementKind::spec_kind_from_type_name("UseCaseDefinition"@) == ElementKind::UseCaseDefinition) by {
        reveal_strlit("UseCaseDefinition");
    }
    assert(ElementKind::spec_kind_from_type_name("AnalysisCaseDefinition"@) == ElementKind::AnalysisCaseDefinition) by {
        reveal_strlit("AnalysisCaseDefinition");
    }
    assert(ElementKind::spec_kind_from_type_name("VerificationCaseDefinition"@) == ElementKind::VerificationCaseDefinition) by {
        reveal_strlit("VerificationCaseDefinition");
    }
    assert(ElementKind::spec_kind_from_type_name("ConcernDefinition"@) == ElementKind::ConcernDefinition) by {
        reveal_strlit("ConcernDefinition");
        reveal_strlit("UseCaseDefinition");
        assert("ConcernDefinition"@[0] != "UseCaseDefinition"@[0]);
    }
    assert(ElementKind::spec_kind_from_type_name("ViewDefinition"@) == ElementKind::ViewDefinition) by {
        reveal_strlit("ViewDefinition");
        reveal_strlit("LibraryPackage");
        assert("ViewDefinition"@[0] != "LibraryPackage"@[0]);
        reveal_strlit("PartDefinition");
        assert("ViewDefinition"@[0] != "PartDefinition"@[0]);
        reveal_strlit("ItemDefinition");
        assert("ViewDefinition"@[0] != "ItemDefinition"@[0]);
        reveal_strlit("PortDefinition");
        assert("ViewDefinition"@[0] != "PortDefinition"@[0]);
    }
}

proof fn lemma_type_names_5()
    ensures
        ElementKind::spec_kind_from_type_name("ViewpointDefinition"@) == ElementKind::ViewpointDefinition,
        ElementKind::spec_kind_from_type_name("RenderingDefinition"@) == ElementKind::RenderingDefinition,
        ElementKind::spec_kind_from_type_name("EnumerationDefinition"@) == ElementKind::EnumerationDefinition,
        ElementKind::spec_kind_from_type_name("MetadataDefinition"@) == ElementKind::MetadataDefinition,
        ElementKind::spec_kind_from_type_name("PartUsage"@) == ElementKind::PartUsage,
        ElementKind::spec_kind_from_type_name("ItemUsage"@) == ElementKind::ItemUsage,
{
    assert(ElementKind::spec_kind_from_type_name("ViewpointDefinition"@) == ElementKind::ViewpointDefinition) by {
        reveal_strlit("ViewpointDefinition");
        reveal_strlit("AttributeDefinition");
        assert("ViewpointDefinition"@[0] != "AttributeDefinition"@[0]);
        reveal_strlit("InterfaceDefinition");
        assert("ViewpointDefinition"@[0] != "InterfaceDefinition"@[0]);
    }
    assert(ElementKind::spec_kind_from_type_name("RenderingDefinition"@) == ElementKind::RenderingDefinition) by {
        reveal_strlit("RenderingDefinition");
        reveal_strlit("AttributeDefinition");
        assert("RenderingDefinition"@[0] != "AttributeDefinition"@[0]);
        reveal_strlit("InterfaceDefinition");
        assert("RenderingDefinition"@[0] != "InterfaceDefinition"@[0]);
        reveal_strlit("ViewpointDefinition");
        assert("RenderingDefinition"@[0] != "ViewpointDefinition"@[0]);
    }
    assert(ElementKind::spec_kind_from_type_name("EnumerationDefinition"@) == ElementKind::EnumerationDefinition) by {
        reveal_strlit("EnumerationDefinition");
        reveal_strlit("RequirementDefinition");
        assert("EnumerationDefinition"@[0] != "RequirementDefinition"@[0]);
        reveal_strlit("CalculationDefinition");
        assert("EnumerationDefinition"@[0] != "CalculationDefinition"@[0]);
    }
    assert(ElementKind::spec_kind_from_type_name("MetadataDefinition"@) == ElementKind::MetadataDefinition) by {
        reveal_strlit("MetadataDefinition");
    }
    assert(ElementKind::spec_kind_from_type_name("PartUsage"@) == ElementKind::PartUsage) by {
        reveal_strlit("PartUsage");
        reveal_strlit("Namespace");
        assert("PartUsage"@[0] != "Namespace"@[0]);
        reveal_strlit("Structure");
        assert("PartUsage"@[0] != "Structure"@[0]);
        reveal_strlit("Predicate");
        assert("PartUsage"@[1] != "Predicate"@[1]);
    }
    assert(ElementKind::spec_kind_from_type_name("ItemUsage"@) == ElementKind::ItemUsage) by {
        reveal_strlit("ItemUsage");
        reveal_strlit("Namespace");
        assert("ItemUsage"@[0] != "Namespace"@[0]);
        reveal_strlit("Structure");
        assert("ItemUsage"@[0] != "Structure"@[0]);
        reveal_strlit("Predicate");
        assert("ItemUsage"@[0] != "Predicate"@[0]);
        reveal_strlit("PartUsage");
        assert("ItemUsage"@[0] != "PartUsage"@[0]);
    }
}

proof fn lemma_type_names_6()
    ensures
        ElementKind::spec_kind_from_type_name("ActionUsage"@) == ElementKind::ActionUsage,
        ElementKind::spec_kind_from_type_name("PortUsage"@) == ElementKind::PortUsage,
        ElementKind::spec_kind_from_type_name("AttributeUsage"@) == ElementKind::AttributeUsage,
        ElementKind::spec_kind_from_type_name("ConnectionUsage"@) == ElementKind::ConnectionUsage,
        ElementKind::spec_kind_from_type_name("InterfaceUsage"@) == ElementKind::InterfaceUsage,
        ElementKind::spec_kind_from_type_name("AllocationUsage"@) == ElementKind::AllocationUsage,
{
    assert(ElementKind::spec_kind_from_type_name("ActionUsage"@) == ElementKind::ActionUsage) by {
        reveal_strlit("ActionUsage");
        reveal_strlit("Association");
        assert("ActionUsage"@[1] != "Association"@[1]);
        reveal_strlit("Interaction");
        assert("ActionUsage"@[0] != "Interaction"@[0]);
    }
    assert(ElementKind::spec_kind_from_type_name("PortUsage"@) == ElementKind::PortUsage) by {
        reveal_strlit("PortUsage");
        reveal_strlit("Namespace");
        assert("PortUsage"@[0] != "Namespace"@[0]);
        reveal_strlit("Structure");
        assert("PortUsage"@[0] != "Structure"@[0]);
        reveal_strlit("Predicate");
        assert("PortUsage"@[1] != "Predicate"@[1]);
        reveal_strlit("PartUsage");
        assert("PortUsage"@[1] != "PartUsage"@[1]);
        reveal_strlit("ItemUsage");
        assert("PortUsage"@[0] != "ItemUsage"@[0]);
    }
    assert(ElementKind::spec_kind_from_type_name("AttributeUsage"@) == ElementKind::AttributeUsage) by {
        reveal_strlit("AttributeUsage");
        reveal_strlit("LibraryPackage");
        assert("AttributeUsage"@[0] != "LibraryPackage"@[0]);
        reveal_strlit("PartDefinition");
        assert("AttributeUsage"@[0] != "PartDefinition"@[0]);
        reveal_strlit("ItemDefinition");
        assert("AttributeUsage"@[0] != "ItemDefinition"@[0]);
        reveal_strlit("PortDefinition");
        assert("AttributeUsage"@[0] != "PortDefinition"@[0]);
        reveal_strlit("ViewDefinition");
        assert("AttributeUsage"@[0] != "ViewDefinition"@[0]);
    }
    assert(ElementKind::spec_kind_from_type_name("ConnectionUsage"@) == ElementKind::ConnectionUsage) by {
        reveal_strlit("ConnectionUsage");
        reveal_strlit("StateDefinition");
        assert("ConnectionUsage"@[0] != "StateDefinition"@[0]);
    }
    assert(ElementKind::spec_kind_from_type_name("InterfaceUsage"@) == ElementKind::InterfaceUsage) by {
        reveal_strlit("InterfaceUsage");
        reveal_strlit("LibraryPackage");
        assert("InterfaceUsage"@[0] != "LibraryPackage"@[0]);
        reveal_strlit("PartDefinition");
        assert("InterfaceUsage"@[0] != "PartDefinition"@[0]);
        reveal_strlit("ItemDefinition");
        assert("InterfaceUsage"@[1] != "ItemDefinition"@[1]);
        reveal_strlit("PortDefinition");
        assert("InterfaceUsage"@[0] != "PortDefinition"@[0]);
        reveal_strlit("ViewDefinition");
        assert("InterfaceUsage"@[0] != "ViewDefinition"@[0]);
        reveal_strlit("AttributeUsage");
        assert("InterfaceUsage"@[0] != "AttributeUsage"@[0]);
    }
    assert(ElementKind::spec_kind_from_type_name("AllocationUsage"@) == ElementKind::AllocationUsage) by {
        reveal_strlit("AllocationUsage");
        reveal_strlit("StateDefinition");
        assert("AllocationUsage"@[0] != "StateDefinition"@[0]);
        reveal_strlit("ConnectionUsage");
        assert("AllocationUsage"@[0] != "ConnectionUsage"@[0]);
    }
}

proof fn lemma_type_names_7()
    ensures
        ElementKind::spec_kind_from_type_name("RequirementUsage"@) == ElementKind::RequirementUsage,
        ElementKind::spec_kind_from_type_name("ConstraintUsage"@) == ElementKind::ConstraintUsage,
        ElementKind::spec_kind_from_type_name("StateUsage"@) == ElementKind::StateUsage,
        ElementKind::spec_kind_from_type_name("TransitionUsage"@) == ElementKind::TransitionUsage,
        ElementKind::spec_kind_from_type_name("CalculationUsage"@) == ElementKind::CalculationUsage,
        ElementKind::spec_kind_from_type_name("ReferenceUsage"@) == ElementKind::ReferenceUsage,
{
    assert(ElementKind::spec_kind_from_type_name("RequirementUsage"@) == ElementKind::RequirementUsage) by {
        reveal_strlit("RequirementUsage");
        reveal_strlit("ActionDefinition");
        assert("RequirementUsage"@[0] != "ActionDefinition"@[0]);
    }
    assert(ElementKind::spec_kind_from_type_name("ConstraintUsage"@) == ElementKind::ConstraintUsage) by {
        reveal_strlit("ConstraintUsage");
        reveal_strlit("StateDefinition");
        assert("ConstraintUsage"@[0] != "StateDefinition"@[0]);
        reveal_strlit("ConnectionUsage");
        assert("ConstraintUsage"@[3] != "ConnectionUsage"@[3]);
        reveal_strlit("AllocationUsage");
        assert("ConstraintUsage"@[0] != "AllocationUsage"@[0]);
    }
    assert(ElementKind::spec_kind_from_type_name("StateUsage"@) == ElementKind::StateUsage) by {
        reveal_strlit("StateUsage");
    }
    assert(ElementKind::spec_kind_from_type_name("TransitionUsage"@) == ElementKind::TransitionUsage) by {
        reveal_strlit("TransitionUsage");
        reveal_strlit("StateDefinition");
        assert("TransitionUsage"@[0] != "StateDefinition"@[0]);
        reveal_strlit("ConnectionUsage");
        assert("TransitionUsage"@[0] != "ConnectionUsage"@[0]);
        reveal_strlit("AllocationUsage");
        assert("TransitionUsage"@[0] != "AllocationUsage"@[0]);
        reveal_strlit("ConstraintUsage");
        assert("TransitionUsage"@[0] != "ConstraintUsage"@[0]);
    }
    assert(ElementKind::spec_kind_from_type_name("CalculationUsage"@) == ElementKind::CalculationUsage) by {
        reveal_strlit("CalculationUsage");
        reveal_strlit("ActionDefinition");
        assert("CalculationUsage"@[0] != "ActionDefinition"@[0]);
        reveal_strlit("RequirementUsage");
        assert("CalculationUsage"@[0] != "RequirementUsage"@[0]);
    }
    assert(ElementKind::spec_kind_from_type_name("ReferenceUsage"@) == ElementKind::ReferenceUsage) by {
        reveal_strlit("ReferenceUsage");
        reveal_strlit("LibraryPackage");
        assert("ReferenceUsage"@[0] != "LibraryPackage"@[0]);
        reveal_strlit("PartDefinition");
        assert("ReferenceUsage"@[0] != "PartDefinition"@[0]);
        reveal_strlit("ItemDefinition");
        assert("ReferenceUsage"@[0] != "ItemDefinition"@[0]);
        reveal_strlit("PortDefinition");
        assert("ReferenceUsage"@[0] != "PortDefinition"@[0]);
        reveal_strlit("ViewDefinition");
        assert("ReferenceUsage"@[0] != "ViewDefinition"@[0]);
        reveal_strlit("AttributeUsage");
        assert("ReferenceUsage"@[0] != "AttributeUsage"@[0]);
        reveal_strlit("InterfaceUsage");
        assert("ReferenceUsage"@[0] != "InterfaceUsage"@[0]);
    }
}

proof fn lemma_type_names_8()
    ensures
        ElementKind::spec_kind_from_type_name("OccurrenceUsage"@) == ElementKind::OccurrenceUsage,
        ElementKind::spec_kind_from_type_name("UseCaseUsage"@) == ElementKind::UseCaseUsage,
        ElementKind::spec_kind_from_type_name("AnalysisCaseUsage"@) == ElementKind::AnalysisCaseUsage,
        ElementKind::spec_kind_from_type_name("VerificationCaseUsage"@) == ElementKind::VerificationCaseUsage,
        ElementKind::spec_kind_from_type_name("FlowConnectionUsage"@) == ElementKind::FlowConnectionUsage,
        ElementKind::spec_kind_from_type_name("SuccessionFlowConnectionUsage"@) == ElementKind::SuccessionFlowConnectionUsage,
{
    assert(ElementKind::spec_kind_from_type_name("OccurrenceUsage"@) == ElementKind::OccurrenceUsage) by {
        reveal_strlit("OccurrenceUsage");
        reveal_strlit("StateDefinition");
        assert("OccurrenceUsage"@[0] != "StateDefinition"@[0]);
        reveal_strlit("ConnectionUsage");
        assert("OccurrenceUsage"@[0] != "ConnectionUsage"@[0]);
        reveal_strlit("AllocationUsage");
        assert("OccurrenceUsage"@[0] != "AllocationUsage"@[0]);
        reveal_strlit("ConstraintUsage");
        assert("OccurrenceUsage"@[0] != "ConstraintUsage"@[0]);
        reveal_strlit("TransitionUsage");
        assert("OccurrenceUsage"@[0] != "TransitionUsage"@[0]);
    }
    assert(ElementKind::spec_kind_from_type_name("UseCaseUsage"@) == ElementKind::UseCaseUsage) by {
        reveal_strlit("UseCaseUsage");
    }
    assert(ElementKind::spec_kind_from_type_name("AnalysisCaseUsage"@) == ElementKind::AnalysisCaseUsage) by {
        reveal_strlit("AnalysisCaseUsage");
        reveal_strlit("UseCaseDefinition");
        assert("AnalysisCaseUsage"@[0] != "UseCaseDefinition"@[0]);
        reveal_strlit("ConcernDefinition");
        assert("AnalysisCaseUsage"@[0] != "ConcernDefinition"@[0]);
    }
    assert(ElementKind::spec_kind_from_type_name("VerificationCaseUsage"@) == ElementKind::VerificationCaseUsage) by {
        reveal_strlit("VerificationCaseUsage");
        reveal_strlit("RequirementDefinition");
        assert("VerificationCaseUsage"@[0] != "RequirementDefinition"@[0]);
        reveal_strlit("CalculationDefinition");
        assert("VerificationCaseUsage"@[0] != "CalculationDefinition"@[0]);
        reveal_strlit("EnumerationDefinition");
        assert("VerificationCaseUsage"@[0] != "EnumerationDefinition"@[0]);
    }
    assert(ElementKind::spec_kind_from_type_name("FlowConnectionUsage"@) == ElementKind::FlowConnectionUsage) by {
        reveal_strlit("FlowConnectionUsage");
        reveal_strlit("AttributeDefinition");
        assert("FlowConnectionUsage"@[0] != "AttributeDefinition"@[0]);
        reveal_strlit("InterfaceDefinition");
        assert("FlowConnectionUsage"@[0] != "InterfaceDefinition"@[0]);
        reveal_strlit("ViewpointDefinition");
        assert("FlowConnectionUsage"@[0] != "ViewpointDefinition"@[0]);
        reveal_strlit("RenderingDefinition");
        assert("FlowConnectionUsage"@[0] != "RenderingDefinition"@[0]);
    }
    assert(ElementKind::spec_kind_from_type_name("SuccessionFlowConnectionUsage"@) == ElementKind::SuccessionFlowConnectionUsage) by {
        reveal_strlit("SuccessionFlowConnectionUsage");
    }
}

proof fn lemma_type_names_9()
    ensures
        ElementKind::spec_kind_from_type_name("Feature"@) == ElementKind::Feature,
        ElementKind::spec_kind_from_type_name("Step"@) == ElementKind::Step,
        ElementKind::spec_kind_from_type_name("Expression"@) == ElementKind::Expression,
        ElementKind::spec_kind_from_type_name("BooleanExpression"@) == ElementKind::BooleanExpression,
        ElementKind::spec_kind_from_type_name("Invariant"@) == ElementKind::Invariant,
        ElementKind::spec_kind_from_type_name("Connector"@) == ElementKind::Connector,
{
    assert(ElementKind::spec_kind_from_type_name("Feature"@) == ElementKind::Feature) by {
        reveal_strlit("Feature");
        reveal_strlit("Package");
        assert("Feature"@[0] != "Package"@[0]);
    }
    assert(ElementKind::spec_kind_from_type_name("Step"@) == ElementKind::Step) by {
        reveal_strlit("Step");
    }
    assert(ElementKind::spec_kind_from_type_name("Expression"@) == ElementKind::Expression) by {
        reveal_strlit("Expression");
        reveal_strlit("StateUsage");
        assert("Expression"@[0] != "StateUsage"@[0]);
    }
    assert(ElementKind::spec_kind_from_type_name("BooleanExpression"@) == ElementKind::BooleanExpression) by {
        reveal_strlit("BooleanExpression");
        reveal_strlit("UseCaseDefinition");
        assert("BooleanExpression"@[0] != "UseCaseDefinition"@[0]);
        reveal_strlit("ConcernDefinition");
        assert("BooleanExpression"@[0] != "ConcernDefinition"@[0]);
        reveal_strlit("AnalysisCaseUsage");
        assert("BooleanExpression"@[0] != "AnalysisCaseUsage"@[0]);
    }
    assert(ElementKind::spec_kind_from_type_name("Invariant"@) == ElementKind::Invariant) by {
        reveal_strlit("Invariant");
        reveal_strlit("Namespace");
        assert("Invariant"@[0] != "Namespace"@[0]);
        reveal_strlit("Structure");
        assert("Invariant"@[0] != "Structure"@[0]);
        reveal_strlit("Predicate");
        assert("Invariant"@[0] != "Predicate"@[0]);
        reveal_strlit("PartUsage");
        assert("Invariant"@[0] != "PartUsage"@[0]);
        reveal_strlit("ItemUsage");
        assert("Invariant"@[1] != "ItemUsage"@[1]);
        reveal_strlit("PortUsage");
        assert("Invariant"@[0] != "PortUsage"@[0]);
    }
    assert(ElementKind::spec_kind_from_type_name("Connector"@) == ElementKind::Connector) by {
        reveal_strlit("Connector");
        reveal_strlit("Namespace");
        assert("Connector"@[0] != "Namespace"@[0]);
        reveal_strlit("Structure");
        assert("Connector"@[0] != "Structure"@[0]);
        reveal_strlit("Predicate");
        assert("Connector"@[0] != "Predicate"@[0]);
        reveal_strlit("PartUsage");
        assert("Connector"@[0] != "PartUsage"@[0]);
        reveal_strlit("ItemUsage");
        assert("Connector"@[0] != "ItemUsage"@[0]);
        reveal_strlit("PortUsage");
        assert("Connector"@[0] != "PortUsage"@[0]);
        reveal_strlit("Invariant");
        assert("Connector"@[0] != "Invariant"@[0]);
    }
}

proof fn lemma_type_names_10()
    ensures
        ElementKind::spec_kind_from_type_name("BindingConnector"@) == ElementKind::BindingConnector,
        ElementKind::spec_kind_from_type_name("Succession"@) == ElementKind::Succession,
        ElementKind::spec_kind_from_type_name("Flow"@) == ElementKind::Flow,
        ElementKind::spec_kind_from_type_name("MultiplicityRange"@) == ElementKind::MultiplicityRange,
        ElementKind::spec_kind_from_type_name("LiteralInteger"@) == ElementKind::LiteralInteger,
        ElementKind::spec_kind_from_type_name("LiteralRational"@) == ElementKind::LiteralReal,
{
    assert(ElementKind::spec_kind_from_type_name("BindingConnector"@) == ElementKind::BindingConnector) by {
        reveal_strlit("BindingConnector");
        reveal_strlit("ActionDefinition");
        assert("BindingConnector"@[0] != "ActionDefinition"@[0]);
        reveal_strlit("RequirementUsage");
        assert("BindingConnector"@[0] != "RequirementUsage"@[0]);
        reveal_strlit("CalculationUsage");
        assert("BindingConnector"@[0] != "CalculationUsage"@[0]);
    }
    assert(ElementKind::spec_kind_from_type_name("Succession"@) == ElementKind::Succession) by {
        reveal_strlit("Succession");
        reveal_strlit("StateUsage");
        assert("Succession"@[1] != "StateUsage"@[1]);
        reveal_strlit("Expression");
        assert("Succession"@[0] != "Expression"@[0]);
    }
    assert(ElementKind::spec_kind_from_type_name("Flow"@) == ElementKind::Flow) by {
        reveal_strlit("Flow");
        reveal_strlit("Step");
        assert("Flow"@[0] != "Step"@[0]);
    }
    assert(ElementKind::spec_kind_from_type_name("MultiplicityRange"@) == ElementKind::MultiplicityRange) by {
        reveal_strlit("MultiplicityRange");
        reveal_strlit("UseCaseDefinition");
        assert("MultiplicityRange"@[0] != "UseCaseDefinition"@[0]);
        reveal_strlit("ConcernDefinition");
        assert("MultiplicityRange"@[0] != "ConcernDefinition"@[0]);
        reveal_strlit("AnalysisCaseUsage");
        assert("MultiplicityRange"@[0] != "AnalysisCaseUsage"@[0]);
        reveal_strlit("BooleanExpression");
        assert("MultiplicityRange"@[0] != "BooleanExpression"@[0]);
    }
    assert(ElementKind::spec_kind_from_type_name("LiteralInteger"@) == ElementKind::LiteralInteger) by {
        reveal_strlit("LiteralInteger");
        reveal_strlit("LibraryPackage");
        assert("LiteralInteger"@[2] != "LibraryPackage"@[2]);
        reveal_strlit("PartDefinition");
        assert("LiteralInteger"@[0] != "PartDefinition"@[0]);
        reveal_strlit("ItemDefinition");
        assert("LiteralInteger"@[0] != "ItemDefinition"@[0]);
        reveal_strlit("PortDefinition");
        assert("LiteralInteger"@[0] != "PortDefinition"@[0]);
        reveal_strlit("ViewDefinition");
        assert("LiteralInteger"@[0] != "ViewDefinition"@[0]);
        reveal_strlit("AttributeUsage");
        assert("LiteralInteger"@[0] != "AttributeUsage"@[0]);
        reveal_strlit("InterfaceUsage");
        assert("LiteralInteger"@[0] != "InterfaceUsage"@[0]);
        reveal_strlit("ReferenceUsage");
        assert("LiteralInteger"@[0] != "ReferenceUsage"@[0]);
    }
    assert(ElementKind::spec_kind_from_type_name("LiteralRational"@) == ElementKind::LiteralReal) by {
        reveal_strlit("LiteralRational");
        reveal_strlit("StateDefinition");
        assert("LiteralRational"@[0] != "StateDefinition"@[0]);
        reveal_strlit("ConnectionUsage");
        assert("LiteralRational"@[0] != "ConnectionUsage"@[0]);
        reveal_strlit("AllocationUsage");
        assert("LiteralRational"@[0] != "AllocationUsage"@[0]);
        reveal_strlit("ConstraintUsage");
        assert("LiteralRational"@[0] != "ConstraintUsage"@[0]);
        reveal_strlit("TransitionUsage");
        assert("LiteralRational"@[0] != "TransitionUsage"@[0]);
        reveal_strlit("OccurrenceUsage");
        assert("LiteralRational"@[0] != "OccurrenceUsage"@[0]);
    }
}

proof fn lemma_type_names_11()
    ensures
        ElementKind::spec_kind_from_type_name("LiteralInfinity"@) == ElementKind::LiteralInfinity,
        ElementKind::spec_kind_from_type_name("LiteralBoolean"@) == ElementKind::LiteralBoolean,
        ElementKind::spec_kind_from_type_name("LiteralString"@) == ElementKind::LiteralString,
        ElementKind::spec_kind_from_type_name("NullExpression"@) == ElementKind::NullExpression,
        ElementKind::spec_kind_from_type_name("FeatureReferenceExpression"@) == ElementKind::FeatureReferenceExpression,
        ElementKind::spec_kind_from_type_name("OperatorExpression"@) == ElementKind::OperatorExpression,
{
    assert(ElementKind::spec_kind_from_type_name("LiteralInfinity"@) == ElementKind::LiteralInfinity) by {
        reveal_strlit("LiteralInfinity");
        reveal_strlit("StateDefinition");
        assert("LiteralInfinity"@[0] != "StateDefinition"@[0]);
        reveal_strlit("ConnectionUsage");
        assert("LiteralInfinity"@[0] != "ConnectionUsage"@[0]);
        reveal_strlit("AllocationUsage");
        assert("LiteralInfinity"@[0] != "AllocationUsage"@[0]);
        reveal_strlit("ConstraintUsage");
        assert("LiteralInfinity"@[0] != "ConstraintUsage"@[0]);
        reveal_strlit("TransitionUsage");
        assert("LiteralInfinity"@[0] != "TransitionUsage"@[0]);
        reveal_strlit("OccurrenceUsage");
        assert("LiteralInfinity"@[0] != "OccurrenceUsage"@[0]);
        reveal_strlit("LiteralRational");
        assert("LiteralInfinity"@[7] != "LiteralRational"@[7]);
    }
    assert(ElementKind::spec_kind_from_type_name("LiteralBoolean"@) == ElementKind::LiteralBoolean) by {
        reveal_strlit("LiteralBoolean");
        reveal_strlit("LibraryPackage");
        assert("LiteralBoolean"@[2] != "LibraryPackage"@[2]);
        reveal_strlit("PartDefinition");
        assert("LiteralBoolean"@[0] != "PartDefinition"@[0]);
        reveal_strlit("ItemDefinition");
        assert("LiteralBoolean"@[0] != "ItemDefinition"@[0]);
        reveal_strlit("PortDefinition");
        assert("LiteralBoolean"@[0] != "PortDefinition"@[0]);
        reveal_strlit("ViewDefinition");
        assert("LiteralBoolean"@[0] != "ViewDefinition"@[0]);
        reveal_strlit("AttributeUsage");
        assert("LiteralBoolean"@[0] != "AttributeUsage"@[0]);
        reveal_strlit("InterfaceUsage");
        assert("LiteralBoolean"@[0] != "InterfaceUsage"@[0]);
        reveal_strlit("ReferenceUsage");
        assert("LiteralBoolean"@[0] != "ReferenceUsage"@[0]);
        reveal_strlit("LiteralInteger");
        assert("LiteralBoolean"@[7] != "LiteralInteger"@[7]);
    }
    assert(ElementKind::spec_kind_from_type_name("LiteralString"@) == ElementKind::LiteralString) by {
        reveal_strlit("LiteralString");
    }
    assert(ElementKind::spec_kind_from_type_name("NullExpression"@) == ElementKind::NullExpression) by {
        reveal_strlit("NullExpression");
        reveal_strlit("LibraryPackage");
        assert("NullExpression"@[0] != "LibraryPackage"@[0]);
        reveal_strlit("PartDefinition");
        assert("NullExpression"@[0] != "PartDefinition"@[0]);
        reveal_strlit("ItemDefinition");
        assert("NullExpression"@[0] != "ItemDefinition"@[0]);
        reveal_strlit("PortDefinition");
        assert("NullExpression"@[0] != "PortDefinition"@[0]);
        reveal_strlit("ViewDefinition");
        assert("NullExpression"@[0] != "ViewDefinition"@[0]);
        reveal_strlit("AttributeUsage");
        assert("NullExpression"@[0] != "AttributeUsage"@[0]);
        reveal_strlit("InterfaceUsage");
        assert("NullExpression"@[0] != "InterfaceUsage"@[0]);
        reveal_strlit("ReferenceUsage");
        assert("NullExpression"@[0] != "ReferenceUsage"@[0]);
        reveal_strlit("LiteralInteger");
        assert("NullExpression"@[0] != "LiteralInteger"@[0]);
        reveal_strlit("LiteralBoolean");
        assert("NullExpression"@[0] != "LiteralBoolean"@[0]);
    }
    assert(ElementKind::spec_kind_from_type_name("FeatureReferenceExpression"@) == ElementKind::FeatureReferenceExpression) by {
        reveal_strlit("FeatureReferenceExpression");
        reveal_strlit("VerificationCaseDefinition");
        assert("FeatureReferenceExpression"@[0] != "VerificationCaseDefinition"@[0]);
    }
    assert(ElementKind::spec_kind_from_type_name("OperatorExpression"@) == ElementKind::OperatorExpression) by {
        reveal_strlit("OperatorExpression");
        reveal_strlit("MetadataDefinition");
        assert("OperatorExpression"@[0] != "MetadataDefinition"@[0]);
    }
}

proof fn lemma_type_names_12()
    ensures
        ElementKind::spec_kind_from_type_name("InvocationExpression"@) == ElementKind::InvocationExpression,
        ElementKind::spec_kind_from_type_name("FeatureChainExpression"@) == ElementKind::FeatureChainExpression,
        ElementKind::spec_kind_from_type_name("ConstructorExpression"@) == ElementKind::ConstructorExpression,
        ElementKind::spec_kind_from_type_name("Membership"@) == ElementKind::Membership,
        ElementKind::spec_kind_from_type_name("OwningMembership"@) == ElementKind::OwningMembership,
        ElementKind::spec_kind_from_type_name("FeatureMembership"@) == ElementKind::FeatureMembership,
{
    assert(ElementKind::spec_kind_from_type_name("InvocationExpression"@) == ElementKind::InvocationExpression) by {
        reveal_strlit("InvocationExpression");
        reveal_strlit("AssociationStructure");
        assert("InvocationExpression"@[0] != "AssociationStructure"@[0]);
        reveal_strlit("ConnectionDefinition");
        assert("InvocationExpression"@[0] != "ConnectionDefinition"@[0]);
        reveal_strlit("AllocationDefinition");
        assert("InvocationExpression"@[0] != "AllocationDefinition"@[0]);
        reveal_strlit("ConstraintDefinition");
        assert("InvocationExpression"@[0] != "ConstraintDefinition"@[0]);
        reveal_strlit("OccurrenceDefinition");
        assert("InvocationExpression"@[0] != "OccurrenceDefinition"@[0]);
    }
    assert(ElementKind::spec_kind_from_type_name("FeatureChainExpression"@) == ElementKind::FeatureChainExpression) by {
        reveal_strlit("FeatureChainExpression");
        reveal_strlit("AnalysisCaseDefinition");
        assert("FeatureChainExpression"@[0] != "AnalysisCaseDefinition"@[0]);
    }
    assert(ElementKind::spec_kind_from_type_name("ConstructorExpression"@) == ElementKind::ConstructorExpression) by {
        reveal_strlit("ConstructorExpression");
        reveal_strlit("RequirementDefinition");
        assert("ConstructorExpression"@[0] != "RequirementDefinition"@[0]);
        reveal_strlit("CalculationDefinition");
        assert("ConstructorExpression"@[1] != "CalculationDefinition"@[1]);
        reveal_strlit("EnumerationDefinition");
        assert("ConstructorExpression"@[0] != "EnumerationDefinition"@[0]);
        reveal_strlit("VerificationCaseUsage");
        assert("ConstructorExpression"@[0] != "VerificationCaseUsage"@[0]);
    }
    assert(ElementKind::spec_kind_from_type_name("Membership"@) == ElementKind::Membership) by {
        reveal_strlit("Membership");
        reveal_strlit("StateUsage");
        assert("Membership"@[0] != "StateUsage"@[0]);
        reveal_strlit("Expression");
        assert("Membership"@[0] != "Expression"@[0]);
        reveal_strlit("Succession");
        assert("Membership"@[0] != "Succession"@[0]);
    }
    assert(ElementKind::spec_kind_from_type_name("OwningMembership"@) == ElementKind::OwningMembership) by {
        reveal_strlit("OwningMembership");
        reveal_strlit("ActionDefinition");
        assert("OwningMembership"@[0] != "ActionDefinition"@[0]);
        reveal_strlit("RequirementUsage");
        assert("OwningMembership"@[0] != "RequirementUsage"@[0]);
        reveal_strlit("CalculationUsage");
        assert("OwningMembership"@[0] != "CalculationUsage"@[0]);
        reveal_strlit("BindingConnector");
        assert("OwningMembership"@[0] != "BindingConnector"@[0]);
    }
    assert(ElementKind::spec_kind_from_type_name("FeatureMembership"@) == ElementKind::FeatureMembership) by {
        reveal_strlit("FeatureMembership");
        reveal_strlit("UseCaseDefinition");
        assert("FeatureMembership"@[0] != "UseCaseDefinition"@[0]);
        reveal_strlit("ConcernDefinition");
        assert("FeatureMembership"@[0] != "ConcernDefinition"@[0]);
        reveal_strlit("AnalysisCaseUsage");
        assert("FeatureMembership"@[0] != "AnalysisCaseUsage"@[0]);
        reveal_strlit("BooleanExpression");
        assert("FeatureMembership"@[0] != "BooleanExpression"@[0]);
        reveal_strlit("MultiplicityRange");
        assert("FeatureMembership"@[0] != "MultiplicityRange"@[0]);
    }
}

proof fn lemma_type_names_13()
    ensures
        ElementKind::spec_kind_from_type_name("ReturnParameterMembership"@) == ElementKind::ReturnParameterMembership,
        ElementKind::spec_kind_from_type_name("ParameterMembership"@) == ElementKind::ParameterMembership,
        ElementKind::spec_kind_from_type_name("EndFeatureMembership"@) == ElementKind::EndFeatureMembership,
        ElementKind::spec_kind_from_type_name("ResultExpressionMembership"@) == ElementKind::ResultExpressionMembership,
        ElementKind::spec_kind_from_type_name("Import"@) == ElementKind::Import,
        ElementKind::spec_kind_from_type_name("NamespaceImport"@) == ElementKind::NamespaceImport,
{
    assert(ElementKind::spec_kind_from_type_name("ReturnParameterMembership"@) == ElementKind::ReturnParameterMembership) by {
        reveal_strlit("ReturnParameterMembership");
    }
    assert(ElementKind::spec_kind_from_type_name("ParameterMembership"@) == ElementKind::ParameterMembership) by {
        reveal_strlit("ParameterMembership");
        reveal_strlit("AttributeDefinition");
        assert("ParameterMembership"@[0] != "AttributeDefinition"@[0]);
        reveal_strlit("InterfaceDefinition");
        assert("ParameterMembership"@[0] != "InterfaceDefinition"@[0]);
        reveal_strlit("ViewpointDefinition");
        assert("ParameterMembership"@[0] != "ViewpointDefinition"@[0]);
        reveal_strlit("RenderingDefinition");
        assert("ParameterMembership"@[0] != "RenderingDefinition"@[0]);
        reveal_strlit("FlowConnectionUsage");
        assert("ParameterMembership"@[0] != "FlowConnectionUsage"@[0]);
    }
    assert(ElementKind::spec_kind_from_type_name("EndFeatureMembership"@) == ElementKind::EndFeatureMembership) by {
        reveal_strlit("EndFeatureMembership");
        reveal_strlit("AssociationStructure");
        assert("EndFeatureMembership"@[0] != "AssociationStructure"@[0]);
        reveal_strlit("ConnectionDefinition");
        assert("EndFeatureMembership"@[0] != "ConnectionDefinition"@[0]);
        reveal_strlit("AllocationDefinition");
        assert("EndFeatureMembership"@[0] != "AllocationDefinition"@[0]);
        reveal_strlit("ConstraintDefinition");
        assert("EndFeatureMembership"@[0] != "ConstraintDefinition"@[0]);
        reveal_strlit("OccurrenceDefinition");
        assert("EndFeatureMembership"@[0] != "OccurrenceDefinition"@[0]);
        reveal_strlit("InvocationExpression");
        assert("EndFeatureMembership"@[0] != "InvocationExpression"@[0]);
    }
    assert(ElementKind::spec_kind_from_type_name("ResultExpressionMembership"@) == ElementKind::ResultExpressionMembership) by {
        reveal_strlit("ResultExpressionMembership");
        reveal_strlit("VerificationCaseDefinition");
        assert("ResultExpressionMembership"@[0] != "VerificationCaseDefinition"@[0]);
        reveal_strlit("FeatureReferenceExpression");
        assert("ResultExpressionMembership"@[0] != "FeatureReferenceExpression"@[0]);
    }
    assert(ElementKind::spec_kind_from_type_name("Import"@) == ElementKind::Import) by {
        reveal_strlit("Import");
    }
    assert(ElementKind::spec_kind_from_type_name("NamespaceImport"@) == ElementKind::NamespaceImport) by {
        reveal_strlit("NamespaceImport");
        reveal_strlit("StateDefinition");
        assert("NamespaceImport"@[0] != "StateDefinition"@[0]);
        reveal_strlit("ConnectionUsage");
        assert("NamespaceImport"@[0] != "ConnectionUsage"@[0]);
        reveal_strlit("AllocationUsage");
        assert("NamespaceImport"@[0] != "AllocationUsage"@[0]);
        reveal_strlit("ConstraintUsage");
        assert("NamespaceImport"@[0] != "ConstraintUsage"@[0]);
        reveal_strlit("TransitionUsage");
        assert("NamespaceImport"@[0] != "TransitionUsage"@[0]);
        reveal_strlit("OccurrenceUsage");
        assert("NamespaceImport"@[0] != "OccurrenceUsage"@[0]);
        reveal_strlit("LiteralRational");
        assert("NamespaceImport"@[0] != "LiteralRational"@[0]);
        reveal_strlit("LiteralInfinity");
        assert("NamespaceImport"@[0] != "LiteralInfinity"@[0]);
    }
}

proof fn lemma_type_names_14()
    ensures
        ElementKind::spec_kind_from_type_name("MembershipImport"@) == ElementKind::MembershipImport,
        ElementKind::spec_kind_from_type_name("Specialization"@) == ElementKind::Specialization,
        ElementKind::spec_kind_from_type_name("Subclassification"@) == ElementKind::Specialization,
        ElementKind::spec_kind_from_type_name("FeatureTyping"@) == ElementKind::FeatureTyping,
        ElementKind::spec_kind_from_type_name("Subsetting"@) == ElementKind::Subsetting,
        ElementKind::spec_kind_from_type_name("ReferenceSubsetting"@) == ElementKind::ReferenceSubsetting,
{
    assert(ElementKind::spec_kind_from_type_name("MembershipImport"@) == ElementKind::MembershipImport) by {
        reveal_strlit("MembershipImport");
        reveal_strlit("ActionDefinition");
        assert("MembershipImport"@[0] != "ActionDefinition"@[0]);
        reveal_strlit("RequirementUsage");
        assert("MembershipImport"@[0] != "RequirementUsage"@[0]);
        reveal_strlit("CalculationUsage");
        assert("MembershipImport"@[0] != "CalculationUsage"@[0]);
        reveal_strlit("BindingConnector");
        assert("MembershipImport"@[0] != "BindingConnector"@[0]);
        reveal_strlit("OwningMembership");
        assert("MembershipImport"@[0] != "OwningMembership"@[0]);
    }
    assert(ElementKind::spec_kind_from_type_name("Specialization"@) == ElementKind::Specialization) by {
        reveal_strlit("Specialization");
        reveal_strlit("LibraryPackage");
        assert("Specialization"@[0] != "LibraryPackage"@[0]);
        reveal_strlit("PartDefinition");
        assert("Specialization"@[0] != "PartDefinition"@[0]);
        reveal_strlit("ItemDefinition");
        assert("Specialization"@[0] != "ItemDefinition"@[0]);
        reveal_strlit("PortDefinition");
        assert("Specialization"@[0] != "PortDefinition"@[0]);
        reveal_strlit("ViewDefinition");
        assert("Specialization"@[0] != "ViewDefinition"@[0]);
        reveal_strlit("AttributeUsage");
        assert("Specialization"@[0] != "AttributeUsage"@[0]);
        reveal_strlit("InterfaceUsage");
        assert("Specialization"@[0] != "InterfaceUsage"@[0]);
        reveal_strlit("ReferenceUsage");
        assert("Specialization"@[0] != "ReferenceUsage"@[0]);
        reveal_strlit("LiteralInteger");
        assert("Specialization"@[0] != "LiteralInteger"@[0]);
        reveal_strlit("LiteralBoolean");
        assert("Specialization"@[0] != "LiteralBoolean"@[0]);
        reveal_strlit("NullExpression");
        assert("Specialization"@[0] != "NullExpression"@[0]);
    }
    assert(ElementKind::spec_kind_from_type_name("Subclassification"@) == ElementKind::Specialization) by {
        reveal_strlit("Subclassification");
        reveal_strlit("UseCaseDefinition");
        assert("Subclassification"@[0] != "UseCaseDefinition"@[0]);
        reveal_strlit("ConcernDefinition");
        assert("Subclassification"@[0] != "ConcernDefinition"@[0]);
        reveal_strlit("AnalysisCaseUsage");
        assert("Subclassification"@[0] != "AnalysisCaseUsage"@[0]);
        reveal_strlit("BooleanExpression");
        assert("Subclassification"@[0] != "BooleanExpression"@[0]);
        reveal_strlit("MultiplicityRange");
        assert("Subclassification"@[0] != "MultiplicityRange"@[0]);
        reveal_strlit("FeatureMembership");
        assert("Subclassification"@[0] != "FeatureMembership"@[0]);
    }
    assert(ElementKind::spec_kind_from_type_name("FeatureTyping"@) == ElementKind::FeatureTyping) by {
        reveal_strlit("FeatureTyping");
        reveal_strlit("LiteralString");
        assert("FeatureTyping"@[0] != "LiteralString"@[0]);
    }
    assert(ElementKind::spec_kind_from_type_name("Subsetting"@) == ElementKind::Subsetting) by {
        reveal_strlit("Subsetting");
        reveal_strlit("StateUsage");
        assert("Subsetting"@[1] != "StateUsage"@[1]);
        reveal_strlit("Expression");
        assert("Subsetting"@[0] != "Expression"@[0]);
        reveal_strlit("Succession");
        assert("Subsetting"@[2] != "Succession"@[2]);
        reveal_strlit("Membership");
        assert("Subsetting"@[0] != "Membership"@[0]);
    }
    assert(ElementKind::spec_kind_from_type_name("ReferenceSubsetting"@) == ElementKind::ReferenceSubsetting) by {
        reveal_strlit("ReferenceSubsetting");
        reveal_strlit("AttributeDefinition");
        assert("ReferenceSubsetting"@[0] != "AttributeDefinition"@[0]);
        reveal_strlit("InterfaceDefinition");
        assert("ReferenceSubsetting"@[0] != "InterfaceDefinition"@[0]);
        reveal_strlit("ViewpointDefinition");
        assert("ReferenceSubsetting"@[0] != "ViewpointDefinition"@[0]);
        reveal_strlit("RenderingDefinition");
        assert("ReferenceSubsetting"@[2] != "RenderingDefinition"@[2]);
        reveal_strlit("FlowConnectionUsage");
        assert("ReferenceSubsetting"@[0] != "FlowConnectionUsage"@[0]);
        reveal_strlit("ParameterMembership");
        assert("ReferenceSubsetting"@[0] != "ParameterMembership"@[0]);
    }
}

proof fn lemma_type_names_15()
    ensures
        ElementKind::spec_kind_from_type_name("CrossSubsetting"@) == ElementKind::CrossSubsetting,
        ElementKind::spec_kind_from_type_name("Redefinition"@) == ElementKind::Redefinition,
        ElementKind::spec_kind_from_type_name("Conjugation"@) == ElementKind::Conjugation,
        ElementKind::spec_kind_from_type_name("FeatureValue"@) == ElementKind::FeatureValue,
        ElementKind::spec_kind_from_type_name("FeatureChaining"@) == ElementKind::FeatureChaining,
        ElementKind::spec_kind_from_type_name("FeatureInverting"@) == ElementKind::FeatureInverting,
{
    assert(ElementKind::spec_kind_from_type_name("CrossSubsetting"@) == ElementKind::CrossSubsetting) by {
        reveal_strlit("CrossSubsetting");
        reveal_strlit("StateDefinition");
        assert("CrossSubsetting"@[0] != "StateDefinition"@[0]);
        reveal_strlit("ConnectionUsage");
        assert("CrossSubsetting"@[1] != "ConnectionUsage"@[1]);
        reveal_strlit("AllocationUsage");
        assert("CrossSubsetting"@[0] != "AllocationUsage"@[0]);
        reveal_strlit("ConstraintUsage");
        assert("CrossSubsetting"@[1] != "ConstraintUsage"@[1]);
        reveal_strlit("TransitionUsage");
        assert("CrossSubsetting"@[0] != "TransitionUsage"@[0]);
        reveal_strlit("OccurrenceUsage");
        assert("CrossSubsetting"@[0] != "OccurrenceUsage"@[0]);
        reveal_strlit("LiteralRational");
        assert("CrossSubsetting"@[0] != "LiteralRational"@[0]);
        reveal_strlit("LiteralInfinity");
        assert("CrossSubsetting"@[0] != "LiteralInfinity"@[0]);
        reveal_strlit("NamespaceImport");
        assert("CrossSubsetting"@[0] != "NamespaceImport"@[0]);
    }
    assert(ElementKind::spec_kind_from_type_name("Redefinition"@) == ElementKind::Redefinition) by {
        reveal_strlit("Redefinition");
        reveal_strlit("UseCaseUsage");
        assert("Redefinition"@[0] != "UseCaseUsage"@[0]);
    }
    assert(ElementKind::spec_kind_from_type_name("Conjugation"@) == ElementKind::Conjugation) by {
        reveal_strlit("Conjugation");
        reveal_strlit("Association");
        assert("Conjugation"@[0] != "Association"@[0]);
        reveal_strlit("Interaction");
        assert("Conjugation"@[0] != "Interaction"@[0]);
        reveal_strlit("ActionUsage");
        assert("Conjugation"@[0] != "ActionUsage"@[0]);
        reveal_strlit("LiteralReal");
        assert("Conjugation"@[0] != "LiteralReal"@[0]);
    }
    assert(ElementKind::spec_kind_from_type_name("FeatureValue"@) == ElementKind::FeatureValue) by {
        reveal_strlit("FeatureValue");
        reveal_strlit("UseCaseUsage");
        assert("FeatureValue"@[0] != "UseCaseUsage"@[0]);
        reveal_strlit("Redefinition");
        assert("FeatureValue"@[0] != "Redefinition"@[0]);
    }
    assert(ElementKind::spec_kind_from_type_name("FeatureChaining"@) == ElementKind::FeatureChaining) by {
        reveal_strlit("FeatureChaining");
        reveal_strlit("StateDefinition");
        assert("FeatureChaining"@[0] != "StateDefinition"@[0]);
        reveal_strlit("ConnectionUsage");
        assert("FeatureChaining"@[0] != "ConnectionUsage"@[0]);
        reveal_strlit("AllocationUsage");
        assert("FeatureChaining"@[0] != "AllocationUsage"@[0]);
        reveal_strlit("ConstraintUsage");
        assert("FeatureChaining"@[0] != "ConstraintUsage"@[0]);
        reveal_strlit("TransitionUsage");
        assert("FeatureChaining"@[0] != "TransitionUsage"@[0]);
        reveal_strlit("OccurrenceUsage");
        assert("FeatureChaining"@[0] != "OccurrenceUsage"@[0]);
        reveal_strlit("LiteralRational");
        assert("FeatureChaining"@[0] != "LiteralRational"@[0]);
        reveal_strlit("LiteralInfinity");
        assert("FeatureChaining"@[0] != "LiteralInfinity"@[0]);
        reveal_strlit("NamespaceImport");
        assert("FeatureChaining"@[0] != "NamespaceImport"@[0]);
        reveal_strlit("CrossSubsetting");
        assert("FeatureChaining"@[0] != "CrossSubsetting"@[0]);
    }
    assert(ElementKind::spec_kind_from_type_name("FeatureInverting"@) == ElementKind::FeatureInverting) by {
        reveal_strlit("FeatureInverting");
        reveal_strlit("ActionDefinition");
        assert("FeatureInverting"@[0] != "ActionDefinition"@[0]);
        reveal_strlit("RequirementUsage");
        assert("FeatureInverting"@[0] != "RequirementUsage"@[0]);
        reveal_strlit("CalculationUsage");
        assert("FeatureInverting"@[0] != "CalculationUsage"@[0]);
        reveal_strlit("BindingConnector");
        assert("FeatureInverting"@[0] != "BindingConnector"@[0]);
        reveal_strlit("OwningMembership");
        assert("FeatureInverting"@[0] != "OwningMembership"@[0]);
        reveal_strlit("MembershipImport");
        assert("FeatureInverting"@[0] != "MembershipImport"@[0]);
    }
}

proof fn lemma_type_names_16()
    ensures
        ElementKind::spec_kind_from_type_name("Intersecting"@) == ElementKind::Intersecting,
        ElementKind::spec_kind_from_type_name("Disjoining"@) == ElementKind::Disjoining,
        ElementKind::spec_kind_from_type_name("Unioning"@) == ElementKind::Unioning,
        ElementKind::spec_kind_from_type_name("Dependency"@) == ElementKind::Dependency,
        ElementKind::spec_kind_from_type_name("PerformActionUsage"@) == ElementKind::PerformActionUsage,
        ElementKind::spec_kind_from_type_name("ExhibitStateUsage"@) == ElementKind::ExhibitStateUsage,
{
    assert(ElementKind::spec_kind_from_type_name("Intersecting"@) == ElementKind::Intersecting) by {
        reveal_strlit("Intersecting");
        reveal_strlit("UseCaseUsage");
        assert("Intersecting"@[0] != "UseCaseUsage"@[0]);
        reveal_strlit("Redefinition");
        assert("Intersecting"@[0] != "Redefinition"@[0]);
        reveal_strlit("FeatureValue");
        assert("Intersecting"@[0] != "FeatureValue"@[0]);
    }
    assert(ElementKind::spec_kind_from_type_name("Disjoining"@) == ElementKind::Disjoining) by {
        reveal_strlit("Disjoining");
        reveal_strlit("StateUsage");
        assert("Disjoining"@[0] != "StateUsage"@[0]);
        reveal_strlit("Expression");
        assert("Disjoining"@[0] != "Expression"@[0]);
        reveal_strlit("Succession");
        assert("Disjoining"@[0] != "Succession"@[0]);
        reveal_strlit("Membership");
        assert("Disjoining"@[0] != "Membership"@[0]);
        reveal_strlit("Subsetting");
        assert("Disjoining"@[0] != "Subsetting"@[0]);
    }
    assert(ElementKind::spec_kind_from_type_name("Unioning"@) == ElementKind::Unioning) by {
        reveal_strlit("Unioning");
        reveal_strlit("DataType");
        assert("Unioning"@[0] != "DataType"@[0]);
        reveal_strlit("Behavior");
        assert("Unioning"@[0] != "Behavior"@[0]);
        reveal_strlit("Function");
        assert("Unioning"@[0] != "Function"@[0]);
    }
    assert(ElementKind::spec_kind_from_type_name("Dependency"@) == ElementKind::Dependency) by {
        reveal_strlit("Dependency");
        reveal_strlit("StateUsage");
        assert("Dependency"@[0] != "StateUsage"@[0]);
        reveal_strlit("Expression");
        assert("Dependency"@[0] != "Expression"@[0]);
        reveal_strlit("Succession");
        assert("Dependency"@[0] != "Succession"@[0]);
        reveal_strlit("Membership");
        assert("Dependency"@[0] != "Membership"@[0]);
        reveal_strlit("Subsetting");
        assert("Dependency"@[0] != "Subsetting"@[0]);
        reveal_strlit("Disjoining");
        assert("Dependency"@[1] != "Disjoining"@[1]);
    }
    assert(ElementKind::spec_kind_from_type_name("PerformActionUsage"@) == ElementKind::PerformActionUsage) by {
        reveal_strlit("PerformActionUsage");
        reveal_strlit("MetadataDefinition");
        assert("PerformActionUsage"@[0] != "MetadataDefinition"@[0]);
        reveal_strlit("OperatorExpression");
        assert("PerformActionUsage"@[0] != "OperatorExpression"@[0]);
    }
    assert(ElementKind::spec_kind_from_type_name("ExhibitStateUsage"@) == ElementKind::ExhibitStateUsage) by {
        reveal_strlit("ExhibitStateUsage");
        reveal_strlit("UseCaseDefinition");
        assert("ExhibitStateUsage"@[0] != "UseCaseDefinition"@[0]);
        reveal_strlit("ConcernDefinition");
        assert("ExhibitStateUsage"@[0] != "ConcernDefinition"@[0]);
        reveal_strlit("AnalysisCaseUsage");
        assert("ExhibitStateUsage"@[0] != "AnalysisCaseUsage"@[0]);
        reveal_strlit("BooleanExpression");
        assert("ExhibitStateUsage"@[0] != "BooleanExpression"@[0]);
        reveal_strlit("MultiplicityRange");
        assert("ExhibitStateUsage"@[0] != "MultiplicityRange"@[0]);
        reveal_strlit("FeatureMembership");
        assert("ExhibitStateUsage"@[0] != "FeatureMembership"@[0]);
        reveal_strlit("Subclassification");
        assert("ExhibitStateUsage"@[0] != "Subclassification"@[0]);
    }
}

proof fn lemma_type_names_17()
    ensures
        ElementKind::spec_kind_from_type_name("IncludeUseCaseUsage"@) == ElementKind::IncludeUseCaseUsage,
        ElementKind::spec_kind_from_type_name("AssertConstraintUsage"@) == ElementKind::AssertConstraintUsage,
        ElementKind::spec_kind_from_type_name("RequirementConstraintMembership"@) == ElementKind::RequirementConstraintMembership,
        ElementKind::spec_kind_from_type_name("SatisfyRequirementUsage"@) == ElementKind::Satisfaction,
        ElementKind::spec_kind_from_type_name("RequirementVerificationMembership"@) == ElementKind::Verification,
        ElementKind::spec_kind_from_type_name("Comment"@) == ElementKind::Comment,
{
    assert(ElementKind::spec_kind_from_type_name("IncludeUseCaseUsage"@) == ElementKind::IncludeUseCaseUsage) by {
        reveal_strlit("IncludeUseCaseUsage");
        reveal_strlit("AttributeDefinition");
        assert("IncludeUseCaseUsage"@[0] != "AttributeDefinition"@[0]);
        reveal_strlit("InterfaceDefinition");
        assert("IncludeUseCaseUsage"@[2] != "InterfaceDefinition"@[2]);
        reveal_strlit("ViewpointDefinition");
        assert("IncludeUseCaseUsage"@[0] != "ViewpointDefinition"@[0]);
        reveal_strlit("RenderingDefinition");
        assert("IncludeUseCaseUsage"@[0] != "RenderingDefinition"@[0]);
        reveal_strlit("FlowConnectionUsage");
        assert("IncludeUseCaseUsage"@[0] != "FlowConnectionUsage"@[0]);
        reveal_strlit("ParameterMembership");
        assert("IncludeUseCaseUsage"@[0] != "ParameterMembership"@[0]);
        reveal_strlit("ReferenceSubsetting");
        assert("IncludeUseCaseUsage"@[0] != "ReferenceSubsetting"@[0]);
    }
    assert(ElementKind::spec_kind_from_type_name("AssertConstraintUsage"@) == ElementKind::AssertConstraintUsage) by {
        reveal_strlit("AssertConstraintUsage");
        reveal_strlit("RequirementDefinition");
        assert("AssertConstraintUsage"@[0] != "RequirementDefinition"@[0]);
        reveal_strlit("CalculationDefinition");
        assert("AssertConstraintUsage"@[0] != "CalculationDefinition"@[0]);
        reveal_strlit("EnumerationDefinition");
        assert("AssertConstraintUsage"@[0] != "EnumerationDefinition"@[0]);
        reveal_strlit("VerificationCaseUsage");
        assert("AssertConstraintUsage"@[0] != "VerificationCaseUsage"@[0]);
        reveal_strlit("ConstructorExpression");
        assert("AssertConstraintUsage"@[0] != "ConstructorExpression"@[0]);
    }
    assert(ElementKind::spec_kind_from_type_name("RequirementConstraintMembership"@) == ElementKind::RequirementConstraintMembership) by {
        reveal_strlit("RequirementConstraintMembership");
    }
    assert(ElementKind::spec_kind_from_type_name("SatisfyRequirementUsage"@) == ElementKind::Satisfaction) by {
        reveal_strlit("SatisfyRequirementUsage");
    }
    assert(ElementKind::spec_kind_from_type_name("RequirementVerificationMembership"@) == ElementKind::Verification) by {
        reveal_strlit("RequirementVerificationMembership");
    }
    assert(ElementKind::spec_kind_from_type_name("Comment"@) == ElementKind::Comment) by {
        reveal_strlit("Comment");
        reveal_strlit("Package");
        assert("Comment"@[0] != "Package"@[0]);
        reveal_strlit("Feature");
        assert("Comment"@[0] != "Feature"@[0]);
    }
}

proof fn lemma_type_names_18()
    ensures
        ElementKind::spec_kind_from_type_name("Documentation"@) == ElementKind::Documentation,
        ElementKind::spec_kind_from_type_name("TextualRepresentation"@) == ElementKind::TextualRepresentation,
        ElementKind::spec_kind_from_type_name("MetadataUsage"@) == ElementKind::MetadataUsage,
        ElementKind::spec_kind_from_type_name("AnnotatingElement"@) == ElementKind::AnnotatingElement,
        ElementKind::spec_kind_from_type_name("Annotation"@) == ElementKind::Annotation,
        ElementKind::spec_kind_from_type_name("Classifier"@) == ElementKind::Classifier,
{
    assert(ElementKind::spec_kind_from_type_name("Documentation"@) == ElementKind::Documentation) by {
        reveal_strlit("Documentation");
        reveal_strlit("LiteralString");
        assert("Documentation"@[0] != "LiteralString"@[0]);
        reveal_strlit("FeatureTyping");
        assert("Documentation"@[0] != "FeatureTyping"@[0]);
    }
    assert(ElementKind::spec_kind_from_type_name("TextualRepresentation"@) == ElementKind::TextualRepresentation) by {
        reveal_strlit("TextualRepresentation");
        reveal_strlit("RequirementDefinition");
        assert("TextualRepresentation"@[0] != "RequirementDefinition"@[0]);
        reveal_strlit("CalculationDefinition");
        assert("TextualRepresentation"@[0] != "CalculationDefinition"@[0]);
        reveal_strlit("EnumerationDefinition");
        assert("TextualRepresentation"@[0] != "EnumerationDefinition"@[0]);
        reveal_strlit("VerificationCaseUsage");
        assert("TextualRepresentation"@[0] != "VerificationCaseUsage"@[0]);
        reveal_strlit("ConstructorExpression");
        assert("TextualRepresentation"@[0] != "ConstructorExpression"@[0]);
        reveal_strlit("AssertConstraintUsage");
        assert("TextualRepresentation"@[0] != "AssertConstraintUsage"@[0]);
    }
    assert(ElementKind::spec_kind_from_type_name("MetadataUsage"@) == ElementKind::MetadataUsage) by {
        reveal_strlit("MetadataUsage");
        reveal_strlit("LiteralString");
        assert("MetadataUsage"@[0] != "LiteralString"@[0]);
        reveal_strlit("FeatureTyping");
        assert("MetadataUsage"@[0] != "FeatureTyping"@[0]);
        reveal_strlit("Documentation");
        assert("MetadataUsage"@[0] != "Documentation"@[0]);
    }
    assert(ElementKind::spec_kind_from_type_name("AnnotatingElement"@) == ElementKind::AnnotatingElement) by {
        reveal_strlit("AnnotatingElement");
        reveal_strlit("UseCaseDefinition");
        assert("AnnotatingElement"@[0] != "UseCaseDefinition"@[0]);
        reveal_strlit("ConcernDefinition");
        assert("AnnotatingElement"@[0] != "ConcernDefinition"@[0]);
        reveal_strlit("AnalysisCaseUsage");
        assert("AnnotatingElement"@[2] != "AnalysisCaseUsage"@[2]);
        reveal_strlit("BooleanExpression");
        assert("AnnotatingElement"@[0] != "BooleanExpression"@[0]);
        reveal_strlit("MultiplicityRange");
        assert("AnnotatingElement"@[0] != "MultiplicityRange"@[0]);
        reveal_strlit("FeatureMembership");
        assert("AnnotatingElement"@[0] != "FeatureMembership"@[0]);
        reveal_strlit("Subclassification");
        assert("AnnotatingElement"@[0] != "Subclassification"@[0]);
        reveal_strlit("ExhibitStateUsage");
        assert("AnnotatingElement"@[0] != "ExhibitStateUsage"@[0]);
    }
    assert(ElementKind::spec_kind_from_type_name("Annotation"@) == ElementKind::Annotation) by {
        reveal_strlit("Annotation");
        reveal_strlit("StateUsage");
        assert("Annotation"@[0] != "StateUsage"@[0]);
        reveal_strlit("Expression");
        assert("Annotation"@[0] != "Expression"@[0]);
        reveal_strlit("Succession");
        assert("Annotation"@[0] != "Succession"@[0]);
        reveal_strlit("Membership");
        assert("Annotation"@[0] != "Membership"@[0]);
        reveal_strlit("Subsetting");
        assert("Annotation"@[0] != "Subsetting"@[0]);
        reveal_strlit("Disjoining");
        assert("Annotation"@[0] != "Disjoining"@[0]);
        reveal_strlit("Dependency");
        assert("Annotation"@[0] != "Dependency"@[0]);
    }
    assert(ElementKind::spec_kind_from_type_name("Classifier"@) == ElementKind::Classifier) by {
        reveal_strlit("Classifier");
        reveal_strlit("StateUsage");
        assert("Classifier"@[0] != "StateUsage"@[0]);
        reveal_strlit("Expression");
        assert("Classifier"@[0] != "Expression"@[0]);
        reveal_strlit("Succession");
        assert("Classifier"@[0] != "Succession"@[0]);
        reveal_strlit("Membership");
        assert("Classifier"@[0] != "Membership"@[0]);
        reveal_strlit("Subsetting");
        assert("Classifier"@[0] != "Subsetting"@[0]);
        reveal_strlit("Disjoining");
        assert("Classifier"@[0] != "Disjoining"@[0]);
        reveal_strlit("Dependency");
        assert("Classifier"@[0] != "Dependency"@[0]);
        reveal_strlit("Annotation");
        assert("Classifier"@[0] != "Annotation"@[0]);
    }
}

proof fn lemma_type_names_19()
    ensures
        ElementKind::spec_kind_from_type_name("Metaclass"@) == ElementKind::Metaclass,
        ElementKind::spec_kind_from_type_name("Element"@) == ElementKind::Other,
{
    assert(ElementKind::spec_kind_from_type_name("Metaclass"@) == ElementKind::Metaclass) by {
        reveal_strlit("Metaclass");
        reveal_strlit("Namespace");
        assert("Metaclass"@[0] != "Namespace"@[0]);
        reveal_strlit("Structure");
        assert("Metaclass"@[0] != "Structure"@[0]);
        reveal_strlit("Predicate");
        assert("Metaclass"@[0] != "Predicate"@[0]);
        reveal_strlit("PartUsage");
        assert("Metaclass"@[0] != "PartUsage"@[0]);
        reveal_strlit("ItemUsage");
        assert("Metaclass"@[0] != "ItemUsage"@[0]);
        reveal_strlit("PortUsage");
        assert("Metaclass"@[0] != "PortUsage"@[0]);
        reveal_strlit("Invariant");
        assert("Metaclass"@[0] != "Invariant"@[0]);
        reveal_strlit("Connector");
        assert("Metaclass"@[0] != "Connector"@[0]);
    }
    assert(ElementKind::spec_kind_from_type_name("Element"@) == ElementKind::Other) by {
        reveal_strlit("Element");
        reveal_strlit("Package");
        assert("Element"@[0] != "Package"@[0]);
        reveal_strlit("Feature");
        assert("Element"@[0] != "Feature"@[0]);
        reveal_strlit("Comment");
        assert("Element"@[0] != "Comment"@[0]);
    }
}

/// For every kind but `Alias` (written as a plain `Membership`), reading back the XMI type written for a kind gives that kind.
pub proof fn lemma_xmi_type_roundtrip(k: ElementKind)
    requires
        k != ElementKind::Alias,
    ensures
        ElementKind::spec_from_xmi_type(k.spec_xmi_type()) == k,
{
    lemma_type_names_0();
    lemma_type_names_1();
    lemma_type_names_2();
    lemma_type_names_3();
    lemma_type_names_4();
    lemma_type_names_5();
    lemma_type_names_6();
    lemma_type_names_7();
    lemma_type_names_8();
    lemma_type_names_9();
    lemma_type_names_10();
    lemma_type_names_11();
    lemma_type_names_12();
    lemma_type_names_13();
    lemma_type_names_14();
    lemma_type_names_15();
    lemma_type_names_16();
    lemma_type_names_17();
    lemma_type_names_18();
    lemma_type_names_19();
    match k {
        ElementKind::Namespace => lemma_suffix_sysml_Namespace(),
        ElementKind::Package => lemma_suffix_sysml_Package(),
        ElementKind::LibraryPackage => lemma_suffix_sysml_LibraryPackage(),
        ElementKind::Class => lemma_suffix_kerml_Class(),
        ElementKind::DataType => lemma_suffix_kerml_DataType(),
        ElementKind::Structure => lemma_suffix_kerml_Structure(),
        ElementKind::Association => lemma_suffix_kerml_Association(),
        ElementKind::AssociationStructure => lemma_suffix_kerml_AssociationStructure(),
        ElementKind::Interaction => lemma_suffix_kerml_Interaction(),
        ElementKind::Behavior => lemma_suffix_kerml_Behavior(),
        ElementKind::Function => lemma_suffix_kerml_Function(),
        ElementKind::Predicate => lemma_suffix_kerml_Predicate(),
        ElementKind::PartDefinition => lemma_suffix_sysml_PartDefinition(),
        ElementKind::ItemDefinition => lemma_suffix_sysml_ItemDefinition(),
        ElementKind::ActionDefinition => lemma_suffix_sysml_ActionDefinition(),
        ElementKind::PortDefinition => lemma_suffix_sysml_PortDefinition(),
        ElementKind::AttributeDefinition => lemma_suffix_sysml_AttributeDefinition(),
        ElementKind::ConnectionDefinition => lemma_suffix_sysml_ConnectionDefinition(),
        ElementKind::InterfaceDefinition => lemma_suffix_sysml_InterfaceDefinition(),
        ElementKind::AllocationDefinition => lemma_suffix_sysml_AllocationDefinition(),
        ElementKind::RequirementDefinition => lemma_suffix_sysml_RequirementDefinition(),
        ElementKind::ConstraintDefinition => lemma_suffix_sysml_ConstraintDefinition(),
        ElementKind::StateDefinition => lemma_suffix_sysml_StateDefinition(),
        ElementKind::CalculationDefinition => lemma_suffix_sysml_CalculationDefinition(),
        ElementKind::OccurrenceDefinition => lemma_suffix_sysml_OccurrenceDefinition(),
        ElementKind::UseCaseDefinition => lemma_suffix_sysml_UseCaseDefinition(),
        ElementKind::AnalysisCaseDefinition => lemma_suffix_sysml_AnalysisCaseDefinition(),
        ElementKind::VerificationCaseDefinition => lemma_suffix_sysml_VerificationCaseDefinition(),
        ElementKind::ConcernDefinition => lemma_suffix_sysml_ConcernDefinition(),
        ElementKind::ViewDefinition => lemma_suffix_sysml_ViewDefinition(),
        ElementKind::ViewpointDefinition => lemma_suffix_sysml_ViewpointDefinition(),
        ElementKind::RenderingDefinition => lemma_suffix_sysml_RenderingDefinition(),
        ElementKind::EnumerationDefinition => lemma_suffix_sysml_EnumerationDefinition(),
        ElementKind::MetadataDefinition => lemma_suffix_sysml_MetadataDefinition(),
        ElementKind::PartUsage => lemma_suffix_sysml_PartUsage(),
        ElementKind::ItemUsage => lemma_suffix_sysml_ItemUsage(),
        ElementKind::ActionUsage => lemma_suffix_sysml_ActionUsage(),
        ElementKind::PortUsage => lemma_suffix_sysml_PortUsage(),
        ElementKind::AttributeUsage => lemma_suffix_sysml_AttributeUsage(),
        ElementKind::ConnectionUsage => lemma_suffix_sysml_ConnectionUsage(),
        ElementKind::InterfaceUsage => lemma_suffix_sysml_InterfaceUsage(),
        ElementKind::AllocationUsage => lemma_suffix_sysml_AllocationUsage(),
        ElementKind::RequirementUsage => lemma_suffix_sysml_RequirementUsage(),
        ElementKind::ConstraintUsage => lemma_suffix_sysml_ConstraintUsage(),
        ElementKind::StateUsage => lemma_suffix_sysml_StateUsage(),
        ElementKind::TransitionUsage => lemma_suffix_sysml_TransitionUsage(),
        ElementKind::CalculationUsage => lemma_suffix_sysml_CalculationUsage(),
        ElementKind::ReferenceUsage => lemma_suffix_sysml_ReferenceUsage(),
        ElementKind::OccurrenceUsage => lemma_suffix_sysml_OccurrenceUsage(),
        ElementKind::UseCaseUsage => lemma_suffix_sysml_UseCaseUsage(),
        ElementKind::AnalysisCaseUsage => lemma_suffix_sysml_AnalysisCaseUsage(),
        ElementKind::VerificationCaseUsage => lemma_suffix_sysml_VerificationCaseUsage(),
        ElementKind::FlowConnectionUsage => lemma_suffix_sysml_FlowConnectionUsage(),
        ElementKind::SuccessionFlowConnectionUsage => lemma_suffix_sysml_SuccessionFlowConnectionUsage(),
        ElementKind::Feature => lemma_suffix_kerml_Feature(),
        ElementKind::Step => lemma_suffix_kerml_Step(),
        ElementKind::Expression => lemma_suffix_kerml_Expression(),
        ElementKind::BooleanExpression => lemma_suffix_kerml_BooleanExpression(),
        ElementKind::Invariant => lemma_suffix_kerml_Invariant(),
        ElementKind::Connector => lemma_suffix_kerml_Connector(),
        ElementKind::BindingConnector => lemma_suffix_kerml_BindingConnector(),
        ElementKind::Succession => lemma_suffix_kerml_Succession(),
        ElementKind::Flow => lemma_suffix_kerml_Flow(),
        ElementKind::MultiplicityRange => lemma_suffix_kerml_MultiplicityRange(),
        ElementKind::LiteralInteger => lemma_suffix_kerml_LiteralInteger(),
        ElementKind::LiteralReal => lemma_suffix_kerml_LiteralRational(),
        ElementKind::LiteralInfinity => lemma_suffix_kerml_LiteralInfinity(),
        ElementKind::LiteralBoolean => lemma_suffix_kerml_LiteralBoolean(),
        ElementKind::LiteralString => lemma_suffix_kerml_LiteralString(),
        ElementKind::NullExpression => lemma_suffix_kerml_NullExpression(),
        ElementKind::FeatureReferenceExpression => lemma_suffix_kerml_FeatureReferenceExpression(),
        ElementKind::OperatorExpression => lemma_suffix_kerml_OperatorExpression(),
        ElementKind::InvocationExpression => lemma_suffix_kerml_InvocationExpression(),
        ElementKind::FeatureChainExpression => lemma_suffix_kerml_FeatureChainExpression(),
        ElementKind::ConstructorExpression => lemma_suffix_kerml_ConstructorExpression(),
        ElementKind::Membership => lemma_suffix_kerml_Membership(),
        ElementKind::OwningMembership => lemma_suffix_kerml_OwningMembership(),
        ElementKind::FeatureMembership => lemma_suffix_kerml_FeatureMembership(),
        ElementKind::ReturnParameterMembership => lemma_suffix_kerml_ReturnParameterMembership(),
        ElementKind::ParameterMembership => lemma_suffix_kerml_ParameterMembership(),
        ElementKind::EndFeatureMembership => lemma_suffix_kerml_EndFeatureMembership(),
        ElementKind::ResultExpressionMembership => lemma_suffix_kerml_ResultExpressionMembership(),
        ElementKind::Import => lemma_suffix_kerml_Import(),
        ElementKind::NamespaceImport => lemma_suffix_kerml_NamespaceImport(),
        ElementKind::MembershipImport => lemma_suffix_kerml_MembershipImport(),
        ElementKind::Specialization => lemma_suffix_kerml_Specialization(),
        ElementKind::FeatureTyping => lemma_suffix_kerml_FeatureTyping(),
        ElementKind::Subsetting => lemma_suffix_kerml_Subsetting(),
        ElementKind::ReferenceSubsetting => lemma_suffix_kerml_ReferenceSubsetting(),
        ElementKind::CrossSubsetting => lemma_suffix_kerml_CrossSubsetting(),
        ElementKind::Redefinition => lemma_suffix_kerml_Redefinition(),
        ElementKind::Conjugation => lemma_suffix_kerml_Conjugation(),
        ElementKind::FeatureValue => lemma_suffix_kerml_FeatureValue(),
        ElementKind::FeatureChaining => lemma_suffix_kerml_FeatureChaining(),
        ElementKind::FeatureInverting => lemma_suffix_kerml_FeatureInverting(),
        ElementKind::Intersecting => lemma_suffix_kerml_Intersecting(),
        ElementKind::Disjoining => lemma_suffix_kerml_Disjoining(),
        ElementKind::Unioning => lemma_suffix_kerml_Unioning(),
        ElementKind::Dependency => lemma_suffix_kerml_Dependency(),
        ElementKind::PerformActionUsage => lemma_suffix_sysml_PerformActionUsage(),
        ElementKind::ExhibitStateUsage => lemma_suffix_sysml_ExhibitStateUsage(),
        ElementKind::IncludeUseCaseUsage => lemma_suffix_sysml_IncludeUseCaseUsage(),
        ElementKind::AssertConstraintUsage => lemma_suffix_sysml_AssertConstraintUsage(),
        ElementKind::RequirementConstraintMembership => lemma_suffix_sysml_RequirementConstraintMembership(),
        ElementKind::Satisfaction => lemma_suffix_sysml_SatisfyRequirementUsage(),
        ElementKind::Verification => lemma_suffix_sysml_RequirementVerificationMembership(),
        ElementKind::Comment => lemma_suffix_kerml_Comment(),
        ElementKind::Documentation => lemma_suffix_kerml_Documentation(),
        ElementKind::TextualRepresentation => lemma_suffix_kerml_TextualRepresentation(),
        ElementKind::MetadataUsage => lemma_suffix_sysml_MetadataUsage(),
        ElementKind::AnnotatingElement => lemma_suffix_kerml_AnnotatingElement(),
        ElementKind::Annotation => lemma_suffix_kerml_Annotation(),
        ElementKind::Classifier => lemma_suffix_kerml_Classifier(),
        ElementKind::Metaclass => lemma_suffix_kerml_Metaclass(),
        ElementKind::Other => lemma_suffix_kerml_Element(),
        ElementKind::Alias => {},
    }
}

/// For every kind but `Alias` (written as a plain `Membership`), reading back the `xsi:type` written for a kind gives that kind.
pub proof fn lemma_xsi_type_roundtrip(k: ElementKind)
    requires
        k != ElementKind::Alias,
    ensures
        ElementKind::spec_from_xmi_type(k.spec_xsi_type()) == k,
{
    lemma_type_names_0();
    lemma_type_names_1();
    lemma_type_names_2();
    lemma_type_names_3();
    lemma_type_names_4();
    lemma_type_names_5();
    lemma_type_names_6();
    lemma_type_names_7();
    lemma_type_names_8();
    lemma_type_names_9();
    lemma_type_names_10();
    lemma_type_names_11();
    lemma_type_names_12();
    lemma_type_names_13();
    lemma_type_names_14();
    lemma_type_names_15();
    lemma_type_names_16();
    lemma_type_names_17();
    lemma_type_names_18();
    lemma_type_names_19();
    match k {
        ElementKind::Namespace => lemma_suffix_sysml_Namespace(),
        ElementKind::Package => lemma_suffix_sysml_Package(),
        ElementKind::LibraryPackage => lemma_suffix_sysml_LibraryPackage(),
        ElementKind::Class => lemma_suffix_sysml_Class(),
        ElementKind::DataType => lemma_suffix_sysml_DataType(),
        ElementKind::Structure => lemma_suffix_sysml_Structure(),
        ElementKind::Association => lemma_suffix_sysml_Association(),
        ElementKind::AssociationStructure => lemma_suffix_sysml_AssociationStructure(),
        ElementKind::Interaction => lemma_suffix_sysml_Interaction(),
        ElementKind::Behavior => lemma_suffix_sysml_Behavior(),
        ElementKind::Function => lemma_suffix_sysml_Function(),
        ElementKind::Predicate => lemma_suffix_sysml_Predicate(),
        ElementKind::PartDefinition => lemma_suffix_sysml_PartDefinition(),
        ElementKind::ItemDefinition => lemma_suffix_sysml_ItemDefinition(),
        ElementKind::ActionDefinition => lemma_suffix_sysml_ActionDefinition(),
        ElementKind::PortDefinition => lemma_suffix_sysml_PortDefinition(),
        ElementKind::AttributeDefinition => lemma_suffix_sysml_AttributeDefinition(),
        ElementKind::ConnectionDefinition => lemma_suffix_sysml_ConnectionDefinition(),
        ElementKind::InterfaceDefinition => lemma_suffix_sysml_InterfaceDefinition(),
        ElementKind::AllocationDefinition => lemma_suffix_sysml_AllocationDefinition(),
        ElementKind::RequirementDefinition => lemma_suffix_sysml_RequirementDefinition(),
        ElementKind::ConstraintDefinition => lemma_suffix_sysml_ConstraintDefinition(),
        ElementKind::StateDefinition => lemma_suffix_sysml_StateDefinition(),
        ElementKind::CalculationDefinition => lemma_suffix_sysml_CalculationDefinition(),
        ElementKind::OccurrenceDefinition => lemma_suffix_sysml_OccurrenceDefinition(),
        ElementKind::UseCaseDefinition => lemma_suffix_sysml_UseCaseDefinition(),
        ElementKind::AnalysisCaseDefinition => lemma_suffix_sysml_AnalysisCaseDefinition(),
        ElementKind::VerificationCaseDefinition => lemma_suffix_sysml_VerificationCaseDefinition(),
        ElementKind::ConcernDefinition => lemma_suffix_sysml_ConcernDefinition(),
        ElementKind::ViewDefinition => lemma_suffix_sysml_ViewDefinition(),
        ElementKind::ViewpointDefinition => lemma_suffix_sysml_ViewpointDefinition(),
        ElementKind::RenderingDefinition => lemma_suffix_sysml_RenderingDefinition(),
        ElementKind::EnumerationDefinition => lemma_suffix_sysml_EnumerationDefinition(),
        ElementKind::MetadataDefinition => lemma_suffix_sysml_MetadataDefinition(),
        ElementKind::PartUsage => lemma_suffix_sysml_PartUsage(),
        ElementKind::ItemUsage => lemma_suffix_sysml_ItemUsage(),
        ElementKind::ActionUsage => lemma_suffix_sysml_ActionUsage(),
        ElementKind::PortUsage => lemma_suffix_sysml_PortUsage(),
        ElementKind::AttributeUsage => lemma_suffix_sysml_AttributeUsage(),
        ElementKind::ConnectionUsage => lemma_suffix_sysml_ConnectionUsage(),
        ElementKind::InterfaceUsage => lemma_suffix_sysml_InterfaceUsage(),
        ElementKind::AllocationUsage => lemma_suffix_sysml_AllocationUsage(),
        ElementKind::RequirementUsage => lemma_suffix_sysml_RequirementUsage(),
        ElementKind::ConstraintUsage => lemma_suffix_sysml_ConstraintUsage(),
        ElementKind::StateUsage => lemma_suffix_sysml_StateUsage(),
        ElementKind::TransitionUsage => lemma_suffix_sysml_TransitionUsage(),
        ElementKind::CalculationUsage => lemma_suffix_sysml_CalculationUsage(),
        ElementKind::ReferenceUsage => lemma_suffix_sysml_ReferenceUsage(),
        ElementKind::OccurrenceUsage => lemma_suffix_sysml_OccurrenceUsage(),
        ElementKind::UseCaseUsage => lemma_suffix_sysml_UseCaseUsage(),
        ElementKind::AnalysisCaseUsage => lemma_suffix_sysml_AnalysisCaseUsage(),
        ElementKind::VerificationCaseUsage => lemma_suffix_sysml_VerificationCaseUsage(),
        ElementKind::FlowConnectionUsage => lemma_suffix_sysml_FlowConnectionUsage(),
        ElementKind::SuccessionFlowConnectionUsage => lemma_suffix_sysml_SuccessionFlowConnectionUsage(),
        ElementKind::Feature => lemma_suffix_sysml_Feature(),
        ElementKind::Step => lemma_suffix_sysml_Step(),
        ElementKind::Expression => lemma_suffix_sysml_Expression(),
        ElementKind::BooleanExpression => lemma_suffix_sysml_BooleanExpression(),
        ElementKind::Invariant => lemma_suffix_sysml_Invariant(),
        ElementKind::Connector => lemma_suffix_sysml_Connector(),
        ElementKind::BindingConnector => lemma_suffix_sysml_BindingConnector(),
        ElementKind::Succession => lemma_suffix_sysml_Succession(),
        ElementKind::Flow => lemma_suffix_sysml_Flow(),
        ElementKind::MultiplicityRange => lemma_suffix_sysml_MultiplicityRange(),
        ElementKind::LiteralInteger => lemma_suffix_sysml_LiteralInteger(),
        ElementKind::LiteralReal => lemma_suffix_sysml_LiteralRational(),
        ElementKind::LiteralInfinity => lemma_suffix_sysml_LiteralInfinity(),
        ElementKind::LiteralBoolean => lemma_suffix_sysml_LiteralBoolean(),
        ElementKind::LiteralString => lemma_suffix_sysml_LiteralString(),
        ElementKind::NullExpression => lemma_suffix_sysml_NullExpression(),
        ElementKind::FeatureReferenceExpression => lemma_suffix_sysml_FeatureReferenceExpression(),
        ElementKind::OperatorExpression => lemma_suffix_sysml_OperatorExpression(),
        ElementKind::InvocationExpression => lemma_suffix_sysml_InvocationExpression(),
        ElementKind::FeatureChainExpression => lemma_suffix_sysml_FeatureChainExpression(),
        ElementKind::ConstructorExpression => lemma_suffix_sysml_ConstructorExpression(),
        ElementKind::Membership => lemma_suffix_sysml_Membership(),
        ElementKind::OwningMembership => lemma_suffix_sysml_OwningMembership(),
        ElementKind::FeatureMembership => lemma_suffix_sysml_FeatureMembership(),
        ElementKind::ReturnParameterMembership => lemma_suffix_sysml_ReturnParameterMembership(),
        ElementKind::ParameterMembership => lemma_suffix_sysml_ParameterMembership(),
        ElementKind::EndFeatureMembership => lemma_suffix_sysml_EndFeatureMembership(),
        ElementKind::ResultExpressionMembership => lemma_suffix_sysml_ResultExpressionMembership(),
        ElementKind::Import => lemma_suffix_sysml_Import(),
        ElementKind::NamespaceImport => lemma_suffix_sysml_NamespaceImport(),
        ElementKind::MembershipImport => lemma_suffix_sysml_MembershipImport(),
        ElementKind::Specialization => lemma_suffix_sysml_Subclassification(),
        ElementKind::FeatureTyping => lemma_suffix_sysml_FeatureTyping(),
        ElementKind::Subsetting => lemma_suffix_sysml_Subsetting(),
        ElementKind::ReferenceSubsetting => lemma_suffix_sysml_ReferenceSubsetting(),
        ElementKind::CrossSubsetting => lemma_suffix_sysml_CrossSubsetting(),
        ElementKind::Redefinition => lemma_suffix_sysml_Redefinition(),
        ElementKind::Conjugation => lemma_suffix_sysml_Conjugation(),
        ElementKind::FeatureValue => lemma_suffix_sysml_FeatureValue(),
        ElementKind::FeatureChaining => lemma_suffix_sysml_FeatureChaining(),
        ElementKind::FeatureInverting => lemma_suffix_sysml_FeatureInverting(),
        ElementKind::Intersecting => lemma_suffix_sysml_Intersecting(),
        ElementKind::Disjoining => lemma_suffix_sysml_Disjoining(),
        ElementKind::Unioning => lemma_suffix_sysml_Unioning(),
        ElementKind::Dependency => lemma_suffix_sysml_Dependency(),
        ElementKind::PerformActionUsage => lemma_suffix_sysml_PerformActionUsage(),
        ElementKind::ExhibitStateUsage => lemma_suffix_sysml_ExhibitStateUsage(),
        ElementKind::IncludeUseCaseUsage => lemma_suffix_sysml_IncludeUseCaseUsage(),
        ElementKind::AssertConstraintUsage => lemma_suffix_sysml_AssertConstraintUsage(),
        ElementKind::RequirementConstraintMembership => lemma_suffix_sysml_RequirementConstraintMembership(),
        ElementKind::Satisfaction => lemma_suffix_sysml_SatisfyRequirementUsage(),
        ElementKind::Verification => lemma_suffix_sysml_RequirementVerificationMembership(),
        ElementKind::Comment => lemma_suffix_sysml_Comment(),
        ElementKind::Documentation => lemma_suffix_sysml_Documentation(),
        ElementKind::TextualRepresentation => lemma_suffix_sysml_TextualRepresentation(),
        ElementKind::MetadataUsage => lemma_suffix_sysml_MetadataUsage(),
        ElementKind::AnnotatingElement => lemma_suffix_sysml_AnnotatingElement(),
        ElementKind::Annotation => lemma_suffix_sysml_Annotation(),
        ElementKind::Classifier => lemma_suffix_sysml_Classifier(),
        ElementKind::Metaclass => lemma_suffix_sysml_Metaclass(),
        ElementKind::Other => lemma_suffix_sysml_Element(),
        ElementKind::Alias => {},
    }
}

/// For every kind but `Alias`, reading back the JSON-LD `@type` written for
/// a kind gives that kind.
pub proof fn lemma_jsonld_type_roundtrip(k: ElementKind)
    requires
        k != ElementKind::Alias,
    ensures
        ElementKind::spec_from_xmi_type(k.spec_jsonld_type()) == k,
{
    lemma_after_last_colon_idempotent(k.spec_xmi_type());
    lemma_xmi_type_roundtrip(k);
}



/// How the type names of `Namespace` are built.
proof fn lemma_names_Namespace()
    ensures
        ElementKind::Namespace.spec_xmi_type() == "sysml:"@ + ElementKind::Namespace.spec_jsonld_type(),
        ElementKind::Namespace.spec_jsonld_type().len() > 0,
        ElementKind::Namespace.spec_xsi_type() == "sysml:"@ + ElementKind::Namespace.spec_jsonld_type(),
{
    lemma_suffix_sysml_Namespace();
    reveal_strlit("sysml:Namespace");
    reveal_strlit("sysml:");
    reveal_strlit("Namespace");
    reveal_strlit("sysml:Namespace");
    reveal_strlit("sysml:");
    assert(ElementKind::Namespace.spec_xmi_type() =~= "sysml:"@ + "Namespace"@);
    assert(ElementKind::Namespace.spec_xsi_type() =~= "sysml:"@ + "Namespace"@);
}

/// How the type names of `Package` are built.
proof fn lemma_names_Package()
    ensures
        ElementKind::Package.spec_xmi_type() == "sysml:"@ + ElementKind::Package.spec_jsonld_type(),
        ElementKind::Package.spec_jsonld_type().len() > 0,
        ElementKind::Package.spec_xsi_type() == "sysml:"@ + ElementKind::Package.spec_jsonld_type(),
{
    lemma_suffix_sysml_Package();
    reveal_strlit("sysml:Package");
    reveal_strlit("sysml:");
    reveal_strlit("Package");
    reveal_strlit("sysml:Package");
    reveal_strlit("sysml:");
    assert(ElementKind::Package.spec_xmi_type() =~= "sysml:"@ + "Package"@);
    assert(ElementKind::Package.spec_xsi_type() =~= "sysml:"@ + "Package"@);
}

/// How the type names of `LibraryPackage` are built.
proof fn lemma_names_LibraryPackage()
    ensures
        ElementKind::LibraryPackage.spec_xmi_type() == "sysml:"@ + ElementKind::LibraryPackage.spec_jsonld_type(),
        ElementKind::LibraryPackage.spec_jsonld_type().len() > 0,
        ElementKind::LibraryPackage.spec_xsi_type() == "sysml:"@ + ElementKind::LibraryPackage.spec_jsonld_type(),
{
    lemma_suffix_sysml_LibraryPackage();
    reveal_strlit("sysml:LibraryPackage");
    reveal_strlit("sysml:");
    reveal_strlit("LibraryPackage");
    reveal_strlit("sysml:LibraryPackage");
    reveal_strlit("sysml:");
    assert(ElementKind::LibraryPackage.spec_xmi_type() =~= "sysml:"@ + "LibraryPackage"@);
    assert(ElementKind::LibraryPackage.spec_xsi_type() =~= "sysml:"@ + "LibraryPackage"@);
}

/// How the type names of `Class` are built.
proof fn lemma_names_Class()
    ensures
        ElementKind::Class.spec_xmi_type() == "kerml:"@ + ElementKind::Class.spec_jsonld_type(),
        ElementKind::Class.spec_jsonld_type().len() > 0,
        ElementKind::Class.spec_xsi_type() == "sysml:"@ + ElementKind::Class.spec_jsonld_type(),
{
    lemma_suffix_kerml_Class();
    reveal_strlit("kerml:Class");
    reveal_strlit("kerml:");
    reveal_strlit("Class");
    reveal_strlit("sysml:Class");
    reveal_strlit("sysml:");
    assert(ElementKind::Class.spec_xmi_type() =~= "kerml:"@ + "Class"@);
    assert(ElementKind::Class.spec_xsi_type() =~= "sysml:"@ + "Class"@);
}

/// How the type names of `DataType` are built.
proof fn lemma_names_DataType()
    ensures
        ElementKind::DataType.spec_xmi_type() == "kerml:"@ + ElementKind::DataType.spec_jsonld_type(),
        ElementKind::DataType.spec_jsonld_type().len() > 0,
        ElementKind::DataType.spec_xsi_type() == "sysml:"@ + ElementKind::DataType.spec_jsonld_type(),
{
    lemma_suffix_kerml_DataType();
    reveal_strlit("kerml:DataType");
    reveal_strlit("kerml:");
    reveal_strlit("DataType");
    reveal_strlit("sysml:DataType");
    reveal_strlit("sysml:");
    assert(ElementKind::DataType.spec_xmi_type() =~= "kerml:"@ + "DataType"@);
    assert(ElementKind::DataType.spec_xsi_type() =~= "sysml:"@ + "DataType"@);
}

/// How the type names of `Structure` are built.
proof fn lemma_names_Structure()
    ensures
        ElementKind::Structure.spec_xmi_type() == "kerml:"@ + ElementKind::Structure.spec_jsonld_type(),
        ElementKind::Structure.spec_jsonld_type().len() > 0,
        ElementKind::Structure.spec_xsi_type() == "sysml:"@ + ElementKind::Structure.spec_jsonld_type(),
{
    lemma_suffix_kerml_Structure();
    reveal_strlit("kerml:Structure");
    reveal_strlit("kerml:");
    reveal_strlit("Structure");
    reveal_strlit("sysml:Structure");
    reveal_strlit("sysml:");
    assert(ElementKind::Structure.spec_xmi_type() =~= "kerml:"@ + "Structure"@);
    assert(ElementKind::Structure.spec_xsi_type() =~= "sysml:"@ + "Structure"@);
}

/// How the type names of `Association` are built.
proof fn lemma_names_Association()
    ensures
        ElementKind::Association.spec_xmi_type() == "kerml:"@ + ElementKind::Association.spec_jsonld_type(),
        ElementKind::Association.spec_jsonld_type().len() > 0,
        ElementKind::Association.spec_xsi_type() == "sysml:"@ + ElementKind::Association.spec_jsonld_type(),
{
    lemma_suffix_kerml_Association();
    reveal_strlit("kerml:Association");
    reveal_strlit("kerml:");
    reveal_strlit("Association");
    reveal_strlit("sysml:Association");
    reveal_strlit("sysml:");
    assert(ElementKind::Association.spec_xmi_type() =~= "kerml:"@ + "Association"@);
    assert(ElementKind::Association.spec_xsi_type() =~= "sysml:"@ + "Association"@);
}

/// How the type names of `AssociationStructure` are built.
proof fn lemma_names_AssociationStructure()
    ensures
        ElementKind::AssociationStructure.spec_xmi_type() == "kerml:"@ + ElementKind::AssociationStructure.spec_jsonld_type(),
        ElementKind::AssociationStructure.spec_jsonld_type().len() > 0,
        ElementKind::AssociationStructure.spec_xsi_type() == "sysml:"@ + ElementKind::AssociationStructure.spec_jsonld_type(),
{
    lemma_suffix_kerml_AssociationStructure();
    reveal_strlit("kerml:AssociationStructure");
    reveal_strlit("kerml:");
    reveal_strlit("AssociationStructure");
    reveal_strlit("sysml:AssociationStructure");
    reveal_strlit("sysml:");
    assert(ElementKind::AssociationStructure.spec_xmi_type() =~= "kerml:"@ + "AssociationStructure"@);
    assert(ElementKind::AssociationStructure.spec_xsi_type() =~= "sysml:"@ + "AssociationStructure"@);
}

/// How the type names of `Interaction` are built.
proof fn lemma_names_Interaction()
    ensures
        ElementKind::Interaction.spec_xmi_type() == "kerml:"@ + ElementKind::Interaction.spec_jsonld_type(),
        ElementKind::Interaction.spec_jsonld_type().len() > 0,
        ElementKind::Interaction.spec_xsi_type() == "sysml:"@ + ElementKind::Interaction.spec_jsonld_type(),
{
    lemma_suffix_kerml_Interaction();
    reveal_strlit("kerml:Interaction");
    reveal_strlit("kerml:");
    reveal_strlit("Interaction");
    reveal_strlit("sysml:Interaction");
    reveal_strlit("sysml:");
    assert(ElementKind::Interaction.spec_xmi_type() =~= "kerml:"@ + "Interaction"@);
    assert(ElementKind::Interaction.spec_xsi_type() =~= "sysml:"@ + "Interaction"@);
}

/// How the type names of `Behavior` are built.
proof fn lemma_names_Behavior()
    ensures
        ElementKind::Behavior.spec_xmi_type() == "kerml:"@ + ElementKind::Behavior.spec_jsonld_type(),
        ElementKind::Behavior.spec_jsonld_type().len() > 0,
        ElementKind::Behavior.spec_xsi_type() == "sysml:"@ + ElementKind::Behavior.spec_jsonld_type(),
{
    lemma_suffix_kerml_Behavior();
    reveal_strlit("kerml:Behavior");
    reveal_strlit("kerml:");
    reveal_strlit("Behavior");
    reveal_strlit("sysml:Behavior");
    reveal_strlit("sysml:");
    assert(ElementKind::Behavior.spec_xmi_type() =~= "kerml:"@ + "Behavior"@);
    assert(ElementKind::Behavior.spec_xsi_type() =~= "sysml:"@ + "Behavior"@);
}

/// How the type names of `Function` are built.
proof fn lemma_names_Function()
    ensures
        ElementKind::Function.spec_xmi_type() == "kerml:"@ + ElementKind::Function.spec_jsonld_type(),
        ElementKind::Function.spec_jsonld_type().len() > 0,
        ElementKind::Function.spec_xsi_type() == "sysml:"@ + ElementKind::Function.spec_jsonld_type(),
{
    lemma_suffix_kerml_Function();
    reveal_strlit("kerml:Function");
    reveal_strlit("kerml:");
    reveal_strlit("Function");
    reveal_strlit("sysml:Function");
    reveal_strlit("sysml:");
    assert(ElementKind::Function.spec_xmi_type() =~= "kerml:"@ + "Function"@);
    assert(ElementKind::Function.spec_xsi_type() =~= "sysml:"@ + "Function"@);
}

/// How the type names of `Predicate` are built.
proof fn lemma_names_Predicate()
    ensures
        ElementKind::Predicate.spec_xmi_type() == "kerml:"@ + ElementKind::Predicate.spec_jsonld_type(),
        ElementKind::Predicate.spec_jsonld_type().len() > 0,
        ElementKind::Predicate.spec_xsi_type() == "sysml:"@ + ElementKind::Predicate.spec_jsonld_type(),
{
    lemma_suffix_kerml_Predicate();
    reveal_strlit("kerml:Predicate");
    reveal_strlit("kerml:");
    reveal_strlit("Predicate");
    reveal_strlit("sysml:Predicate");
    reveal_strlit("sysml:");
    assert(ElementKind::Predicate.spec_xmi_type() =~= "kerml:"@ + "Predicate"@);
    assert(ElementKind::Predicate.spec_xsi_type() =~= "sysml:"@ + "Predicate"@);
}

/// How the type names of `PartDefinition` are built.
proof fn lemma_names_PartDefinition()
    ensures
        ElementKind::PartDefinition.spec_xmi_type() == "sysml:"@ + ElementKind::PartDefinition.spec_jsonld_type(),
        ElementKind::PartDefinition.spec_jsonld_type().len() > 0,
        ElementKind::PartDefinition.spec_xsi_type() == "sysml:"@ + ElementKind::PartDefinition.spec_jsonld_type(),
{
    lemma_suffix_sysml_PartDefinition();
    reveal_strlit("sysml:PartDefinition");
    reveal_strlit("sysml:");
    reveal_strlit("PartDefinition");
    reveal_strlit("sysml:PartDefinition");
    reveal_strlit("sysml:");
    assert(ElementKind::PartDefinition.spec_xmi_type() =~= "sysml:"@ + "PartDefinition"@);
    assert(ElementKind::PartDefinition.spec_xsi_type() =~= "sysml:"@ + "PartDefinition"@);
}

/// How the type names of `ItemDefinition` are built.
proof fn lemma_names_ItemDefinition()
    ensures
        ElementKind::ItemDefinition.spec_xmi_type() == "sysml:"@ + ElementKind::ItemDefinition.spec_jsonld_type(),
        ElementKind::ItemDefinition.spec_jsonld_type().len() > 0,
        ElementKind::ItemDefinition.spec_xsi_type() == "sysml:"@ + ElementKind::ItemDefinition.spec_jsonld_type(),
{
    lemma_suffix_sysml_ItemDefinition();
    reveal_strlit("sysml:ItemDefinition");
    reveal_strlit("sysml:");
    reveal_strlit("ItemDefinition");
    reveal_strlit("sysml:ItemDefinition");
    reveal_strlit("sysml:");
    assert(ElementKind::ItemDefinition.spec_xmi_type() =~= "sysml:"@ + "ItemDefinition"@);
    assert(ElementKind::ItemDefinition.spec_xsi_type() =~= "sysml:"@ + "ItemDefinition"@);
}

/// How the type names of `ActionDefinition` are built.
proof fn lemma_names_ActionDefinition()
    ensures
        ElementKind::ActionDefinition.spec_xmi_type() == "sysml:"@ + ElementKind::ActionDefinition.spec_jsonld_type(),
        ElementKind::ActionDefinition.spec_jsonld_type().len() > 0,
        ElementKind::ActionDefinition.spec_xsi_type() == "sysml:"@ + ElementKind::ActionDefinition.spec_jsonld_type(),
{
    lemma_suffix_sysml_ActionDefinition();
    reveal_strlit("sysml:ActionDefinition");
    reveal_strlit("sysml:");
    reveal_strlit("ActionDefinition");
    reveal_strlit("sysml:ActionDefinition");
    reveal_strlit("sysml:");
    assert(ElementKind::ActionDefinition.spec_xmi_type() =~= "sysml:"@ + "ActionDefinition"@);
    assert(ElementKind::ActionDefinition.spec_xsi_type() =~= "sysml:"@ + "ActionDefinition"@);
}

/// How the type names of `PortDefinition` are built.
proof fn lemma_names_PortDefinition()
    ensures
        ElementKind::PortDefinition.spec_xmi_type() == "sysml:"@ + ElementKind::PortDefinition.spec_jsonld_type(),
        ElementKind::PortDefinition.spec_jsonld_type().len() > 0,
        ElementKind::PortDefinition.spec_xsi_type() == "sysml:"@ + ElementKind::PortDefinition.spec_jsonld_type(),
{
    lemma_suffix_sysml_PortDefinition();
    reveal_strlit("sysml:PortDefinition");
    reveal_strlit("sysml:");
    reveal_strlit("PortDefinition");
    reveal_strlit("sysml:PortDefinition");
    reveal_strlit("sysml:");
    assert(ElementKind::PortDefinition.spec_xmi_type() =~= "sysml:"@ + "PortDefinition"@);
    assert(ElementKind::PortDefinition.spec_xsi_type() =~= "sysml:"@ + "PortDefinition"@);
}

/// How the type names of `AttributeDefinition` are built.
proof fn lemma_names_AttributeDefinition()
    ensures
        ElementKind::AttributeDefinition.spec_xmi_type() == "sysml:"@ + ElementKind::AttributeDefinition.spec_jsonld_type(),
        ElementKind::AttributeDefinition.spec_jsonld_type().len() > 0,
        ElementKind::AttributeDefinition.spec_xsi_type() == "sysml:"@ + ElementKind::AttributeDefinition.spec_jsonld_type(),
{
    lemma_suffix_sysml_AttributeDefinition();
    reveal_strlit("sysml:AttributeDefinition");
    reveal_strlit("sysml:");
    reveal_strlit("AttributeDefinition");
    reveal_strlit("sysml:AttributeDefinition");
    reveal_strlit("sysml:");
    assert(ElementKind::AttributeDefinition.spec_xmi_type() =~= "sysml:"@ + "AttributeDefinition"@);
    assert(ElementKind::AttributeDefinition.spec_xsi_type() =~= "sysml:"@ + "AttributeDefinition"@);
}

/// How the type names of `ConnectionDefinition` are built.
proof fn lemma_names_ConnectionDefinition()
    ensures
        ElementKind::ConnectionDefinition.spec_xmi_type() == "sysml:"@ + ElementKind::ConnectionDefinition.spec_jsonld_type(),
        ElementKind::ConnectionDefinition.spec_jsonld_type().len() > 0,
        ElementKind::ConnectionDefinition.spec_xsi_type() == "sysml:"@ + ElementKind::ConnectionDefinition.spec_jsonld_type(),
{
    lemma_suffix_sysml_ConnectionDefinition();
    reveal_strlit("sysml:ConnectionDefinition");
    reveal_strlit("sysml:");
    reveal_strlit("ConnectionDefinition");
    reveal_strlit("sysml:ConnectionDefinition");
    reveal_strlit("sysml:");
    assert(ElementKind::ConnectionDefinition.spec_xmi_type() =~= "sysml:"@ + "ConnectionDefinition"@);
    assert(ElementKind::ConnectionDefinition.spec_xsi_type() =~= "sysml:"@ + "ConnectionDefinition"@);
}

/// How the type names of `InterfaceDefinition` are built.
proof fn lemma_names_InterfaceDefinition()
    ensures
        ElementKind::InterfaceDefinition.spec_xmi_type() == "sysml:"@ + ElementKind::InterfaceDefinition.spec_jsonld_type(),
        ElementKind::InterfaceDefinition.spec_jsonld_type().len() > 0,
        ElementKind::InterfaceDefinition.spec_xsi_type() == "sysml:"@ + ElementKind::InterfaceDefinition.spec_jsonld_type(),
{
    lemma_suffix_sysml_InterfaceDefinition();
    reveal_strlit("sysml:InterfaceDefinition");
    reveal_strlit("sysml:");
    reveal_strlit("InterfaceDefinition");
    reveal_strlit("sysml:InterfaceDefinition");
    reveal_strlit("sysml:");
    assert(ElementKind::InterfaceDefinition.spec_xmi_type() =~= "sysml:"@ + "InterfaceDefinition"@);
    assert(ElementKind::InterfaceDefinition.spec_xsi_type() =~= "sysml:"@ + "InterfaceDefinition"@);
}

/// How the type names of `AllocationDefinition` are built.
proof fn lemma_names_AllocationDefinition()
    ensures
        ElementKind::AllocationDefinition.spec_xmi_type() == "sysml:"@ + ElementKind::AllocationDefinition.spec_jsonld_type(),
        ElementKind::AllocationDefinition.spec_jsonld_type().len() > 0,
        ElementKind::AllocationDefinition.spec_xsi_type() == "sysml:"@ + ElementKind::AllocationDefinition.spec_jsonld_type(),
{
    lemma_suffix_sysml_AllocationDefinition();
    reveal_strlit("sysml:AllocationDefinition");
    reveal_strlit("sysml:");
    reveal_strlit("AllocationDefinition");
    reveal_strlit("sysml:AllocationDefinition");
    reveal_strlit("sysml:");
    assert(ElementKind::AllocationDefinition.spec_xmi_type() =~= "sysml:"@ + "AllocationDefinition"@);
    assert(ElementKind::AllocationDefinition.spec_xsi_type() =~= "sysml:"@ + "AllocationDefinition"@);
}

/// How the type names of `RequirementDefinition` are built.
proof fn lemma_names_RequirementDefinition()
    ensures
        ElementKind::RequirementDefinition.spec_xmi_type() == "sysml:"@ + ElementKind::RequirementDefinition.spec_jsonld_type(),
        ElementKind::RequirementDefinition.spec_jsonld_type().len() > 0,
        ElementKind::RequirementDefinition.spec_xsi_type() == "sysml:"@ + ElementKind::RequirementDefinition.spec_jsonld_type(),
{
    lemma_suffix_sysml_RequirementDefinition();
    reveal_strlit("sysml:RequirementDefinition");
    reveal_strlit("sysml:");
    reveal_strlit("RequirementDefinition");
    reveal_strlit("sysml:RequirementDefinition");
    reveal_strlit("sysml:");
    assert(ElementKind::RequirementDefinition.spec_xmi_type() =~= "sysml:"@ + "RequirementDefinition"@);
    assert(ElementKind::RequirementDefinition.spec_xsi_type() =~= "sysml:"@ + "RequirementDefinition"@);
}

/// How the type names of `ConstraintDefinition` are built.
proof fn lemma_names_ConstraintDefinition()
    ensures
        ElementKind::ConstraintDefinition.spec_xmi_type() == "sysml:"@ + ElementKind::ConstraintDefinition.spec_jsonld_type(),
        ElementKind::ConstraintDefinition.spec_jsonld_type().len() > 0,
        ElementKind::ConstraintDefinition.spec_xsi_type() == "sysml:"@ + ElementKind::ConstraintDefinition.spec_jsonld_type(),
{
    lemma_suffix_sysml_ConstraintDefinition();
    reveal_strlit("sysml:ConstraintDefinition");
    reveal_strlit("sysml:");
    reveal_strlit("ConstraintDefinition");
    reveal_strlit("sysml:ConstraintDefinition");
    reveal_strlit("sysml:");
    assert(ElementKind::ConstraintDefinition.spec_xmi_type() =~= "sysml:"@ + "ConstraintDefinition"@);
    assert(ElementKind::ConstraintDefinition.spec_xsi_type() =~= "sysml:"@ + "ConstraintDefinition"@);
}

/// How the type names of `StateDefinition` are built.
proof fn lemma_names_StateDefinition()
    ensures
        ElementKind::StateDefinition.spec_xmi_type() == "sysml:"@ + ElementKind::StateDefinition.spec_jsonld_type(),
        ElementKind::StateDefinition.spec_jsonld_type().len() > 0,
        ElementKind::StateDefinition.spec_xsi_type() == "sysml:"@ + ElementKind::StateDefinition.spec_jsonld_type(),
{
    lemma_suffix_sysml_StateDefinition();
    reveal_strlit("sysml:StateDefinition");
    reveal_strlit("sysml:");
    reveal_strlit("StateDefinition");
    reveal_strlit("sysml:StateDefinition");
    reveal_strlit("sysml:");
    assert(ElementKind::StateDefinition.spec_xmi_type() =~= "sysml:"@ + "StateDefinition"@);
    assert(ElementKind::StateDefinition.spec_xsi_type() =~= "sysml:"@ + "StateDefinition"@);
}

/// How the type names of `CalculationDefinition` are built.
proof fn lemma_names_CalculationDefinition()
    ensures
        ElementKind::CalculationDefinition.spec_xmi_type() == "sysml:"@ + ElementKind::CalculationDefinition.spec_jsonld_type(),
        ElementKind::CalculationDefinition.spec_jsonld_type().len() > 0,
        ElementKind::CalculationDefinition.spec_xsi_type() == "sysml:"@ + ElementKind::CalculationDefinition.spec_jsonld_type(),
{
    lemma_suffix_sysml_CalculationDefinition();
    reveal_strlit("sysml:CalculationDefinition");
    reveal_strlit("sysml:");
    reveal_strlit("CalculationDefinition");
    reveal_strlit("sysml:CalculationDefinition");
    reveal_strlit("sysml:");
    assert(ElementKind::CalculationDefinition.spec_xmi_type() =~= "sysml:"@ + "CalculationDefinition"@);
    assert(ElementKind::CalculationDefinition.spec_xsi_type() =~= "sysml:"@ + "CalculationDefinition"@);
}

/// How the type names of `OccurrenceDefinition` are built.
proof fn lemma_names_OccurrenceDefinition()
    ensures
        ElementKind::OccurrenceDefinition.spec_xmi_type() == "sysml:"@ + ElementKind::OccurrenceDefinition.spec_jsonld_type(),
        ElementKind::OccurrenceDefinition.spec_jsonld_type().len() > 0,
        ElementKind::OccurrenceDefinition.spec_xsi_type() == "sysml:"@ + ElementKind::OccurrenceDefinition.spec_jsonld_type(),
{
    lemma_suffix_sysml_OccurrenceDefinition();
    reveal_strlit("sysml:OccurrenceDefinition");
    reveal_strlit("sysml:");
    reveal_strlit("OccurrenceDefinition");
    reveal_strlit("sysml:OccurrenceDefinition");
    reveal_strlit("sysml:");
    assert(ElementKind::OccurrenceDefinition.spec_xmi_type() =~= "sysml:"@ + "OccurrenceDefinition"@);
    assert(ElementKind::OccurrenceDefinition.spec_xsi_type() =~= "sysml:"@ + "OccurrenceDefinition"@);
}

/// How the type names of `UseCaseDefinition` are built.
proof fn lemma_names_UseCaseDefinition()
    ensures
        ElementKind::UseCaseDefinition.spec_xmi_type() == "sysml:"@ + ElementKind::UseCaseDefinition.spec_jsonld_type(),
        ElementKind::UseCaseDefinition.spec_jsonld_type().len() > 0,
        ElementKind::UseCaseDefinition.spec_xsi_type() == "sysml:"@ + ElementKind::UseCaseDefinition.spec_jsonld_type(),
{
    lemma_suffix_sysml_UseCaseDefinition();
    reveal_strlit("sysml:UseCaseDefinition");
    reveal_strlit("sysml:");
    reveal_strlit("UseCaseDefinition");
    reveal_strlit("sysml:UseCaseDefinition");
    reveal_strlit("sysml:");
    assert(ElementKind::UseCaseDefinition.spec_xmi_type() =~= "sysml:"@ + "UseCaseDefinition"@);
    assert(ElementKind::UseCaseDefinition.spec_xsi_type() =~= "sysml:"@ + "UseCaseDefinition"@);
}

/// How the type names of `AnalysisCaseDefinition` are built.
proof fn lemma_names_AnalysisCaseDefinition()
    ensures
        ElementKind::AnalysisCaseDefinition.spec_xmi_type() == "sysml:"@ + ElementKind::AnalysisCaseDefinition.spec_jsonld_type(),
        ElementKind::AnalysisCaseDefinition.spec_jsonld_type().len() > 0,
        ElementKind::AnalysisCaseDefinition.spec_xsi_type() == "sysml:"@ + ElementKind::AnalysisCaseDefinition.spec_jsonld_type(),
{
    lemma_suffix_sysml_AnalysisCaseDefinition();
    reveal_strlit("sysml:AnalysisCaseDefinition");
    reveal_strlit("sysml:");
    reveal_strlit("AnalysisCaseDefinition");
    reveal_strlit("sysml:AnalysisCaseDefinition");
    reveal_strlit("sysml:");
    assert(ElementKind::AnalysisCaseDefinition.spec_xmi_type() =~= "sysml:"@ + "AnalysisCaseDefinition"@);
    assert(ElementKind::AnalysisCaseDefinition.spec_xsi_type() =~= "sysml:"@ + "AnalysisCaseDefinition"@);
}

/// How the type names of `VerificationCaseDefinition` are built.
proof fn lemma_names_VerificationCaseDefinition()
    ensures
        ElementKind::VerificationCaseDefinition.spec_xmi_type() == "sysml:"@ + ElementKind::VerificationCaseDefinition.spec_jsonld_type(),
        ElementKind::VerificationCaseDefinition.spec_jsonld_type().len() > 0,
        ElementKind::VerificationCaseDefinition.spec_xsi_type() == "sysml:"@ + ElementKind::VerificationCaseDefinition.spec_jsonld_type(),
{
    lemma_suffix_sysml_VerificationCaseDefinition();
    reveal_strlit("sysml:VerificationCaseDefinition");
    reveal_strlit("sysml:");
    reveal_strlit("VerificationCaseDefinition");
    reveal_strlit("sysml:VerificationCaseDefinition");
    reveal_strlit("sysml:");
    assert(ElementKind::VerificationCaseDefinition.spec_xmi_type() =~= "sysml:"@ + "VerificationCaseDefinition"@);
    assert(ElementKind::VerificationCaseDefinition.spec_xsi_type() =~= "sysml:"@ + "VerificationCaseDefinition"@);
}

/// How the type names of `ConcernDefinition` are built.
proof fn lemma_names_ConcernDefinition()
    ensures
        ElementKind::ConcernDefinition.spec_xmi_type() == "sysml:"@ + ElementKind::ConcernDefinition.spec_jsonld_type(),
        ElementKind::ConcernDefinition.spec_jsonld_type().len() > 0,
        ElementKind::ConcernDefinition.spec_xsi_type() == "sysml:"@ + ElementKind::ConcernDefinition.spec_jsonld_type(),
{
    lemma_suffix_sysml_ConcernDefinition();
    reveal_strlit("sysml:ConcernDefinition");
    reveal_strlit("sysml:");
    reveal_strlit("ConcernDefinition");
    reveal_strlit("sysml:ConcernDefinition");
    reveal_strlit("sysml:");
    assert(ElementKind::ConcernDefinition.spec_xmi_type() =~= "sysml:"@ + "ConcernDefinition"@);
    assert(ElementKind::ConcernDefinition.spec_xsi_type() =~= "sysml:"@ + "ConcernDefinition"@);
}

/// How the type names of `ViewDefinition` are built.
proof fn lemma_names_ViewDefinition()
    ensures
        ElementKind::ViewDefinition.spec_xmi_type() == "sysml:"@ + ElementKind::ViewDefinition.spec_jsonld_type(),
        ElementKind::ViewDefinition.spec_jsonld_type().len() > 0,
        ElementKind::ViewDefinition.spec_xsi_type() == "sysml:"@ + ElementKind::ViewDefinition.spec_jsonld_type(),
{
    lemma_suffix_sysml_ViewDefinition();
    reveal_strlit("sysml:ViewDefinition");
    reveal_strlit("sysml:");
    reveal_strlit("ViewDefinition");
    reveal_strlit("sysml:ViewDefinition");
    reveal_strlit("sysml:");
    assert(ElementKind::ViewDefinition.spec_xmi_type() =~= "sysml:"@ + "ViewDefinition"@);
    assert(ElementKind::ViewDefinition.spec_xsi_type() =~= "sysml:"@ + "ViewDefinition"@);
}

/// How the type names of `ViewpointDefinition` are built.
proof fn lemma_names_ViewpointDefinition()
    ensures
        ElementKind::ViewpointDefinition.spec_xmi_type() == "sysml:"@ + ElementKind::ViewpointDefinition.spec_jsonld_type(),
        ElementKind::ViewpointDefinition.spec_jsonld_type().len() > 0,
        ElementKind::ViewpointDefinition.spec_xsi_type() == "sysml:"@ + ElementKind::ViewpointDefinition.spec_jsonld_type(),
{
    lemma_suffix_sysml_ViewpointDefinition();
    reveal_strlit("sysml:ViewpointDefinition");
    reveal_strlit("sysml:");
    reveal_strlit("ViewpointDefinition");
    reveal_strlit("sysml:ViewpointDefinition");
    reveal_strlit("sysml:");
    assert(ElementKind::ViewpointDefinition.spec_xmi_type() =~= "sysml:"@ + "ViewpointDefinition"@);
    assert(ElementKind::ViewpointDefinition.spec_xsi_type() =~= "sysml:"@ + "ViewpointDefinition"@);
}

/// How the type names of `RenderingDefinition` are built.
proof fn lemma_names_RenderingDefinition()
    ensures
        ElementKind::RenderingDefinition.spec_xmi_type() == "sysml:"@ + ElementKind::RenderingDefinition.spec_jsonld_type(),
        ElementKind::RenderingDefinition.spec_jsonld_type().len() > 0,
        ElementKind::RenderingDefinition.spec_xsi_type() == "sysml:"@ + ElementKind::RenderingDefinition.spec_jsonld_type(),
{
    lemma_suffix_sysml_RenderingDefinition();
    reveal_strlit("sysml:RenderingDefinition");
    reveal_strlit("sysml:");
    reveal_strlit("RenderingDefinition");
    reveal_strlit("sysml:RenderingDefinition");
    reveal_strlit("sysml:");
    assert(ElementKind::RenderingDefinition.spec_xmi_type() =~= "sysml:"@ + "RenderingDefinition"@);
    assert(ElementKind::RenderingDefinition.spec_xsi_type() =~= "sysml:"@ + "RenderingDefinition"@);
}

/// How the type names of `EnumerationDefinition` are built.
proof fn lemma_names_EnumerationDefinition()
    ensures
        ElementKind::EnumerationDefinition.spec_xmi_type() == "sysml:"@ + ElementKind::EnumerationDefinition.spec_jsonld_type(),
        ElementKind::EnumerationDefinition.spec_jsonld_type().len() > 0,
        ElementKind::EnumerationDefinition.spec_xsi_type() == "sysml:"@ + ElementKind::EnumerationDefinition.spec_jsonld_type(),
{
    lemma_suffix_sysml_EnumerationDefinition();
    reveal_strlit("sysml:EnumerationDefinition");
    reveal_strlit("sysml:");
    reveal_strlit("EnumerationDefinition");
    reveal_strlit("sysml:EnumerationDefinition");
    reveal_strlit("sysml:");
    assert(ElementKind::EnumerationDefinition.spec_xmi_type() =~= "sysml:"@ + "EnumerationDefinition"@);
    assert(ElementKind::EnumerationDefinition.spec_xsi_type() =~= "sysml:"@ + "EnumerationDefinition"@);
}

/// How the type names of `MetadataDefinition` are built.
proof fn lemma_names_MetadataDefinition()
    ensures
        ElementKind::MetadataDefinition.spec_xmi_type() == "sysml:"@ + ElementKind::MetadataDefinition.spec_jsonld_type(),
        ElementKind::MetadataDefinition.spec_jsonld_type().len() > 0,
        ElementKind::MetadataDefinition.spec_xsi_type() == "sysml:"@ + ElementKind::MetadataDefinition.spec_jsonld_type(),
{
    lemma_suffix_sysml_MetadataDefinition();
    reveal_strlit("sysml:MetadataDefinition");
    reveal_strlit("sysml:");
    reveal_strlit("MetadataDefinition");
    reveal_strlit("sysml:MetadataDefinition");
    reveal_strlit("sysml:");
    assert(ElementKind::MetadataDefinition.spec_xmi_type() =~= "sysml:"@ + "MetadataDefinition"@);
    assert(ElementKind::MetadataDefinition.spec_xsi_type() =~= "sysml:"@ + "MetadataDefinition"@);
}

/// How the type names of `PartUsage` are built.
proof fn lemma_names_PartUsage()
    ensures
        ElementKind::PartUsage.spec_xmi_type() == "sysml:"@ + ElementKind::PartUsage.spec_jsonld_type(),
        ElementKind::PartUsage.spec_jsonld_type().len() > 0,
        ElementKind::PartUsage.spec_xsi_type() == "sysml:"@ + ElementKind::PartUsage.spec_jsonld_type(),
{
    lemma_suffix_sysml_PartUsage();
    reveal_strlit("sysml:PartUsage");
    reveal_strlit("sysml:");
    reveal_strlit("PartUsage");
    reveal_strlit("sysml:PartUsage");
    reveal_strlit("sysml:");
    assert(ElementKind::PartUsage.spec_xmi_type() =~= "sysml:"@ + "PartUsage"@);
    assert(ElementKind::PartUsage.spec_xsi_type() =~= "sysml:"@ + "PartUsage"@);
}

/// How the type names of `ItemUsage` are built.
proof fn lemma_names_ItemUsage()
    ensures
        ElementKind::ItemUsage.spec_xmi_type() == "sysml:"@ + ElementKind::ItemUsage.spec_jsonld_type(),
        ElementKind::ItemUsage.spec_jsonld_type().len() > 0,
        ElementKind::ItemUsage.spec_xsi_type() == "sysml:"@ + ElementKind::ItemUsage.spec_jsonld_type(),
{
    lemma_suffix_sysml_ItemUsage();
    reveal_strlit("sysml:ItemUsage");
    reveal_strlit("sysml:");
    reveal_strlit("ItemUsage");
    reveal_strlit("sysml:ItemUsage");
    reveal_strlit("sysml:");
    assert(ElementKind::ItemUsage.spec_xmi_type() =~= "sysml:"@ + "ItemUsage"@);
    assert(ElementKind::ItemUsage.spec_xsi_type() =~= "sysml:"@ + "ItemUsage"@);
}

/// How the type names of `ActionUsage` are built.
proof fn lemma_names_ActionUsage()
    ensures
        ElementKind::ActionUsage.spec_xmi_type() == "sysml:"@ + ElementKind::ActionUsage.spec_jsonld_type(),
        ElementKind::ActionUsage.spec_jsonld_type().len() > 0,
        ElementKind::ActionUsage.spec_xsi_type() == "sysml:"@ + ElementKind::ActionUsage.spec_jsonld_type(),
{
    lemma_suffix_sysml_ActionUsage();
    reveal_strlit("sysml:ActionUsage");
    reveal_strlit("sysml:");
    reveal_strlit("ActionUsage");
    reveal_strlit("sysml:ActionUsage");
    reveal_strlit("sysml:");
    assert(ElementKind::ActionUsage.spec_xmi_type() =~= "sysml:"@ + "ActionUsage"@);
    assert(ElementKind::ActionUsage.spec_xsi_type() =~= "sysml:"@ + "ActionUsage"@);
}

/// How the type names of `PortUsage` are built.
proof fn lemma_names_PortUsage()
    ensures
        ElementKind::PortUsage.spec_xmi_type() == "sysml:"@ + ElementKind::PortUsage.spec_jsonld_type(),
        ElementKind::PortUsage.spec_jsonld_type().len() > 0,
        ElementKind::PortUsage.spec_xsi_type() == "sysml:"@ + ElementKind::PortUsage.spec_jsonld_type(),
{
    lemma_suffix_sysml_PortUsage();
    reveal_strlit("sysml:PortUsage");
    reveal_strlit("sysml:");
    reveal_strlit("PortUsage");
    reveal_strlit("sysml:PortUsage");
    reveal_strlit("sysml:");
    assert(ElementKind::PortUsage.spec_xmi_type() =~= "sysml:"@ + "PortUsage"@);
    assert(ElementKind::PortUsage.spec_xsi_type() =~= "sysml:"@ + "PortUsage"@);
}

/// How the type names of `AttributeUsage` are built.
proof fn lemma_names_AttributeUsage()
    ensures
        ElementKind::AttributeUsage.spec_xmi_type() == "sysml:"@ + ElementKind::AttributeUsage.spec_jsonld_type(),
        ElementKind::AttributeUsage.spec_jsonld_type().len() > 0,
        ElementKind::AttributeUsage.spec_xsi_type() == "sysml:"@ + ElementKind::AttributeUsage.spec_jsonld_type(),
{
    lemma_suffix_sysml_AttributeUsage();
    reveal_strlit("sysml:AttributeUsage");
    reveal_strlit("sysml:");
    reveal_strlit("AttributeUsage");
    reveal_strlit("sysml:AttributeUsage");
    reveal_strlit("sysml:");
    assert(ElementKind::AttributeUsage.spec_xmi_type() =~= "sysml:"@ + "AttributeUsage"@);
    assert(ElementKind::AttributeUsage.spec_xsi_type() =~= "sysml:"@ + "AttributeUsage"@);
}

/// How the type names of `ConnectionUsage` are built.
proof fn lemma_names_ConnectionUsage()
    ensures
        ElementKind::ConnectionUsage.spec_xmi_type() == "sysml:"@ + ElementKind::ConnectionUsage.spec_jsonld_type(),
        ElementKind::ConnectionUsage.spec_jsonld_type().len() > 0,
        ElementKind::ConnectionUsage.spec_xsi_type() == "sysml:"@ + ElementKind::ConnectionUsage.spec_jsonld_type(),
{
    lemma_suffix_sysml_ConnectionUsage();
    reveal_strlit("sysml:ConnectionUsage");
    reveal_strlit("sysml:");
    reveal_strlit("ConnectionUsage");
    reveal_strlit("sysml:ConnectionUsage");
    reveal_strlit("sysml:");
    assert(ElementKind::ConnectionUsage.spec_xmi_type() =~= "sysml:"@ + "ConnectionUsage"@);
    assert(ElementKind::ConnectionUsage.spec_xsi_type() =~= "sysml:"@ + "ConnectionUsage"@);
}

/// How the type names of `InterfaceUsage` are built.
proof fn lemma_names_InterfaceUsage()
    ensures
        ElementKind::InterfaceUsage.spec_xmi_type() == "sysml:"@ + ElementKind::InterfaceUsage.spec_jsonld_type(),
        ElementKind::InterfaceUsage.spec_jsonld_type().len() > 0,
        ElementKind::InterfaceUsage.spec_xsi_type() == "sysml:"@ + ElementKind::InterfaceUsage.spec_jsonld_type(),
{
    lemma_suffix_sysml_InterfaceUsage();
    reveal_strlit("sysml:InterfaceUsage");
    reveal_strlit("sysml:");
    reveal_strlit("InterfaceUsage");
    reveal_strlit("sysml:InterfaceUsage");
    reveal_strlit("sysml:");
    assert(ElementKind::InterfaceUsage.spec_xmi_type() =~= "sysml:"@ + "InterfaceUsage"@);
    assert(ElementKind::InterfaceUsage.spec_xsi_type() =~= "sysml:"@ + "InterfaceUsage"@);
}

/// How the type names of `AllocationUsage` are built.
proof fn lemma_names_AllocationUsage()
    ensures
        ElementKind::AllocationUsage.spec_xmi_type() == "sysml:"@ + ElementKind::AllocationUsage.spec_jsonld_type(),
        ElementKind::AllocationUsage.spec_jsonld_type().len() > 0,
        ElementKind::AllocationUsage.spec_xsi_type() == "sysml:"@ + ElementKind::AllocationUsage.spec_jsonld_type(),
{
    lemma_suffix_sysml_AllocationUsage();
    reveal_strlit("sysml:AllocationUsage");
    reveal_strlit("sysml:");
    reveal_strlit("AllocationUsage");
    reveal_strlit("sysml:AllocationUsage");
    reveal_strlit("sysml:");
    assert(ElementKind::AllocationUsage.spec_xmi_type() =~= "sysml:"@ + "AllocationUsage"@);
    assert(ElementKind::AllocationUsage.spec_xsi_type() =~= "sysml:"@ + "AllocationUsage"@);
}

/// How the type names of `RequirementUsage` are built.
proof fn lemma_names_RequirementUsage()
    ensures
        ElementKind::RequirementUsage.spec_xmi_type() == "sysml:"@ + ElementKind::RequirementUsage.spec_jsonld_type(),
        ElementKind::RequirementUsage.spec_jsonld_type().len() > 0,
        ElementKind::RequirementUsage.spec_xsi_type() == "sysml:"@ + ElementKind::RequirementUsage.spec_jsonld_type(),
{
    lemma_suffix_sysml_RequirementUsage();
    reveal_strlit("sysml:RequirementUsage");
    reveal_strlit("sysml:");
    reveal_strlit("RequirementUsage");
    reveal_strlit("sysml:RequirementUsage");
    reveal_strlit("sysml:");
    assert(ElementKind::RequirementUsage.spec_xmi_type() =~= "sysml:"@ + "RequirementUsage"@);
    assert(ElementKind::RequirementUsage.spec_xsi_type() =~= "sysml:"@ + "RequirementUsage"@);
}

/// How the type names of `ConstraintUsage` are built.
proof fn lemma_names_ConstraintUsage()
    ensures
        ElementKind::ConstraintUsage.spec_xmi_type() == "sysml:"@ + ElementKind::ConstraintUsage.spec_jsonld_type(),
        ElementKind::ConstraintUsage.spec_jsonld_type().len() > 0,
        ElementKind::ConstraintUsage.spec_xsi_type() == "sysml:"@ + ElementKind::ConstraintUsage.spec_jsonld_type(),
{
    lemma_suffix_sysml_ConstraintUsage();
    reveal_strlit("sysml:ConstraintUsage");
    reveal_strlit("sysml:");
    reveal_strlit("ConstraintUsage");
    reveal_strlit("sysml:ConstraintUsage");
    reveal_strlit("sysml:");
    assert(ElementKind::ConstraintUsage.spec_xmi_type() =~= "sysml:"@ + "ConstraintUsage"@);
    assert(ElementKind::ConstraintUsage.spec_xsi_type() =~= "sysml:"@ + "ConstraintUsage"@);
}

/// How the type names of `StateUsage` are built.
proof fn lemma_names_StateUsage()
    ensures
        ElementKind::StateUsage.spec_xmi_type() == "sysml:"@ + ElementKind::StateUsage.spec_jsonld_type(),
        ElementKind::StateUsage.spec_jsonld_type().len() > 0,
        ElementKind::StateUsage.spec_xsi_type() == "sysml:"@ + ElementKind::StateUsage.spec_jsonld_type(),
{
    lemma_suffix_sysml_StateUsage();
    reveal_strlit("sysml:StateUsage");
    reveal_strlit("sysml:");
    reveal_strlit("StateUsage");
    reveal_strlit("sysml:StateUsage");
    reveal_strlit("sysml:");
    assert(ElementKind::StateUsage.spec_xmi_type() =~= "sysml:"@ + "StateUsage"@);
    assert(ElementKind::StateUsage.spec_xsi_type() =~= "sysml:"@ + "StateUsage"@);
}

/// How the type names of `TransitionUsage` are built.
proof fn lemma_names_TransitionUsage()
    ensures
        ElementKind::TransitionUsage.spec_xmi_type() == "sysml:"@ + ElementKind::TransitionUsage.spec_jsonld_type(),
        ElementKind::TransitionUsage.spec_jsonld_type().len() > 0,
        ElementKind::TransitionUsage.spec_xsi_type() == "sysml:"@ + ElementKind::TransitionUsage.spec_jsonld_type(),
{
    lemma_suffix_sysml_TransitionUsage();
    reveal_strlit("sysml:TransitionUsage");
    reveal_strlit("sysml:");
    reveal_strlit("TransitionUsage");
    reveal_strlit("sysml:TransitionUsage");
    reveal_strlit("sysml:");
    assert(ElementKind::TransitionUsage.spec_xmi_type() =~= "sysml:"@ + "TransitionUsage"@);
    assert(ElementKind::TransitionUsage.spec_xsi_type() =~= "sysml:"@ + "TransitionUsage"@);
}

/// How the type names of `CalculationUsage` are built.
proof fn lemma_names_CalculationUsage()
    ensures
        ElementKind::CalculationUsage.spec_xmi_type() == "sysml:"@ + ElementKind::CalculationUsage.spec_jsonld_type(),
        ElementKind::CalculationUsage.spec_jsonld_type().len() > 0,
        ElementKind::CalculationUsage.spec_xsi_type() == "sysml:"@ + ElementKind::CalculationUsage.spec_jsonld_type(),
{
    lemma_suffix_sysml_CalculationUsage();
    reveal_strlit("sysml:CalculationUsage");
    reveal_strlit("sysml:");
    reveal_strlit("CalculationUsage");
    reveal_strlit("sysml:CalculationUsage");
    reveal_strlit("sysml:");
    assert(ElementKind::CalculationUsage.spec_xmi_type() =~= "sysml:"@ + "CalculationUsage"@);
    assert(ElementKind::CalculationUsage.spec_xsi_type() =~= "sysml:"@ + "CalculationUsage"@);
}

/// How the type names of `ReferenceUsage` are built.
proof fn lemma_names_ReferenceUsage()
    ensures
        ElementKind::ReferenceUsage.spec_xmi_type() == "sysml:"@ + ElementKind::ReferenceUsage.spec_jsonld_type(),
        ElementKind::ReferenceUsage.spec_jsonld_type().len() > 0,
        ElementKind::ReferenceUsage.spec_xsi_type() == "sysml:"@ + ElementKind::ReferenceUsage.spec_jsonld_type(),
{
    lemma_suffix_sysml_ReferenceUsage();
    reveal_strlit("sysml:ReferenceUsage");
    reveal_strlit("sysml:");
    reveal_strlit("ReferenceUsage");
    reveal_strlit("sysml:ReferenceUsage");
    reveal_strlit("sysml:");
    assert(ElementKind::ReferenceUsage.spec_xmi_type() =~= "sysml:"@ + "ReferenceUsage"@);
    assert(ElementKind::ReferenceUsage.spec_xsi_type() =~= "sysml:"@ + "ReferenceUsage"@);
}

/// How the type names of `OccurrenceUsage` are built.
proof fn lemma_names_OccurrenceUsage()
    ensures
        ElementKind::OccurrenceUsage.spec_xmi_type() == "sysml:"@ + ElementKind::OccurrenceUsage.spec_jsonld_type(),
        ElementKind::OccurrenceUsage.spec_jsonld_type().len() > 0,
        ElementKind::OccurrenceUsage.spec_xsi_type() == "sysml:"@ + ElementKind::OccurrenceUsage.spec_jsonld_type(),
{
    lemma_suffix_sysml_OccurrenceUsage();
    reveal_strlit("sysml:OccurrenceUsage");
    reveal_strlit("sysml:");
    reveal_strlit("OccurrenceUsage");
    reveal_strlit("sysml:OccurrenceUsage");
    reveal_strlit("sysml:");
    assert(ElementKind::OccurrenceUsage.spec_xmi_type() =~= "sysml:"@ + "OccurrenceUsage"@);
    assert(ElementKind::OccurrenceUsage.spec_xsi_type() =~= "sysml:"@ + "OccurrenceUsage"@);
}

/// How the type names of `UseCaseUsage` are built.
proof fn lemma_names_UseCaseUsage()
    ensures
        ElementKind::UseCaseUsage.spec_xmi_type() == "sysml:"@ + ElementKind::UseCaseUsage.spec_jsonld_type(),
        ElementKind::UseCaseUsage.spec_jsonld_type().len() > 0,
        ElementKind::UseCaseUsage.spec_xsi_type() == "sysml:"@ + ElementKind::UseCaseUsage.spec_jsonld_type(),
{
    lemma_suffix_sysml_UseCaseUsage();
    reveal_strlit("sysml:UseCaseUsage");
    reveal_strlit("sysml:");
    reveal_strlit("UseCaseUsage");
    reveal_strlit("sysml:UseCaseUsage");
    reveal_strlit("sysml:");
    assert(ElementKind::UseCaseUsage.spec_xmi_type() =~= "sysml:"@ + "UseCaseUsage"@);
    assert(ElementKind::UseCaseUsage.spec_xsi_type() =~= "sysml:"@ + "UseCaseUsage"@);
}

/// How the type names of `AnalysisCaseUsage` are built.
proof fn lemma_names_AnalysisCaseUsage()
    ensures
        ElementKind::AnalysisCaseUsage.spec_xmi_type() == "sysml:"@ + ElementKind::AnalysisCaseUsage.spec_jsonld_type(),
        ElementKind::AnalysisCaseUsage.spec_jsonld_type().len() > 0,
        ElementKind::AnalysisCaseUsage.spec_xsi_type() == "sysml:"@ + ElementKind::AnalysisCaseUsage.spec_jsonld_type(),
{
    lemma_suffix_sysml_AnalysisCaseUsage();
    reveal_strlit("sysml:AnalysisCaseUsage");
    reveal_strlit("sysml:");
    reveal_strlit("AnalysisCaseUsage");
    reveal_strlit("sysml:AnalysisCaseUsage");
    reveal_strlit("sysml:");
    assert(ElementKind::AnalysisCaseUsage.spec_xmi_type() =~= "sysml:"@ + "AnalysisCaseUsage"@);
    assert(ElementKind::AnalysisCaseUsage.spec_xsi_type() =~= "sysml:"@ + "AnalysisCaseUsage"@);
}

/// How the type names of `VerificationCaseUsage` are built.
proof fn lemma_names_VerificationCaseUsage()
    ensures
        ElementKind::VerificationCaseUsage.spec_xmi_type() == "sysml:"@ + ElementKind::VerificationCaseUsage.spec_jsonld_type(),
        ElementKind::VerificationCaseUsage.spec_jsonld_type().len() > 0,
        ElementKind::VerificationCaseUsage.spec_xsi_type() == "sysml:"@ + ElementKind::VerificationCaseUsage.spec_jsonld_type(),
{
    lemma_suffix_sysml_VerificationCaseUsage();
    reveal_strlit("sysml:VerificationCaseUsage");
    reveal_strlit("sysml:");
    reveal_strlit("VerificationCaseUsage");
    reveal_strlit("sysml:VerificationCaseUsage");
    reveal_strlit("sysml:");
    assert(ElementKind::VerificationCaseUsage.spec_xmi_type() =~= "sysml:"@ + "VerificationCaseUsage"@);
    assert(ElementKind::VerificationCaseUsage.spec_xsi_type() =~= "sysml:"@ + "VerificationCaseUsage"@);
}

/// How the type names of `FlowConnectionUsage` are built.
proof fn lemma_names_FlowConnectionUsage()
    ensures
        ElementKind::FlowConnectionUsage.spec_xmi_type() == "sysml:"@ + ElementKind::FlowConnectionUsage.spec_jsonld_type(),
        ElementKind::FlowConnectionUsage.spec_jsonld_type().len() > 0,
        ElementKind::FlowConnectionUsage.spec_xsi_type() == "sysml:"@ + ElementKind::FlowConnectionUsage.spec_jsonld_type(),
{
    lemma_suffix_sysml_FlowConnectionUsage();
    reveal_strlit("sysml:FlowConnectionUsage");
    reveal_strlit("sysml:");
    reveal_strlit("FlowConnectionUsage");
    reveal_strlit("sysml:FlowConnectionUsage");
    reveal_strlit("sysml:");
    assert(ElementKind::FlowConnectionUsage.spec_xmi_type() =~= "sysml:"@ + "FlowConnectionUsage"@);
    assert(ElementKind::FlowConnectionUsage.spec_xsi_type() =~= "sysml:"@ + "FlowConnectionUsage"@);
}

/// How the type names of `SuccessionFlowConnectionUsage` are built.
proof fn lemma_names_SuccessionFlowConnectionUsage()
    ensures
        ElementKind::SuccessionFlowConnectionUsage.spec_xmi_type() == "sysml:"@ + ElementKind::SuccessionFlowConnectionUsage.spec_jsonld_type(),
        ElementKind::SuccessionFlowConnectionUsage.spec_jsonld_type().len() > 0,
        ElementKind::SuccessionFlowConnectionUsage.spec_xsi_type() == "sysml:"@ + ElementKind::SuccessionFlowConnectionUsage.spec_jsonld_type(),
{
    lemma_suffix_sysml_SuccessionFlowConnectionUsage();
    reveal_strlit("sysml:SuccessionFlowConnectionUsage");
    reveal_strlit("sysml:");
    reveal_strlit("SuccessionFlowConnectionUsage");
    reveal_strlit("sysml:SuccessionFlowConnectionUsage");
    reveal_strlit("sysml:");
    assert(ElementKind::SuccessionFlowConnectionUsage.spec_xmi_type() =~= "sysml:"@ + "SuccessionFlowConnectionUsage"@);
    assert(ElementKind::SuccessionFlowConnectionUsage.spec_xsi_type() =~= "sysml:"@ + "SuccessionFlowConnectionUsage"@);
}

/// How the type names of `Feature` are built.
proof fn lemma_names_Feature()
    ensures
        ElementKind::Feature.spec_xmi_type() == "kerml:"@ + ElementKind::Feature.spec_jsonld_type(),
        ElementKind::Feature.spec_jsonld_type().len() > 0,
        ElementKind::Feature.spec_xsi_type() == "sysml:"@ + ElementKind::Feature.spec_jsonld_type(),
{
    lemma_suffix_kerml_Feature();
    reveal_strlit("kerml:Feature");
    reveal_strlit("kerml:");
    reveal_strlit("Feature");
    reveal_strlit("sysml:Feature");
    reveal_strlit("sysml:");
    assert(ElementKind::Feature.spec_xmi_type() =~= "kerml:"@ + "Feature"@);
    assert(ElementKind::Feature.spec_xsi_type() =~= "sysml:"@ + "Feature"@);
}

/// How the type names of `Step` are built.
proof fn lemma_names_Step()
    ensures
        ElementKind::Step.spec_xmi_type() == "kerml:"@ + ElementKind::Step.spec_jsonld_type(),
        ElementKind::Step.spec_jsonld_type().len() > 0,
        ElementKind::Step.spec_xsi_type() == "sysml:"@ + ElementKind::Step.spec_jsonld_type(),
{
    lemma_suffix_kerml_Step();
    reveal_strlit("kerml:Step");
    reveal_strlit("kerml:");
    reveal_strlit("Step");
    reveal_strlit("sysml:Step");
    reveal_strlit("sysml:");
    assert(ElementKind::Step.spec_xmi_type() =~= "kerml:"@ + "Step"@);
    assert(ElementKind::Step.spec_xsi_type() =~= "sysml:"@ + "Step"@);
}

/// How the type names of `Expression` are built.
proof fn lemma_names_Expression()
    ensures
        ElementKind::Expression.spec_xmi_type() == "kerml:"@ + ElementKind::Expression.spec_jsonld_type(),
        ElementKind::Expression.spec_jsonld_type().len() > 0,
        ElementKind::Expression.spec_xsi_type() == "sysml:"@ + ElementKind::Expression.spec_jsonld_type(),
{
    lemma_suffix_kerml_Expression();
    reveal_strlit("kerml:Expression");
    reveal_strlit("kerml:");
    reveal_strlit("Expression");
    reveal_strlit("sysml:Expression");
    reveal_strlit("sysml:");
    assert(ElementKind::Expression.spec_xmi_type() =~= "kerml:"@ + "Expression"@);
    assert(ElementKind::Expression.spec_xsi_type() =~= "sysml:"@ + "Expression"@);
}

/// How the type names of `BooleanExpression` are built.
proof fn lemma_names_BooleanExpression()
    ensures
        ElementKind::BooleanExpression.spec_xmi_type() == "kerml:"@ + ElementKind::BooleanExpression.spec_jsonld_type(),
        ElementKind::BooleanExpression.spec_jsonld_type().len() > 0,
        ElementKind::BooleanExpression.spec_xsi_type() == "sysml:"@ + ElementKind::BooleanExpression.spec_jsonld_type(),
{
    lemma_suffix_kerml_BooleanExpression();
    reveal_strlit("kerml:BooleanExpression");
    reveal_strlit("kerml:");
    reveal_strlit("BooleanExpression");
    reveal_strlit("sysml:BooleanExpression");
    reveal_strlit("sysml:");
    assert(ElementKind::BooleanExpression.spec_xmi_type() =~= "kerml:"@ + "BooleanExpression"@);
    assert(ElementKind::BooleanExpression.spec_xsi_type() =~= "sysml:"@ + "BooleanExpression"@);
}

/// How the type names of `Invariant` are built.
proof fn lemma_names_Invariant()
    ensures
        ElementKind::Invariant.spec_xmi_type() == "kerml:"@ + ElementKind::Invariant.spec_jsonld_type(),
        ElementKind::Invariant.spec_jsonld_type().len() > 0,
        ElementKind::Invariant.spec_xsi_type() == "sysml:"@ + ElementKind::Invariant.spec_jsonld_type(),
{
    lemma_suffix_kerml_Invariant();
    reveal_strlit("kerml:Invariant");
    reveal_strlit("kerml:");
    reveal_strlit("Invariant");
    reveal_strlit("sysml:Invariant");
    reveal_strlit("sysml:");
    assert(ElementKind::Invariant.spec_xmi_type() =~= "kerml:"@ + "Invariant"@);
    assert(ElementKind::Invariant.spec_xsi_type() =~= "sysml:"@ + "Invariant"@);
}

/// How the type names of `Connector` are built.
proof fn lemma_names_Connector()
    ensures
        ElementKind::Connector.spec_xmi_type() == "kerml:"@ + ElementKind::Connector.spec_jsonld_type(),
        ElementKind::Connector.spec_jsonld_type().len() > 0,
        ElementKind::Connector.spec_xsi_type() == "sysml:"@ + ElementKind::Connector.spec_jsonld_type(),
{
    lemma_suffix_kerml_Connector();
    reveal_strlit("kerml:Connector");
    reveal_strlit("kerml:");
    reveal_strlit("Connector");
    reveal_strlit("sysml:Connector");
    reveal_strlit("sysml:");
    assert(ElementKind::Connector.spec_xmi_type() =~= "kerml:"@ + "Connector"@);
    assert(ElementKind::Connector.spec_xsi_type() =~= "sysml:"@ + "Connector"@);
}

/// How the type names of `BindingConnector` are built.
proof fn lemma_names_BindingConnector()
    ensures
        ElementKind::BindingConnector.spec_xmi_type() == "kerml:"@ + ElementKind::BindingConnector.spec_jsonld_type(),
        ElementKind::BindingConnector.spec_jsonld_type().len() > 0,
        ElementKind::BindingConnector.spec_xsi_type() == "sysml:"@ + ElementKind::BindingConnector.spec_jsonld_type(),
{
    lemma_suffix_kerml_BindingConnector();
    reveal_strlit("kerml:BindingConnector");
    reveal_strlit("kerml:");
    reveal_strlit("BindingConnector");
    reveal_strlit("sysml:BindingConnector");
    reveal_strlit("sysml:");
    assert(ElementKind::BindingConnector.spec_xmi_type() =~= "kerml:"@ + "BindingConnector"@);
    assert(ElementKind::BindingConnector.spec_xsi_type() =~= "sysml:"@ + "BindingConnector"@);
}

/// How the type names of `Succession` are built.
proof fn lemma_names_Succession()
    ensures
        ElementKind::Succession.spec_xmi_type() == "kerml:"@ + ElementKind::Succession.spec_jsonld_type(),
        ElementKind::Succession.spec_jsonld_type().len() > 0,
        ElementKind::Succession.spec_xsi_type() == "sysml:"@ + ElementKind::Succession.spec_jsonld_type(),
{
    lemma_suffix_kerml_Succession();
    reveal_strlit("kerml:Succession");
    reveal_strlit("kerml:");
    reveal_strlit("Succession");
    reveal_strlit("sysml:Succession");
    reveal_strlit("sysml:");
    assert(ElementKind::Succession.spec_xmi_type() =~= "kerml:"@ + "Succession"@);
    assert(ElementKind::Succession.spec_xsi_type() =~= "sysml:"@ + "Succession"@);
}

/// How the type names of `Flow` are built.
proof fn lemma_names_Flow()
    ensures
        ElementKind::Flow.spec_xmi_type() == "kerml:"@ + ElementKind::Flow.spec_jsonld_type(),
        ElementKind::Flow.spec_jsonld_type().len() > 0,
        ElementKind::Flow.spec_xsi_type() == "sysml:"@ + ElementKind::Flow.spec_jsonld_type(),
{
    lemma_suffix_kerml_Flow();
    reveal_strlit("kerml:Flow");
    reveal_strlit("kerml:");
    reveal_strlit("Flow");
    reveal_strlit("sysml:Flow");
    reveal_strlit("sysml:");
    assert(ElementKind::Flow.spec_xmi_type() =~= "kerml:"@ + "Flow"@);
    assert(ElementKind::Flow.spec_xsi_type() =~= "sysml:"@ + "Flow"@);
}

/// How the type names of `MultiplicityRange` are built.
proof fn lemma_names_MultiplicityRange()
    ensures
        ElementKind::MultiplicityRange.spec_xmi_type() == "kerml:"@ + ElementKind::MultiplicityRange.spec_jsonld_type(),
        ElementKind::MultiplicityRange.spec_jsonld_type().len() > 0,
        ElementKind::MultiplicityRange.spec_xsi_type() == "sysml:"@ + ElementKind::MultiplicityRange.spec_jsonld_type(),
{
    lemma_suffix_kerml_MultiplicityRange();
    reveal_strlit("kerml:MultiplicityRange");
    reveal_strlit("kerml:");
    reveal_strlit("MultiplicityRange");
    reveal_strlit("sysml:MultiplicityRange");
    reveal_strlit("sysml:");
    assert(ElementKind::MultiplicityRange.spec_xmi_type() =~= "kerml:"@ + "MultiplicityRange"@);
    assert(ElementKind::MultiplicityRange.spec_xsi_type() =~= "sysml:"@ + "MultiplicityRange"@);
}

/// How the type names of `LiteralInteger` are built.
proof fn lemma_names_LiteralInteger()
    ensures
        ElementKind::LiteralInteger.spec_xmi_type() == "kerml:"@ + ElementKind::LiteralInteger.spec_jsonld_type(),
        ElementKind::LiteralInteger.spec_jsonld_type().len() > 0,
        ElementKind::LiteralInteger.spec_xsi_type() == "sysml:"@ + ElementKind::LiteralInteger.spec_jsonld_type(),
{
    lemma_suffix_kerml_LiteralInteger();
    reveal_strlit("kerml:LiteralInteger");
    reveal_strlit("kerml:");
    reveal_strlit("LiteralInteger");
    reveal_strlit("sysml:LiteralInteger");
    reveal_strlit("sysml:");
    assert(ElementKind::LiteralInteger.spec_xmi_type() =~= "kerml:"@ + "LiteralInteger"@);
    assert(ElementKind::LiteralInteger.spec_xsi_type() =~= "sysml:"@ + "LiteralInteger"@);
}

/// How the type names of `LiteralReal` are built.
proof fn lemma_names_LiteralReal()
    ensures
        ElementKind::LiteralReal.spec_xmi_type() == "kerml:"@ + ElementKind::LiteralReal.spec_jsonld_type(),
        ElementKind::LiteralReal.spec_jsonld_type().len() > 0,
        ElementKind::LiteralReal.spec_xsi_type() == "sysml:"@ + ElementKind::LiteralReal.spec_jsonld_type(),
{
    lemma_suffix_kerml_LiteralRational();
    reveal_strlit("kerml:LiteralRational");
    reveal_strlit("kerml:");
    reveal_strlit("LiteralRational");
    reveal_strlit("sysml:LiteralRational");
    reveal_strlit("sysml:");
    assert(ElementKind::LiteralReal.spec_xmi_type() =~= "kerml:"@ + "LiteralRational"@);
    assert(ElementKind::LiteralReal.spec_xsi_type() =~= "sysml:"@ + "LiteralRational"@);
}

/// How the type names of `LiteralInfinity` are built.
proof fn lemma_names_LiteralInfinity()
    ensures
        ElementKind::LiteralInfinity.spec_xmi_type() == "kerml:"@ + ElementKind::LiteralInfinity.spec_jsonld_type(),
        ElementKind::LiteralInfinity.spec_jsonld_type().len() > 0,
        ElementKind::LiteralInfinity.spec_xsi_type() == "sysml:"@ + ElementKind::LiteralInfinity.spec_jsonld_type(),
{
    lemma_suffix_kerml_LiteralInfinity();
    reveal_strlit("kerml:LiteralInfinity");
    reveal_strlit("kerml:");
    reveal_strlit("LiteralInfinity");
    reveal_strlit("sysml:LiteralInfinity");
    reveal_strlit("sysml:");
    assert(ElementKind::LiteralInfinity.spec_xmi_type() =~= "kerml:"@ + "LiteralInfinity"@);
    assert(ElementKind::LiteralInfinity.spec_xsi_type() =~= "sysml:"@ + "LiteralInfinity"@);
}

/// How the type names of `LiteralBoolean` are built.
proof fn lemma_names_LiteralBoolean()
    ensures
        ElementKind::LiteralBoolean.spec_xmi_type() == "kerml:"@ + ElementKind::LiteralBoolean.spec_jsonld_type(),
        ElementKind::LiteralBoolean.spec_jsonld_type().len() > 0,
        ElementKind::LiteralBoolean.spec_xsi_type() == "sysml:"@ + ElementKind::LiteralBoolean.spec_jsonld_type(),
{
    lemma_suffix_kerml_LiteralBoolean();
    reveal_strlit("kerml:LiteralBoolean");
    reveal_strlit("kerml:");
    reveal_strlit("LiteralBoolean");
    reveal_strlit("sysml:LiteralBoolean");
    reveal_strlit("sysml:");
    assert(ElementKind::LiteralBoolean.spec_xmi_type() =~= "kerml:"@ + "LiteralBoolean"@);
    assert(ElementKind::LiteralBoolean.spec_xsi_type() =~= "sysml:"@ + "LiteralBoolean"@);
}

/// How the type names of `LiteralString` are built.
proof fn lemma_names_LiteralString()
    ensures
        ElementKind::LiteralString.spec_xmi_type() == "kerml:"@ + ElementKind::LiteralString.spec_jsonld_type(),
        ElementKind::LiteralString.spec_jsonld_type().len() > 0,
        ElementKind::LiteralString.spec_xsi_type() == "sysml:"@ + ElementKind::LiteralString.spec_jsonld_type(),
{
    lemma_suffix_kerml_LiteralString();
    reveal_strlit("kerml:LiteralString");
    reveal_strlit("kerml:");
    reveal_strlit("LiteralString");
    reveal_strlit("sysml:LiteralString");
    reveal_strlit("sysml:");
    assert(ElementKind::LiteralString.spec_xmi_type() =~= "kerml:"@ + "LiteralString"@);
    assert(ElementKind::LiteralString.spec_xsi_type() =~= "sysml:"@ + "LiteralString"@);
}

/// How the type names of `NullExpression` are built.
proof fn lemma_names_NullExpression()
    ensures
        ElementKind::NullExpression.spec_xmi_type() == "kerml:"@ + ElementKind::NullExpression.spec_jsonld_type(),
        ElementKind::NullExpression.spec_jsonld_type().len() > 0,
        ElementKind::NullExpression.spec_xsi_type() == "sysml:"@ + ElementKind::NullExpression.spec_jsonld_type(),
{
    lemma_suffix_kerml_NullExpression();
    reveal_strlit("kerml:NullExpression");
    reveal_strlit("kerml:");
    reveal_strlit("NullExpression");
    reveal_strlit("sysml:NullExpression");
    reveal_strlit("sysml:");
    assert(ElementKind::NullExpression.spec_xmi_type() =~= "kerml:"@ + "NullExpression"@);
    assert(ElementKind::NullExpression.spec_xsi_type() =~= "sysml:"@ + "NullExpression"@);
}

/// How the type names of `FeatureReferenceExpression` are built.
proof fn lemma_names_FeatureReferenceExpression()
    ensures
        ElementKind::FeatureReferenceExpression.spec_xmi_type() == "kerml:"@ + ElementKind::FeatureReferenceExpression.spec_jsonld_type(),
        ElementKind::FeatureReferenceExpression.spec_jsonld_type().len() > 0,
        ElementKind::FeatureReferenceExpression.spec_xsi_type() == "sysml:"@ + ElementKind::FeatureReferenceExpression.spec_jsonld_type(),
{
    lemma_suffix_kerml_FeatureReferenceExpression();
    reveal_strlit("kerml:FeatureReferenceExpression");
    reveal_strlit("kerml:");
    reveal_strlit("FeatureReferenceExpression");
    reveal_strlit("sysml:FeatureReferenceExpression");
    reveal_strlit("sysml:");
    assert(ElementKind::FeatureReferenceExpression.spec_xmi_type() =~= "kerml:"@ + "FeatureReferenceExpression"@);
    assert(ElementKind::FeatureReferenceExpression.spec_xsi_type() =~= "sysml:"@ + "FeatureReferenceExpression"@);
}

/// How the type names of `OperatorExpression` are built.
proof fn lemma_names_OperatorExpression()
    ensures
        ElementKind::OperatorExpression.spec_xmi_type() == "kerml:"@ + ElementKind::OperatorExpression.spec_jsonld_type(),
        ElementKind::OperatorExpression.spec_jsonld_type().len() > 0,
        ElementKind::OperatorExpression.spec_xsi_type() == "sysml:"@ + ElementKind::OperatorExpression.spec_jsonld_type(),
{
    lemma_suffix_kerml_OperatorExpression();
    reveal_strlit("kerml:OperatorExpression");
    reveal_strlit("kerml:");
    reveal_strlit("OperatorExpression");
    reveal_strlit("sysml:OperatorExpression");
    reveal_strlit("sysml:");
    assert(ElementKind::OperatorExpression.spec_xmi_type() =~= "kerml:"@ + "OperatorExpression"@);
    assert(ElementKind::OperatorExpression.spec_xsi_type() =~= "sysml:"@ + "OperatorExpression"@);
}

/// How the type names of `InvocationExpression` are built.
proof fn lemma_names_InvocationExpression()
    ensures
        ElementKind::InvocationExpression.spec_xmi_type() == "kerml:"@ + ElementKind::InvocationExpression.spec_jsonld_type(),
        ElementKind::InvocationExpression.spec_jsonld_type().len() > 0,
        ElementKind::InvocationExpression.spec_xsi_type() == "sysml:"@ + ElementKind::InvocationExpression.spec_jsonld_type(),
{
    lemma_suffix_kerml_InvocationExpression();
    reveal_strlit("kerml:InvocationExpression");
    reveal_strlit("kerml:");
    reveal_strlit("InvocationExpression");
    reveal_strlit("sysml:InvocationExpression");
    reveal_strlit("sysml:");
    assert(ElementKind::InvocationExpression.spec_xmi_type() =~= "kerml:"@ + "InvocationExpression"@);
    assert(ElementKind::InvocationExpression.spec_xsi_type() =~= "sysml:"@ + "InvocationExpression"@);
}

/// How the type names of `FeatureChainExpression` are built.
proof fn lemma_names_FeatureChainExpression()
    ensures
        ElementKind::FeatureChainExpression.spec_xmi_type() == "kerml:"@ + ElementKind::FeatureChainExpression.spec_jsonld_type(),
        ElementKind::FeatureChainExpression.spec_jsonld_type().len() > 0,
        ElementKind::FeatureChainExpression.spec_xsi_type() == "sysml:"@ + ElementKind::FeatureChainExpression.spec_jsonld_type(),
{
    lemma_suffix_kerml_FeatureChainExpression();
    reveal_strlit("kerml:FeatureChainExpression");
    reveal_strlit("kerml:");
    reveal_strlit("FeatureChainExpression");
    reveal_strlit("sysml:FeatureChainExpression");
    reveal_strlit("sysml:");
    assert(ElementKind::FeatureChainExpression.spec_xmi_type() =~= "kerml:"@ + "FeatureChainExpression"@);
    assert(ElementKind::FeatureChainExpression.spec_xsi_type() =~= "sysml:"@ + "FeatureChainExpression"@);
}

/// How the type names of `ConstructorExpression` are built.
proof fn lemma_names_ConstructorExpression()
    ensures
        ElementKind::ConstructorExpression.spec_xmi_type() == "kerml:"@ + ElementKind::ConstructorExpression.spec_jsonld_type(),
        ElementKind::ConstructorExpression.spec_jsonld_type().len() > 0,
        ElementKind::ConstructorExpression.spec_xsi_type() == "sysml:"@ + ElementKind::ConstructorExpression.spec_jsonld_type(),
{
    lemma_suffix_kerml_ConstructorExpression();
    reveal_strlit("kerml:ConstructorExpression");
    reveal_strlit("kerml:");
    reveal_strlit("ConstructorExpression");
    reveal_strlit("sysml:ConstructorExpression");
    reveal_strlit("sysml:");
    assert(ElementKind::ConstructorExpression.spec_xmi_type() =~= "kerml:"@ + "ConstructorExpression"@);
    assert(ElementKind::ConstructorExpression.spec_xsi_type() =~= "sysml:"@ + "ConstructorExpression"@);
}

/// How the type names of `Membership` are built.
proof fn lemma_names_Membership()
    ensures
        ElementKind::Membership.spec_xmi_type() == "kerml:"@ + ElementKind::Membership.spec_jsonld_type(),
        ElementKind::Membership.spec_jsonld_type().len() > 0,
        ElementKind::Membership.spec_xsi_type() == "sysml:"@ + ElementKind::Membership.spec_jsonld_type(),
{
    lemma_suffix_kerml_Membership();
    reveal_strlit("kerml:Membership");
    reveal_strlit("kerml:");
    reveal_strlit("Membership");
    reveal_strlit("sysml:Membership");
    reveal_strlit("sysml:");
    assert(ElementKind::Membership.spec_xmi_type() =~= "kerml:"@ + "Membership"@);
    assert(ElementKind::Membership.spec_xsi_type() =~= "sysml:"@ + "Membership"@);
}

/// How the type names of `OwningMembership` are built.
proof fn lemma_names_OwningMembership()
    ensures
        ElementKind::OwningMembership.spec_xmi_type() == "kerml:"@ + ElementKind::OwningMembership.spec_jsonld_type(),
        ElementKind::OwningMembership.spec_jsonld_type().len() > 0,
        ElementKind::OwningMembership.spec_xsi_type() == "sysml:"@ + ElementKind::OwningMembership.spec_jsonld_type(),
{
    lemma_suffix_kerml_OwningMembership();
    reveal_strlit("kerml:OwningMembership");
    reveal_strlit("kerml:");
    reveal_strlit("OwningMembership");
    reveal_strlit("sysml:OwningMembership");
    reveal_strlit("sysml:");
    assert(ElementKind::OwningMembership.spec_xmi_type() =~= "kerml:"@ + "OwningMembership"@);
    assert(ElementKind::OwningMembership.spec_xsi_type() =~= "sysml:"@ + "OwningMembership"@);
}

/// How the type names of `FeatureMembership` are built.
proof fn lemma_names_FeatureMembership()
    ensures
        ElementKind::FeatureMembership.spec_xmi_type() == "kerml:"@ + ElementKind::FeatureMembership.spec_jsonld_type(),
        ElementKind::FeatureMembership.spec_jsonld_type().len() > 0,
        ElementKind::FeatureMembership.spec_xsi_type() == "sysml:"@ + ElementKind::FeatureMembership.spec_jsonld_type(),
{
    lemma_suffix_kerml_FeatureMembership();
    reveal_strlit("kerml:FeatureMembership");
    reveal_strlit("kerml:");
    reveal_strlit("FeatureMembership");
    reveal_strlit("sysml:FeatureMembership");
    reveal_strlit("sysml:");
    assert(ElementKind::FeatureMembership.spec_xmi_type() =~= "kerml:"@ + "FeatureMembership"@);
    assert(ElementKind::FeatureMembership.spec_xsi_type() =~= "sysml:"@ + "FeatureMembership"@);
}

/// How the type names of `ReturnParameterMembership` are built.
proof fn lemma_names_ReturnParameterMembership()
    ensures
        ElementKind::ReturnParameterMembership.spec_xmi_type() == "kerml:"@ + ElementKind::ReturnParameterMembership.spec_jsonld_type(),
        ElementKind::ReturnParameterMembership.spec_jsonld_type().len() > 0,
        ElementKind::ReturnParameterMembership.spec_xsi_type() == "sysml:"@ + ElementKind::ReturnParameterMembership.spec_jsonld_type(),
{
    lemma_suffix_kerml_ReturnParameterMembership();
    reveal_strlit("kerml:ReturnParameterMembership");
    reveal_strlit("kerml:");
    reveal_strlit("ReturnParameterMembership");
    reveal_strlit("sysml:ReturnParameterMembership");
    reveal_strlit("sysml:");
    assert(ElementKind::ReturnParameterMembership.spec_xmi_type() =~= "kerml:"@ + "ReturnParameterMembership"@);
    assert(ElementKind::ReturnParameterMembership.spec_xsi_type() =~= "sysml:"@ + "ReturnParameterMembership"@);
}

/// How the type names of `ParameterMembership` are built.
proof fn lemma_names_ParameterMembership()
    ensures
        ElementKind::ParameterMembership.spec_xmi_type() == "kerml:"@ + ElementKind::ParameterMembership.spec_jsonld_type(),
        ElementKind::ParameterMembership.spec_jsonld_type().len() > 0,
        ElementKind::ParameterMembership.spec_xsi_type() == "sysml:"@ + ElementKind::ParameterMembership.spec_jsonld_type(),
{
    lemma_suffix_kerml_ParameterMembership();
    reveal_strlit("kerml:ParameterMembership");
    reveal_strlit("kerml:");
    reveal_strlit("ParameterMembership");
    reveal_strlit("sysml:ParameterMembership");
    reveal_strlit("sysml:");
    assert(ElementKind::ParameterMembership.spec_xmi_type() =~= "kerml:"@ + "ParameterMembership"@);
    assert(ElementKind::ParameterMembership.spec_xsi_type() =~= "sysml:"@ + "ParameterMembership"@);
}

/// How the type names of `EndFeatureMembership` are built.
proof fn lemma_names_EndFeatureMembership()
    ensures
        ElementKind::EndFeatureMembership.spec_xmi_type() == "kerml:"@ + ElementKind::EndFeatureMembership.spec_jsonld_type(),
        ElementKind::EndFeatureMembership.spec_jsonld_type().len() > 0,
        ElementKind::EndFeatureMembership.spec_xsi_type() == "sysml:"@ + ElementKind::EndFeatureMembership.spec_jsonld_type(),
{
    lemma_suffix_kerml_EndFeatureMembership();
    reveal_strlit("kerml:EndFeatureMembership");
    reveal_strlit("kerml:");
    reveal_strlit("EndFeatureMembership");
    reveal_strlit("sysml:EndFeatureMembership");
    reveal_strlit("sysml:");
    assert(ElementKind::EndFeatureMembership.spec_xmi_type() =~= "kerml:"@ + "EndFeatureMembership"@);
    assert(ElementKind::EndFeatureMembership.spec_xsi_type() =~= "sysml:"@ + "EndFeatureMembership"@);
}

/// How the type names of `ResultExpressionMembership` are built.
proof fn lemma_names_ResultExpressionMembership()
    ensures
        ElementKind::ResultExpressionMembership.spec_xmi_type() == "kerml:"@ + ElementKind::ResultExpressionMembership.spec_jsonld_type(),
        ElementKind::ResultExpressionMembership.spec_jsonld_type().len() > 0,
        ElementKind::ResultExpressionMembership.spec_xsi_type() == "sysml:"@ + ElementKind::ResultExpressionMembership.spec_jsonld_type(),
{
    lemma_suffix_kerml_ResultExpressionMembership();
    reveal_strlit("kerml:ResultExpressionMembership");
    reveal_strlit("kerml:");
    reveal_strlit("ResultExpressionMembership");
    reveal_strlit("sysml:ResultExpressionMembership");
    reveal_strlit("sysml:");
    assert(ElementKind::ResultExpressionMembership.spec_xmi_type() =~= "kerml:"@ + "ResultExpressionMembership"@);
    assert(ElementKind::ResultExpressionMembership.spec_xsi_type() =~= "sysml:"@ + "ResultExpressionMembership"@);
}

/// How the type names of `Import` are built.
proof fn lemma_names_Import()
    ensures
        ElementKind::Import.spec_xmi_type() == "kerml:"@ + ElementKind::Import.spec_jsonld_type(),
        ElementKind::Import.spec_jsonld_type().len() > 0,
        ElementKind::Import.spec_xsi_type() == "sysml:"@ + ElementKind::Import.spec_jsonld_type(),
{
    lemma_suffix_kerml_Import();
    reveal_strlit("kerml:Import");
    reveal_strlit("kerml:");
    reveal_strlit("Import");
    reveal_strlit("sysml:Import");
    reveal_strlit("sysml:");
    assert(ElementKind::Import.spec_xmi_type() =~= "kerml:"@ + "Import"@);
    assert(ElementKind::Import.spec_xsi_type() =~= "sysml:"@ + "Import"@);
}

/// How the type names of `NamespaceImport` are built.
proof fn lemma_names_NamespaceImport()
    ensures
        ElementKind::NamespaceImport.spec_xmi_type() == "kerml:"@ + ElementKind::NamespaceImport.spec_jsonld_type(),
        ElementKind::NamespaceImport.spec_jsonld_type().len() > 0,
        ElementKind::NamespaceImport.spec_xsi_type() == "sysml:"@ + ElementKind::NamespaceImport.spec_jsonld_type(),
{
    lemma_suffix_kerml_NamespaceImport();
    reveal_strlit("kerml:NamespaceImport");
    reveal_strlit("kerml:");
    reveal_strlit("NamespaceImport");
    reveal_strlit("sysml:NamespaceImport");
    reveal_strlit("sysml:");
    assert(ElementKind::NamespaceImport.spec_xmi_type() =~= "kerml:"@ + "NamespaceImport"@);
    assert(ElementKind::NamespaceImport.spec_xsi_type() =~= "sysml:"@ + "NamespaceImport"@);
}

/// How the type names of `MembershipImport` are built.
proof fn lemma_names_MembershipImport()
    ensures
        ElementKind::MembershipImport.spec_xmi_type() == "kerml:"@ + ElementKind::MembershipImport.spec_jsonld_type(),
        ElementKind::MembershipImport.spec_jsonld_type().len() > 0,
        ElementKind::MembershipImport.spec_xsi_type() == "sysml:"@ + ElementKind::MembershipImport.spec_jsonld_type(),
{
    lemma_suffix_kerml_MembershipImport();
    reveal_strlit("kerml:MembershipImport");
    reveal_strlit("kerml:");
    reveal_strlit("MembershipImport");
    reveal_strlit("sysml:MembershipImport");
    reveal_strlit("sysml:");
    assert(ElementKind::MembershipImport.spec_xmi_type() =~= "kerml:"@ + "MembershipImport"@);
    assert(ElementKind::MembershipImport.spec_xsi_type() =~= "sysml:"@ + "MembershipImport"@);
}

/// How the type names of `Specialization` are built.
proof fn lemma_names_Specialization()
    ensures
        ElementKind::Specialization.spec_xmi_type() == "kerml:"@ + ElementKind::Specialization.spec_jsonld_type(),
        ElementKind::Specialization.spec_jsonld_type().len() > 0,
        ElementKind::Specialization.spec_xsi_type() == "sysml:"@ + "Subclassification"@,
{
    lemma_suffix_kerml_Specialization();
    reveal_strlit("kerml:Specialization");
    reveal_strlit("kerml:");
    reveal_strlit("Specialization");
    reveal_strlit("sysml:Subclassification");
    reveal_strlit("sysml:");
    assert(ElementKind::Specialization.spec_xmi_type() =~= "kerml:"@ + "Specialization"@);
    reveal_strlit("Subclassification");
    assert(ElementKind::Specialization.spec_xsi_type() =~= "sysml:"@ + "Subclassification"@);
}

/// How the type names of `FeatureTyping` are built.
proof fn lemma_names_FeatureTyping()
    ensures
        ElementKind::FeatureTyping.spec_xmi_type() == "kerml:"@ + ElementKind::FeatureTyping.spec_jsonld_type(),
        ElementKind::FeatureTyping.spec_jsonld_type().len() > 0,
        ElementKind::FeatureTyping.spec_xsi_type() == "sysml:"@ + ElementKind::FeatureTyping.spec_jsonld_type(),
{
    lemma_suffix_kerml_FeatureTyping();
    reveal_strlit("kerml:FeatureTyping");
    reveal_strlit("kerml:");
    reveal_strlit("FeatureTyping");
    reveal_strlit("sysml:FeatureTyping");
    reveal_strlit("sysml:");
    assert(ElementKind::FeatureTyping.spec_xmi_type() =~= "kerml:"@ + "FeatureTyping"@);
    assert(ElementKind::FeatureTyping.spec_xsi_type() =~= "sysml:"@ + "FeatureTyping"@);
}

/// How the type names of `Subsetting` are built.
proof fn lemma_names_Subsetting()
    ensures
        ElementKind::Subsetting.spec_xmi_type() == "kerml:"@ + ElementKind::Subsetting.spec_jsonld_type(),
        ElementKind::Subsetting.spec_jsonld_type().len() > 0,
        ElementKind::Subsetting.spec_xsi_type() == "sysml:"@ + ElementKind::Subsetting.spec_jsonld_type(),
{
    lemma_suffix_kerml_Subsetting();
    reveal_strlit("kerml:Subsetting");
    reveal_strlit("kerml:");
    reveal_strlit("Subsetting");
    reveal_strlit("sysml:Subsetting");
    reveal_strlit("sysml:");
    assert(ElementKind::Subsetting.spec_xmi_type() =~= "kerml:"@ + "Subsetting"@);
    assert(ElementKind::Subsetting.spec_xsi_type() =~= "sysml:"@ + "Subsetting"@);
}

/// How the type names of `ReferenceSubsetting` are built.
proof fn lemma_names_ReferenceSubsetting()
    ensures
        ElementKind::ReferenceSubsetting.spec_xmi_type() == "kerml:"@ + ElementKind::ReferenceSubsetting.spec_jsonld_type(),
        ElementKind::ReferenceSubsetting.spec_jsonld_type().len() > 0,
        ElementKind::ReferenceSubsetting.spec_xsi_type() == "sysml:"@ + ElementKind::ReferenceSubsetting.spec_jsonld_type(),
{
    lemma_suffix_kerml_ReferenceSubsetting();
    reveal_strlit("kerml:ReferenceSubsetting");
    reveal_strlit("kerml:");
    reveal_strlit("ReferenceSubsetting");
    reveal_strlit("sysml:ReferenceSubsetting");
    reveal_strlit("sysml:");
    assert(ElementKind::ReferenceSubsetting.spec_xmi_type() =~= "kerml:"@ + "ReferenceSubsetting"@);
    assert(ElementKind::ReferenceSubsetting.spec_xsi_type() =~= "sysml:"@ + "ReferenceSubsetting"@);
}

/// How the type names of `CrossSubsetting` are built.
proof fn lemma_names_CrossSubsetting()
    ensures
        ElementKind::CrossSubsetting.spec_xmi_type() == "kerml:"@ + ElementKind::CrossSubsetting.spec_jsonld_type(),
        ElementKind::CrossSubsetting.spec_jsonld_type().len() > 0,
        ElementKind::CrossSubsetting.spec_xsi_type() == "sysml:"@ + ElementKind::CrossSubsetting.spec_jsonld_type(),
{
    lemma_suffix_kerml_CrossSubsetting();
    reveal_strlit("kerml:CrossSubsetting");
    reveal_strlit("kerml:");
    reveal_strlit("CrossSubsetting");
    reveal_strlit("sysml:CrossSubsetting");
    reveal_strlit("sysml:");
    assert(ElementKind::CrossSubsetting.spec_xmi_type() =~= "kerml:"@ + "CrossSubsetting"@);
    assert(ElementKind::CrossSubsetting.spec_xsi_type() =~= "sysml:"@ + "CrossSubsetting"@);
}

/// How the type names of `Redefinition` are built.
proof fn lemma_names_Redefinition()
    ensures
        ElementKind::Redefinition.spec_xmi_type() == "kerml:"@ + ElementKind::Redefinition.spec_jsonld_type(),
        ElementKind::Redefinition.spec_jsonld_type().len() > 0,
        ElementKind::Redefinition.spec_xsi_type() == "sysml:"@ + ElementKind::Redefinition.spec_jsonld_type(),
{
    lemma_suffix_kerml_Redefinition();
    reveal_strlit("kerml:Redefinition");
    reveal_strlit("kerml:");
    reveal_strlit("Redefinition");
    reveal_strlit("sysml:Redefinition");
    reveal_strlit("sysml:");
    assert(ElementKind::Redefinition.spec_xmi_type() =~= "kerml:"@ + "Redefinition"@);
    assert(ElementKind::Redefinition.spec_xsi_type() =~= "sysml:"@ + "Redefinition"@);
}

/// How the type names of `Conjugation` are built.
proof fn lemma_names_Conjugation()
    ensures
        ElementKind::Conjugation.spec_xmi_type() == "kerml:"@ + ElementKind::Conjugation.spec_jsonld_type(),
        ElementKind::Conjugation.spec_jsonld_type().len() > 0,
        ElementKind::Conjugation.spec_xsi_type() == "sysml:"@ + ElementKind::Conjugation.spec_jsonld_type(),
{
    lemma_suffix_kerml_Conjugation();
    reveal_strlit("kerml:Conjugation");
    reveal_strlit("kerml:");
    reveal_strlit("Conjugation");
    reveal_strlit("sysml:Conjugation");
    reveal_strlit("sysml:");
    assert(ElementKind::Conjugation.spec_xmi_type() =~= "kerml:"@ + "Conjugation"@);
    assert(ElementKind::Conjugation.spec_xsi_type() =~= "sysml:"@ + "Conjugation"@);
}

/// How the type names of `FeatureValue` are built.
proof fn lemma_names_FeatureValue()
    ensures
        ElementKind::FeatureValue.spec_xmi_type() == "kerml:"@ + ElementKind::FeatureValue.spec_jsonld_type(),
        ElementKind::FeatureValue.spec_jsonld_type().len() > 0,
        ElementKind::FeatureValue.spec_xsi_type() == "sysml:"@ + ElementKind::FeatureValue.spec_jsonld_type(),
{
    lemma_suffix_kerml_FeatureValue();
    reveal_strlit("kerml:FeatureValue");
    reveal_strlit("kerml:");
    reveal_strlit("FeatureValue");
    reveal_strlit("sysml:FeatureValue");
    reveal_strlit("sysml:");
    assert(ElementKind::FeatureValue.spec_xmi_type() =~= "kerml:"@ + "FeatureValue"@);
    assert(ElementKind::FeatureValue.spec_xsi_type() =~= "sysml:"@ + "FeatureValue"@);
}

/// How the type names of `FeatureChaining` are built.
proof fn lemma_names_FeatureChaining()
    ensures
        ElementKind::FeatureChaining.spec_xmi_type() == "kerml:"@ + ElementKind::FeatureChaining.spec_jsonld_type(),
        ElementKind::FeatureChaining.spec_jsonld_type().len() > 0,
        ElementKind::FeatureChaining.spec_xsi_type() == "sysml:"@ + ElementKind::FeatureChaining.spec_jsonld_type(),
{
    lemma_suffix_kerml_FeatureChaining();
    reveal_strlit("kerml:FeatureChaining");
    reveal_strlit("kerml:");
    reveal_strlit("FeatureChaining");
    reveal_strlit("sysml:FeatureChaining");
    reveal_strlit("sysml:");
    assert(ElementKind::FeatureChaining.spec_xmi_type() =~= "kerml:"@ + "FeatureChaining"@);
    assert(ElementKind::FeatureChaining.spec_xsi_type() =~= "sysml:"@ + "FeatureChaining"@);
}

/// How the type names of `FeatureInverting` are built.
proof fn lemma_names_FeatureInverting()
    ensures
        ElementKind::FeatureInverting.spec_xmi_type() == "kerml:"@ + ElementKind::FeatureInverting.spec_jsonld_type(),
        ElementKind::FeatureInverting.spec_jsonld_type().len() > 0,
        ElementKind::FeatureInverting.spec_xsi_type() == "sysml:"@ + ElementKind::FeatureInverting.spec_jsonld_type(),
{
    lemma_suffix_kerml_FeatureInverting();
    reveal_strlit("kerml:FeatureInverting");
    reveal_strlit("kerml:");
    reveal_strlit("FeatureInverting");
    reveal_strlit("sysml:FeatureInverting");
    reveal_strlit("sysml:");
    assert(ElementKind::FeatureInverting.spec_xmi_type() =~= "kerml:"@ + "FeatureInverting"@);
    assert(ElementKind::FeatureInverting.spec_xsi_type() =~= "sysml:"@ + "FeatureInverting"@);
}

/// How the type names of `Intersecting` are built.
proof fn lemma_names_Intersecting()
    ensures
        ElementKind::Intersecting.spec_xmi_type() == "kerml:"@ + ElementKind::Intersecting.spec_jsonld_type(),
        ElementKind::Intersecting.spec_jsonld_type().len() > 0,
        ElementKind::Intersecting.spec_xsi_type() == "sysml:"@ + ElementKind::Intersecting.spec_jsonld_type(),
{
    lemma_suffix_kerml_Intersecting();
    reveal_strlit("kerml:Intersecting");
    reveal_strlit("kerml:");
    reveal_strlit("Intersecting");
    reveal_strlit("sysml:Intersecting");
    reveal_strlit("sysml:");
    assert(ElementKind::Intersecting.spec_xmi_type() =~= "kerml:"@ + "Intersecting"@);
    assert(ElementKind::Intersecting.spec_xsi_type() =~= "sysml:"@ + "Intersecting"@);
}

/// How the type names of `Disjoining` are built.
proof fn lemma_names_Disjoining()
    ensures
        ElementKind::Disjoining.spec_xmi_type() == "kerml:"@ + ElementKind::Disjoining.spec_jsonld_type(),
        ElementKind::Disjoining.spec_jsonld_type().len() > 0,
        ElementKind::Disjoining.spec_xsi_type() == "sysml:"@ + ElementKind::Disjoining.spec_jsonld_type(),
{
    lemma_suffix_kerml_Disjoining();
    reveal_strlit("kerml:Disjoining");
    reveal_strlit("kerml:");
    reveal_strlit("Disjoining");
    reveal_strlit("sysml:Disjoining");
    reveal_strlit("sysml:");
    assert(ElementKind::Disjoining.spec_xmi_type() =~= "kerml:"@ + "Disjoining"@);
    assert(ElementKind::Disjoining.spec_xsi_type() =~= "sysml:"@ + "Disjoining"@);
}

/// How the type names of `Unioning` are built.
proof fn lemma_names_Unioning()
    ensures
        ElementKind::Unioning.spec_xmi_type() == "kerml:"@ + ElementKind::Unioning.spec_jsonld_type(),
        ElementKind::Unioning.spec_jsonld_type().len() > 0,
        ElementKind::Unioning.spec_xsi_type() == "sysml:"@ + ElementKind::Unioning.spec_jsonld_type(),
{
    lemma_suffix_kerml_Unioning();
    reveal_strlit("kerml:Unioning");
    reveal_strlit("kerml:");
    reveal_strlit("Unioning");
    reveal_strlit("sysml:Unioning");
    reveal_strlit("sysml:");
    assert(ElementKind::Unioning.spec_xmi_type() =~= "kerml:"@ + "Unioning"@);
    assert(ElementKind::Unioning.spec_xsi_type() =~= "sysml:"@ + "Unioning"@);
}

/// How the type names of `Dependency` are built.
proof fn lemma_names_Dependency()
    ensures
        ElementKind::Dependency.spec_xmi_type() == "kerml:"@ + ElementKind::Dependency.spec_jsonld_type(),
        ElementKind::Dependency.spec_jsonld_type().len() > 0,
        ElementKind::Dependency.spec_xsi_type() == "sysml:"@ + ElementKind::Dependency.spec_jsonld_type(),
{
    lemma_suffix_kerml_Dependency();
    reveal_strlit("kerml:Dependency");
    reveal_strlit("kerml:");
    reveal_strlit("Dependency");
    reveal_strlit("sysml:Dependency");
    reveal_strlit("sysml:");
    assert(ElementKind::Dependency.spec_xmi_type() =~= "kerml:"@ + "Dependency"@);
    assert(ElementKind::Dependency.spec_xsi_type() =~= "sysml:"@ + "Dependency"@);
}

/// How the type names of `PerformActionUsage` are built.
proof fn lemma_names_PerformActionUsage()
    ensures
        ElementKind::PerformActionUsage.spec_xmi_type() == "sysml:"@ + ElementKind::PerformActionUsage.spec_jsonld_type(),
        ElementKind::PerformActionUsage.spec_jsonld_type().len() > 0,
        ElementKind::PerformActionUsage.spec_xsi_type() == "sysml:"@ + ElementKind::PerformActionUsage.spec_jsonld_type(),
{
    lemma_suffix_sysml_PerformActionUsage();
    reveal_strlit("sysml:PerformActionUsage");
    reveal_strlit("sysml:");
    reveal_strlit("PerformActionUsage");
    reveal_strlit("sysml:PerformActionUsage");
    reveal_strlit("sysml:");
    assert(ElementKind::PerformActionUsage.spec_xmi_type() =~= "sysml:"@ + "PerformActionUsage"@);
    assert(ElementKind::PerformActionUsage.spec_xsi_type() =~= "sysml:"@ + "PerformActionUsage"@);
}

/// How the type names of `ExhibitStateUsage` are built.
proof fn lemma_names_ExhibitStateUsage()
    ensures
        ElementKind::ExhibitStateUsage.spec_xmi_type() == "sysml:"@ + ElementKind::ExhibitStateUsage.spec_jsonld_type(),
        ElementKind::ExhibitStateUsage.spec_jsonld_type().len() > 0,
        ElementKind::ExhibitStateUsage.spec_xsi_type() == "sysml:"@ + ElementKind::ExhibitStateUsage.spec_jsonld_type(),
{
    lemma_suffix_sysml_ExhibitStateUsage();
    reveal_strlit("sysml:ExhibitStateUsage");
    reveal_strlit("sysml:");
    reveal_strlit("ExhibitStateUsage");
    reveal_strlit("sysml:ExhibitStateUsage");
    reveal_strlit("sysml:");
    assert(ElementKind::ExhibitStateUsage.spec_xmi_type() =~= "sysml:"@ + "ExhibitStateUsage"@);
    assert(ElementKind::ExhibitStateUsage.spec_xsi_type() =~= "sysml:"@ + "ExhibitStateUsage"@);
}

/// How the type names of `IncludeUseCaseUsage` are built.
proof fn lemma_names_IncludeUseCaseUsage()
    ensures
        ElementKind::IncludeUseCaseUsage.spec_xmi_type() == "sysml:"@ + ElementKind::IncludeUseCaseUsage.spec_jsonld_type(),
        ElementKind::IncludeUseCaseUsage.spec_jsonld_type().len() > 0,
        ElementKind::IncludeUseCaseUsage.spec_xsi_type() == "sysml:"@ + ElementKind::IncludeUseCaseUsage.spec_jsonld_type(),
{
    lemma_suffix_sysml_IncludeUseCaseUsage();
    reveal_strlit("sysml:IncludeUseCaseUsage");
    reveal_strlit("sysml:");
    reveal_strlit("IncludeUseCaseUsage");
    reveal_strlit("sysml:IncludeUseCaseUsage");
    reveal_strlit("sysml:");
    assert(ElementKind::IncludeUseCaseUsage.spec_xmi_type() =~= "sysml:"@ + "IncludeUseCaseUsage"@);
    assert(ElementKind::IncludeUseCaseUsage.spec_xsi_type() =~= "sysml:"@ + "IncludeUseCaseUsage"@);
}

/// How the type names of `AssertConstraintUsage` are built.
proof fn lemma_names_AssertConstraintUsage()
    ensures
        ElementKind::AssertConstraintUsage.spec_xmi_type() == "sysml:"@ + ElementKind::AssertConstraintUsage.spec_jsonld_type(),
        ElementKind::AssertConstraintUsage.spec_jsonld_type().len() > 0,
        ElementKind::AssertConstraintUsage.spec_xsi_type() == "sysml:"@ + ElementKind::AssertConstraintUsage.spec_jsonld_type(),
{
    lemma_suffix_sysml_AssertConstraintUsage();
    reveal_strlit("sysml:AssertConstraintUsage");
    reveal_strlit("sysml:");
    reveal_strlit("AssertConstraintUsage");
    reveal_strlit("sysml:AssertConstraintUsage");
    reveal_strlit("sysml:");
    assert(ElementKind::AssertConstraintUsage.spec_xmi_type() =~= "sysml:"@ + "AssertConstraintUsage"@);
    assert(ElementKind::AssertConstraintUsage.spec_xsi_type() =~= "sysml:"@ + "AssertConstraintUsage"@);
}

/// How the type names of `RequirementConstraintMembership` are built.
proof fn lemma_names_RequirementConstraintMembership()
    ensures
        ElementKind::RequirementConstraintMembership.spec_xmi_type() == "sysml:"@ + ElementKind::RequirementConstraintMembership.spec_jsonld_type(),
        ElementKind::RequirementConstraintMembership.spec_jsonld_type().len() > 0,
        ElementKind::RequirementConstraintMembership.spec_xsi_type() == "sysml:"@ + ElementKind::RequirementConstraintMembership.spec_jsonld_type(),
{
    lemma_suffix_sysml_RequirementConstraintMembership();
    reveal_strlit("sysml:RequirementConstraintMembership");
    reveal_strlit("sysml:");
    reveal_strlit("RequirementConstraintMembership");
    reveal_strlit("sysml:RequirementConstraintMembership");
    reveal_strlit("sysml:");
    assert(ElementKind::RequirementConstraintMembership.spec_xmi_type() =~= "sysml:"@ + "RequirementConstraintMembership"@);
    assert(ElementKind::RequirementConstraintMembership.spec_xsi_type() =~= "sysml:"@ + "RequirementConstraintMembership"@);
}

/// How the type names of `Satisfaction` are built.
proof fn lemma_names_Satisfaction()
    ensures
        ElementKind::Satisfaction.spec_xmi_type() == "sysml:"@ + ElementKind::Satisfaction.spec_jsonld_type(),
        ElementKind::Satisfaction.spec_jsonld_type().len() > 0,
        ElementKind::Satisfaction.spec_xsi_type() == "sysml:"@ + ElementKind::Satisfaction.spec_jsonld_type(),
{
    lemma_suffix_sysml_SatisfyRequirementUsage();
    reveal_strlit("sysml:SatisfyRequirementUsage");
    reveal_strlit("sysml:");
    reveal_strlit("SatisfyRequirementUsage");
    reveal_strlit("sysml:SatisfyRequirementUsage");
    reveal_strlit("sysml:");
    assert(ElementKind::Satisfaction.spec_xmi_type() =~= "sysml:"@ + "SatisfyRequirementUsage"@);
    assert(ElementKind::Satisfaction.spec_xsi_type() =~= "sysml:"@ + "SatisfyRequirementUsage"@);
}

/// How the type names of `Verification` are built.
proof fn lemma_names_Verification()
    ensures
        ElementKind::Verification.spec_xmi_type() == "sysml:"@ + ElementKind::Verification.spec_jsonld_type(),
        ElementKind::Verification.spec_jsonld_type().len() > 0,
        ElementKind::Verification.spec_xsi_type() == "sysml:"@ + ElementKind::Verification.spec_jsonld_type(),
{
    lemma_suffix_sysml_RequirementVerificationMembership();
    reveal_strlit("sysml:RequirementVerificationMembership");
    reveal_strlit("sysml:");
    reveal_strlit("RequirementVerificationMembership");
    reveal_strlit("sysml:RequirementVerificationMembership");
    reveal_strlit("sysml:");
    assert(ElementKind::Verification.spec_xmi_type() =~= "sysml:"@ + "RequirementVerificationMembership"@);
    assert(ElementKind::Verification.spec_xsi_type() =~= "sysml:"@ + "RequirementVerificationMembership"@);
}

/// How the type names of `Comment` are built.
proof fn lemma_names_Comment()
    ensures
        ElementKind::Comment.spec_xmi_type() == "kerml:"@ + ElementKind::Comment.spec_jsonld_type(),
        ElementKind::Comment.spec_jsonld_type().len() > 0,
        ElementKind::Comment.spec_xsi_type() == "sysml:"@ + ElementKind::Comment.spec_jsonld_type(),
{
    lemma_suffix_kerml_Comment();
    reveal_strlit("kerml:Comment");
    reveal_strlit("kerml:");
    reveal_strlit("Comment");
    reveal_strlit("sysml:Comment");
    reveal_strlit("sysml:");
    assert(ElementKind::Comment.spec_xmi_type() =~= "kerml:"@ + "Comment"@);
    assert(ElementKind::Comment.spec_xsi_type() =~= "sysml:"@ + "Comment"@);
}

/// How the type names of `Documentation` are built.
proof fn lemma_names_Documentation()
    ensures
        ElementKind::Documentation.spec_xmi_type() == "kerml:"@ + ElementKind::Documentation.spec_jsonld_type(),
        ElementKind::Documentation.spec_jsonld_type().len() > 0,
        ElementKind::Documentation.spec_xsi_type() == "sysml:"@ + ElementKind::Documentation.spec_jsonld_type(),
{
    lemma_suffix_kerml_Documentation();
    reveal_strlit("kerml:Documentation");
    reveal_strlit("kerml:");
    reveal_strlit("Documentation");
    reveal_strlit("sysml:Documentation");
    reveal_strlit("sysml:");
    assert(ElementKind::Documentation.spec_xmi_type() =~= "kerml:"@ + "Documentation"@);
    assert(ElementKind::Documentation.spec_xsi_type() =~= "sysml:"@ + "Documentation"@);
}

/// How the type names of `TextualRepresentation` are built.
proof fn lemma_names_TextualRepresentation()
    ensures
        ElementKind::TextualRepresentation.spec_xmi_type() == "kerml:"@ + ElementKind::TextualRepresentation.spec_jsonld_type(),
        ElementKind::TextualRepresentation.spec_jsonld_type().len() > 0,
        ElementKind::TextualRepresentation.spec_xsi_type() == "sysml:"@ + ElementKind::TextualRepresentation.spec_jsonld_type(),
{
    lemma_suffix_kerml_TextualRepresentation();
    reveal_strlit("kerml:TextualRepresentation");
    reveal_strlit("kerml:");
    reveal_strlit("TextualRepresentation");
    reveal_strlit("sysml:TextualRepresentation");
    reveal_strlit("sysml:");
    assert(ElementKind::TextualRepresentation.spec_xmi_type() =~= "kerml:"@ + "TextualRepresentation"@);
    assert(ElementKind::TextualRepresentation.spec_xsi_type() =~= "sysml:"@ + "TextualRepresentation"@);
}

/// How the type names of `Alias` are built.
proof fn lemma_names_Alias()
    ensures
        ElementKind::Alias.spec_xmi_type() == "kerml:"@ + ElementKind::Alias.spec_jsonld_type(),
        ElementKind::Alias.spec_jsonld_type().len() > 0,
        ElementKind::Alias.spec_xsi_type() == "sysml:"@ + ElementKind::Alias.spec_jsonld_type(),
{
    lemma_suffix_kerml_Membership();
    reveal_strlit("kerml:Membership");
    reveal_strlit("kerml:");
    reveal_strlit("Membership");
    reveal_strlit("sysml:Membership");
    reveal_strlit("sysml:");
    assert(ElementKind::Alias.spec_xmi_type() =~= "kerml:"@ + "Membership"@);
    assert(ElementKind::Alias.spec_xsi_type() =~= "sysml:"@ + "Membership"@);
}

/// How the type names of `MetadataUsage` are built.
proof fn lemma_names_MetadataUsage()
    ensures
        ElementKind::MetadataUsage.spec_xmi_type() == "sysml:"@ + ElementKind::MetadataUsage.spec_jsonld_type(),
        ElementKind::MetadataUsage.spec_jsonld_type().len() > 0,
        ElementKind::MetadataUsage.spec_xsi_type() == "sysml:"@ + ElementKind::MetadataUsage.spec_jsonld_type(),
{
    lemma_suffix_sysml_MetadataUsage();
    reveal_strlit("sysml:MetadataUsage");
    reveal_strlit("sysml:");
    reveal_strlit("MetadataUsage");
    reveal_strlit("sysml:MetadataUsage");
    reveal_strlit("sysml:");
    assert(ElementKind::MetadataUsage.spec_xmi_type() =~= "sysml:"@ + "MetadataUsage"@);
    assert(ElementKind::MetadataUsage.spec_xsi_type() =~= "sysml:"@ + "MetadataUsage"@);
}

/// How the type names of `AnnotatingElement` are built.
proof fn lemma_names_AnnotatingElement()
    ensures
        ElementKind::AnnotatingElement.spec_xmi_type() == "kerml:"@ + ElementKind::AnnotatingElement.spec_jsonld_type(),
        ElementKind::AnnotatingElement.spec_jsonld_type().len() > 0,
        ElementKind::AnnotatingElement.spec_xsi_type() == "sysml:"@ + ElementKind::AnnotatingElement.spec_jsonld_type(),
{
    lemma_suffix_kerml_AnnotatingElement();
    reveal_strlit("kerml:AnnotatingElement");
    reveal_strlit("kerml:");
    reveal_strlit("AnnotatingElement");
    reveal_strlit("sysml:AnnotatingElement");
    reveal_strlit("sysml:");
    assert(ElementKind::AnnotatingElement.spec_xmi_type() =~= "kerml:"@ + "AnnotatingElement"@);
    assert(ElementKind::AnnotatingElement.spec_xsi_type() =~= "sysml:"@ + "AnnotatingElement"@);
}

/// How the type names of `Annotation` are built.
proof fn lemma_names_Annotation()
    ensures
        ElementKind::Annotation.spec_xmi_type() == "kerml:"@ + ElementKind::Annotation.spec_jsonld_type(),
        ElementKind::Annotation.spec_jsonld_type().len() > 0,
        ElementKind::Annotation.spec_xsi_type() == "sysml:"@ + ElementKind::Annotation.spec_jsonld_type(),
{
    lemma_suffix_kerml_Annotation();
    reveal_strlit("kerml:Annotation");
    reveal_strlit("kerml:");
    reveal_strlit("Annotation");
    reveal_strlit("sysml:Annotation");
    reveal_strlit("sysml:");
    assert(ElementKind::Annotation.spec_xmi_type() =~= "kerml:"@ + "Annotation"@);
    assert(ElementKind::Annotation.spec_xsi_type() =~= "sysml:"@ + "Annotation"@);
}

/// How the type names of `Classifier` are built.
proof fn lemma_names_Classifier()
    ensures
        ElementKind::Classifier.spec_xmi_type() == "kerml:"@ + ElementKind::Classifier.spec_jsonld_type(),
        ElementKind::Classifier.spec_jsonld_type().len() > 0,
        ElementKind::Classifier.spec_xsi_type() == "sysml:"@ + ElementKind::Classifier.spec_jsonld_type(),
{
    lemma_suffix_kerml_Classifier();
    reveal_strlit("kerml:Classifier");
    reveal_strlit("kerml:");
    reveal_strlit("Classifier");
    reveal_strlit("sysml:Classifier");
    reveal_strlit("sysml:");
    assert(ElementKind::Classifier.spec_xmi_type() =~= "kerml:"@ + "Classifier"@);
    assert(ElementKind::Classifier.spec_xsi_type() =~= "sysml:"@ + "Classifier"@);
}

/// How the type names of `Metaclass` are built.
proof fn lemma_names_Metaclass()
    ensures
        ElementKind::Metaclass.spec_xmi_type() == "kerml:"@ + ElementKind::Metaclass.spec_jsonld_type(),
        ElementKind::Metaclass.spec_jsonld_type().len() > 0,
        ElementKind::Metaclass.spec_xsi_type() == "sysml:"@ + ElementKind::Metaclass.spec_jsonld_type(),
{
    lemma_suffix_kerml_Metaclass();
    reveal_strlit("kerml:Metaclass");
    reveal_strlit("kerml:");
    reveal_strlit("Metaclass");
    reveal_strlit("sysml:Metaclass");
    reveal_strlit("sysml:");
    assert(ElementKind::Metaclass.spec_xmi_type() =~= "kerml:"@ + "Metaclass"@);
    assert(ElementKind::Metaclass.spec_xsi_type() =~= "sysml:"@ + "Metaclass"@);
}

/// How the type names of `Other` are built.
proof fn lemma_names_Other()
    ensures
        ElementKind::Other.spec_xmi_type() == "kerml:"@ + ElementKind::Other.spec_jsonld_type(),
        ElementKind::Other.spec_jsonld_type().len() > 0,
        ElementKind::Other.spec_xsi_type() == "sysml:"@ + ElementKind::Other.spec_jsonld_type(),
{
    lemma_suffix_kerml_Element();
    reveal_strlit("kerml:Element");
    reveal_strlit("kerml:");
    reveal_strlit("Element");
    reveal_strlit("sysml:Element");
    reveal_strlit("sysml:");
    assert(ElementKind::Other.spec_xmi_type() =~= "kerml:"@ + "Element"@);
    assert(ElementKind::Other.spec_xsi_type() =~= "sysml:"@ + "Element"@);
}

/// Every kind's XMI type is `sysml:` or `kerml:` followed by its JSON-LD
/// type, which is not empty and holds no `:`; a SysML kind's XMI type has
/// the `sysml:` prefix; and the `xsi:type` is `sysml:` followed by the
/// JSON-LD type, but for `Specialization`, written `sysml:Subclassification`.
pub proof fn law_type_names(k: ElementKind)
    ensures
        k.spec_jsonld_type().len() > 0,
        !k.spec_jsonld_type().contains(':'),
        k.spec_xmi_type() == "sysml:"@ + k.spec_jsonld_type() || k.spec_xmi_type() == "kerml:"@ + k.spec_jsonld_type(),
        k.spec_is_sysml() ==> k.spec_xmi_type() == "sysml:"@ + k.spec_jsonld_type(),
        k != ElementKind::Specialization ==> k.spec_xsi_type() == "sysml:"@ + k.spec_jsonld_type(),
        k == ElementKind::Specialization ==> k.spec_xsi_type() == "sysml:"@ + "Subclassification"@,
{
    lemma_after_last_colon_has_no_colon(k.spec_xmi_type());
    assert(!k.spec_jsonld_type().contains(':'));
    match k {
        ElementKind::Namespace => lemma_names_Namespace(),
        ElementKind::Package => lemma_names_Package(),
        ElementKind::LibraryPackage => lemma_names_LibraryPackage(),
        ElementKind::Class => lemma_names_Class(),
        ElementKind::DataType => lemma_names_DataType(),
        ElementKind::Structure => lemma_names_Structure(),
        ElementKind::Association => lemma_names_Association(),
        ElementKind::AssociationStructure => lemma_names_AssociationStructure(),
        ElementKind::Interaction => lemma_names_Interaction(),
        ElementKind::Behavior => lemma_names_Behavior(),
        ElementKind::Function => lemma_names_Function(),
        ElementKind::Predicate => lemma_names_Predicate(),
        ElementKind::PartDefinition => lemma_names_PartDefinition(),
        ElementKind::ItemDefinition => lemma_names_ItemDefinition(),
        ElementKind::ActionDefinition => lemma_names_ActionDefinition(),
        ElementKind::PortDefinition => lemma_names_PortDefinition(),
        ElementKind::AttributeDefinition => lemma_names_AttributeDefinition(),
        ElementKind::ConnectionDefinition => lemma_names_ConnectionDefinition(),
        ElementKind::InterfaceDefinition => lemma_names_InterfaceDefinition(),
        ElementKind::AllocationDefinition => lemma_names_AllocationDefinition(),
        ElementKind::RequirementDefinition => lemma_names_RequirementDefinition(),
        ElementKind::ConstraintDefinition => lemma_names_ConstraintDefinition(),
        ElementKind::StateDefinition => lemma_names_StateDefinition(),
        ElementKind::CalculationDefinition => lemma_names_CalculationDefinition(),
        ElementKind::OccurrenceDefinition => lemma_names_OccurrenceDefinition(),
        ElementKind::UseCaseDefinition => lemma_names_UseCaseDefinition(),
        ElementKind::AnalysisCaseDefinition => lemma_names_AnalysisCaseDefinition(),
        ElementKind::VerificationCaseDefinition => lemma_names_VerificationCaseDefinition(),
        ElementKind::ConcernDefinition => lemma_names_ConcernDefinition(),
        ElementKind::ViewDefinition => lemma_names_ViewDefinition(),
        ElementKind::ViewpointDefinition => lemma_names_ViewpointDefinition(),
        ElementKind::RenderingDefinition => lemma_names_RenderingDefinition(),
        ElementKind::EnumerationDefinition => lemma_names_EnumerationDefinition(),
        ElementKind::MetadataDefinition => lemma_names_MetadataDefinition(),
        ElementKind::PartUsage => lemma_names_PartUsage(),
        ElementKind::ItemUsage => lemma_names_ItemUsage(),
        ElementKind::ActionUsage => lemma_names_ActionUsage(),
        ElementKind::PortUsage => lemma_names_PortUsage(),
        ElementKind::AttributeUsage => lemma_names_AttributeUsage(),
        ElementKind::ConnectionUsage => lemma_names_ConnectionUsage(),
        ElementKind::InterfaceUsage => lemma_names_InterfaceUsage(),
        ElementKind::AllocationUsage => lemma_names_AllocationUsage(),
        ElementKind::RequirementUsage => lemma_names_RequirementUsage(),
        ElementKind::ConstraintUsage => lemma_names_ConstraintUsage(),
        ElementKind::StateUsage => lemma_names_StateUsage(),
        ElementKind::TransitionUsage => lemma_names_TransitionUsage(),
        ElementKind::CalculationUsage => lemma_names_CalculationUsage(),
        ElementKind::ReferenceUsage => lemma_names_ReferenceUsage(),
        ElementKind::OccurrenceUsage => lemma_names_OccurrenceUsage(),
        ElementKind::UseCaseUsage => lemma_names_UseCaseUsage(),
        ElementKind::AnalysisCaseUsage => lemma_names_AnalysisCaseUsage(),
        ElementKind::VerificationCaseUsage => lemma_names_VerificationCaseUsage(),
        ElementKind::FlowConnectionUsage => lemma_names_FlowConnectionUsage(),
        ElementKind::SuccessionFlowConnectionUsage => lemma_names_SuccessionFlowConnectionUsage(),
        ElementKind::Feature => lemma_names_Feature(),
        ElementKind::Step => lemma_names_Step(),
        ElementKind::Expression => lemma_names_Expression(),
        ElementKind::BooleanExpression => lemma_names_BooleanExpression(),
        ElementKind::Invariant => lemma_names_Invariant(),
        ElementKind::Connector => lemma_names_Connector(),
        ElementKind::BindingConnector => lemma_names_BindingConnector(),
        ElementKind::Succession => lemma_names_Succession(),
        ElementKind::Flow => lemma_names_Flow(),
        ElementKind::MultiplicityRange => lemma_names_MultiplicityRange(),
        ElementKind::LiteralInteger => lemma_names_LiteralInteger(),
        ElementKind::LiteralReal => lemma_names_LiteralReal(),
        ElementKind::LiteralInfinity => lemma_names_LiteralInfinity(),
        ElementKind::LiteralBoolean => lemma_names_LiteralBoolean(),
        ElementKind::LiteralString => lemma_names_LiteralString(),
        ElementKind::NullExpression => lemma_names_NullExpression(),
        ElementKind::FeatureReferenceExpression => lemma_names_FeatureReferenceExpression(),
        ElementKind::OperatorExpression => lemma_names_OperatorExpression(),
        ElementKind::InvocationExpression => lemma_names_InvocationExpression(),
        ElementKind::FeatureChainExpression => lemma_names_FeatureChainExpression(),
        ElementKind::ConstructorExpression => lemma_names_ConstructorExpression(),
        ElementKind::Membership => lemma_names_Membership(),
        ElementKind::OwningMembership => lemma_names_OwningMembership(),
        ElementKind::FeatureMembership => lemma_names_FeatureMembership(),
        ElementKind::ReturnParameterMembership => lemma_names_ReturnParameterMembership(),
        ElementKind::ParameterMembership => lemma_names_ParameterMembership(),
        ElementKind::EndFeatureMembership => lemma_names_EndFeatureMembership(),
        ElementKind::ResultExpressionMembership => lemma_names_ResultExpressionMembership(),
        ElementKind::Import => lemma_names_Import(),
        ElementKind::NamespaceImport => lemma_names_NamespaceImport(),
        ElementKind::MembershipImport => lemma_names_MembershipImport(),
        ElementKind::Specialization => lemma_names_Specialization(),
        ElementKind::FeatureTyping => lemma_names_FeatureTyping(),
        ElementKind::Subsetting => lemma_names_Subsetting(),
        ElementKind::ReferenceSubsetting => lemma_names_ReferenceSubsetting(),
        ElementKind::CrossSubsetting => lemma_names_CrossSubsetting(),
        ElementKind::Redefinition => lemma_names_Redefinition(),
        ElementKind::Conjugation => lemma_names_Conjugation(),
        ElementKind::FeatureValue => lemma_names_FeatureValue(),
        ElementKind::FeatureChaining => lemma_names_FeatureChaining(),
        ElementKind::FeatureInverting => lemma_names_FeatureInverting(),
        ElementKind::Intersecting => lemma_names_Intersecting(),
        ElementKind::Disjoining => lemma_names_Disjoining(),
        ElementKind::Unioning => lemma_names_Unioning(),
        ElementKind::Dependency => lemma_names_Dependency(),
        ElementKind::PerformActionUsage => lemma_names_PerformActionUsage(),
        ElementKind::ExhibitStateUsage => lemma_names_ExhibitStateUsage(),
        ElementKind::IncludeUseCaseUsage => lemma_names_IncludeUseCaseUsage(),
        ElementKind::AssertConstraintUsage => lemma_names_AssertConstraintUsage(),
        ElementKind::RequirementConstraintMembership => lemma_names_RequirementConstraintMembership(),
        ElementKind::Satisfaction => lemma_names_Satisfaction(),
        ElementKind::Verification => lemma_names_Verification(),
        ElementKind::Comment => lemma_names_Comment(),
        ElementKind::Documentation => lemma_names_Documentation(),
        ElementKind::TextualRepresentation => lemma_names_TextualRepresentation(),
        ElementKind::Alias => lemma_names_Alias(),
        ElementKind::MetadataUsage => lemma_names_MetadataUsage(),
        ElementKind::AnnotatingElement => lemma_names_AnnotatingElement(),
        ElementKind::Annotation => lemma_names_Annotation(),
        ElementKind::Classifier => lemma_names_Classifier(),
        ElementKind::Metaclass => lemma_names_Metaclass(),
        ElementKind::Other => lemma_names_Other(),
    }
}


/// The KerML connectors: a connector and its kinds, binding connectors,
/// successions and flows.
pub open spec fn is_connector_kind(k: ElementKind) -> bool {
    k == ElementKind::Connector || k == ElementKind::BindingConnector || k == ElementKind::Succession
        || k == ElementKind::Flow
}

/// The literal expressions, `null` included.
pub open spec fn is_literal_kind(k: ElementKind) -> bool {
    k == ElementKind::LiteralInteger || k == ElementKind::LiteralReal || k == ElementKind::LiteralInfinity
        || k == ElementKind::LiteralBoolean || k == ElementKind::LiteralString || k == ElementKind::NullExpression
}

/// The other expressions that stand in a model: feature references,
/// operator applications, invocations, feature chains and constructors.
pub open spec fn is_compound_expression_kind(k: ElementKind) -> bool {
    k == ElementKind::FeatureReferenceExpression || k == ElementKind::OperatorExpression
        || k == ElementKind::InvocationExpression || k == ElementKind::FeatureChainExpression
        || k == ElementKind::ConstructorExpression
}

/// Usages, connectors, literals, expressions and multiplicity ranges are
/// features, and nothing else is, so a membership that wraps one is a feature membership; a
/// definition is not, and is wrapped in an owning membership.
pub proof fn law_feature_kinds(k: ElementKind)
    ensures
        k.spec_is_usage() ==> k.spec_is_feature_kind(),
        is_connector_kind(k) ==> k.spec_is_feature_kind(),
        is_literal_kind(k) ==> k.spec_is_feature_kind(),
        is_compound_expression_kind(k) ==> k.spec_is_feature_kind(),
        k == ElementKind::MultiplicityRange ==> k.spec_is_feature_kind(),
        k.spec_is_feature_kind() <==> (k.spec_is_usage() || is_connector_kind(k) || is_literal_kind(k)
            || is_compound_expression_kind(k) || k == ElementKind::MultiplicityRange),
        k.spec_is_feature_kind() <==> ElementKind::spec_membership_kind_for(k) == ElementKind::FeatureMembership,
        !k.spec_is_feature_kind() <==> ElementKind::spec_membership_kind_for(k) == ElementKind::OwningMembership,
        k.spec_is_definition() ==> ElementKind::spec_membership_kind_for(k) == ElementKind::OwningMembership,
{
}

} // verus!
