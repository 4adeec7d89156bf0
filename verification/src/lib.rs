//! Source-attributed part knowledge graph carriers.
//!
//! `hyperparts` owns cross-domain part knowledge: families, variants,
//! revisions, subparts, terminals, interfaces, compatibility relations,
//! tool/process capabilities, import reports, and query evidence. It does not
//! own downstream geometry, physics, circuit solving, routing, or fabrication
//! kernels; it indexes and hands off to those crates.
//!
//! Source data is retained as attributed facts, exact values, or explicit
//! unknowns. Missing catalog, EDA, or manufacturing fields are not guessed into
//! primitive floats or silent defaults. Every operation states its result in
//! its contract, over the text of identifiers and exact spellings.
pub mod text;
pub mod keyed;
pub mod error;
pub mod identity;
pub mod exact;
pub mod predicate;
pub mod interface;
pub mod assertion;
pub mod compatibility;
pub mod geometry;
pub mod process;
pub mod query;
pub mod physics;
pub mod electronics;
pub mod graph;
pub mod eda_intake;
pub mod intake_log;
pub mod intake_parse;
pub mod intake_records;

pub use assertion::{
    Assertion, AssertionCondition, AssertionConfidence, AssertionStatus, AssertionValue,
    ComplianceClaim, GeneralPartAssertion, PartAssertion, PartKnowledgeReport, PartLifecycle,
    ProcurementOffer, SourceRef, SourceRevision,
};
pub use compatibility::{
    CompatibilityClass, CompatibilityKind, CompatibilityRelation, ConnectionDecision,
    InteractionKind, Relationship, RelationshipKind,
};
pub use eda_intake::{
    import_eda_authoring_bundle, AutorouterOutputRecord, CircuitJsonSourceRecord,
    CircuitResidualFactHandoff, CircuitResidualParameter, DrcFabricationHandoff,
    EdaAuthoringBundle, EdaAuthoringImportResult, EdaExactField, EdaFabricationReadiness,
    EdaFootprintString, EdaHandoffStatus, EdaIntakeStatus, EdaModelStatus, EdaPackageMetadata,
    EdaPackagePin, EdaRouteStatus, FabricationOutputRecord, GeneratedModelReference,
    RouteGeometryHandoff,
};
pub use electronics::{
    AbsoluteMaximumRating, CurrentLimit, DieNet, DiePort, ElectricalCompatibilityReport,
    ElectricalFactStatus, ElectronicPackage, ElectronicPart, GroundReference, PinFunction, PinMap,
    Pinout, PowerDomain, PowerIntent, RecommendedOperatingCondition, SafeConnectionReport,
    SupplyRail, VoltageRange,
};
pub use error::{PartsError, PartsResult};
pub use exact::{Comparison, ExactValue};
pub use geometry::{
    CurveProfileHandle, FootprintHandle, GeometryHandle, GeometryHandoffReport, GeometryStatus,
    GridFeature, GridSystem, ModelArtifact, MountingPattern, PackageBodyHandle, ShapeSource,
};
pub use graph::{
    ImportIssue, ImportIssueKind, ImportReport, ImportTargetKind, PartFamily, PartGraph,
    PartQueryEvidence, PartQueryResult, PartVariant,
};
pub use identity::{
    InternalPartNumber, ManufacturerPartNumber, PartId, RevisionId, SupplierSku, TerminalId,
    VariantId,
};
pub use interface::{
    AspectKind, ElectricalPolarity, Hole, Interface, InterfaceKind, Lead, MaterialRegion,
    MountingFeature, Pad, PartAspect, Pin, Port, ReferenceDesignatorClass, Terminal, TerminalRole,
    VoltageEnvelope,
};
pub use physics::{
    EnvironmentalEnvelope, MassPropertyNeed, MaterialRequirement, MechanicalLoadPath,
    PhysicalFactStatus, PhysicalPropertyHandle, PhysicsHandoffReport, ThermalPath,
};
pub use process::{
    CalibrationState, Capability, CapabilityEnvelope, CapabilityInput, CapabilityOutput,
    CapabilityStatus, ConsumableRequirement, FixtureRequirement, ManufacturingRoute, Operation,
    Process, ProcessCapability, ProcessKind, ToleranceEnvelope, ToolCapability, ToolPart,
};
pub use query::{
    CapabilityQuery, CompatibilityQuery, ElectricalQuery, GeometryQuery, InterfaceQuery,
    PartConstraint, PartQuery, PhysicsQuery, ProcurementQuery, QueryCandidate, QueryEvidence,
    QueryMatchStatus, QueryResult, QueryUnknown, TerminalQuery,
};
