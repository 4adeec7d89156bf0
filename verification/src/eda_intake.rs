//! EDA authoring and interchange intake reports.
//!
//! This module is the source boundary for tscircuit-like authoring bundles:
//! Circuit JSON records, footprint strings, generated model references, package
//! metadata, and autorouter/fabrication artifacts enter as attributed records
//! and leave as explicit handoff reports. Exact strings are kept as
//! [`ExactValue`]s once `hyperreal` accepts them, while missing, lossy, or
//! unresolved fields remain report entries instead of being guessed into
//! primitive floats.

use vstd::prelude::*;

use crate::assertion::SourceRef;
use crate::electronics::PinFunction;
use crate::exact::ExactValue;
use crate::geometry::{GeometryHandle, GeometryHandoffReport};
use crate::graph::{ImportReport, PartFamily, PartGraph, PartQueryEvidence, PartVariant};
use crate::identity::{PartId, VariantId};
use crate::intake_log::{
    intake_status, lemma_buckets_concat, lemma_unknowns_listed_for_review, lossy_of, parsed_of,
    rejected_of, report_is, review_of, unknown_count, unresolved_of, ImportIssueBuilder,
    IssueEvent,
};
use crate::intake_parse::{
    exact_field_events, exact_field_outcome, exact_value_outcome, opt_view, FieldOutcome,
};
use crate::exact::{decimal_spelling, fraction_spelling, unsigned_part, ascii_digits};
use crate::intake_records::{
    lemma_exact_route_needs_grid,
    aspect_rel, assertion_rel, circuit_rel, circuits_accepted, circuits_assertions,
    circuits_events, extends_by, fabrication_rel, fabrications_accepted, fabrications_events,
    footprint_aspects, footprint_assertions, footprint_events, import_circuit_records,
    import_fabrication, import_footprint, import_models, import_package, import_routes,
    interface_rel, lemma_extends_trans, lemma_variant_grows_trans, model_rel, models_accepted,
    models_assertions, models_events, package_aspects, package_assertions,
    package_events, package_interfaces, package_pins, route_rel, routes_accepted, routes_events,
    terminals_after_pins, AssertionDesc, circuit_handoff_status, circuit_record_events,
    circuit_record_unknowns, field_path, fields_events, fields_params, fields_unknowns,
    lemma_refused_circuits_rejected, lemma_refused_fabrications_rejected,
    lemma_refused_models_rejected, lemma_refused_routes_rejected, record_path,
    lemma_circuits_parse_only_when_accepted, lemma_fabrications_parse_only_when_accepted,
    lemma_models_parse_only_when_accepted, lemma_routes_parse_only_when_accepted,
};
use crate::keyed::{lemma_lookup_cases, lookup};
use crate::process::ProcessKind;
use crate::text::{
    ascii_lower, blank, eq_ignore_ascii_case, is_blank, is_space, leading_space, trailing_space,
    trim,
};

verus! {


/// Overall status for an EDA authoring intake.
#[derive(Clone, Copy, Debug, PartialEq, Eq, Structural)]
pub enum EdaIntakeStatus {
    /// Every imported source fact was exact or certified.
    Accepted,
    /// Import succeeded with explicit unknowns that downstream crates must keep visible.
    AcceptedWithUnknowns,
    /// Import succeeded but rejected, lossy, conflicting, or review-only fields are present.
    NeedsReview,
    /// No authoritative part, circuit, package, route, model, or fabrication fact was importable.
    Rejected,
}

/// Status for a downstream handoff record.
#[derive(Clone, Copy, Debug, PartialEq, Eq, Structural)]
pub enum EdaHandoffStatus {
    /// Handoff contains exact symbolic source facts.
    Exact,
    /// Handoff contains certified imported facts.
    Certified,
    /// Handoff exists, but humans or domain-specific validators must review it.
    NeedsReview,
    /// Source was inspected but did not provide enough information.
    Unknown,
    /// Source field was present but unusable for the target owner.
    Rejected,
}

/// Geometry certainty carried by generated model references.
#[derive(Clone, Copy, Debug, PartialEq, Eq, Structural)]
pub enum EdaModelStatus {
    /// Native exact model or exact construction handle.
    Exact,
    /// Reviewed model artifact that can be treated as certified input.
    Certified,
    /// Mesh or preview artifact with known lossy conversion.
    LossyPreview,
    /// Browser/viewer-only artifact that must not feed exact kernels.
    DisplayOnly,
    /// Source referenced a model but did not provide a usable handle.
    Missing,
}

/// Route geometry certainty carried by autorouter output.
#[derive(Clone, Copy, Debug, PartialEq, Eq, Structural)]
pub enum EdaRouteStatus {
    /// Route geometry is exact symbolic geometry.
    Exact,
    /// Route geometry has been reviewed or certified by the source boundary.
    Certified,
    /// Route geometry is a lossy preview or sampled polyline.
    Lossy,
    /// Route geometry was referenced but not available.
    Missing,
}

/// Fabrication/readiness status carried toward `hyperdrc`.
#[derive(Clone, Copy, Debug, PartialEq, Eq, Structural)]
pub enum EdaFabricationReadiness {
    /// Fabrication evidence says the artifact is ready for rule checking or release.
    Ready,
    /// Fabrication evidence exists but requires review.
    NeedsReview,
    /// Fabrication evidence reports a failed or blocked output.
    Failed,
    /// Source was inspected but readiness is unknown.
    Unknown,
}

/// Exact source field represented as text, never as a primitive float.
///
/// Numeric strings are checked against `hyperreal::Real` parsing by the intake pass.
/// JavaScript/JSON decimal spelling is retained as source text and converted to
/// exact arithmetic only after validation.
#[derive(Clone, Debug, Eq, PartialEq)]
pub struct EdaExactField {
    /// Field path relative to the source record.
    pub field: String,
    /// Source numeric text. `None` means the source was inspected and omitted it.
    pub value: Option<String>,
    /// Unit label retained with the exact value.
    pub unit: Option<String>,
}

/// Circuit JSON-like source record.
#[derive(Clone, Debug, Eq, PartialEq)]
pub struct CircuitJsonSourceRecord {
    /// Source record id.
    pub id: String,
    /// Source record kind, such as `resistor`, `capacitor`, `trace`, or `chip`.
    pub kind: String,
    /// Optional reference designator.
    pub reference: Option<String>,
    /// Source nets connected to this record.
    pub nets: Vec<String>,
    /// Exact numeric fields such as resistance, capacitance, width, or clearance.
    pub exact_fields: Vec<EdaExactField>,
}

/// Footprint expression generated or referenced by an EDA authoring source.
#[derive(Clone, Debug, Eq, PartialEq)]
pub struct EdaFootprintString {
    /// Stable footprint handle.
    pub handle: String,
    /// Source expression, for example `soic:pins=8,pitch=1.27mm`.
    pub expression: String,
}

/// Generated model or preview reference.
#[derive(Clone, Debug, Eq, PartialEq)]
pub struct GeneratedModelReference {
    /// Stable source model handle.
    pub handle: String,
    /// Owning generator, package, or artifact family.
    pub owner: String,
    /// Artifact format such as `step`, `wrl`, `stl`, or `preview`.
    pub format: String,
    /// Optional path/URI retained for provenance.
    pub uri: Option<String>,
    /// Units associated with geometry, when known.
    pub units: Option<String>,
    /// Declared model certainty.
    pub status: EdaModelStatus,
}

/// Package pin metadata.
#[derive(Clone, Debug, Eq, PartialEq)]
pub struct EdaPackagePin {
    /// Stable terminal id text.
    pub terminal: String,
    /// Display pin/pad name.
    pub name: String,
    /// Semantic pin function.
    pub function: PinFunction,
    /// Optional exact minimum voltage text.
    pub voltage_min: Option<String>,
    /// Optional exact maximum voltage text.
    pub voltage_max: Option<String>,
}

/// Package metadata imported from the authoring bundle.
#[derive(Clone, Debug, Eq, PartialEq)]
pub struct EdaPackageMetadata {
    /// Package display name.
    pub name: String,
    /// Package/footprint aspect handle.
    pub handle: String,
    /// Declared terminal count.
    pub terminal_count: Option<usize>,
    /// Source pin entries.
    pub pins: Vec<EdaPackagePin>,
}

/// Autorouter output record carried toward `hyperpath`.
///
/// The route handoff cites Lee, "An Algorithm for Path Connections and Its
/// Applications," *IRE Transactions on Electronic Computers*, 1961, because
/// EDA autorouter output must be retained as route facts for a routing/path
/// owner, not reinterpreted as certified part geometry by this catalog crate.
#[derive(Clone, Debug, Eq, PartialEq)]
pub struct AutorouterOutputRecord {
    /// Stable route id.
    pub route_id: String,
    /// Net name routed by this output.
    pub net: String,
    /// Geometry handle supplied by the router or source.
    pub geometry_handle: Option<String>,
    /// Units associated with route geometry.
    pub units: Option<String>,
    /// Optional exact grid/step used by the router.
    pub exact_grid: Option<String>,
    /// Declared route geometry status.
    pub status: EdaRouteStatus,
}

/// Fabrication artifact or readiness output carried toward `hyperdrc`.
#[derive(Clone, Debug, Eq, PartialEq)]
pub struct FabricationOutputRecord {
    /// Stable fabrication artifact id.
    pub artifact_id: String,
    /// Artifact format such as `gerber`, `excellon`, `ipc2581`, or `bom`.
    pub format: String,
    /// Process family represented by the artifact.
    pub process: ProcessKind,
    /// Declared readiness status.
    pub readiness: EdaFabricationReadiness,
    /// Source notes retained as evidence.
    pub notes: Vec<String>,
}

/// Complete tscircuit-like authoring bundle accepted by this intake pass.
#[derive(Clone, Debug, Eq, PartialEq)]
pub struct EdaAuthoringBundle {
    /// Source evidence for all records in this bundle.
    pub source: SourceRef,
    /// Target part family.
    pub part: PartId,
    /// Target part variant.
    pub variant: VariantId,
    /// Human-readable family name.
    pub display_name: String,
    /// Circuit JSON-like records.
    pub circuit_records: Vec<CircuitJsonSourceRecord>,
    /// Optional generated or referenced footprint expression.
    pub footprint: Option<EdaFootprintString>,
    /// Generated model or preview references.
    pub model_references: Vec<GeneratedModelReference>,
    /// Package metadata.
    pub package: Option<EdaPackageMetadata>,
    /// Autorouter outputs.
    pub routes: Vec<AutorouterOutputRecord>,
    /// Fabrication/readiness outputs.
    pub fabrication: Vec<FabricationOutputRecord>,
}

/// Exact circuit parameter passed to `hypercircuit`.
#[derive(Clone, Debug, PartialEq)]
pub struct CircuitResidualParameter {
    /// Source field path.
    pub field: String,
    /// Exact value.
    pub value: ExactValue,
    /// Unit label.
    pub unit: Option<String>,
}

/// Circuit residual-fact handoff to `hypercircuit`.
///
/// Topology/model records and exact parameter facts remain separate from
/// numerical solution. `hyperparts` records the source evidence and leaves
/// stamping and residual semantics to `hypercircuit`.
#[derive(Clone, Debug, PartialEq)]
pub struct CircuitResidualFactHandoff {
    /// Downstream owner.
    pub owner: String,
    /// Model/residual handle for the downstream owner.
    pub model_handle: String,
    /// Source record id.
    pub source_record_id: String,
    /// Source record kind.
    pub record_kind: String,
    /// Source nets.
    pub nets: Vec<String>,
    /// Exact numeric parameters accepted for residual construction.
    pub exact_parameters: Vec<CircuitResidualParameter>,
    /// Handoff status.
    pub status: EdaHandoffStatus,
    /// Evidence used to create the handoff.
    pub evidence: PartQueryEvidence,
    /// Explicit unknowns that block a certified residual handoff.
    pub unknowns: Vec<String>,
}

/// Route geometry handoff to `hyperpath`.
#[derive(Clone, Debug, PartialEq)]
pub struct RouteGeometryHandoff {
    /// Downstream owner.
    pub owner: String,
    /// Route id.
    pub route_id: String,
    /// Net name.
    pub net: String,
    /// Geometry handle owned by the route/path layer.
    pub geometry: Option<GeometryHandle>,
    /// Exact routing grid/step, when supplied.
    pub exact_grid: Option<ExactValue>,
    /// Handoff status.
    pub status: EdaHandoffStatus,
    /// Evidence used to create the handoff.
    pub evidence: PartQueryEvidence,
    /// Explicit unknowns that block exact route consumption.
    pub unknowns: Vec<String>,
}

/// Fabrication/readiness handoff to `hyperdrc`.
#[derive(Clone, Debug, PartialEq)]
pub struct DrcFabricationHandoff {
    /// Downstream owner.
    pub owner: String,
    /// Fabrication artifact id.
    pub artifact_id: String,
    /// Artifact format.
    pub format: String,
    /// Process family represented by the artifact.
    pub process: ProcessKind,
    /// Declared readiness.
    pub readiness: EdaFabricationReadiness,
    /// Handoff status.
    pub status: EdaHandoffStatus,
    /// Evidence used to create the handoff.
    pub evidence: PartQueryEvidence,
    /// Explicit unknowns that block release/certification.
    pub unknowns: Vec<String>,
}

/// Full result of an EDA authoring intake.
#[derive(Clone, Debug, PartialEq)]
pub struct EdaAuthoringImportResult {
    /// Populated part graph containing exact part assertions and import report.
    pub graph: PartGraph,
    /// Structured import audit report.
    pub import_report: ImportReport,
    /// Overall intake status.
    pub status: EdaIntakeStatus,
    /// Geometry/model handoffs retained for downstream geometry owners.
    pub geometry_handoffs: Vec<GeometryHandoffReport>,
    /// Circuit residual facts destined for `hypercircuit`.
    pub circuit_handoffs: Vec<CircuitResidualFactHandoff>,
    /// Route geometry destined for `hyperpath`.
    pub route_handoffs: Vec<RouteGeometryHandoff>,
    /// Fabrication/readiness evidence destined for `hyperdrc`.
    pub drc_handoffs: Vec<DrcFabricationHandoff>,
}



/// Every circuit handoff is exact.
pub open spec fn circuit_all_exact(s: Seq<CircuitResidualFactHandoff>) -> bool {
    forall|i: int| 0 <= i < s.len() ==> (#[trigger] s[i]).status == EdaHandoffStatus::Exact
}

/// Every route handoff is exact.
pub open spec fn route_all_exact(s: Seq<RouteGeometryHandoff>) -> bool {
    forall|i: int| 0 <= i < s.len() ==> (#[trigger] s[i]).status == EdaHandoffStatus::Exact
}

/// Every fabrication handoff is certified.
pub open spec fn drc_all_certified(s: Seq<DrcFabricationHandoff>) -> bool {
    forall|i: int| 0 <= i < s.len() ==> (#[trigger] s[i]).status == EdaHandoffStatus::Certified
}

impl EdaAuthoringImportResult {
    /// Accepted, every circuit and route handoff exact, and every fabrication
    /// handoff certified.
    pub open spec fn spec_exact_ready(&self) -> bool {
        &&& self.status == EdaIntakeStatus::Accepted
        &&& circuit_all_exact(self.circuit_handoffs@)
        &&& route_all_exact(self.route_handoffs@)
        &&& drc_all_certified(self.drc_handoffs@)
    }

    /// Returns true when no unknown, lossy, rejected, or review-only facts remain.
    pub fn is_exact_ready(&self) -> (r: bool)
        ensures
            r == self.spec_exact_ready(),
    {
        if self.status != EdaIntakeStatus::Accepted {
            return false;
        }
        let mut i: usize = 0;
        while i < self.circuit_handoffs.len()
            invariant
                i <= self.circuit_handoffs@.len(),
                forall|j: int|
                    0 <= j < i ==> (#[trigger] self.circuit_handoffs@[j]).status
                        == EdaHandoffStatus::Exact,
            decreases self.circuit_handoffs.len() - i,
        {
            if self.circuit_handoffs[i].status != EdaHandoffStatus::Exact {
                return false;
            }
            i = i + 1;
        }
        let mut k: usize = 0;
        while k < self.route_handoffs.len()
            invariant
                k <= self.route_handoffs@.len(),
                forall|j: int|
                    0 <= j < k ==> (#[trigger] self.route_handoffs@[j]).status
                        == EdaHandoffStatus::Exact,
            decreases self.route_handoffs.len() - k,
        {
            if self.route_handoffs[k].status != EdaHandoffStatus::Exact {
                return false;
            }
            k = k + 1;
        }
        let mut m: usize = 0;
        while m < self.drc_handoffs.len()
            invariant
                m <= self.drc_handoffs@.len(),
                forall|j: int|
                    0 <= j < m ==> (#[trigger] self.drc_handoffs@[j]).status
                        == EdaHandoffStatus::Certified,
            decreases self.drc_handoffs.len() - m,
        {
            if self.drc_handoffs[m].status != EdaHandoffStatus::Certified {
                return false;
            }
            m = m + 1;
        }
        true
    }
}

/// Every audit event of an intake, in the order the pass takes the bundle:
/// circuit records, footprint, models, package, routes, fabrication, and
/// finally the family name.
pub open spec fn intake_events(b: EdaAuthoringBundle) -> Seq<IssueEvent> {
    circuits_events(b.circuit_records@) + footprint_events(b) + models_events(
        b.model_references@,
    ) + package_events(b) + routes_events(b.routes@) + fabrications_events(b.fabrication@) + if is_blank(
        b.display_name@,
    ) {
        seq![
            IssueEvent::Review(
                "display_name"@,
                "bundle display name was empty; part id used as family name"@,
            ),
        ]
    } else {
        Seq::empty()
    }
}

/// The family name: the display name, or the part id when it is blank.
pub open spec fn intake_family_name(b: EdaAuthoringBundle) -> Seq<char> {
    if is_blank(b.display_name@) {
        b.part@
    } else {
        b.display_name@
    }
}

/// Some authoritative fact was importable: a handoff, a package, or a footprint.
pub open spec fn intake_imported_any(b: EdaAuthoringBundle) -> bool {
    ||| circuits_accepted(b.circuit_records@).len() > 0
    ||| models_accepted(b.model_references@).len() > 0
    ||| routes_accepted(b.routes@).len() > 0
    ||| fabrications_accepted(b.fabrication@).len() > 0
    ||| b.package is Some
    ||| b.footprint is Some
}

/// The assertions of the imported variant, in order.
pub open spec fn intake_assertions(b: EdaAuthoringBundle) -> Seq<AssertionDesc> {
    circuits_assertions(b, b.circuit_records@) + footprint_assertions(b) + models_assertions(
        b.model_references@,
    ) + package_assertions(b)
}

/// `v` is the variant the intake builds from `b`.
pub open spec fn intake_variant(v: PartVariant, b: EdaAuthoringBundle) -> bool {
    &&& v.spec_id() == b.variant
    &&& v.spec_revision() is None
    &&& extends_by(v.spec_assertions(), Seq::empty(), intake_assertions(b), assertion_rel(b.source))
    &&& extends_by(
        v.spec_aspects(),
        Seq::empty(),
        footprint_aspects(b) + package_aspects(b),
        aspect_rel(),
    )
    &&& terminals_after_pins(v.spec_terminals(), Seq::empty(), package_pins(b))
    &&& extends_by(v.spec_interfaces(), Seq::empty(), package_interfaces(b), interface_rel())
    &&& v.spec_subparts().len() == 0
    &&& v.spec_processes().len() == 0
    &&& v.wf()
}

/// `g` holds exactly one family, the intake's, whose only variant is the
/// intake's, and the intake's import report.
pub open spec fn intake_graph(g: PartGraph, b: EdaAuthoringBundle, report: ImportReport) -> bool {
    &&& g.wf()
    &&& g.spec_families().len() == 1
    &&& lookup(g.spec_families(), b.part@) matches Some(f) && f.spec_id() == b.part
        && f.spec_name() == intake_family_name(b) && f.wf() && (lookup(
        f.spec_variants(),
        b.variant@,
    ) matches Some(v) && intake_variant(v, b)) && forall|k: Seq<char>|
        k != b.variant@ ==> #[trigger] lookup(f.spec_variants(), k) is None
    &&& g.spec_compatibility().len() == 0
    &&& g.spec_relationships().len() == 0
    &&& g.spec_capabilities().len() == 0
    &&& g.spec_routes().len() == 0
    &&& g.spec_tools().len() == 0
    &&& g.spec_imports().len() == 1
    &&& g.spec_imports()[0].same_as(&report)
}

/// Imports a tscircuit-like EDA authoring bundle into exact part assertions and
/// downstream handoff reports.
///
/// This function is intentionally report-bearing rather than fallible for most
/// source defects: a malformed footprint parameter, lossy preview model, or
/// missing voltage range is retained in [`ImportReport`] so callers can show the
/// exact blocker instead of losing provenance at the API boundary.
pub fn import_eda_authoring_bundle(bundle: EdaAuthoringBundle) -> (r: EdaAuthoringImportResult)
    ensures
        report_is(r.import_report, bundle.source, intake_events(bundle)),
        r.status == intake_status(intake_events(bundle), intake_imported_any(bundle)),
        intake_graph(r.graph, bundle, r.import_report),
        extends_by(
            r.circuit_handoffs@,
            Seq::empty(),
            circuits_accepted(bundle.circuit_records@),
            circuit_rel(bundle),
        ),
        extends_by(
            r.geometry_handoffs@,
            Seq::empty(),
            models_accepted(bundle.model_references@),
            model_rel(bundle),
        ),
        extends_by(
            r.route_handoffs@,
            Seq::empty(),
            routes_accepted(bundle.routes@),
            route_rel(bundle),
        ),
        extends_by(
            r.drc_handoffs@,
            Seq::empty(),
            fabrications_accepted(bundle.fabrication@),
            fabrication_rel(bundle),
        ),
{
    let mut issues = ImportIssueBuilder::new(bundle.source.clone());
    let mut variant = PartVariant::new(bundle.variant.clone(), None);
    let mut geometry_handoffs: Vec<GeometryHandoffReport> = Vec::new();
    let mut circuit_handoffs: Vec<CircuitResidualFactHandoff> = Vec::new();
    let mut route_handoffs: Vec<RouteGeometryHandoff> = Vec::new();
    let mut drc_handoffs: Vec<DrcFabricationHandoff> = Vec::new();
    let ghost v0 = variant;

    import_circuit_records(&bundle, &mut variant, &mut circuit_handoffs, &mut issues);
    let ghost v1 = variant;
    import_footprint(&bundle, &mut variant, &mut issues);
    let ghost v2 = variant;
    import_models(&bundle, &mut variant, &mut geometry_handoffs, &mut issues);
    let ghost v3 = variant;
    proof {
        lemma_variant_grows_trans(
            v0,
            v1,
            v2,
            circuits_assertions(bundle, bundle.circuit_records@),
            footprint_assertions(bundle),
            Seq::empty(),
            footprint_aspects(bundle),
            bundle.source,
        );
        lemma_variant_grows_trans(
            v0,
            v2,
            v3,
            circuits_assertions(bundle, bundle.circuit_records@) + footprint_assertions(bundle),
            models_assertions(bundle.model_references@),
            Seq::empty() + footprint_aspects(bundle),
            Seq::empty(),
            bundle.source,
        );
        assert(v3.spec_terminals() == v0.spec_terminals());
        assert(v3.wf());
    }
    import_package(&bundle, &mut variant, &mut issues);
    let ghost v4 = variant;
    proof {
        lemma_extends_trans(
            v0.spec_assertions(),
            v3.spec_assertions(),
            v4.spec_assertions(),
            circuits_assertions(bundle, bundle.circuit_records@) + footprint_assertions(bundle)
                + models_assertions(bundle.model_references@),
            package_assertions(bundle),
            assertion_rel(bundle.source),
        );
        lemma_extends_trans(
            v0.spec_aspects(),
            v3.spec_aspects(),
            v4.spec_aspects(),
            Seq::empty() + footprint_aspects(bundle) + Seq::empty(),
            package_aspects(bundle),
            aspect_rel(),
        );
        assert(Seq::empty() + footprint_aspects(bundle) + Seq::empty() + package_aspects(bundle)
            =~= footprint_aspects(bundle) + package_aspects(bundle));
        assert(v0.spec_assertions() =~= Seq::<crate::assertion::PartAssertion>::empty());
        assert(v0.spec_aspects() =~= Seq::<crate::interface::PartAspect>::empty());
        assert(v0.spec_terminals() =~= Seq::<crate::interface::Terminal>::empty());
        assert(v0.spec_interfaces() =~= Seq::<crate::interface::Interface>::empty());
        assert(intake_variant(v4, bundle));
    }
    import_routes(&bundle, &mut route_handoffs, &mut issues);
    import_fabrication(&bundle, &mut drc_handoffs, &mut issues);

    let mut graph = PartGraph::default();
    let name = if blank(bundle.display_name.as_str()) {
        issues.review(
            String::from_str("display_name"),
            String::from_str("bundle display name was empty; part id used as family name"),
        );
        String::from_str(bundle.part.as_str())
    } else {
        bundle.display_name.clone()
    };
    let mut family = PartFamily::new(bundle.part.clone(), name.as_str());
    family.insert_variant(variant);
    graph.insert_family(family);

    let imported_any = circuit_handoffs.len() != 0 || geometry_handoffs.len() != 0
        || route_handoffs.len() != 0 || drc_handoffs.len() != 0 || bundle.package.is_some()
        || bundle.footprint.is_some();
    let status = issues.status(imported_any);
    let ghost events = issues.log();
    let import_report = issues.finish();
    graph.add_import_report(import_report.clone());
    proof {
        assert(events =~= intake_events(bundle));
        assert(Seq::<CircuitResidualFactHandoff>::empty().take(0) =~= Seq::empty());
        lemma_lookup_cases(graph.spec_families(), bundle.part@);
        assert forall|k: Seq<char>| k != bundle.variant@ implies #[trigger] lookup(
            family.spec_variants(),
            k,
        ) is None by {
            assert(lookup(Seq::<PartVariant>::empty(), k) is None);
        }
    }
    EdaAuthoringImportResult {
        graph,
        import_report,
        status,
        geometry_handoffs,
        circuit_handoffs,
        route_handoffs,
        drc_handoffs,
    }
}


/// Nothing is dropped silently: every circuit record, model reference, route,
/// and fabrication artifact that does not become a handoff leaves at least one
/// rejection among the intake's audit events.
pub proof fn lemma_refused_records_are_reported(b: EdaAuthoringBundle)
    ensures
        rejected_of(intake_events(b)).len() + circuits_accepted(b.circuit_records@).len()
            + models_accepted(b.model_references@).len() + routes_accepted(b.routes@).len()
            + fabrications_accepted(b.fabrication@).len() >= b.circuit_records@.len()
            + b.model_references@.len() + b.routes@.len() + b.fabrication@.len(),
{
    let c = circuits_events(b.circuit_records@);
    let f = footprint_events(b);
    let m = models_events(b.model_references@);
    let p = package_events(b);
    let r = routes_events(b.routes@);
    let a = fabrications_events(b.fabrication@);
    let d = intake_events(b).skip((c + f + m + p + r + a).len() as int);
    assert(intake_events(b) =~= c + f + m + p + r + a + d);
    lemma_buckets_concat(c, f);
    lemma_buckets_concat(c + f, m);
    lemma_buckets_concat(c + f + m, p);
    lemma_buckets_concat(c + f + m + p, r);
    lemma_buckets_concat(c + f + m + p + r, a);
    lemma_buckets_concat(c + f + m + p + r + a, d);
    lemma_refused_circuits_rejected(b.circuit_records@);
    lemma_refused_models_rejected(b.model_references@);
    lemma_refused_routes_rejected(b.routes@);
    lemma_refused_fabrications_rejected(b.fabrication@);
}

/// A bundle that holds only a display name and one well-formed circuit
/// record (non-blank id and kind, at least one net, and one exact field whose
/// text is an exact token that `hyperreal` parses) imports as accepted; its one
/// handoff is exact and carries the field's trimmed spelling.
pub proof fn lemma_clean_circuit_intake_accepted(b: EdaAuthoringBundle)
    requires
        b.circuit_records@.len() == 1,
        !is_blank(b.circuit_records@[0].id@),
        !is_blank(b.circuit_records@[0].kind@),
        b.circuit_records@[0].nets@.len() > 0,
        b.circuit_records@[0].exact_fields@.len() == 1,
        b.circuit_records@[0].exact_fields@[0].value is Some,
        exact_field_outcome(opt_view(b.circuit_records@[0].exact_fields@[0].value)) is Exact,
        b.footprint is None,
        b.model_references@.len() == 0,
        b.package is None,
        b.routes@.len() == 0,
        b.fabrication@.len() == 0,
        !is_blank(b.display_name@),
    ensures
        intake_status(intake_events(b), intake_imported_any(b)) == EdaIntakeStatus::Accepted,
        circuits_accepted(b.circuit_records@) == b.circuit_records@,
        circuit_handoff_status(b.circuit_records@[0]) == EdaHandoffStatus::Exact,
        fields_params(b.circuit_records@[0].exact_fields@) == seq![
            (
                b.circuit_records@[0].exact_fields@[0].field@,
                trim(b.circuit_records@[0].exact_fields@[0].value.unwrap()@),
                opt_view(b.circuit_records@[0].exact_fields@[0].unit),
            ),
        ],
{
    let rs = b.circuit_records@;
    let rec = rs[0];
    let fs = rec.exact_fields@;
    let fld = fs[0];
    let p = record_path(rec);
    assert(rs.drop_last() =~= Seq::<CircuitJsonSourceRecord>::empty());
    assert(fs.drop_last() =~= Seq::<EdaExactField>::empty());
    let v = fld.value.unwrap()@;
    let first = IssueEvent::Parsed(field_path(p, fld), "numeric field parsed as exact Real"@);
    let second = IssueEvent::Parsed(
        p,
        "circuit record accepted as hypercircuit residual-fact handoff"@,
    );
    assert(exact_field_events(field_path(p, fld), Some(v)) =~= seq![first]);
    assert(fields_events(p, Seq::<EdaExactField>::empty()) =~= Seq::<IssueEvent>::empty());
    assert(fs.last() == fld);
    assert(opt_view(fld.value) == Some(v));
    assert(fields_events(p, fs) =~= seq![first]);
    assert(circuit_record_events(rec) =~= seq![first, second]);
    assert(circuits_events(Seq::<CircuitJsonSourceRecord>::empty()) =~= Seq::<IssueEvent>::empty());
    assert(rs.last() == rec);
    assert(circuits_events(rs) =~= seq![first, second]);
    assert(models_events(b.model_references@) =~= Seq::<IssueEvent>::empty());
    assert(routes_events(b.routes@) =~= Seq::<IssueEvent>::empty());
    assert(fabrications_events(b.fabrication@) =~= Seq::<IssueEvent>::empty());
    let es = intake_events(b);
    assert(es =~= seq![first, second]);
    assert(es.drop_last() =~= seq![first]);
    assert(es.drop_last().drop_last() =~= Seq::<IssueEvent>::empty());
    reveal_with_fuel(parsed_of, 3);
    reveal_with_fuel(rejected_of, 3);
    reveal_with_fuel(lossy_of, 3);
    reveal_with_fuel(unresolved_of, 3);
    reveal_with_fuel(review_of, 3);
    assert(parsed_of(es).len() == 2);
    assert(rejected_of(es).len() == 0);
    assert(lossy_of(es).len() == 0);
    assert(unresolved_of(es).len() == 0);
    assert(review_of(es).len() == 0);
    assert(circuits_accepted(Seq::<CircuitJsonSourceRecord>::empty()) =~= Seq::<
        CircuitJsonSourceRecord,
    >::empty());
    assert(circuits_accepted(rs) =~= rs);
    assert(fields_unknowns(p, Seq::<EdaExactField>::empty()) =~= Seq::<Seq<char>>::empty());
    assert(fields_unknowns(p, fs) =~= Seq::<Seq<char>>::empty());
    assert(circuit_record_unknowns(rec) =~= Seq::<Seq<char>>::empty());
    assert(fields_params(Seq::<EdaExactField>::empty()) =~= Seq::<
        (Seq<char>, Seq<char>, Option<Seq<char>>),
    >::empty());
    assert(fields_params(fs) =~= seq![(fld.field@, trim(v), opt_view(fld.unit))]);
}


/// The intake status law: a bundle is rejected exactly when nothing parsed;
/// accepted exactly when something parsed and no entry was rejected, lossy,
/// unresolved, or listed for review; accepted with unknowns exactly when
/// something parsed, some unknown was counted, nothing was rejected, lossy,
/// or unresolved, and every review entry is an unknown's; needs review
/// otherwise.
pub proof fn lemma_intake_status_law(b: EdaAuthoringBundle)
    ensures
        ({
            let es = intake_events(b);
            let st = intake_status(es, intake_imported_any(b));
            &&& (st == EdaIntakeStatus::Rejected <==> parsed_of(es).len() == 0)
            &&& (st == EdaIntakeStatus::Accepted <==> parsed_of(es).len() > 0 && rejected_of(
                es,
            ).len() == 0 && lossy_of(es).len() == 0 && unresolved_of(es).len() == 0 && review_of(
                es,
            ).len() == 0)
            &&& (st == EdaIntakeStatus::AcceptedWithUnknowns <==> parsed_of(es).len() > 0
                && unknown_count(es) > 0 && rejected_of(es).len() == 0 && lossy_of(es).len() == 0
                && unresolved_of(es).len() == 0 && review_of(es).len() == unknown_count(es))
        }),
{
    let c = circuits_events(b.circuit_records@);
    let f = footprint_events(b);
    let m = models_events(b.model_references@);
    let p = package_events(b);
    let r = routes_events(b.routes@);
    let a = fabrications_events(b.fabrication@);
    let es = intake_events(b);
    let d = es.skip((c + f + m + p + r + a).len() as int);
    assert(es =~= c + f + m + p + r + a + d);
    lemma_buckets_concat(c, f);
    lemma_buckets_concat(c + f, m);
    lemma_buckets_concat(c + f + m, p);
    lemma_buckets_concat(c + f + m + p, r);
    lemma_buckets_concat(c + f + m + p + r, a);
    lemma_buckets_concat(c + f + m + p + r + a, d);
    lemma_circuits_parse_only_when_accepted(b.circuit_records@);
    lemma_models_parse_only_when_accepted(b.model_references@);
    lemma_routes_parse_only_when_accepted(b.routes@);
    lemma_fabrications_parse_only_when_accepted(b.fabrication@);
    lemma_unknowns_listed_for_review(es);
    if !intake_imported_any(b) {
        assert(f =~= Seq::<IssueEvent>::empty());
        assert(p =~= Seq::<IssueEvent>::empty());
        assert(parsed_of(Seq::<IssueEvent>::empty()).len() == 0);
        if d.len() > 0 {
            assert(d =~= seq![
                IssueEvent::Review(
                    "display_name"@,
                    "bundle display name was empty; part id used as family name"@,
                ),
            ]);
            assert(d.drop_last() =~= Seq::<IssueEvent>::empty());
            reveal_with_fuel(parsed_of, 2);
        }
    }
}


/// Every character is an ASCII digit or one of `-`, `.`, `/`.
pub open spec fn numeric_chars(s: Seq<char>) -> bool {
    forall|i: int|
        0 <= i < s.len() ==> ('0' <= #[trigger] s[i] && s[i] <= '9') || s[i] == '-' || s[i]
            == '.' || s[i] == '/'
}

/// Decimal and fraction spellings use numeric characters only, and are not empty.
pub proof fn lemma_spelling_chars(t: Seq<char>)
    requires
        decimal_spelling(t) || fraction_spelling(t),
    ensures
        numeric_chars(t),
        t.len() > 0,
{
    let u = unsigned_part(t);
    let neg = t.len() > 0 && t[0] == '-';
    assert(numeric_chars(u)) by {
        if ascii_digits(u) {
        } else if decimal_spelling(t) {
            let k = choose|k: int|
                0 < k < u.len() && u[k] == '.' && ascii_digits(#[trigger] u.take(k))
                    && ascii_digits(u.skip(k + 1));
            assert forall|i: int| 0 <= i < u.len() implies ('0' <= #[trigger] u[i] && u[i] <= '9')
                || u[i] == '-' || u[i] == '.' || u[i] == '/' by {
                if i < k {
                    assert(u[i] == u.take(k)[i]);
                } else if i > k {
                    assert(u[i] == u.skip(k + 1)[i - k - 1]);
                }
            }
        } else {
            let k = choose|k: int|
                0 < k < u.len() && u[k] == '/' && ascii_digits(#[trigger] u.take(k))
                    && ascii_digits(u.skip(k + 1)) && exists|j: int| k < j < u.len() && #[trigger] u[j]
                    != '0';
            assert forall|i: int| 0 <= i < u.len() implies ('0' <= #[trigger] u[i] && u[i] <= '9')
                || u[i] == '-' || u[i] == '.' || u[i] == '/' by {
                if i < k {
                    assert(u[i] == u.take(k)[i]);
                } else if i > k {
                    assert(u[i] == u.skip(k + 1)[i - k - 1]);
                }
            }
        }
    }
    if neg {
        assert forall|i: int| 0 <= i < t.len() implies ('0' <= #[trigger] t[i] && t[i] <= '9')
            || t[i] == '-' || t[i] == '.' || t[i] == '/' by {
            if i > 0 {
                assert(t[i] == u[i - 1]);
            }
        }
    }
}

/// Text without whitespace is its own trim.
pub proof fn lemma_trim_numeric(s: Seq<char>)
    requires
        numeric_chars(s),
    ensures
        trim(s) == s,
        !is_blank(s) || s.len() == 0,
        !s.contains('_'),
{
    if s.len() > 0 {
        assert(!is_space(s[0]));
        assert(!is_space(s.last()));
    }
    assert(leading_space(s) == 0);
    assert(s.skip(0) =~= s);
    assert(trailing_space(s) == 0);
    assert(s.take(s.len() as int) =~= s);
    if s.contains('_') {
        let i = choose|i: int| 0 <= i < s.len() && s[i] == '_';
        assert(numeric_chars(s));
    }
}

/// A bundle that holds only a display name and one well-formed circuit
/// record whose one exact field is a decimal or fraction spelling imports as
/// accepted, with nothing rejected or lossy; its one handoff is exact and
/// keeps the spelling as written.
pub proof fn lemma_decimal_circuit_intake_accepted(b: EdaAuthoringBundle)
    requires
        b.circuit_records@.len() == 1,
        !is_blank(b.circuit_records@[0].id@),
        !is_blank(b.circuit_records@[0].kind@),
        b.circuit_records@[0].nets@.len() > 0,
        b.circuit_records@[0].exact_fields@.len() == 1,
        b.circuit_records@[0].exact_fields@[0].value matches Some(v) && (decimal_spelling(v@)
            || fraction_spelling(v@)),
        b.footprint is None,
        b.model_references@.len() == 0,
        b.package is None,
        b.routes@.len() == 0,
        b.fabrication@.len() == 0,
        !is_blank(b.display_name@),
    ensures
        intake_status(intake_events(b), intake_imported_any(b)) == EdaIntakeStatus::Accepted,
        rejected_of(intake_events(b)).len() == 0,
        lossy_of(intake_events(b)).len() == 0,
        circuits_accepted(b.circuit_records@) == b.circuit_records@,
        circuit_handoff_status(b.circuit_records@[0]) == EdaHandoffStatus::Exact,
        fields_params(b.circuit_records@[0].exact_fields@) == seq![
            (
                b.circuit_records@[0].exact_fields@[0].field@,
                b.circuit_records@[0].exact_fields@[0].value.unwrap()@,
                opt_view(b.circuit_records@[0].exact_fields@[0].unit),
            ),
        ],
{
    let fld = b.circuit_records@[0].exact_fields@[0];
    let v = fld.value.unwrap()@;
    lemma_spelling_chars(v);
    lemma_trim_numeric(v);
    reveal_strlit("nan");
    reveal_strlit("inf");
    reveal_strlit("infinity");
    assert(ascii_lower(v[0]) == v[0]);
    assert(!eq_ignore_ascii_case(v, "nan"@));
    assert(!eq_ignore_ascii_case(v, "inf"@));
    assert(!eq_ignore_ascii_case(v, "infinity"@));
    assert(exact_value_outcome(v) == Some(v));
    assert(exact_field_outcome(opt_view(fld.value)) == FieldOutcome::Exact(v));
    lemma_clean_circuit_intake_accepted(b);
    lemma_intake_status_law(b);
}


/// An import result is exact-ready exactly when its intake status is
/// `Accepted`, every circuit and route handoff has status `Exact`, and every
/// fabrication handoff has status `Certified`; one handoff with any other
/// status makes it not ready.
pub proof fn lemma_exact_ready_exactly(result: EdaAuthoringImportResult)
    ensures
        result.spec_exact_ready() <==> {
            &&& result.status == EdaIntakeStatus::Accepted
            &&& forall|i: int|
                0 <= i < result.circuit_handoffs@.len() ==> (
                #[trigger] result.circuit_handoffs@[i]).status == EdaHandoffStatus::Exact
            &&& forall|i: int|
                0 <= i < result.route_handoffs@.len() ==> (
                #[trigger] result.route_handoffs@[i]).status == EdaHandoffStatus::Exact
            &&& forall|i: int|
                0 <= i < result.drc_handoffs@.len() ==> (#[trigger] result.drc_handoffs@[i]).status
                    == EdaHandoffStatus::Certified
        },
{
}

/// A circuit handoff whose status is not `Exact` keeps the result from being
/// exact-ready, whatever its intake status.
pub proof fn lemma_inexact_circuit_blocks(result: EdaAuthoringImportResult, i: int)
    requires
        0 <= i < result.circuit_handoffs@.len(),
        result.circuit_handoffs@[i].status != EdaHandoffStatus::Exact,
    ensures
        !result.spec_exact_ready(),
{
}


/// Of the route handoffs an import hands on, every one with status `Exact`
/// carries both a geometry handle and an exact grid. Stated over handoffs that
/// meet the route clause of `import_eda_authoring_bundle`.
pub proof fn lemma_imported_exact_routes_have_grids(
    bundle: EdaAuthoringBundle,
    handoffs: Seq<RouteGeometryHandoff>,
)
    requires
        extends_by(handoffs, Seq::empty(), routes_accepted(bundle.routes@), route_rel(bundle)),
    ensures
        forall|i: int|
            0 <= i < handoffs.len() && (#[trigger] handoffs[i]).status == EdaHandoffStatus::Exact
                ==> handoffs[i].geometry is Some && handoffs[i].exact_grid is Some,
{
    let rs = routes_accepted(bundle.routes@);
    assert forall|i: int|
        0 <= i < handoffs.len() && (#[trigger] handoffs[i]).status
            == EdaHandoffStatus::Exact implies handoffs[i].geometry is Some
        && handoffs[i].exact_grid is Some by {
        assert(route_rel(bundle)(handoffs[0 + i], rs[i]));
        lemma_exact_route_needs_grid(handoffs[i], rs[i], bundle);
    }
}

} // verus!
