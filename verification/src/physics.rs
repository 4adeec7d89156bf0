//! Physical-property handles and handoff reports.
//!
//! `hyperparts` records what a part source claims about material, thermal,
//! electrical, mass, and load requirements, but it does not implement physical
//! laws. The owning semantics live in `hyperphysics`; this module carries
//! source-attributed handles and query reports that say whether a fact is exact,
//! certified, conditional, lossy, or unknown.
//!
//! Imported metadata remains exact or certified facts, or explicit uncertainty,
//! instead of collapsing into numeric defaults. Material and transport facts
//! are handoff records because constitutive interpretation belongs to a
//! physical model.

use vstd::prelude::*;

use crate::assertion::{AssertionCondition, AssertionValue};
use crate::error::{PartsError, PartsResult};
use crate::graph::PartQueryEvidence;
use crate::identity::PartId;

verus! {


/// Review status for a physical/material fact.
#[derive(Clone, Copy, Debug, PartialEq, Eq, Structural)]
pub enum PhysicalFactStatus {
    /// Exact source value or exact downstream handle.
    Exact,
    /// Certified by a reviewed adapter or bounded derivation.
    Certified,
    /// Valid only under stated conditions.
    Conditional,
    /// Imported through a lossy adapter and not a source of exact truth.
    Lossy,
    /// Source was inspected and did not provide the fact.
    Unknown,
}

/// Handle to a physical property or material model owned by `hyperphysics`.
#[derive(Clone, Debug, Eq, PartialEq)]
pub struct PhysicalPropertyHandle {
    /// Owning crate or external source namespace.
    pub owner: String,
    /// Stable handle in the owner namespace.
    pub handle: String,
    /// Property or model name, such as density, conductivity, or contact law.
    pub property: String,
    /// Source unit label when the handle denotes a scalar/range property.
    pub units: Option<String>,
    /// Review/exactness status for this handle.
    pub status: PhysicalFactStatus,
}

/// Material or property requirement needed before a downstream physics model is
/// allowed to claim a certified result.
#[derive(Clone, Debug, PartialEq)]
pub struct MaterialRequirement {
    /// Required material/property key.
    pub key: String,
    /// Exact, interval, textual, lossy, or unknown value.
    pub value: AssertionValue,
    /// Source unit label.
    pub units: Option<String>,
    /// Applicability conditions such as temperature, frequency, or load.
    pub conditions: Vec<AssertionCondition>,
    /// Review/exactness status.
    pub status: PhysicalFactStatus,
}

/// Environmental operating envelope for a part, fixture, or material.
#[derive(Clone, Debug, PartialEq)]
pub struct EnvironmentalEnvelope {
    /// Temperature range or explicit unknown.
    pub temperature: AssertionValue,
    /// Humidity range or explicit unknown.
    pub humidity: AssertionValue,
    /// Pressure range or explicit unknown.
    pub pressure: AssertionValue,
    /// Additional source-specific conditions.
    pub conditions: Vec<AssertionCondition>,
    /// Review/exactness status.
    pub status: PhysicalFactStatus,
}

/// Thermal adjacency or conduction path claim.
#[derive(Clone, Debug, PartialEq)]
pub struct ThermalPath {
    /// Source aspect, terminal, face, region, or part handle.
    pub from: String,
    /// Destination aspect, terminal, face, region, or part handle.
    pub to: String,
    /// Thermal property handle or explicit requirement.
    pub property: Option<PhysicalPropertyHandle>,
    /// Source-attributed resistance/conductance value when known.
    pub value: AssertionValue,
    /// Review/exactness status.
    pub status: PhysicalFactStatus,
}

/// Mechanical load path claim between part aspects.
#[derive(Clone, Debug, PartialEq)]
pub struct MechanicalLoadPath {
    /// Source aspect, terminal, face, region, or part handle.
    pub from: String,
    /// Destination aspect, terminal, face, region, or part handle.
    pub to: String,
    /// Load direction, axis, or semantic label.
    pub direction: String,
    /// Load value/range or explicit unknown.
    pub load: AssertionValue,
    /// Review/exactness status.
    pub status: PhysicalFactStatus,
}

/// Mass-property query need for a downstream `hyperphysics` report.
#[derive(Clone, Debug, PartialEq)]
pub struct MassPropertyNeed {
    /// Shape, aspect, or part handle whose mass properties are requested.
    pub target: String,
    /// Density/material handle to use, when known.
    pub material: Option<PhysicalPropertyHandle>,
    /// Requested outputs such as mass, center_of_mass, inertia_tensor.
    pub outputs: Vec<String>,
    /// Review/exactness status for the request inputs.
    pub status: PhysicalFactStatus,
}

/// Handoff report for physical setup or property queries.
#[derive(Clone, Debug, PartialEq)]
pub struct PhysicsHandoffReport {
    /// Part associated with this handoff.
    pub part: PartId,
    /// Physical handles discovered for the part.
    pub handles: Vec<PhysicalPropertyHandle>,
    /// Material/property requirements that remain visible to `hyperphysics`.
    pub requirements: Vec<MaterialRequirement>,
    /// Environmental envelopes carried into the downstream model.
    pub environments: Vec<EnvironmentalEnvelope>,
    /// Thermal path claims.
    pub thermal_paths: Vec<ThermalPath>,
    /// Mechanical load path claims.
    pub mechanical_load_paths: Vec<MechanicalLoadPath>,
    /// Mass-property requests.
    pub mass_property_needs: Vec<MassPropertyNeed>,
    /// Overall report status.
    pub status: PhysicalFactStatus,
    /// Evidence and source facts used to construct the report.
    pub evidence: PartQueryEvidence,
    /// Explicit gaps that downstream code must not fill with defaults.
    pub unknowns: Vec<String>,
}

/// Exact or certified: the statuses a certified downstream result may rest on.
pub open spec fn is_exact_or_certified(status: PhysicalFactStatus) -> bool {
    status == PhysicalFactStatus::Exact || status == PhysicalFactStatus::Certified
}

impl PhysicalPropertyHandle {
    /// Creates a validated handle to a downstream physical property/model;
    /// an empty owner, handle, or property is `EmptyIdentifier`.
    pub fn new(
        owner: &str,
        handle: &str,
        property: &str,
        units: Option<String>,
        status: PhysicalFactStatus,
    ) -> (r: PartsResult<Self>)
        ensures
            owner@.len() == 0 || handle@.len() == 0 || property@.len() == 0 ==> r == Err::<
                Self,
                PartsError,
            >(PartsError::EmptyIdentifier),
            owner@.len() > 0 && handle@.len() > 0 && property@.len() > 0 ==> (r matches Ok(h)
                && h.owner@ == owner@ && h.handle@ == handle@ && h.property@ == property@
                && h.units == units && h.status == status),
    {
        if owner.unicode_len() == 0 || handle.unicode_len() == 0 || property.unicode_len() == 0 {
            return Err(PartsError::EmptyIdentifier);
        }
        Ok(
            PhysicalPropertyHandle {
                owner: String::from_str(owner),
                handle: String::from_str(handle),
                property: String::from_str(property),
                units,
                status,
            },
        )
    }
}

/// The optional handle is absent, or exact or certified.
pub open spec fn handle_ready(h: Option<PhysicalPropertyHandle>) -> bool {
    match h {
        Some(h) => is_exact_or_certified(h.status),
        None => true,
    }
}

fn status_ready(s: PhysicalFactStatus) -> (r: bool)
    ensures
        r == is_exact_or_certified(s),
{
    s == PhysicalFactStatus::Exact || s == PhysicalFactStatus::Certified
}

fn optional_handle_ready(h: &Option<PhysicalPropertyHandle>) -> (r: bool)
    ensures
        r == handle_ready(*h),
{
    match h {
        Some(h) => status_ready(h.status),
        None => true,
    }
}

impl PhysicsHandoffReport {
    /// No unknowns remain, and every carried fact is exact or certified: the
    /// overall status, every handle, requirement, environment, thermal path
    /// (and its property handle), mechanical load path, and mass-property need
    /// (and its material handle).
    pub open spec fn spec_certified_ready(&self) -> bool {
        &&& self.unknowns@.len() == 0
        &&& is_exact_or_certified(self.status)
        &&& forall|i: int|
            0 <= i < self.handles@.len() ==> is_exact_or_certified(#[trigger] self.handles@[i].status)
        &&& forall|i: int|
            0 <= i < self.requirements@.len() ==> is_exact_or_certified(
                #[trigger] self.requirements@[i].status,
            )
        &&& forall|i: int|
            0 <= i < self.environments@.len() ==> is_exact_or_certified(
                #[trigger] self.environments@[i].status,
            )
        &&& forall|i: int|
            0 <= i < self.thermal_paths@.len() ==> is_exact_or_certified(
                (#[trigger] self.thermal_paths@[i]).status,
            ) && handle_ready(self.thermal_paths@[i].property)
        &&& forall|i: int|
            0 <= i < self.mechanical_load_paths@.len() ==> is_exact_or_certified(
                #[trigger] self.mechanical_load_paths@[i].status,
            )
        &&& forall|i: int|
            0 <= i < self.mass_property_needs@.len() ==> is_exact_or_certified(
                (#[trigger] self.mass_property_needs@[i]).status,
            ) && handle_ready(self.mass_property_needs@[i].material)
    }

    /// Returns true only when no explicit unknowns remain and every carried fact
    /// is exact or certified.
    pub fn is_certified_ready(&self) -> (r: bool)
        ensures
            r == self.spec_certified_ready(),
    {
        if self.unknowns.len() != 0 || !status_ready(self.status) {
            return false;
        }
        let mut i: usize = 0;
        while i < self.handles.len()
            invariant
                i <= self.handles@.len(),
                forall|j: int| 0 <= j < i ==> is_exact_or_certified(#[trigger] self.handles@[j].status),
            decreases self.handles.len() - i,
        {
            if !status_ready(self.handles[i].status) {
                return false;
            }
            i = i + 1;
        }
        let mut i: usize = 0;
        while i < self.requirements.len()
            invariant
                i <= self.requirements@.len(),
                forall|j: int|
                    0 <= j < i ==> is_exact_or_certified(#[trigger] self.requirements@[j].status),
            decreases self.requirements.len() - i,
        {
            if !status_ready(self.requirements[i].status) {
                return false;
            }
            i = i + 1;
        }
        let mut i: usize = 0;
        while i < self.environments.len()
            invariant
                i <= self.environments@.len(),
                forall|j: int|
                    0 <= j < i ==> is_exact_or_certified(#[trigger] self.environments@[j].status),
            decreases self.environments.len() - i,
        {
            if !status_ready(self.environments[i].status) {
                return false;
            }
            i = i + 1;
        }
        let mut i: usize = 0;
        while i < self.thermal_paths.len()
            invariant
                i <= self.thermal_paths@.len(),
                forall|j: int|
                    0 <= j < i ==> is_exact_or_certified((#[trigger] self.thermal_paths@[j]).status)
                        && handle_ready(self.thermal_paths@[j].property),
            decreases self.thermal_paths.len() - i,
        {
            if !status_ready(self.thermal_paths[i].status) || !optional_handle_ready(
                &self.thermal_paths[i].property,
            ) {
                return false;
            }
            i = i + 1;
        }
        let mut i: usize = 0;
        while i < self.mechanical_load_paths.len()
            invariant
                i <= self.mechanical_load_paths@.len(),
                forall|j: int|
                    0 <= j < i ==> is_exact_or_certified(
                        #[trigger] self.mechanical_load_paths@[j].status,
                    ),
            decreases self.mechanical_load_paths.len() - i,
        {
            if !status_ready(self.mechanical_load_paths[i].status) {
                return false;
            }
            i = i + 1;
        }
        let mut i: usize = 0;
        while i < self.mass_property_needs.len()
            invariant
                i <= self.mass_property_needs@.len(),
                forall|j: int|
                    0 <= j < i ==> is_exact_or_certified(
                        (#[trigger] self.mass_property_needs@[j]).status,
                    ) && handle_ready(self.mass_property_needs@[j].material),
            decreases self.mass_property_needs.len() - i,
        {
            if !status_ready(self.mass_property_needs[i].status) || !optional_handle_ready(
                &self.mass_property_needs[i].material,
            ) {
                return false;
            }
            i = i + 1;
        }
        true
    }
}


/// A report is certified-ready exactly when it lists no unknowns and its
/// overall status and the status of every handle, material requirement,
/// environment, thermal path, mechanical load path and mass-property need is
/// `Exact` or `Certified`, as is the status of each property handle a thermal
/// path or mass-property need names. In particular a single conditional,
/// lossy or unknown fact anywhere in the report makes it not ready.
pub proof fn lemma_certified_ready_exactly(report: PhysicsHandoffReport)
    ensures
        report.spec_certified_ready() <==> {
            &&& report.unknowns@.len() == 0
            &&& (report.status == PhysicalFactStatus::Exact || report.status
                == PhysicalFactStatus::Certified)
            &&& forall|i: int|
                0 <= i < report.handles@.len() ==> ((#[trigger] report.handles@[i]).status
                    == PhysicalFactStatus::Exact || report.handles@[i].status
                    == PhysicalFactStatus::Certified)
            &&& forall|i: int|
                0 <= i < report.requirements@.len() ==> ((#[trigger] report.requirements@[i]).status
                    == PhysicalFactStatus::Exact || report.requirements@[i].status
                    == PhysicalFactStatus::Certified)
            &&& forall|i: int|
                0 <= i < report.environments@.len() ==> ((#[trigger] report.environments@[i]).status
                    == PhysicalFactStatus::Exact || report.environments@[i].status
                    == PhysicalFactStatus::Certified)
            &&& forall|i: int|
                0 <= i < report.thermal_paths@.len() ==> ((#[trigger] report.thermal_paths@[i]).status
                    == PhysicalFactStatus::Exact || report.thermal_paths@[i].status
                    == PhysicalFactStatus::Certified) && (report.thermal_paths@[i].property matches Some(
                    h,
                ) ==> (h.status == PhysicalFactStatus::Exact || h.status
                    == PhysicalFactStatus::Certified))
            &&& forall|i: int|
                0 <= i < report.mechanical_load_paths@.len() ==> ((
                #[trigger] report.mechanical_load_paths@[i]).status == PhysicalFactStatus::Exact
                    || report.mechanical_load_paths@[i].status == PhysicalFactStatus::Certified)
            &&& forall|i: int|
                0 <= i < report.mass_property_needs@.len() ==> ((
                #[trigger] report.mass_property_needs@[i]).status == PhysicalFactStatus::Exact
                    || report.mass_property_needs@[i].status == PhysicalFactStatus::Certified) && (
                report.mass_property_needs@[i].material matches Some(h) ==> (h.status
                    == PhysicalFactStatus::Exact || h.status == PhysicalFactStatus::Certified))
        },
{
}

/// A material requirement that is neither exact nor certified keeps the
/// report from being certified-ready.
pub proof fn lemma_uncertified_requirement_blocks(report: PhysicsHandoffReport, i: int)
    requires
        0 <= i < report.requirements@.len(),
        report.requirements@[i].status != PhysicalFactStatus::Exact,
        report.requirements@[i].status != PhysicalFactStatus::Certified,
    ensures
        !report.spec_certified_ready(),
{
}

} // verus!
