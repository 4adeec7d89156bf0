//! Source-attributed assertions.
use vstd::prelude::*;

use crate::error::{PartsError, PartsResult};
use crate::exact::{partial_compare, partial_comparison, Comparison, ExactValue};
use crate::identity::{ManufacturerPartNumber, SupplierSku};

verus! {

/// Provenance for an imported or authored part assertion.
#[derive(Debug, PartialEq, Eq)]
pub struct SourceRef {
    authority: String,
    locator: String,
}

/// Source revision, date, or version tag.
#[derive(Clone, Debug, PartialEq, Eq)]
pub struct SourceRevision {
    /// Source revision text.
    pub revision: String,
    /// Optional source date.
    pub date: Option<String>,
}

/// Whether an assertion is known or explicitly unknown.
#[derive(Clone, Copy, Debug, PartialEq, Eq, Structural)]
pub enum AssertionStatus {
    /// A source supplied a value.
    Known,
    /// A source was checked and did not provide this field.
    Unknown,
}

/// Confidence/review state for a source assertion.
#[derive(Clone, Copy, Debug, PartialEq, Eq, Structural)]
pub enum AssertionConfidence {
    /// Imported but not reviewed.
    Imported,
    /// Reviewed by a user or maintainer.
    Reviewed,
    /// Measured from a fixture.
    Measured,
    /// Source claims conflict with other evidence.
    Conflicting,
}

/// Condition attached to an assertion.
#[derive(Clone, Debug, PartialEq)]
pub struct AssertionCondition {
    /// Condition label, such as temperature, wavelength, load, or package.
    pub label: String,
    /// Exact or textual condition value.
    pub value: AssertionValue,
}

/// Provenance-preserving assertion value.
#[derive(Clone, Debug, PartialEq)]
pub enum AssertionValue {
    /// Exact scalar value.
    ExactScalar(Box<ExactValue>),
    /// Exact closed interval.
    ExactInterval {
        /// Lower bound.
        min: Box<ExactValue>,
        /// Upper bound.
        max: Box<ExactValue>,
    },
    /// Text/enumerated value.
    Text(String),
    /// Explicit lossy adapter/import value.
    Lossy(String),
    /// Source was inspected and did not provide a value.
    Unknown,
}

/// General source-attributed assertion payload.
#[derive(Clone, Debug, PartialEq)]
pub struct GeneralPartAssertion {
    /// Assertion key.
    pub key: String,
    /// Assertion value.
    pub value: AssertionValue,
    /// Unit label.
    pub unit: Option<String>,
    /// Applicability conditions.
    pub conditions: Vec<AssertionCondition>,
    /// Confidence/review state.
    pub confidence: AssertionConfidence,
    /// Source evidence.
    pub source: SourceRef,
    /// Optional source revision/date.
    pub revision: Option<SourceRevision>,
}

/// A source-attributed value or explicit unknown.
#[derive(Clone, Debug, PartialEq)]
pub struct Assertion<T> {
    status: AssertionStatus,
    value: Option<T>,
    source: SourceRef,
}

/// Domain assertions indexed by a part variant.
#[derive(Clone, Debug, PartialEq)]
pub enum PartAssertion {
    /// Link to a CAD/CSG/curve handle owned by another crate.
    ShapeHandle(Assertion<String>),
    /// Link to a voxel/grid artifact owned by `hypervoxel`.
    VoxelArtifact(Assertion<String>),
    /// Link to a physics material id or model owned by `hyperphysics`.
    PhysicsMaterial(Assertion<String>),
    /// Link to an electrical model or symbol owned by `hypercircuit`.
    CircuitModel(Assertion<String>),
    /// Catalog lifecycle state such as active, NRND, or obsolete.
    Lifecycle(Assertion<String>),
    /// General provenance-rich scalar/text/range assertion.
    General(Box<GeneralPartAssertion>),
}

/// Lifecycle status for a part.
#[derive(Clone, Debug, PartialEq, Eq)]
pub enum PartLifecycle {
    /// Active production.
    Active,
    /// Not recommended for new designs.
    NotRecommendedForNewDesigns,
    /// Obsolete/end-of-life.
    Obsolete,
    /// Unknown lifecycle.
    Unknown,
    /// Source-specific lifecycle label.
    Custom(String),
}

/// Source-attributed compliance claim.
#[derive(Clone, Debug, PartialEq)]
pub struct ComplianceClaim {
    /// Compliance scheme, such as RoHS or REACH.
    pub scheme: String,
    /// Claim value.
    pub value: AssertionValue,
    /// Source evidence.
    pub source: SourceRef,
    /// Optional revision or consolidation date of the compliance source.
    pub revision: Option<SourceRevision>,
}

/// Source-attributed procurement offer.
#[derive(Clone, Debug, PartialEq)]
pub struct ProcurementOffer {
    /// Supplier SKU.
    pub sku: SupplierSku,
    /// Manufacturer part number when known.
    pub mpn: Option<ManufacturerPartNumber>,
    /// Available quantity.
    pub quantity: AssertionValue,
    /// Unit price.
    pub unit_price: AssertionValue,
    /// Currency code.
    pub currency: Option<String>,
    /// Source evidence.
    pub source: SourceRef,
}

/// Knowledge report for a part query/import summary.
#[derive(Clone, Debug, PartialEq)]
pub struct PartKnowledgeReport {
    /// Report status.
    pub status: String,
    /// Evidence notes.
    pub evidence: Vec<String>,
    /// Explicit unknowns.
    pub unknowns: Vec<String>,
    /// Conflicts.
    pub conflicts: Vec<String>,
}

impl Clone for SourceRef {
    fn clone(&self) -> (r: Self)
        ensures
            r == *self,
    {
        proof {
            use_type_invariant(self);
        }
        SourceRef { authority: self.authority.clone(), locator: self.locator.clone() }
    }
}

impl SourceRef {
    /// Authority and locator are never empty.
    #[verifier::type_invariant]
    spec fn nonempty(self) -> bool {
        self.authority@.len() > 0 && self.locator@.len() > 0
    }

    /// The source authority.
    pub closed spec fn spec_authority(&self) -> Seq<char> {
        self.authority@
    }

    /// The source locator.
    pub closed spec fn spec_locator(&self) -> Seq<char> {
        self.locator@
    }

    /// Creates a source reference; an empty authority or locator is `EmptySource`.
    pub fn new(authority: &str, locator: &str) -> (r: PartsResult<Self>)
        ensures
            authority@.len() == 0 || locator@.len() == 0 ==> r == Err::<Self, PartsError>(
                PartsError::EmptySource,
            ),
            authority@.len() > 0 && locator@.len() > 0 ==> (r matches Ok(s)
                && s.spec_authority() == authority@ && s.spec_locator() == locator@),
    {
        if authority.unicode_len() == 0 || locator.unicode_len() == 0 {
            return Err(PartsError::EmptySource);
        }
        Ok(SourceRef { authority: String::from_str(authority), locator: String::from_str(locator) })
    }

    /// Returns the source authority.
    pub fn authority(&self) -> (r: &str)
        ensures
            r@ == self.spec_authority(),
            r@.len() > 0,
    {
        proof {
            use_type_invariant(self);
        }
        self.authority.as_str()
    }

    /// Returns the source locator.
    pub fn locator(&self) -> (r: &str)
        ensures
            r@ == self.spec_locator(),
            r@.len() > 0,
    {
        proof {
            use_type_invariant(self);
        }
        self.locator.as_str()
    }
}

impl SourceRevision {
    /// Creates a source revision/date tag; an empty revision is `EmptySource`.
    pub fn new(revision: &str, date: Option<String>) -> (r: PartsResult<Self>)
        ensures
            revision@.len() == 0 ==> r == Err::<Self, PartsError>(PartsError::EmptySource),
            revision@.len() > 0 ==> (r matches Ok(s) && s.revision@ == revision@ && s.date
                == date),
    {
        if revision.unicode_len() == 0 {
            return Err(PartsError::EmptySource);
        }
        Ok(SourceRevision { revision: String::from_str(revision), date })
    }
}

impl AssertionValue {
    /// Creates an exact scalar assertion value.
    pub fn exact_scalar(value: ExactValue) -> (r: Self)
        ensures
            r == AssertionValue::ExactScalar(Box::new(value)),
    {
        AssertionValue::ExactScalar(Box::new(value))
    }

    /// Creates an exact interval after `Real::partial_cmp` certifies
    /// `min <= max`; a reversed or undecidable order is `InvalidAssertionRange`.
    pub fn interval(min: ExactValue, max: ExactValue) -> (r: PartsResult<Self>)
        ensures
            match partial_comparison(min@, max@) {
                Some(Comparison::Less) | Some(Comparison::Equal) => r == Ok::<Self, PartsError>(
                    AssertionValue::ExactInterval { min: Box::new(min), max: Box::new(max) },
                ),
                _ => r == Err::<Self, PartsError>(PartsError::InvalidAssertionRange),
            },
    {
        match partial_compare(&min, &max) {
            Some(Comparison::Less) | Some(Comparison::Equal) => Ok(
                AssertionValue::ExactInterval { min: Box::new(min), max: Box::new(max) },
            ),
            _ => Err(PartsError::InvalidAssertionRange),
        }
    }
}

impl<T> Assertion<T> {
    /// Whether the assertion is known.
    pub closed spec fn spec_status(&self) -> AssertionStatus {
        self.status
    }

    /// The value, when known.
    pub closed spec fn spec_value(&self) -> Option<T> {
        self.value
    }

    /// The source evidence.
    pub closed spec fn spec_source(&self) -> SourceRef {
        self.source
    }

    /// Creates a source-attributed known assertion.
    pub fn known(value: T, source: SourceRef) -> (r: Self)
        ensures
            r.spec_status() == AssertionStatus::Known,
            r.spec_value() == Some(value),
            r.spec_source() == source,
    {
        Assertion { status: AssertionStatus::Known, value: Some(value), source }
    }

    /// Creates an explicit unknown after a source was inspected.
    pub fn unknown(source: SourceRef) -> (r: Self)
        ensures
            r.spec_status() == AssertionStatus::Unknown,
            r.spec_value() == None::<T>,
            r.spec_source() == source,
    {
        Assertion { status: AssertionStatus::Unknown, value: None, source }
    }

    /// Returns the assertion status.
    pub fn status(&self) -> (r: AssertionStatus)
        ensures
            r == self.spec_status(),
    {
        self.status
    }

    /// Returns the known value, if present.
    pub fn value(&self) -> (r: Option<&T>)
        ensures
            match self.spec_value() {
                Some(v) => r == Some(&v),
                None => r is None,
            },
    {
        self.value.as_ref()
    }

    /// Returns the source evidence.
    pub fn source(&self) -> (r: &SourceRef)
        ensures
            *r == self.spec_source(),
    {
        &self.source
    }
}

} // verus!
