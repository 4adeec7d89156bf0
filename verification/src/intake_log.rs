//! The import audit that the EDA intake pass writes.
//!
//! The intake pass records one event per decision it takes about a source
//! field. The builder keeps those events in order as ghost state and sorts
//! them into the report's buckets; every spec below states a bucket as the
//! matching events of the log.
use vstd::prelude::*;

use crate::assertion::SourceRef;
use crate::eda_intake::EdaIntakeStatus;
use crate::graph::{ImportIssue, ImportIssueKind, ImportReport, ImportTargetKind};

verus! {

/// One entry the intake pass writes into its import audit, in order.
pub enum IssueEvent {
    /// A parsed and accepted field: (field, detail).
    Parsed(Seq<char>, Seq<char>),
    /// A rejected field.
    Rejected(Seq<char>, Seq<char>),
    /// A lossy conversion.
    Lossy(Seq<char>, Seq<char>),
    /// An unresolved reference.
    Unresolved(Seq<char>, Seq<char>),
    /// A human review requirement.
    Review(Seq<char>, Seq<char>),
    /// A field kept as an explicit unknown: counted, and listed for review.
    Unknown(Seq<char>, Seq<char>),
}

/// The (field, detail) pairs of parsed events, in order.
pub open spec fn parsed_of(es: Seq<IssueEvent>) -> Seq<(Seq<char>, Seq<char>)>
    decreases es.len(),
{
    if es.len() == 0 {
        Seq::empty()
    } else {
        match es.last() {
            IssueEvent::Parsed(f, d) => parsed_of(es.drop_last()).push((f, d)),
            _ => parsed_of(es.drop_last()),
        }
    }
}

/// The (field, detail) pairs of rejected events, in order.
pub open spec fn rejected_of(es: Seq<IssueEvent>) -> Seq<(Seq<char>, Seq<char>)>
    decreases es.len(),
{
    if es.len() == 0 {
        Seq::empty()
    } else {
        match es.last() {
            IssueEvent::Rejected(f, d) => rejected_of(es.drop_last()).push((f, d)),
            _ => rejected_of(es.drop_last()),
        }
    }
}

/// The (field, detail) pairs of lossy events, in order.
pub open spec fn lossy_of(es: Seq<IssueEvent>) -> Seq<(Seq<char>, Seq<char>)>
    decreases es.len(),
{
    if es.len() == 0 {
        Seq::empty()
    } else {
        match es.last() {
            IssueEvent::Lossy(f, d) => lossy_of(es.drop_last()).push((f, d)),
            _ => lossy_of(es.drop_last()),
        }
    }
}

/// The (field, detail) pairs of unresolved events, in order.
pub open spec fn unresolved_of(es: Seq<IssueEvent>) -> Seq<(Seq<char>, Seq<char>)>
    decreases es.len(),
{
    if es.len() == 0 {
        Seq::empty()
    } else {
        match es.last() {
            IssueEvent::Unresolved(f, d) => unresolved_of(es.drop_last()).push((f, d)),
            _ => unresolved_of(es.drop_last()),
        }
    }
}

/// The (field, detail) pairs of review and unknown events, in order.
pub open spec fn review_of(es: Seq<IssueEvent>) -> Seq<(Seq<char>, Seq<char>)>
    decreases es.len(),
{
    if es.len() == 0 {
        Seq::empty()
    } else {
        match es.last() {
            IssueEvent::Review(f, d) => review_of(es.drop_last()).push((f, d)),
            IssueEvent::Unknown(f, d) => review_of(es.drop_last()).push((f, d)),
            _ => review_of(es.drop_last()),
        }
    }
}

/// The number of unknown events.
pub open spec fn unknown_count(es: Seq<IssueEvent>) -> nat
    decreases es.len(),
{
    if es.len() == 0 {
        0
    } else {
        match es.last() {
            IssueEvent::Unknown(_, _) => unknown_count(es.drop_last()) + 1,
            _ => unknown_count(es.drop_last()),
        }
    }
}

/// The issues are exactly `views`, each of kind `kind`.
pub open spec fn issues_are(
    v: Seq<ImportIssue>,
    kind: ImportIssueKind,
    views: Seq<(Seq<char>, Seq<char>)>,
) -> bool {
    &&& v.len() == views.len()
    &&& forall|i: int|
        0 <= i < v.len() ==> (#[trigger] v[i]).kind == kind && v[i].field@ == views[i].0
            && v[i].detail@ == views[i].1
}

/// The warning every intake report carries.
pub open spec fn intake_warning() -> Seq<char> {
    "EDA authoring intake retained exact strings, unknowns, and handoff owners"@
}

/// The import report the intake writes for `source` after the events `es`.
pub open spec fn report_is(r: ImportReport, source: SourceRef, es: Seq<IssueEvent>) -> bool {
    &&& r.source == source
    &&& (r.target matches ImportTargetKind::Custom(t) && t@ == "tscircuit-authoring"@)
    &&& r.imported_family_count == 1
    &&& r.imported_variant_count == 1
    &&& r.unknown_field_count == unknown_count(es)
    &&& issues_are(r.parsed_assertions@, ImportIssueKind::Parsed, parsed_of(es))
    &&& issues_are(r.rejected_fields@, ImportIssueKind::Rejected, rejected_of(es))
    &&& issues_are(r.lossy_conversions@, ImportIssueKind::LossyConversion, lossy_of(es))
    &&& r.stale_sources@.len() == 0
    &&& issues_are(r.unresolved_references@, ImportIssueKind::UnresolvedReference, unresolved_of(es))
    &&& r.license_notes@.len() == 0
    &&& issues_are(r.review_requirements@, ImportIssueKind::ReviewRequired, review_of(es))
    &&& r.warnings@.len() == 1
    &&& r.warnings@[0]@ == intake_warning()
}

/// The overall intake status after the events `es`: rejected when nothing
/// importable was found or nothing parsed; accepted when no issue needs
/// attention; accepted-with-unknowns when the only issues are explicit unknowns
/// (every review entry is an unknown's); otherwise, when anything is rejected,
/// lossy, unresolved, or review-only, needs review.
pub open spec fn intake_status(es: Seq<IssueEvent>, imported_any: bool) -> EdaIntakeStatus {
    if !imported_any || parsed_of(es).len() == 0 {
        EdaIntakeStatus::Rejected
    } else if rejected_of(es).len() > 0 || lossy_of(es).len() > 0 || unresolved_of(es).len() > 0
        || review_of(es).len() > 0 {
        if unknown_count(es) > 0 && rejected_of(es).len() == 0 && lossy_of(es).len() == 0
            && unresolved_of(es).len() == 0 && review_of(es).len() == unknown_count(es) {
            EdaIntakeStatus::AcceptedWithUnknowns
        } else {
            EdaIntakeStatus::NeedsReview
        }
    } else {
        EdaIntakeStatus::Accepted
    }
}

/// Sorts intake events into an import report.
pub(crate) struct ImportIssueBuilder {
    pub(crate) source: SourceRef,
    pub(crate) unknown_field_count: usize,
    pub(crate) parsed_assertions: Vec<ImportIssue>,
    pub(crate) rejected_fields: Vec<ImportIssue>,
    pub(crate) lossy_conversions: Vec<ImportIssue>,
    pub(crate) unresolved_references: Vec<ImportIssue>,
    pub(crate) review_requirements: Vec<ImportIssue>,
    pub(crate) warnings: Vec<String>,
    pub(crate) events: Ghost<Seq<IssueEvent>>,
}

impl ImportIssueBuilder {
    /// The events recorded so far, in order.
    pub(crate) open spec fn log(&self) -> Seq<IssueEvent> {
        self.events@
    }

    /// Each bucket holds exactly the matching events of the log.
    pub(crate) open spec fn wf(&self) -> bool {
        &&& issues_are(self.parsed_assertions@, ImportIssueKind::Parsed, parsed_of(self.log()))
        &&& issues_are(self.rejected_fields@, ImportIssueKind::Rejected, rejected_of(self.log()))
        &&& issues_are(
            self.lossy_conversions@,
            ImportIssueKind::LossyConversion,
            lossy_of(self.log()),
        )
        &&& issues_are(
            self.unresolved_references@,
            ImportIssueKind::UnresolvedReference,
            unresolved_of(self.log()),
        )
        &&& issues_are(
            self.review_requirements@,
            ImportIssueKind::ReviewRequired,
            review_of(self.log()),
        )
        &&& self.unknown_field_count == unknown_count(self.log())
        &&& unknown_count(self.log()) <= review_of(self.log()).len()
        &&& self.warnings@.len() == 1
        &&& self.warnings@[0]@ == intake_warning()
    }

    /// `self` after recording `e` on top of `before`.
    pub(crate) open spec fn recorded(&self, before: &ImportIssueBuilder, e: IssueEvent) -> bool {
        &&& self.wf()
        &&& self.log() == before.log().push(e)
        &&& self.source == before.source
    }

    pub(crate) fn new(source: SourceRef) -> (r: Self)
        ensures
            r.wf(),
            r.log() == Seq::<IssueEvent>::empty(),
            r.source == source,
    {
        let mut warnings = Vec::new();
        warnings.push(
            String::from_str(
                "EDA authoring intake retained exact strings, unknowns, and handoff owners",
            ),
        );
        ImportIssueBuilder {
            source,
            unknown_field_count: 0,
            parsed_assertions: Vec::new(),
            rejected_fields: Vec::new(),
            lossy_conversions: Vec::new(),
            unresolved_references: Vec::new(),
            review_requirements: Vec::new(),
            warnings,
            events: Ghost(Seq::empty()),
        }
    }

    pub(crate) fn parsed(&mut self, field: String, detail: String)
        requires
            old(self).wf(),
        ensures
            final(self).recorded(old(self), IssueEvent::Parsed(field@, detail@)),
    {
        let ghost e = IssueEvent::Parsed(field@, detail@);
        self.parsed_assertions.push(ImportIssue { field, kind: ImportIssueKind::Parsed, detail });
        self.events = Ghost(self.events@.push(e));
        proof {
            assert(self.events@.drop_last() =~= old(self).events@);
        }
    }

    pub(crate) fn reject(&mut self, field: String, detail: String)
        requires
            old(self).wf(),
        ensures
            final(self).recorded(old(self), IssueEvent::Rejected(field@, detail@)),
    {
        let ghost e = IssueEvent::Rejected(field@, detail@);
        self.rejected_fields.push(ImportIssue { field, kind: ImportIssueKind::Rejected, detail });
        self.events = Ghost(self.events@.push(e));
        proof {
            assert(self.events@.drop_last() =~= old(self).events@);
        }
    }

    pub(crate) fn lossy(&mut self, field: String, detail: String)
        requires
            old(self).wf(),
        ensures
            final(self).recorded(old(self), IssueEvent::Lossy(field@, detail@)),
    {
        let ghost e = IssueEvent::Lossy(field@, detail@);
        self.lossy_conversions.push(
            ImportIssue { field, kind: ImportIssueKind::LossyConversion, detail },
        );
        self.events = Ghost(self.events@.push(e));
        proof {
            assert(self.events@.drop_last() =~= old(self).events@);
        }
    }

    pub(crate) fn unresolved(&mut self, field: String, detail: String)
        requires
            old(self).wf(),
        ensures
            final(self).recorded(old(self), IssueEvent::Unresolved(field@, detail@)),
    {
        let ghost e = IssueEvent::Unresolved(field@, detail@);
        self.unresolved_references.push(
            ImportIssue { field, kind: ImportIssueKind::UnresolvedReference, detail },
        );
        self.events = Ghost(self.events@.push(e));
        proof {
            assert(self.events@.drop_last() =~= old(self).events@);
        }
    }

    pub(crate) fn review(&mut self, field: String, detail: String)
        requires
            old(self).wf(),
        ensures
            final(self).recorded(old(self), IssueEvent::Review(field@, detail@)),
    {
        let ghost e = IssueEvent::Review(field@, detail@);
        self.review_requirements.push(
            ImportIssue { field, kind: ImportIssueKind::ReviewRequired, detail },
        );
        self.events = Ghost(self.events@.push(e));
        proof {
            assert(self.events@.drop_last() =~= old(self).events@);
        }
    }

    /// Counts an explicit unknown and lists it for review.
    pub(crate) fn unknown(&mut self, field: String, detail: String)
        requires
            old(self).wf(),
        ensures
            final(self).recorded(old(self), IssueEvent::Unknown(field@, detail@)),
    {
        let ghost e = IssueEvent::Unknown(field@, detail@);
        self.review_requirements.push(
            ImportIssue { field, kind: ImportIssueKind::ReviewRequired, detail },
        );
        let listed = self.review_requirements.len();
        assert(self.unknown_field_count < listed);
        self.unknown_field_count = self.unknown_field_count + 1;
        self.events = Ghost(self.events@.push(e));
        proof {
            assert(self.events@.drop_last() =~= old(self).events@);
        }
    }

    pub(crate) fn status(&self, imported_any: bool) -> (r: EdaIntakeStatus)
        requires
            self.wf(),
        ensures
            r == intake_status(self.log(), imported_any),
    {
        if !imported_any || self.parsed_assertions.len() == 0 {
            return EdaIntakeStatus::Rejected;
        }
        if self.rejected_fields.len() != 0 || self.lossy_conversions.len() != 0
            || self.unresolved_references.len() != 0 || self.review_requirements.len() != 0 {
            if self.unknown_field_count > 0 && self.rejected_fields.len() == 0
                && self.lossy_conversions.len() == 0 && self.unresolved_references.len() == 0
                && self.review_requirements.len() == self.unknown_field_count {
                EdaIntakeStatus::AcceptedWithUnknowns
            } else {
                EdaIntakeStatus::NeedsReview
            }
        } else {
            EdaIntakeStatus::Accepted
        }
    }

    pub(crate) fn finish(self) -> (r: ImportReport)
        requires
            self.wf(),
        ensures
            report_is(r, self.source, self.log()),
    {
        ImportReport {
            source: self.source,
            target: ImportTargetKind::Custom(String::from_str("tscircuit-authoring")),
            imported_family_count: 1,
            imported_variant_count: 1,
            unknown_field_count: self.unknown_field_count,
            parsed_assertions: self.parsed_assertions,
            rejected_fields: self.rejected_fields,
            lossy_conversions: self.lossy_conversions,
            stale_sources: Vec::new(),
            unresolved_references: self.unresolved_references,
            license_notes: Vec::new(),
            review_requirements: self.review_requirements,
            warnings: self.warnings,
        }
    }
}


/// Sorting events into buckets distributes over concatenation of event logs.
pub proof fn lemma_buckets_concat(a: Seq<IssueEvent>, b: Seq<IssueEvent>)
    ensures
        parsed_of(a + b) == parsed_of(a) + parsed_of(b),
        rejected_of(a + b) == rejected_of(a) + rejected_of(b),
        lossy_of(a + b) == lossy_of(a) + lossy_of(b),
        unresolved_of(a + b) == unresolved_of(a) + unresolved_of(b),
        review_of(a + b) == review_of(a) + review_of(b),
        unknown_count(a + b) == unknown_count(a) + unknown_count(b),
    decreases b.len(),
{
    if b.len() == 0 {
        assert(a + b =~= a);
        assert(parsed_of(a) + parsed_of(b) =~= parsed_of(a));
        assert(rejected_of(a) + rejected_of(b) =~= rejected_of(a));
        assert(lossy_of(a) + lossy_of(b) =~= lossy_of(a));
        assert(unresolved_of(a) + unresolved_of(b) =~= unresolved_of(a));
        assert(review_of(a) + review_of(b) =~= review_of(a));
    } else {
        lemma_buckets_concat(a, b.drop_last());
        assert((a + b).drop_last() =~= a + b.drop_last());
        assert((a + b).last() == b.last());
        assert(parsed_of(a + b) =~= parsed_of(a) + parsed_of(b));
        assert(rejected_of(a + b) =~= rejected_of(a) + rejected_of(b));
        assert(lossy_of(a + b) =~= lossy_of(a) + lossy_of(b));
        assert(unresolved_of(a + b) =~= unresolved_of(a) + unresolved_of(b));
        assert(review_of(a + b) =~= review_of(a) + review_of(b));
    }
}


/// Every counted unknown is also listed for review, so an audit never counts
/// more unknowns than it lists review requirements.
pub proof fn lemma_unknowns_listed_for_review(es: Seq<IssueEvent>)
    ensures
        unknown_count(es) <= review_of(es).len(),
    decreases es.len(),
{
    if es.len() > 0 {
        lemma_unknowns_listed_for_review(es.drop_last());
    }
}


/// A rejected, lossy, unresolved, or review-only entry keeps an intake from
/// being accepted: such issues stay visible in its status.
pub proof fn lemma_issues_block_acceptance(es: Seq<IssueEvent>, imported_any: bool)
    requires
        rejected_of(es).len() > 0 || lossy_of(es).len() > 0 || unresolved_of(es).len() > 0
            || review_of(es).len() > 0,
    ensures
        intake_status(es, imported_any) != EdaIntakeStatus::Accepted,
{
}

} // verus!
