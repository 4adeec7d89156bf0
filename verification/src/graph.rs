//! Part family, variant, import, and query graph.
use vstd::prelude::*;

use crate::assertion::{PartAssertion, SourceRef};
use crate::compatibility::{CompatibilityRelation, ConnectionDecision, Relationship};
use crate::error::{PartsError, PartsResult};
use crate::identity::{PartId, RevisionId, TerminalId, VariantId};
use crate::interface::{ElectricalPolarity, Interface, PartAspect, Terminal};
use crate::keyed::{chars_eq, find_key, has_key, keyed_insert, keys_sorted, lookup, Keyed};
use crate::predicate::spec_closed_overlap;
use crate::process::{Capability, ManufacturingRoute, ProcessCapability, ToolCapability};
use crate::query::{
    PartConstraint, PartQuery, QueryCandidate, QueryEvidence, QueryMatchStatus, QueryResult,
    QueryUnknown,
};
use crate::text::{chars_of, contains_chars, contains_text, text_less};

verus! {

/// Evidence attached to query results and compatibility edges.
#[derive(Clone, Debug, PartialEq)]
pub struct PartQueryEvidence {
    /// Sources consulted.
    pub sources: Vec<SourceRef>,
    /// Short machine-readable facts used in the decision.
    pub facts: Vec<String>,
}

/// Query result with explicit evidence.
#[derive(Clone, Debug, PartialEq)]
pub struct PartQueryResult<T> {
    /// Query decision or payload.
    pub value: T,
    /// Evidence used to produce the value.
    pub evidence: PartQueryEvidence,
}

/// External corpus/import family.
#[derive(Debug, PartialEq, Eq)]
pub enum ImportTargetKind {
    /// KiCad symbols, footprints, boards, or database-library rows.
    KiCad,
    /// LibrePCB symbol/component/package/device elements.
    LibrePcb,
    /// Altium database-library style rows.
    Altium,
    /// NopSCADlib vitamin/assembly/module data.
    NopScadLib,
    /// Replimat parts, techniques, tools, or progress pages.
    Replimat,
    /// Distributor or component-search snapshot.
    Distributor,
    /// BSDL package/pin/boundary-scan data.
    Bsdl,
    /// LEF/DEF/OpenDB/GDS-derived IC metadata.
    IcLayout,
    /// STEP/WRL/SCAD/STL model artifact.
    ModelArtifact,
    /// Source-specific target.
    Custom(String),
}

/// Kind of import issue retained in an audit report.
#[derive(Clone, Copy, Debug, PartialEq, Eq, Structural)]
pub enum ImportIssueKind {
    /// Parsed and accepted field.
    Parsed,
    /// Rejected field.
    Rejected,
    /// Lossy conversion.
    LossyConversion,
    /// Stale source or cache.
    StaleSource,
    /// Unresolved reference.
    UnresolvedReference,
    /// License/provenance note.
    LicenseNote,
    /// Human review requirement.
    ReviewRequired,
}

/// Field-level importer issue.
#[derive(Debug, PartialEq, Eq)]
pub struct ImportIssue {
    /// Source field or object path.
    pub field: String,
    /// Issue kind.
    pub kind: ImportIssueKind,
    /// Human-readable detail.
    pub detail: String,
}

/// Import audit summary for external part libraries.
#[derive(Debug, PartialEq)]
pub struct ImportReport {
    /// Import source.
    pub source: SourceRef,
    /// Import target family.
    pub target: ImportTargetKind,
    /// Number of part families imported.
    pub imported_family_count: usize,
    /// Number of variants imported.
    pub imported_variant_count: usize,
    /// Number of fields deliberately retained as explicit unknowns.
    pub unknown_field_count: usize,
    /// Parsed source fields.
    pub parsed_assertions: Vec<ImportIssue>,
    /// Rejected source fields.
    pub rejected_fields: Vec<ImportIssue>,
    /// Lossy conversions kept explicit.
    pub lossy_conversions: Vec<ImportIssue>,
    /// Stale or freshness-sensitive sources.
    pub stale_sources: Vec<ImportIssue>,
    /// Unresolved references.
    pub unresolved_references: Vec<ImportIssue>,
    /// License/provenance notes.
    pub license_notes: Vec<ImportIssue>,
    /// Human review requirements.
    pub review_requirements: Vec<ImportIssue>,
    /// Human-readable warnings.
    pub warnings: Vec<String>,
}

/// A part family such as a resistor, connector series, package family, or BOM item.
#[derive(Clone, Debug, PartialEq)]
pub struct PartFamily {
    id: PartId,
    name: String,
    variants: Vec<PartVariant>,
}

/// A concrete or semi-concrete part variant.
#[derive(Clone, Debug, PartialEq)]
pub struct PartVariant {
    id: VariantId,
    revision: Option<RevisionId>,
    assertions: Vec<PartAssertion>,
    aspects: Vec<PartAspect>,
    terminals: Vec<Terminal>,
    interfaces: Vec<Interface>,
    subparts: Vec<PartId>,
    processes: Vec<ProcessCapability>,
}

/// Queryable source-attributed part graph.
#[derive(Clone, Debug, PartialEq)]
pub struct PartGraph {
    families: Vec<PartFamily>,
    compatibility: Vec<CompatibilityRelation>,
    relationships: Vec<Relationship>,
    capabilities: Vec<Capability>,
    routes: Vec<ManufacturingRoute>,
    tools: Vec<ToolCapability>,
    imports: Vec<ImportReport>,
}

impl PartQueryEvidence {
    /// Creates empty evidence.
    pub fn empty() -> (r: Self)
        ensures
            r.sources@.len() == 0,
            r.facts@.len() == 0,
    {
        PartQueryEvidence { sources: Vec::new(), facts: Vec::new() }
    }

    /// Creates evidence from one source and one fact.
    pub fn from_fact(source: SourceRef, fact: &str) -> (r: Self)
        ensures
            r.sources@ == seq![source],
            r.facts@.len() == 1,
            r.facts@[0]@ == fact@,
    {
        let mut sources = Vec::new();
        sources.push(source);
        let mut facts = Vec::new();
        facts.push(String::from_str(fact));
        PartQueryEvidence { sources, facts }
    }
}

impl Clone for ImportTargetKind {
    fn clone(&self) -> (r: Self)
        ensures
            r == *self,
    {
        match self {
            ImportTargetKind::KiCad => ImportTargetKind::KiCad,
            ImportTargetKind::LibrePcb => ImportTargetKind::LibrePcb,
            ImportTargetKind::Altium => ImportTargetKind::Altium,
            ImportTargetKind::NopScadLib => ImportTargetKind::NopScadLib,
            ImportTargetKind::Replimat => ImportTargetKind::Replimat,
            ImportTargetKind::Distributor => ImportTargetKind::Distributor,
            ImportTargetKind::Bsdl => ImportTargetKind::Bsdl,
            ImportTargetKind::IcLayout => ImportTargetKind::IcLayout,
            ImportTargetKind::ModelArtifact => ImportTargetKind::ModelArtifact,
            ImportTargetKind::Custom(s) => ImportTargetKind::Custom(s.clone()),
        }
    }
}

impl Clone for ImportIssue {
    fn clone(&self) -> (r: Self)
        ensures
            r == *self,
    {
        ImportIssue { field: self.field.clone(), kind: self.kind, detail: self.detail.clone() }
    }
}

impl ImportReport {
    /// Two reports carry the same source, target, counts, issues, and warnings.
    pub open spec fn same_as(&self, other: &ImportReport) -> bool {
        &&& self.source == other.source
        &&& self.target == other.target
        &&& self.imported_family_count == other.imported_family_count
        &&& self.imported_variant_count == other.imported_variant_count
        &&& self.unknown_field_count == other.unknown_field_count
        &&& self.parsed_assertions@ == other.parsed_assertions@
        &&& self.rejected_fields@ == other.rejected_fields@
        &&& self.lossy_conversions@ == other.lossy_conversions@
        &&& self.stale_sources@ == other.stale_sources@
        &&& self.unresolved_references@ == other.unresolved_references@
        &&& self.license_notes@ == other.license_notes@
        &&& self.review_requirements@ == other.review_requirements@
        &&& self.warnings@ == other.warnings@
    }
}

fn clone_issues(v: &Vec<ImportIssue>) -> (r: Vec<ImportIssue>)
    ensures
        r@ == v@,
{
    let r = v.clone();
    assert(r@ =~= v@);
    r
}

fn clone_strings(v: &Vec<String>) -> (r: Vec<String>)
    ensures
        r@ == v@,
{
    let r = v.clone();
    assert(r@ =~= v@);
    r
}

impl Clone for ImportReport {
    fn clone(&self) -> (r: Self)
        ensures
            r.same_as(self),
    {
        ImportReport {
            source: self.source.clone(),
            target: self.target.clone(),
            imported_family_count: self.imported_family_count,
            imported_variant_count: self.imported_variant_count,
            unknown_field_count: self.unknown_field_count,
            parsed_assertions: clone_issues(&self.parsed_assertions),
            rejected_fields: clone_issues(&self.rejected_fields),
            lossy_conversions: clone_issues(&self.lossy_conversions),
            stale_sources: clone_issues(&self.stale_sources),
            unresolved_references: clone_issues(&self.unresolved_references),
            license_notes: clone_issues(&self.license_notes),
            review_requirements: clone_issues(&self.review_requirements),
            warnings: clone_strings(&self.warnings),
        }
    }
}

impl Keyed for PartFamily {
    open spec fn spec_key(&self) -> Seq<char> {
        self.spec_id()@
    }

    fn key_chars(&self) -> (r: Vec<char>) {
        chars_of(self.id.as_str())
    }
}

impl Keyed for PartVariant {
    open spec fn spec_key(&self) -> Seq<char> {
        self.spec_id()@
    }

    fn key_chars(&self) -> (r: Vec<char>) {
        chars_of(self.id.as_str())
    }
}

impl Keyed for Terminal {
    open spec fn spec_key(&self) -> Seq<char> {
        self.spec_id()@
    }

    fn key_chars(&self) -> (r: Vec<char>) {
        chars_of(self.id().as_str())
    }
}

impl PartFamily {
    /// The family id.
    pub closed spec fn spec_id(&self) -> PartId {
        self.id
    }

    /// The display name.
    pub closed spec fn spec_name(&self) -> Seq<char> {
        self.name@
    }

    /// The variants, in variant-id order.
    pub closed spec fn spec_variants(&self) -> Seq<PartVariant> {
        self.variants@
    }

    /// Variant ids are unique and ordered.
    pub open spec fn wf(&self) -> bool {
        keys_sorted(self.spec_variants())
    }

    /// Creates an empty part family.
    pub fn new(id: PartId, name: &str) -> (r: Self)
        ensures
            r.spec_id() == id,
            r.spec_name() == name@,
            r.spec_variants().len() == 0,
            r.wf(),
    {
        PartFamily { id, name: String::from_str(name), variants: Vec::new() }
    }

    /// Returns the family id.
    pub fn id(&self) -> (r: &PartId)
        ensures
            *r == self.spec_id(),
    {
        &self.id
    }

    /// Returns the display name.
    pub fn name(&self) -> (r: &str)
        ensures
            r@ == self.spec_name(),
    {
        self.name.as_str()
    }

    /// Inserts or replaces a variant: afterwards its id looks up exactly this
    /// variant and every other id looks up what it did before.
    pub fn insert_variant(&mut self, variant: PartVariant)
        requires
            old(self).wf(),
        ensures
            final(self).wf(),
            final(self).spec_id() == old(self).spec_id(),
            final(self).spec_name() == old(self).spec_name(),
            forall|k: Seq<char>|
                #[trigger] lookup(final(self).spec_variants(), k) == if k == variant.spec_key() {
                    Some(variant)
                } else {
                    lookup(old(self).spec_variants(), k)
                },
    {
        keyed_insert(&mut self.variants, variant);
    }

    /// Returns a variant by id.
    pub fn variant(&self, id: &VariantId) -> (r: Option<&PartVariant>)
        ensures
            match lookup(self.spec_variants(), id@) {
                Some(v) => r == Some(&v),
                None => r is None,
            },
    {
        let key = chars_of(id.as_str());
        match find_key(self.variants.as_slice(), key.as_slice()) {
            Some(i) => Some(&self.variants[i]),
            None => None,
        }
    }

    /// Returns all variants, in variant-id order.
    pub fn variants(&self) -> (r: &[PartVariant])
        ensures
            r@ == self.spec_variants(),
    {
        self.variants.as_slice()
    }
}

impl PartVariant {
    /// The variant id.
    pub closed spec fn spec_id(&self) -> VariantId {
        self.id
    }

    /// The optional revision id.
    pub closed spec fn spec_revision(&self) -> Option<RevisionId> {
        self.revision
    }

    /// The assertions, in insertion order.
    pub closed spec fn spec_assertions(&self) -> Seq<PartAssertion> {
        self.assertions@
    }

    /// The aspects, in insertion order.
    pub closed spec fn spec_aspects(&self) -> Seq<PartAspect> {
        self.aspects@
    }

    /// The terminals, in terminal-id order.
    pub closed spec fn spec_terminals(&self) -> Seq<Terminal> {
        self.terminals@
    }

    /// The interfaces, in insertion order.
    pub closed spec fn spec_interfaces(&self) -> Seq<Interface> {
        self.interfaces@
    }

    /// The subpart family ids, in insertion order.
    pub closed spec fn spec_subparts(&self) -> Seq<PartId> {
        self.subparts@
    }

    /// The process capabilities, in insertion order.
    pub closed spec fn spec_processes(&self) -> Seq<ProcessCapability> {
        self.processes@
    }

    /// Terminal ids are unique and ordered.
    pub open spec fn wf(&self) -> bool {
        keys_sorted(self.spec_terminals())
    }

    /// `self` equals `other` except for the listed part.
    pub open spec fn same_except_assertions(&self, other: &PartVariant) -> bool {
        &&& self.spec_id() == other.spec_id()
        &&& self.spec_revision() == other.spec_revision()
        &&& self.spec_aspects() == other.spec_aspects()
        &&& self.spec_terminals() == other.spec_terminals()
        &&& self.spec_interfaces() == other.spec_interfaces()
        &&& self.spec_subparts() == other.spec_subparts()
        &&& self.spec_processes() == other.spec_processes()
    }

    /// Creates a variant with optional revision and nothing else.
    pub fn new(id: VariantId, revision: Option<RevisionId>) -> (r: Self)
        ensures
            r.spec_id() == id,
            r.spec_revision() == revision,
            r.spec_assertions().len() == 0,
            r.spec_aspects().len() == 0,
            r.spec_terminals().len() == 0,
            r.spec_interfaces().len() == 0,
            r.spec_subparts().len() == 0,
            r.spec_processes().len() == 0,
            r.wf(),
    {
        PartVariant {
            id,
            revision,
            assertions: Vec::new(),
            aspects: Vec::new(),
            terminals: Vec::new(),
            interfaces: Vec::new(),
            subparts: Vec::new(),
            processes: Vec::new(),
        }
    }

    /// Returns the variant id.
    pub fn id(&self) -> (r: &VariantId)
        ensures
            *r == self.spec_id(),
    {
        &self.id
    }

    /// Returns the optional revision id.
    pub fn revision(&self) -> (r: Option<&RevisionId>)
        ensures
            match self.spec_revision() {
                Some(v) => r == Some(&v),
                None => r is None,
            },
    {
        self.revision.as_ref()
    }

    /// Adds a source-attributed assertion.
    pub fn add_assertion(&mut self, assertion: PartAssertion)
        ensures
            final(self).spec_assertions() == old(self).spec_assertions().push(assertion),
            final(self).same_except_assertions(old(self)),
    {
        self.assertions.push(assertion);
    }

    /// Adds a part aspect.
    pub fn add_aspect(&mut self, aspect: PartAspect)
        ensures
            final(self).spec_aspects() == old(self).spec_aspects().push(aspect),
            final(self).spec_id() == old(self).spec_id(),
            final(self).spec_revision() == old(self).spec_revision(),
            final(self).spec_assertions() == old(self).spec_assertions(),
            final(self).spec_terminals() == old(self).spec_terminals(),
            final(self).spec_interfaces() == old(self).spec_interfaces(),
            final(self).spec_subparts() == old(self).spec_subparts(),
            final(self).spec_processes() == old(self).spec_processes(),
    {
        self.aspects.push(aspect);
    }

    /// Adds a terminal, replacing one with the same id: afterwards its id looks
    /// up exactly this terminal and every other id looks up what it did before.
    pub fn add_terminal(&mut self, terminal: Terminal)
        requires
            old(self).wf(),
        ensures
            final(self).wf(),
            forall|k: Seq<char>|
                #[trigger] lookup(final(self).spec_terminals(), k) == if k == terminal.spec_key() {
                    Some(terminal)
                } else {
                    lookup(old(self).spec_terminals(), k)
                },
            final(self).spec_terminals().len() == old(self).spec_terminals().len() + if has_key(
                old(self).spec_terminals(),
                terminal.spec_key(),
            ) {
                0int
            } else {
                1int
            },
            final(self).spec_id() == old(self).spec_id(),
            final(self).spec_revision() == old(self).spec_revision(),
            final(self).spec_assertions() == old(self).spec_assertions(),
            final(self).spec_aspects() == old(self).spec_aspects(),
            final(self).spec_interfaces() == old(self).spec_interfaces(),
            final(self).spec_subparts() == old(self).spec_subparts(),
            final(self).spec_processes() == old(self).spec_processes(),
    {
        keyed_insert(&mut self.terminals, terminal);
    }

    /// Adds an interface.
    pub fn add_interface(&mut self, interface: Interface)
        ensures
            final(self).spec_interfaces() == old(self).spec_interfaces().push(interface),
            final(self).spec_id() == old(self).spec_id(),
            final(self).spec_revision() == old(self).spec_revision(),
            final(self).spec_assertions() == old(self).spec_assertions(),
            final(self).spec_aspects() == old(self).spec_aspects(),
            final(self).spec_terminals() == old(self).spec_terminals(),
            final(self).spec_subparts() == old(self).spec_subparts(),
            final(self).spec_processes() == old(self).spec_processes(),
    {
        self.interfaces.push(interface);
    }

    /// Adds a subpart family reference.
    pub fn add_subpart(&mut self, part: PartId)
        ensures
            final(self).spec_subparts() == old(self).spec_subparts().push(part),
            final(self).spec_id() == old(self).spec_id(),
            final(self).spec_revision() == old(self).spec_revision(),
            final(self).spec_assertions() == old(self).spec_assertions(),
            final(self).spec_aspects() == old(self).spec_aspects(),
            final(self).spec_terminals() == old(self).spec_terminals(),
            final(self).spec_interfaces() == old(self).spec_interfaces(),
            final(self).spec_processes() == old(self).spec_processes(),
    {
        self.subparts.push(part);
    }

    /// Adds a process capability.
    pub fn add_process(&mut self, process: ProcessCapability)
        ensures
            final(self).spec_processes() == old(self).spec_processes().push(process),
            final(self).spec_id() == old(self).spec_id(),
            final(self).spec_revision() == old(self).spec_revision(),
            final(self).spec_assertions() == old(self).spec_assertions(),
            final(self).spec_aspects() == old(self).spec_aspects(),
            final(self).spec_terminals() == old(self).spec_terminals(),
            final(self).spec_interfaces() == old(self).spec_interfaces(),
            final(self).spec_subparts() == old(self).spec_subparts(),
    {
        self.processes.push(process);
    }

    /// Returns a terminal by id.
    pub fn terminal(&self, id: &TerminalId) -> (r: Option<&Terminal>)
        ensures
            match lookup(self.spec_terminals(), id@) {
                Some(t) => r == Some(&t),
                None => r is None,
            },
    {
        let key = chars_of(id.as_str());
        match find_key(self.terminals.as_slice(), key.as_slice()) {
            Some(i) => Some(&self.terminals[i]),
            None => None,
        }
    }

    /// Returns assertions.
    pub fn assertions(&self) -> (r: &[PartAssertion])
        ensures
            r@ == self.spec_assertions(),
    {
        self.assertions.as_slice()
    }

    /// Returns aspects.
    pub fn aspects(&self) -> (r: &[PartAspect])
        ensures
            r@ == self.spec_aspects(),
    {
        self.aspects.as_slice()
    }

    /// Returns interfaces.
    pub fn interfaces(&self) -> (r: &[Interface])
        ensures
            r@ == self.spec_interfaces(),
    {
        self.interfaces.as_slice()
    }

    /// Returns subpart ids.
    pub fn subparts(&self) -> (r: &[PartId])
        ensures
            r@ == self.spec_subparts(),
    {
        self.subparts.as_slice()
    }
}


/// The capability declares `target` as one of its inputs or outputs.
pub open spec fn touches_target(capability: Capability, target: Seq<char>) -> bool {
    ||| exists|i: int|
        0 <= i < capability.inputs@.len() && (#[trigger] capability.inputs@[i]).handle@ == target
    ||| exists|i: int|
        0 <= i < capability.outputs@.len() && (#[trigger] capability.outputs@[i]).handle@
            == target
}

/// The capabilities that declare `target` as an input or output, in order.
pub open spec fn target_capabilities(caps: Seq<Capability>, target: Seq<char>) -> Seq<Capability> {
    caps.filter(|c: Capability| touches_target(c, target))
}

/// The existence query agrees with the listing query: some capability
/// declares a target exactly when listing the target's capabilities finds one.
pub proof fn lemma_target_exists_iff_listed(caps: Seq<Capability>, target: Seq<char>)
    ensures
        any_touches(caps, target) <==> target_capabilities(caps, target).len() > 0,
    decreases caps.len(),
{
    if caps.len() > 0 {
        let init = caps.drop_last();
        lemma_target_exists_iff_listed(init, target);
        assert(caps =~= init.push(caps.last()));
        init.lemma_filter_push(caps.last(), |c: Capability| touches_target(c, target));
        if any_touches(init, target) {
            let i = choose|i: int| 0 <= i < init.len() && touches_target(#[trigger] init[i], target);
            assert(caps[i] == init[i]);
        }
        if any_touches(caps, target) && !touches_target(caps.last(), target) {
            let i = choose|i: int| 0 <= i < caps.len() && touches_target(#[trigger] caps[i], target);
            assert(i < init.len());
            assert(init[i] == caps[i]);
        }
    } else {
        assert(target_capabilities(caps, target) =~= Seq::<Capability>::empty());
    }
}

/// The capability is performed by the tool with handle `tool`.
pub open spec fn uses_tool(capability: Capability, tool: Seq<char>) -> bool {
    capability.tool.handle@ == tool
}

/// Text equality of a `String` and a `&str`.
fn string_is(s: &String, t: &str) -> (r: bool)
    ensures
        r == (s@ == t@),
{
    let a = chars_of(s.as_str());
    let b = chars_of(t);
    chars_eq(a.as_slice(), b.as_slice())
}

fn capability_touches(capability: &Capability, target: &str) -> (r: bool)
    ensures
        r == touches_target(*capability, target@),
{
    let mut i: usize = 0;
    while i < capability.inputs.len()
        invariant
            i <= capability.inputs@.len(),
            forall|j: int| 0 <= j < i ==> (#[trigger] capability.inputs@[j]).handle@ != target@,
        decreases capability.inputs.len() - i,
    {
        if string_is(&capability.inputs[i].handle, target) {
            return true;
        }
        i = i + 1;
    }
    let mut k: usize = 0;
    while k < capability.outputs.len()
        invariant
            k <= capability.outputs@.len(),
            forall|j: int| 0 <= j < capability.inputs@.len() ==> (#[trigger] capability.inputs@[j]).handle@ != target@,
            forall|j: int| 0 <= j < k ==> (#[trigger] capability.outputs@[j]).handle@ != target@,
        decreases capability.outputs.len() - k,
    {
        if string_is(&capability.outputs[k].handle, target) {
            return true;
        }
        k = k + 1;
    }
    false
}

impl Default for PartGraph {
    fn default() -> (r: Self)
        ensures
            r.spec_families().len() == 0,
            r.spec_compatibility().len() == 0,
            r.spec_relationships().len() == 0,
            r.spec_capabilities().len() == 0,
            r.spec_routes().len() == 0,
            r.spec_tools().len() == 0,
            r.spec_imports().len() == 0,
            r.wf(),
    {
        PartGraph {
            families: Vec::new(),
            compatibility: Vec::new(),
            relationships: Vec::new(),
            capabilities: Vec::new(),
            routes: Vec::new(),
            tools: Vec::new(),
            imports: Vec::new(),
        }
    }
}

impl PartGraph {
    /// The families, in part-id order.
    pub closed spec fn spec_families(&self) -> Seq<PartFamily> {
        self.families@
    }

    /// The compatibility relations, in insertion order.
    pub closed spec fn spec_compatibility(&self) -> Seq<CompatibilityRelation> {
        self.compatibility@
    }

    /// The general relationships, in insertion order.
    pub closed spec fn spec_relationships(&self) -> Seq<Relationship> {
        self.relationships@
    }

    /// The typed process capabilities, in insertion order.
    pub closed spec fn spec_capabilities(&self) -> Seq<Capability> {
        self.capabilities@
    }

    /// The manufacturing routes, in insertion order.
    pub closed spec fn spec_routes(&self) -> Seq<ManufacturingRoute> {
        self.routes@
    }

    /// The tool capabilities, in insertion order.
    pub closed spec fn spec_tools(&self) -> Seq<ToolCapability> {
        self.tools@
    }

    /// The import reports, in insertion order.
    pub closed spec fn spec_imports(&self) -> Seq<ImportReport> {
        self.imports@
    }

    /// Family ids are unique and ordered.
    pub open spec fn wf(&self) -> bool {
        keys_sorted(self.spec_families())
    }

    /// `self` and `other` hold the same families and records, except possibly
    /// the named part.
    pub open spec fn same_records(&self, other: &PartGraph) -> bool {
        &&& self.spec_compatibility() == other.spec_compatibility()
        &&& self.spec_relationships() == other.spec_relationships()
        &&& self.spec_capabilities() == other.spec_capabilities()
        &&& self.spec_routes() == other.spec_routes()
        &&& self.spec_tools() == other.spec_tools()
        &&& self.spec_imports() == other.spec_imports()
    }

    /// Inserts or replaces a family: afterwards its id looks up exactly this
    /// family and every other id looks up what it did before.
    pub fn insert_family(&mut self, family: PartFamily)
        requires
            old(self).wf(),
        ensures
            final(self).wf(),
            forall|k: Seq<char>|
                #[trigger] lookup(final(self).spec_families(), k) == if k == family.spec_key() {
                    Some(family)
                } else {
                    lookup(old(self).spec_families(), k)
                },
            final(self).spec_families().len() == old(self).spec_families().len() + if has_key(
                old(self).spec_families(),
                family.spec_key(),
            ) {
                0int
            } else {
                1int
            },
            final(self).same_records(old(self)),
    {
        keyed_insert(&mut self.families, family);
    }

    /// Returns a family by id.
    pub fn family(&self, id: &PartId) -> (r: Option<&PartFamily>)
        ensures
            match lookup(self.spec_families(), id@) {
                Some(f) => r == Some(&f),
                None => r is None,
            },
    {
        let key = chars_of(id.as_str());
        match find_key(self.families.as_slice(), key.as_slice()) {
            Some(i) => Some(&self.families[i]),
            None => None,
        }
    }

    /// Records a compatibility relation.
    pub fn add_compatibility(&mut self, relation: CompatibilityRelation)
        ensures
            final(self).spec_compatibility() == old(self).spec_compatibility().push(relation),
            final(self).spec_families() == old(self).spec_families(),
            final(self).spec_relationships() == old(self).spec_relationships(),
            final(self).spec_capabilities() == old(self).spec_capabilities(),
            final(self).spec_routes() == old(self).spec_routes(),
            final(self).spec_tools() == old(self).spec_tools(),
            final(self).spec_imports() == old(self).spec_imports(),
    {
        self.compatibility.push(relation);
    }

    /// Records a general relationship.
    pub fn add_relationship(&mut self, relationship: Relationship)
        ensures
            final(self).spec_relationships() == old(self).spec_relationships().push(relationship),
            final(self).spec_families() == old(self).spec_families(),
            final(self).spec_compatibility() == old(self).spec_compatibility(),
            final(self).spec_capabilities() == old(self).spec_capabilities(),
            final(self).spec_routes() == old(self).spec_routes(),
            final(self).spec_tools() == old(self).spec_tools(),
            final(self).spec_imports() == old(self).spec_imports(),
    {
        self.relationships.push(relationship);
    }

    /// Records a typed process capability.
    pub fn add_capability(&mut self, capability: Capability)
        ensures
            final(self).spec_capabilities() == old(self).spec_capabilities().push(capability),
            final(self).spec_families() == old(self).spec_families(),
            final(self).spec_compatibility() == old(self).spec_compatibility(),
            final(self).spec_relationships() == old(self).spec_relationships(),
            final(self).spec_routes() == old(self).spec_routes(),
            final(self).spec_tools() == old(self).spec_tools(),
            final(self).spec_imports() == old(self).spec_imports(),
    {
        self.capabilities.push(capability);
    }

    /// Records a manufacturing route.
    pub fn add_manufacturing_route(&mut self, route: ManufacturingRoute)
        ensures
            final(self).spec_routes() == old(self).spec_routes().push(route),
            final(self).spec_families() == old(self).spec_families(),
            final(self).spec_compatibility() == old(self).spec_compatibility(),
            final(self).spec_relationships() == old(self).spec_relationships(),
            final(self).spec_capabilities() == old(self).spec_capabilities(),
            final(self).spec_tools() == old(self).spec_tools(),
            final(self).spec_imports() == old(self).spec_imports(),
    {
        self.routes.push(route);
    }

    /// Records a tool capability.
    pub fn add_tool(&mut self, tool: ToolCapability)
        ensures
            final(self).spec_tools() == old(self).spec_tools().push(tool),
            final(self).spec_families() == old(self).spec_families(),
            final(self).spec_compatibility() == old(self).spec_compatibility(),
            final(self).spec_relationships() == old(self).spec_relationships(),
            final(self).spec_capabilities() == old(self).spec_capabilities(),
            final(self).spec_routes() == old(self).spec_routes(),
            final(self).spec_imports() == old(self).spec_imports(),
    {
        self.tools.push(tool);
    }

    /// Records an import report.
    pub fn add_import_report(&mut self, report: ImportReport)
        ensures
            final(self).spec_imports() == old(self).spec_imports().push(report),
            final(self).spec_families() == old(self).spec_families(),
            final(self).spec_compatibility() == old(self).spec_compatibility(),
            final(self).spec_relationships() == old(self).spec_relationships(),
            final(self).spec_capabilities() == old(self).spec_capabilities(),
            final(self).spec_routes() == old(self).spec_routes(),
            final(self).spec_tools() == old(self).spec_tools(),
    {
        self.imports.push(report);
    }

    /// Returns import reports.
    pub fn import_reports(&self) -> (r: &[ImportReport])
        ensures
            r@ == self.spec_imports(),
    {
        self.imports.as_slice()
    }

    /// Returns compatibility relations.
    pub fn compatibility(&self) -> (r: &[CompatibilityRelation])
        ensures
            r@ == self.spec_compatibility(),
    {
        self.compatibility.as_slice()
    }

    /// Returns general relationships.
    pub fn relationships(&self) -> (r: &[Relationship])
        ensures
            r@ == self.spec_relationships(),
    {
        self.relationships.as_slice()
    }

    /// Returns typed process capabilities.
    pub fn capabilities(&self) -> (r: &[Capability])
        ensures
            r@ == self.spec_capabilities(),
    {
        self.capabilities.as_slice()
    }

    /// Returns manufacturing routes.
    pub fn manufacturing_routes(&self) -> (r: &[ManufacturingRoute])
        ensures
            r@ == self.spec_routes(),
    {
        self.routes.as_slice()
    }

    /// Returns recorded tool capabilities.
    pub fn tools(&self) -> (r: &[ToolCapability])
        ensures
            r@ == self.spec_tools(),
    {
        self.tools.as_slice()
    }

    /// Finds typed capabilities by tool handle, in recorded order.
    pub fn capabilities_for_tool(&self, tool: &str) -> (r: Vec<&Capability>)
        ensures
            r@.len() == self.spec_capabilities().filter(|c: Capability| uses_tool(c, tool@)).len(),
            forall|i: int|
                0 <= i < r@.len() ==> *(#[trigger] r@[i]) == self.spec_capabilities().filter(
                    |c: Capability| uses_tool(c, tool@),
                )[i],
    {
        let ghost pred = |c: Capability| uses_tool(c, tool@);
        let ghost caps = self.capabilities@;
        let mut found: Vec<&Capability> = Vec::new();
        let mut i: usize = 0;
        while i < self.capabilities.len()
            invariant
                i <= caps.len(),
                caps == self.capabilities@,
                pred == (|c: Capability| uses_tool(c, tool@)),
                found@.len() == caps.take(i as int).filter(pred).len(),
                forall|j: int|
                    0 <= j < found@.len() ==> *(#[trigger] found@[j]) == caps.take(i as int).filter(
                        pred,
                    )[j],
            decreases caps.len() - i,
        {
            proof {
                assert(caps.take(i + 1) =~= caps.take(i as int).push(caps[i as int]));
                caps.take(i as int).lemma_filter_push(caps[i as int], pred);
            }
            if string_is(&self.capabilities[i].tool.handle, tool) {
                found.push(&self.capabilities[i]);
            }
            i = i + 1;
        }
        assert(caps.take(caps.len() as int) =~= caps);
        found
    }

    /// Finds typed capabilities that declare the target as an input or output,
    /// in recorded order.
    pub fn capabilities_for_target(&self, target: &str) -> (r: Vec<&Capability>)
        ensures
            r@.len() == target_capabilities(self.spec_capabilities(), target@).len(),
            forall|i: int|
                0 <= i < r@.len() ==> *(#[trigger] r@[i]) == target_capabilities(
                    self.spec_capabilities(),
                    target@,
                )[i],
    {
        let ghost pred = |c: Capability| touches_target(c, target@);
        let ghost caps = self.capabilities@;
        let mut found: Vec<&Capability> = Vec::new();
        let mut i: usize = 0;
        while i < self.capabilities.len()
            invariant
                i <= caps.len(),
                caps == self.capabilities@,
                pred == (|c: Capability| touches_target(c, target@)),
                found@.len() == caps.take(i as int).filter(pred).len(),
                forall|j: int|
                    0 <= j < found@.len() ==> *(#[trigger] found@[j]) == caps.take(i as int).filter(
                        pred,
                    )[j],
            decreases caps.len() - i,
        {
            proof {
                assert(caps.take(i + 1) =~= caps.take(i as int).push(caps[i as int]));
                caps.take(i as int).lemma_filter_push(caps[i as int], pred);
            }
            if capability_touches(&self.capabilities[i], target) {
                found.push(&self.capabilities[i]);
            }
            i = i + 1;
        }
        assert(caps.take(caps.len() as int) =~= caps);
        found
    }

    /// Whether any recorded capability declares `target` as an input or
    /// output; stops at the first one.
    pub fn has_capability_target(&self, target: &str) -> (r: bool)
        ensures
            r == any_touches(self.spec_capabilities(), target@),
    {
        let mut i: usize = 0;
        while i < self.capabilities.len()
            invariant
                i <= self.capabilities@.len(),
                forall|j: int|
                    0 <= j < i ==> !touches_target(#[trigger] self.capabilities@[j], target@),
            decreases self.capabilities.len() - i,
        {
            if capability_touches(&self.capabilities[i], target) {
                assert(touches_target(self.spec_capabilities()[i as int], target@));
                return true;
            }
            i = i + 1;
        }
        false
    }
}


/// Some variant of the family exposes at least one interface.
pub open spec fn has_interface_variant(family: PartFamily) -> bool {
    exists|i: int|
        0 <= i < family.spec_variants().len() && (
        #[trigger] family.spec_variants()[i]).spec_interfaces().len() > 0
}

/// Some variant of the family carries a shape-handle assertion.
pub open spec fn has_geometry_variant(family: PartFamily) -> bool {
    exists|i: int|
        0 <= i < family.spec_variants().len() && has_shape_assertion(
            #[trigger] family.spec_variants()[i],
        )
}

/// The variant carries a shape-handle assertion.
pub open spec fn has_shape_assertion(variant: PartVariant) -> bool {
    exists|j: int|
        0 <= j < variant.spec_assertions().len() && (#[trigger] variant.spec_assertions()[j]) is ShapeHandle
}

/// Some capability declares `target` as an input or output.
pub open spec fn any_touches(caps: Seq<Capability>, target: Seq<char>) -> bool {
    exists|i: int| 0 <= i < caps.len() && touches_target(#[trigger] caps[i], target)
}

/// Evaluates `cs` in order against one family, stopping at the first failure:
/// whether all matched, the accumulated rank, the notes of matched
/// constraints, and the fields of custom constraints that were reached.
pub open spec fn eval_constraints(
    caps: Seq<Capability>,
    family: PartFamily,
    cs: Seq<PartConstraint>,
) -> (bool, int, Seq<Seq<char>>, Seq<Seq<char>>)
    decreases cs.len(),
{
    if cs.len() == 0 {
        (true, 0, Seq::empty(), Seq::empty())
    } else {
        let rest = eval_constraints(caps, family, cs.drop_first());
        let fail = (false, 0int, Seq::<Seq<char>>::empty(), Seq::<Seq<char>>::empty());
        match cs[0] {
            PartConstraint::FamilyNameContains(n) => if contains_text(family.spec_name(), n@) {
                (rest.0, rest.1 + 10, seq!["family name contains "@ + n@] + rest.2, rest.3)
            } else {
                fail
            },
            PartConstraint::PartIdContains(n) => if contains_text(family.spec_id()@, n@) {
                (rest.0, rest.1 + 10, seq!["part id contains "@ + n@] + rest.2, rest.3)
            } else {
                fail
            },
            PartConstraint::HasInterface => if has_interface_variant(family) {
                (rest.0, rest.1 + 5, seq!["variant exposes interface"@] + rest.2, rest.3)
            } else {
                fail
            },
            PartConstraint::HasGeometry => if has_geometry_variant(family) {
                (rest.0, rest.1 + 5, seq!["variant has geometry assertion"@] + rest.2, rest.3)
            } else {
                fail
            },
            PartConstraint::HasCapabilityTarget(t) => if any_touches(caps, t@) {
                (
                    rest.0,
                    rest.1 + 3,
                    seq!["capability target "@ + t@ + " exists"@] + rest.2,
                    rest.3,
                )
            } else {
                fail
            },
            PartConstraint::Custom(field) => (false, 0, Seq::empty(), seq![field@]),
        }
    }
}

/// The accumulated rank stays within `0 ..= 10 * cs.len()`.
pub proof fn lemma_eval_rank_bound(caps: Seq<Capability>, family: PartFamily, cs: Seq<PartConstraint>)
    ensures
        0 <= eval_constraints(caps, family, cs).1 <= 10 * cs.len(),
    decreases cs.len(),
{
    if cs.len() > 0 {
        lemma_eval_rank_bound(caps, family, cs.drop_first());
    }
}

/// Matched families in family order, as (id, rank, notes).
pub open spec fn query_matches(
    caps: Seq<Capability>,
    fams: Seq<PartFamily>,
    cs: Seq<PartConstraint>,
) -> Seq<(Seq<char>, int, Seq<Seq<char>>)>
    decreases fams.len(),
{
    if fams.len() == 0 {
        Seq::empty()
    } else {
        let prev = query_matches(caps, fams.drop_last(), cs);
        let e = eval_constraints(caps, fams.last(), cs);
        if e.0 {
            prev.push((fams.last().spec_key(), e.1, e.2))
        } else {
            prev
        }
    }
}

/// Fields of custom constraints reached, family by family.
pub open spec fn query_custom_fields(
    caps: Seq<Capability>,
    fams: Seq<PartFamily>,
    cs: Seq<PartConstraint>,
) -> Seq<Seq<char>>
    decreases fams.len(),
{
    if fams.len() == 0 {
        Seq::empty()
    } else {
        query_custom_fields(caps, fams.drop_last(), cs) + eval_constraints(caps, fams.last(), cs).3
    }
}

/// A candidate as (id, rank, notes).
pub open spec fn candidate_view(c: QueryCandidate<PartId>) -> (Seq<char>, int, Seq<Seq<char>>) {
    (c.value@, c.rank as int, string_views(c.evidence.notes@))
}

/// Ranking order: higher rank first, then smaller id.
pub open spec fn candidate_before(
    a: (Seq<char>, int, Seq<Seq<char>>),
    b: (Seq<char>, int, Seq<Seq<char>>),
) -> bool {
    a.1 > b.1 || (a.1 == b.1 && text_less(a.0, b.0))
}

/// An unknown as (field, reason).
pub open spec fn unknown_view(u: QueryUnknown) -> (Seq<char>, Seq<char>) {
    (u.field@, u.reason@)
}

/// The texts of a sequence of strings.
pub open spec fn string_views(s: Seq<String>) -> Seq<Seq<char>> {
    s.map_values(|x: String| x@)
}

/// The views of a sequence of unknowns.
pub open spec fn unknown_views(s: Seq<QueryUnknown>) -> Seq<(Seq<char>, Seq<char>)> {
    s.map_values(|u: QueryUnknown| unknown_view(u))
}

/// The unknowns reported for reached custom constraints.
pub open spec fn custom_unknowns(fields: Seq<Seq<char>>) -> Seq<(Seq<char>, Seq<char>)> {
    fields.map_values(|f: Seq<char>| custom_unknown(f))
}

/// The unknown reported for a reached custom constraint.
pub open spec fn custom_unknown(field: Seq<char>) -> (Seq<char>, Seq<char>) {
    (field, "custom query constraint requires an adapter"@)
}

fn family_has_interface(family: &PartFamily) -> (r: bool)
    ensures
        r == has_interface_variant(*family),
{
    let variants = family.variants();
    let mut i: usize = 0;
    while i < variants.len()
        invariant
            i <= variants@.len(),
            variants@ == family.spec_variants(),
            forall|j: int| 0 <= j < i ==> (#[trigger] variants@[j]).spec_interfaces().len() == 0,
        decreases variants.len() - i,
    {
        if variants[i].interfaces().len() != 0 {
            assert(family.spec_variants()[i as int].spec_interfaces().len() > 0);
            return true;
        }
        i = i + 1;
    }
    false
}

fn variant_has_shape(variant: &PartVariant) -> (r: bool)
    ensures
        r == has_shape_assertion(*variant),
{
    let assertions = variant.assertions();
    let mut j: usize = 0;
    while j < assertions.len()
        invariant
            j <= assertions@.len(),
            assertions@ == variant.spec_assertions(),
            forall|k: int| 0 <= k < j ==> !((#[trigger] assertions@[k]) is ShapeHandle),
        decreases assertions.len() - j,
    {
        if let PartAssertion::ShapeHandle(_) = &assertions[j] {
            assert(variant.spec_assertions()[j as int] is ShapeHandle);
            return true;
        }
        j = j + 1;
    }
    false
}

fn family_has_geometry(family: &PartFamily) -> (r: bool)
    ensures
        r == has_geometry_variant(*family),
{
    let variants = family.variants();
    let mut i: usize = 0;
    while i < variants.len()
        invariant
            i <= variants@.len(),
            variants@ == family.spec_variants(),
            forall|j: int| 0 <= j < i ==> !has_shape_assertion(#[trigger] variants@[j]),
        decreases variants.len() - i,
    {
        if variant_has_shape(&variants[i]) {
            assert(has_shape_assertion(family.spec_variants()[i as int]));
            return true;
        }
        i = i + 1;
    }
    false
}

fn text_string(prefix: &str, middle: &str, suffix: &str) -> (r: String)
    ensures
        r@ == prefix@ + middle@ + suffix@,
{
    String::from_str(prefix).concat(middle).concat(suffix)
}

impl PartGraph {
    /// Evaluates the query's constraints against one family; custom
    /// constraints that are reached append their unknown.
    fn evaluate_family(
        &self,
        family: &PartFamily,
        constraints: &Vec<PartConstraint>,
        unknowns: &mut Vec<QueryUnknown>,
    ) -> (r: (bool, i32, Vec<String>))
        requires
            constraints@.len() <= 214_748_364,
        ensures
            ({
                let e = eval_constraints(self.spec_capabilities(), *family, constraints@);
                &&& r.0 == e.0
                &&& r.1 == e.1
                &&& string_views(r.2@) == e.2
                &&& unknown_views(final(unknowns)@) == unknown_views(old(unknowns)@)
                    + custom_unknowns(e.3)
            }),
    {
        let ghost caps = self.spec_capabilities();
        let ghost cs = constraints@;
        let ghost u0 = unknown_views(unknowns@);
        let mut rank: i32 = 0;
        let mut notes: Vec<String> = Vec::new();
        let mut k: usize = 0;
        proof {
            lemma_eval_rank_bound(caps, *family, cs);
            assert(cs.skip(0) =~= cs);
        }
        while k < constraints.len()
            invariant
                k <= cs.len(),
                cs == constraints@,
                caps == self.spec_capabilities(),
                cs.len() <= 214_748_364,
                0 <= rank <= 10 * k,
                unknown_views(unknowns@) == u0,
                u0 == unknown_views(old(unknowns)@),
                ({
                    let e = eval_constraints(caps, *family, cs);
                    let t = eval_constraints(caps, *family, cs.skip(k as int));
                    &&& e.0 == t.0
                    &&& e.1 == rank + t.1
                    &&& e.2 == string_views(notes@) + t.2
                    &&& e.3 == t.3
                }),
            decreases cs.len() - k,
        {
            let ghost t = eval_constraints(caps, *family, cs.skip(k as int));
            let ghost t2 = eval_constraints(caps, *family, cs.skip(k + 1));
            let ghost n0 = string_views(notes@);
            proof {
                assert(cs.skip(k as int).drop_first() =~= cs.skip(k + 1));
                assert(cs.skip(k as int)[0] == cs[k as int]);
                lemma_eval_rank_bound(caps, *family, cs.skip(k + 1));
            }
            let step: Option<(i32, String)> = match &constraints[k] {
                PartConstraint::FamilyNameContains(needle) => {
                    let hay = chars_of(family.name());
                    let pat = chars_of(needle.as_str());
                    if contains_chars(hay.as_slice(), pat.as_slice()) {
                        let note = String::from_str("family name contains ").concat(needle.as_str());
                        assert(note@ =~= "family name contains "@ + needle@);
                        Some((10, note))
                    } else {
                        None
                    }
                },
                PartConstraint::PartIdContains(needle) => {
                    let hay = chars_of(family.id().as_str());
                    let pat = chars_of(needle.as_str());
                    if contains_chars(hay.as_slice(), pat.as_slice()) {
                        let note = String::from_str("part id contains ").concat(needle.as_str());
                        assert(note@ =~= "part id contains "@ + needle@);
                        Some((10, note))
                    } else {
                        None
                    }
                },
                PartConstraint::HasInterface => {
                    if family_has_interface(family) {
                        Some((5, String::from_str("variant exposes interface")))
                    } else {
                        None
                    }
                },
                PartConstraint::HasGeometry => {
                    if family_has_geometry(family) {
                        Some((5, String::from_str("variant has geometry assertion")))
                    } else {
                        None
                    }
                },
                PartConstraint::HasCapabilityTarget(target) => {
                    if self.has_capability_target(target.as_str()) {
                        Some((3, text_string("capability target ", target.as_str(), " exists")))
                    } else {
                        None
                    }
                },
                PartConstraint::Custom(field) => {
                    unknowns.push(
                        QueryUnknown {
                            field: field.clone(),
                            reason: String::from_str("custom query constraint requires an adapter"),
                        },
                    );
                    proof {
                        let u1 = unknown_views(unknowns@);
                        assert(t.3 == seq![field@]);
                        assert(u1 =~= u0 + custom_unknowns(t.3));
                        assert(n0 + t.2 =~= n0);
                    }
                    return (false, rank, notes);
                },
            };
            match step {
                Some((gain, note)) => {
                    proof {
                        assert(t == (t2.0, t2.1 + gain, seq![note@] + t2.2, t2.3));
                    }
                    rank = rank + gain;
                    notes.push(note);
                    proof {
                        assert(string_views(notes@) =~= n0.push(note@));
                        assert(n0 + t.2 =~= n0.push(note@) + t2.2);
                    }
                },
                None => {
                    proof {
                        assert(t.3 == Seq::<Seq<char>>::empty());
                        assert(u0 =~= u0 + custom_unknowns(t.3));
                        assert(n0 + t.2 =~= n0);
                    }
                    return (false, rank, notes);
                },
            }
            k = k + 1;
        }
        proof {
            assert(cs.skip(cs.len() as int) =~= Seq::<PartConstraint>::empty());
            let e = eval_constraints(caps, *family, cs);
            assert(string_views(notes@) + Seq::<Seq<char>>::empty() =~= string_views(notes@));
            assert(u0 =~= u0 + custom_unknowns(e.3));
        }
        (true, rank, notes)
    }
}


/// The candidates as (id, rank, notes).
pub open spec fn candidate_views(s: Seq<QueryCandidate<PartId>>) -> Seq<(Seq<char>, int, Seq<Seq<char>>)> {
    s.map_values(|c: QueryCandidate<PartId>| candidate_view(c))
}

/// Candidates are in ranking order.
pub open spec fn ranked(s: Seq<(Seq<char>, int, Seq<Seq<char>>)>) -> bool {
    forall|i: int, j: int| 0 <= i < j < s.len() ==> candidate_before(#[trigger] s[i], #[trigger] s[j])
}

/// The unknowns a part query reports: one per reached custom constraint, or,
/// when nothing matched and nothing was custom, a single `part-query` unknown.
pub open spec fn query_unknowns(
    caps: Seq<Capability>,
    fams: Seq<PartFamily>,
    cs: Seq<PartConstraint>,
) -> Seq<(Seq<char>, Seq<char>)> {
    if query_matches(caps, fams, cs).len() == 0 && query_custom_fields(caps, fams, cs).len() == 0 {
        seq![("part-query"@, "no part family satisfied all constraints"@)]
    } else {
        custom_unknowns(query_custom_fields(caps, fams, cs))
    }
}

/// The candidate carries exact-match status and no graph evidence.
pub open spec fn plain_candidate(c: QueryCandidate<PartId>) -> bool {
    &&& c.evidence.status == QueryMatchStatus::ExactMatch
    &&& c.evidence.evidence.sources@.len() == 0
    &&& c.evidence.evidence.facts@.len() == 0
}

impl PartGraph {
    /// Queries part families with ranked evidence and explicit unknowns.
    ///
    /// Every family that satisfies all constraints becomes a candidate with the
    /// rank and notes its constraints earned; candidates come out highest rank
    /// first, ties by part id. Custom constraints are reported as unknowns.
    pub fn query_parts(&self, query: &PartQuery) -> (r: QueryResult<PartId>)
        requires
            self.wf(),
            query.constraints@.len() <= 214_748_364,
        ensures
            candidate_views(r.candidates@).to_multiset() == query_matches(
                self.spec_capabilities(),
                self.spec_families(),
                query.constraints@,
            ).to_multiset(),
            ranked(candidate_views(r.candidates@)),
            forall|i: int| 0 <= i < r.candidates@.len() ==> plain_candidate(#[trigger] r.candidates@[i]),
            forall|i: int|
                0 <= i < r.candidates@.len() ==> (#[trigger] r.candidates@[i]).rank
                    == constraints_weight(query.constraints@),
            forall|i: int, j: int|
                0 <= i < j < r.candidates@.len() ==> text_less(
                    (#[trigger] r.candidates@[i]).value@,
                    (#[trigger] r.candidates@[j]).value@,
                ),
            forall|j: int|
                0 <= j < self.spec_families().len() ==> ((exists|i: int|
                    0 <= i < r.candidates@.len() && (#[trigger] r.candidates@[i]).value@
                        == self.spec_families()[j].spec_key()) <==> eval_constraints(
                    self.spec_capabilities(),
                    #[trigger] self.spec_families()[j],
                    query.constraints@,
                ).0),
            unknown_views(r.unknowns@) == query_unknowns(
                self.spec_capabilities(),
                self.spec_families(),
                query.constraints@,
            ),
            r.conflicts@.len() == 0,
    {
        let ghost caps = self.spec_capabilities();
        let ghost fams = self.spec_families();
        let ghost cs = query.constraints@;
        let mut candidates: Vec<QueryCandidate<PartId>> = Vec::new();
        let mut unknowns: Vec<QueryUnknown> = Vec::new();
        let mut i: usize = 0;
        proof {
            assert(fams.take(0) =~= Seq::<PartFamily>::empty());
            assert(candidate_views(candidates@) =~= Seq::empty());
            assert(unknown_views(unknowns@) =~= Seq::empty());
            assert(custom_unknowns(Seq::empty()) =~= Seq::empty());
        }
        while i < self.families.len()
            invariant
                i <= fams.len(),
                fams == self.families@,
                fams == self.spec_families(),
                caps == self.spec_capabilities(),
                cs == query.constraints@,
                cs.len() <= 214_748_364,
                keys_sorted(fams),
                candidate_views(candidates@).to_multiset() == query_matches(
                    caps,
                    fams.take(i as int),
                    cs,
                ).to_multiset(),
                candidates@.len() == query_matches(caps, fams.take(i as int), cs).len(),
                ranked(candidate_views(candidates@)),
                forall|k: int|
                    0 <= k < candidates@.len() ==> plain_candidate(#[trigger] candidates@[k]),
                forall|k: int|
                    0 <= k < candidates@.len() ==> exists|j: int|
                        0 <= j < i && (#[trigger] candidates@[k]).value@ == fams[j].spec_key(),
                unknown_views(unknowns@) == custom_unknowns(
                    query_custom_fields(caps, fams.take(i as int), cs),
                ),
            decreases fams.len() - i,
        {
            let family = &self.families[i];
            let ghost before = candidate_views(candidates@);
            let ghost prev_fields = query_custom_fields(caps, fams.take(i as int), cs);
            let (matched, rank, notes) = self.evaluate_family(family, &query.constraints, &mut unknowns);
            let ghost e = eval_constraints(caps, fams[i as int], cs);
            proof {
                assert(fams.take(i + 1).drop_last() =~= fams.take(i as int));
                assert(fams.take(i + 1).last() == fams[i as int]);
                assert(custom_unknowns(prev_fields + e.3) =~= custom_unknowns(prev_fields)
                    + custom_unknowns(e.3));
            }
            if matched {
                let cand = QueryCandidate {
                    value: family.id().clone(),
                    rank,
                    evidence: QueryEvidence {
                        evidence: PartQueryEvidence::empty(),
                        status: QueryMatchStatus::ExactMatch,
                        notes,
                    },
                };
                let ghost x = candidate_view(cand);
                assert(x == (fams[i as int].spec_key(), e.1, e.2));
                let mut p: usize = 0;
                while p < candidates.len() && candidates[p].rank >= rank
                    invariant
                        p <= candidates@.len(),
                        before == candidate_views(candidates@),
                        x.1 == rank as int,
                        forall|k: int| 0 <= k < p ==> (#[trigger] before[k]).1 >= x.1,
                    decreases candidates.len() - p,
                {
                    p = p + 1;
                }
                proof {
                    assert forall|k: int| 0 <= k < before.len() implies text_less(
                        (#[trigger] before[k]).0,
                        x.0,
                    ) by {
                        assert(before[k].0 == candidates@[k].value@);
                        let j = choose|j: int|
                            0 <= j < i && (#[trigger] candidates@[k]).value@ == fams[j].spec_key();
                        assert(text_less(fams[j].spec_key(), fams[i as int].spec_key()));
                    }
                }
                let ghost old_cands = candidates@;
                candidates.insert(p, cand);
                proof {
                    let after = candidate_views(candidates@);
                    assert(after =~= before.insert(p as int, x));
                    vstd::seq_lib::to_multiset_insert(before, p as int, x);
                    vstd::seq_lib::to_multiset_build(query_matches(caps, fams.take(i as int), cs), x);
                    assert forall|a: int, b: int| 0 <= a < b < after.len() implies candidate_before(
                        #[trigger] after[a],
                        #[trigger] after[b],
                    ) by {
                        if b < p {
                            assert(after[a] == before[a] && after[b] == before[b]);
                        } else if b == p {
                            assert(after[a] == before[a]);
                        } else if a == p {
                            assert(after[b] == before[b - 1]);
                            if b - 1 > p {
                                assert(candidate_before(before[p as int], before[b - 1]));
                            }
                        } else if a < p {
                            assert(after[a] == before[a] && after[b] == before[b - 1]);
                        } else {
                            assert(after[a] == before[a - 1] && after[b] == before[b - 1]);
                        }
                    }
                    assert forall|k: int| 0 <= k < candidates@.len() implies exists|j: int|
                        0 <= j < i + 1 && (#[trigger] candidates@[k]).value@ == fams[j].spec_key() by {
                        if k == p {
                            assert(candidates@[k].value@ == fams[i as int].spec_key());
                        } else if k < p {
                            assert(candidates@[k] == old_cands[k]);
                        } else {
                            assert(candidates@[k] == old_cands[k - 1]);
                        }
                    }
                }
            }
            i = i + 1;
        }
        proof {
            assert(fams.take(fams.len() as int) =~= fams);
        }
        if candidates.len() == 0 && unknowns.len() == 0 {
            unknowns.push(
                QueryUnknown {
                    field: String::from_str("part-query"),
                    reason: String::from_str("no part family satisfied all constraints"),
                },
            );
            proof {
                assert(custom_unknowns(query_custom_fields(caps, fams, cs)).len() == 0);
                assert(unknown_views(unknowns@) =~= seq![("part-query"@, "no part family satisfied all constraints"@)]);
            }
        }
        proof {
            let cv = candidate_views(candidates@);
            lemma_candidate_ranks(caps, fams, cs, cv);
            assert forall|k: int| 0 <= k < candidates@.len() implies cv[k] == candidate_view(
                #[trigger] candidates@[k],
            ) by {}
            assert forall|a: int, b: int| 0 <= a < b < candidates@.len() implies text_less(
                (#[trigger] candidates@[a]).value@,
                (#[trigger] candidates@[b]).value@,
            ) by {
                assert(candidate_before(cv[a], cv[b]));
                assert(cv[a].1 == cv[b].1);
            }
            assert forall|j: int| 0 <= j < fams.len() implies ((exists|i: int|
                0 <= i < candidates@.len() && (#[trigger] candidates@[i]).value@
                    == fams[j].spec_key()) <==> eval_constraints(caps, #[trigger] fams[j], cs).0) by {
                lemma_candidate_membership(caps, fams, cs, cv, j);
                if exists|i: int| 0 <= i < candidates@.len() && (#[trigger] candidates@[i]).value@
                    == fams[j].spec_key() {
                    let i = choose|i: int| 0 <= i < candidates@.len() && (#[trigger] candidates@[i]).value@
                        == fams[j].spec_key();
                    assert(cv[i].0 == fams[j].spec_key());
                }
                if lists_id(cv, fams[j].spec_key()) {
                    let i = choose|i: int| 0 <= i < cv.len() && (#[trigger] cv[i]).0 == fams[j].spec_key();
                    assert(candidates@[i].value@ == fams[j].spec_key());
                }
            }
        }
        QueryResult { candidates, unknowns, conflicts: Vec::new() }
    }
}


/// The rank a constraint earns when it holds.
pub open spec fn constraint_weight(c: PartConstraint) -> int {
    match c {
        PartConstraint::FamilyNameContains(_) => 10,
        PartConstraint::PartIdContains(_) => 10,
        PartConstraint::HasInterface => 5,
        PartConstraint::HasGeometry => 5,
        PartConstraint::HasCapabilityTarget(_) => 3,
        PartConstraint::Custom(_) => 0,
    }
}

/// The summed weights of a constraint list.
pub open spec fn constraints_weight(cs: Seq<PartConstraint>) -> int
    decreases cs.len(),
{
    if cs.len() == 0 {
        0
    } else {
        constraint_weight(cs[0]) + constraints_weight(cs.drop_first())
    }
}

/// A family that satisfies every constraint earns exactly the summed weights
/// of the constraints, so all candidates of one query share one rank.
pub proof fn lemma_matched_rank_is_weight_sum(
    caps: Seq<Capability>,
    family: PartFamily,
    cs: Seq<PartConstraint>,
)
    requires
        eval_constraints(caps, family, cs).0,
    ensures
        eval_constraints(caps, family, cs).1 == constraints_weight(cs),
    decreases cs.len(),
{
    if cs.len() > 0 {
        lemma_matched_rank_is_weight_sum(caps, family, cs.drop_first());
    }
}

/// Adding a constraint never admits a family the shorter list refused.
pub proof fn lemma_eval_monotone(
    caps: Seq<Capability>,
    family: PartFamily,
    cs: Seq<PartConstraint>,
    k: PartConstraint,
)
    ensures
        eval_constraints(caps, family, cs.push(k)).0 ==> eval_constraints(caps, family, cs).0,
    decreases cs.len(),
{
    if cs.len() > 0 {
        assert(cs.push(k).drop_first() =~= cs.drop_first().push(k));
        lemma_eval_monotone(caps, family, cs.drop_first(), k);
    }
}

/// The entry `m` is the match of `family`: its key, rank and notes, and the
/// family satisfies every constraint.
pub open spec fn matched_from(
    caps: Seq<Capability>,
    m: (Seq<char>, int, Seq<Seq<char>>),
    family: PartFamily,
    cs: Seq<PartConstraint>,
) -> bool {
    &&& m.0 == family.spec_key()
    &&& m.1 == eval_constraints(caps, family, cs).1
    &&& m.2 == eval_constraints(caps, family, cs).2
    &&& eval_constraints(caps, family, cs).0
}

/// Every matched entry comes from a family of the graph that satisfies all
/// constraints, with that family's rank and notes; every such family yields
/// an entry.
pub proof fn lemma_query_matches_exactly(
    caps: Seq<Capability>,
    fams: Seq<PartFamily>,
    cs: Seq<PartConstraint>,
)
    ensures
        forall|i: int|
            0 <= i < query_matches(caps, fams, cs).len() ==> exists|j: int|
                0 <= j < fams.len() && matched_from(
                    caps,
                    #[trigger] query_matches(caps, fams, cs)[i],
                    fams[j],
                    cs,
                ),
        forall|j: int|
            0 <= j < fams.len() && eval_constraints(caps, #[trigger] fams[j], cs).0 ==> exists|
                i: int,
            |
                0 <= i < query_matches(caps, fams, cs).len() && query_matches(caps, fams, cs)[i].0
                    == fams[j].spec_key(),
    decreases fams.len(),
{
    if fams.len() > 0 {
        let init = fams.drop_last();
        lemma_query_matches_exactly(caps, init, cs);
        let prev = query_matches(caps, init, cs);
        let qm = query_matches(caps, fams, cs);
        assert forall|i: int| 0 <= i < qm.len() implies exists|j: int|
            0 <= j < fams.len() && matched_from(caps, #[trigger] qm[i], fams[j], cs) by {
            if i < prev.len() {
                assert(qm[i] == prev[i]);
                let j = choose|j: int|
                    0 <= j < init.len() && matched_from(caps, #[trigger] prev[i], init[j], cs);
                assert(fams[j] == init[j]);
                assert(matched_from(caps, qm[i], fams[j], cs));
            } else {
                let j = fams.len() - 1;
                assert(fams[j] == fams.last());
                assert(matched_from(caps, qm[i], fams[j], cs));
            }
        }
        assert forall|j: int|
            0 <= j < fams.len() && eval_constraints(caps, #[trigger] fams[j], cs).0 implies exists|
                i: int,
            | 0 <= i < qm.len() && qm[i].0 == fams[j].spec_key() by {
            if j < init.len() {
                assert(fams[j] == init[j]);
                assert(eval_constraints(caps, init[j], cs).0);
                let i = choose|i: int| 0 <= i < prev.len() && prev[i].0 == init[j].spec_key();
                assert(qm[i] == prev[i]);
            } else {
                assert(fams[j] == fams.last());
                assert(qm[prev.len() as int].0 == fams[j].spec_key());
            }
        }
    }
}

/// A family of a well-formed graph is a candidate exactly when every
/// constraint holds of it.
pub proof fn lemma_query_membership(
    caps: Seq<Capability>,
    fams: Seq<PartFamily>,
    cs: Seq<PartConstraint>,
    j: int,
)
    requires
        keys_sorted(fams),
        0 <= j < fams.len(),
    ensures
        (exists|i: int|
            0 <= i < query_matches(caps, fams, cs).len() && (#[trigger] query_matches(
                caps,
                fams,
                cs,
            )[i]).0 == fams[j].spec_key()) <==> eval_constraints(caps, fams[j], cs).0,
{
    lemma_query_matches_exactly(caps, fams, cs);
    let qm = query_matches(caps, fams, cs);
    if exists|i: int| 0 <= i < qm.len() && (#[trigger] qm[i]).0 == fams[j].spec_key() {
        let i = choose|i: int| 0 <= i < qm.len() && (#[trigger] qm[i]).0 == fams[j].spec_key();
        let j2 = choose|j2: int| 0 <= j2 < fams.len() && matched_from(caps, #[trigger] qm[i], fams[j2], cs);
        if j2 != j {
            if j2 < j {
                assert(text_less(fams[j2].spec_key(), fams[j].spec_key()));
            } else {
                assert(text_less(fams[j].spec_key(), fams[j2].spec_key()));
            }
            crate::keyed::lemma_text_less_irreflexive(fams[j].spec_key());
        }
    }
}

/// Two sequences with one multiset hold the same elements.
pub proof fn lemma_same_multiset_contains<A>(a: Seq<A>, b: Seq<A>, x: A)
    requires
        a.to_multiset() == b.to_multiset(),
    ensures
        a.contains(x) <==> b.contains(x),
{
    a.to_multiset_ensures();
    b.to_multiset_ensures();
    assert(a.contains(x) <==> a.to_multiset().count(x) > 0);
    assert(b.contains(x) <==> b.to_multiset().count(x) > 0);
}

/// Some entry of `s` carries the id `key`.
pub open spec fn lists_id(s: Seq<(Seq<char>, int, Seq<Seq<char>>)>, key: Seq<char>) -> bool {
    exists|j: int| 0 <= j < s.len() && (#[trigger] s[j]).0 == key
}

/// Every candidate view that equals the matches as a multiset carries the
/// summed weights of the constraints.
pub proof fn lemma_candidate_ranks(
    caps: Seq<Capability>,
    fams: Seq<PartFamily>,
    cs: Seq<PartConstraint>,
    cv: Seq<(Seq<char>, int, Seq<Seq<char>>)>,
)
    requires
        cv.to_multiset() == query_matches(caps, fams, cs).to_multiset(),
    ensures
        forall|i: int| 0 <= i < cv.len() ==> (#[trigger] cv[i]).1 == constraints_weight(cs),
{
    let qm = query_matches(caps, fams, cs);
    lemma_query_matches_exactly(caps, fams, cs);
    assert forall|i: int| 0 <= i < cv.len() implies (#[trigger] cv[i]).1 == constraints_weight(cs) by {
        assert(cv.contains(cv[i]));
        lemma_same_multiset_contains(cv, qm, cv[i]);
        let k = choose|k: int| 0 <= k < qm.len() && qm[k] == cv[i];
        let j = choose|j: int| 0 <= j < fams.len() && matched_from(caps, #[trigger] qm[k], fams[j], cs);
        lemma_matched_rank_is_weight_sum(caps, fams[j], cs);
    }
}

/// A family's id is among candidate views equal to the matches exactly when
/// every constraint holds of the family.
pub proof fn lemma_candidate_membership(
    caps: Seq<Capability>,
    fams: Seq<PartFamily>,
    cs: Seq<PartConstraint>,
    cv: Seq<(Seq<char>, int, Seq<Seq<char>>)>,
    j: int,
)
    requires
        keys_sorted(fams),
        0 <= j < fams.len(),
        cv.to_multiset() == query_matches(caps, fams, cs).to_multiset(),
    ensures
        lists_id(cv, fams[j].spec_key()) <==> eval_constraints(caps, fams[j], cs).0,
{
    let qm = query_matches(caps, fams, cs);
    let key = fams[j].spec_key();
    lemma_query_membership(caps, fams, cs, j);
    if lists_id(cv, key) {
        let i = choose|i: int| 0 <= i < cv.len() && (#[trigger] cv[i]).0 == key;
        assert(cv.contains(cv[i]));
        lemma_same_multiset_contains(cv, qm, cv[i]);
        let k = choose|k: int| 0 <= k < qm.len() && qm[k] == cv[i];
        assert(qm[k].0 == key);
    }
    if eval_constraints(caps, fams[j], cs).0 {
        let k = choose|k: int| 0 <= k < qm.len() && (#[trigger] qm[k]).0 == key;
        assert(qm.contains(qm[k]));
        lemma_same_multiset_contains(cv, qm, qm[k]);
        let i = choose|i: int| 0 <= i < cv.len() && cv[i] == qm[k];
        assert(cv[i].0 == key);
    }
}

/// For two queries over one graph whose second adds one constraint, every
/// candidate of the second is a candidate of the first: stated over results
/// that meet the candidate clause of `query_parts`.
pub proof fn lemma_query_results_narrow(
    caps: Seq<Capability>,
    fams: Seq<PartFamily>,
    cs: Seq<PartConstraint>,
    k: PartConstraint,
    wide: Seq<(Seq<char>, int, Seq<Seq<char>>)>,
    narrow: Seq<(Seq<char>, int, Seq<Seq<char>>)>,
)
    requires
        keys_sorted(fams),
        wide.to_multiset() == query_matches(caps, fams, cs).to_multiset(),
        narrow.to_multiset() == query_matches(caps, fams, cs.push(k)).to_multiset(),
    ensures
        forall|i: int| 0 <= i < narrow.len() ==> lists_id(wide, (#[trigger] narrow[i]).0),
{
    let qn = query_matches(caps, fams, cs.push(k));
    let qw = query_matches(caps, fams, cs);
    assert forall|i: int| 0 <= i < narrow.len() implies lists_id(wide, (#[trigger] narrow[i]).0) by {
        let key = narrow[i].0;
        assert(narrow.contains(narrow[i]));
        lemma_same_multiset_contains(narrow, qn, narrow[i]);
        let m = choose|m: int| 0 <= m < qn.len() && qn[m] == narrow[i];
        assert(qn[m].0 == key);
        lemma_query_monotone(caps, fams, cs, k, key);
        let m2 = choose|m2: int| 0 <= m2 < qw.len() && (#[trigger] qw[m2]).0 == key;
        assert(qw.contains(qw[m2]));
        lemma_same_multiset_contains(wide, qw, qw[m2]);
        let j = choose|j: int| 0 <= j < wide.len() && wide[j] == qw[m2];
        assert(wide[j].0 == key);
    }
}

/// Adding a constraint can only remove candidates.
pub proof fn lemma_query_monotone(
    caps: Seq<Capability>,
    fams: Seq<PartFamily>,
    cs: Seq<PartConstraint>,
    k: PartConstraint,
    key: Seq<char>,
)
    requires
        keys_sorted(fams),
    ensures
        (exists|i: int|
            0 <= i < query_matches(caps, fams, cs.push(k)).len() && (#[trigger] query_matches(
                caps,
                fams,
                cs.push(k),
            )[i]).0 == key) ==> exists|i: int|
            0 <= i < query_matches(caps, fams, cs).len() && (#[trigger] query_matches(
                caps,
                fams,
                cs,
            )[i]).0 == key,
{
    lemma_query_matches_exactly(caps, fams, cs.push(k));
    lemma_query_matches_exactly(caps, fams, cs);
    let qm2 = query_matches(caps, fams, cs.push(k));
    if exists|i: int| 0 <= i < qm2.len() && (#[trigger] qm2[i]).0 == key {
        let i = choose|i: int| 0 <= i < qm2.len() && (#[trigger] qm2[i]).0 == key;
        let j = choose|j: int|
            0 <= j < fams.len() && matched_from(caps, #[trigger] qm2[i], fams[j], cs.push(k));
        lemma_eval_monotone(caps, fams[j], cs, k);
        assert(eval_constraints(caps, fams[j], cs).0);
    }
}

/// Constraints without a custom one never reach an adapter, so a query over
/// them reports no unknown but the single `part-query` one when nothing matched.
pub proof fn lemma_custom_free_unknowns(
    caps: Seq<Capability>,
    fams: Seq<PartFamily>,
    cs: Seq<PartConstraint>,
)
    requires
        forall|i: int| 0 <= i < cs.len() ==> !((#[trigger] cs[i]) is Custom),
    ensures
        query_unknowns(caps, fams, cs) == if query_matches(caps, fams, cs).len() == 0 {
            seq![("part-query"@, "no part family satisfied all constraints"@)]
        } else {
            Seq::<(Seq<char>, Seq<char>)>::empty()
        },
    decreases fams.len(),
{
    lemma_custom_fields_empty(caps, fams, cs);
    assert(custom_unknowns(Seq::empty()) =~= Seq::<(Seq<char>, Seq<char>)>::empty());
}

proof fn lemma_eval_no_custom(caps: Seq<Capability>, family: PartFamily, cs: Seq<PartConstraint>)
    requires
        forall|i: int| 0 <= i < cs.len() ==> !((#[trigger] cs[i]) is Custom),
    ensures
        eval_constraints(caps, family, cs).3.len() == 0,
    decreases cs.len(),
{
    if cs.len() > 0 {
        assert(!(cs[0] is Custom));
        assert forall|i: int| 0 <= i < cs.drop_first().len() implies !((
        #[trigger] cs.drop_first()[i]) is Custom) by {
            assert(cs.drop_first()[i] == cs[i + 1]);
        }
        lemma_eval_no_custom(caps, family, cs.drop_first());
    }
}

proof fn lemma_custom_fields_empty(caps: Seq<Capability>, fams: Seq<PartFamily>, cs: Seq<PartConstraint>)
    requires
        forall|i: int| 0 <= i < cs.len() ==> !((#[trigger] cs[i]) is Custom),
    ensures
        query_custom_fields(caps, fams, cs).len() == 0,
    decreases fams.len(),
{
    if fams.len() > 0 {
        lemma_custom_fields_empty(caps, fams.drop_last(), cs);
        lemma_eval_no_custom(caps, fams.last(), cs);
    }
}

/// The `Debug` spelling of a polarity.
pub open spec fn polarity_name(p: ElectricalPolarity) -> Seq<char> {
    match p {
        ElectricalPolarity::Ground => "Ground"@,
        ElectricalPolarity::Power => "Power"@,
        ElectricalPolarity::Signal => "Signal"@,
        ElectricalPolarity::Passive => "Passive"@,
        ElectricalPolarity::Unknown => "Unknown"@,
    }
}

/// The conservative decision for connecting two terminals: power to ground is
/// unsafe; two power terminals are decided by whether their known envelopes
/// overlap; ground to ground and signal/passive pairs are safe; every other
/// pairing, and power pairs with a missing or undecided envelope, is unknown.
pub open spec fn connection_decision(left: Terminal, right: Terminal) -> ConnectionDecision {
    match (left.spec_polarity(), right.spec_polarity()) {
        (ElectricalPolarity::Ground, ElectricalPolarity::Ground) => ConnectionDecision::Safe,
        (ElectricalPolarity::Power, ElectricalPolarity::Ground) => ConnectionDecision::Unsafe,
        (ElectricalPolarity::Ground, ElectricalPolarity::Power) => ConnectionDecision::Unsafe,
        (ElectricalPolarity::Power, ElectricalPolarity::Power) => match (
            left.spec_voltage(),
            right.spec_voltage(),
        ) {
            (Some(a), Some(b)) => match spec_closed_overlap(a.min@, a.max@, b.min@, b.max@) {
                Some(true) => ConnectionDecision::Safe,
                Some(false) => ConnectionDecision::Unsafe,
                None => ConnectionDecision::Unknown,
            },
            _ => ConnectionDecision::Unknown,
        },
        (ElectricalPolarity::Signal, ElectricalPolarity::Signal) => ConnectionDecision::Safe,
        (ElectricalPolarity::Passive, ElectricalPolarity::Passive) => ConnectionDecision::Safe,
        (ElectricalPolarity::Signal, ElectricalPolarity::Passive) => ConnectionDecision::Safe,
        (ElectricalPolarity::Passive, ElectricalPolarity::Signal) => ConnectionDecision::Safe,
        _ => ConnectionDecision::Unknown,
    }
}

/// The terminal at (part, variant, terminal), or which lookup failed first.
pub open spec fn terminal_at(
    graph: PartGraph,
    part: Seq<char>,
    variant: Seq<char>,
    terminal: Seq<char>,
) -> Result<Terminal, PartsError> {
    match lookup(graph.spec_families(), part) {
        None => Err(PartsError::MissingPart),
        Some(f) => match lookup(f.spec_variants(), variant) {
            None => Err(PartsError::MissingVariant),
            Some(v) => match lookup(v.spec_terminals(), terminal) {
                None => Err(PartsError::MissingTerminal),
                Some(t) => Ok(t),
            },
        },
    }
}

/// The evidence fact recorded by a safe-connection query.
pub open spec fn polarity_fact(left: Terminal, right: Terminal) -> Seq<char> {
    "left polarity="@ + polarity_name(left.spec_polarity()) + ", right polarity="@
        + polarity_name(right.spec_polarity())
}

fn polarity_text(p: ElectricalPolarity) -> (r: &'static str)
    ensures
        r@ == polarity_name(p),
{
    match p {
        ElectricalPolarity::Ground => "Ground",
        ElectricalPolarity::Power => "Power",
        ElectricalPolarity::Signal => "Signal",
        ElectricalPolarity::Passive => "Passive",
        ElectricalPolarity::Unknown => "Unknown",
    }
}

impl PartGraph {
    /// Queries whether two terminals can be safely connected.
    ///
    /// The decision is deliberately conservative (see `connection_decision`):
    /// missing polarity or voltage facts yield `ConnectionDecision::Unknown`
    /// instead of fabricating compatibility from defaults.
    pub fn safe_connection(
        &self,
        left: (&PartId, &VariantId, &TerminalId),
        right: (&PartId, &VariantId, &TerminalId),
    ) -> (r: PartsResult<PartQueryResult<ConnectionDecision>>)
        ensures
            match (
                terminal_at(*self, left.0@, left.1@, left.2@),
                terminal_at(*self, right.0@, right.1@, right.2@),
            ) {
                (Err(e), _) => r == Err::<PartQueryResult<ConnectionDecision>, PartsError>(e),
                (Ok(_), Err(e)) => r == Err::<PartQueryResult<ConnectionDecision>, PartsError>(e),
                (Ok(a), Ok(b)) => r matches Ok(q) && q.value == connection_decision(a, b)
                    && q.evidence.sources@.len() == 0 && string_views(q.evidence.facts@) == seq![
                    polarity_fact(a, b)],
            },
    {
        let left_terminal = match self.lookup_terminal(left) {
            Ok(t) => t,
            Err(e) => return Err(e),
        };
        let right_terminal = match self.lookup_terminal(right) {
            Ok(t) => t,
            Err(e) => return Err(e),
        };
        let mut evidence = PartQueryEvidence::empty();
        let fact = String::from_str("left polarity=").concat(
            polarity_text(left_terminal.polarity()),
        ).concat(", right polarity=").concat(polarity_text(right_terminal.polarity()));
        evidence.facts.push(fact);
        let value = match (left_terminal.polarity(), right_terminal.polarity()) {
            (ElectricalPolarity::Ground, ElectricalPolarity::Ground) => ConnectionDecision::Safe,
            (ElectricalPolarity::Power, ElectricalPolarity::Ground)
            | (ElectricalPolarity::Ground, ElectricalPolarity::Power) => ConnectionDecision::Unsafe,
            (ElectricalPolarity::Power, ElectricalPolarity::Power) => {
                match (left_terminal.voltage(), right_terminal.voltage()) {
                    (Some(left_voltage), Some(right_voltage)) => {
                        match left_voltage.overlaps(right_voltage) {
                            Some(true) => ConnectionDecision::Safe,
                            Some(false) => ConnectionDecision::Unsafe,
                            None => ConnectionDecision::Unknown,
                        }
                    },
                    _ => ConnectionDecision::Unknown,
                }
            },
            (ElectricalPolarity::Signal, ElectricalPolarity::Signal)
            | (ElectricalPolarity::Passive, ElectricalPolarity::Passive)
            | (ElectricalPolarity::Signal, ElectricalPolarity::Passive)
            | (ElectricalPolarity::Passive, ElectricalPolarity::Signal) => ConnectionDecision::Safe,
            _ => ConnectionDecision::Unknown,
        };
        proof {
            assert(string_views(evidence.facts@) =~= seq![polarity_fact(*left_terminal, *right_terminal)]);
        }
        Ok(PartQueryResult { value, evidence })
    }

    fn lookup_terminal(&self, key: (&PartId, &VariantId, &TerminalId)) -> (r: PartsResult<&Terminal>)
        ensures
            match terminal_at(*self, key.0@, key.1@, key.2@) {
                Ok(t) => r == Ok::<&Terminal, PartsError>(&t),
                Err(e) => r == Err::<&Terminal, PartsError>(e),
            },
    {
        let family = match self.family(key.0) {
            Some(f) => f,
            None => return Err(PartsError::MissingPart),
        };
        let variant = match family.variant(key.1) {
            Some(v) => v,
            None => return Err(PartsError::MissingVariant),
        };
        match variant.terminal(key.2) {
            Some(t) => Ok(t),
            None => Err(PartsError::MissingTerminal),
        }
    }
}


/// Connecting two terminals is decided the same whichever is named first.
pub proof fn lemma_connection_decision_symmetric(left: Terminal, right: Terminal)
    ensures
        connection_decision(left, right) == connection_decision(right, left),
{
    if let (Some(a), Some(b)) = (left.spec_voltage(), right.spec_voltage()) {
        crate::predicate::lemma_closed_overlap_symmetric(a.min@, a.max@, b.min@, b.max@);
    }
}

/// A power terminal connected to a ground terminal is unsafe, in either order.
pub proof fn lemma_power_to_ground_unsafe(left: Terminal, right: Terminal)
    requires
        (left.spec_polarity() == ElectricalPolarity::Power && right.spec_polarity()
            == ElectricalPolarity::Ground) || (left.spec_polarity() == ElectricalPolarity::Ground
            && right.spec_polarity() == ElectricalPolarity::Power),
    ensures
        connection_decision(left, right) == ConnectionDecision::Unsafe,
{
}

/// A terminal of unknown polarity, or a power pair missing an envelope, is
/// never called safe or unsafe: the decision stays unknown.
pub proof fn lemma_missing_facts_stay_unknown(left: Terminal, right: Terminal)
    requires
        left.spec_polarity() == ElectricalPolarity::Unknown || right.spec_polarity()
            == ElectricalPolarity::Unknown || (left.spec_polarity() == ElectricalPolarity::Power
            && right.spec_polarity() == ElectricalPolarity::Power && (left.spec_voltage() is None
            || right.spec_voltage() is None)),
    ensures
        connection_decision(left, right) == ConnectionDecision::Unknown,
{
}

/// Two power terminals whose envelopes are certified disjoint are unsafe to connect.
pub proof fn lemma_disjoint_power_rails_unsafe(left: Terminal, right: Terminal)
    requires
        left.spec_polarity() == ElectricalPolarity::Power,
        right.spec_polarity() == ElectricalPolarity::Power,
        left.spec_voltage() matches Some(a) && right.spec_voltage() matches Some(b) && (
        crate::predicate::spec_leq(a.min@, b.max@) == Some(false) || crate::predicate::spec_leq(
            b.min@,
            a.max@,
        ) == Some(false)),
    ensures
        connection_decision(left, right) == ConnectionDecision::Unsafe,
{
    let a = left.spec_voltage().unwrap();
    let b = right.spec_voltage().unwrap();
    crate::predicate::lemma_certified_disjointness_dominates(a.min@, a.max@, b.min@, b.max@);
}


/// Signal and passive terminals may be joined in any pairing: signal to
/// signal, passive to passive, and signal to passive in either order are all
/// safe, whatever voltages the terminals carry.
pub proof fn lemma_signal_passive_pairs_safe(left: Terminal, right: Terminal)
    requires
        left.spec_polarity() == ElectricalPolarity::Signal || left.spec_polarity()
            == ElectricalPolarity::Passive,
        right.spec_polarity() == ElectricalPolarity::Signal || right.spec_polarity()
            == ElectricalPolarity::Passive,
    ensures
        connection_decision(left, right) == ConnectionDecision::Safe,
        connection_decision(right, left) == ConnectionDecision::Safe,
{
}

/// Two ground terminals are safe to connect.
pub proof fn lemma_ground_pair_safe(left: Terminal, right: Terminal)
    requires
        left.spec_polarity() == ElectricalPolarity::Ground,
        right.spec_polarity() == ElectricalPolarity::Ground,
    ensures
        connection_decision(left, right) == ConnectionDecision::Safe,
{
}

/// A family meets every constraint of a query exactly when each constraint
/// holds of it on its own: a family-name needle occurs in the display name, a
/// part-id needle occurs in the part id, some variant exposes an interface or
/// carries a shape handle, some capability of the graph touches the target;
/// and a custom constraint is never met.
pub proof fn lemma_constraints_met_exactly(
    caps: Seq<Capability>,
    family: PartFamily,
    cs: Seq<PartConstraint>,
)
    ensures
        eval_constraints(caps, family, cs).0 <==> forall|i: int|
            0 <= i < cs.len() ==> match #[trigger] cs[i] {
                PartConstraint::FamilyNameContains(n) => contains_text(family.spec_name(), n@),
                PartConstraint::PartIdContains(n) => contains_text(family.spec_id()@, n@),
                PartConstraint::HasInterface => has_interface_variant(family),
                PartConstraint::HasGeometry => has_geometry_variant(family),
                PartConstraint::HasCapabilityTarget(t) => any_touches(caps, t@),
                PartConstraint::Custom(_) => false,
            },
    decreases cs.len(),
{
    if cs.len() > 0 {
        lemma_constraints_met_exactly(caps, family, cs.drop_first());
        let rest = cs.drop_first();
        assert forall|i: int| 0 < i < cs.len() implies #[trigger] cs[i] == rest[i - 1] by {}
        if eval_constraints(caps, family, cs).0 {
            assert forall|i: int| 0 <= i < cs.len() implies match #[trigger] cs[i] {
                PartConstraint::FamilyNameContains(n) => contains_text(family.spec_name(), n@),
                PartConstraint::PartIdContains(n) => contains_text(family.spec_id()@, n@),
                PartConstraint::HasInterface => has_interface_variant(family),
                PartConstraint::HasGeometry => has_geometry_variant(family),
                PartConstraint::HasCapabilityTarget(t) => any_touches(caps, t@),
                PartConstraint::Custom(_) => false,
            } by {
                if i > 0 {
                    assert(rest[i - 1] == cs[i]);
                }
            }
        }
        if !eval_constraints(caps, family, cs).0 {
            let ok0 = match cs[0] {
                PartConstraint::FamilyNameContains(n) => contains_text(family.spec_name(), n@),
                PartConstraint::PartIdContains(n) => contains_text(family.spec_id()@, n@),
                PartConstraint::HasInterface => has_interface_variant(family),
                PartConstraint::HasGeometry => has_geometry_variant(family),
                PartConstraint::HasCapabilityTarget(t) => any_touches(caps, t@),
                PartConstraint::Custom(_) => false,
            };
            if ok0 {
                let k = choose|k: int| 0 <= k < rest.len() && !match #[trigger] rest[k] {
                    PartConstraint::FamilyNameContains(n) => contains_text(family.spec_name(), n@),
                    PartConstraint::PartIdContains(n) => contains_text(family.spec_id()@, n@),
                    PartConstraint::HasInterface => has_interface_variant(family),
                    PartConstraint::HasGeometry => has_geometry_variant(family),
                    PartConstraint::HasCapabilityTarget(t) => any_touches(caps, t@),
                    PartConstraint::Custom(_) => false,
                };
                assert(cs[k + 1] == rest[k]);
            }
        }
    }
}

/// A one-constraint query on a part-id needle lists a family exactly when the
/// needle occurs as a contiguous run of the family's part id; the display
/// name plays no part. Stated over candidate views that meet the candidate
/// clause of `query_parts`.
pub proof fn lemma_part_id_query_lists_matching_ids(
    caps: Seq<Capability>,
    fams: Seq<PartFamily>,
    needle: String,
    cv: Seq<(Seq<char>, int, Seq<Seq<char>>)>,
    j: int,
)
    requires
        keys_sorted(fams),
        0 <= j < fams.len(),
        cv.to_multiset() == query_matches(
            caps,
            fams,
            seq![PartConstraint::PartIdContains(needle)],
        ).to_multiset(),
    ensures
        lists_id(cv, fams[j].spec_id()@) <==> exists|i: int|
            0 <= i && i + needle@.len() <= fams[j].spec_id()@.len() && #[trigger] fams[j].spec_id()@.subrange(
                i,
                i + needle@.len(),
            ) == needle@,
{
    let cs = seq![PartConstraint::PartIdContains(needle)];
    lemma_candidate_membership(caps, fams, cs, cv, j);
    reveal_with_fuel(eval_constraints, 2);
    assert(cs.drop_first().len() == 0);
}


/// Two power terminals whose envelopes are certified to meet (each minimum is
/// certified no greater than the other's maximum) are safe to connect.
pub proof fn lemma_overlapping_power_rails_safe(left: Terminal, right: Terminal)
    requires
        left.spec_polarity() == ElectricalPolarity::Power,
        right.spec_polarity() == ElectricalPolarity::Power,
        left.spec_voltage() matches Some(a) && right.spec_voltage() matches Some(b)
            && crate::predicate::spec_leq(a.min@, b.max@) == Some(true) && crate::predicate::spec_leq(
            b.min@,
            a.max@,
        ) == Some(true),
    ensures
        connection_decision(left, right) == ConnectionDecision::Safe,
{
}

/// A power or ground terminal paired with a signal or passive terminal, in
/// either order, is left undecided rather than called safe or unsafe.
pub proof fn lemma_rail_to_signal_stays_unknown(left: Terminal, right: Terminal)
    requires
        left.spec_polarity() == ElectricalPolarity::Power || left.spec_polarity()
            == ElectricalPolarity::Ground,
        right.spec_polarity() == ElectricalPolarity::Signal || right.spec_polarity()
            == ElectricalPolarity::Passive,
    ensures
        connection_decision(left, right) == ConnectionDecision::Unknown,
        connection_decision(right, left) == ConnectionDecision::Unknown,
{
}


/// A single matched constraint ranks a family by its own weight and leaves
/// one note: a name or part-id needle scores ten, an interface or geometry
/// requirement five, a capability target three.
pub proof fn lemma_single_constraint_rank_and_note(
    caps: Seq<Capability>,
    family: PartFamily,
    c: PartConstraint,
)
    ensures
        eval_constraints(caps, family, seq![c]).0 ==> (eval_constraints(caps, family, seq![c]).1,
        eval_constraints(caps, family, seq![c]).2) == match c {
            PartConstraint::FamilyNameContains(n) => (10int, seq!["family name contains "@ + n@]),
            PartConstraint::PartIdContains(n) => (10int, seq!["part id contains "@ + n@]),
            PartConstraint::HasInterface => (5int, seq!["variant exposes interface"@]),
            PartConstraint::HasGeometry => (5int, seq!["variant has geometry assertion"@]),
            PartConstraint::HasCapabilityTarget(t) => (
                3int,
                seq!["capability target "@ + t@ + " exists"@],
            ),
            PartConstraint::Custom(_) => (0int, Seq::<Seq<char>>::empty()),
        },
{
    reveal_with_fuel(eval_constraints, 2);
    assert(seq![c].drop_first().len() == 0);
    assert(seq![c][0] == c);
}

/// A family that meets every constraint is ranked by the sum over the
/// constraints taken one at a time, and its notes are theirs in order.
pub proof fn lemma_rank_and_notes_split(
    caps: Seq<Capability>,
    family: PartFamily,
    cs: Seq<PartConstraint>,
)
    requires
        cs.len() > 0,
        eval_constraints(caps, family, cs).0,
    ensures
        eval_constraints(caps, family, seq![cs[0]]).0,
        eval_constraints(caps, family, cs).1 == eval_constraints(caps, family, seq![cs[0]]).1
            + eval_constraints(caps, family, cs.drop_first()).1,
        eval_constraints(caps, family, cs).2 == eval_constraints(caps, family, seq![cs[0]]).2
            + eval_constraints(caps, family, cs.drop_first()).2,
{
    reveal_with_fuel(eval_constraints, 2);
    assert(seq![cs[0]].drop_first().len() == 0);
    assert(seq![cs[0]][0] == cs[0]);
    let e1 = eval_constraints(caps, family, seq![cs[0]]);
    assert(e1.2 + eval_constraints(caps, family, cs.drop_first()).2 =~= eval_constraints(
        caps,
        family,
        cs,
    ).2);
}

} // verus!
