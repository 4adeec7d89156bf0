//! Record-level steps of the EDA intake pass.
//!
//! Each step reads one part of an [`EdaAuthoringBundle`], appends its
//! decisions to the import audit, grows the variant under construction, and
//! pushes downstream handoffs. The specs state, record by record, which audit
//! events are written, which assertions and aspects are added, and what each
//! handoff holds; a record that is refused leaves only its audit event.
use vstd::prelude::*;

use crate::assertion::{
    Assertion, AssertionConfidence, AssertionStatus, AssertionValue, GeneralPartAssertion,
    PartAssertion, SourceRef,
};
use crate::eda_intake::{
    CircuitJsonSourceRecord, CircuitResidualFactHandoff, CircuitResidualParameter,
    EdaAuthoringBundle, EdaExactField, EdaHandoffStatus, EdaModelStatus, GeneratedModelReference,
    AutorouterOutputRecord, RouteGeometryHandoff, EdaRouteStatus, FabricationOutputRecord,
    DrcFabricationHandoff, EdaFabricationReadiness, EdaPackageMetadata, EdaPackagePin,
};
use crate::electronics::ElectricalFactStatus;
use crate::identity::TerminalId;
use crate::interface::{Interface, InterfaceKind, Terminal};
use crate::keyed::lookup;
use crate::exact::ExactValue;
use crate::geometry::{GeometryHandle, GeometryHandoffReport, GeometryStatus, ShapeSource};
use crate::graph::{string_views, PartQueryEvidence, PartVariant};
use crate::intake_log::{
    lemma_buckets_concat, parsed_of, rejected_of, review_of, unknown_count, ImportIssueBuilder,
    IssueEvent,
};
use crate::intake_parse::{
    exact_field_events, exact_field_outcome, footprint_outcome, opt_view, param_matches,
    parse_exact_field, parse_footprint_expression, parse_pin_voltage, pin_polarity,
    pin_voltage_outcome, polarity_from_pin_function, value_view, voltage_view, FieldOutcome,
    ParamDesc, ParsedExactField, ValueView,
};
use crate::interface::{AspectKind, PartAspect};
use crate::text::{blank, decimal, decimal_chars, int_text, is_blank, string_of};

verus! {

/// `new` is `old` followed by one element related by `rel` to each of `ds`.
pub open spec fn extends_by<T, D>(
    new: Seq<T>,
    old: Seq<T>,
    ds: Seq<D>,
    rel: spec_fn(T, D) -> bool,
) -> bool {
    &&& new.len() == old.len() + ds.len()
    &&& new.take(old.len() as int) == old
    &&& forall|i: int| 0 <= i < ds.len() ==> rel(new[old.len() + i], #[trigger] ds[i])
}

pub proof fn lemma_extends_refl<T, D>(s: Seq<T>, rel: spec_fn(T, D) -> bool)
    ensures
        extends_by(s, s, Seq::<D>::empty(), rel),
{
    assert(s.take(s.len() as int) =~= s);
}

pub proof fn lemma_extends_push<T, D>(s: Seq<T>, x: T, d: D, rel: spec_fn(T, D) -> bool)
    requires
        rel(x, d),
    ensures
        extends_by(s.push(x), s, seq![d], rel),
{
    assert(s.push(x).take(s.len() as int) =~= s);
    assert(s.push(x)[s.len() as int] == x);
}

pub proof fn lemma_extends_trans<T, D>(
    a: Seq<T>,
    b: Seq<T>,
    c: Seq<T>,
    d1: Seq<D>,
    d2: Seq<D>,
    rel: spec_fn(T, D) -> bool,
)
    requires
        extends_by(b, a, d1, rel),
        extends_by(c, b, d2, rel),
    ensures
        extends_by(c, a, d1 + d2, rel),
{
    assert(c.take(a.len() as int) =~= b.take(a.len() as int));
    assert forall|i: int| 0 <= i < (d1 + d2).len() implies rel(
        c[a.len() + i],
        #[trigger] (d1 + d2)[i],
    ) by {
        if i < d1.len() {
            assert(d1[i] == (d1 + d2)[i]);
            assert(c[a.len() + i] == b[a.len() + i]);
        } else {
            assert(d2[i - d1.len()] == (d1 + d2)[i]);
            assert(c[a.len() + i] == c[b.len() + (i - d1.len())]);
        }
    }
}

/// An assertion the intake pass adds, by characters.
pub enum AssertionDesc {
    /// Known shape handle.
    Shape(Seq<char>),
    /// Known circuit model handle.
    Circuit(Seq<char>),
    /// Imported general assertion: key, value, unit.
    General(Seq<char>, ValueView, Option<Seq<char>>),
}

/// A known assertion holding `text` from `source`.
pub open spec fn known_text(a: Assertion<String>, text: Seq<char>, source: SourceRef) -> bool {
    &&& a.spec_status() == AssertionStatus::Known
    &&& (a.spec_value() matches Some(v) && v@ == text)
    &&& a.spec_source() == source
}

/// `a` is the assertion `d` describes, attributed to `source`.
pub open spec fn assertion_matches(a: PartAssertion, d: AssertionDesc, source: SourceRef) -> bool {
    match d {
        AssertionDesc::Shape(h) => a matches PartAssertion::ShapeHandle(x) && known_text(
            x,
            h,
            source,
        ),
        AssertionDesc::Circuit(h) => a matches PartAssertion::CircuitModel(x) && known_text(
            x,
            h,
            source,
        ),
        AssertionDesc::General(k, v, u) => a matches PartAssertion::General(g) && g.key@ == k
            && value_view(g.value) == v && opt_view(g.unit) == u && g.conditions@.len() == 0
            && g.confidence == AssertionConfidence::Imported && g.source == source
            && g.revision is None,
    }
}

pub open spec fn assertion_rel(source: SourceRef) -> spec_fn(PartAssertion, AssertionDesc) -> bool {
    |a: PartAssertion, d: AssertionDesc| assertion_matches(a, d, source)
}

/// A package aspect with handle `h`.
pub open spec fn aspect_rel() -> spec_fn(PartAspect, Seq<char>) -> bool {
    |a: PartAspect, h: Seq<char>| a.handle@ == h && a.kind == AspectKind::Package
}

/// `new` is `old` with the described assertions and package aspects added,
/// and nothing else changed.
pub open spec fn variant_grows(
    new: PartVariant,
    old: PartVariant,
    ads: Seq<AssertionDesc>,
    hs: Seq<Seq<char>>,
    source: SourceRef,
) -> bool {
    &&& extends_by(new.spec_assertions(), old.spec_assertions(), ads, assertion_rel(source))
    &&& extends_by(new.spec_aspects(), old.spec_aspects(), hs, aspect_rel())
    &&& new.spec_id() == old.spec_id()
    &&& new.spec_revision() == old.spec_revision()
    &&& new.spec_terminals() == old.spec_terminals()
    &&& new.spec_interfaces() == old.spec_interfaces()
    &&& new.spec_subparts() == old.spec_subparts()
    &&& new.spec_processes() == old.spec_processes()
}

pub proof fn lemma_variant_grows_refl(v: PartVariant, source: SourceRef)
    ensures
        variant_grows(v, v, Seq::empty(), Seq::empty(), source),
{
    lemma_extends_refl(v.spec_assertions(), assertion_rel(source));
    lemma_extends_refl(v.spec_aspects(), aspect_rel());
}

pub proof fn lemma_variant_grows_trans(
    a: PartVariant,
    b: PartVariant,
    c: PartVariant,
    ad1: Seq<AssertionDesc>,
    ad2: Seq<AssertionDesc>,
    h1: Seq<Seq<char>>,
    h2: Seq<Seq<char>>,
    source: SourceRef,
)
    requires
        variant_grows(b, a, ad1, h1, source),
        variant_grows(c, b, ad2, h2, source),
    ensures
        variant_grows(c, a, ad1 + ad2, h1 + h2, source),
{
    lemma_extends_trans(
        a.spec_assertions(),
        b.spec_assertions(),
        c.spec_assertions(),
        ad1,
        ad2,
        assertion_rel(source),
    );
    lemma_extends_trans(a.spec_aspects(), b.spec_aspects(), c.spec_aspects(), h1, h2, aspect_rel());
}

/// Evidence naming one source and one fact.
pub open spec fn evidence_is(e: PartQueryEvidence, source: SourceRef, fact: Seq<char>) -> bool {
    &&& e.sources@ == seq![source]
    &&& e.facts@.len() == 1
    &&& e.facts@[0]@ == fact
}

/// Builds an imported general assertion with no conditions or revision.
pub(crate) fn general_assertion(
    key: String,
    value: AssertionValue,
    unit: Option<String>,
    source: SourceRef,
) -> (r: PartAssertion)
    ensures
        assertion_matches(
            r,
            AssertionDesc::General(key@, value_view(value), opt_view(unit)),
            source,
        ),
{
    PartAssertion::General(
        Box::new(
            GeneralPartAssertion {
                key,
                value,
                unit,
                conditions: Vec::new(),
                confidence: AssertionConfidence::Imported,
                source,
                revision: None,
            },
        ),
    )
}

// ---------------------------------------------------------------------------
// Circuit records
// ---------------------------------------------------------------------------
/// Audit path of a circuit record.
pub open spec fn record_path(r: CircuitJsonSourceRecord) -> Seq<char> {
    "circuit/"@ + r.id@
}

/// A circuit record with a non-blank id and kind becomes a handoff.
pub open spec fn circuit_record_accepted(r: CircuitJsonSourceRecord) -> bool {
    !is_blank(r.id@) && !is_blank(r.kind@)
}

/// The `hypercircuit` model handle of a record.
pub open spec fn model_handle(part: Seq<char>, variant: Seq<char>, id: Seq<char>) -> Seq<char> {
    "hypercircuit:"@ + part + ":"@ + variant + ":"@ + id
}

pub open spec fn field_path(p: Seq<char>, f: EdaExactField) -> Seq<char> {
    p + "/"@ + f.field@
}

pub open spec fn field_key(id: Seq<char>, f: EdaExactField) -> Seq<char> {
    "eda.circuit."@ + id + "."@ + f.field@
}

/// The assertion an exact field of record `id` adds: its exact value, or an
/// explicit unknown; none when the field is refused.
pub open spec fn field_assertion(id: Seq<char>, f: EdaExactField) -> Seq<AssertionDesc> {
    match exact_field_outcome(opt_view(f.value)) {
        FieldOutcome::Exact(t) => seq![
            AssertionDesc::General(field_key(id, f), ValueView::ExactScalar(t), opt_view(f.unit)),
        ],
        FieldOutcome::Unknown => seq![
            AssertionDesc::General(field_key(id, f), ValueView::Unknown, opt_view(f.unit)),
        ],
        FieldOutcome::Rejected => Seq::empty(),
    }
}

/// The residual parameter an exact field yields: (field, exact spelling, unit).
pub open spec fn field_param(f: EdaExactField) -> Seq<(Seq<char>, Seq<char>, Option<Seq<char>>)> {
    match exact_field_outcome(opt_view(f.value)) {
        FieldOutcome::Exact(t) => seq![(f.field@, t, opt_view(f.unit))],
        _ => Seq::empty(),
    }
}

/// The unknown an exact field leaves.
pub open spec fn field_unknown(p: Seq<char>, f: EdaExactField) -> Seq<Seq<char>> {
    match exact_field_outcome(opt_view(f.value)) {
        FieldOutcome::Unknown => seq![field_path(p, f) + " omitted"@],
        _ => Seq::empty(),
    }
}

pub open spec fn fields_events(p: Seq<char>, fs: Seq<EdaExactField>) -> Seq<IssueEvent>
    decreases fs.len(),
{
    if fs.len() == 0 {
        Seq::empty()
    } else {
        fields_events(p, fs.drop_last()) + exact_field_events(
            field_path(p, fs.last()),
            opt_view(fs.last().value),
        )
    }
}

pub open spec fn fields_assertions(id: Seq<char>, fs: Seq<EdaExactField>) -> Seq<AssertionDesc>
    decreases fs.len(),
{
    if fs.len() == 0 {
        Seq::empty()
    } else {
        fields_assertions(id, fs.drop_last()) + field_assertion(id, fs.last())
    }
}

pub open spec fn fields_params(fs: Seq<EdaExactField>) -> Seq<
    (Seq<char>, Seq<char>, Option<Seq<char>>),
>
    decreases fs.len(),
{
    if fs.len() == 0 {
        Seq::empty()
    } else {
        fields_params(fs.drop_last()) + field_param(fs.last())
    }
}

pub open spec fn fields_unknowns(p: Seq<char>, fs: Seq<EdaExactField>) -> Seq<Seq<char>>
    decreases fs.len(),
{
    if fs.len() == 0 {
        Seq::empty()
    } else {
        fields_unknowns(p, fs.drop_last()) + field_unknown(p, fs.last())
    }
}

/// The audit events of one circuit record.
pub open spec fn circuit_record_events(r: CircuitJsonSourceRecord) -> Seq<IssueEvent> {
    let p = record_path(r);
    if is_blank(r.id@) {
        seq![IssueEvent::Rejected("circuit/<empty>/id"@, "circuit source record id is empty"@)]
    } else if is_blank(r.kind@) {
        seq![IssueEvent::Rejected(p + "/kind"@, "circuit source record kind is empty"@)]
    } else {
        fields_events(p, r.exact_fields@) + (if r.nets@.len() == 0 {
            seq![
                IssueEvent::Unknown(p + "/nets omitted"@, "circuit record has no connected nets"@),
            ]
        } else {
            Seq::empty()
        }) + seq![
            IssueEvent::Parsed(p, "circuit record accepted as hypercircuit residual-fact handoff"@),
        ]
    }
}

/// The assertions one circuit record adds.
pub open spec fn circuit_record_assertions(
    b: EdaAuthoringBundle,
    r: CircuitJsonSourceRecord,
) -> Seq<AssertionDesc> {
    if circuit_record_accepted(r) {
        seq![AssertionDesc::Circuit(model_handle(b.part@, b.variant@, r.id@))] + fields_assertions(
            r.id@,
            r.exact_fields@,
        )
    } else {
        Seq::empty()
    }
}

/// The unknowns a circuit handoff lists.
pub open spec fn circuit_record_unknowns(r: CircuitJsonSourceRecord) -> Seq<Seq<char>> {
    fields_unknowns(record_path(r), r.exact_fields@) + if r.nets@.len() == 0 {
        seq![record_path(r) + "/nets omitted"@]
    } else {
        Seq::empty()
    }
}

/// Unknown when anything is unknown; needs review when no exact parameter
/// came through; exact otherwise.
pub open spec fn circuit_handoff_status(r: CircuitJsonSourceRecord) -> EdaHandoffStatus {
    if circuit_record_unknowns(r).len() > 0 {
        EdaHandoffStatus::Unknown
    } else if fields_params(r.exact_fields@).len() == 0 {
        EdaHandoffStatus::NeedsReview
    } else {
        EdaHandoffStatus::Exact
    }
}

pub open spec fn param_view(p: CircuitResidualParameter) -> (Seq<char>, Seq<char>, Option<Seq<char>>) {
    (p.field@, p.value@, opt_view(p.unit))
}

pub open spec fn param_views(s: Seq<CircuitResidualParameter>) -> Seq<
    (Seq<char>, Seq<char>, Option<Seq<char>>),
> {
    s.map_values(|p: CircuitResidualParameter| param_view(p))
}

/// `h` is the `hypercircuit` handoff of record `r` of bundle `b`.
pub open spec fn circuit_handoff_matches(
    h: CircuitResidualFactHandoff,
    r: CircuitJsonSourceRecord,
    b: EdaAuthoringBundle,
) -> bool {
    &&& h.owner@ == "hypercircuit"@
    &&& h.model_handle@ == model_handle(b.part@, b.variant@, r.id@)
    &&& h.source_record_id@ == r.id@
    &&& h.record_kind@ == r.kind@
    &&& h.nets@ == r.nets@
    &&& param_views(h.exact_parameters@) == fields_params(r.exact_fields@)
    &&& h.status == circuit_handoff_status(r)
    &&& evidence_is(h.evidence, b.source, "circuit record "@ + r.id@ + " imported"@)
    &&& string_views(h.unknowns@) == circuit_record_unknowns(r)
}

pub open spec fn circuit_rel(b: EdaAuthoringBundle) -> spec_fn(
    CircuitResidualFactHandoff,
    CircuitJsonSourceRecord,
) -> bool {
    |h: CircuitResidualFactHandoff, r: CircuitJsonSourceRecord| circuit_handoff_matches(h, r, b)
}

pub open spec fn circuits_events(rs: Seq<CircuitJsonSourceRecord>) -> Seq<IssueEvent>
    decreases rs.len(),
{
    if rs.len() == 0 {
        Seq::empty()
    } else {
        circuits_events(rs.drop_last()) + circuit_record_events(rs.last())
    }
}

pub open spec fn circuits_assertions(
    b: EdaAuthoringBundle,
    rs: Seq<CircuitJsonSourceRecord>,
) -> Seq<AssertionDesc>
    decreases rs.len(),
{
    if rs.len() == 0 {
        Seq::empty()
    } else {
        circuits_assertions(b, rs.drop_last()) + circuit_record_assertions(b, rs.last())
    }
}

/// The circuit records that become handoffs, in order.
pub open spec fn circuits_accepted(rs: Seq<CircuitJsonSourceRecord>) -> Seq<
    CircuitJsonSourceRecord,
>
    decreases rs.len(),
{
    if rs.len() == 0 {
        Seq::empty()
    } else {
        circuits_accepted(rs.drop_last()) + if circuit_record_accepted(rs.last()) {
            seq![rs.last()]
        } else {
            Seq::empty()
        }
    }
}

fn clone_strings(v: &Vec<String>) -> (r: Vec<String>)
    ensures
        r@ == v@,
{
    let mut r: Vec<String> = Vec::new();
    let mut i: usize = 0;
    while i < v.len()
        invariant
            i <= v@.len(),
            r@ == v@.take(i as int),
        decreases v.len() - i,
    {
        r.push(v[i].clone());
        i = i + 1;
        assert(r@ =~= v@.take(i as int));
    }
    assert(v@.take(v@.len() as int) =~= v@);
    r
}

/// Imports one circuit record.
fn import_circuit_record(
    bundle: &EdaAuthoringBundle,
    record: &CircuitJsonSourceRecord,
    variant: &mut PartVariant,
    handoffs: &mut Vec<CircuitResidualFactHandoff>,
    issues: &mut ImportIssueBuilder,
)
    requires
        old(issues).wf(),
    ensures
        final(issues).wf(),
        final(issues).source == old(issues).source,
        final(issues).log() == old(issues).log() + circuit_record_events(*record),
        variant_grows(
            *final(variant),
            *old(variant),
            circuit_record_assertions(*bundle, *record),
            Seq::empty(),
            bundle.source,
        ),
        extends_by(
            final(handoffs)@,
            old(handoffs)@,
            if circuit_record_accepted(*record) {
                seq![*record]
            } else {
                Seq::empty()
            },
            circuit_rel(*bundle),
        ),
{
    proof {
        lemma_variant_grows_refl(*variant, bundle.source);
        lemma_extends_refl(handoffs@, circuit_rel(*bundle));
    }
    let record_path = String::from_str("circuit/").concat(record.id.as_str());
    if blank(record.id.as_str()) {
        issues.reject(
            String::from_str("circuit/<empty>/id"),
            String::from_str("circuit source record id is empty"),
        );
        return ;
    }
    if blank(record.kind.as_str()) {
        issues.reject(
            record_path.clone().concat("/kind"),
            String::from_str("circuit source record kind is empty"),
        );
        return ;
    }
    let model_handle = String::from_str("hypercircuit:").concat(bundle.part.as_str()).concat(
        ":",
    ).concat(bundle.variant.as_str()).concat(":").concat(record.id.as_str());
    let ghost v0 = *variant;
    variant.add_assertion(
        PartAssertion::CircuitModel(Assertion::known(model_handle.clone(), bundle.source.clone())),
    );
    proof {
        lemma_extends_push(
            v0.spec_assertions(),
            variant.spec_assertions().last(),
            AssertionDesc::Circuit(model_handle@),
            assertion_rel(bundle.source),
        );
        assert(variant.spec_assertions() == v0.spec_assertions().push(
            variant.spec_assertions().last(),
        ));
        lemma_extends_refl(v0.spec_aspects(), aspect_rel());
    }
    let ghost v1 = *variant;
    let ghost log1 = issues.log();
    let ghost fs = record.exact_fields@;
    let ghost p = record_path@;
    let mut exact_parameters: Vec<CircuitResidualParameter> = Vec::new();
    let mut unknowns: Vec<String> = Vec::new();
    let mut j: usize = 0;
    proof {
        assert(fs.take(0) =~= Seq::<EdaExactField>::empty());
        lemma_variant_grows_refl(v1, bundle.source);
    }
    while j < record.exact_fields.len()
        invariant
            j <= fs.len(),
            fs == record.exact_fields@,
            p == record_path@,
            issues.wf(),
            issues.source == old(issues).source,
            issues.log() == log1 + fields_events(p, fs.take(j as int)),
            variant_grows(
                *variant,
                v1,
                fields_assertions(record.id@, fs.take(j as int)),
                Seq::empty(),
                bundle.source,
            ),
            param_views(exact_parameters@) == fields_params(fs.take(j as int)),
            string_views(unknowns@) == fields_unknowns(p, fs.take(j as int)),
        decreases fs.len() - j,
    {
        let field = &record.exact_fields[j];
        proof {
            assert(fs.take(j + 1).drop_last() =~= fs.take(j as int));
            assert(fs.take(j + 1).last() == fs[j as int]);
        }
        let field_path = record_path.clone().concat("/").concat(field.field.as_str());
        let key = String::from_str("eda.circuit.").concat(record.id.as_str()).concat(".").concat(
            field.field.as_str(),
        );
        let ghost vb = *variant;
        match parse_exact_field(field_path.as_str(), field, issues) {
            ParsedExactField::Exact(value) => {
                let a = general_assertion(
                    key,
                    AssertionValue::exact_scalar(value.clone()),
                    field.unit.clone(),
                    bundle.source.clone(),
                );
                variant.add_assertion(a);
                proof {
                    lemma_extends_push(
                        vb.spec_assertions(),
                        a,
                        field_assertion(record.id@, *field)[0],
                        assertion_rel(bundle.source),
                    );
                    lemma_extends_refl(vb.spec_aspects(), aspect_rel());
                    lemma_variant_grows_trans(
                        v1,
                        vb,
                        *variant,
                        fields_assertions(record.id@, fs.take(j as int)),
                        field_assertion(record.id@, *field),
                        Seq::empty(),
                        Seq::empty(),
                        bundle.source,
                    );
                    assert(Seq::<Seq<char>>::empty() + Seq::<Seq<char>>::empty() =~= Seq::empty());
                }
                let ghost pv = exact_parameters@;
                exact_parameters.push(
                    CircuitResidualParameter {
                        field: field.field.clone(),
                        value,
                        unit: field.unit.clone(),
                    },
                );
                proof {
                    assert(param_views(exact_parameters@) =~= param_views(pv) + field_param(
                        *field,
                    ));
                    assert(field_unknown(p, *field) =~= Seq::<Seq<char>>::empty());
                    assert(string_views(unknowns@) + field_unknown(p, *field) =~= string_views(
                        unknowns@,
                    ));
                }
            },
            ParsedExactField::Unknown => {
                let unknown = field_path.clone().concat(" omitted");
                let ghost uv = unknowns@;
                unknowns.push(unknown);
                let a = general_assertion(
                    key,
                    AssertionValue::Unknown,
                    field.unit.clone(),
                    bundle.source.clone(),
                );
                variant.add_assertion(a);
                proof {
                    lemma_extends_push(
                        vb.spec_assertions(),
                        a,
                        field_assertion(record.id@, *field)[0],
                        assertion_rel(bundle.source),
                    );
                    lemma_extends_refl(vb.spec_aspects(), aspect_rel());
                    lemma_variant_grows_trans(
                        v1,
                        vb,
                        *variant,
                        fields_assertions(record.id@, fs.take(j as int)),
                        field_assertion(record.id@, *field),
                        Seq::empty(),
                        Seq::empty(),
                        bundle.source,
                    );
                    assert(Seq::<Seq<char>>::empty() + Seq::<Seq<char>>::empty() =~= Seq::empty());
                    assert(string_views(unknowns@) =~= string_views(uv) + field_unknown(
                        p,
                        *field,
                    ));
                    assert(param_views(exact_parameters@) + field_param(*field) =~= param_views(
                        exact_parameters@,
                    ));
                }
            },
            ParsedExactField::Rejected => {
                proof {
                    assert(field_assertion(record.id@, *field) =~= Seq::<AssertionDesc>::empty());
                    assert(fields_assertions(record.id@, fs.take(j as int))
                        + field_assertion(record.id@, *field) =~= fields_assertions(
                        record.id@,
                        fs.take(j as int),
                    ));
                    assert(string_views(unknowns@) + field_unknown(p, *field) =~= string_views(
                        unknowns@,
                    ));
                    assert(param_views(exact_parameters@) + field_param(*field) =~= param_views(
                        exact_parameters@,
                    ));
                }
            },
        }
        j = j + 1;
    }
    proof {
        assert(fs.take(fs.len() as int) =~= fs);
    }
    if record.nets.len() == 0 {
        let unknown = record_path.clone().concat("/nets omitted");
        issues.unknown(unknown.clone(), String::from_str("circuit record has no connected nets"));
        let ghost uv = unknowns@;
        unknowns.push(unknown);
        proof {
            assert(string_views(unknowns@) =~= string_views(uv).push(unknown@));
        }
    } else {
        proof {
            assert(string_views(unknowns@) + Seq::<Seq<char>>::empty() =~= string_views(
                unknowns@,
            ));
        }
    }
    issues.parsed(
        record_path.clone(),
        String::from_str("circuit record accepted as hypercircuit residual-fact handoff"),
    );
    let status = if unknowns.len() != 0 {
        EdaHandoffStatus::Unknown
    } else if exact_parameters.len() == 0 {
        EdaHandoffStatus::NeedsReview
    } else {
        EdaHandoffStatus::Exact
    };
    let fact = String::from_str("circuit record ").concat(record.id.as_str()).concat(" imported");
    let h = CircuitResidualFactHandoff {
        owner: String::from_str("hypercircuit"),
        model_handle,
        source_record_id: record.id.clone(),
        record_kind: record.kind.clone(),
        nets: clone_strings(&record.nets),
        exact_parameters,
        status,
        evidence: PartQueryEvidence::from_fact(bundle.source.clone(), fact.as_str()),
        unknowns,
    };
    let ghost h0 = handoffs@;
    handoffs.push(h);
    proof {
        assert(circuit_handoff_matches(h, *record, *bundle));
        lemma_extends_push(h0, h, *record, circuit_rel(*bundle));
        lemma_variant_grows_trans(
            v0,
            v1,
            *variant,
            seq![AssertionDesc::Circuit(model_handle@)],
            fields_assertions(record.id@, fs),
            Seq::empty(),
            Seq::empty(),
            bundle.source,
        );
        assert(Seq::<Seq<char>>::empty() + Seq::<Seq<char>>::empty() =~= Seq::empty());
        assert(issues.log() =~= old(issues).log() + circuit_record_events(*record));
    }
}

/// Imports every circuit record of the bundle, in order.
pub(crate) fn import_circuit_records(
    bundle: &EdaAuthoringBundle,
    variant: &mut PartVariant,
    handoffs: &mut Vec<CircuitResidualFactHandoff>,
    issues: &mut ImportIssueBuilder,
)
    requires
        old(issues).wf(),
    ensures
        final(issues).wf(),
        final(issues).source == old(issues).source,
        final(issues).log() == old(issues).log() + circuits_events(bundle.circuit_records@),
        variant_grows(
            *final(variant),
            *old(variant),
            circuits_assertions(*bundle, bundle.circuit_records@),
            Seq::empty(),
            bundle.source,
        ),
        extends_by(
            final(handoffs)@,
            old(handoffs)@,
            circuits_accepted(bundle.circuit_records@),
            circuit_rel(*bundle),
        ),
{
    let ghost rs = bundle.circuit_records@;
    let ghost v0 = *variant;
    let ghost h0 = handoffs@;
    let mut i: usize = 0;
    proof {
        assert(rs.take(0) =~= Seq::<CircuitJsonSourceRecord>::empty());
        lemma_variant_grows_refl(v0, bundle.source);
        lemma_extends_refl(h0, circuit_rel(*bundle));
    }
    while i < bundle.circuit_records.len()
        invariant
            i <= rs.len(),
            rs == bundle.circuit_records@,
            issues.wf(),
            issues.source == old(issues).source,
            issues.log() == old(issues).log() + circuits_events(rs.take(i as int)),
            variant_grows(
                *variant,
                v0,
                circuits_assertions(*bundle, rs.take(i as int)),
                Seq::empty(),
                bundle.source,
            ),
            extends_by(handoffs@, h0, circuits_accepted(rs.take(i as int)), circuit_rel(*bundle)),
        decreases rs.len() - i,
    {
        proof {
            assert(rs.take(i + 1).drop_last() =~= rs.take(i as int));
            assert(rs.take(i + 1).last() == rs[i as int]);
        }
        let ghost vb = *variant;
        let ghost hb = handoffs@;
        let ghost lb = issues.log();
        import_circuit_record(bundle, &bundle.circuit_records[i], variant, handoffs, issues);
        proof {
            lemma_variant_grows_trans(
                v0,
                vb,
                *variant,
                circuits_assertions(*bundle, rs.take(i as int)),
                circuit_record_assertions(*bundle, rs[i as int]),
                Seq::empty(),
                Seq::empty(),
                bundle.source,
            );
            assert(Seq::<Seq<char>>::empty() + Seq::<Seq<char>>::empty() =~= Seq::empty());
            lemma_extends_trans(
                h0,
                hb,
                handoffs@,
                circuits_accepted(rs.take(i as int)),
                if circuit_record_accepted(rs[i as int]) {
                    seq![rs[i as int]]
                } else {
                    Seq::empty()
                },
                circuit_rel(*bundle),
            );
            assert(issues.log() =~= old(issues).log() + circuits_events(rs.take(i + 1)));
        }
        i = i + 1;
    }
    proof {
        assert(rs.take(rs.len() as int) =~= rs);
    }
}

// ---------------------------------------------------------------------------
// Footprint
// ---------------------------------------------------------------------------
/// The assertion a footprint parameter adds under handle `h`.
pub open spec fn param_assertion(h: Seq<char>, p: ParamDesc) -> AssertionDesc {
    AssertionDesc::General("eda.footprint."@ + h + "."@ + p.key, p.value, p.unit)
}

pub open spec fn params_assertions(h: Seq<char>, ps: Seq<ParamDesc>) -> Seq<AssertionDesc> {
    ps.map_values(|p: ParamDesc| param_assertion(h, p))
}

/// The footprint is present, its handle and expression are not blank, and
/// the expression parses.
pub open spec fn footprint_accepted(b: EdaAuthoringBundle) -> bool {
    b.footprint matches Some(f) && !is_blank(f.handle@) && !is_blank(f.expression@)
        && footprint_outcome(f.expression@).1 is Some
}

/// The audit events of the footprint.
pub open spec fn footprint_events(b: EdaAuthoringBundle) -> Seq<IssueEvent> {
    match b.footprint {
        None => Seq::empty(),
        Some(f) => if is_blank(f.handle@) {
            seq![IssueEvent::Rejected("footprint/handle"@, "footprint handle is empty"@)]
        } else if is_blank(f.expression@) {
            seq![IssueEvent::Rejected("footprint/expression"@, "footprint expression is empty"@)]
        } else {
            let o = footprint_outcome(f.expression@);
            match o.1 {
                None => o.0,
                Some(_) => o.0 + seq![
                    IssueEvent::Parsed(
                        "footprint/expression"@,
                        "footprint string accepted as exact package aspect assertion"@,
                    ),
                ],
            }
        },
    }
}

/// The assertions the footprint adds: its shape handle, its family, and one
/// per parameter.
pub open spec fn footprint_assertions(b: EdaAuthoringBundle) -> Seq<AssertionDesc> {
    match b.footprint {
        Some(f) => if footprint_accepted(b) {
            let family = footprint_outcome(f.expression@).1.unwrap().0;
            let ps = footprint_outcome(f.expression@).1.unwrap().1;
            seq![
                AssertionDesc::Shape(f.handle@),
                AssertionDesc::General(
                    "eda.footprint."@ + f.handle@ + ".family"@,
                    ValueView::Text(family),
                    None,
                ),
            ] + params_assertions(f.handle@, ps)
        } else {
            Seq::empty()
        },
        None => Seq::empty(),
    }
}

/// The package aspect the footprint adds.
pub open spec fn footprint_aspects(b: EdaAuthoringBundle) -> Seq<Seq<char>> {
    match b.footprint {
        Some(f) => if footprint_accepted(b) {
            seq![f.handle@]
        } else {
            Seq::empty()
        },
        None => Seq::empty(),
    }
}

/// Imports the footprint expression as a package aspect and assertions.
pub(crate) fn import_footprint(
    bundle: &EdaAuthoringBundle,
    variant: &mut PartVariant,
    issues: &mut ImportIssueBuilder,
)
    requires
        old(issues).wf(),
    ensures
        final(issues).wf(),
        final(issues).source == old(issues).source,
        final(issues).log() == old(issues).log() + footprint_events(*bundle),
        variant_grows(
            *final(variant),
            *old(variant),
            footprint_assertions(*bundle),
            footprint_aspects(*bundle),
            bundle.source,
        ),
{
    proof {
        lemma_variant_grows_refl(*variant, bundle.source);
    }
    let footprint = match &bundle.footprint {
        Some(f) => f,
        None => {
            assert(issues.log() =~= old(issues).log() + footprint_events(*bundle));
            return ;
        },
    };
    if blank(footprint.handle.as_str()) {
        issues.reject(
            String::from_str("footprint/handle"),
            String::from_str("footprint handle is empty"),
        );
        return ;
    }
    if blank(footprint.expression.as_str()) {
        issues.reject(
            String::from_str("footprint/expression"),
            String::from_str("footprint expression is empty"),
        );
        return ;
    }
    let (family, parameters) = match parse_footprint_expression(
        footprint.expression.as_str(),
        issues,
    ) {
        Some(parsed) => parsed,
        None => {
            return ;
        },
    };
    let ghost ps = footprint_outcome(footprint.expression@).1.unwrap().1;
    let ghost h = footprint.handle@;
    let ghost v0 = *variant;
    variant.add_aspect(PartAspect::new(footprint.handle.as_str(), AspectKind::Package));
    let shape = PartAssertion::ShapeHandle(
        Assertion::known(footprint.handle.clone(), bundle.source.clone()),
    );
    variant.add_assertion(shape);
    let family_assertion = general_assertion(
        String::from_str("eda.footprint.").concat(footprint.handle.as_str()).concat(".family"),
        AssertionValue::Text(family),
        None,
        bundle.source.clone(),
    );
    variant.add_assertion(family_assertion);
    let ghost v1 = *variant;
    let ghost heads = seq![
        AssertionDesc::Shape(h),
        AssertionDesc::General(
            "eda.footprint."@ + h + ".family"@,
            ValueView::Text(footprint_outcome(footprint.expression@).1.unwrap().0),
            None,
        ),
    ];
    proof {
        assert(v1.spec_assertions() =~= v0.spec_assertions().push(shape).push(family_assertion));
        assert(v1.spec_assertions().take(v0.spec_assertions().len() as int)
            =~= v0.spec_assertions());
        assert(v1.spec_aspects().take(v0.spec_aspects().len() as int) =~= v0.spec_aspects());
        assert(v1.spec_assertions()[v0.spec_assertions().len() as int] == shape);
        assert(v1.spec_assertions()[v0.spec_assertions().len() + 1int] == family_assertion);
        assert(heads[0] == AssertionDesc::Shape(h));
        assert(variant_grows(v1, v0, heads, seq![h], bundle.source));
    }
    let mut rest = parameters;
    let total = rest.len();
    let mut k: usize = 0;
    proof {
        assert(ps.take(0) =~= Seq::<ParamDesc>::empty());
        assert(params_assertions(h, ps.take(0)) =~= Seq::<AssertionDesc>::empty());
        lemma_variant_grows_refl(v1, bundle.source);
        assert(rest@.len() == ps.len());
    }
    while rest.len() > 0
        invariant
            k + rest@.len() == ps.len(),
            ps.len() <= usize::MAX,
            forall|i: int| 0 <= i < rest@.len() ==> param_matches(#[trigger] rest@[i], ps[k + i]),
            h == footprint.handle@,
            variant_grows(
                *variant,
                v1,
                params_assertions(h, ps.take(k as int)),
                Seq::empty(),
                bundle.source,
            ),
        decreases rest@.len(),
    {
        let ghost vb = *variant;
        let ghost d = ps[k as int];
        assert(param_matches(rest@[0], d));
        let ghost rb = rest@;
        let parameter = rest.remove(0);
        let a = general_assertion(
            String::from_str("eda.footprint.").concat(footprint.handle.as_str()).concat(
                ".",
            ).concat(parameter.key.as_str()),
            parameter.value,
            parameter.unit,
            bundle.source.clone(),
        );
        variant.add_assertion(a);
        proof {
            assert forall|i: int| 0 <= i < rest@.len() implies param_matches(
                #[trigger] rest@[i],
                ps[k + 1 + i],
            ) by {
                assert(rest@[i] == rb[i + 1]);
                assert(param_matches(rb[i + 1], ps[k + (i + 1)]));
            }
            lemma_extends_push(vb.spec_assertions(), a, param_assertion(h, d), assertion_rel(
                bundle.source,
            ));
            lemma_extends_refl(vb.spec_aspects(), aspect_rel());
            lemma_variant_grows_trans(
                v1,
                vb,
                *variant,
                params_assertions(h, ps.take(k as int)),
                seq![param_assertion(h, d)],
                Seq::empty(),
                Seq::empty(),
                bundle.source,
            );
            assert(params_assertions(h, ps.take(k + 1)) =~= params_assertions(h, ps.take(k as int))
                + seq![param_assertion(h, d)]);
            assert(Seq::<Seq<char>>::empty() + Seq::<Seq<char>>::empty() =~= Seq::empty());
        }
        k = k + 1;
    }
    issues.parsed(
        String::from_str("footprint/expression"),
        String::from_str("footprint string accepted as exact package aspect assertion"),
    );
    proof {
        assert(ps.take(k as int) =~= ps);
        lemma_variant_grows_trans(
            v0,
            v1,
            *variant,
            heads,
            params_assertions(h, ps),
            seq![h],
            Seq::empty(),
            bundle.source,
        );
        assert(seq![h] + Seq::<Seq<char>>::empty() =~= seq![h]);
    }
}

// ---------------------------------------------------------------------------
// Generated models
// ---------------------------------------------------------------------------
pub open spec fn model_path(m: GeneratedModelReference) -> Seq<char> {
    "models/"@ + m.handle@
}

/// A model with a non-blank handle and format becomes a geometry handoff.
pub open spec fn model_accepted(m: GeneratedModelReference) -> bool {
    !is_blank(m.handle@) && !is_blank(m.format@)
}

/// The geometry status a declared model status maps to.
pub open spec fn model_geometry_status(s: EdaModelStatus) -> GeometryStatus {
    match s {
        EdaModelStatus::Exact => GeometryStatus::Exact,
        EdaModelStatus::Certified => GeometryStatus::Certified,
        EdaModelStatus::LossyPreview => GeometryStatus::LossyMesh,
        EdaModelStatus::DisplayOnly => GeometryStatus::DisplayOnly,
        EdaModelStatus::Missing => GeometryStatus::Missing,
    }
}

/// The audit event a declared model status adds, if any.
pub open spec fn model_status_events(path: Seq<char>, s: EdaModelStatus) -> Seq<IssueEvent> {
    match s {
        EdaModelStatus::LossyPreview => seq![
            IssueEvent::Lossy(path, "generated model is a lossy preview artifact"@),
        ],
        EdaModelStatus::DisplayOnly => seq![
            IssueEvent::Lossy(path, "generated model is display-only preview geometry"@),
        ],
        EdaModelStatus::Missing => seq![
            IssueEvent::Unresolved(path, "source referenced a model without a usable handle"@),
        ],
        _ => Seq::empty(),
    }
}

/// The audit events of one model reference.
pub open spec fn model_events(m: GeneratedModelReference) -> Seq<IssueEvent> {
    if is_blank(m.handle@) {
        seq![IssueEvent::Rejected("models/<empty>/handle"@, "model handle is empty"@)]
    } else if is_blank(m.format@) {
        seq![IssueEvent::Rejected(model_path(m) + "/format"@, "model format is empty"@)]
    } else {
        model_status_events(model_path(m), m.status) + seq![
            IssueEvent::Parsed(
                model_path(m),
                "generated model reference retained as geometry handoff"@,
            ),
        ]
    }
}

/// An exact or certified model adds its handle as a shape assertion.
pub open spec fn model_assertions(m: GeneratedModelReference) -> Seq<AssertionDesc> {
    if model_accepted(m) && (m.status == EdaModelStatus::Exact || m.status
        == EdaModelStatus::Certified) {
        seq![AssertionDesc::Shape(m.handle@)]
    } else {
        Seq::empty()
    }
}

/// A geometry handle with these texts.
pub open spec fn geometry_handle_is(
    g: GeometryHandle,
    owner: Seq<char>,
    handle: Seq<char>,
    units: Option<Seq<char>>,
) -> bool {
    g.owner@ == owner && g.handle@ == handle && opt_view(g.units) == units
}

/// `h` is the geometry handoff of model `m` of bundle `b`: no geometry when
/// the model is missing, else the model's handle owned by its generator
/// (`generated-model` when the owner is blank).
pub open spec fn model_handoff_matches(
    h: GeometryHandoffReport,
    m: GeneratedModelReference,
    b: EdaAuthoringBundle,
) -> bool {
    &&& h.part == b.part
    &&& h.source == ShapeSource::ModelArtifact
    &&& h.status == model_geometry_status(m.status)
    &&& if m.status == EdaModelStatus::Missing {
        h.geometry is None
    } else {
        h.geometry matches Some(g) && geometry_handle_is(
            g,
            if is_blank(m.owner@) {
                "generated-model"@
            } else {
                m.owner@
            },
            m.handle@,
            opt_view(m.units),
        )
    }
    &&& evidence_is(h.evidence, b.source, "model "@ + m.handle@ + " imported as "@ + m.format@)
}

pub open spec fn model_rel(b: EdaAuthoringBundle) -> spec_fn(
    GeometryHandoffReport,
    GeneratedModelReference,
) -> bool {
    |h: GeometryHandoffReport, m: GeneratedModelReference| model_handoff_matches(h, m, b)
}

pub open spec fn models_events(ms: Seq<GeneratedModelReference>) -> Seq<IssueEvent>
    decreases ms.len(),
{
    if ms.len() == 0 {
        Seq::empty()
    } else {
        models_events(ms.drop_last()) + model_events(ms.last())
    }
}

pub open spec fn models_assertions(ms: Seq<GeneratedModelReference>) -> Seq<AssertionDesc>
    decreases ms.len(),
{
    if ms.len() == 0 {
        Seq::empty()
    } else {
        models_assertions(ms.drop_last()) + model_assertions(ms.last())
    }
}

/// The model references that become handoffs, in order.
pub open spec fn models_accepted(ms: Seq<GeneratedModelReference>) -> Seq<GeneratedModelReference>
    decreases ms.len(),
{
    if ms.len() == 0 {
        Seq::empty()
    } else {
        models_accepted(ms.drop_last()) + if model_accepted(ms.last()) {
            seq![ms.last()]
        } else {
            Seq::empty()
        }
    }
}

/// Imports one generated model reference.
fn import_model(
    bundle: &EdaAuthoringBundle,
    model: &GeneratedModelReference,
    variant: &mut PartVariant,
    handoffs: &mut Vec<GeometryHandoffReport>,
    issues: &mut ImportIssueBuilder,
)
    requires
        old(issues).wf(),
    ensures
        final(issues).wf(),
        final(issues).source == old(issues).source,
        final(issues).log() == old(issues).log() + model_events(*model),
        variant_grows(
            *final(variant),
            *old(variant),
            model_assertions(*model),
            Seq::empty(),
            bundle.source,
        ),
        extends_by(
            final(handoffs)@,
            old(handoffs)@,
            if model_accepted(*model) {
                seq![*model]
            } else {
                Seq::empty()
            },
            model_rel(*bundle),
        ),
{
    proof {
        lemma_variant_grows_refl(*variant, bundle.source);
        lemma_extends_refl(handoffs@, model_rel(*bundle));
    }
    let path = String::from_str("models/").concat(model.handle.as_str());
    if blank(model.handle.as_str()) {
        issues.reject(
            String::from_str("models/<empty>/handle"),
            String::from_str("model handle is empty"),
        );
        return ;
    }
    if blank(model.format.as_str()) {
        issues.reject(path.clone().concat("/format"), String::from_str("model format is empty"));
        return ;
    }
    let ghost l0 = issues.log();
    let geometry_status = match model.status {
        EdaModelStatus::Exact => GeometryStatus::Exact,
        EdaModelStatus::Certified => GeometryStatus::Certified,
        EdaModelStatus::LossyPreview => {
            issues.lossy(
                path.clone(),
                String::from_str("generated model is a lossy preview artifact"),
            );
            GeometryStatus::LossyMesh
        },
        EdaModelStatus::DisplayOnly => {
            issues.lossy(
                path.clone(),
                String::from_str("generated model is display-only preview geometry"),
            );
            GeometryStatus::DisplayOnly
        },
        EdaModelStatus::Missing => {
            issues.unresolved(
                path.clone(),
                String::from_str("source referenced a model without a usable handle"),
            );
            GeometryStatus::Missing
        },
    };
    assert(issues.log() =~= l0 + model_status_events(path@, model.status));
    let ghost v0 = *variant;
    if model.status == EdaModelStatus::Exact || model.status == EdaModelStatus::Certified {
        let shape = PartAssertion::ShapeHandle(
            Assertion::known(model.handle.clone(), bundle.source.clone()),
        );
        variant.add_assertion(shape);
        proof {
            lemma_extends_push(
                v0.spec_assertions(),
                shape,
                AssertionDesc::Shape(model.handle@),
                assertion_rel(bundle.source),
            );
            lemma_extends_refl(v0.spec_aspects(), aspect_rel());
        }
    }
    let geometry = if geometry_status == GeometryStatus::Missing {
        None
    } else {
        let owner = if blank(model.owner.as_str()) {
            String::from_str("generated-model")
        } else {
            model.owner.clone()
        };
        Some(GeometryHandle { owner, handle: model.handle.clone(), units: model.units.clone() })
    };
    let fact = String::from_str("model ").concat(model.handle.as_str()).concat(
        " imported as ",
    ).concat(model.format.as_str());
    let h = GeometryHandoffReport {
        part: bundle.part.clone(),
        source: ShapeSource::ModelArtifact,
        geometry,
        status: geometry_status,
        evidence: PartQueryEvidence::from_fact(bundle.source.clone(), fact.as_str()),
    };
    let ghost h0 = handoffs@;
    handoffs.push(h);
    proof {
        assert(model_handoff_matches(h, *model, *bundle));
        lemma_extends_push(h0, h, *model, model_rel(*bundle));
    }
    issues.parsed(
        path.clone(),
        String::from_str("generated model reference retained as geometry handoff"),
    );
    assert(issues.log() =~= old(issues).log() + model_events(*model));
}

/// Imports every generated model reference, in order.
pub(crate) fn import_models(
    bundle: &EdaAuthoringBundle,
    variant: &mut PartVariant,
    handoffs: &mut Vec<GeometryHandoffReport>,
    issues: &mut ImportIssueBuilder,
)
    requires
        old(issues).wf(),
    ensures
        final(issues).wf(),
        final(issues).source == old(issues).source,
        final(issues).log() == old(issues).log() + models_events(bundle.model_references@),
        variant_grows(
            *final(variant),
            *old(variant),
            models_assertions(bundle.model_references@),
            Seq::empty(),
            bundle.source,
        ),
        extends_by(
            final(handoffs)@,
            old(handoffs)@,
            models_accepted(bundle.model_references@),
            model_rel(*bundle),
        ),
{
    let ghost ms = bundle.model_references@;
    let ghost v0 = *variant;
    let ghost h0 = handoffs@;
    let mut i: usize = 0;
    proof {
        assert(ms.take(0) =~= Seq::<GeneratedModelReference>::empty());
        lemma_variant_grows_refl(v0, bundle.source);
        lemma_extends_refl(h0, model_rel(*bundle));
    }
    while i < bundle.model_references.len()
        invariant
            i <= ms.len(),
            ms == bundle.model_references@,
            issues.wf(),
            issues.source == old(issues).source,
            issues.log() == old(issues).log() + models_events(ms.take(i as int)),
            variant_grows(
                *variant,
                v0,
                models_assertions(ms.take(i as int)),
                Seq::empty(),
                bundle.source,
            ),
            extends_by(handoffs@, h0, models_accepted(ms.take(i as int)), model_rel(*bundle)),
        decreases ms.len() - i,
    {
        proof {
            assert(ms.take(i + 1).drop_last() =~= ms.take(i as int));
            assert(ms.take(i + 1).last() == ms[i as int]);
        }
        let ghost vb = *variant;
        let ghost hb = handoffs@;
        import_model(bundle, &bundle.model_references[i], variant, handoffs, issues);
        proof {
            lemma_variant_grows_trans(
                v0,
                vb,
                *variant,
                models_assertions(ms.take(i as int)),
                model_assertions(ms[i as int]),
                Seq::empty(),
                Seq::empty(),
                bundle.source,
            );
            assert(Seq::<Seq<char>>::empty() + Seq::<Seq<char>>::empty() =~= Seq::empty());
            lemma_extends_trans(
                h0,
                hb,
                handoffs@,
                models_accepted(ms.take(i as int)),
                if model_accepted(ms[i as int]) {
                    seq![ms[i as int]]
                } else {
                    Seq::empty()
                },
                model_rel(*bundle),
            );
            assert(issues.log() =~= old(issues).log() + models_events(ms.take(i + 1)));
        }
        i = i + 1;
    }
    proof {
        assert(ms.take(ms.len() as int) =~= ms);
    }
}

// ---------------------------------------------------------------------------
// Autorouter output
// ---------------------------------------------------------------------------
pub open spec fn route_path(r: AutorouterOutputRecord) -> Seq<char> {
    "routes/"@ + r.route_id@
}

/// A route with a non-blank id and net becomes a handoff.
pub open spec fn route_accepted(r: AutorouterOutputRecord) -> bool {
    !is_blank(r.route_id@) && !is_blank(r.net@)
}

/// The route names a non-blank geometry handle.
pub open spec fn route_has_geometry(r: AutorouterOutputRecord) -> bool {
    r.geometry_handle matches Some(h) && !is_blank(h@)
}

/// The exact grid spelling a route yields.
pub open spec fn route_grid(r: AutorouterOutputRecord) -> Option<Seq<char>> {
    match r.exact_grid {
        Some(g) => match exact_field_outcome(Some(g@)) {
            FieldOutcome::Exact(t) => Some(t),
            _ => None,
        },
        None => None,
    }
}

/// Exact when the router declared exact output and both geometry and grid
/// came through; certified when declared certified with geometry; needs
/// review when lossy; unknown otherwise.
pub open spec fn route_status(r: AutorouterOutputRecord) -> EdaHandoffStatus {
    if r.status == EdaRouteStatus::Exact && route_has_geometry(r) && route_grid(r) is Some {
        EdaHandoffStatus::Exact
    } else if r.status == EdaRouteStatus::Certified && route_has_geometry(r) {
        EdaHandoffStatus::Certified
    } else if r.status == EdaRouteStatus::Lossy {
        EdaHandoffStatus::NeedsReview
    } else {
        EdaHandoffStatus::Unknown
    }
}

/// The audit events of the route's grid.
pub open spec fn route_grid_events(r: AutorouterOutputRecord) -> Seq<IssueEvent> {
    match r.exact_grid {
        Some(g) => exact_field_events(route_path(r) + "/exact_grid"@, Some(g@)),
        None => seq![
            IssueEvent::Unknown(
                route_path(r) + "/exact_grid"@,
                "autorouter output omitted exact routing grid"@,
            ),
        ],
    }
}

/// The audit events of one route.
pub open spec fn route_events(r: AutorouterOutputRecord) -> Seq<IssueEvent> {
    let p = route_path(r);
    if is_blank(r.route_id@) {
        seq![IssueEvent::Rejected("routes/<empty>/route_id"@, "route id is empty"@)]
    } else if is_blank(r.net@) {
        seq![IssueEvent::Rejected(p + "/net"@, "route net is empty"@)]
    } else {
        (if route_has_geometry(r) {
            Seq::empty()
        } else {
            seq![
                IssueEvent::Unresolved(p, "autorouter output omitted route geometry handle"@),
            ]
        }) + route_grid_events(r) + (if r.status == EdaRouteStatus::Lossy {
            seq![IssueEvent::Lossy(p, "autorouter output is a lossy sampled route"@)]
        } else {
            Seq::empty()
        }) + seq![
            IssueEvent::Parsed(p, "autorouter output retained as hyperpath route handoff"@),
        ]
    }
}

/// The unknowns a route handoff lists.
pub open spec fn route_unknowns(r: AutorouterOutputRecord) -> Seq<Seq<char>> {
    let p = route_path(r);
    (if route_has_geometry(r) {
        Seq::empty()
    } else {
        seq![p + "/geometry_handle omitted"@]
    }) + match r.exact_grid {
        Some(g) => if exact_field_outcome(Some(g@)) == FieldOutcome::Unknown {
            seq![p + "/exact_grid omitted"@]
        } else {
            Seq::empty()
        },
        None => seq![p + "/exact_grid omitted"@],
    }
}

pub open spec fn exact_opt_view(o: Option<ExactValue>) -> Option<Seq<char>> {
    match o {
        Some(v) => Some(v@),
        None => None,
    }
}

/// `h` is the `hyperpath` handoff of route `r` of bundle `b`.
pub open spec fn route_handoff_matches(
    h: RouteGeometryHandoff,
    r: AutorouterOutputRecord,
    b: EdaAuthoringBundle,
) -> bool {
    &&& h.owner@ == "hyperpath"@
    &&& h.route_id@ == r.route_id@
    &&& h.net@ == r.net@
    &&& if route_has_geometry(r) {
        h.geometry matches Some(g) && geometry_handle_is(
            g,
            "hyperpath"@,
            r.geometry_handle.unwrap()@,
            opt_view(r.units),
        )
    } else {
        h.geometry is None
    }
    &&& exact_opt_view(h.exact_grid) == route_grid(r)
    &&& h.status == route_status(r)
    &&& evidence_is(h.evidence, b.source, "route "@ + r.route_id@ + " imported"@)
    &&& string_views(h.unknowns@) == route_unknowns(r)
}

pub open spec fn route_rel(b: EdaAuthoringBundle) -> spec_fn(
    RouteGeometryHandoff,
    AutorouterOutputRecord,
) -> bool {
    |h: RouteGeometryHandoff, r: AutorouterOutputRecord| route_handoff_matches(h, r, b)
}

pub open spec fn routes_events(rs: Seq<AutorouterOutputRecord>) -> Seq<IssueEvent>
    decreases rs.len(),
{
    if rs.len() == 0 {
        Seq::empty()
    } else {
        routes_events(rs.drop_last()) + route_events(rs.last())
    }
}

/// The routes that become handoffs, in order.
pub open spec fn routes_accepted(rs: Seq<AutorouterOutputRecord>) -> Seq<AutorouterOutputRecord>
    decreases rs.len(),
{
    if rs.len() == 0 {
        Seq::empty()
    } else {
        routes_accepted(rs.drop_last()) + if route_accepted(rs.last()) {
            seq![rs.last()]
        } else {
            Seq::empty()
        }
    }
}

/// Imports one autorouter output record.
fn import_route(
    bundle: &EdaAuthoringBundle,
    route: &AutorouterOutputRecord,
    handoffs: &mut Vec<RouteGeometryHandoff>,
    issues: &mut ImportIssueBuilder,
)
    requires
        old(issues).wf(),
    ensures
        final(issues).wf(),
        final(issues).source == old(issues).source,
        final(issues).log() == old(issues).log() + route_events(*route),
        extends_by(
            final(handoffs)@,
            old(handoffs)@,
            if route_accepted(*route) {
                seq![*route]
            } else {
                Seq::empty()
            },
            route_rel(*bundle),
        ),
{
    proof {
        lemma_extends_refl(handoffs@, route_rel(*bundle));
    }
    let path = String::from_str("routes/").concat(route.route_id.as_str());
    if blank(route.route_id.as_str()) {
        issues.reject(
            String::from_str("routes/<empty>/route_id"),
            String::from_str("route id is empty"),
        );
        return ;
    }
    if blank(route.net.as_str()) {
        issues.reject(path.clone().concat("/net"), String::from_str("route net is empty"));
        return ;
    }
    let ghost l0 = issues.log();
    let mut unknowns: Vec<String> = Vec::new();
    let geometry = match &route.geometry_handle {
        Some(handle) if !blank(handle.as_str()) => Some(
            GeometryHandle {
                owner: String::from_str("hyperpath"),
                handle: handle.clone(),
                units: route.units.clone(),
            },
        ),
        _ => {
            issues.unresolved(
                path.clone(),
                String::from_str("autorouter output omitted route geometry handle"),
            );
            unknowns.push(path.clone().concat("/geometry_handle omitted"));
            None
        },
    };
    let ghost l1 = issues.log();
    let ghost u1 = unknowns@;
    let grid_path = path.clone().concat("/exact_grid");
    let exact_grid = match &route.exact_grid {
        Some(grid) => {
            let field = EdaExactField {
                field: String::from_str("exact_grid"),
                value: Some(grid.clone()),
                unit: route.units.clone(),
            };
            match parse_exact_field(grid_path.as_str(), &field, issues) {
                ParsedExactField::Exact(value) => Some(value),
                ParsedExactField::Unknown => {
                    unknowns.push(path.clone().concat("/exact_grid omitted"));
                    None
                },
                ParsedExactField::Rejected => None,
            }
        },
        None => None,
    };
    if route.exact_grid.is_none() {
        issues.unknown(
            grid_path.clone(),
            String::from_str("autorouter output omitted exact routing grid"),
        );
        unknowns.push(path.clone().concat("/exact_grid omitted"));
    }
    let ghost l2 = issues.log();
    proof {
        assert(l2 =~= l1 + route_grid_events(*route));
        assert(string_views(unknowns@) =~= route_unknowns(*route));
    }
    let status = match route.status {
        EdaRouteStatus::Exact if geometry.is_some() && exact_grid.is_some() => {
            EdaHandoffStatus::Exact
        },
        EdaRouteStatus::Certified if geometry.is_some() => EdaHandoffStatus::Certified,
        EdaRouteStatus::Lossy => {
            issues.lossy(
                path.clone(),
                String::from_str("autorouter output is a lossy sampled route"),
            );
            EdaHandoffStatus::NeedsReview
        },
        EdaRouteStatus::Missing => EdaHandoffStatus::Unknown,
        _ => EdaHandoffStatus::Unknown,
    };
    issues.parsed(
        path.clone(),
        String::from_str("autorouter output retained as hyperpath route handoff"),
    );
    let fact = String::from_str("route ").concat(route.route_id.as_str()).concat(" imported");
    let h = RouteGeometryHandoff {
        owner: String::from_str("hyperpath"),
        route_id: route.route_id.clone(),
        net: route.net.clone(),
        geometry,
        exact_grid,
        status,
        evidence: PartQueryEvidence::from_fact(bundle.source.clone(), fact.as_str()),
        unknowns,
    };
    let ghost h0 = handoffs@;
    handoffs.push(h);
    proof {
        assert(route_handoff_matches(h, *route, *bundle));
        lemma_extends_push(h0, h, *route, route_rel(*bundle));
        assert(issues.log() =~= old(issues).log() + route_events(*route));
    }
}

/// Imports every autorouter output record, in order.
pub(crate) fn import_routes(
    bundle: &EdaAuthoringBundle,
    handoffs: &mut Vec<RouteGeometryHandoff>,
    issues: &mut ImportIssueBuilder,
)
    requires
        old(issues).wf(),
    ensures
        final(issues).wf(),
        final(issues).source == old(issues).source,
        final(issues).log() == old(issues).log() + routes_events(bundle.routes@),
        extends_by(
            final(handoffs)@,
            old(handoffs)@,
            routes_accepted(bundle.routes@),
            route_rel(*bundle),
        ),
{
    let ghost rs = bundle.routes@;
    let ghost h0 = handoffs@;
    let mut i: usize = 0;
    proof {
        assert(rs.take(0) =~= Seq::<AutorouterOutputRecord>::empty());
        lemma_extends_refl(h0, route_rel(*bundle));
    }
    while i < bundle.routes.len()
        invariant
            i <= rs.len(),
            rs == bundle.routes@,
            issues.wf(),
            issues.source == old(issues).source,
            issues.log() == old(issues).log() + routes_events(rs.take(i as int)),
            extends_by(handoffs@, h0, routes_accepted(rs.take(i as int)), route_rel(*bundle)),
        decreases rs.len() - i,
    {
        proof {
            assert(rs.take(i + 1).drop_last() =~= rs.take(i as int));
            assert(rs.take(i + 1).last() == rs[i as int]);
        }
        let ghost hb = handoffs@;
        import_route(bundle, &bundle.routes[i], handoffs, issues);
        proof {
            lemma_extends_trans(
                h0,
                hb,
                handoffs@,
                routes_accepted(rs.take(i as int)),
                if route_accepted(rs[i as int]) {
                    seq![rs[i as int]]
                } else {
                    Seq::empty()
                },
                route_rel(*bundle),
            );
            assert(issues.log() =~= old(issues).log() + routes_events(rs.take(i + 1)));
        }
        i = i + 1;
    }
    proof {
        assert(rs.take(rs.len() as int) =~= rs);
    }
}

// ---------------------------------------------------------------------------
// Fabrication output
// ---------------------------------------------------------------------------
pub open spec fn fabrication_path(a: FabricationOutputRecord) -> Seq<char> {
    "fabrication/"@ + a.artifact_id@
}

/// An artifact with a non-blank id and format becomes a handoff.
pub open spec fn fabrication_accepted(a: FabricationOutputRecord) -> bool {
    !is_blank(a.artifact_id@) && !is_blank(a.format@)
}

/// Ready is certified; the other readiness values keep their meaning.
pub open spec fn fabrication_status(r: EdaFabricationReadiness) -> EdaHandoffStatus {
    match r {
        EdaFabricationReadiness::Ready => EdaHandoffStatus::Certified,
        EdaFabricationReadiness::NeedsReview => EdaHandoffStatus::NeedsReview,
        EdaFabricationReadiness::Failed => EdaHandoffStatus::Rejected,
        EdaFabricationReadiness::Unknown => EdaHandoffStatus::Unknown,
    }
}

/// The audit events of one fabrication artifact.
pub open spec fn fabrication_events(a: FabricationOutputRecord) -> Seq<IssueEvent> {
    let p = fabrication_path(a);
    if is_blank(a.artifact_id@) {
        seq![
            IssueEvent::Rejected(
                "fabrication/<empty>/artifact_id"@,
                "fabrication artifact id is empty"@,
            ),
        ]
    } else if is_blank(a.format@) {
        seq![IssueEvent::Rejected(p + "/format"@, "fabrication artifact format is empty"@)]
    } else {
        fabrication_readiness_events(p, a.readiness) + seq![
            IssueEvent::Parsed(p, "fabrication artifact retained as hyperdrc handoff"@),
        ]
    }
}

/// The audit event a readiness value adds, if any.
pub open spec fn fabrication_readiness_events(
    p: Seq<char>,
    r: EdaFabricationReadiness,
) -> Seq<IssueEvent> {
    {
        match r {
            EdaFabricationReadiness::Ready => Seq::empty(),
            EdaFabricationReadiness::NeedsReview => seq![
                IssueEvent::Review(p, "fabrication output requires review before release"@),
            ],
            EdaFabricationReadiness::Failed => seq![
                IssueEvent::Rejected(p, "fabrication output reports failed readiness"@),
            ],
            EdaFabricationReadiness::Unknown => seq![
                IssueEvent::Unknown(p, "fabrication output readiness is unknown"@),
            ],
        }
    }
}

/// `h` is the `hyperdrc` handoff of artifact `a` of bundle `b`.
pub open spec fn fabrication_handoff_matches(
    h: DrcFabricationHandoff,
    a: FabricationOutputRecord,
    b: EdaAuthoringBundle,
) -> bool {
    &&& h.owner@ == "hyperdrc"@
    &&& h.artifact_id@ == a.artifact_id@
    &&& h.format@ == a.format@
    &&& h.process == a.process
    &&& h.readiness == a.readiness
    &&& h.status == fabrication_status(a.readiness)
    &&& evidence_is(
        h.evidence,
        b.source,
        "fabrication artifact "@ + a.artifact_id@ + " imported"@,
    )
    &&& string_views(h.unknowns@) == if a.readiness == EdaFabricationReadiness::Unknown {
        seq![fabrication_path(a) + "/readiness unknown"@]
    } else {
        Seq::empty()
    }
}

pub open spec fn fabrication_rel(b: EdaAuthoringBundle) -> spec_fn(
    DrcFabricationHandoff,
    FabricationOutputRecord,
) -> bool {
    |h: DrcFabricationHandoff, a: FabricationOutputRecord| fabrication_handoff_matches(h, a, b)
}

pub open spec fn fabrications_events(s: Seq<FabricationOutputRecord>) -> Seq<IssueEvent>
    decreases s.len(),
{
    if s.len() == 0 {
        Seq::empty()
    } else {
        fabrications_events(s.drop_last()) + fabrication_events(s.last())
    }
}

/// The artifacts that become handoffs, in order.
pub open spec fn fabrications_accepted(s: Seq<FabricationOutputRecord>) -> Seq<
    FabricationOutputRecord,
>
    decreases s.len(),
{
    if s.len() == 0 {
        Seq::empty()
    } else {
        fabrications_accepted(s.drop_last()) + if fabrication_accepted(s.last()) {
            seq![s.last()]
        } else {
            Seq::empty()
        }
    }
}

/// Imports one fabrication artifact.
fn import_fabrication_artifact(
    bundle: &EdaAuthoringBundle,
    artifact: &FabricationOutputRecord,
    handoffs: &mut Vec<DrcFabricationHandoff>,
    issues: &mut ImportIssueBuilder,
)
    requires
        old(issues).wf(),
    ensures
        final(issues).wf(),
        final(issues).source == old(issues).source,
        final(issues).log() == old(issues).log() + fabrication_events(*artifact),
        extends_by(
            final(handoffs)@,
            old(handoffs)@,
            if fabrication_accepted(*artifact) {
                seq![*artifact]
            } else {
                Seq::empty()
            },
            fabrication_rel(*bundle),
        ),
{
    proof {
        lemma_extends_refl(handoffs@, fabrication_rel(*bundle));
    }
    let path = String::from_str("fabrication/").concat(artifact.artifact_id.as_str());
    if blank(artifact.artifact_id.as_str()) {
        issues.reject(
            String::from_str("fabrication/<empty>/artifact_id"),
            String::from_str("fabrication artifact id is empty"),
        );
        return ;
    }
    if blank(artifact.format.as_str()) {
        issues.reject(
            path.clone().concat("/format"),
            String::from_str("fabrication artifact format is empty"),
        );
        return ;
    }
    let (status, unknowns) = match artifact.readiness {
        EdaFabricationReadiness::Ready => (EdaHandoffStatus::Certified, Vec::new()),
        EdaFabricationReadiness::NeedsReview => {
            issues.review(
                path.clone(),
                String::from_str("fabrication output requires review before release"),
            );
            (EdaHandoffStatus::NeedsReview, Vec::new())
        },
        EdaFabricationReadiness::Failed => {
            issues.reject(
                path.clone(),
                String::from_str("fabrication output reports failed readiness"),
            );
            (EdaHandoffStatus::Rejected, Vec::new())
        },
        EdaFabricationReadiness::Unknown => {
            issues.unknown(
                path.clone(),
                String::from_str("fabrication output readiness is unknown"),
            );
            let mut unknowns: Vec<String> = Vec::new();
            unknowns.push(path.clone().concat("/readiness unknown"));
            (EdaHandoffStatus::Unknown, unknowns)
        },
    };
    issues.parsed(
        path.clone(),
        String::from_str("fabrication artifact retained as hyperdrc handoff"),
    );
    let fact = String::from_str("fabrication artifact ").concat(
        artifact.artifact_id.as_str(),
    ).concat(" imported");
    let h = DrcFabricationHandoff {
        owner: String::from_str("hyperdrc"),
        artifact_id: artifact.artifact_id.clone(),
        format: artifact.format.clone(),
        process: artifact.process.clone(),
        readiness: artifact.readiness,
        status,
        evidence: PartQueryEvidence::from_fact(bundle.source.clone(), fact.as_str()),
        unknowns,
    };
    let ghost h0 = handoffs@;
    handoffs.push(h);
    proof {
        assert(string_views(h.unknowns@) =~= if artifact.readiness
            == EdaFabricationReadiness::Unknown {
            seq![fabrication_path(*artifact) + "/readiness unknown"@]
        } else {
            Seq::<Seq<char>>::empty()
        });
        assert(fabrication_handoff_matches(h, *artifact, *bundle));
        lemma_extends_push(h0, h, *artifact, fabrication_rel(*bundle));
        assert(issues.log() =~= old(issues).log() + fabrication_events(*artifact));
    }
}

/// Imports every fabrication artifact, in order.
pub(crate) fn import_fabrication(
    bundle: &EdaAuthoringBundle,
    handoffs: &mut Vec<DrcFabricationHandoff>,
    issues: &mut ImportIssueBuilder,
)
    requires
        old(issues).wf(),
    ensures
        final(issues).wf(),
        final(issues).source == old(issues).source,
        final(issues).log() == old(issues).log() + fabrications_events(bundle.fabrication@),
        extends_by(
            final(handoffs)@,
            old(handoffs)@,
            fabrications_accepted(bundle.fabrication@),
            fabrication_rel(*bundle),
        ),
{
    let ghost fs = bundle.fabrication@;
    let ghost h0 = handoffs@;
    let mut i: usize = 0;
    proof {
        assert(fs.take(0) =~= Seq::<FabricationOutputRecord>::empty());
        lemma_extends_refl(h0, fabrication_rel(*bundle));
    }
    while i < bundle.fabrication.len()
        invariant
            i <= fs.len(),
            fs == bundle.fabrication@,
            issues.wf(),
            issues.source == old(issues).source,
            issues.log() == old(issues).log() + fabrications_events(fs.take(i as int)),
            extends_by(
                handoffs@,
                h0,
                fabrications_accepted(fs.take(i as int)),
                fabrication_rel(*bundle),
            ),
        decreases fs.len() - i,
    {
        proof {
            assert(fs.take(i + 1).drop_last() =~= fs.take(i as int));
            assert(fs.take(i + 1).last() == fs[i as int]);
        }
        let ghost hb = handoffs@;
        import_fabrication_artifact(bundle, &bundle.fabrication[i], handoffs, issues);
        proof {
            lemma_extends_trans(
                h0,
                hb,
                handoffs@,
                fabrications_accepted(fs.take(i as int)),
                if fabrication_accepted(fs[i as int]) {
                    seq![fs[i as int]]
                } else {
                    Seq::empty()
                },
                fabrication_rel(*bundle),
            );
            assert(issues.log() =~= old(issues).log() + fabrications_events(fs.take(i + 1)));
        }
        i = i + 1;
    }
    proof {
        assert(fs.take(fs.len() as int) =~= fs);
    }
}

// ---------------------------------------------------------------------------
// Package metadata
// ---------------------------------------------------------------------------
pub open spec fn pin_path(pin: EdaPackagePin) -> Seq<char> {
    "package/pins/"@ + pin.terminal@
}

/// A pin with a non-blank, valid terminal id becomes a terminal.
pub open spec fn pin_accepted(pin: EdaPackagePin) -> bool {
    !is_blank(pin.terminal@) && pin.terminal@.len() > 0
}

/// Events and voltage range of a pin's bounds.
pub open spec fn pin_voltage(pin: EdaPackagePin) -> (
    Seq<IssueEvent>,
    Option<(Seq<char>, Seq<char>)>,
) {
    pin_voltage_outcome(pin_path(pin), opt_view(pin.voltage_min), opt_view(pin.voltage_max))
}

/// The audit events of one pin.
pub open spec fn pin_events(pin: EdaPackagePin) -> Seq<IssueEvent> {
    if is_blank(pin.terminal@) {
        seq![IssueEvent::Rejected("package/pins/<empty>"@, "pin terminal id is empty"@)]
    } else if pin.terminal@.len() == 0 {
        seq![IssueEvent::Rejected(pin_path(pin), "pin terminal id is invalid"@)]
    } else {
        pin_voltage(pin).0 + seq![
            IssueEvent::Parsed(pin_path(pin), "package pin retained as terminal metadata"@),
        ]
    }
}

/// `t` is the terminal pin `pin` becomes: its id, its name (the id when the
/// name is blank), the polarity of its function, and its voltage range.
pub open spec fn pin_terminal_matches(t: Terminal, pin: EdaPackagePin) -> bool {
    &&& t.spec_id()@ == pin.terminal@
    &&& t.spec_name() == if is_blank(pin.name@) {
        pin.terminal@
    } else {
        pin.name@
    }
    &&& t.spec_polarity() == pin_polarity(pin.function)
    &&& voltage_view(t.spec_voltage()) == pin_voltage(pin).1
}

pub open spec fn pins_events(pins: Seq<EdaPackagePin>) -> Seq<IssueEvent>
    decreases pins.len(),
{
    if pins.len() == 0 {
        Seq::empty()
    } else {
        pins_events(pins.drop_last()) + pin_events(pins.last())
    }
}

/// The pins that become terminals, in order.
pub open spec fn pins_accepted(pins: Seq<EdaPackagePin>) -> Seq<EdaPackagePin>
    decreases pins.len(),
{
    if pins.len() == 0 {
        Seq::empty()
    } else {
        pins_accepted(pins.drop_last()) + if pin_accepted(pins.last()) {
            seq![pins.last()]
        } else {
            Seq::empty()
        }
    }
}

/// The last accepted pin with terminal id `k`: the one whose terminal stays.
pub open spec fn pins_lookup(pins: Seq<EdaPackagePin>, k: Seq<char>) -> Option<EdaPackagePin>
    decreases pins.len(),
{
    if pins.len() == 0 {
        None
    } else if pin_accepted(pins.last()) && pins.last().terminal@ == k {
        Some(pins.last())
    } else {
        pins_lookup(pins.drop_last(), k)
    }
}

/// After the pins, each terminal id looks up the terminal of its last
/// accepted pin, and every other id looks up what it did before.
pub open spec fn terminals_after_pins(
    new: Seq<Terminal>,
    old: Seq<Terminal>,
    pins: Seq<EdaPackagePin>,
) -> bool {
    forall|k: Seq<char>|
        match pins_lookup(pins, k) {
            Some(pin) => #[trigger] lookup(new, k) matches Some(t) && pin_terminal_matches(t, pin),
            None => lookup(new, k) == lookup(old, k),
        }
}

pub open spec fn terminal_id_views(s: Seq<TerminalId>) -> Seq<Seq<char>> {
    s.map_values(|t: TerminalId| t@)
}

pub open spec fn pin_terminal_views(s: Seq<EdaPackagePin>) -> Seq<Seq<char>> {
    s.map_values(|p: EdaPackagePin| p.terminal@)
}

/// The electrical interface of a package: its handle with `:electrical`,
/// listing the accepted pins' terminals in order.
pub open spec fn interface_rel() -> spec_fn(Interface, EdaPackageMetadata) -> bool {
    |i: Interface, pkg: EdaPackageMetadata|
        i.spec_name() == pkg.handle@ + ":electrical"@ && i.spec_kind() == InterfaceKind::Electrical
            && terminal_id_views(i.spec_terminals()) == pin_terminal_views(pins_accepted(pkg.pins@))
}

/// `{:?}` of a fact status.
pub open spec fn fact_status_name(s: ElectricalFactStatus) -> Seq<char> {
    match s {
        ElectricalFactStatus::Exact => "Exact"@,
        ElectricalFactStatus::Certified => "Certified"@,
        ElectricalFactStatus::Conditional => "Conditional"@,
        ElectricalFactStatus::Unknown => "Unknown"@,
        ElectricalFactStatus::Conflicting => "Conflicting"@,
    }
}

/// Certified when the declared terminal count equals the number of pins
/// that became terminals; unknown otherwise.
pub open spec fn package_status(pkg: EdaPackageMetadata) -> ElectricalFactStatus {
    if pkg.terminal_count matches Some(c) && c == pins_accepted(pkg.pins@).len() {
        ElectricalFactStatus::Certified
    } else {
        ElectricalFactStatus::Unknown
    }
}

/// The audit event of the declared terminal count, if any.
pub open spec fn package_count_events(pkg: EdaPackageMetadata) -> Seq<IssueEvent> {
    match pkg.terminal_count {
        Some(c) => if c != pkg.pins@.len() {
            seq![
                IssueEvent::Review(
                    "package/terminal_count"@,
                    "declared terminal count "@ + decimal(c as nat) + " does not match "@
                        + decimal(pkg.pins@.len()) + " pin records"@,
                ),
            ]
        } else {
            Seq::empty()
        },
        None => seq![
            IssueEvent::Unknown("package/terminal_count"@, "package omitted terminal count"@),
        ],
    }
}

/// The audit events of the package metadata.
pub open spec fn package_events(b: EdaAuthoringBundle) -> Seq<IssueEvent> {
    match b.package {
        None => Seq::empty(),
        Some(pkg) => (if is_blank(pkg.name@) {
            seq![IssueEvent::Rejected("package/name"@, "package name is empty"@)]
        } else {
            Seq::empty()
        }) + (if is_blank(pkg.handle@) {
            seq![IssueEvent::Rejected("package/handle"@, "package handle is empty"@)]
        } else {
            Seq::empty()
        }) + package_count_events(pkg) + pins_events(pkg.pins@) + seq![
            IssueEvent::Parsed("package"@, "package metadata retained as hyperparts terminals"@),
        ],
    }
}

/// The assertions the package adds: its name, its declared terminal count as
/// an exact integer, and its electrical report `name:handle:status`.
pub open spec fn package_assertions(b: EdaAuthoringBundle) -> Seq<AssertionDesc> {
    match b.package {
        None => Seq::empty(),
        Some(pkg) => (if is_blank(pkg.name@) {
            Seq::empty()
        } else {
            seq![AssertionDesc::General("eda.package.name"@, ValueView::Text(pkg.name@), None)]
        }) + (match pkg.terminal_count {
            Some(c) => seq![
                AssertionDesc::General(
                    "eda.package.terminal_count"@,
                    ValueView::ExactScalar(int_text((c as i64) as int)),
                    None,
                ),
            ],
            None => Seq::empty(),
        }) + seq![
            AssertionDesc::General(
                "eda.package.electrical_report"@,
                ValueView::Text(
                    pkg.name@ + ":"@ + pkg.handle@ + ":"@ + fact_status_name(package_status(pkg)),
                ),
                None,
            ),
        ],
    }
}

/// The package aspect the package adds.
pub open spec fn package_aspects(b: EdaAuthoringBundle) -> Seq<Seq<char>> {
    match b.package {
        Some(pkg) => if is_blank(pkg.handle@) {
            Seq::empty()
        } else {
            seq![pkg.handle@]
        },
        None => Seq::empty(),
    }
}

/// The pins of the bundle's package.
pub open spec fn package_pins(b: EdaAuthoringBundle) -> Seq<EdaPackagePin> {
    match b.package {
        Some(pkg) => pkg.pins@,
        None => Seq::empty(),
    }
}

/// The electrical interfaces the package adds: one, when a pin became a terminal.
pub open spec fn package_interfaces(b: EdaAuthoringBundle) -> Seq<EdaPackageMetadata> {
    match b.package {
        Some(pkg) => if pins_accepted(pkg.pins@).len() > 0 {
            seq![pkg]
        } else {
            Seq::empty()
        },
        None => Seq::empty(),
    }
}

/// `new` is `old` after the package of `b`: assertions, aspect, terminals,
/// and interface added, the rest unchanged.
pub open spec fn package_applied(new: PartVariant, old: PartVariant, b: EdaAuthoringBundle) -> bool {
    &&& extends_by(
        new.spec_assertions(),
        old.spec_assertions(),
        package_assertions(b),
        assertion_rel(b.source),
    )
    &&& extends_by(new.spec_aspects(), old.spec_aspects(), package_aspects(b), aspect_rel())
    &&& terminals_after_pins(new.spec_terminals(), old.spec_terminals(), package_pins(b))
    &&& extends_by(
        new.spec_interfaces(),
        old.spec_interfaces(),
        package_interfaces(b),
        interface_rel(),
    )
    &&& new.spec_id() == old.spec_id()
    &&& new.spec_revision() == old.spec_revision()
    &&& new.spec_subparts() == old.spec_subparts()
    &&& new.spec_processes() == old.spec_processes()
}

/// `{:?}` of a fact status.
fn fact_status_text(s: ElectricalFactStatus) -> (r: String)
    ensures
        r@ == fact_status_name(s),
{
    match s {
        ElectricalFactStatus::Exact => String::from_str("Exact"),
        ElectricalFactStatus::Certified => String::from_str("Certified"),
        ElectricalFactStatus::Conditional => String::from_str("Conditional"),
        ElectricalFactStatus::Unknown => String::from_str("Unknown"),
        ElectricalFactStatus::Conflicting => String::from_str("Conflicting"),
    }
}

/// Imports one package pin as a terminal.
fn import_pin(
    pin: &EdaPackagePin,
    variant: &mut PartVariant,
    terminals: &mut Vec<TerminalId>,
    issues: &mut ImportIssueBuilder,
)
    requires
        old(issues).wf(),
        old(variant).wf(),
    ensures
        final(issues).wf(),
        final(issues).source == old(issues).source,
        final(issues).log() == old(issues).log() + pin_events(*pin),
        final(variant).wf(),
        pin_accepted(*pin) ==> (lookup(final(variant).spec_terminals(), pin.terminal@) matches Some(
            t,
        ) && pin_terminal_matches(t, *pin)),
        forall|k: Seq<char>|
            (k != pin.terminal@ || !pin_accepted(*pin)) ==> #[trigger] lookup(
                final(variant).spec_terminals(),
                k,
            ) == lookup(old(variant).spec_terminals(), k),
        final(variant).spec_assertions() == old(variant).spec_assertions(),
        final(variant).spec_aspects() == old(variant).spec_aspects(),
        final(variant).spec_interfaces() == old(variant).spec_interfaces(),
        final(variant).spec_id() == old(variant).spec_id(),
        final(variant).spec_revision() == old(variant).spec_revision(),
        final(variant).spec_subparts() == old(variant).spec_subparts(),
        final(variant).spec_processes() == old(variant).spec_processes(),
        terminal_id_views(final(terminals)@) == terminal_id_views(old(terminals)@) + if pin_accepted(
            *pin,
        ) {
            seq![pin.terminal@]
        } else {
            Seq::empty()
        },
{
    let pin_path = String::from_str("package/pins/").concat(pin.terminal.as_str());
    if blank(pin.terminal.as_str()) {
        issues.reject(
            String::from_str("package/pins/<empty>"),
            String::from_str("pin terminal id is empty"),
        );
        assert(terminal_id_views(terminals@) + Seq::<Seq<char>>::empty() =~= terminal_id_views(
            terminals@,
        ));
        return ;
    }
    let terminal = match TerminalId::new(pin.terminal.as_str()) {
        Ok(terminal) => terminal,
        Err(_) => {
            issues.reject(pin_path.clone(), String::from_str("pin terminal id is invalid"));
            assert(terminal_id_views(terminals@) + Seq::<Seq<char>>::empty() =~= terminal_id_views(
                terminals@,
            ));
            return ;
        },
    };
    let voltage = parse_pin_voltage(pin_path.as_str(), &pin.voltage_min, &pin.voltage_max, issues);
    let name = if blank(pin.name.as_str()) {
        pin.terminal.as_str()
    } else {
        pin.name.as_str()
    };
    let t = Terminal::new(terminal.clone(), name, polarity_from_pin_function(&pin.function), voltage);
    variant.add_terminal(t);
    let ghost tv = terminals@;
    terminals.push(terminal);
    issues.parsed(pin_path, String::from_str("package pin retained as terminal metadata"));
    proof {
        assert(terminal_id_views(terminals@) =~= terminal_id_views(tv).push(pin.terminal@));
        assert(issues.log() =~= old(issues).log() + pin_events(*pin));
    }
}

/// The assertions the package adds before its pins: name and declared count.
pub open spec fn package_head_assertions(pkg: EdaPackageMetadata) -> Seq<AssertionDesc> {
    (if is_blank(pkg.name@) {
        Seq::empty()
    } else {
        seq![AssertionDesc::General("eda.package.name"@, ValueView::Text(pkg.name@), None)]
    }) + (match pkg.terminal_count {
        Some(c) => seq![
            AssertionDesc::General(
                "eda.package.terminal_count"@,
                ValueView::ExactScalar(int_text((c as i64) as int)),
                None,
            ),
        ],
        None => Seq::<AssertionDesc>::empty(),
    })
}

/// The audit events of the package before its pins.
pub open spec fn package_head_events(pkg: EdaPackageMetadata) -> Seq<IssueEvent> {
    (if is_blank(pkg.name@) {
        seq![IssueEvent::Rejected("package/name"@, "package name is empty"@)]
    } else {
        Seq::empty()
    }) + (if is_blank(pkg.handle@) {
        seq![IssueEvent::Rejected("package/handle"@, "package handle is empty"@)]
    } else {
        Seq::empty()
    }) + package_count_events(pkg)
}

/// Records the package name, aspect, and declared terminal count.
fn import_package_head(
    source: &SourceRef,
    package: &EdaPackageMetadata,
    variant: &mut PartVariant,
    issues: &mut ImportIssueBuilder,
)
    requires
        old(issues).wf(),
    ensures
        final(issues).wf(),
        final(issues).source == old(issues).source,
        final(issues).log() == old(issues).log() + package_head_events(*package),
        variant_grows(
            *final(variant),
            *old(variant),
            package_head_assertions(*package),
            if is_blank(package.handle@) {
                Seq::empty()
            } else {
                seq![package.handle@]
            },
            *source,
        ),
{
    let ghost v0 = *variant;
    if blank(package.name.as_str()) {
        issues.reject(String::from_str("package/name"), String::from_str("package name is empty"));
    } else {
        let a = general_assertion(
            String::from_str("eda.package.name"),
            AssertionValue::Text(package.name.clone()),
            None,
            source.clone(),
        );
        variant.add_assertion(a);
    }
    if blank(package.handle.as_str()) {
        issues.reject(
            String::from_str("package/handle"),
            String::from_str("package handle is empty"),
        );
    } else {
        variant.add_aspect(PartAspect::new(package.handle.as_str(), AspectKind::Package));
    }
    match package.terminal_count {
        Some(count) => {
            let a = general_assertion(
                String::from_str("eda.package.terminal_count"),
                AssertionValue::exact_scalar(ExactValue::from_int(count as i64)),
                None,
                source.clone(),
            );
            variant.add_assertion(a);
            if count != package.pins.len() {
                let declared = string_of(decimal_chars(count as u64).as_slice());
                let listed = string_of(decimal_chars(package.pins.len() as u64).as_slice());
                issues.review(
                    String::from_str("package/terminal_count"),
                    String::from_str("declared terminal count ").concat(declared.as_str()).concat(
                        " does not match ",
                    ).concat(listed.as_str()).concat(" pin records"),
                );
            }
        },
        None => {
            issues.unknown(
                String::from_str("package/terminal_count"),
                String::from_str("package omitted terminal count"),
            );
        },
    }
    proof {
        assert(variant.spec_assertions().take(v0.spec_assertions().len() as int)
            =~= v0.spec_assertions());
        assert(variant.spec_aspects().take(v0.spec_aspects().len() as int) =~= v0.spec_aspects());
        assert(issues.log() =~= old(issues).log() + package_head_events(*package));
    }
}

/// Imports the pins of a package as terminals; returns their ids in order
/// and how many there are.
fn import_pins(
    package: &EdaPackageMetadata,
    variant: &mut PartVariant,
    issues: &mut ImportIssueBuilder,
) -> (r: (Vec<TerminalId>, usize))
    requires
        old(issues).wf(),
        old(variant).wf(),
    ensures
        final(issues).wf(),
        final(issues).source == old(issues).source,
        final(issues).log() == old(issues).log() + pins_events(package.pins@),
        final(variant).wf(),
        terminals_after_pins(
            final(variant).spec_terminals(),
            old(variant).spec_terminals(),
            package.pins@,
        ),
        final(variant).spec_assertions() == old(variant).spec_assertions(),
        final(variant).spec_aspects() == old(variant).spec_aspects(),
        final(variant).spec_interfaces() == old(variant).spec_interfaces(),
        final(variant).spec_id() == old(variant).spec_id(),
        final(variant).spec_revision() == old(variant).spec_revision(),
        final(variant).spec_subparts() == old(variant).spec_subparts(),
        final(variant).spec_processes() == old(variant).spec_processes(),
        terminal_id_views(r.0@) == pin_terminal_views(pins_accepted(package.pins@)),
        r.1 == pins_accepted(package.pins@).len(),
{
    let ghost pins = package.pins@;
    let ghost v1 = *variant;
    let ghost l1 = issues.log();
    let mut terminals: Vec<TerminalId> = Vec::new();
    let mut imported_pin_count: usize = 0;
    let mut i: usize = 0;
    proof {
        assert(pins.take(0) =~= Seq::<EdaPackagePin>::empty());
        assert(terminal_id_views(terminals@) =~= Seq::<Seq<char>>::empty());
    }
    while i < package.pins.len()
        invariant
            i <= pins.len(),
            pins == package.pins@,
            issues.wf(),
            issues.source == old(issues).source,
            issues.log() == l1 + pins_events(pins.take(i as int)),
            l1 == old(issues).log(),
            variant.wf(),
            terminals_after_pins(variant.spec_terminals(), v1.spec_terminals(), pins.take(i as int)),
            v1 == *old(variant),
            variant.spec_assertions() == v1.spec_assertions(),
            variant.spec_aspects() == v1.spec_aspects(),
            variant.spec_interfaces() == v1.spec_interfaces(),
            variant.spec_id() == v1.spec_id(),
            variant.spec_revision() == v1.spec_revision(),
            variant.spec_subparts() == v1.spec_subparts(),
            variant.spec_processes() == v1.spec_processes(),
            terminal_id_views(terminals@) == pin_terminal_views(pins_accepted(pins.take(i as int))),
            imported_pin_count == pins_accepted(pins.take(i as int)).len(),
            pins_accepted(pins.take(i as int)).len() <= i,
        decreases pins.len() - i,
    {
        let pin = &package.pins[i];
        let ghost vb = *variant;
        let ghost before = pins.take(i as int);
        proof {
            assert(pins.take(i + 1).drop_last() =~= before);
            assert(pins.take(i + 1).last() == pins[i as int]);
        }
        import_pin(pin, variant, &mut terminals, issues);
        if !blank(pin.terminal.as_str()) && pin.terminal.unicode_len() > 0 {
            imported_pin_count = imported_pin_count + 1;
        }
        proof {
            let now = pins.take(i + 1);
            assert forall|k: Seq<char>|
                match pins_lookup(now, k) {
                    Some(p) => #[trigger] lookup(variant.spec_terminals(), k) matches Some(t)
                        && pin_terminal_matches(t, p),
                    None => lookup(variant.spec_terminals(), k) == lookup(v1.spec_terminals(), k),
                } by {
                if pin_accepted(*pin) && k == pin.terminal@ {
                    assert(pins_lookup(now, k) == Some(*pin));
                } else {
                    assert(pins_lookup(now, k) == pins_lookup(before, k));
                    assert(lookup(variant.spec_terminals(), k) == lookup(vb.spec_terminals(), k));
                }
            }
            assert(pin_terminal_views(pins_accepted(now)) =~= pin_terminal_views(
                pins_accepted(before),
            ) + if pin_accepted(*pin) {
                seq![pin.terminal@]
            } else {
                Seq::empty()
            });
            assert(issues.log() =~= l1 + pins_events(now));
        }
        i = i + 1;
    }
    proof {
        assert(pins.take(pins.len() as int) =~= pins);
    }
    (terminals, imported_pin_count)
}

/// Imports the package metadata: name, aspect, terminal count, pins as
/// terminals, the electrical interface, and the electrical report.
pub(crate) fn import_package(
    bundle: &EdaAuthoringBundle,
    variant: &mut PartVariant,
    issues: &mut ImportIssueBuilder,
)
    requires
        old(issues).wf(),
        old(variant).wf(),
    ensures
        final(issues).wf(),
        final(issues).source == old(issues).source,
        final(issues).log() == old(issues).log() + package_events(*bundle),
        final(variant).wf(),
        package_applied(*final(variant), *old(variant), *bundle),
{
    proof {
        lemma_extends_refl(variant.spec_assertions(), assertion_rel(bundle.source));
        lemma_extends_refl(variant.spec_aspects(), aspect_rel());
        lemma_extends_refl(variant.spec_interfaces(), interface_rel());
    }
    let package = match &bundle.package {
        Some(p) => p,
        None => {
            assert(issues.log() =~= old(issues).log() + package_events(*bundle));
            return ;
        },
    };
    let ghost v0 = *variant;
    import_package_head(&bundle.source, package, variant, issues);
    let ghost v1 = *variant;
    let (terminals, imported_pin_count) = import_pins(package, variant, issues);
    let ghost v2 = *variant;
    proof {
        assert(terminal_id_views(terminals@).len() == terminals@.len());
        assert(pin_terminal_views(pins_accepted(package.pins@)).len() == pins_accepted(
            package.pins@,
        ).len());
    }
    if terminals.len() != 0 {
        let iface = Interface::new(
            package.handle.clone().concat(":electrical").as_str(),
            InterfaceKind::Electrical,
            terminals,
        );
        variant.add_interface(iface);
        proof {
            lemma_extends_push(v2.spec_interfaces(), iface, *package, interface_rel());
        }
    } else {
        proof {
            assert(pin_terminal_views(pins_accepted(package.pins@)).len() == 0);
            lemma_extends_refl(v2.spec_interfaces(), interface_rel());
        }
    }
    let status = match package.terminal_count {
        Some(count) => if count == imported_pin_count {
            ElectricalFactStatus::Certified
        } else {
            ElectricalFactStatus::Unknown
        },
        None => ElectricalFactStatus::Unknown,
    };
    let report = package.name.clone().concat(":").concat(package.handle.as_str()).concat(
        ":",
    ).concat(fact_status_text(status).as_str());
    let ghost v3 = *variant;
    let a = general_assertion(
        String::from_str("eda.package.electrical_report"),
        AssertionValue::Text(report),
        None,
        bundle.source.clone(),
    );
    variant.add_assertion(a);
    issues.parsed(
        String::from_str("package"),
        String::from_str("package metadata retained as hyperparts terminals"),
    );
    proof {
        let last = AssertionDesc::General(
            "eda.package.electrical_report"@,
            ValueView::Text(
                package.name@ + ":"@ + package.handle@ + ":"@ + fact_status_name(
                    package_status(*package),
                ),
            ),
            None,
        );
        assert(status == package_status(*package));
        lemma_extends_push(v3.spec_assertions(), a, last, assertion_rel(bundle.source));
        lemma_extends_trans(
            v0.spec_assertions(),
            v1.spec_assertions(),
            variant.spec_assertions(),
            package_head_assertions(*package),
            seq![last],
            assertion_rel(bundle.source),
        );
        assert(package_head_assertions(*package) + seq![last] =~= package_assertions(*bundle));
        assert(issues.log() =~= old(issues).log() + package_events(*bundle));
    }
}

// ---------------------------------------------------------------------------
// Every refused record is reported
// ---------------------------------------------------------------------------
/// Each circuit record that does not become a handoff leaves a rejection.
pub proof fn lemma_refused_circuits_rejected(rs: Seq<CircuitJsonSourceRecord>)
    ensures
        rejected_of(circuits_events(rs)).len() + circuits_accepted(rs).len() >= rs.len(),
    decreases rs.len(),
{
    if rs.len() > 0 {
        lemma_refused_circuits_rejected(rs.drop_last());
        lemma_buckets_concat(circuits_events(rs.drop_last()), circuit_record_events(rs.last()));
        if !circuit_record_accepted(rs.last()) {
            assert(rejected_of(circuit_record_events(rs.last())).len() == 1) by {
                let e = circuit_record_events(rs.last());
                assert(e.drop_last() =~= Seq::<IssueEvent>::empty());
                reveal_with_fuel(rejected_of, 2);
            }
        }
    }
}

/// Each model reference that does not become a handoff leaves a rejection.
pub proof fn lemma_refused_models_rejected(ms: Seq<GeneratedModelReference>)
    ensures
        rejected_of(models_events(ms)).len() + models_accepted(ms).len() >= ms.len(),
    decreases ms.len(),
{
    if ms.len() > 0 {
        lemma_refused_models_rejected(ms.drop_last());
        lemma_buckets_concat(models_events(ms.drop_last()), model_events(ms.last()));
        if !model_accepted(ms.last()) {
            assert(rejected_of(model_events(ms.last())).len() == 1) by {
                let e = model_events(ms.last());
                assert(e.drop_last() =~= Seq::<IssueEvent>::empty());
                reveal_with_fuel(rejected_of, 2);
            }
        }
    }
}

/// Each route that does not become a handoff leaves a rejection.
pub proof fn lemma_refused_routes_rejected(rs: Seq<AutorouterOutputRecord>)
    ensures
        rejected_of(routes_events(rs)).len() + routes_accepted(rs).len() >= rs.len(),
    decreases rs.len(),
{
    if rs.len() > 0 {
        lemma_refused_routes_rejected(rs.drop_last());
        lemma_buckets_concat(routes_events(rs.drop_last()), route_events(rs.last()));
        if !route_accepted(rs.last()) {
            assert(rejected_of(route_events(rs.last())).len() == 1) by {
                let e = route_events(rs.last());
                assert(e.drop_last() =~= Seq::<IssueEvent>::empty());
                reveal_with_fuel(rejected_of, 2);
            }
        }
    }
}

/// Each fabrication artifact that does not become a handoff leaves a rejection.
pub proof fn lemma_refused_fabrications_rejected(fs: Seq<FabricationOutputRecord>)
    ensures
        rejected_of(fabrications_events(fs)).len() + fabrications_accepted(fs).len() >= fs.len(),
    decreases fs.len(),
{
    if fs.len() > 0 {
        lemma_refused_fabrications_rejected(fs.drop_last());
        lemma_buckets_concat(fabrications_events(fs.drop_last()), fabrication_events(fs.last()));
        if !fabrication_accepted(fs.last()) {
            assert(rejected_of(fabrication_events(fs.last())).len() == 1) by {
                let e = fabrication_events(fs.last());
                assert(e.drop_last() =~= Seq::<IssueEvent>::empty());
                reveal_with_fuel(rejected_of, 2);
            }
        }
    }
}


// ---------------------------------------------------------------------------
// Only accepted records parse
// ---------------------------------------------------------------------------
/// Circuit records parse nothing unless one of them becomes a handoff.
pub proof fn lemma_circuits_parse_only_when_accepted(rs: Seq<CircuitJsonSourceRecord>)
    ensures
        circuits_accepted(rs).len() == 0 ==> parsed_of(circuits_events(rs)).len() == 0,
    decreases rs.len(),
{
    if rs.len() > 0 {
        lemma_circuits_parse_only_when_accepted(rs.drop_last());
        lemma_buckets_concat(circuits_events(rs.drop_last()), circuit_record_events(rs.last()));
        if !circuit_record_accepted(rs.last()) {
            let e = circuit_record_events(rs.last());
            assert(e.drop_last() =~= Seq::<IssueEvent>::empty());
            reveal_with_fuel(parsed_of, 2);
        }
    }
}

/// Model references parse nothing unless one of them becomes a handoff.
pub proof fn lemma_models_parse_only_when_accepted(ms: Seq<GeneratedModelReference>)
    ensures
        models_accepted(ms).len() == 0 ==> parsed_of(models_events(ms)).len() == 0,
    decreases ms.len(),
{
    if ms.len() > 0 {
        lemma_models_parse_only_when_accepted(ms.drop_last());
        lemma_buckets_concat(models_events(ms.drop_last()), model_events(ms.last()));
        if !model_accepted(ms.last()) {
            let e = model_events(ms.last());
            assert(e.drop_last() =~= Seq::<IssueEvent>::empty());
            reveal_with_fuel(parsed_of, 2);
        }
    }
}

/// Routes parse nothing unless one of them becomes a handoff.
pub proof fn lemma_routes_parse_only_when_accepted(rs: Seq<AutorouterOutputRecord>)
    ensures
        routes_accepted(rs).len() == 0 ==> parsed_of(routes_events(rs)).len() == 0,
    decreases rs.len(),
{
    if rs.len() > 0 {
        lemma_routes_parse_only_when_accepted(rs.drop_last());
        lemma_buckets_concat(routes_events(rs.drop_last()), route_events(rs.last()));
        if !route_accepted(rs.last()) {
            let e = route_events(rs.last());
            assert(e.drop_last() =~= Seq::<IssueEvent>::empty());
            reveal_with_fuel(parsed_of, 2);
        }
    }
}

/// Fabrication artifacts parse nothing unless one of them becomes a handoff.
pub proof fn lemma_fabrications_parse_only_when_accepted(fs: Seq<FabricationOutputRecord>)
    ensures
        fabrications_accepted(fs).len() == 0 ==> parsed_of(fabrications_events(fs)).len() == 0,
    decreases fs.len(),
{
    if fs.len() > 0 {
        lemma_fabrications_parse_only_when_accepted(fs.drop_last());
        lemma_buckets_concat(fabrications_events(fs.drop_last()), fabrication_events(fs.last()));
        if !fabrication_accepted(fs.last()) {
            let e = fabrication_events(fs.last());
            assert(e.drop_last() =~= Seq::<IssueEvent>::empty());
            reveal_with_fuel(parsed_of, 2);
        }
    }
}


/// A declared terminal count that differs from the pin records is a review
/// entry naming both counts, never an unknown.
pub proof fn lemma_count_mismatch_is_review(pkg: EdaPackageMetadata)
    requires
        pkg.terminal_count matches Some(n) && n != pkg.pins@.len(),
    ensures
        package_count_events(pkg) == seq![
            IssueEvent::Review(
                "package/terminal_count"@,
                "declared terminal count "@ + decimal(pkg.terminal_count.unwrap() as nat)
                    + " does not match "@ + decimal(pkg.pins@.len()) + " pin records"@,
            ),
        ],
        unknown_count(package_count_events(pkg)) == 0,
        review_of(package_count_events(pkg)).len() == 1,
{
    let e = package_count_events(pkg);
    assert(e.drop_last() =~= Seq::<IssueEvent>::empty());
    reveal_with_fuel(unknown_count, 2);
    reveal_with_fuel(review_of, 2);
}


/// A route handoff is `Exact` only when the router declared exact output and
/// the handoff carries both a geometry handle and an exact grid; a route
/// whose grid is omitted is never exact (and, if it was declared exact, is
/// unknown). Conversely a route declared exact with a non-blank geometry
/// handle and a grid that reads as an exact value is handed off as exact.
pub proof fn lemma_exact_route_needs_grid(
    h: RouteGeometryHandoff,
    r: AutorouterOutputRecord,
    b: EdaAuthoringBundle,
)
    requires
        route_handoff_matches(h, r, b),
    ensures
        h.status == EdaHandoffStatus::Exact ==> {
            &&& r.status == EdaRouteStatus::Exact
            &&& r.geometry_handle is Some
            &&& r.exact_grid is Some
            &&& h.geometry is Some
            &&& h.exact_grid is Some
        },
        r.exact_grid is None ==> h.status != EdaHandoffStatus::Exact,
        r.status == EdaRouteStatus::Exact && r.exact_grid is None ==> h.status
            == EdaHandoffStatus::Unknown,
        (r.status == EdaRouteStatus::Exact && (r.geometry_handle matches Some(g) && !is_blank(g@))
            && (r.exact_grid matches Some(x) && exact_field_outcome(Some(x@)) is Exact)) ==> h.status
            == EdaHandoffStatus::Exact,
{
}


/// The other route outcomes: a route declared certified with a non-blank
/// geometry handle is handed off as certified and without one as unknown; a
/// lossy route always needs review; a missing route is unknown.
pub proof fn lemma_route_status_cases(
    h: RouteGeometryHandoff,
    r: AutorouterOutputRecord,
    b: EdaAuthoringBundle,
)
    requires
        route_handoff_matches(h, r, b),
    ensures
        r.status == EdaRouteStatus::Certified && (r.geometry_handle matches Some(g) && !is_blank(
            g@,
        )) ==> h.status == EdaHandoffStatus::Certified,
        r.status == EdaRouteStatus::Certified && !(r.geometry_handle matches Some(g) && !is_blank(
            g@,
        )) ==> h.status == EdaHandoffStatus::Unknown,
        r.status == EdaRouteStatus::Lossy ==> h.status == EdaHandoffStatus::NeedsReview,
        r.status == EdaRouteStatus::Missing ==> h.status == EdaHandoffStatus::Unknown,
        r.status == EdaRouteStatus::Exact ==> (h.status == EdaHandoffStatus::Exact || h.status
            == EdaHandoffStatus::Unknown),
{
}

/// A circuit handoff is unknown exactly when it lists unknowns; otherwise it
/// is exact when at least one exact parameter came through and needs review
/// when none did. A record without nets is unknown, and one that declares no
/// exact fields at all is never exact.
pub proof fn lemma_circuit_status_cases(
    h: CircuitResidualFactHandoff,
    r: CircuitJsonSourceRecord,
    b: EdaAuthoringBundle,
)
    requires
        circuit_handoff_matches(h, r, b),
    ensures
        h.status == EdaHandoffStatus::Unknown <==> h.unknowns@.len() > 0,
        h.status == EdaHandoffStatus::Exact <==> h.unknowns@.len() == 0
            && h.exact_parameters@.len() > 0,
        h.status == EdaHandoffStatus::NeedsReview <==> h.unknowns@.len() == 0
            && h.exact_parameters@.len() == 0,
        r.nets@.len() == 0 ==> h.status == EdaHandoffStatus::Unknown,
        r.exact_fields@.len() == 0 ==> h.status != EdaHandoffStatus::Exact,
        r.exact_fields@.len() == 0 && r.nets@.len() > 0 ==> h.status
            == EdaHandoffStatus::NeedsReview,
{
    assert(string_views(h.unknowns@).len() == h.unknowns@.len());
    assert(param_views(h.exact_parameters@).len() == h.exact_parameters@.len());
    if r.exact_fields@.len() == 0 {
        assert(fields_params(r.exact_fields@) =~= Seq::empty());
        assert(fields_unknowns(record_path(r), r.exact_fields@) =~= Seq::empty());
    }
}

/// A fabrication handoff is certified exactly when the artifact is ready;
/// it needs review, is rejected or is unknown exactly when the artifact
/// needs review, failed or has unknown readiness.
pub proof fn lemma_fabrication_status_cases(
    h: DrcFabricationHandoff,
    a: FabricationOutputRecord,
    b: EdaAuthoringBundle,
)
    requires
        fabrication_handoff_matches(h, a, b),
    ensures
        h.status == EdaHandoffStatus::Certified <==> a.readiness == EdaFabricationReadiness::Ready,
        h.status == EdaHandoffStatus::NeedsReview <==> a.readiness
            == EdaFabricationReadiness::NeedsReview,
        h.status == EdaHandoffStatus::Rejected <==> a.readiness == EdaFabricationReadiness::Failed,
        h.status == EdaHandoffStatus::Unknown <==> a.readiness == EdaFabricationReadiness::Unknown,
{
}

} // verus!
