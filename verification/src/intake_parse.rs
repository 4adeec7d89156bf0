//! Field-level parsing for the EDA intake pass: exact numeric tokens, exact
//! fields that may be omitted, footprint expressions, and pin voltage ranges.
//!
//! Each parser appends its decisions to the import audit. The specs below say,
//! over the characters of the source text, which events are appended and what
//! is returned; whether `hyperreal` accepts a token is the one outside decision.
use vstd::prelude::*;

use crate::assertion::AssertionValue;
use crate::eda_intake::EdaExactField;
use crate::electronics::PinFunction;
use crate::exact::{real_parses, strict_comparison, Comparison, ExactValue};
use crate::intake_log::{ImportIssueBuilder, IssueEvent};
use crate::interface::{ElectricalPolarity, VoltageEnvelope};
use crate::text::{
    blank, chars_eq_ignore_ascii_case, chars_of, eq_ignore_ascii_case, find_char, is_blank,
    lemma_first_index_of, split_all, split_all_chars, split_once, split_once_chars, string_of,
    trim, trim_chars,
};

verus! {

/// The text of an optional string.
pub open spec fn opt_view(o: Option<String>) -> Option<Seq<char>> {
    match o {
        Some(s) => Some(s@),
        None => None,
    }
}

/// What an assertion value holds, with texts by their characters.
pub enum ValueView {
    /// Exact scalar spelled by the text.
    ExactScalar(Seq<char>),
    /// Exact closed interval.
    ExactInterval(Seq<char>, Seq<char>),
    /// Free text.
    Text(Seq<char>),
    /// Lossy text.
    Lossy(Seq<char>),
    /// Explicit unknown.
    Unknown,
}

/// The view of an assertion value.
pub open spec fn value_view(v: AssertionValue) -> ValueView {
    match v {
        AssertionValue::ExactScalar(b) => ValueView::ExactScalar((*b)@),
        AssertionValue::ExactInterval { min, max } => ValueView::ExactInterval((*min)@, (*max)@),
        AssertionValue::Text(s) => ValueView::Text(s@),
        AssertionValue::Lossy(s) => ValueView::Lossy(s@),
        AssertionValue::Unknown => ValueView::Unknown,
    }
}

/// A trimmed numeric token that is not a float spelling (`nan`, `inf`,
/// `infinity`, in any ASCII case) and has no digit separator `_`.
pub open spec fn exact_token_admissible(t: Seq<char>) -> bool {
    &&& !eq_ignore_ascii_case(t, "nan"@)
    &&& !eq_ignore_ascii_case(t, "inf"@)
    &&& !eq_ignore_ascii_case(t, "infinity"@)
    &&& !t.contains('_')
}

/// The exact spelling a numeric text yields: its trimmed form, when that is
/// admissible and `hyperreal` parses it.
pub open spec fn exact_value_outcome(value: Seq<char>) -> Option<Seq<char>> {
    let t = trim(value);
    if exact_token_admissible(t) && real_parses(t) {
        Some(t)
    } else {
        None
    }
}

/// The audit event for parsing `value` at `path`.
pub open spec fn exact_value_events(path: Seq<char>, value: Seq<char>) -> Seq<IssueEvent> {
    let t = trim(value);
    if !exact_token_admissible(t) {
        seq![
            IssueEvent::Rejected(
                path,
                "numeric field is not an exact decimal/rational token"@,
            ),
        ]
    } else if real_parses(t) {
        seq![IssueEvent::Parsed(path, "numeric field parsed as exact Real"@)]
    } else {
        seq![IssueEvent::Rejected(path, "numeric field could not be parsed as exact Real"@)]
    }
}

/// Outcome of an exact field, by the characters of the exact spelling.
pub enum FieldOutcome {
    /// The field holds this exact spelling.
    Exact(Seq<char>),
    /// The field was omitted or blank.
    Unknown,
    /// The field's text was refused.
    Rejected,
}

/// What an exact field whose source text is `value` yields.
pub open spec fn exact_field_outcome(value: Option<Seq<char>>) -> FieldOutcome {
    match value {
        None => FieldOutcome::Unknown,
        Some(v) => if is_blank(v) {
            FieldOutcome::Unknown
        } else {
            match exact_value_outcome(v) {
                Some(t) => FieldOutcome::Exact(t),
                None => FieldOutcome::Rejected,
            }
        },
    }
}

/// The audit events for an exact field at `path`.
pub open spec fn exact_field_events(path: Seq<char>, value: Option<Seq<char>>) -> Seq<IssueEvent> {
    match value {
        None => seq![IssueEvent::Unknown(path, "exact field omitted by source"@)],
        Some(v) => if is_blank(v) {
            seq![IssueEvent::Unknown(path, "exact field was present but empty"@)]
        } else {
            exact_value_events(path, v)
        },
    }
}

/// Parsed exact field.
pub(crate) enum ParsedExactField {
    Exact(ExactValue),
    Unknown,
    Rejected,
}

pub(crate) open spec fn parsed_view(p: ParsedExactField) -> FieldOutcome {
    match p {
        ParsedExactField::Exact(v) => FieldOutcome::Exact(v@),
        ParsedExactField::Unknown => FieldOutcome::Unknown,
        ParsedExactField::Rejected => FieldOutcome::Rejected,
    }
}

/// Parses a numeric text into an exact value, recording the decision at `field_path`.
pub(crate) fn parse_exact_value(
    field_path: &str,
    value: &str,
    issues: &mut ImportIssueBuilder,
) -> (r: Option<ExactValue>)
    requires
        old(issues).wf(),
    ensures
        final(issues).wf(),
        final(issues).source == old(issues).source,
        final(issues).log() == old(issues).log() + exact_value_events(field_path@, value@),
        match exact_value_outcome(value@) {
            Some(t) => r matches Some(v) && v@ == t,
            None => r is None,
        },
{
    let trimmed = trim_chars(chars_of(value).as_slice());
    let nan = chars_of("nan");
    let inf = chars_of("inf");
    let infinity = chars_of("infinity");
    let separator = find_char(trimmed.as_slice(), '_');
    proof {
        lemma_first_index_of(trimmed@, '_');
        match separator {
            Some(i) => assert(trimmed@[i as int] == '_'),
            None => {},
        }
    }
    if chars_eq_ignore_ascii_case(trimmed.as_slice(), nan.as_slice())
        || chars_eq_ignore_ascii_case(trimmed.as_slice(), inf.as_slice())
        || chars_eq_ignore_ascii_case(trimmed.as_slice(), infinity.as_slice())
        || separator.is_some() {
        issues.reject(
            String::from_str(field_path),
            String::from_str("numeric field is not an exact decimal/rational token"),
        );
        return None;
    }
    let text = string_of(trimmed.as_slice());
    match ExactValue::parse(text.as_str()) {
        Some(v) => {
            issues.parsed(
                String::from_str(field_path),
                String::from_str("numeric field parsed as exact Real"),
            );
            Some(v)
        },
        None => {
            issues.reject(
                String::from_str(field_path),
                String::from_str("numeric field could not be parsed as exact Real"),
            );
            None
        },
    }
}

/// Parses an exact field that the source may have omitted.
pub(crate) fn parse_exact_field(
    field_path: &str,
    field: &EdaExactField,
    issues: &mut ImportIssueBuilder,
) -> (r: ParsedExactField)
    requires
        old(issues).wf(),
    ensures
        final(issues).wf(),
        final(issues).source == old(issues).source,
        final(issues).log() == old(issues).log() + exact_field_events(
            field_path@,
            opt_view(field.value),
        ),
        parsed_view(r) == exact_field_outcome(opt_view(field.value)),
{
    match &field.value {
        None => {
            issues.unknown(
                String::from_str(field_path),
                String::from_str("exact field omitted by source"),
            );
            ParsedExactField::Unknown
        },
        Some(value) => {
            if blank(value.as_str()) {
                issues.unknown(
                    String::from_str(field_path),
                    String::from_str("exact field was present but empty"),
                );
                return ParsedExactField::Unknown;
            }
            match parse_exact_value(field_path, value.as_str(), issues) {
                Some(v) => ParsedExactField::Exact(v),
                None => ParsedExactField::Rejected,
            }
        },
    }
}

/// A character that may start a numeric footprint value (`is_ascii_digit` or
/// one of `+ - .`).
pub open spec fn numeric_start(c: char) -> bool {
    ('0' <= c && c <= '9') || c == '+' || c == '-' || c == '.'
}

/// A character of a numeric prefix: a numeric start or `/`.
pub open spec fn numeric_char(c: char) -> bool {
    numeric_start(c) || c == '/'
}

/// The value starts like a number.
pub open spec fn starts_like_number(s: Seq<char>) -> bool {
    s.len() > 0 && numeric_start(s[0])
}

/// Length of the longest prefix of numeric characters.
pub open spec fn numeric_prefix_len(s: Seq<char>) -> nat
    decreases s.len(),
{
    if s.len() > 0 && numeric_char(s[0]) {
        1 + numeric_prefix_len(s.drop_first())
    } else {
        0
    }
}

/// Splits a value into its numeric prefix and its trimmed unit, `None` when
/// the unit is empty.
pub open spec fn split_number_unit(s: Seq<char>) -> (Seq<char>, Option<Seq<char>>) {
    let p = numeric_prefix_len(s) as int;
    let unit = trim(s.skip(p));
    (s.take(p), if unit.len() == 0 {
        None
    } else {
        Some(unit)
    })
}

/// Facts that pin down `numeric_prefix_len`.
pub proof fn lemma_numeric_prefix_len(s: Seq<char>)
    ensures
        numeric_prefix_len(s) <= s.len(),
        forall|j: int| 0 <= j < numeric_prefix_len(s) ==> numeric_char(#[trigger] s[j]),
        numeric_prefix_len(s) < s.len() ==> !numeric_char(s[numeric_prefix_len(s) as int]),
    decreases s.len(),
{
    if s.len() > 0 && numeric_char(s[0]) {
        lemma_numeric_prefix_len(s.drop_first());
        assert forall|j: int| 0 <= j < numeric_prefix_len(s) implies numeric_char(#[trigger] s[j]) by {
            if j > 0 {
                assert(s[j] == s.drop_first()[j - 1]);
            }
        }
    }
}

fn is_numeric_start(c: char) -> (b: bool)
    ensures
        b == numeric_start(c),
{
    ('0' <= c && c <= '9') || c == '+' || c == '-' || c == '.'
}

/// Whether a footprint value starts like a number.
fn value_starts_like_number(value: &[char]) -> (b: bool)
    ensures
        b == starts_like_number(value@),
{
    value.len() > 0 && is_numeric_start(value[0])
}

/// Splits a footprint value into its numeric prefix and trimmed unit.
fn split_number_and_unit(value: &[char]) -> (r: (Vec<char>, Option<String>))
    ensures
        r.0@ == split_number_unit(value@).0,
        opt_view(r.1) == split_number_unit(value@).1,
{
    let mut end: usize = 0;
    while end < value.len() && (is_numeric_start(value[end]) || value[end] == '/')
        invariant
            end <= value.len(),
            forall|j: int| 0 <= j < end ==> numeric_char(#[trigger] value@[j]),
        decreases value.len() - end,
    {
        end = end + 1;
    }
    proof {
        lemma_numeric_prefix_len(value@);
        if numeric_prefix_len(value@) < end {
            assert(numeric_char(value@[numeric_prefix_len(value@) as int]));
        }
    }
    assert(end == numeric_prefix_len(value@));
    let mut number: Vec<char> = Vec::new();
    let mut rest: Vec<char> = Vec::new();
    let mut k: usize = 0;
    while k < value.len()
        invariant
            end <= value.len(),
            k <= value.len(),
            number@ == value@.take(if k < end { k as int } else { end as int }),
            rest@ == value@.subrange(end as int, if k < end { end as int } else { k as int }),
        decreases value.len() - k,
    {
        if k < end {
            number.push(value[k]);
        } else {
            rest.push(value[k]);
        }
        k = k + 1;
        assert(number@ =~= value@.take(if k < end { k as int } else { end as int }));
        assert(rest@ =~= value@.subrange(end as int, if k < end { end as int } else { k as int }));
    }
    assert(rest@ =~= value@.skip(end as int));
    let unit = trim_chars(rest.as_slice());
    if unit.len() == 0 {
        (number, None)
    } else {
        (number, Some(string_of(unit.as_slice())))
    }
}

/// One footprint parameter, by characters.
pub struct ParamDesc {
    /// Trimmed key.
    pub key: Seq<char>,
    /// Parsed value.
    pub value: ValueView,
    /// Unit of a numeric value.
    pub unit: Option<Seq<char>>,
}

/// What one `key=value` token of a footprint expression does.
pub enum TokenStep {
    /// Blank tokens are skipped.
    Skip,
    /// The token is refused, after these events; parsing stops.
    Fail(Seq<IssueEvent>),
    /// The token becomes this parameter, after these events.
    Keep(Seq<IssueEvent>, ParamDesc),
}

/// The step a footprint token takes.
pub open spec fn token_step(token: Seq<char>) -> TokenStep {
    if is_blank(token) {
        TokenStep::Skip
    } else {
        match split_once(token, '=') {
            None => TokenStep::Fail(
                seq![
                    IssueEvent::Rejected(
                        "footprint/"@ + token,
                        "footprint parameter must be key=value"@,
                    ),
                ],
            ),
            Some((k, v)) => {
                let key = trim(k);
                let value = trim(v);
                if key.len() == 0 || value.len() == 0 {
                    TokenStep::Fail(
                        seq![
                            IssueEvent::Rejected(
                                "footprint/"@ + token,
                                "footprint parameter key and value must be non-empty"@,
                            ),
                        ],
                    )
                } else if starts_like_number(value) {
                    let number = split_number_unit(value).0;
                    let unit = split_number_unit(value).1;
                    let path = "footprint/"@ + key;
                    if number.len() == 0 {
                        TokenStep::Fail(
                            seq![
                                IssueEvent::Rejected(
                                    path,
                                    "numeric footprint parameter has no numeric prefix"@,
                                ),
                            ],
                        )
                    } else {
                        let events = exact_field_events(path, Some(number));
                        match exact_field_outcome(Some(number)) {
                            FieldOutcome::Exact(t) => TokenStep::Keep(
                                events,
                                ParamDesc { key, value: ValueView::ExactScalar(t), unit },
                            ),
                            _ => TokenStep::Fail(events),
                        }
                    }
                } else {
                    TokenStep::Keep(
                        seq![
                            IssueEvent::Parsed(
                                "footprint/"@ + key,
                                "text footprint parameter retained verbatim"@,
                            ),
                        ],
                        ParamDesc { key, value: ValueView::Text(value), unit: None },
                    )
                }
            },
        }
    }
}

/// Events and parameters after the footprint tokens, in order; the
/// parameters are `None` once a token has failed.
pub open spec fn tokens_outcome(tokens: Seq<Seq<char>>) -> (Seq<IssueEvent>, Option<Seq<ParamDesc>>)
    decreases tokens.len(),
{
    if tokens.len() == 0 {
        (Seq::empty(), Some(Seq::empty()))
    } else {
        let prev = tokens_outcome(tokens.drop_last());
        match prev.1 {
            None => prev,
            Some(ps) => match token_step(tokens.last()) {
                TokenStep::Skip => prev,
                TokenStep::Fail(e) => (prev.0 + e, None),
                TokenStep::Keep(e, p) => (prev.0 + e, Some(ps.push(p))),
            },
        }
    }
}

/// Once a token has failed, later tokens change nothing.
pub proof fn lemma_tokens_stop(toks: Seq<Seq<char>>, k: int)
    requires
        0 <= k <= toks.len(),
        tokens_outcome(toks.take(k)).1 is None,
    ensures
        tokens_outcome(toks) == tokens_outcome(toks.take(k)),
    decreases toks.len(),
{
    if toks.len() > k {
        assert(toks.drop_last().take(k) =~= toks.take(k));
        lemma_tokens_stop(toks.drop_last(), k);
    } else {
        assert(toks.take(k) =~= toks);
    }
}

/// The family text and parameter text of a footprint expression.
pub open spec fn footprint_head(expression: Seq<char>) -> (Seq<char>, Seq<char>) {
    let t = trim(expression);
    match split_once(t, ':') {
        Some((f, rest)) => (trim(f), rest),
        None => (trim(t), Seq::empty()),
    }
}

/// Events and result of parsing a footprint expression: the family and its
/// parameters, or `None` when a part is refused.
pub open spec fn footprint_outcome(expression: Seq<char>) -> (
    Seq<IssueEvent>,
    Option<(Seq<char>, Seq<ParamDesc>)>,
) {
    let family = footprint_head(expression).0;
    let rest = footprint_head(expression).1;
    if family.len() == 0 {
        (seq![IssueEvent::Rejected("footprint/family"@, "footprint family is empty"@)], None)
    } else {
        let o = tokens_outcome(split_all(rest, ','));
        (
            o.0,
            match o.1 {
                Some(ps) => Some((family, ps)),
                None => None,
            },
        )
    }
}

/// Footprint parameter parsed from an expression.
pub(crate) struct FootprintParameter {
    pub(crate) key: String,
    pub(crate) value: AssertionValue,
    pub(crate) unit: Option<String>,
}

pub(crate) open spec fn param_matches(p: FootprintParameter, d: ParamDesc) -> bool {
    &&& p.key@ == d.key
    &&& value_view(p.value) == d.value
    &&& opt_view(p.unit) == d.unit
}

pub(crate) open spec fn params_match(ps: Seq<FootprintParameter>, ds: Seq<ParamDesc>) -> bool {
    &&& ps.len() == ds.len()
    &&& forall|i: int| 0 <= i < ps.len() ==> param_matches(#[trigger] ps[i], ds[i])
}

fn chars_blank(s: &[char]) -> (b: bool)
    ensures
        b == is_blank(s@),
{
    let mut i: usize = 0;
    while i < s.len()
        invariant
            i <= s.len(),
            forall|j: int| 0 <= j < i ==> crate::text::is_space(#[trigger] s@[j]),
        decreases s.len() - i,
    {
        if !crate::text::char_is_space(s[i]) {
            return false;
        }
        i = i + 1;
    }
    true
}

/// Concatenates a literal prefix and characters.
fn prefixed(prefix: &str, rest: &[char]) -> (s: String)
    ensures
        s@ == prefix@ + rest@,
{
    let tail = string_of(rest);
    String::from_str(prefix).concat(tail.as_str())
}

/// Parses `family:key=value,...` into the family and its parameters.
pub(crate) fn parse_footprint_expression(
    expression: &str,
    issues: &mut ImportIssueBuilder,
) -> (r: Option<(String, Vec<FootprintParameter>)>)
    requires
        old(issues).wf(),
    ensures
        final(issues).wf(),
        final(issues).source == old(issues).source,
        final(issues).log() == old(issues).log() + footprint_outcome(expression@).0,
        match footprint_outcome(expression@).1 {
            Some((family, ps)) => r matches Some((f, v)) && f@ == family && params_match(v@, ps),
            None => r is None,
        },
{
    let trimmed = trim_chars(chars_of(expression).as_slice());
    let (family_raw, rest) = match split_once_chars(trimmed.as_slice(), ':') {
        Some((f, rest)) => (f, rest),
        None => (trimmed, Vec::new()),
    };
    let family = trim_chars(family_raw.as_slice());
    assert(family@ == footprint_head(expression@).0 && rest@ == footprint_head(expression@).1);
    if family.len() == 0 {
        issues.reject(
            String::from_str("footprint/family"),
            String::from_str("footprint family is empty"),
        );
        return None;
    }
    let ghost toks = split_all(rest@, ',');
    let tokens = split_all_chars(rest.as_slice(), ',');
    let ghost log0 = issues.log();
    let mut parameters: Vec<FootprintParameter> = Vec::new();
    let mut i: usize = 0;
    assert(toks.take(0) =~= Seq::<Seq<char>>::empty());
    while i < tokens.len()
        invariant
            i <= tokens@.len(),
            tokens@.len() == toks.len(),
            forall|j: int| 0 <= j < tokens@.len() ==> (#[trigger] tokens@[j])@ == toks[j],
            issues.wf(),
            issues.source == old(issues).source,
            issues.log() == log0 + tokens_outcome(toks.take(i as int)).0,
            tokens_outcome(toks.take(i as int)).1 matches Some(ps) && params_match(
                parameters@,
                ps,
            ),
            log0 == old(issues).log(),
            family@ == footprint_head(expression@).0,
            family@.len() > 0,
            toks == split_all(footprint_head(expression@).1, ','),
        decreases tokens@.len() - i,
    {
        let ghost before = toks.take(i as int);
        assert(toks.take(i + 1).drop_last() =~= before);
        assert(toks.take(i + 1).last() == toks[i as int]);
        let token = &tokens[i];
        if chars_blank(token.as_slice()) {
            i = i + 1;
            continue;
        }
        let (key_raw, value_raw) = match split_once_chars(token.as_slice(), '=') {
            Some(kv) => kv,
            None => {
                issues.reject(
                    prefixed("footprint/", token.as_slice()),
                    String::from_str("footprint parameter must be key=value"),
                );
                proof {
                    assert(split_once(toks[i as int], '=') is None);
                    assert(tokens_outcome(toks.take(i + 1)).1 is None);
                    lemma_tokens_stop(toks, i + 1);
                }
                return None;
            },
        };
        let key = trim_chars(key_raw.as_slice());
        let value = trim_chars(value_raw.as_slice());
        if key.len() == 0 || value.len() == 0 {
            issues.reject(
                prefixed("footprint/", token.as_slice()),
                String::from_str("footprint parameter key and value must be non-empty"),
            );
            proof {
                lemma_tokens_stop(toks, i + 1);
            }
            return None;
        }
        if value_starts_like_number(value.as_slice()) {
            let (number, unit) = split_number_and_unit(value.as_slice());
            if number.len() == 0 {
                issues.reject(
                    prefixed("footprint/", key.as_slice()),
                    String::from_str("numeric footprint parameter has no numeric prefix"),
                );
                proof {
                    lemma_tokens_stop(toks, i + 1);
                }
                return None;
            }
            let field = EdaExactField {
                field: string_of(key.as_slice()),
                value: Some(string_of(number.as_slice())),
                unit: unit.clone(),
            };
            let field_path = prefixed("footprint/", key.as_slice());
            match parse_exact_field(field_path.as_str(), &field, issues) {
                ParsedExactField::Exact(v) => {
                    let p = FootprintParameter {
                        key: string_of(key.as_slice()),
                        value: AssertionValue::exact_scalar(v),
                        unit,
                    };
                    parameters.push(p);
                },
                _ => {
                    proof {
                        lemma_tokens_stop(toks, i + 1);
                    }
                    return None;
                },
            }
        } else {
            let p = FootprintParameter {
                key: string_of(key.as_slice()),
                value: AssertionValue::Text(string_of(value.as_slice())),
                unit: None,
            };
            parameters.push(p);
            issues.parsed(
                prefixed("footprint/", key.as_slice()),
                String::from_str("text footprint parameter retained verbatim"),
            );
        }
        i = i + 1;
    }
    assert(toks.take(tokens@.len() as int) =~= toks);
    Some((string_of(family.as_slice()), parameters))
}

/// The voltage range of a terminal, by the spellings of its bounds.
pub open spec fn voltage_view(v: Option<VoltageEnvelope>) -> Option<(Seq<char>, Seq<char>)> {
    match v {
        Some(e) => Some((e.min@, e.max@)),
        None => None,
    }
}

/// Events and range for a pin's optional voltage bounds, recorded under `path`.
pub open spec fn pin_voltage_outcome(
    path: Seq<char>,
    min: Option<Seq<char>>,
    max: Option<Seq<char>>,
) -> (Seq<IssueEvent>, Option<(Seq<char>, Seq<char>)>) {
    match (min, max) {
        (Some(a), Some(b)) => {
            let ea = exact_value_events(path + "/voltage_min"@, a);
            match exact_value_outcome(a) {
                None => (ea, None),
                Some(ta) => {
                    let eb = exact_value_events(path + "/voltage_max"@, b);
                    match exact_value_outcome(b) {
                        None => (ea + eb, None),
                        Some(tb) => match strict_comparison(ta, tb) {
                            Some(Comparison::Less) | Some(Comparison::Equal) => (
                                ea + eb,
                                Some((ta, tb)),
                            ),
                            _ => (
                                ea + eb + seq![
                                    IssueEvent::Rejected(
                                        path,
                                        "pin voltage range has min greater than max"@,
                                    ),
                                ],
                                None,
                            ),
                        },
                    }
                },
            }
        },
        (None, None) => (Seq::empty(), None),
        _ => (seq![IssueEvent::Review(path, "pin supplied only one voltage bound"@)], None),
    }
}

/// Parses a pin's voltage bounds into an envelope.
pub(crate) fn parse_pin_voltage(
    path: &str,
    voltage_min: &Option<String>,
    voltage_max: &Option<String>,
    issues: &mut ImportIssueBuilder,
) -> (r: Option<VoltageEnvelope>)
    requires
        old(issues).wf(),
    ensures
        final(issues).wf(),
        final(issues).source == old(issues).source,
        final(issues).log() == old(issues).log() + pin_voltage_outcome(
            path@,
            opt_view(*voltage_min),
            opt_view(*voltage_max),
        ).0,
        voltage_view(r) == pin_voltage_outcome(
            path@,
            opt_view(*voltage_min),
            opt_view(*voltage_max),
        ).1,
{
    match (voltage_min, voltage_max) {
        (Some(min), Some(max)) => {
            let min_path = String::from_str(path).concat("/voltage_min");
            let min = match parse_exact_value(min_path.as_str(), min.as_str(), issues) {
                Some(v) => v,
                None => {
                    return None;
                },
            };
            let max_path = String::from_str(path).concat("/voltage_max");
            let max = match parse_exact_value(max_path.as_str(), max.as_str(), issues) {
                Some(v) => v,
                None => {
                    return None;
                },
            };
            match VoltageEnvelope::new(min, max) {
                Ok(voltage) => Some(voltage),
                Err(_) => {
                    issues.reject(
                        String::from_str(path),
                        String::from_str("pin voltage range has min greater than max"),
                    );
                    None
                },
            }
        },
        (None, None) => None,
        _ => {
            issues.review(
                String::from_str(path),
                String::from_str("pin supplied only one voltage bound"),
            );
            None
        },
    }
}

/// The polarity a pin function implies.
pub open spec fn pin_polarity(function: PinFunction) -> ElectricalPolarity {
    match function {
        PinFunction::Power => ElectricalPolarity::Power,
        PinFunction::Ground => ElectricalPolarity::Ground,
        PinFunction::NoConnect | PinFunction::Shield | PinFunction::Thermal => {
            ElectricalPolarity::Passive
        },
        PinFunction::Unknown => ElectricalPolarity::Unknown,
        _ => ElectricalPolarity::Signal,
    }
}

/// Maps a pin function to its electrical polarity.
pub(crate) fn polarity_from_pin_function(function: &PinFunction) -> (r: ElectricalPolarity)
    ensures
        r == pin_polarity(*function),
{
    match function {
        PinFunction::Power => ElectricalPolarity::Power,
        PinFunction::Ground => ElectricalPolarity::Ground,
        PinFunction::NoConnect | PinFunction::Shield | PinFunction::Thermal => {
            ElectricalPolarity::Passive
        },
        PinFunction::Unknown => ElectricalPolarity::Unknown,
        PinFunction::Digital
        | PinFunction::Analog
        | PinFunction::Reset
        | PinFunction::Test
        | PinFunction::Differential(_)
        | PinFunction::Custom(_) => ElectricalPolarity::Signal,
    }
}


/// A pin bound that is not an exact token leaves the pin without a voltage
/// range, and the pass records at least one issue for it.
pub proof fn lemma_unusable_bound_leaves_no_range(
    path: Seq<char>,
    min: Seq<char>,
    max: Option<Seq<char>>,
)
    requires
        exact_value_outcome(min) is None,
    ensures
        pin_voltage_outcome(path, Some(min), max).1 is None,
        pin_voltage_outcome(path, Some(min), max).0.len() > 0,
{
}


/// A blank pin bound leaves the pin without a voltage range, and the pass
/// records an issue for it.
pub proof fn lemma_blank_bound_leaves_no_range(
    path: Seq<char>,
    min: Seq<char>,
    max: Option<Seq<char>>,
)
    requires
        is_blank(min),
    ensures
        pin_voltage_outcome(path, Some(min), max).1 is None,
        pin_voltage_outcome(path, Some(min), max).0.len() > 0,
{
    crate::text::lemma_leading_space(min);
    assert(crate::text::leading_space(min) == min.len());
    assert(trim(min).len() == 0);
    lemma_unusable_bound_leaves_no_range(path, min, max);
}

} // verus!
