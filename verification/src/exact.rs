//! Exact numeric values and the decisions `hyperreal`/`hyperlimit` make on them.
//!
//! An [`ExactValue`] holds the exact source spelling of a number (an integer,
//! decimal, or rational token) that `hyperreal::Real` accepts. Arithmetic and
//! ordering stay with `hyperreal` and `hyperlimit`: each decision below parses
//! the spellings into `Real` values and asks the owning crate. The decisions
//! are functions of the spellings alone, so their results are named here.
use vstd::prelude::*;

use crate::text::{int_chars, int_text, string_of};
use hyperlimit::PredicatePolicy;
use hyperreal::Real;

verus! {

/// Three-way comparison outcome.
#[derive(Clone, Copy, Debug, PartialEq, Eq, Structural)]
pub enum Comparison {
    /// Left is smaller.
    Less,
    /// Both are equal.
    Equal,
    /// Left is larger.
    Greater,
}

/// Exact numeric source value, kept as the text that `hyperreal::Real` parses.
#[derive(Debug)]
pub struct ExactValue {
    text: String,
}

impl View for ExactValue {
    type V = Seq<char>;

    closed spec fn view(&self) -> Seq<char> {
        self.text@
    }
}

impl Clone for ExactValue {
    fn clone(&self) -> (r: Self)
        ensures
            r == *self,
    {
        ExactValue { text: self.text.clone() }
    }
}

/// Whether `text.parse::<hyperreal::Real>()` succeeds.
pub uninterp spec fn real_text_parses(text: Seq<char>) -> bool;

/// At least one ASCII digit, and nothing else.
pub open spec fn ascii_digits(s: Seq<char>) -> bool {
    s.len() > 0 && forall|i: int| 0 <= i < s.len() ==> '0' <= #[trigger] s[i] && s[i] <= '9'
}

/// The text after one optional leading `-`.
pub open spec fn unsigned_part(t: Seq<char>) -> Seq<char> {
    if t.len() > 0 && t[0] == '-' {
        t.drop_first()
    } else {
        t
    }
}

/// An optional `-`, then digits, optionally followed by `.` and digits.
pub open spec fn decimal_spelling(t: Seq<char>) -> bool {
    let u = unsigned_part(t);
    ||| ascii_digits(u)
    ||| exists|k: int|
        0 < k < u.len() && u[k] == '.' && ascii_digits(#[trigger] u.take(k)) && ascii_digits(
            u.skip(k + 1),
        )
}

/// An optional `-`, then digits, `/`, and digits that are not all zero.
pub open spec fn fraction_spelling(t: Seq<char>) -> bool {
    let u = unsigned_part(t);
    exists|k: int|
        0 < k < u.len() && u[k] == '/' && ascii_digits(#[trigger] u.take(k)) && ascii_digits(
            u.skip(k + 1),
        ) && exists|j: int| k < j < u.len() && #[trigger] u[j] != '0'
}

/// Whether `hyperreal` parses the text: never when it is empty, always for a
/// decimal or fraction spelling, and otherwise as `real_text_parses` says.
pub open spec fn real_parses(t: Seq<char>) -> bool {
    t.len() > 0 && (decimal_spelling(t) || fraction_spelling(t) || real_text_parses(t))
}

/// What `hyperlimit::compare_reals_with_policy` decides, under the strict
/// policy, for the `Real` values that two texts parse to (`None` when it
/// cannot decide or a text does not parse).
pub uninterp spec fn strict_comparison(left: Seq<char>, right: Seq<char>) -> Option<Comparison>;

/// What `Real::partial_cmp` returns for the `Real` values that two texts parse
/// to (`None` when undecided or a text does not parse).
pub uninterp spec fn partial_comparison(left: Seq<char>, right: Seq<char>) -> Option<Comparison>;

/// What `Real`'s `==` returns for the `Real` values that two texts parse to
/// (`false` when a text does not parse).
pub uninterp spec fn real_equality(left: Seq<char>, right: Seq<char>) -> bool;

/// Calls `str::parse::<hyperreal::Real>` (which parses a signed integer,
/// decimal, or `n/d` fraction into a rational `Real`) and reports whether it
/// succeeded. Trusted claim: the answer is `real_parses` of the text. The
/// rational parser strips one `-`, then reads `n/d` (refusing a zero `d`), or
/// `i.f`, or plain digits, each part through `num-bigint`; so every decimal or
/// fraction spelling parses. Empty text never parses (`num-bigint` refuses an
/// empty digit string). The rest of the grammar (a leading `+`, `_`
/// separators) is left to the name `real_text_parses`.
#[verifier::external_body]
fn text_parses_as_real(text: &str) -> (ok: bool)
    ensures
        ok == real_text_parses(text@),
        ok == real_parses(text@),
        text@.len() == 0 ==> !ok,
{
    text.parse::<Real>().is_ok()
}

/// Parses both texts with `hyperreal` and calls
/// `hyperlimit::compare_reals_with_policy(.., PredicatePolicy::STRICT)`,
/// mapping each of its three orders to one `Comparison`; `None` when
/// a text does not parse. Trusted claim: the answer is `strict_comparison` of
/// the two texts; when both texts parse, the two values are exact rationals,
/// whose difference has a known sign, so the answer is decided and is the
/// rational order that `Real::partial_cmp` gives. Which order that is, is left
/// to the named result.
#[verifier::external_body]
pub(crate) fn strict_compare(left: &ExactValue, right: &ExactValue) -> (r: Option<Comparison>)
    ensures
        r == strict_comparison(left@, right@),
        real_parses(left@) && real_parses(right@) ==> r is Some && r
            == partial_comparison(left@, right@),
{
    match (left.text.parse::<Real>(), right.text.parse::<Real>()) {
        (Ok(l), Ok(r)) => match hyperlimit::compare_reals_with_policy(&l, &r, PredicatePolicy::STRICT).value() {
            Some(std::cmp::Ordering::Less) => Some(Comparison::Less),
            Some(std::cmp::Ordering::Equal) => Some(Comparison::Equal),
            Some(std::cmp::Ordering::Greater) => Some(Comparison::Greater),
            None => None,
        },
        _ => None,
    }
}

/// Parses both texts with `hyperreal` and calls `Real::partial_cmp`, mapping
/// each of its three orders to one `Comparison`; `None` when a text
/// does not parse. Trusted claim: the answer is `partial_comparison` of the two
/// texts; two parsed texts are exact rationals, which `partial_cmp` always
/// orders, and a text parsed twice gives structurally equal values, which it
/// calls equal. Which order other pairs get is left to the named result.
#[verifier::external_body]
pub(crate) fn partial_compare(left: &ExactValue, right: &ExactValue) -> (r: Option<Comparison>)
    ensures
        r == partial_comparison(left@, right@),
        real_parses(left@) && real_parses(right@) ==> r is Some,
        left@ == right@ && real_parses(left@) ==> r == Some(Comparison::Equal),
{
    match (left.text.parse::<Real>(), right.text.parse::<Real>()) {
        (Ok(l), Ok(r)) => match l.partial_cmp(&r) {
            Some(std::cmp::Ordering::Less) => Some(Comparison::Less),
            Some(std::cmp::Ordering::Equal) => Some(Comparison::Equal),
            Some(std::cmp::Ordering::Greater) => Some(Comparison::Greater),
            None => None,
        },
        _ => None,
    }
}

/// Parses both texts with `hyperreal` and calls `Real`'s `==`; `false` when a
/// text does not parse. Trusted claim: the answer is `real_equality` of the two
/// texts, and a text that parses equals itself (parsing is deterministic and
/// `==` compares the rational and its class); other pairs are left to the name.
#[verifier::external_body]
fn real_equal(left: &ExactValue, right: &ExactValue) -> (r: bool)
    ensures
        r == real_equality(left@, right@),
        left@ == right@ && real_parses(left@) ==> r,
{
    match (left.text.parse::<Real>(), right.text.parse::<Real>()) {
        (Ok(l), Ok(r)) => l == r,
        _ => false,
    }
}

impl ExactValue {
    /// Accepts `text` when `hyperreal` parses it as an exact `Real`.
    pub fn parse(text: &str) -> (r: Option<ExactValue>)
        ensures
            r is Some <==> real_parses(text@),
            text@.len() == 0 ==> r is None,
            r matches Some(v) ==> v@ == text@,
    {
        if text_parses_as_real(text) {
            Some(ExactValue { text: String::from_str(text) })
        } else {
            None
        }
    }

    /// The exact integer `value`, spelled in decimal.
    pub fn from_int(value: i64) -> (r: ExactValue)
        ensures
            r@ == int_text(value as int),
    {
        let digits = int_chars(value);
        ExactValue { text: string_of(digits.as_slice()) }
    }

    /// The exact source spelling.
    pub fn text(&self) -> (s: &str)
        ensures
            s@ == self@,
    {
        self.text.as_str()
    }
}

impl PartialEq for ExactValue {
    fn eq(&self, other: &Self) -> (r: bool) {
        real_equal(self, other)
    }
}

impl vstd::std_specs::cmp::PartialEqSpecImpl for ExactValue {
    open spec fn obeys_eq_spec() -> bool {
        true
    }

    open spec fn eq_spec(&self, other: &Self) -> bool {
        real_equality(self@, other@)
    }
}

} // verus!
