use hyperparts::predicate::closed_intervals_overlap;
use hyperparts::ExactValue;

fn exact(value: i64) -> ExactValue {
    ExactValue::from_int(value)
}

#[test]
fn certified_disjointness_dominates_an_unknown_opposite_bound() {
    assert_eq!(
        closed_intervals_overlap(&exact(10), &exact(11), &exact(0), &exact(1)),
        Some(false)
    );
}
