use circle_bridge::registry::{CallbackRegistry, EMPTY_SLOT_RESULT};
use circle_bridge::shapes::{Circle, Shape, ShapeType};

#[test]
fn callback_returns_what_the_closure_computes() {
    let mut reg = CallbackRegistry::new();
    let square = |bits: u64| (f64::from_bits(bits) * f64::from_bits(bits)).to_bits();
    let r = reg.call_callback_with(5.0f64.to_bits(), square);
    assert_eq!(f64::from_bits(r), 25.0);
}

#[test]
fn callback_round_trips_representative_values_bit_for_bit() {
    let identity = |bits: u64| bits;
    for x in [
        0.0f64.to_bits(),
        (-5.0f64).to_bits(),
        (-0.0f64).to_bits(),
        f64::MAX.to_bits(),
        1.0e300f64.to_bits(),
    ] {
        let mut reg = CallbackRegistry::new();
        let r = reg.call_callback_with(x, identity);
        assert_eq!(r, x);
    }
}

#[test]
fn slot_is_empty_after_a_synchronous_call() {
    let mut reg = CallbackRegistry::new();
    let r = reg.call_callback_with(3.0f64.to_bits(), |bits: u64| bits);
    assert_eq!(f64::from_bits(r), 3.0);
    assert!(!reg.is_armed());
}

#[test]
fn slot_is_empty_whether_invoked_zero_one_or_many_times() {
    // Zero trampoline invocations: arm, the foreign side never calls, clear.
    let mut reg = CallbackRegistry::new();
    reg.arm(|bits: u64| bits);
    reg.clear();
    assert!(!reg.is_armed());

    // Many invocations: the slot survives each one unchanged, then clears.
    let mut reg = CallbackRegistry::new();
    reg.arm(|bits: u64| bits.wrapping_add(1));
    assert_eq!(reg.invoke(10), 11);
    assert_eq!(reg.invoke(20), 21);
    assert_eq!(reg.invoke(30), 31);
    assert!(reg.is_armed());
    reg.clear();
    assert!(!reg.is_armed());
}

#[test]
fn empty_slot_invocation_answers_the_sentinel() {
    let mut reg: CallbackRegistry<fn(u64) -> u64> = CallbackRegistry::new();
    assert_eq!(reg.invoke(7.0f64.to_bits()), EMPTY_SLOT_RESULT);
    assert_eq!(f64::from_bits(EMPTY_SLOT_RESULT), 0.0);
}

#[test]
fn arming_fails_fast_is_observable() {
    // The guard against overlapping synchronous calls: an armed slot is
    // visible, so a caller can refuse to arm again instead of racing.
    let mut reg = CallbackRegistry::new();
    reg.arm(|bits: u64| bits);
    assert!(reg.is_armed());
    reg.clear();
}

#[test]
fn shape_type_codes_match_the_foreign_discriminants() {
    assert_eq!(ShapeType::Circle.code(), 0);
    assert_eq!(ShapeType::Square.code(), 1);
    assert_eq!(ShapeType::Triangle.code(), 2);
}

#[test]
fn shape_records_carry_dimension_patterns_unchanged() {
    let s = Shape::triangle(4.0f64.to_bits(), 3.0f64.to_bits());
    assert_eq!(s.shape_type, ShapeType::Triangle);
    assert_eq!(f64::from_bits(s.dimension1), 4.0);
    assert_eq!(f64::from_bits(s.dimension2), 3.0);

    let sq = Shape::square(2.5f64.to_bits());
    assert_eq!(sq.shape_type, ShapeType::Square);
    assert_eq!(f64::from_bits(sq.dimension1), 2.5);

    let circle_shape = Shape::circle(10.0f64.to_bits());
    assert_eq!(circle_shape.shape_type, ShapeType::Circle);
    assert_eq!(circle_shape.dimension2, 0);

    let c = Circle { radius: 10.0f64.to_bits() };
    assert_eq!(f64::from_bits(c.radius), 10.0);
}
