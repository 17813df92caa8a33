use circle_bridge::multishot::MultiShotCall;
use circle_bridge::oneshot::OneShotCall;
use circle_bridge::token::TokenState;

#[test]
fn one_shot_resolves_with_exactly_one_value() {
    let mut call = OneShotCall::new();
    assert_eq!(call.token_state(), TokenState::Loaned);

    call.on_callback(314.0f64.to_bits());
    assert_eq!(call.try_take(), Some(314.0f64.to_bits()));
    assert_eq!(call.token_state(), TokenState::Reclaimed);
    assert_eq!(call.violation_count(), 0);

    // A second foreign callback is a protocol violation: counted, not
    // delivered.
    call.on_callback(999.0f64.to_bits());
    assert_eq!(call.try_take(), Some(314.0f64.to_bits()));
    assert_eq!(call.violation_count(), 1);
}

#[test]
fn one_shot_carries_the_foreign_value_bit_for_bit() {
    // The foreign side's computed area for radius 10 comes back unchanged:
    // the bridge performs no arithmetic on it.
    let area = std::f64::consts::PI * 10.0 * 10.0;
    let mut call = OneShotCall::new();
    call.on_callback(area.to_bits());
    let got = call.try_take().unwrap();
    assert_eq!(got, area.to_bits());
    assert_eq!(f64::from_bits(got), area);
}

#[test]
fn one_shot_abandoned_consumer_makes_delivery_a_noop() {
    let mut call = OneShotCall::new();
    call.abandon();
    call.on_callback(42.0f64.to_bits());
    assert_eq!(call.try_take(), None);
    // The callback was legitimate, not a violation, and it still reclaimed
    // the token: nothing leaks beyond the session itself.
    assert_eq!(call.violation_count(), 0);
    assert_eq!(call.token_state(), TokenState::Reclaimed);
}

#[test]
fn one_shot_token_leaks_only_if_the_foreign_side_never_calls() {
    let call = OneShotCall::new();
    // No callback ever: the token stays loaned out, the documented
    // trade-off of this pattern.
    assert_eq!(call.token_state(), TokenState::Loaned);
    assert_eq!(call.try_take(), None);
}

#[test]
fn multi_shot_delivers_three_values_in_order_then_ends() {
    let mut call = MultiShotCall::new(3);
    let v1 = 100.0f64.to_bits();
    let v2 = 200.0f64.to_bits();
    let v3 = 300.0f64.to_bits();

    assert!(call.on_callback(v1, true));
    assert!(call.on_callback(v2, true));
    // The third invocation reaches the configured limit: the trampoline
    // answers "stop".
    assert!(!call.on_callback(v3, true));

    assert!(call.is_terminated());
    assert_eq!(call.token_state(), TokenState::Reclaimed);
    assert_eq!(call.value_count(), 3);
    assert_eq!(call.stream_len(), 3);
    assert_eq!(call.value_at(0), v1);
    assert_eq!(call.value_at(1), v2);
    assert_eq!(call.value_at(2), v3);
}

#[test]
fn multi_shot_late_callback_is_pushed_and_counted_outside_the_stream() {
    let mut call = MultiShotCall::new(3);
    assert!(call.on_callback(1, true));
    assert!(call.on_callback(2, true));
    assert!(!call.on_callback(3, true));

    // A foreign side that keeps calling after the stop answer violates the
    // protocol: the value is still pushed — in order, without a crash —
    // and counted, but the consumer-visible stream froze at termination,
    // so no fourth value is ever observed.
    assert!(!call.on_callback(4, true));
    assert_eq!(call.value_count(), 4);
    assert_eq!(call.value_at(3), 4);
    assert_eq!(call.stream_len(), 3);
    assert_eq!(call.violation_count(), 1);
    assert!(call.is_terminated());
}

#[test]
fn multi_shot_foreign_stop_signal_ends_the_sequence() {
    let mut call = MultiShotCall::new(1000);
    assert!(call.on_callback(10, true));
    // The foreign side says this was the last one, far below the limit.
    assert!(!call.on_callback(20, false));
    assert!(call.is_terminated());
    assert_eq!(call.value_count(), 2);
    assert_eq!(call.stream_len(), 2);
    assert_eq!(call.value_at(0), 10);
    assert_eq!(call.value_at(1), 20);
}

#[test]
fn multi_shot_limit_one_ends_immediately() {
    let mut call = MultiShotCall::new(1);
    assert!(!call.on_callback(7, true));
    assert!(call.is_terminated());
    assert_eq!(call.value_count(), 1);
    assert_eq!(call.stream_len(), 1);
    assert_eq!(call.value_at(0), 7);
}

#[test]
fn multi_shot_open_session_keeps_its_token_loaned() {
    let mut call = MultiShotCall::new(5);
    assert!(call.on_callback(1, true));
    assert!(!call.is_terminated());
    assert_eq!(call.token_state(), TokenState::Loaned);
    assert_eq!(call.limit(), 5);
    // While the sequence is open the stream keeps up with the deliveries.
    assert_eq!(call.stream_len(), call.value_count());
}
