use circle_bridge::errors::BridgeError;
use circle_bridge::formatting::interpret_format_result;
use circle_bridge::generator::{GeneratorSession, GeneratorState};

#[test]
fn null_string_handle_surfaces_null_result_error() {
    let r = interpret_format_result(None);
    assert_eq!(r, Err(BridgeError::NullResult));
}

#[test]
fn present_string_passes_through_unchanged() {
    let text = String::from("Circle with radius 10.00 has area 314.16");
    let r = interpret_format_result(Some(text.clone()));
    assert_eq!(r, Ok(text));
}

#[test]
fn only_boundary_failures_are_fatal() {
    assert!(BridgeError::ModuleLoad.is_fatal());
    assert!(BridgeError::SymbolResolution.is_fatal());
    assert!(!BridgeError::NullResult.is_fatal());
}

#[test]
fn fetch_flag_decides_presence() {
    assert_eq!(GeneratorSession::interpret_next(17, true), Some(17));
    assert_eq!(GeneratorSession::interpret_next(-3, true), Some(-3));
    // The value accompanying a cleared flag means nothing.
    assert_eq!(GeneratorSession::interpret_next(17, false), None);
    assert_eq!(GeneratorSession::interpret_next(0, false), None);
}

#[test]
fn generator_handle_walks_its_lifecycle() {
    let mut g = GeneratorSession::new(42);
    assert_eq!(g.id(), 42);
    assert_eq!(g.state(), GeneratorState::Active);

    g.mark_stopped();
    assert_eq!(g.state(), GeneratorState::Stopped);
    // Stopping does not release the handle; it can still be named.
    assert_eq!(g.id(), 42);

    g.mark_freed();
    assert_eq!(g.state(), GeneratorState::Freed);
}

#[test]
fn generator_can_be_freed_without_stopping() {
    let mut g = GeneratorSession::new(7);
    g.mark_freed();
    assert_eq!(g.state(), GeneratorState::Freed);
}
