use std::collections::HashMap;

use otel_pipeline::Config;
use otel_pipeline::ContextError;
use otel_pipeline::capture_then_restore;

#[test]
fn restore_rejects_non_json() {
    let r = Config::set_trace_context("not json");
    assert_eq!(r.unwrap_err(), ContextError::Malformed);
}

#[test]
fn restore_rejects_non_string_values() {
    let r = Config::set_trace_context("{\"traceparent\": 7}");
    assert_eq!(r.unwrap_err(), ContextError::Malformed);
}

#[test]
fn restore_accepts_empty_object() {
    assert!(Config::set_trace_context("{}").is_ok());
}

#[test]
fn restore_accepts_w3c_carrier() {
    let carrier =
        "{\"traceparent\":\"00-4bf92f3577b34da6a3ce929d0e0e4736-00f067aa0ba902b7-01\"}";
    assert!(Config::set_trace_context(carrier).is_ok());
}

#[test]
fn capture_yields_json_object_of_strings() {
    let text = Config::get_trace_context().unwrap();
    let parsed: HashMap<String, String> = serde_json::from_str(&text).unwrap();
    // With no pipeline installed the propagator injects nothing.
    assert!(parsed.is_empty());
}

#[test]
fn captured_context_restores() {
    let text = capture_then_restore().unwrap();
    assert!(Config::set_trace_context(&text).is_ok());
}
