//! The carrier codec: serializing the ambient span's trace context into a
//! JSON carrier string and restoring such a string as the parent of the
//! ambient span on the other side of a process boundary.

use vstd::prelude::*;
use std::collections::HashMap;
use tracing_opentelemetry::OpenTelemetrySpanExt;
use crate::config::Config;

verus! {

/// Everything that can go wrong while restoring a trace context.
#[derive(Clone, Copy, PartialEq, Eq, Structural, Debug)]
pub enum ContextError {
    /// The carrier text is not a JSON object mapping strings to strings.
    Malformed,
}

/// Whether no two entries of a carrier share a key.
pub open spec fn unique_keys(entries: Seq<(String, String)>) -> bool {
    forall|i: int, j: int|
        0 <= i < j < entries.len() ==> entries[i].0@ != entries[j].0@
}

/// The string-to-string mapping a sequence of carrier entries stands for.
pub open spec fn carrier_map(entries: Seq<(String, String)>) -> Map<Seq<char>, Seq<char>> {
    Map::new(
        |k: Seq<char>|
            exists|i: int| 0 <= i < entries.len() && (#[trigger] entries[i].0)@ == k,
        |k: Seq<char>|
            entries[choose|i: int| 0 <= i < entries.len() && (#[trigger] entries[i].0)@ == k].1@,
    )
}

/// The string-to-string mapping that parsing `text` as a JSON object yields,
/// or `None` where `text` is no such object.
pub uninterp spec fn parsed_carrier(text: Seq<char>) -> Option<Map<Seq<char>, Seq<char>>>;

/// Relies on opentelemetry::global::get_text_map_propagator,
/// TextMapPropagator::inject_context and OpenTelemetrySpanExt::context: asks
/// the installed propagator to write the ambient current span's context into a
/// fresh carrier, handed back as key/value pairs. The carrier is filled
/// key-by-key, so its keys are unique.
#[verifier::external_body]
fn inject_current_context() -> (r: Vec<(String, String)>)
    ensures
        unique_keys(r@),
{
    let mut injector: HashMap<String, String> = HashMap::new();
    opentelemetry::global::get_text_map_propagator(|propagator| {
        propagator.inject_context(&tracing::Span::current().context(), &mut injector);
    });
    injector.into_iter().collect()
}

/// Relies on serde_json::to_string: serializes a string-to-string map as a
/// JSON object. On a map with string keys and string values serialization
/// cannot fail, and parsing the produced text yields the same map back.
#[verifier::external_body]
fn carrier_to_json(entries: &Vec<(String, String)>) -> (r: Result<String, ContextError>)
    requires
        unique_keys(entries@),
    ensures
        r is Ok,
        r matches Ok(text) ==> parsed_carrier(text@) == Some(carrier_map(entries@)),
{
    let map: HashMap<&String, &String> = entries.iter().map(|e| (&e.0, &e.1)).collect();
    serde_json::to_string(&map).map_err(|_| ContextError::Malformed)
}

/// Relies on serde_json::from_str: parses JSON text into a string-to-string
/// map, failing exactly on text that is not such a JSON object.
#[verifier::external_body]
fn json_to_carrier(text: &str) -> (r: Option<Vec<(String, String)>>)
    ensures
        r is Some <==> parsed_carrier(text@) is Some,
        r matches Some(entries) ==> unique_keys(entries@)
            && Some(carrier_map(entries@)) == parsed_carrier(text@),
{
    let map: HashMap<String, String> = serde_json::from_str(text).ok()?;
    Some(map.into_iter().collect())
}

/// Relies on opentelemetry::global::get_text_map_propagator,
/// TextMapPropagator::extract and OpenTelemetrySpanExt::set_parent: asks the
/// installed propagator to read a context out of the carrier entries and sets
/// it as the parent of the ambient current span. An empty or unrelated
/// carrier yields no parent, which the callee does not treat as an error.
#[verifier::external_body]
fn extract_and_set_parent(entries: &Vec<(String, String)>) {
    let extractor: HashMap<String, String> = entries.iter().cloned().collect();
    let context = opentelemetry::global::get_text_map_propagator(|p| p.extract(&extractor));
    tracing::Span::current().set_parent(context);
}

impl Config {
    /// Captures the ambient current span's context as a JSON carrier string.
    ///
    /// The result always parses back into a carrier mapping: whatever text
    /// this returns, [`Config::set_trace_context`] accepts it.
    pub fn get_trace_context() -> (r: Result<String, ContextError>)
        ensures
            r is Ok,
            r matches Ok(text) ==> parsed_carrier(text@) is Some,
    {
        let entries = inject_current_context();
        carrier_to_json(&entries)
    }

    /// Restores a trace context from a JSON carrier string: parses it back
    /// into a carrier mapping and makes the context the installed propagator
    /// reads out of it the parent of the ambient current span.
    ///
    /// Fails with `Malformed` exactly when `trace_context` is not a JSON
    /// object mapping strings to strings; the ambient span is then untouched.
    pub fn set_trace_context(trace_context: &str) -> (r: Result<(), ContextError>)
        ensures
            r is Ok <==> parsed_carrier(trace_context@) is Some,
            r matches Err(e) ==> e == ContextError::Malformed,
    {
        match json_to_carrier(trace_context) {
            Some(entries) => {
                extract_and_set_parent(&entries);
                Ok(())
            },
            None => Err(ContextError::Malformed),
        }
    }
}

/// Round trip: a carrier string captured from the ambient span is always
/// accepted when restored, so capturing and immediately restoring cannot
/// fail. The captured text is handed back.
pub fn capture_then_restore() -> (r: Result<String, ContextError>)
    ensures
        r is Ok,
{
    let text = match Config::get_trace_context() {
        Ok(t) => t,
        Err(e) => {
            return Err(e);
        },
    };
    match Config::set_trace_context(text.as_str()) {
        Ok(()) => Ok(text),
        Err(e) => Err(e),
    }
}

} // verus!
