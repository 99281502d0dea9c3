//! The handle returned by a successful installation: releasing it flushes
//! buffered spans and tears the global tracer down, at most once.

use vstd::prelude::*;

verus! {

/// Relies on opentelemetry::global::shutdown_tracer_provider: gives the
/// installed tracer provider a chance to flush buffered spans, then shuts the
/// export machinery down. Failures on this path are swallowed by the callee;
/// with no provider installed it is a no-op.
#[verifier::external_body]
fn shutdown_global_tracer() {
    opentelemetry::global::shutdown_tracer_provider()
}

/// Single-owner handle over the installed process-wide tracing state.
///
/// Its only operation is [`ShutdownGuard::release`], which flushes and tears
/// the global tracer down the first time it runs and does nothing after that.
#[derive(Debug)]
#[must_use]
pub struct ShutdownGuard {
    armed: bool,
}

impl ShutdownGuard {
    /// Whether a release of this guard would still flush and tear down.
    pub closed spec fn is_armed(&self) -> bool {
        self.armed
    }

    /// A guard whose first release will flush and tear the global tracer down.
    pub fn new() -> (r: Self)
        ensures
            r.is_armed(),
    {
        ShutdownGuard { armed: true }
    }

    /// Flushes buffered spans and shuts the global tracer down, the first time
    /// it is called on this guard. Any later call does nothing; no error is
    /// ever surfaced.
    pub fn release(&mut self)
        ensures
            !final(self).is_armed(),
    {
        if self.armed {
            self.armed = false;
            shutdown_global_tracer();
        }
    }
}

} // verus!
