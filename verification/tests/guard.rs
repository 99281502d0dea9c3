use otel_pipeline::ShutdownGuard;

#[test]
fn release_twice_is_safe() {
    let mut guard = ShutdownGuard::new();
    guard.release();
    // A second release must not crash the process; it has no further effect.
    guard.release();
}
