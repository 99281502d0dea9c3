use otel_pipeline::Config;
use otel_pipeline::ConfigError;

// Installation mutates process-wide state, so every step lives in one test.
#[test]
fn install_dispatches_on_protocol_and_refuses_a_second_install() {
    let rt = tokio::runtime::Builder::new_multi_thread()
        .enable_time()
        .build()
        .unwrap();
    let _enter = rt.enter();

    let bogus = Config::builder()
        .otel_endpoint("http://127.0.0.1:4318".to_string())
        .otel_protocol("bogus".to_string())
        .build()
        .unwrap();
    assert_eq!(bogus.init().unwrap_err(), ConfigError::UnsupportedProtocol);

    let grpc = Config::builder()
        .otel_endpoint("http://127.0.0.1:4317".to_string())
        .otel_protocol("grpc".to_string())
        .build()
        .unwrap();
    let first = grpc.init();
    assert!(first.is_ok());

    // The HTTP pipeline is constructed as well; only the already-installed
    // global subscriber makes this second installation fail.
    let http = Config::builder()
        .otel_endpoint("http://127.0.0.1:4318".to_string())
        .otel_protocol("http/protobuf".to_string())
        .build()
        .unwrap();
    assert_eq!(http.init().unwrap_err(), ConfigError::AlreadyInitialized);

    // With the pipeline and the W3C propagator installed, a captured carrier
    // is always accepted back.
    let text = Config::get_trace_context().unwrap();
    assert!(Config::set_trace_context(&text).is_ok());

    // Releasing the guard flushes and tears down; a second release is a no-op.
    let mut guard = first.unwrap();
    guard.release();
    guard.release();
}
