use otel_pipeline::Config;
use otel_pipeline::ConfigError;
use otel_pipeline::Protocol;
use otel_pipeline::parse_protocol;

#[test]
fn build_without_endpoint_fails() {
    let r = Config::builder().build();
    assert_eq!(r.unwrap_err(), ConfigError::MissingEndpoint);
}

#[test]
fn build_with_empty_endpoint_fails() {
    let r = Config::builder().otel_endpoint(String::new()).build();
    assert_eq!(r.unwrap_err(), ConfigError::MissingEndpoint);
}

#[test]
fn build_defaults_protocol() {
    let c = Config::builder()
        .otel_endpoint("http://collector:4318".to_string())
        .build()
        .unwrap();
    assert_eq!(c.otel_protocol().as_str(), "http/protobuf");
    assert_eq!(c.otel_endpoint().as_str(), "http://collector:4318");
}

#[test]
fn build_keeps_explicit_protocol() {
    let c = Config::builder()
        .otel_endpoint("http://collector:4317".to_string())
        .otel_protocol("grpc".to_string())
        .build()
        .unwrap();
    assert_eq!(c.otel_protocol().as_str(), "grpc");
}

#[test]
fn build_keeps_unrecognized_protocol_for_later_rejection() {
    let c = Config::builder()
        .otel_endpoint("http://collector:4318".to_string())
        .otel_protocol("bogus".to_string())
        .build()
        .unwrap();
    assert_eq!(c.otel_protocol().as_str(), "bogus");
}

#[test]
fn parse_protocol_recognizes_both_transports() {
    assert_eq!(
        parse_protocol(&"http/protobuf".to_string()),
        Some(Protocol::HttpProtobuf)
    );
    assert_eq!(parse_protocol(&"grpc".to_string()), Some(Protocol::Grpc));
}

#[test]
fn parse_protocol_rejects_everything_else() {
    assert_eq!(parse_protocol(&"bogus".to_string()), None);
    assert_eq!(parse_protocol(&String::new()), None);
    assert_eq!(parse_protocol(&"http".to_string()), None);
}
