//! Installation of the export pipeline: protocol dispatch, construction of the
//! batching exporter, and registration of the process-wide propagator and
//! subscriber.

use vstd::prelude::*;
use crate::config::Config;
use crate::config::ConfigError;
use crate::config::Protocol;
use crate::config::parse_protocol;
use crate::config::recognized_protocol;
use crate::guard::ShutdownGuard;
use opentelemetry_otlp::WithExportConfig;
use tracing_subscriber::layer::SubscriberExt;

verus! {

#[verifier::external_type_specification]
#[verifier::external_body]
pub struct ExSpanExporterBuilder(opentelemetry_otlp::SpanExporterBuilder);

#[verifier::external_type_specification]
#[verifier::external_body]
pub struct ExTracer(opentelemetry_sdk::trace::Tracer);

#[verifier::external_type_specification]
#[verifier::external_body]
pub struct ExEnvFilter(tracing_subscriber::EnvFilter);

/// Relies on opentelemetry_otlp::new_exporter, OtlpExporterPipeline::http and
/// WithExportConfig::with_endpoint: describes an exporter over the HTTP
/// transport with protobuf payloads, aimed at `endpoint`.
#[verifier::external_body]
fn http_exporter(endpoint: &String) -> opentelemetry_otlp::SpanExporterBuilder {
    opentelemetry_otlp::new_exporter().http().with_endpoint(endpoint.as_str()).into()
}

/// Relies on opentelemetry_otlp::new_exporter, OtlpExporterPipeline::tonic and
/// WithExportConfig::with_endpoint: describes an exporter over the gRPC
/// transport, aimed at `endpoint`.
#[verifier::external_body]
fn grpc_exporter(endpoint: &String) -> opentelemetry_otlp::SpanExporterBuilder {
    opentelemetry_otlp::new_exporter().tonic().with_endpoint(endpoint.as_str()).into()
}

/// Relies on opentelemetry_otlp::new_pipeline, OtlpPipeline::tracing,
/// OtlpTracePipeline::{with_exporter, with_trace_config, install_batch} and
/// opentelemetry_sdk::runtime::Tokio: wraps the exporter in a batching
/// pipeline, registers its tracer provider as the process-wide one, and hands
/// back a tracer from it, or `None` if construction failed. The callee panics
/// when no tokio runtime is active, so callers must run under one.
#[verifier::external_body]
fn install_batch_pipeline(
    exporter: opentelemetry_otlp::SpanExporterBuilder,
) -> Option<opentelemetry_sdk::trace::Tracer> {
    opentelemetry_otlp::new_pipeline()
        .tracing()
        .with_exporter(exporter)
        .with_trace_config(opentelemetry_sdk::trace::config())
        .install_batch(opentelemetry_sdk::runtime::Tokio)
        .ok()
}

/// Relies on opentelemetry::global::set_text_map_propagator and
/// opentelemetry_sdk::propagation::TraceContextPropagator::new: makes the W3C
/// trace-context propagator the process-wide default.
#[verifier::external_body]
fn install_w3c_propagator() {
    opentelemetry::global::set_text_map_propagator(
        opentelemetry_sdk::propagation::TraceContextPropagator::new(),
    )
}

/// Relies on tracing_subscriber::EnvFilter::try_new: parses a severity-filter
/// directive string, `None` exactly on a string holding an invalid directive.
#[verifier::external_body]
fn parse_env_filter(directives: &str) -> Option<tracing_subscriber::EnvFilter> {
    tracing_subscriber::EnvFilter::try_new(directives).ok()
}

/// Relies on tracing_opentelemetry::layer, OpenTelemetryLayer::with_tracer,
/// tracing_subscriber's Registry and SubscriberExt::with, and
/// tracing::subscriber::set_global_default: layers the span bridge for
/// `tracer` and the severity `filter` over a registry and installs the result
/// as the process's global subscriber. Returns `false` exactly when a global
/// subscriber was already installed, in which case nothing is replaced.
#[verifier::external_body]
fn install_global_subscriber(
    tracer: opentelemetry_sdk::trace::Tracer,
    filter: tracing_subscriber::EnvFilter,
) -> bool {
    let telemetry = tracing_opentelemetry::layer().with_tracer(tracer);
    let subscriber = tracing_subscriber::Registry::default().with(telemetry).with(filter);
    tracing::subscriber::set_global_default(subscriber).is_ok()
}

impl Config {
    /// Turns this configuration into installed process-wide tracing state: a
    /// batching exporter pipeline over the configured transport, the W3C
    /// trace-context propagator, and a global subscriber filtering at `info`
    /// severity with the `h2` wire-protocol library's diagnostics suppressed.
    ///
    /// Must run under a tokio runtime. Fails with `UnsupportedProtocol`
    /// exactly when the protocol string is unrecognized, with
    /// `PipelineConstructionFailed` when the exporter pipeline cannot be set
    /// up, and with `AlreadyInitialized` when this process already has a
    /// global subscriber; on success the returned guard tears the state down.
    pub fn init(&self) -> (r: Result<ShutdownGuard, ConfigError>)
        ensures
            (r matches Err(e) && e == ConfigError::UnsupportedProtocol)
                <==> !recognized_protocol(self.protocol()),
            r matches Err(e) ==> (e == ConfigError::UnsupportedProtocol
                || e == ConfigError::PipelineConstructionFailed
                || e == ConfigError::AlreadyInitialized),
            r matches Ok(g) ==> g.is_armed() && recognized_protocol(self.protocol()),
    {
        let protocol = match parse_protocol(self.otel_protocol()) {
            Some(p) => p,
            None => {
                return Err(ConfigError::UnsupportedProtocol);
            },
        };
        let exporter = match protocol {
            Protocol::HttpProtobuf => http_exporter(self.otel_endpoint()),
            Protocol::Grpc => grpc_exporter(self.otel_endpoint()),
        };
        let tracer = match install_batch_pipeline(exporter) {
            Some(t) => t,
            None => {
                return Err(ConfigError::PipelineConstructionFailed);
            },
        };
        install_w3c_propagator();
        let filter = match parse_env_filter("info,h2=off") {
            Some(f) => f,
            None => {
                return Err(ConfigError::PipelineConstructionFailed);
            },
        };
        if install_global_subscriber(tracer, filter) {
            Ok(ShutdownGuard::new())
        } else {
            Err(ConfigError::AlreadyInitialized)
        }
    }
}

} // verus!
