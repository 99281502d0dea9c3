//! Configuration and management of a process-wide distributed-tracing export
//! pipeline, and propagation of trace context across process boundaries.
//!
//! A caller stages an endpoint and a protocol on a [`ConfigBuilder`], builds a
//! validated [`Config`], and installs it with [`Config::init`], receiving a
//! [`ShutdownGuard`] whose release flushes buffered spans. While the pipeline
//! is installed, [`Config::get_trace_context`] and [`Config::set_trace_context`]
//! carry the ambient span's identity across process boundaries as a JSON
//! carrier string.

mod config;
mod context;
mod guard;
mod pipeline;

pub use config::Config;
pub use context::ContextError;
pub use context::capture_then_restore;
pub use context::carrier_map;
pub use context::parsed_carrier;
pub use context::unique_keys;
pub use guard::ShutdownGuard;
pub use config::ConfigBuilder;
pub use config::ConfigError;
pub use config::Protocol;
pub use config::default_protocol;
pub use config::parse_protocol;
pub use config::protocol_grpc;
pub use config::protocol_http;
pub use config::recognized_protocol;
