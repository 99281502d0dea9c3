//! Validated configuration for the tracing export pipeline: a builder with an
//! optional endpoint and protocol, and the immutable `Config` it produces.

use vstd::prelude::*;

verus! {

/// The wire protocols a collector endpoint can be reached over.
#[derive(Clone, Copy, PartialEq, Eq, Structural, Debug)]
pub enum Protocol {
    HttpProtobuf,
    Grpc,
}

/// Everything that can go wrong while building a `Config` or installing the
/// pipeline it describes.
#[derive(Clone, Copy, PartialEq, Eq, Structural, Debug)]
pub enum ConfigError {
    /// The required endpoint was never set, or was set to the empty string.
    MissingEndpoint,
    /// The protocol string is neither `"http/protobuf"` nor `"grpc"`.
    UnsupportedProtocol,
    /// The exporter pipeline could not be constructed or the severity filter
    /// could not be parsed.
    PipelineConstructionFailed,
    /// A global subscriber is already installed in this process.
    AlreadyInitialized,
}

/// The protocol string selecting the HTTP transport with protobuf payloads.
pub open spec fn protocol_http() -> Seq<char> {
    "http/protobuf"@
}

/// The protocol string selecting the gRPC transport.
pub open spec fn protocol_grpc() -> Seq<char> {
    "grpc"@
}

/// The default protocol substituted when none was set, fixed by the tracing
/// export specification to the HTTP/protobuf transport.
pub open spec fn default_protocol() -> Seq<char> {
    protocol_http()
}

/// Whether `p` is one of the two recognized protocol strings.
pub open spec fn recognized_protocol(p: Seq<char>) -> bool {
    p == protocol_http() || p == protocol_grpc()
}

/// Maps a protocol string to the transport it selects, or `None` for any
/// unrecognized string.
pub fn parse_protocol(p: &String) -> (r: Option<Protocol>)
    ensures
        r == Some(Protocol::HttpProtobuf) <==> p@ == protocol_http(),
        r == Some(Protocol::Grpc) <==> p@ == protocol_grpc(),
        r is None <==> !recognized_protocol(p@),
{
    proof {
        reveal_strlit("http/protobuf");
        reveal_strlit("grpc");
        assert(protocol_http().len() == 13);
        assert(protocol_grpc().len() == 4);
    }
    if *p == "http/protobuf".to_owned() {
        Some(Protocol::HttpProtobuf)
    } else if *p == "grpc".to_owned() {
        Some(Protocol::Grpc)
    } else {
        None
    }
}

/// A validated, immutable configuration: a non-empty collector endpoint and a
/// protocol string.
#[derive(Debug)]
pub struct Config {
    pub(crate) otel_endpoint: String,
    pub(crate) otel_protocol: String,
}

impl Config {
    /// The collector endpoint this configuration points at.
    pub closed spec fn endpoint(&self) -> Seq<char> {
        self.otel_endpoint@
    }

    /// The protocol string this configuration carries.
    pub closed spec fn protocol(&self) -> Seq<char> {
        self.otel_protocol@
    }

    /// Creates a new builder with no endpoint and no protocol set.
    pub fn builder() -> (r: ConfigBuilder)
        ensures
            r.endpoint_opt() is None,
            r.protocol_opt() is None,
    {
        ConfigBuilder::default()
    }

    /// The collector endpoint this configuration points at.
    pub fn otel_endpoint(&self) -> (r: &String)
        ensures
            r@ == self.endpoint(),
    {
        &self.otel_endpoint
    }

    /// The protocol string this configuration carries.
    pub fn otel_protocol(&self) -> (r: &String)
        ensures
            r@ == self.protocol(),
    {
        &self.otel_protocol
    }
}

/// Mutable staging object for a `Config`: both fields stay optional until the
/// explicit, fallible build step.
pub struct ConfigBuilder {
    otel_endpoint: Option<String>,
    otel_protocol: Option<String>,
}

impl ConfigBuilder {
    /// The endpoint staged so far, if any.
    pub closed spec fn endpoint_opt(&self) -> Option<Seq<char>> {
        match self.otel_endpoint {
            Some(e) => Some(e@),
            None => None,
        }
    }

    /// The protocol staged so far, if any.
    pub closed spec fn protocol_opt(&self) -> Option<Seq<char>> {
        match self.otel_protocol {
            Some(p) => Some(p@),
            None => None,
        }
    }

    /// Stages the collector endpoint. No validation happens here.
    pub fn otel_endpoint(self, otel_endpoint: String) -> (r: Self)
        ensures
            r.endpoint_opt() == Some(otel_endpoint@),
            r.protocol_opt() == self.protocol_opt(),
    {
        ConfigBuilder { otel_endpoint: Some(otel_endpoint), ..self }
    }

    /// Stages the protocol string. No validation happens here.
    pub fn otel_protocol(self, otel_protocol: String) -> (r: Self)
        ensures
            r.protocol_opt() == Some(otel_protocol@),
            r.endpoint_opt() == self.endpoint_opt(),
    {
        ConfigBuilder { otel_protocol: Some(otel_protocol), ..self }
    }

    /// Validates the staged fields and produces an immutable `Config`.
    ///
    /// Fails with `MissingEndpoint` exactly when no endpoint was staged or the
    /// staged endpoint is empty; substitutes the fixed default protocol when
    /// none was staged.
    pub fn build(self) -> (r: Result<Config, ConfigError>)
        ensures
            match r {
                Ok(c) => {
                    &&& self.endpoint_opt() is Some
                    &&& self.endpoint_opt().unwrap().len() > 0
                    &&& c.endpoint() == self.endpoint_opt().unwrap()
                    &&& c.protocol() == (match self.protocol_opt() {
                        Some(p) => p,
                        None => default_protocol(),
                    })
                },
                Err(e) => {
                    &&& e == ConfigError::MissingEndpoint
                    &&& (self.endpoint_opt() is None || self.endpoint_opt().unwrap().len() == 0)
                },
            },
    {
        match self.otel_endpoint {
            None => Err(ConfigError::MissingEndpoint),
            Some(otel_endpoint) => {
                if otel_endpoint.as_str().is_empty() {
                    Err(ConfigError::MissingEndpoint)
                } else {
                    let otel_protocol = match self.otel_protocol {
                        Some(p) => p,
                        None => "http/protobuf".to_owned(),
                    };
                    Ok(Config { otel_endpoint, otel_protocol })
                }
            },
        }
    }
}

impl Default for ConfigBuilder {
    /// A builder with no endpoint and no protocol set.
    fn default() -> (r: Self)
        ensures
            r.endpoint_opt() is None,
            r.protocol_opt() is None,
    {
        ConfigBuilder { otel_endpoint: None, otel_protocol: None }
    }
}

} // verus!
