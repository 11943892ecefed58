//! Channel configuration: compression, mTLS identity, keep-alive and the
//! TLS-by-default policy.

use vstd::prelude::*;

use crate::error::GrpcChannelConfigError;
use crate::text::{ascii_lower, chars_of, occurs_at, starts_with, to_ascii_lower};

verus! {

broadcast use vstd::string::group_string_axioms;

/// Wire-level compression scheme for gRPC payloads.
#[derive(Debug, Clone, Copy, PartialEq, Eq, Structural)]
pub enum CompressionMode {
    /// No compression (the `identity` encoding).
    Identity,
    /// gzip compression.
    Gzip,
    /// zstandard compression.
    Zstd,
}

/// The `grpc-encoding` header value of a mode; identity has none.
pub open spec fn header_value_spec(mode: CompressionMode) -> Option<Seq<char>> {
    match mode {
        CompressionMode::Identity => Option::None,
        CompressionMode::Gzip => Option::Some("gzip"@),
        CompressionMode::Zstd => Option::Some("zstd"@),
    }
}

impl CompressionMode {
    /// `grpc-encoding` header value, or `None` for identity-only.
    pub fn header_value(self) -> (r: Option<&'static str>)
        ensures
            r matches Option::Some(s) ==> header_value_spec(self) == Option::Some(s@),
            r is None <==> header_value_spec(self) is None,
    {
        match self {
            CompressionMode::Identity => Option::None,
            CompressionMode::Gzip => Option::Some("gzip"),
            CompressionMode::Zstd => Option::Some("zstd"),
        }
    }
}

impl Default for CompressionMode {
    /// No compression.
    fn default() -> (m: Self)
        ensures
            m == CompressionMode::Identity,
    {
        CompressionMode::Identity
    }
}

/// Outbound mTLS identity: client certificate chain, private key and an
/// optional CA bundle pinned for verifying the server.
#[derive(Debug, Clone)]
pub struct MtlsConfig {
    /// PEM file holding the client certificate chain (leaf first).
    pub cert_pem_path: String,
    /// PEM file holding the client's private key.
    pub key_pem_path: String,
    /// CA bundle pinned for server verification; `None` uses platform roots.
    pub ca_pem_path: Option<String>,
}

impl MtlsConfig {
    /// An mTLS identity verified against the platform trust roots.
    pub fn new(cert_pem_path: &str, key_pem_path: &str) -> (c: Self)
        ensures
            c.cert_pem_path@ == cert_pem_path@,
            c.key_pem_path@ == key_pem_path@,
            c.ca_pem_path is None,
    {
        MtlsConfig {
            cert_pem_path: cert_pem_path.to_string(),
            key_pem_path: key_pem_path.to_string(),
            ca_pem_path: Option::None,
        }
    }

    /// An mTLS identity that pins a specific CA bundle.
    pub fn with_pinned_ca(cert_pem_path: &str, key_pem_path: &str, ca_pem_path: &str) -> (c: Self)
        ensures
            c.cert_pem_path@ == cert_pem_path@,
            c.key_pem_path@ == key_pem_path@,
            c.ca_pem_path matches Option::Some(ca) && ca@ == ca_pem_path@,
    {
        MtlsConfig {
            cert_pem_path: cert_pem_path.to_string(),
            key_pem_path: key_pem_path.to_string(),
            ca_pem_path: Option::Some(ca_pem_path.to_string()),
        }
    }
}

/// HTTP/2 keep-alive ping policy, in milliseconds.
#[derive(Debug, Clone, Copy)]
pub struct KeepAliveConfig {
    /// Interval between PING frames.
    pub interval_ms: u64,
    /// Time allowed for a PING acknowledgement.
    pub timeout_ms: u64,
    /// Send pings even when no call is active.
    pub permit_without_calls: bool,
}

impl Default for KeepAliveConfig {
    /// gRPC's recommended client settings: 10 s interval, 20 s timeout.
    fn default() -> (c: Self)
        ensures
            c.interval_ms == 10_000,
            c.timeout_ms == 20_000,
            !c.permit_without_calls,
    {
        KeepAliveConfig { interval_ms: 10_000, timeout_ms: 20_000, permit_without_calls: false }
    }
}

/// Default ceiling on one inbound message: 4 MiB.
pub const DEFAULT_MAX_MESSAGE_BYTES: usize = 4194304;

/// Configuration of one outbound gRPC channel.  TLS is required by
/// default; plaintext needs an explicit [`GrpcChannelConfig::allow_plaintext`].
#[derive(Debug, Clone)]
pub struct GrpcChannelConfig {
    /// Channel endpoint.
    pub endpoint: String,
    /// Require TLS on the wire; a plaintext endpoint is refused when set.
    pub tls_required: bool,
    /// Optional mTLS client identity.
    pub mtls: Option<MtlsConfig>,
    /// Optional HTTP/2 keep-alive policy.
    pub keep_alive: Option<KeepAliveConfig>,
    /// Cap on one response message, in bytes.
    pub max_message_bytes: usize,
    /// Compression of outbound payloads.
    pub compression: CompressionMode,
}

impl GrpcChannelConfig {
    /// A TLS-required channel to `endpoint` with every other setting at its default.
    pub fn new(endpoint: &str) -> (c: Self)
        ensures
            c.endpoint@ == endpoint@,
            c.tls_required,
            c.mtls is None,
            c.keep_alive is None,
            c.max_message_bytes == DEFAULT_MAX_MESSAGE_BYTES,
            c.compression == CompressionMode::Identity,
    {
        GrpcChannelConfig {
            endpoint: endpoint.to_string(),
            tls_required: true,
            mtls: Option::None,
            keep_alive: Option::None,
            max_message_bytes: DEFAULT_MAX_MESSAGE_BYTES,
            compression: CompressionMode::Identity,
        }
    }

    /// Explicitly relax the TLS requirement.
    pub fn allow_plaintext(self) -> (c: Self)
        ensures
            c == (GrpcChannelConfig { tls_required: false, ..self }),
    {
        GrpcChannelConfig { tls_required: false, ..self }
    }

    /// Attach an mTLS client identity.
    pub fn with_mtls(self, mtls: MtlsConfig) -> (c: Self)
        ensures
            c == (GrpcChannelConfig { mtls: Option::Some(mtls), ..self }),
    {
        GrpcChannelConfig { mtls: Option::Some(mtls), ..self }
    }

    /// Attach an HTTP/2 keep-alive policy.
    pub fn with_keep_alive(self, keep_alive: KeepAliveConfig) -> (c: Self)
        ensures
            c == (GrpcChannelConfig { keep_alive: Option::Some(keep_alive), ..self }),
    {
        GrpcChannelConfig { keep_alive: Option::Some(keep_alive), ..self }
    }

    /// Set the cap on one response message.
    pub fn with_max_message_bytes(self, bytes: usize) -> (c: Self)
        ensures
            c == (GrpcChannelConfig { max_message_bytes: bytes, ..self }),
    {
        GrpcChannelConfig { max_message_bytes: bytes, ..self }
    }

    /// Set the compression mode.
    pub fn with_compression(self, mode: CompressionMode) -> (c: Self)
        ensures
            c == (GrpcChannelConfig { compression: mode, ..self }),
    {
        GrpcChannelConfig { compression: mode, ..self }
    }
}

impl Default for GrpcChannelConfig {
    /// Empty endpoint, TLS required, no mTLS, no keep-alive, 4 MiB cap,
    /// no compression.
    fn default() -> (c: Self)
        ensures
            c.endpoint@ == Seq::<char>::empty(),
            c.tls_required,
            c.mtls is None,
            c.keep_alive is None,
            c.max_message_bytes == DEFAULT_MAX_MESSAGE_BYTES,
            c.compression == CompressionMode::Identity,
    {
        GrpcChannelConfig {
            endpoint: String::new(),
            tls_required: true,
            mtls: Option::None,
            keep_alive: Option::None,
            max_message_bytes: DEFAULT_MAX_MESSAGE_BYTES,
            compression: CompressionMode::Identity,
        }
    }
}

/// Whether an endpoint dials without TLS: its scheme is `http`, in any case.
pub open spec fn is_plaintext_endpoint(endpoint: Seq<char>) -> bool {
    occurs_at(ascii_lower(endpoint), "http://"@, 0)
}

/// Whether the TLS policy refuses a channel: TLS is required and the
/// endpoint is plaintext.
pub open spec fn refuses_channel(c: GrpcChannelConfig) -> bool {
    c.tls_required && is_plaintext_endpoint(c.endpoint@)
}

/// The TLS policy of a channel: a plaintext endpoint is refused while
/// `tls_required` is set, and the error carries the endpoint.
pub fn check_transport_security(config: &GrpcChannelConfig) -> (r: Result<(), GrpcChannelConfigError>)
    ensures
        r is Err <==> refuses_channel(*config),
        r matches Err(e) ==> e matches GrpcChannelConfigError::PlaintextRejected(ep) && ep@ == config.endpoint@,
{
    if !config.tls_required {
        return Ok(());
    }
    let endpoint = chars_of(config.endpoint.as_str());
    let lower = to_ascii_lower(endpoint.as_slice());
    let scheme = chars_of("http://");
    if starts_with(lower.as_slice(), scheme.as_slice()) {
        Err(GrpcChannelConfigError::PlaintextRejected(config.endpoint.clone()))
    } else {
        Ok(())
    }
}

/// TLS is relaxed only by opting in: a plaintext endpoint is refused
/// exactly while `tls_required` is set, so clearing it (`allow_plaintext`)
/// is the one way to dial it, and a TLS endpoint is never refused.
pub proof fn lemma_plaintext_needs_opt_in(c: GrpcChannelConfig)
    ensures
        is_plaintext_endpoint(c.endpoint@) ==> (refuses_channel(c) <==> c.tls_required),
        !refuses_channel(GrpcChannelConfig { tls_required: false, ..c }),
        !is_plaintext_endpoint(c.endpoint@) ==> !refuses_channel(c),
{
}

} // verus!
