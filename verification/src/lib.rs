//! Outbound gRPC transport: the verified core.
//!
//! The library holds the decisions of an outbound gRPC client: the status
//! code table, the gRPC length-prefixed frame format, the `grpc-timeout`
//! header encoding, channel configuration with TLS-by-default, request
//! metadata, W3C trace-context propagation, classification of
//! `RESOURCE_EXHAUSTED` replies, the retry tracks, the circuit breaker and
//! the retry loop of the resilient client.  Network I/O, clocks, sleeping
//! and floating-point backoff live in the application crate around it.

pub mod circuit_breaker;
pub mod error;
pub mod frame;
pub mod interceptor;
pub mod metadata;
pub mod processor;
pub mod request;
pub mod resource_exhausted;
pub mod retry;
pub mod status_code;
pub mod text;
pub mod timeout;
pub mod tonic_code;
pub mod value_object;
pub mod wire;

pub use circuit_breaker::{build_circuit_breaker, BreakerState, CircuitBreaker, ConsecutiveFailureBreaker};
pub use error::{GrpcChannelConfigError, GrpcOutboundError, GrpcOutboundResult};
pub use interceptor::{TraceContextInterceptor, TraceContextSource};
pub use metadata::GrpcMetadata;
pub use processor::Processor;
pub use request::{GrpcRequest, GrpcResponse};
pub use resource_exhausted::{classify_resource_exhausted, parse_retry_after_hint, ResourceExhaustedContext};
pub use retry::{
    check_retry_limits, is_breaker_failure_error, is_retryable, retry_outcome, retry_track, CallAction, CallEvent,
    ResilientCall, RetryDecision, RetryOutcome, RetryPolicyBuilder, RetryPolicyPort, RetryTrack,
};
pub use status_code::{from_wire, to_wire, GrpcStatusCode};
pub use timeout::encode_grpc_timeout;
pub use tonic_code::{from_tonic_code, to_tonic_code};
pub use value_object::{
    check_transport_security, CompressionMode, GrpcChannelConfig, KeepAliveConfig, MtlsConfig,
    DEFAULT_MAX_MESSAGE_BYTES,
};
pub use wire::{
    call_uri, check_grpc_status, health_check_outcome, health_check_target, metadata_is_valid, prepare_stream_call, prepare_unary_call,
    target_address, PreparedCall,
};
