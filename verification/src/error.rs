//! Error types of outbound calls and of channel configuration.

use vstd::prelude::*;
use vstd::string::StringExecFns;

use crate::status_code::{code_name, GrpcStatusCode};

verus! {

broadcast use vstd::string::group_string_axioms;

/// Error of an outbound gRPC operation.
///
/// `Status` is a well-formed reply that carried a non-`OK` status code with
/// a sanitized, server-supplied message.  The other variants are
/// transport-level conditions met before the server returned a status, or
/// after the local deadline fired.
#[derive(Debug)]
pub enum GrpcOutboundError {
    /// The remote returned a non-`OK` gRPC status with a sanitized message.
    Status(GrpcStatusCode, String),
    /// The transport could not establish a connection.
    ConnectionFailed(String),
    /// The local per-call deadline elapsed before a response was received.
    Timeout(String),
    /// An unexpected client-side condition.
    Internal(String),
    /// The remote endpoint was unavailable.
    Unavailable(String),
    /// The caller cancelled the in-flight request.
    Cancelled(String),
}

/// Result of an outbound gRPC operation.
pub type GrpcOutboundResult<T> = Result<T, GrpcOutboundError>;

/// Error raised when a channel configuration is refused.
#[derive(Debug, Clone)]
pub enum GrpcChannelConfigError {
    /// A plaintext endpoint was given while TLS is required; carries the endpoint.
    PlaintextRejected(String),
    /// A resilience setting is out of range; carries the reason.
    Config(String),
}

/// An outbound error with its texts as character sequences.
pub enum ErrorView {
    Status(GrpcStatusCode, Seq<char>),
    ConnectionFailed(Seq<char>),
    Timeout(Seq<char>),
    Internal(Seq<char>),
    Unavailable(Seq<char>),
    Cancelled(Seq<char>),
}

impl View for GrpcOutboundError {
    type V = ErrorView;

    open spec fn view(&self) -> ErrorView {
        match self {
            GrpcOutboundError::Status(code, m) => ErrorView::Status(*code, m@),
            GrpcOutboundError::ConnectionFailed(m) => ErrorView::ConnectionFailed(m@),
            GrpcOutboundError::Timeout(m) => ErrorView::Timeout(m@),
            GrpcOutboundError::Internal(m) => ErrorView::Internal(m@),
            GrpcOutboundError::Unavailable(m) => ErrorView::Unavailable(m@),
            GrpcOutboundError::Cancelled(m) => ErrorView::Cancelled(m@),
        }
    }
}

/// The message that every unexpected client-side condition carries on the
/// wire; details go to the log, never to the caller.
pub open spec fn sanitized_internal_text() -> Seq<char> {
    "internal client error"@
}

/// The sanitized `Internal` error.
pub fn sanitized_internal() -> (e: GrpcOutboundError)
    ensures
        e@ == ErrorView::Internal(sanitized_internal_text()),
{
    GrpcOutboundError::Internal("internal client error".to_string())
}

/// The human-readable rendering of an outbound error.
pub open spec fn render_outbound(e: GrpcOutboundError) -> Seq<char> {
    match e {
        GrpcOutboundError::Status(code, m) => "status "@ + code_name(code) + ": "@ + m@,
        GrpcOutboundError::ConnectionFailed(m) => "connection failed: "@ + m@,
        GrpcOutboundError::Timeout(m) => "timeout: "@ + m@,
        GrpcOutboundError::Internal(m) => "internal: "@ + m@,
        GrpcOutboundError::Unavailable(m) => "unavailable: "@ + m@,
        GrpcOutboundError::Cancelled(m) => "cancelled: "@ + m@,
    }
}

/// The human-readable rendering of a configuration error.
pub open spec fn render_config(e: GrpcChannelConfigError) -> Seq<char> {
    match e {
        GrpcChannelConfigError::PlaintextRejected(m) => "plaintext endpoint rejected while TLS is required: "@ + m@,
        GrpcChannelConfigError::Config(m) => "invalid resilience configuration: "@ + m@,
    }
}

impl GrpcOutboundError {
    /// Render the error as text (`status NotFound: no such row`, ...).
    pub fn to_message(&self) -> (s: String)
        ensures
            s@ == render_outbound(*self),
    {
        match self {
            GrpcOutboundError::Status(code, m) => {
                let s = "status ".to_string();
                let s = s.concat(code.name());
                let s = s.concat(": ");
                s.concat(m.as_str())
            },
            GrpcOutboundError::ConnectionFailed(m) => "connection failed: ".to_string().concat(m.as_str()),
            GrpcOutboundError::Timeout(m) => "timeout: ".to_string().concat(m.as_str()),
            GrpcOutboundError::Internal(m) => "internal: ".to_string().concat(m.as_str()),
            GrpcOutboundError::Unavailable(m) => "unavailable: ".to_string().concat(m.as_str()),
            GrpcOutboundError::Cancelled(m) => "cancelled: ".to_string().concat(m.as_str()),
        }
    }
}

impl Clone for GrpcOutboundError {
    /// A copy with the same variant, code and text.
    fn clone(&self) -> (e: Self)
        ensures
            e@ == self@,
    {
        match self {
            GrpcOutboundError::Status(code, m) => GrpcOutboundError::Status(*code, m.clone()),
            GrpcOutboundError::ConnectionFailed(m) => GrpcOutboundError::ConnectionFailed(m.clone()),
            GrpcOutboundError::Timeout(m) => GrpcOutboundError::Timeout(m.clone()),
            GrpcOutboundError::Internal(m) => GrpcOutboundError::Internal(m.clone()),
            GrpcOutboundError::Unavailable(m) => GrpcOutboundError::Unavailable(m.clone()),
            GrpcOutboundError::Cancelled(m) => GrpcOutboundError::Cancelled(m.clone()),
        }
    }
}

impl GrpcChannelConfigError {
    /// Render the error as text.
    pub fn to_message(&self) -> (s: String)
        ensures
            s@ == render_config(*self),
    {
        match self {
            GrpcChannelConfigError::PlaintextRejected(m) => "plaintext endpoint rejected while TLS is required: ".to_string().concat(m.as_str()),
            GrpcChannelConfigError::Config(m) => "invalid resilience configuration: ".to_string().concat(m.as_str()),
        }
    }
}

} // verus!
