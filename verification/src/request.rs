//! The request and response envelopes of a unary call.

use vstd::prelude::*;

use crate::metadata::GrpcMetadata;

verus! {

broadcast use vstd::string::group_string_axioms;

/// `tokio_util`'s cancellation token: carried through the library, never
/// inspected by it.
#[verifier::external_type_specification]
#[verifier::external_body]
pub struct ExCancellationToken(tokio_util::sync::CancellationToken);

/// A gRPC request envelope.
///
/// Every call carries a per-call deadline, in nanoseconds: it is a
/// required argument of [`GrpcRequest::new`], with no default.  A caller's
/// cancellation token may be attached; when it fires the transport aborts
/// the call.
#[derive(Debug, Clone)]
pub struct GrpcRequest {
    /// Fully-qualified method path, such as `pkg.Service/Method`.
    pub method: String,
    /// Raw protobuf-encoded request bytes.
    pub body: Vec<u8>,
    /// Request metadata (headers).
    pub metadata: GrpcMetadata,
    /// Per-call deadline in nanoseconds.
    pub deadline_ns: u128,
    /// Optional caller-supplied cancellation token.
    pub cancellation: Option<tokio_util::sync::CancellationToken>,
}

impl GrpcRequest {
    /// A request for `method` with body `body` and the mandatory deadline.
    pub fn new(method: &str, body: Vec<u8>, deadline_ns: u128) -> (r: Self)
        ensures
            r.method@ == method@,
            r.body@ == body@,
            r.metadata@ == Map::<Seq<char>, Seq<char>>::empty(),
            r.deadline_ns == deadline_ns,
            r.cancellation is None,
    {
        GrpcRequest {
            method: method.to_string(),
            body,
            metadata: GrpcMetadata::new(),
            deadline_ns,
            cancellation: None,
        }
    }

    /// Replace the whole metadata block.
    pub fn with_metadata(self, metadata: GrpcMetadata) -> (r: Self)
        ensures
            r == (GrpcRequest { metadata, ..self }),
    {
        GrpcRequest { metadata, ..self }
    }

    /// Add one metadata entry, replacing an earlier value of the same name.
    pub fn with_header(self, name: &str, value: &str) -> (r: Self)
        ensures
            r.metadata@ == self.metadata@.insert(name@, value@),
            r.method == self.method,
            r.body == self.body,
            r.deadline_ns == self.deadline_ns,
            r.cancellation == self.cancellation,
    {
        let mut r = self;
        r.metadata.insert(name, value);
        r
    }

    /// Attach a caller-supplied cancellation token.
    pub fn with_cancellation(self, token: tokio_util::sync::CancellationToken) -> (r: Self)
        ensures
            r == (GrpcRequest { cancellation: Some(token), ..self }),
    {
        GrpcRequest { cancellation: Some(token), ..self }
    }
}

/// A gRPC response envelope.
#[derive(Debug, Clone)]
pub struct GrpcResponse {
    /// Raw protobuf-encoded response bytes.
    pub body: Vec<u8>,
    /// Response metadata (trailers).
    pub metadata: GrpcMetadata,
}

} // verus!
