//! W3C Trace Context propagation for outbound calls.
//!
//! A request that already carries a `traceparent` keeps it.  Otherwise the
//! interceptor may inject a fixed `traceparent` (and `tracestate`).
//! Propagation only: no span is started and nothing is sampled.

use vstd::prelude::*;

use crate::error::GrpcOutboundError;
use crate::request::{GrpcRequest, GrpcResponse};

verus! {

broadcast use vstd::string::group_string_axioms;

/// Source of the trace context the interceptor injects.
#[derive(Debug, Clone)]
pub enum TraceContextSource {
    /// No automatic injection.
    PassThrough,
    /// Inject a fixed `traceparent`, and `tracestate` when given.
    Static {
        /// Verbatim `traceparent` header value.
        traceparent: String,
        /// Optional `tracestate` header value.
        tracestate: Option<String>,
    },
}

/// The metadata after propagation: unchanged when a `traceparent` is
/// present or the source injects nothing; otherwise with the configured
/// `traceparent` (and `tracestate`) set.
pub open spec fn traced_metadata(source: TraceContextSource, m: Map<Seq<char>, Seq<char>>) -> Map<Seq<char>, Seq<char>> {
    if m.contains_key("traceparent"@) {
        m
    } else {
        match source {
            TraceContextSource::PassThrough => m,
            TraceContextSource::Static { traceparent, tracestate } => {
                let with_parent = m.insert("traceparent"@, traceparent@);
                match tracestate {
                    Some(state) => with_parent.insert("tracestate"@, state@),
                    None => with_parent,
                }
            },
        }
    }
}

/// W3C Trace Context propagation interceptor.
#[derive(Debug, Clone)]
pub struct TraceContextInterceptor {
    source: TraceContextSource,
}

impl View for TraceContextInterceptor {
    type V = TraceContextSource;

    closed spec fn view(&self) -> TraceContextSource {
        self.source
    }
}

impl TraceContextInterceptor {
    /// An interceptor that never injects.
    pub fn pass_through() -> (i: Self)
        ensures
            i@ == TraceContextSource::PassThrough,
    {
        TraceContextInterceptor { source: TraceContextSource::PassThrough }
    }

    /// An interceptor that injects a fixed `traceparent` when none is present.
    pub fn with_static(traceparent: &str, tracestate: Option<String>) -> (i: Self)
        ensures
            i@ matches TraceContextSource::Static { traceparent: tp, tracestate: ts }
                && tp@ == traceparent@ && ts == tracestate,
    {
        TraceContextInterceptor {
            source: TraceContextSource::Static { traceparent: traceparent.to_string(), tracestate },
        }
    }

    /// Propagate the trace context into an outgoing request.  Never fails.
    pub fn before_call(&self, req: &mut GrpcRequest) -> (r: Result<(), GrpcOutboundError>)
        ensures
            r is Ok,
            final(req).metadata@ == traced_metadata(self@, old(req).metadata@),
            final(req).method == old(req).method,
            final(req).body == old(req).body,
            final(req).deadline_ns == old(req).deadline_ns,
            final(req).cancellation == old(req).cancellation,
    {
        if req.metadata.contains_key("traceparent") {
            return Ok(());
        }
        match &self.source {
            TraceContextSource::PassThrough => Ok(()),
            TraceContextSource::Static { traceparent, tracestate } => {
                req.metadata.insert("traceparent", traceparent.as_str());
                match tracestate {
                    Some(state) => {
                        req.metadata.insert("tracestate", state.as_str());
                    },
                    None => {},
                }
                Ok(())
            },
        }
    }

    /// Observe an incoming response; leaves it untouched and never fails.
    pub fn after_call(&self, resp: &mut GrpcResponse) -> (r: Result<(), GrpcOutboundError>)
        ensures
            r is Ok,
            *final(resp) == *old(resp),
    {
        Ok(())
    }
}

/// A `traceparent` set upstream is never overwritten, whatever the source.
pub proof fn lemma_upstream_traceparent_preserved(source: TraceContextSource, m: Map<Seq<char>, Seq<char>>)
    requires
        m.contains_key("traceparent"@),
    ensures
        traced_metadata(source, m) == m,
{
}

/// A pass-through interceptor never changes the metadata.
pub proof fn lemma_pass_through_is_identity(m: Map<Seq<char>, Seq<char>>)
    ensures
        traced_metadata(TraceContextSource::PassThrough, m) == m,
{
}

/// After propagation with a static source, a `traceparent` is always
/// present: the upstream one if there was one, else the configured one.
pub proof fn lemma_static_source_guarantees_traceparent(traceparent: String, tracestate: Option<String>, m: Map<Seq<char>, Seq<char>>)
    ensures
        ({
            let out = traced_metadata(TraceContextSource::Static { traceparent, tracestate }, m);
            &&& out.contains_key("traceparent"@)
            &&& out["traceparent"@] == if m.contains_key("traceparent"@) { m["traceparent"@] } else { traceparent@ }
        }),
{
    reveal_strlit("traceparent");
    reveal_strlit("tracestate");
    assert("traceparent"@.len() != "tracestate"@.len());
    assert("traceparent"@ != "tracestate"@);
}

} // verus!
