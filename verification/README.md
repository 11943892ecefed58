# swe-edge-egress-grpc

Outbound gRPC transport for the `swe-edge` stack, with its decision logic
verified in Verus.

* `src/` — the verified library: status codes, their wire values and their `tonic::Code`
  counterparts, the
  length-prefixed frame format, the `grpc-timeout` encoding, channel
  configuration with TLS by default, request metadata, W3C trace-context
  propagation, classification of `RESOURCE_EXHAUSTED` replies, the retry
  tracks, the circuit breaker, the retry loop of the resilient client, and
  the preparation and checking of what goes on and comes off the wire.
* `app/` — the shell around it: the hyper/rustls HTTP/2 client, async
  plumbing, clocks and sleeps, floating-point backoff with jitter, serde and
  thiserror copies of the library's types.
* `tests/` — tests of the library.

Request deadlines, and the clock of the retry loop, are nanoseconds; the
circuit breaker's clock and retry backoffs are milliseconds.  Clock
readings come from a monotonic clock that the caller supplies.
