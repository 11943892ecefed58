//! What goes on the wire for a call and what comes back: the call URI,
//! the request headers and body, the `grpc-status` check, and the address
//! a health check dials.

use vstd::prelude::*;

use crate::error::{sanitized_internal, sanitized_internal_text, ErrorView, GrpcOutboundError};
use crate::frame::{encode_grpc_frame, encode_grpc_frames, frame_spec, frames_spec};
use crate::metadata::GrpcMetadata;
use crate::request::GrpcRequest;
use crate::status_code::{code_of_wire, from_wire, lemma_wire_in_range, lemma_wire_round_trip, wire_of, GrpcStatusCode};
use crate::text::{
    chars_of, decimal, decimal_string, digit_value, digits_value, is_digit, lemma_decimal_reads_back,
    parse_i32, parse_i32_spec, string_of_chars,
};
use crate::timeout::{encode_grpc_timeout, timeout_header_spec};
use crate::value_object::{header_value_spec, CompressionMode};

verus! {

broadcast use vstd::string::group_string_axioms;

/// `http`'s URI type.
#[verifier::external_type_specification]
#[verifier::external_body]
pub struct ExUri(http::Uri);

/// `http`'s URI parse error.
#[verifier::external_type_specification]
#[verifier::external_body]
pub struct ExInvalidUri(http::uri::InvalidUri);

/// Whether `http` accepts the text as a URI.
pub uninterp spec fn uri_parses(s: Seq<char>) -> bool;

/// The URI `http` parses from the text, when it parses.
pub uninterp spec fn uri_value(s: Seq<char>) -> http::Uri;

/// The host `http` reads from the text, when it parses and has one.
pub uninterp spec fn uri_host_of(s: Seq<char>) -> Option<Seq<char>>;

/// The port `http` reads from the text, when it parses and has one.
pub uninterp spec fn uri_port_of(s: Seq<char>) -> Option<u16>;

/// `<http::Uri as FromStr>::from_str`.  Claimed: the parse succeeds
/// exactly when `uri_parses` holds of the text, and then gives
/// `uri_value` of the text; the parse depends on the text alone.  What
/// `uri_parses` and `uri_value` are, is not stated (it is http's URI
/// grammar).
#[verifier::external_body]
fn parse_uri(s: &str) -> (r: Result<http::Uri, http::uri::InvalidUri>)
    ensures
        r is Ok <==> uri_parses(s@),
        r matches Ok(u) ==> u == uri_value(s@),
{
    s.parse::<http::Uri>()
}

/// `http::Uri::host` of the parsed text.  Claimed: the result is
/// `uri_host_of` of the text, and `None` when the text does not parse.
#[verifier::external_body]
fn uri_host(s: &str) -> (r: Option<String>)
    ensures
        r matches Some(h) ==> uri_host_of(s@) == Some(h@),
        r is None ==> uri_host_of(s@) is None,
        !uri_parses(s@) ==> r is None,
{
    match s.parse::<http::Uri>() {
        Ok(u) => u.host().map(|h| h.to_string()),
        Err(_) => None,
    }
}

/// `http::Uri::port_u16` of the parsed text.  Claimed: the result is
/// `uri_port_of` of the text, and `None` when the text does not parse.
#[verifier::external_body]
fn uri_port(s: &str) -> (r: Option<u16>)
    ensures
        r == uri_port_of(s@),
        !uri_parses(s@) ==> r is None,
{
    match s.parse::<http::Uri>() {
        Ok(u) => u.port_u16(),
        Err(_) => None,
    }
}

// ── header names and values ─────────────────────────────────────────────────

/// A character http accepts in a header name (an HTTP token character;
/// upper-case letters are accepted and lower-cased).
pub open spec fn header_name_char(c: char) -> bool {
    ||| c == '!'
    ||| ('#' <= c && c <= '\'')
    ||| c == '*' || c == '+' || c == '-' || c == '.'
    ||| ('0' <= c && c <= '9')
    ||| ('A' <= c && c <= 'Z')
    ||| ('^' <= c && c <= 'z')
    ||| c == '|' || c == '~'
}

/// Whether http accepts the text as a header name: one to 65 535 token
/// characters.
pub open spec fn valid_header_name(s: Seq<char>) -> bool {
    &&& 1 <= s.len() <= 65_535
    &&& forall|i: int| 0 <= i < s.len() ==> header_name_char(#[trigger] s[i])
}

/// A character http accepts in a header value: a tab, or anything but a
/// control character (every byte of a non-ASCII character is accepted).
pub open spec fn header_value_char(c: char) -> bool {
    c == '\t' || (c >= ' ' && c != '\x7f')
}

/// Whether http accepts the text as a header value.
pub open spec fn valid_header_value(s: Seq<char>) -> bool {
    forall|i: int| 0 <= i < s.len() ==> header_value_char(#[trigger] s[i])
}

/// Whether every metadata entry is a valid header.
pub open spec fn valid_metadata(es: Seq<(Seq<char>, Seq<char>)>) -> bool {
    forall|i: int| 0 <= i < es.len() ==> valid_header_name((#[trigger] es[i]).0) && valid_header_value(es[i].1)
}

/// `http::header::HeaderName::from_bytes` on the text's bytes, as the
/// request builder converts a `&str` name.  Claimed, as http's source
/// shows (`parse_hdr` with its `HEADER_CHARS` table and
/// `MAX_HEADER_NAME_LEN`): it succeeds exactly on one to 65 535 token
/// characters.
#[verifier::external_body]
fn header_name_accepted(name: &str) -> (b: bool)
    ensures
        b == valid_header_name(name@),
{
    http::header::HeaderName::from_bytes(name.as_bytes()).is_ok()
}

/// `http::header::HeaderValue::from_str`, as the request builder converts
/// a `&str` value.  Claimed, as http's source shows (`is_valid` on every
/// byte: a tab, or at least a space and not DEL): it succeeds exactly when
/// every character is a tab or no control character.
#[verifier::external_body]
fn header_value_accepted(value: &str) -> (b: bool)
    ensures
        b == valid_header_value(value@),
{
    http::header::HeaderValue::from_str(value).is_ok()
}

/// Whether http accepts every metadata entry as a header.
pub fn metadata_is_valid(metadata: &GrpcMetadata) -> (b: bool)
    ensures
        b == valid_metadata(metadata.entries()),
{
    let pairs = metadata.pairs();
    let mut i: usize = 0;
    while i < pairs.len()
        invariant
            i <= pairs@.len(),
            pairs@.map_values(|p: (String, String)| (p.0@, p.1@)) == metadata.entries(),
            forall|j: int| 0 <= j < i ==> valid_header_name((#[trigger] metadata.entries()[j]).0)
                && valid_header_value(metadata.entries()[j].1),
        decreases pairs@.len() - i,
    {
        assert(metadata.entries()[i as int] == (pairs@[i as int].0@, pairs@[i as int].1@));
        if !header_name_accepted(pairs[i].0.as_str()) || !header_value_accepted(pairs[i].1.as_str()) {
            return false;
        }
        i = i + 1;
    }
    true
}

// ── the call URI ────────────────────────────────────────────────────────────

/// `s` without its trailing `/` characters, as `str::trim_end_matches('/')`.
pub open spec fn trim_slashes(s: Seq<char>) -> Seq<char>
    decreases s.len(),
{
    if s.len() > 0 && s.last() == '/' { trim_slashes(s.drop_last()) } else { s }
}

/// The URI of a call: the base without trailing slashes, `/`, the method.
pub open spec fn call_uri_spec(base: Seq<char>, method: Seq<char>) -> Seq<char> {
    trim_slashes(base) + seq!['/'] + method
}

/// Build the URI of a call to `method` on `base_uri`.
pub fn call_uri(base_uri: &str, method: &str) -> (s: String)
    ensures
        s@ == call_uri_spec(base_uri@, method@),
{
    let base = chars_of(base_uri);
    let mut end = base.len();
    assert(base@.take(end as int) =~= base@);
    while end > 0 && base[end - 1] == '/'
        invariant
            end <= base@.len(),
            trim_slashes(base@) == trim_slashes(base@.take(end as int)),
        decreases end,
    {
        assert(base@.take(end as int).drop_last() =~= base@.take(end - 1));
        end = end - 1;
    }
    let mut out: Vec<char> = Vec::new();
    let mut i: usize = 0;
    while i < end
        invariant
            end <= base@.len(),
            i <= end,
            out@ == base@.take(i as int),
        decreases end - i,
    {
        out.push(base[i]);
        assert(base@.take(i + 1) =~= base@.take(i as int).push(base@[i as int]));
        i = i + 1;
    }
    assert(trim_slashes(base@.take(end as int)) == base@.take(end as int));
    out.push('/');
    let m = chars_of(method);
    let mut k: usize = 0;
    let ghost head = out@;
    while k < m.len()
        invariant
            k <= m@.len(),
            out@ == head + m@.take(k as int),
        decreases m@.len() - k,
    {
        out.push(m[k]);
        assert(head + m@.take(k + 1) =~= (head + m@.take(k as int)).push(m@[k as int]));
        k = k + 1;
    }
    assert(m@.take(m@.len() as int) =~= m@);
    assert(out@ =~= call_uri_spec(base_uri@, method@));
    string_of_chars(out.as_slice())
}

// ── request headers ─────────────────────────────────────────────────────────

/// A header as two character sequences.
pub open spec fn header_view(h: (String, String)) -> (Seq<char>, Seq<char>) {
    (h.0@, h.1@)
}

/// The headers of a call, in order: `content-type: application/grpc`,
/// `te: trailers`, `grpc-encoding` when compressing, `grpc-timeout` when a
/// deadline is given, then the caller's metadata in insertion order.
pub open spec fn request_headers_spec(
    metadata: Seq<(Seq<char>, Seq<char>)>,
    deadline_ns: Option<u128>,
    compression: CompressionMode,
) -> Seq<(Seq<char>, Seq<char>)> {
    let fixed = seq![("content-type"@, "application/grpc"@), ("te"@, "trailers"@)];
    let encoding = match header_value_spec(compression) {
        Some(v) => seq![("grpc-encoding"@, v)],
        None => Seq::empty(),
    };
    let timeout = match deadline_ns {
        Some(ns) => seq![("grpc-timeout"@, timeout_header_spec(ns as nat))],
        None => Seq::empty(),
    };
    fixed + encoding + timeout + metadata
}

/// The headers of a call.
pub fn request_headers(metadata: &GrpcMetadata, deadline_ns: Option<u128>, compression: CompressionMode)
    -> (hs: Vec<(String, String)>)
    ensures
        hs@.map_values(|h: (String, String)| header_view(h))
            == request_headers_spec(metadata.entries(), deadline_ns, compression),
{
    let mut hs: Vec<(String, String)> = Vec::new();
    hs.push(("content-type".to_string(), "application/grpc".to_string()));
    hs.push(("te".to_string(), "trailers".to_string()));
    let ghost fixed = hs@.map_values(|h: (String, String)| header_view(h));
    assert(fixed =~= seq![("content-type"@, "application/grpc"@), ("te"@, "trailers"@)]);
    match compression.header_value() {
        Some(v) => {
            hs.push(("grpc-encoding".to_string(), v.to_string()));
        },
        None => {},
    }
    let ghost with_encoding = hs@.map_values(|h: (String, String)| header_view(h));
    match deadline_ns {
        Some(ns) => {
            hs.push(("grpc-timeout".to_string(), encode_grpc_timeout(ns)));
        },
        None => {},
    }
    let ghost with_timeout = hs@.map_values(|h: (String, String)| header_view(h));
    assert(with_timeout =~= request_headers_spec(Seq::empty(), deadline_ns, compression));
    let pairs = metadata.pairs();
    let mut i: usize = 0;
    while i < pairs.len()
        invariant
            i <= pairs@.len(),
            pairs@.map_values(|p: (String, String)| (p.0@, p.1@)) == metadata.entries(),
            hs@.map_values(|h: (String, String)| header_view(h)) == with_timeout + metadata.entries().take(i as int),
        decreases pairs@.len() - i,
    {
        let ghost prev = hs@;
        let entry = (pairs[i].0.clone(), pairs[i].1.clone());
        assert(metadata.entries()[i as int] == (pairs@[i as int].0@, pairs@[i as int].1@));
        hs.push(entry);
        assert(hs@.map_values(|h: (String, String)| header_view(h))
            =~= prev.map_values(|h: (String, String)| header_view(h)).push(header_view(entry)));
        assert(metadata.entries().take(i + 1) =~= metadata.entries().take(i as int).push(metadata.entries()[i as int]));
        i = i + 1;
    }
    assert(metadata.entries().take(pairs@.len() as int) =~= metadata.entries());
    assert(with_timeout + metadata.entries() =~= request_headers_spec(metadata.entries(), deadline_ns, compression));
    hs
}

// ── prepared calls ──────────────────────────────────────────────────────────

/// A call ready to be sent: where, with which headers, with which body.
pub struct PreparedCall {
    /// The parsed call URI.
    pub uri: http::Uri,
    /// Request headers, in order.
    pub headers: Vec<(String, String)>,
    /// The framed request body.
    pub body: Vec<u8>,
}

/// Prepare a unary call to the URI parsed from the base URI without its
/// trailing slashes, `/`, and the method: the request body as one frame,
/// the deadline as `grpc-timeout`.  An unparsable URI, or a metadata entry
/// that is not a valid header name and value, gives the sanitized
/// `Internal` error.
pub fn prepare_unary_call(base_uri: &str, request: &GrpcRequest, compression: CompressionMode)
    -> (r: Result<PreparedCall, GrpcOutboundError>)
    ensures
        r is Err <==> !uri_parses(call_uri_spec(base_uri@, request.method@))
            || !valid_metadata(request.metadata.entries()),
        r matches Err(e) ==> e@ == ErrorView::Internal(sanitized_internal_text()),
        r matches Ok(p) ==> p.uri == uri_value(call_uri_spec(base_uri@, request.method@))
            && p.body@ == frame_spec(request.body@)
            && p.headers@.map_values(|h: (String, String)| header_view(h))
                == request_headers_spec(request.metadata.entries(), Some(request.deadline_ns), compression),
{
    let uri_text = call_uri(base_uri, request.method.as_str());
    let uri = match parse_uri(uri_text.as_str()) {
        Ok(u) => u,
        Err(_) => return Err(sanitized_internal()),
    };
    if !metadata_is_valid(&request.metadata) {
        return Err(sanitized_internal());
    }
    let headers = request_headers(&request.metadata, Some(request.deadline_ns), compression);
    let body = encode_grpc_frame(request.body.as_slice());
    Ok(PreparedCall { uri, headers, body })
}

/// Prepare a streaming call to the URI parsed from the base URI without its
/// trailing slashes, `/`, and the method: every message framed, in order, the client's
/// fallback timeout as `grpc-timeout`.  An unparsable URI, or a metadata
/// entry that is not a valid header, gives the sanitized `Internal` error.
pub fn prepare_stream_call(
    base_uri: &str,
    method: &str,
    metadata: &GrpcMetadata,
    messages: &[Vec<u8>],
    timeout_ns: u128,
    compression: CompressionMode,
) -> (r: Result<PreparedCall, GrpcOutboundError>)
    ensures
        r is Err <==> !uri_parses(call_uri_spec(base_uri@, method@)) || !valid_metadata(metadata.entries()),
        r matches Err(e) ==> e@ == ErrorView::Internal(sanitized_internal_text()),
        r matches Ok(p) ==> p.uri == uri_value(call_uri_spec(base_uri@, method@))
            && p.body@ == frames_spec(messages@.map_values(|m: Vec<u8>| m@))
            && p.headers@.map_values(|h: (String, String)| header_view(h))
                == request_headers_spec(metadata.entries(), Some(timeout_ns), compression),
{
    let uri_text = call_uri(base_uri, method);
    let uri = match parse_uri(uri_text.as_str()) {
        Ok(u) => u,
        Err(_) => return Err(sanitized_internal()),
    };
    if !metadata_is_valid(metadata) {
        return Err(sanitized_internal());
    }
    let headers = request_headers(metadata, Some(timeout_ns), compression);
    let body = encode_grpc_frames(messages);
    Ok(PreparedCall { uri, headers, body })
}

// ── the reply status ────────────────────────────────────────────────────────

/// The outcome a reply's `grpc-status` and `grpc-message` denote: success
/// for an absent or `0` status; otherwise a `Status` error whose code is
/// the parsed status (`Unknown` when it does not parse) and whose message
/// is `grpc-message` verbatim (empty when absent).
pub open spec fn status_outcome(status: Option<Seq<char>>, message: Option<Seq<char>>) -> Option<ErrorView> {
    let code_text = match status { Some(s) => s, None => seq!['0'] };
    if code_text == seq!['0'] {
        None
    } else {
        let wire: int = match parse_i32_spec(code_text) { Some(v) => v as int, None => 2 };
        let text = match message { Some(m) => m, None => Seq::empty() };
        Some(ErrorView::Status(code_of_wire(wire), text))
    }
}

/// Check a reply's `grpc-status` (and `grpc-message`), as read from the
/// response headers or trailers.
pub fn check_grpc_status(status: Option<&str>, message: Option<&str>) -> (r: Result<(), GrpcOutboundError>)
    ensures
        match status_outcome(
            match status { Some(s) => Some(s@), None => None },
            match message { Some(m) => Some(m@), None => None },
        ) {
            None => r is Ok,
            Some(e) => r matches Err(err) && err@ == e,
        },
{
    let code_chars = match status {
        Some(s) => chars_of(s),
        None => {
            return Ok(());
        },
    };
    if code_chars.len() == 1 && code_chars[0] == '0' {
        assert(code_chars@ =~= seq!['0']);
        return Ok(());
    }
    assert(code_chars@ != seq!['0']);
    let wire: i32 = match parse_i32(code_chars.as_slice()) {
        Some(v) => v,
        None => 2,
    };
    let code = from_wire(wire);
    let text = match message {
        Some(m) => m.to_string(),
        None => String::new(),
    };
    Err(GrpcOutboundError::Status(code, text))
}

/// A reply whose `grpc-status` is the wire value of a non-`OK` code, in
/// decimal, gives a `Status` error with that very code and the reply's
/// message.
pub proof fn lemma_status_round_trip(code: GrpcStatusCode, message: Option<Seq<char>>)
    requires
        code != GrpcStatusCode::Success,
    ensures
        status_outcome(Some(decimal(wire_of(code) as nat)), message) == Some(ErrorView::Status(code,
            match message { Some(m) => m, None => Seq::empty() })),
{
    let n = wire_of(code);
    let d = decimal(n as nat);
    lemma_wire_in_range(code);
    lemma_wire_round_trip(code);
    lemma_decimal_reads_back(n as nat);
    assert(is_digit(d[0]));
    assert(d != seq!['0']) by {
        if d == seq!['0'] {
            assert(d.drop_last() =~= Seq::<char>::empty());
            assert(digits_value(d) == digits_value(d.drop_last()) * 10 + digit_value(d.last()));
            assert(digit_value('0') == 0);
        }
    }
    assert(parse_i32_spec(d) == Some(n as i32));
}

// ── health checks ───────────────────────────────────────────────────────────

/// The address a health check dials: host (default `127.0.0.1`), `:`,
/// port (default 50051).
pub open spec fn target_spec(host: Option<Seq<char>>, port: Option<u16>) -> Seq<char> {
    let h = match host { Some(h) => h, None => "127.0.0.1"@ };
    let p: nat = match port { Some(p) => p as nat, None => 50051 };
    h + seq![':'] + decimal(p)
}

/// Format the address a health check dials.
pub fn target_address(host: Option<&str>, port: Option<u16>) -> (s: String)
    ensures
        s@ == target_spec(
            match host { Some(h) => Some(h@), None => None },
            port,
        ),
{
    let mut out = match host {
        Some(h) => chars_of(h),
        None => chars_of("127.0.0.1"),
    };
    out.push(':');
    let p: u128 = match port {
        Some(p) => p as u128,
        None => 50051,
    };
    let digits = chars_of(decimal_string(p).as_str());
    let ghost head = out@;
    let mut k: usize = 0;
    while k < digits.len()
        invariant
            k <= digits@.len(),
            out@ == head + digits@.take(k as int),
        decreases digits@.len() - k,
    {
        out.push(digits[k]);
        assert(head + digits@.take(k + 1) =~= (head + digits@.take(k as int)).push(digits@[k as int]));
        k = k + 1;
    }
    assert(digits@.take(digits@.len() as int) =~= digits@);
    string_of_chars(out.as_slice())
}

/// The address a health check of `base_uri` dials, or the sanitized
/// `Internal` error when the URI does not parse.
pub fn health_check_target(base_uri: &str) -> (r: Result<String, GrpcOutboundError>)
    ensures
        r is Err <==> !uri_parses(base_uri@),
        r matches Err(e) ==> e@ == ErrorView::Internal(sanitized_internal_text()),
        r matches Ok(a) ==> a@ == target_spec(uri_host_of(base_uri@), uri_port_of(base_uri@)),
{
    match parse_uri(base_uri) {
        Ok(_) => {},
        Err(_) => return Err(sanitized_internal()),
    }
    let host = uri_host(base_uri);
    let port = uri_port(base_uri);
    let addr = match &host {
        Some(h) => target_address(Some(h.as_str()), port),
        None => target_address(None, port),
    };
    Ok(addr)
}

/// The message of a health check that could not connect: the address,
/// `": "`, and the connection error.
pub open spec fn unreachable_text(addr: Seq<char>, error: Seq<char>) -> Seq<char> {
    addr + seq![':', ' '] + error
}

/// The outcome of a health check of `addr`, given how the connection
/// attempt ended: `None` when it connected, else the connection error's
/// text.  A refused connection is `Unavailable("{addr}: {error}")`.
pub fn health_check_outcome(addr: &str, connect_error: Option<&str>) -> (r: Result<(), GrpcOutboundError>)
    ensures
        match connect_error {
            None => r is Ok,
            Some(e) => r matches Err(err) && err@ == ErrorView::Unavailable(unreachable_text(addr@, e@)),
        },
{
    match connect_error {
        None => Ok(()),
        Some(e) => {
            let mut out = chars_of(addr);
            out.push(':');
            out.push(' ');
            let tail = chars_of(e);
            let ghost head = out@;
            let mut k: usize = 0;
            while k < tail.len()
                invariant
                    k <= tail@.len(),
                    out@ == head + tail@.take(k as int),
                decreases tail@.len() - k,
            {
                out.push(tail[k]);
                assert(head + tail@.take(k + 1) =~= (head + tail@.take(k as int)).push(tail@[k as int]));
                k = k + 1;
            }
            assert(tail@.take(tail@.len() as int) =~= tail@);
            assert(out@ =~= unreachable_text(addr@, e@));
            Err(GrpcOutboundError::Unavailable(string_of_chars(out.as_slice())))
        }
    }
}

} // verus!
