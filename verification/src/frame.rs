//! The gRPC length-prefixed message framing.
//!
//! A frame is one compression-flag byte, a four-byte big-endian length and
//! that many payload bytes.  Frames are written uncompressed; on reading,
//! the flag is passed over and the payload handed on as it is.

use vstd::prelude::*;

use crate::error::{sanitized_internal, sanitized_internal_text, ErrorView, GrpcOutboundError};

verus! {

/// The four big-endian bytes of `n`.
pub open spec fn be32(n: u32) -> Seq<u8> {
    seq![(n >> 24u32) as u8, (n >> 16u32) as u8, (n >> 8u32) as u8, n as u8]
}

/// The value of four big-endian bytes.
pub open spec fn be32_value(b0: u8, b1: u8, b2: u8, b3: u8) -> nat {
    (b0 as nat) * 16777216 + (b1 as nat) * 65536 + (b2 as nat) * 256 + (b3 as nat)
}

/// The length field of a frame: the payload length modulo 2^32.
pub open spec fn length_field(len: nat) -> u32 {
    (len % 4294967296) as u32
}

/// The uncompressed frame carrying `payload`.
pub open spec fn frame_spec(payload: Seq<u8>) -> Seq<u8> {
    seq![0u8] + be32(length_field(payload.len())) + payload
}

/// The concatenation of the frames of `msgs`, in order.
pub open spec fn frames_spec(msgs: Seq<Seq<u8>>) -> Seq<u8>
    decreases msgs.len(),
{
    if msgs.len() == 0 {
        Seq::empty()
    } else {
        frames_spec(msgs.drop_last()) + frame_spec(msgs.last())
    }
}

/// `xs` prepended to a decoded remainder, or `None` when the remainder failed.
pub open spec fn prefixed(xs: Seq<Seq<u8>>, rest: Option<Seq<Seq<u8>>>) -> Option<Seq<Seq<u8>>> {
    match rest {
        Some(r) => Some(xs + r),
        None => None,
    }
}

/// The payloads of all complete frames of `data`, in order.  A trailing
/// run shorter than a header is ignored; a header announcing more bytes
/// than remain makes the whole input malformed (`None`).
pub open spec fn decode_spec(data: Seq<u8>) -> Option<Seq<Seq<u8>>>
    decreases data.len(),
{
    if data.len() < 5 {
        Some(Seq::empty())
    } else {
        let len = be32_value(data[1], data[2], data[3], data[4]) as int;
        if data.len() - 5 < len {
            None
        } else {
            prefixed(seq![data.subrange(5, 5 + len)], decode_spec(data.subrange(5 + len, data.len() as int)))
        }
    }
}

/// The big-endian bytes of a `u32` read back as that `u32`.
pub proof fn lemma_be32_round_trip(n: u32)
    ensures
        be32_value((n >> 24u32) as u8, (n >> 16u32) as u8, (n >> 8u32) as u8, n as u8) == n,
{
    let b0 = (n >> 24u32) as u8;
    let b1 = (n >> 16u32) as u8;
    let b2 = (n >> 8u32) as u8;
    let b3 = n as u8;
    assert(b0 as u32 * 16777216u32 + b1 as u32 * 65536u32 + b2 as u32 * 256u32 + b3 as u32 == n
        && b0 as u32 <= 255 && b1 as u32 <= 255 && b2 as u32 <= 255 && b3 as u32 <= 255)
        by (bit_vector)
        requires
            b0 == (n >> 24u32) as u8,
            b1 == (n >> 16u32) as u8,
            b2 == (n >> 8u32) as u8,
            b3 == n as u8,
    ;
}

/// Decoding one frame followed by more bytes gives its payload followed
/// by whatever the rest decodes to.
pub proof fn lemma_decode_frame_then(payload: Seq<u8>, rest: Seq<u8>)
    requires
        payload.len() < 4294967296,
    ensures
        decode_spec(frame_spec(payload) + rest) == prefixed(seq![payload], decode_spec(rest)),
{
    let n = length_field(payload.len());
    assert(n == payload.len());
    lemma_be32_round_trip(n);
    let data = frame_spec(payload) + rest;
    assert(data[1] == (n >> 24u32) as u8);
    assert(data[2] == (n >> 16u32) as u8);
    assert(data[3] == (n >> 8u32) as u8);
    assert(data[4] == n as u8);
    assert(data.subrange(5, 5 + payload.len() as int) =~= payload);
    assert(data.subrange(5 + payload.len() as int, data.len() as int) =~= rest);
}

/// The compression flag is passed over: a frame with any flag byte, its
/// big-endian length and its payload decodes to that payload, followed by
/// whatever the rest decodes to.
pub proof fn lemma_decode_any_flag_then(flag: u8, payload: Seq<u8>, rest: Seq<u8>)
    requires
        payload.len() < 4294967296,
    ensures
        decode_spec(seq![flag] + be32(payload.len() as u32) + payload + rest)
            == prefixed(seq![payload], decode_spec(rest)),
{
    let n = payload.len() as u32;
    lemma_be32_round_trip(n);
    let data = seq![flag] + be32(n) + payload + rest;
    assert(data[1] == (n >> 24u32) as u8);
    assert(data[2] == (n >> 16u32) as u8);
    assert(data[3] == (n >> 8u32) as u8);
    assert(data[4] == n as u8);
    assert(data.subrange(5, 5 + payload.len() as int) =~= payload);
    assert(data.subrange(5 + payload.len() as int, data.len() as int) =~= rest);
}

/// Decoding does not look at the first byte: replacing the flag byte of
/// the first frame by any other byte decodes the same.
pub proof fn lemma_flag_byte_ignored(data: Seq<u8>, flag: u8)
    requires
        data.len() >= 5,
    ensures
        decode_spec(data.update(0, flag)) == decode_spec(data),
{
    let d2 = data.update(0, flag);
    assert(d2[1] == data[1] && d2[2] == data[2] && d2[3] == data[3] && d2[4] == data[4]);
    let len = be32_value(data[1], data[2], data[3], data[4]) as int;
    if data.len() - 5 >= len {
        assert(d2.subrange(5, 5 + len) =~= data.subrange(5, 5 + len));
        assert(d2.subrange(5 + len, d2.len() as int) =~= data.subrange(5 + len, data.len() as int));
    }
}

/// A header announcing more payload bytes than follow makes the whole
/// input malformed, whatever came before it.
pub proof fn lemma_truncated_frame_is_malformed(flag: u8, n: u32, payload: Seq<u8>)
    requires
        payload.len() < n,
    ensures
        decode_spec(seq![flag] + be32(n) + payload) is None,
{
    lemma_be32_round_trip(n);
    let data = seq![flag] + be32(n) + payload;
    assert(data[1] == (n >> 24u32) as u8);
    assert(data[2] == (n >> 16u32) as u8);
    assert(data[3] == (n >> 8u32) as u8);
    assert(data[4] == n as u8);
}

/// Fewer than five bytes hold no frame and decode to nothing.
pub proof fn lemma_short_tail_is_empty(data: Seq<u8>)
    requires
        data.len() < 5,
    ensures
        decode_spec(data) == Some(Seq::<Seq<u8>>::empty()),
{
}

/// A single frame decodes to exactly its payload.
pub proof fn lemma_decode_single_frame(payload: Seq<u8>)
    requires
        payload.len() < 4294967296,
    ensures
        decode_spec(frame_spec(payload)) == Some(seq![payload]),
{
    lemma_decode_frame_then(payload, Seq::empty());
    assert(frame_spec(payload) + Seq::<u8>::empty() =~= frame_spec(payload));
    assert(seq![payload] + Seq::<Seq<u8>>::empty() =~= seq![payload]);
}

/// The frames of a sequence of messages decode back to those messages,
/// in order, provided each fits the 32-bit length field.
pub proof fn lemma_decode_frames_round_trip(msgs: Seq<Seq<u8>>)
    requires
        forall|i: int| 0 <= i < msgs.len() ==> (#[trigger] msgs[i]).len() < 4294967296,
    ensures
        decode_spec(frames_spec(msgs)) == Some(msgs),
    decreases msgs.len(),
{
    lemma_frames_then(msgs, Seq::empty());
    assert(frames_spec(msgs) + Seq::<u8>::empty() =~= frames_spec(msgs));
    assert(msgs + Seq::<Seq<u8>>::empty() =~= msgs);
}

/// Frames followed by more bytes decode to the messages followed by the
/// decoding of the rest.
#[verifier::spinoff_prover]
pub proof fn lemma_frames_then(msgs: Seq<Seq<u8>>, rest: Seq<u8>)
    requires
        forall|i: int| 0 <= i < msgs.len() ==> (#[trigger] msgs[i]).len() < 4294967296,
    ensures
        decode_spec(frames_spec(msgs) + rest) == prefixed(msgs, decode_spec(rest)),
    decreases msgs.len(),
{
    if msgs.len() == 0 {
        assert(frames_spec(msgs) + rest =~= rest);
        match decode_spec(rest) {
            Some(r) => { assert(msgs + r =~= r); },
            None => {},
        }
    } else {
        let init = msgs.drop_last();
        let last = msgs.last();
        assert(msgs[msgs.len() - 1] == last);
        lemma_decode_frame_then(last, rest);
        assert forall|i: int| 0 <= i < init.len() implies (#[trigger] init[i]).len() < 4294967296 by {
            assert(init[i] == msgs[i]);
        }
        lemma_frames_then(init, frame_spec(last) + rest);
        assert(frames_spec(msgs) + rest =~= frames_spec(init) + (frame_spec(last) + rest));
        match decode_spec(rest) {
            Some(r) => {
                assert(init + (seq![last] + r) =~= msgs + r);
            },
            None => {},
        }
    }
}

fn push_be32(out: &mut Vec<u8>, n: u32)
    ensures
        final(out)@ == old(out)@ + be32(n),
{
    out.push((n >> 24u32) as u8);
    out.push((n >> 16u32) as u8);
    out.push((n >> 8u32) as u8);
    out.push(n as u8);
    assert(final(out)@ =~= old(out)@ + be32(n));
}

fn push_all(out: &mut Vec<u8>, bytes: &[u8])
    ensures
        final(out)@ == old(out)@ + bytes@,
{
    let ghost start = out@;
    let mut i: usize = 0;
    while i < bytes.len()
        invariant
            i <= bytes@.len(),
            out@ == start + bytes@.take(i as int),
        decreases bytes@.len() - i,
    {
        out.push(bytes[i]);
        assert(start + bytes@.take(i + 1) =~= (start + bytes@.take(i as int)).push(bytes@[i as int]));
        i = i + 1;
    }
    assert(bytes@.take(bytes@.len() as int) =~= bytes@);
}

/// Encode `payload` as one uncompressed gRPC frame.
pub fn encode_grpc_frame(payload: &[u8]) -> (frame: Vec<u8>)
    ensures
        frame@ == frame_spec(payload@),
{
    let mut out: Vec<u8> = Vec::new();
    out.push(0u8);
    let len = ((payload.len() as u64) % 4294967296u64) as u32;
    push_be32(&mut out, len);
    push_all(&mut out, payload);
    assert(out@ =~= frame_spec(payload@));
    out
}

/// Encode each message as a frame, concatenated in order: the body of a
/// streaming request.
pub fn encode_grpc_frames(msgs: &[Vec<u8>]) -> (body: Vec<u8>)
    ensures
        body@ == frames_spec(msgs@.map_values(|m: Vec<u8>| m@)),
{
    let ghost views = msgs@.map_values(|m: Vec<u8>| m@);
    let mut out: Vec<u8> = Vec::new();
    let mut i: usize = 0;
    while i < msgs.len()
        invariant
            i <= msgs@.len(),
            views == msgs@.map_values(|m: Vec<u8>| m@),
            out@ == frames_spec(views.take(i as int)),
        decreases msgs@.len() - i,
    {
        let f = encode_grpc_frame(msgs[i].as_slice());
        push_all(&mut out, f.as_slice());
        assert(views.take(i + 1).drop_last() =~= views.take(i as int));
        assert(views.take(i + 1).last() == msgs@[i as int]@);
        i = i + 1;
    }
    assert(views.take(msgs@.len() as int) =~= views);
    out
}

fn copy_range(data: &[u8], from: usize, to: usize) -> (out: Vec<u8>)
    requires
        from <= to <= data@.len(),
    ensures
        out@ == data@.subrange(from as int, to as int),
{
    let mut out: Vec<u8> = Vec::new();
    let mut i: usize = from;
    while i < to
        invariant
            from <= i <= to,
            to <= data@.len(),
            out@ == data@.subrange(from as int, i as int),
        decreases to - i,
    {
        out.push(data[i]);
        assert(data@.subrange(from as int, i + 1) =~= data@.subrange(from as int, i as int).push(data@[i as int]));
        i = i + 1;
    }
    out
}

/// Decode the payloads of all complete frames in `data`.
///
/// A frame whose header announces more bytes than remain yields the
/// sanitized `Internal` error; no byte counts reach the caller.
pub fn decode_grpc_frames(data: &[u8]) -> (r: Result<Vec<Vec<u8>>, GrpcOutboundError>)
    ensures
        match r {
            Ok(frames) => decode_spec(data@) == Some(frames@.map_values(|f: Vec<u8>| f@)),
            Err(e) => decode_spec(data@) is None
                && e@ == ErrorView::Internal(sanitized_internal_text()),
        },
{
    let mut out: Vec<Vec<u8>> = Vec::new();
    let mut pos: usize = 0;
    proof {
        assert(data@.subrange(0, data@.len() as int) =~= data@);
        assert(out@.map_values(|f: Vec<u8>| f@) =~= Seq::<Seq<u8>>::empty());
        match decode_spec(data@) {
            Some(r) => { assert(Seq::<Seq<u8>>::empty() + r =~= r); },
            None => {},
        }
    }
    while data.len() - pos >= 5
        invariant
            pos <= data@.len(),
            decode_spec(data@) == prefixed(out@.map_values(|f: Vec<u8>| f@),
                decode_spec(data@.subrange(pos as int, data@.len() as int))),
        decreases data@.len() - pos,
    {
        let ghost rest = data@.subrange(pos as int, data@.len() as int);
        let len32: u32 = (data[pos + 1] as u32) * 16777216u32 + (data[pos + 2] as u32) * 65536u32
            + (data[pos + 3] as u32) * 256u32 + (data[pos + 4] as u32);
        assert(len32 == be32_value(rest[1], rest[2], rest[3], rest[4]));
        let len = len32 as usize;
        let body_start = pos + 5;
        if data.len() - body_start < len {
            return Err(sanitized_internal());
        }
        let payload = copy_range(data, body_start, body_start + len);
        let ghost prev = out@.map_values(|f: Vec<u8>| f@);
        out.push(payload);
        assert(rest.subrange(5, 5 + len) =~= data@.subrange(body_start as int, body_start + len));
        assert(rest.subrange(5 + len, rest.len() as int) =~= data@.subrange(body_start + len, data@.len() as int));
        assert(out@.map_values(|f: Vec<u8>| f@) =~= prev + seq![rest.subrange(5, 5 + len)]);
        proof {
            match decode_spec(data@.subrange(body_start + len, data@.len() as int)) {
                Some(r) => {
                    assert(prev + (seq![rest.subrange(5, 5 + len)] + r) =~= out@.map_values(|f: Vec<u8>| f@) + r);
                },
                None => {},
            }
        }
        pos = body_start + len;
    }
    let ghost tail = data@.subrange(pos as int, data@.len() as int);
    assert(decode_spec(tail) == Some(Seq::<Seq<u8>>::empty()));
    assert(out@.map_values(|f: Vec<u8>| f@) + Seq::<Seq<u8>>::empty() =~= out@.map_values(|f: Vec<u8>| f@));
    Ok(out)
}

/// The message bytes of a unary response body: the body with its five-byte
/// frame header removed, or the body unchanged when it is shorter than a header.
pub open spec fn unary_payload_spec(body: Seq<u8>) -> Seq<u8> {
    if body.len() >= 5 {
        body.subrange(5, body.len() as int)
    } else {
        body
    }
}

/// The payload of a unary response that is one frame is the message
/// that was framed.
pub proof fn lemma_unary_payload_of_frame(payload: Seq<u8>)
    ensures
        unary_payload_spec(frame_spec(payload)) == payload,
{
    assert(frame_spec(payload).subrange(5, frame_spec(payload).len() as int) =~= payload);
}

/// Strip the frame header from a unary response body.
pub fn unary_payload(body: &[u8]) -> (out: Vec<u8>)
    ensures
        out@ == unary_payload_spec(body@),
{
    if body.len() >= 5 {
        copy_range(body, 5, body.len())
    } else {
        copy_range(body, 0, body.len())
    }
}

} // verus!
