//! Protocol-level theorems about the wire model.
//!
//! The decoders in [`crate::parsing`] are specified against the model in
//! [`crate::wire`]; the lemmas here state what that model itself
//! guarantees: the two top-level grammars cannot be confused, re-encoding a
//! decoded frame reproduces exactly the bytes it consumed, every encoded
//! frame decodes back to itself, and back-to-back frames in one buffer
//! decode one after the other, each consuming exactly its own bytes.

use crate::frame::{FrameType, ProtocolVersion};
use crate::wire::{be16, be32, encode_protocol_header, encode_raw_frame, frame_type_of_tag,
    literal_match_upto, protocol_header_bad, protocol_header_incomplete, protocol_header_ok,
    protocol_literal_byte, protocol_version_of, raw_bad_end, raw_bad_tag, raw_channel,
    raw_frame_incomplete, raw_frame_ok, raw_payload, raw_size, raw_tag_known, raw_total,
    tag_of_frame_type, u16_be, u32_be, FRAME_END};
use vstd::arithmetic::div_mod::{lemma_div_denominator, lemma_fundamental_div_mod};
use vstd::prelude::*;

verus! {

/// The handshake grammar and the frame grammar are disjoint from the first
/// byte on: the literal's opening `'A'` is not a frame tag, so the
/// top-level decoder may commit to one grammar after one byte.
pub proof fn lemma_grammars_prefix_disjoint(s: Seq<u8>)
    ensures
        protocol_header_ok(s) ==> !raw_tag_known(s),
        raw_tag_known(s) ==> !protocol_header_ok(s),
{
    if protocol_header_ok(s) {
        assert(s[0] == protocol_literal_byte(0));
        assert(frame_type_of_tag(65) is None);
    }
}

/// Every input falls in exactly one of the frame envelope's four outcome
/// categories. Together with the contract of
/// [`crate::parsing::parse_raw_frame`], whose arms are these categories,
/// this pins the extractor's outcome completely for every input.
pub proof fn lemma_raw_outcomes_partition(s: Seq<u8>)
    ensures
        raw_frame_ok(s) || raw_frame_incomplete(s) || raw_bad_tag(s) || raw_bad_end(s),
        raw_frame_ok(s) ==> !raw_frame_incomplete(s) && !raw_bad_tag(s) && !raw_bad_end(s),
        raw_frame_incomplete(s) ==> !raw_bad_tag(s) && !raw_bad_end(s),
        raw_bad_tag(s) ==> !raw_bad_end(s),
{
}

/// Every input falls in exactly one of the handshake's three outcome
/// categories; with the contract of
/// [`crate::parsing::parse_protocol_header`], this pins the recognizer's
/// outcome completely for every input.
pub proof fn lemma_protocol_header_outcomes_partition(s: Seq<u8>)
    ensures
        protocol_header_ok(s) || protocol_header_incomplete(s) || protocol_header_bad(s),
        protocol_header_ok(s) ==> !protocol_header_incomplete(s) && !protocol_header_bad(s),
        protocol_header_incomplete(s) ==> !protocol_header_bad(s),
{
}

/// Splitting `q * d + r` at a chunk boundary recovers both halves.
proof fn lemma_chunk_div(q: int, r: int, d: int)
    requires
        0 < d,
        0 <= q,
        0 <= r < d,
    ensures
        (q * d + r) / d == q,
        (q * d + r) % d == r,
{
    assert((q * d + r) / d == q && (q * d + r) % d == r) by (nonlinear_arith)
        requires
            0 < d,
            0 <= q,
            0 <= r < d,
    ;
}

/// Re-encoding the value of two big-endian bytes gives those bytes back.
proof fn lemma_u16_be_of_be16(t: Seq<u8>)
    requires
        t.len() == 2,
    ensures
        u16_be(be16(t)) == t,
{
    let v = be16(t);
    lemma_chunk_div(t[0] as int, t[1] as int, 256);
    assert(v / 256 == t[0] && v % 256 == t[1]);
    assert(u16_be(v) =~= t);
}

/// Re-encoding the value of four big-endian bytes gives those bytes back.
proof fn lemma_u32_be_of_be32(t: Seq<u8>)
    requires
        t.len() == 4,
    ensures
        u32_be(be32(t)) == t,
{
    let v = be32(t);
    let a = t[0] * 256 + t[1];
    let b = a * 256 + t[2];
    assert(v == b * 256 + t[3]);
    lemma_chunk_div(b, t[3] as int, 256);
    assert(v / 256 == b && v % 256 == t[3]);
    assert(v == a * 65536 + (t[2] * 256 + t[3]));
    lemma_chunk_div(a, t[2] * 256 + t[3], 65536);
    assert(v / 65536 == a);
    assert(v == t[0] * 16777216 + (t[1] * 65536 + t[2] * 256 + t[3]));
    lemma_chunk_div(t[0] as int, t[1] * 65536 + t[2] * 256 + t[3], 16777216);
    assert(v / 16777216 == t[0]);
    lemma_chunk_div(t[0] as int, t[1] as int, 256);
    assert(a / 256 == t[0] && a % 256 == t[1]);
    lemma_chunk_div(a, t[2] as int, 256);
    assert(b % 256 == t[2]);
    assert(u32_be(v) =~= t);
}

/// Decoding the big-endian encoding of a 16-bit value gives the value back.
proof fn lemma_be16_of_u16_be(v: int)
    requires
        0 <= v < 65536,
    ensures
        be16(u16_be(v)) == v,
{
    lemma_fundamental_div_mod(v, 256);
    assert(v / 256 < 256) by (nonlinear_arith)
        requires
            0 <= v < 65536,
    ;
    assert((v / 256) % 256 == v / 256) by (nonlinear_arith)
        requires
            0 <= v / 256 < 256,
    ;
}

/// Decoding the big-endian encoding of a 32-bit value gives the value back.
proof fn lemma_be32_of_u32_be(v: int)
    requires
        0 <= v < 4294967296,
    ensures
        be32(u32_be(v)) == v,
{
    lemma_fundamental_div_mod(v, 256);
    lemma_fundamental_div_mod(v / 256, 256);
    lemma_fundamental_div_mod(v / 65536, 256);
    lemma_div_denominator(v, 256, 256);
    lemma_div_denominator(v, 65536, 256);
    assert(v / 16777216 < 256) by (nonlinear_arith)
        requires
            0 <= v < 4294967296,
    ;
    assert((v / 16777216) % 256 == v / 16777216) by (nonlinear_arith)
        requires
            0 <= v / 16777216 < 256,
    ;
}

/// Round trip for the handshake: re-encoding the version decoded from a
/// complete protocol header reproduces exactly the eight bytes consumed.
pub proof fn lemma_protocol_header_round_trip(s: Seq<u8>)
    requires
        protocol_header_ok(s),
    ensures
        encode_protocol_header(protocol_version_of(s)) == s.subrange(0, 8),
{
    assert forall|j: int| 0 <= j < 5 implies s[j] == protocol_literal_byte(j) by {
        assert(literal_match_upto(s, 5));
    }
    let enc = encode_protocol_header(protocol_version_of(s));
    assert(enc.len() == 8);
    assert forall|j: int| 0 <= j < 8 implies enc[j] == s.subrange(0, 8)[j] by {
        assert(s.subrange(0, 8)[j] == s[j]);
        assert(enc[0] == 65 && enc[1] == 77 && enc[2] == 81 && enc[3] == 80 && enc[4] == 0);
        assert(enc[5] == s[5] && enc[6] == s[6] && enc[7] == s[7]);
        assert(s[0] == protocol_literal_byte(0) && s[1] == protocol_literal_byte(1) && s[2]
            == protocol_literal_byte(2) && s[3] == protocol_literal_byte(3) && s[4]
            == protocol_literal_byte(4));
    }
    assert(enc =~= s.subrange(0, 8));
}

/// Round trip for the frame envelope, for every frame kind: re-encoding
/// the tag, channel and payload decoded from a well-formed envelope
/// reproduces exactly the bytes the envelope occupies on the wire.
pub proof fn lemma_raw_frame_round_trip(s: Seq<u8>)
    requires
        raw_frame_ok(s),
    ensures
        encode_raw_frame(
            frame_type_of_tag(s[0]).unwrap(),
            raw_channel(s),
            raw_payload(s),
        ) == s.subrange(0, raw_total(s)),
{
    let t = frame_type_of_tag(s[0]).unwrap();
    assert(tag_of_frame_type(t) == s[0]);
    lemma_u16_be_of_be16(s.subrange(1, 3));
    assert(raw_payload(s).len() == raw_size(s));
    lemma_u32_be_of_be32(s.subrange(3, 7));
    let enc = encode_raw_frame(t, raw_channel(s), raw_payload(s));
    assert(u16_be(raw_channel(s)) == s.subrange(1, 3));
    assert(u32_be(raw_payload(s).len() as int) == s.subrange(3, 7));
    assert(enc =~= s.subrange(0, raw_total(s)));
}

/// An encoded frame envelope, followed by anything at all, decodes back to
/// exactly the tag, channel and payload that were encoded, consuming
/// exactly the envelope's bytes.
pub proof fn lemma_encoded_raw_frame_decodes(
    t: FrameType,
    channel: int,
    payload: Seq<u8>,
    tail: Seq<u8>,
)
    requires
        0 <= channel < 65536,
        payload.len() < 4294967296,
    ensures
        ({
            let s = encode_raw_frame(t, channel, payload) + tail;
            &&& raw_frame_ok(s)
            &&& raw_total(s) == 8 + payload.len()
            &&& frame_type_of_tag(s[0]) == Some(t)
            &&& raw_channel(s) == channel
            &&& raw_payload(s) == payload
        }),
{
    let enc = encode_raw_frame(t, channel, payload);
    let s = enc + tail;
    assert(enc.len() == 8 + payload.len());
    assert(s[0] == tag_of_frame_type(t));
    assert(frame_type_of_tag(tag_of_frame_type(t)) == Some(t));
    assert(s.subrange(1, 3) =~= u16_be(channel));
    lemma_be16_of_u16_be(channel);
    assert(s.subrange(3, 7) =~= u32_be(payload.len() as int));
    lemma_be32_of_u32_be(payload.len() as int);
    assert(raw_size(s) == payload.len());
    assert(s.subrange(7, 7 + raw_size(s)) =~= payload);
    assert(s[raw_total(s) - 1] == FRAME_END);
}

/// An encoded protocol header, followed by anything at all, decodes back
/// to exactly the version that was encoded.
pub proof fn lemma_encoded_protocol_header_decodes(v: ProtocolVersion, tail: Seq<u8>)
    ensures
        ({
            let s = encode_protocol_header(v) + tail;
            &&& protocol_header_ok(s)
            &&& protocol_version_of(s) == v
        }),
{
    let s = encode_protocol_header(v) + tail;
    assert forall|j: int| 0 <= j < 5 implies s[j] == protocol_literal_byte(j) by {
        assert(s[j] == encode_protocol_header(v)[j]);
    }
}

/// Bytes arriving after a well-formed frame envelope change nothing about
/// it: the decode of the longer buffer has the same tag, channel, payload
/// and length. This is what lets a caller keep appending socket reads to
/// one buffer and re-decode from its start.
pub proof fn lemma_raw_frame_extend(s: Seq<u8>, ext: Seq<u8>)
    requires
        raw_frame_ok(s),
    ensures
        raw_frame_ok(s + ext),
        raw_total(s + ext) == raw_total(s),
        frame_type_of_tag((s + ext)[0]) == frame_type_of_tag(s[0]),
        raw_channel(s + ext) == raw_channel(s),
        raw_payload(s + ext) == raw_payload(s),
{
    let b = s + ext;
    assert(b.subrange(1, 3) =~= s.subrange(1, 3));
    assert(b.subrange(3, 7) =~= s.subrange(3, 7));
    assert(raw_size(b) == raw_size(s));
    assert(b.subrange(7, 7 + raw_size(b)) =~= s.subrange(7, 7 + raw_size(s)));
    assert(b[raw_total(b) - 1] == s[raw_total(s) - 1]);
}

/// Two back-to-back well-formed frames in one buffer decode sequentially:
/// the first decode consumes exactly the first frame's bytes, and what
/// remains is exactly the second frame, which decodes on its own.
pub proof fn lemma_frames_in_sequence(f1: Seq<u8>, f2: Seq<u8>)
    requires
        raw_frame_ok(f1),
        raw_total(f1) == f1.len(),
        raw_frame_ok(f2),
    ensures
        raw_frame_ok(f1 + f2),
        raw_total(f1 + f2) == f1.len(),
        frame_type_of_tag((f1 + f2)[0]) == frame_type_of_tag(f1[0]),
        raw_channel(f1 + f2) == raw_channel(f1),
        raw_payload(f1 + f2) == raw_payload(f1),
        (f1 + f2).skip(f1.len() as int) == f2,
{
    lemma_raw_frame_extend(f1, f2);
    assert((f1 + f2).skip(f1.len() as int) =~= f2);
}

} // verus!

