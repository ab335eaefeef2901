//! The executable decoders, each specified against the model in
//! [`crate::wire`].
//!
//! Every decoder takes the bytes available so far and returns a
//! [`ParseOutcome`]: the decoded value with the exact number of bytes it
//! consumed, `Incomplete` when the input can still grow into something
//! valid, or `Fatal` when the bytes can never begin a valid encoding.

use crate::frame::{ContentHeader, Frame, FrameDecoders, FrameType, ParseError, ParseOutcome,
    ProtocolVersion, RawFrame};
use crate::wire::{be16, be32, be64, content_body_size, content_class_id, content_weight,
    frame_parse_incomplete, frame_type_of_tag, protocol_header_bad, protocol_header_incomplete,
    protocol_header_ok, protocol_literal_byte, protocol_version_of, raw_bad_end, raw_bad_tag,
    raw_channel, raw_frame_incomplete, raw_frame_ok, raw_payload, raw_total, FRAME_BODY,
    FRAME_END, FRAME_HEADER, FRAME_HEARTBEAT, FRAME_METHOD};
use vstd::prelude::*;
use vstd::slice::{slice_index_get, slice_subrange, slice_to_vec};

verus! {

/// Read two big-endian bytes starting at `at`.
fn read_be_u16(i: &[u8], at: usize) -> (v: u16)
    requires
        at + 2 <= i.len(),
    ensures
        v == be16(i@.subrange(at as int, at + 2)),
{
    let hi = *slice_index_get(i, at);
    let lo = *slice_index_get(i, at + 1);
    (hi as u16) * 256 + (lo as u16)
}

/// Read four big-endian bytes starting at `at`.
fn read_be_u32(i: &[u8], at: usize) -> (v: u32)
    requires
        at + 4 <= i.len(),
    ensures
        v == be32(i@.subrange(at as int, at + 4)),
{
    let b0 = *slice_index_get(i, at);
    let b1 = *slice_index_get(i, at + 1);
    let b2 = *slice_index_get(i, at + 2);
    let b3 = *slice_index_get(i, at + 3);
    (b0 as u32) * 16777216 + (b1 as u32) * 65536 + (b2 as u32) * 256 + (b3 as u32)
}

/// Read eight big-endian bytes starting at `at`.
fn read_be_u64(i: &[u8], at: usize) -> (v: u64)
    requires
        at + 8 <= i.len(),
    ensures
        v == be64(i@.subrange(at as int, at + 8)),
{
    let b0 = *slice_index_get(i, at);
    let b1 = *slice_index_get(i, at + 1);
    let b2 = *slice_index_get(i, at + 2);
    let b3 = *slice_index_get(i, at + 3);
    let b4 = *slice_index_get(i, at + 4);
    let b5 = *slice_index_get(i, at + 5);
    let b6 = *slice_index_get(i, at + 6);
    let b7 = *slice_index_get(i, at + 7);
    (b0 as u64) * 72057594037927936 + (b1 as u64) * 281474976710656 + (b2 as u64) * 1099511627776
        + (b3 as u64) * 4294967296 + (b4 as u64) * 16777216 + (b5 as u64) * 65536 + (b6 as u64)
        * 256 + (b7 as u64)
}

/// Decode the frame-type tag byte. The tag either names one of the four
/// frame kinds or the input is malformed; only an empty input is
/// incomplete.
pub fn parse_frame_type(i: &[u8]) -> (r: ParseOutcome<FrameType>)
    ensures
        match r {
            ParseOutcome::Success(t, n) => {
                &&& i@.len() >= 1
                &&& frame_type_of_tag(i@[0]) == Some(t)
                &&& n == 1
            },
            ParseOutcome::Incomplete => i@.len() == 0,
            ParseOutcome::Fatal(e) => e == ParseError::UnknownFrameType && raw_bad_tag(i@),
        },
{
    if i.len() < 1 {
        return ParseOutcome::Incomplete;
    }
    let tag = *slice_index_get(i, 0);
    if tag == FRAME_METHOD {
        ParseOutcome::Success(FrameType::Method, 1)
    } else if tag == FRAME_HEADER {
        ParseOutcome::Success(FrameType::Header, 1)
    } else if tag == FRAME_BODY {
        ParseOutcome::Success(FrameType::Body, 1)
    } else if tag == FRAME_HEARTBEAT {
        ParseOutcome::Success(FrameType::Heartbeat, 1)
    } else {
        ParseOutcome::Fatal(ParseError::UnknownFrameType)
    }
}

/// Decode a channel id: two big-endian bytes. A channel id is never
/// malformed, so the outcome is success or `Incomplete`.
pub fn parse_channel(i: &[u8]) -> (r: ParseOutcome<u16>)
    ensures
        match r {
            ParseOutcome::Success(c, n) => {
                &&& i@.len() >= 2
                &&& c == be16(i@.subrange(0, 2))
                &&& n == 2
            },
            ParseOutcome::Incomplete => i@.len() < 2,
            ParseOutcome::Fatal(e) => false,
        },
{
    if i.len() < 2 {
        return ParseOutcome::Incomplete;
    }
    ParseOutcome::Success(read_be_u16(i, 0), 2)
}

/// Decode the version-negotiation handshake: the fixed literal
/// `'A' 'M' 'Q' 'P' 0`, then major, minor and revision bytes. A mismatch in
/// any present literal byte is fatal; a true prefix is incomplete.
pub fn parse_protocol_header(i: &[u8]) -> (r: ParseOutcome<ProtocolVersion>)
    ensures
        match r {
            ParseOutcome::Success(v, n) => {
                &&& protocol_header_ok(i@)
                &&& v == protocol_version_of(i@)
                &&& n == 8
            },
            ParseOutcome::Incomplete => protocol_header_incomplete(i@),
            ParseOutcome::Fatal(e) => e == ParseError::BadProtocolHeader && !protocol_header_ok(
                i@,
            ) && !protocol_header_incomplete(i@),
        },
{
    let n = i.len();
    if n >= 1 && *slice_index_get(i, 0) != 65 {
        proof {
            assert(i@[0] != protocol_literal_byte(0));
        }
        return ParseOutcome::Fatal(ParseError::BadProtocolHeader);
    }
    if n >= 2 && *slice_index_get(i, 1) != 77 {
        proof {
            assert(i@[1] != protocol_literal_byte(1));
        }
        return ParseOutcome::Fatal(ParseError::BadProtocolHeader);
    }
    if n >= 3 && *slice_index_get(i, 2) != 81 {
        proof {
            assert(i@[2] != protocol_literal_byte(2));
        }
        return ParseOutcome::Fatal(ParseError::BadProtocolHeader);
    }
    if n >= 4 && *slice_index_get(i, 3) != 80 {
        proof {
            assert(i@[3] != protocol_literal_byte(3));
        }
        return ParseOutcome::Fatal(ParseError::BadProtocolHeader);
    }
    if n >= 5 && *slice_index_get(i, 4) != 0 {
        proof {
            assert(i@[4] != protocol_literal_byte(4));
        }
        return ParseOutcome::Fatal(ParseError::BadProtocolHeader);
    }
    proof {
        assert forall|j: int| 0 <= j < 5 && j < i@.len() implies i@[j] == protocol_literal_byte(
            j,
        ) by {
            assert(protocol_literal_byte(0) == 65);
        }
    }
    if n < 8 {
        return ParseOutcome::Incomplete;
    }
    let major = *slice_index_get(i, 5);
    let minor = *slice_index_get(i, 6);
    let revision = *slice_index_get(i, 7);
    ParseOutcome::Success(ProtocolVersion { major, minor, revision }, 8)
}

/// Extract one frame envelope without interpreting its payload: tag byte,
/// channel id, payload length, exactly that many payload bytes, and the
/// frame-end sentinel, which is checked and consumed but not retained.
///
/// Once a known tag byte is seen, the grammar is committed: a missing byte
/// is `Incomplete`, and a wrong sentinel is fatal — never "try another
/// interpretation".
pub fn parse_raw_frame(i: &[u8]) -> (r: ParseOutcome<RawFrame>)
    ensures
        match r {
            ParseOutcome::Success(f, n) => {
                &&& raw_frame_ok(i@)
                &&& n == raw_total(i@)
                &&& frame_type_of_tag(i@[0]) == Some(f.frame_type)
                &&& f.channel_id == raw_channel(i@)
                &&& f.payload@ == raw_payload(i@)
            },
            ParseOutcome::Incomplete => raw_frame_incomplete(i@),
            ParseOutcome::Fatal(e) => (e == ParseError::UnknownFrameType && raw_bad_tag(i@)) || (
            e == ParseError::BadFrameEnd && raw_bad_end(i@)),
        },
{
    let frame_type = match parse_frame_type(i) {
        ParseOutcome::Success(t, _) => t,
        ParseOutcome::Incomplete => {
            return ParseOutcome::Incomplete;
        },
        ParseOutcome::Fatal(e) => {
            return ParseOutcome::Fatal(e);
        },
    };
    if i.len() < 7 {
        return ParseOutcome::Incomplete;
    }
    let channel_id = read_be_u16(i, 1);
    let size = read_be_u32(i, 3);
    let size_len: usize = size as usize;
    if i.len() - 7 <= size_len {
        // Not the whole payload, or the payload but not yet the sentinel.
        return ParseOutcome::Incomplete;
    }
    let payload_end = 7 + size_len;
    if *slice_index_get(i, payload_end) != FRAME_END {
        return ParseOutcome::Fatal(ParseError::BadFrameEnd);
    }
    let payload = slice_to_vec(slice_subrange(i, 7, payload_end));
    ParseOutcome::Success(RawFrame { frame_type, channel_id, payload }, payload_end + 1)
}

/// Judge what an external payload decoder came back with: the payload
/// counts as decoded only when nothing is left over. A decoder failure is
/// reported as `failure`; a successful decode that left bytes unconsumed is
/// the structural error `TrailingBytes`.
pub fn require_fully_consumed<T>(decoded: Option<(T, usize)>, failure: ParseError) -> (r: Result<
    T,
    ParseError,
>)
    ensures
        match decoded {
            Some(p) => if p.1 == 0 {
                r matches Ok(v) && v == p.0
            } else {
                r matches Err(e) && e == ParseError::TrailingBytes
            },
            None => r matches Err(e) && e == failure,
        },
{
    match decoded {
        Some((value, leftover)) => if leftover == 0 {
            Ok(value)
        } else {
            Err(ParseError::TrailingBytes)
        },
        None => Err(failure),
    }
}

/// Judge what the external property decoder came back with for the bytes
/// after the twelve fixed content-header fields, and finish the header.
/// The decode fails exactly when the answer is `None` or claims a leftover
/// larger than the property bytes that were available; otherwise the
/// property value is handed through unchanged, and the consumed count is
/// the payload length minus the leftover the decoder reported.
pub fn assemble_content_header<P>(
    class_id: u16,
    weight: u16,
    body_size: u64,
    payload_len: usize,
    decoded: Option<(P, usize)>,
) -> (r: ParseOutcome<ContentHeader<P>>)
    requires
        payload_len >= 12,
    ensures
        match decoded {
            Some(p) => if p.1 <= payload_len - 12 {
                r matches ParseOutcome::Success(h, n) && h.class_id == class_id && h.weight
                    == weight && h.body_size == body_size && h.properties == p.0 && n
                    == payload_len - p.1
            } else {
                r matches ParseOutcome::Fatal(e) && e == ParseError::PropertiesDecode
            },
            None => r matches ParseOutcome::Fatal(e) && e == ParseError::PropertiesDecode,
        },
{
    match decoded {
        None => ParseOutcome::Fatal(ParseError::PropertiesDecode),
        Some((properties, leftover)) => {
            if leftover > payload_len - 12 {
                // The decoder claims to have read bytes it was never given.
                return ParseOutcome::Fatal(ParseError::PropertiesDecode);
            }
            ParseOutcome::Success(
                ContentHeader { class_id, weight, body_size, properties },
                payload_len - leftover,
            )
        },
    }
}

/// Decode a content-header payload: class id, weight and body size in fixed
/// positions, then the property table through the external decoder, whose
/// answer is judged per value by [`assemble_content_header`]. The consumed
/// count is the twelve fixed bytes plus whatever the property decoder
/// consumed; trailing bytes are the caller's concern.
pub fn parse_content_header<D: FrameDecoders>(i: &[u8], decoders: &D) -> (r: ParseOutcome<
    ContentHeader<D::Properties>,
>)
    ensures
        match r {
            ParseOutcome::Success(h, n) => {
                &&& i@.len() >= 12
                &&& h.class_id == content_class_id(i@)
                &&& h.weight == content_weight(i@)
                &&& h.body_size == content_body_size(i@)
                &&& 12 <= n <= i@.len()
            },
            ParseOutcome::Incomplete => i@.len() < 12,
            ParseOutcome::Fatal(e) => e == ParseError::PropertiesDecode && i@.len() >= 12,
        },
{
    if i.len() < 12 {
        return ParseOutcome::Incomplete;
    }
    let class_id = read_be_u16(i, 0);
    let weight = read_be_u16(i, 2);
    let body_size = read_be_u64(i, 4);
    let property_bytes = slice_subrange(i, 12, i.len());
    let decoded = decoders.decode_properties(property_bytes);
    assemble_content_header(class_id, weight, body_size, i.len(), decoded)
}

/// The top-level entry point: decode either the version-negotiation
/// handshake or one frame. The two grammars are disjoint from the first
/// byte on (the literal's `'A'` is no frame tag), so one byte commits the
/// parse to a single interpretation.
///
/// The envelope outcomes — success of heartbeat, body and protocol-header
/// frames, every `Incomplete`, and the structural errors — are pinned
/// exactly by the input bytes; method and header payloads additionally pass
/// through the external decoders, whose answer is judged per value by
/// [`require_fully_consumed`] and [`assemble_content_header`].
pub fn parse_frame<D: FrameDecoders>(i: &[u8], decoders: &D) -> (r: ParseOutcome<
    Frame<D::Method, D::Properties>,
>)
    ensures
        match r {
            ParseOutcome::Success(f, n) => match f {
                Frame::ProtocolHeader(v) => protocol_header_ok(i@) && v == protocol_version_of(i@)
                    && n == 8,
                Frame::Method(ch, m) => raw_frame_ok(i@) && i@[0] == FRAME_METHOD && ch
                    == raw_channel(i@) && n == raw_total(i@),
                Frame::Header(ch, cid, h) => {
                    &&& raw_frame_ok(i@)
                    &&& i@[0] == FRAME_HEADER
                    &&& ch == raw_channel(i@)
                    &&& n == raw_total(i@)
                    &&& raw_payload(i@).len() >= 12
                    &&& cid == content_class_id(raw_payload(i@))
                    &&& h.class_id == cid
                    &&& h.weight == content_weight(raw_payload(i@))
                    &&& h.body_size == content_body_size(raw_payload(i@))
                },
                Frame::Body(ch, b) => raw_frame_ok(i@) && i@[0] == FRAME_BODY && ch == raw_channel(
                    i@,
                ) && b@ == raw_payload(i@) && n == raw_total(i@),
                Frame::Heartbeat(ch) => raw_frame_ok(i@) && i@[0] == FRAME_HEARTBEAT && ch
                    == raw_channel(i@) && n == raw_total(i@),
            },
            ParseOutcome::Incomplete => frame_parse_incomplete(i@),
            ParseOutcome::Fatal(e) => match e {
                ParseError::UnknownFrameType => raw_bad_tag(i@) && i@[0] != 65,
                ParseError::BadProtocolHeader => i@.len() >= 1 && i@[0] == 65
                    && protocol_header_bad(i@),
                ParseError::BadFrameEnd => raw_bad_end(i@),
                ParseError::MethodDecode => raw_frame_ok(i@) && i@[0] == FRAME_METHOD,
                ParseError::PropertiesDecode => raw_frame_ok(i@) && i@[0] == FRAME_HEADER
                    && raw_payload(i@).len() >= 12,
                ParseError::ShortContentHeader => raw_frame_ok(i@) && i@[0] == FRAME_HEADER
                    && raw_payload(i@).len() < 12,
                ParseError::TrailingBytes => raw_frame_ok(i@) && (i@[0] == FRAME_METHOD || i@[0]
                    == FRAME_HEADER),
            },
        },
        frame_parse_incomplete(i@) <==> r is Incomplete,
        raw_frame_ok(i@) && i@[0] == FRAME_HEARTBEAT ==> (r matches ParseOutcome::Success(f, n)
            && f matches Frame::Heartbeat(ch) && ch == raw_channel(i@) && n == raw_total(i@)),
        raw_frame_ok(i@) && i@[0] == FRAME_BODY ==> (r matches ParseOutcome::Success(f, n)
            && f matches Frame::Body(ch, b) && ch == raw_channel(i@) && b@ == raw_payload(i@) && n
            == raw_total(i@)),
        protocol_header_ok(i@) ==> (r matches ParseOutcome::Success(f, n) && f
            matches Frame::ProtocolHeader(v) && v == protocol_version_of(i@) && n == 8),
        raw_bad_end(i@) ==> (r matches ParseOutcome::Fatal(e) && e == ParseError::BadFrameEnd),
        raw_bad_tag(i@) && i@[0] != 65 ==> (r matches ParseOutcome::Fatal(e) && e
            == ParseError::UnknownFrameType),
        raw_frame_ok(i@) && i@[0] == FRAME_HEADER && raw_payload(i@).len() < 12 ==> (r
            matches ParseOutcome::Fatal(e) && e == ParseError::ShortContentHeader),
{
    if i.len() >= 1 && *slice_index_get(i, 0) == 65 {
        proof {
            assert(i@[0] == protocol_literal_byte(0));
        }
        match parse_protocol_header(i) {
            ParseOutcome::Success(v, n) => ParseOutcome::Success(Frame::ProtocolHeader(v), n),
            ParseOutcome::Incomplete => ParseOutcome::Incomplete,
            ParseOutcome::Fatal(e) => ParseOutcome::Fatal(e),
        }
    } else {
        proof {
            // A complete protocol header would have put us in the other
            // branch: its first byte is the literal's opening letter.
            if protocol_header_ok(i@) {
                assert(i@[0] == protocol_literal_byte(0));
            }
        }
        match parse_raw_frame(i) {
            ParseOutcome::Incomplete => ParseOutcome::Incomplete,
            ParseOutcome::Fatal(e) => ParseOutcome::Fatal(e),
            ParseOutcome::Success(raw, n) => {
                let RawFrame { frame_type, channel_id, payload } = raw;
                match frame_type {
                    FrameType::Method => {
                        let decoded = decoders.decode_method(payload.as_slice());
                        match require_fully_consumed(decoded, ParseError::MethodDecode) {
                            Ok(m) => ParseOutcome::Success(Frame::Method(channel_id, m), n),
                            Err(e) => ParseOutcome::Fatal(e),
                        }
                    },
                    FrameType::Header => {
                        match parse_content_header(payload.as_slice(), decoders) {
                            ParseOutcome::Success(h, consumed) => {
                                if consumed == payload.len() {
                                    let class_id = h.class_id;
                                    ParseOutcome::Success(
                                        Frame::Header(channel_id, class_id, h),
                                        n,
                                    )
                                } else {
                                    ParseOutcome::Fatal(ParseError::TrailingBytes)
                                }
                            },
                            ParseOutcome::Incomplete => ParseOutcome::Fatal(
                                ParseError::ShortContentHeader,
                            ),
                            ParseOutcome::Fatal(e) => ParseOutcome::Fatal(e),
                        }
                    },
                    FrameType::Body => ParseOutcome::Success(Frame::Body(channel_id, payload), n),
                    FrameType::Heartbeat => ParseOutcome::Success(
                        Frame::Heartbeat(channel_id),
                        n,
                    ),
                }
            },
        }
    }
}

} // verus!
