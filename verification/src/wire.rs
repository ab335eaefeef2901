//! The mathematical model of the wire format.
//!
//! Every multi-byte integer is big-endian. A frame on the wire is
//!
//! ```text
//! tag (1) | channel (2) | size (4) | payload (size) | end sentinel (1)
//! ```
//!
//! and the handshake that opens a connection is the fixed literal
//! `"AMQP" 0` followed by three version bytes. The executable decoders in
//! [`crate::parsing`] are specified entirely in terms of the functions here.

use crate::frame::{FrameType, ProtocolVersion};
use vstd::prelude::*;

verus! {

/// Tag byte of a method frame.
pub const FRAME_METHOD: u8 = 1;

/// Tag byte of a content-header frame.
pub const FRAME_HEADER: u8 = 2;

/// Tag byte of a body frame.
pub const FRAME_BODY: u8 = 3;

/// Tag byte of a heartbeat frame.
pub const FRAME_HEARTBEAT: u8 = 8;

/// The sentinel byte (0xCE) that ends every frame.
pub const FRAME_END: u8 = 206;

/// The tag byte each frame kind is encoded as.
pub open spec fn tag_of_frame_type(t: FrameType) -> u8 {
    match t {
        FrameType::Method => FRAME_METHOD,
        FrameType::Header => FRAME_HEADER,
        FrameType::Body => FRAME_BODY,
        FrameType::Heartbeat => FRAME_HEARTBEAT,
    }
}

/// The frame kind a tag byte stands for, if any.
pub open spec fn frame_type_of_tag(tag: u8) -> Option<FrameType> {
    if tag == FRAME_METHOD {
        Some(FrameType::Method)
    } else if tag == FRAME_HEADER {
        Some(FrameType::Header)
    } else if tag == FRAME_BODY {
        Some(FrameType::Body)
    } else if tag == FRAME_HEARTBEAT {
        Some(FrameType::Heartbeat)
    } else {
        None
    }
}

/// The value of two big-endian bytes.
pub open spec fn be16(s: Seq<u8>) -> int
    recommends
        s.len() == 2,
{
    s[0] * 256 + s[1]
}

/// The value of four big-endian bytes.
pub open spec fn be32(s: Seq<u8>) -> int
    recommends
        s.len() == 4,
{
    ((s[0] * 256 + s[1]) * 256 + s[2]) * 256 + s[3]
}

/// The value of eight big-endian bytes.
pub open spec fn be64(s: Seq<u8>) -> int
    recommends
        s.len() == 8,
{
    ((((((s[0] * 256 + s[1]) * 256 + s[2]) * 256 + s[3]) * 256 + s[4]) * 256 + s[5]) * 256 + s[6])
        * 256 + s[7]
}

/// The big-endian encoding of a 16-bit value.
pub open spec fn u16_be(v: int) -> Seq<u8>
    recommends
        0 <= v < 65536,
{
    seq![((v / 256) % 256) as u8, (v % 256) as u8]
}

/// The big-endian encoding of a 32-bit value.
pub open spec fn u32_be(v: int) -> Seq<u8>
    recommends
        0 <= v < 4294967296,
{
    seq![
        ((v / 16777216) % 256) as u8,
        ((v / 65536) % 256) as u8,
        ((v / 256) % 256) as u8,
        (v % 256) as u8,
    ]
}

// --- The frame envelope ------------------------------------------------
/// The declared payload size of a frame whose seven header bytes are
/// present.
pub open spec fn raw_size(s: Seq<u8>) -> int
    recommends
        s.len() >= 7,
{
    be32(s.subrange(3, 7))
}

/// The total length of a frame on the wire: the seven header bytes, the
/// declared payload, and the end sentinel.
pub open spec fn raw_total(s: Seq<u8>) -> int
    recommends
        s.len() >= 7,
{
    8 + raw_size(s)
}

/// The channel id of a frame whose header bytes are present.
pub open spec fn raw_channel(s: Seq<u8>) -> int
    recommends
        s.len() >= 3,
{
    be16(s.subrange(1, 3))
}

/// The payload bytes of a complete frame.
pub open spec fn raw_payload(s: Seq<u8>) -> Seq<u8>
    recommends
        raw_complete(s),
{
    s.subrange(7, 7 + raw_size(s))
}

/// The tag byte is present and names one of the four frame kinds.
pub open spec fn raw_tag_known(s: Seq<u8>) -> bool {
    s.len() >= 1 && frame_type_of_tag(s[0]) is Some
}

/// Every byte of the envelope is present: the header, the declared payload,
/// and the end sentinel.
pub open spec fn raw_complete(s: Seq<u8>) -> bool {
    s.len() >= 7 && s.len() >= raw_total(s)
}

/// `s` begins with a well-formed frame envelope: known tag, complete, and
/// the byte after the payload is the end sentinel.
pub open spec fn raw_frame_ok(s: Seq<u8>) -> bool {
    raw_tag_known(s) && raw_complete(s) && s[raw_total(s) - 1] == FRAME_END
}

/// `s` is a proper prefix of some frame envelope: nothing seen so far rules
/// a frame out, but the envelope is not yet complete.
pub open spec fn raw_frame_incomplete(s: Seq<u8>) -> bool {
    (s.len() == 0 || raw_tag_known(s)) && !raw_complete(s)
}

/// The tag byte is present but names no frame kind.
pub open spec fn raw_bad_tag(s: Seq<u8>) -> bool {
    s.len() >= 1 && frame_type_of_tag(s[0]) is None
}

/// The envelope is complete but the byte at the frame-end position is not
/// the sentinel.
pub open spec fn raw_bad_end(s: Seq<u8>) -> bool {
    raw_tag_known(s) && raw_complete(s) && s[raw_total(s) - 1] != FRAME_END
}

/// The byte encoding of a frame envelope.
pub open spec fn encode_raw_frame(t: FrameType, channel: int, payload: Seq<u8>) -> Seq<u8> {
    seq![tag_of_frame_type(t)] + u16_be(channel) + u32_be(payload.len() as int) + payload
        + seq![FRAME_END]
}

// --- The protocol header ------------------------------------------------
/// The byte at each position of the fixed five-byte handshake literal:
/// ASCII `'A' 'M' 'Q' 'P'` then a zero byte.
pub open spec fn protocol_literal_byte(j: int) -> u8
    recommends
        0 <= j < 5,
{
    if j == 0 {
        65
    } else if j == 1 {
        77
    } else if j == 2 {
        81
    } else if j == 3 {
        80
    } else {
        0
    }
}

/// The bytes of `s` agree with the handshake literal at every position
/// below `k`.
pub open spec fn literal_match_upto(s: Seq<u8>, k: int) -> bool
    recommends
        k <= s.len() && k <= 5,
{
    forall|j: int| 0 <= j < k ==> s[j] == protocol_literal_byte(j)
}

/// `s` begins with a complete protocol header: the five-byte literal and
/// three version bytes.
pub open spec fn protocol_header_ok(s: Seq<u8>) -> bool {
    s.len() >= 8 && literal_match_upto(s, 5)
}

/// `s` is a proper prefix of some protocol header.
pub open spec fn protocol_header_incomplete(s: Seq<u8>) -> bool {
    s.len() < 8 && literal_match_upto(s, if s.len() < 5 { s.len() as int } else { 5 })
}

/// A present byte of the literal does not match.
pub open spec fn protocol_header_bad(s: Seq<u8>) -> bool {
    !protocol_header_ok(s) && !protocol_header_incomplete(s)
}

/// The version carried by a complete protocol header.
pub open spec fn protocol_version_of(s: Seq<u8>) -> ProtocolVersion
    recommends
        s.len() >= 8,
{
    ProtocolVersion { major: s[5], minor: s[6], revision: s[7] }
}

/// The byte encoding of a protocol header.
pub open spec fn encode_protocol_header(v: ProtocolVersion) -> Seq<u8> {
    seq![65u8, 77u8, 81u8, 80u8, 0u8, v.major, v.minor, v.revision]
}

// --- The content header payload -----------------------------------------
/// The class id in a content-header payload.
pub open spec fn content_class_id(p: Seq<u8>) -> int
    recommends
        p.len() >= 2,
{
    be16(p.subrange(0, 2))
}

/// The (reserved) weight field in a content-header payload.
pub open spec fn content_weight(p: Seq<u8>) -> int
    recommends
        p.len() >= 4,
{
    be16(p.subrange(2, 4))
}

/// The total body size announced by a content-header payload.
pub open spec fn content_body_size(p: Seq<u8>) -> int
    recommends
        p.len() >= 12,
{
    be64(p.subrange(4, 12))
}

// --- The top-level grammar ----------------------------------------------
/// `s` could still grow into either a protocol header or a frame: the
/// top-level decoder must answer `Incomplete`. The two grammars are told
/// apart by the first byte, which is the literal's `'A'` in one and a frame
/// tag in the other.
pub open spec fn frame_parse_incomplete(s: Seq<u8>) -> bool {
    if s.len() == 0 {
        true
    } else if s[0] == protocol_literal_byte(0) {
        protocol_header_incomplete(s)
    } else {
        raw_frame_incomplete(s)
    }
}

} // verus!
