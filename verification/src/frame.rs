//! Decoded value types of the framing layer, and the interface to the
//! external payload decoders.

use vstd::prelude::*;

verus! {

/// The four defined frame kinds, each mapped to a distinct tag byte on the
/// wire (see [`crate::wire::tag_of_frame_type`]).
#[derive(Clone, Copy, Debug, PartialEq, Eq, Structural)]
pub enum FrameType {
    /// A class/method invocation.
    Method,
    /// A content header preceding a message body.
    Header,
    /// An opaque message-body fragment.
    Body,
    /// A liveness signal with no content.
    Heartbeat,
}

/// The protocol version carried by the version-negotiation handshake that
/// opens a connection.
#[derive(Clone, Copy, Debug, PartialEq, Eq, Structural)]
pub struct ProtocolVersion {
    pub major: u8,
    pub minor: u8,
    pub revision: u8,
}

impl ProtocolVersion {
    /// The version this framing layer is written against.
    pub fn amqp_0_9_1() -> (v: ProtocolVersion)
        ensures
            v == (ProtocolVersion { major: 0, minor: 9, revision: 1 }),
    {
        ProtocolVersion { major: 0, minor: 9, revision: 1 }
    }
}

/// A frame envelope whose payload has been extracted but not yet
/// interpreted: exactly the declared number of payload bytes, with the
/// frame-end sentinel already checked and consumed.
#[derive(Clone, Debug, PartialEq, Eq)]
pub struct RawFrame {
    pub frame_type: FrameType,
    pub channel_id: u16,
    pub payload: Vec<u8>,
}

/// The structured header that precedes a message body. The property table is
/// decoded by an external collaborator and is opaque here.
#[derive(Clone, Debug, PartialEq, Eq)]
pub struct ContentHeader<P> {
    pub class_id: u16,
    pub weight: u16,
    pub body_size: u64,
    pub properties: P,
}

/// A fully decoded frame. `M` is the method payload type and `P` the
/// property table type, both produced by external decoders and opaque to
/// this core.
#[derive(Clone, Debug, PartialEq, Eq)]
pub enum Frame<M, P> {
    /// The version-negotiation handshake seen only at connection start.
    ProtocolHeader(ProtocolVersion),
    /// A class/method invocation on a channel.
    Method(u16, M),
    /// A content header on a channel, with its class id repeated for
    /// convenient dispatch.
    Header(u16, u16, ContentHeader<P>),
    /// An uninterpreted message-body fragment on a channel.
    Body(u16, Vec<u8>),
    /// A liveness signal on a channel.
    Heartbeat(u16),
}

/// The reasons a decode is fatal. Every fatal outcome is unrecoverable for
/// the byte position at which it arose: the connection must be torn down,
/// since resynchronizing inside a binary stream cannot be done safely.
#[derive(Clone, Copy, Debug, PartialEq, Eq, Structural)]
pub enum ParseError {
    /// The tag byte is present but is none of the four defined values.
    UnknownFrameType,
    /// The byte after the payload is not the frame-end sentinel.
    BadFrameEnd,
    /// A byte of the fixed handshake literal does not match.
    BadProtocolHeader,
    /// The external class/method decoder rejected a method payload.
    MethodDecode,
    /// The external property-table decoder rejected a header payload, or
    /// claimed to have read more bytes than were present.
    PropertiesDecode,
    /// A header payload ended before its fixed-width fields.
    ShortContentHeader,
    /// A payload decoded successfully but left bytes unconsumed.
    TrailingBytes,
}

/// The three-way outcome every decoder returns. `Success` carries the
/// decoded value and the exact number of input bytes consumed; the caller
/// resumes decoding at that offset. `Incomplete` is not an error: the caller
/// should supply more bytes and retry from the same position.
#[derive(Clone, Debug, PartialEq, Eq)]
pub enum ParseOutcome<T> {
    Success(T, usize),
    Incomplete,
    Fatal(ParseError),
}

/// The external payload decoders this core delegates to: one for
/// class/method payloads, one for the property table of a content header.
///
/// An implementation reads a prefix of `payload` and returns the decoded
/// value together with the number of bytes it left unconsumed, or `None` if
/// the payload is malformed. The framing layer itself enforces the "nothing
/// left over" rule, so these methods carry no contract: everything proved of
/// the decoders' callers holds for every implementation.
pub trait FrameDecoders {
    type Method;
    type Properties;

    /// Decode a class/method payload, returning the decoded method and the
    /// number of unconsumed trailing bytes.
    fn decode_method(&self, payload: &[u8]) -> Option<(Self::Method, usize)>;

    /// Decode a property table, returning it and the number of unconsumed
    /// trailing bytes.
    fn decode_properties(&self, payload: &[u8]) -> Option<(Self::Properties, usize)>;
}

} // verus!
