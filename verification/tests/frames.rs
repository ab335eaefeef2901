use amq_framing::frame::{ContentHeader, Frame, FrameDecoders, FrameType, ParseError,
    ParseOutcome, ProtocolVersion, RawFrame};
use amq_framing::parsing::{assemble_content_header, parse_channel, parse_content_header,
    parse_frame, parse_frame_type, parse_protocol_header, parse_raw_frame,
    require_fully_consumed};

/// Stands in for the external class/property decoders: keeps the bytes it
/// was given and consumes all of them.
struct VecDecoders;

impl FrameDecoders for VecDecoders {
    type Method = Vec<u8>;
    type Properties = Vec<u8>;

    fn decode_method(&self, payload: &[u8]) -> Option<(Vec<u8>, usize)> {
        Some((payload.to_vec(), 0))
    }

    fn decode_properties(&self, payload: &[u8]) -> Option<(Vec<u8>, usize)> {
        Some((payload.to_vec(), 0))
    }
}

/// An external decoder that always leaves the last byte unconsumed.
struct LeavesOneByte;

impl FrameDecoders for LeavesOneByte {
    type Method = Vec<u8>;
    type Properties = Vec<u8>;

    fn decode_method(&self, payload: &[u8]) -> Option<(Vec<u8>, usize)> {
        if payload.is_empty() {
            None
        } else {
            Some((payload[..payload.len() - 1].to_vec(), 1))
        }
    }

    fn decode_properties(&self, payload: &[u8]) -> Option<(Vec<u8>, usize)> {
        if payload.is_empty() {
            None
        } else {
            Some((payload[..payload.len() - 1].to_vec(), 1))
        }
    }
}

/// An external decoder that rejects every payload.
struct RejectsAll;

impl FrameDecoders for RejectsAll {
    type Method = Vec<u8>;
    type Properties = Vec<u8>;

    fn decode_method(&self, _payload: &[u8]) -> Option<(Vec<u8>, usize)> {
        None
    }

    fn decode_properties(&self, _payload: &[u8]) -> Option<(Vec<u8>, usize)> {
        None
    }
}

#[test]
fn test_protocol_header() {
    assert_eq!(
        parse_frame(
            &['A' as u8, 'M' as u8, 'Q' as u8, 'P' as u8, 0, 0, 9, 1][..],
            &VecDecoders,
        ),
        ParseOutcome::Success(Frame::ProtocolHeader(ProtocolVersion::amqp_0_9_1()), 8)
    );
}

#[test]
fn test_heartbeat() {
    assert_eq!(
        parse_frame(&[8, 0, 1, 0, 0, 0, 0, 206][..], &VecDecoders),
        ParseOutcome::Success(Frame::Heartbeat(1), 8)
    );
}

#[test]
fn protocol_header_other_version() {
    assert_eq!(
        parse_frame(&[65, 77, 81, 80, 0, 1, 0, 10][..], &VecDecoders),
        ParseOutcome::Success(
            Frame::ProtocolHeader(ProtocolVersion { major: 1, minor: 0, revision: 10 }),
            8,
        )
    );
}

#[test]
fn heartbeat_on_high_channel() {
    // channel id 513 = 2 * 256 + 1
    assert_eq!(
        parse_frame(&[8, 2, 1, 0, 0, 0, 0, 206][..], &VecDecoders),
        ParseOutcome::Success(Frame::Heartbeat(513), 8)
    );
}

#[test]
fn heartbeat_with_payload_is_tolerated() {
    // A non-empty heartbeat payload is ignored, by explicit design choice.
    assert_eq!(
        parse_frame(&[8, 0, 1, 0, 0, 0, 2, 9, 9, 206][..], &VecDecoders),
        ParseOutcome::Success(Frame::Heartbeat(1), 10)
    );
}

#[test]
fn method_frame_decodes() {
    assert_eq!(
        parse_frame(&[1, 0, 1, 0, 0, 0, 2, 7, 8, 206][..], &VecDecoders),
        ParseOutcome::Success(Frame::Method(1, vec![7, 8]), 10)
    );
}

#[test]
fn method_frame_with_leftover_is_fatal() {
    // The class decoder consumes all but one byte: structural mismatch.
    assert_eq!(
        parse_frame(&[1, 0, 1, 0, 0, 0, 2, 7, 8, 206][..], &LeavesOneByte),
        ParseOutcome::<Frame<Vec<u8>, Vec<u8>>>::Fatal(ParseError::TrailingBytes)
    );
}

#[test]
fn method_frame_decoder_failure_is_fatal() {
    assert_eq!(
        parse_frame(&[1, 0, 1, 0, 0, 0, 2, 7, 8, 206][..], &RejectsAll),
        ParseOutcome::<Frame<Vec<u8>, Vec<u8>>>::Fatal(ParseError::MethodDecode)
    );
}

#[test]
fn body_frame_decodes() {
    assert_eq!(
        parse_frame(&[3, 0, 2, 0, 0, 0, 3, 10, 11, 12, 206][..], &VecDecoders),
        ParseOutcome::Success(Frame::Body(2, vec![10, 11, 12]), 11)
    );
}

#[test]
fn header_frame_decodes() {
    let bytes = [
        2, 0, 1, 0, 0, 0, 14, // type Header, channel 1, payload size 14
        0, 16, // class id
        0, 0, // weight
        0, 0, 0, 0, 0, 0, 0, 5, // body size
        1, 2, // property table, consumed whole by the decoder
        206,
    ];
    assert_eq!(
        parse_frame(&bytes[..], &VecDecoders),
        ParseOutcome::Success(
            Frame::Header(
                1,
                16,
                ContentHeader { class_id: 16, weight: 0, body_size: 5, properties: vec![1, 2] },
            ),
            22,
        )
    );
}

#[test]
fn header_frame_with_leftover_is_fatal() {
    let bytes = [
        2, 0, 1, 0, 0, 0, 14, 0, 16, 0, 0, 0, 0, 0, 0, 0, 0, 0, 5, 1, 2, 206,
    ];
    assert_eq!(
        parse_frame(&bytes[..], &LeavesOneByte),
        ParseOutcome::<Frame<Vec<u8>, Vec<u8>>>::Fatal(ParseError::TrailingBytes)
    );
}

#[test]
fn header_frame_decoder_failure_is_fatal() {
    let bytes = [
        2, 0, 1, 0, 0, 0, 14, 0, 16, 0, 0, 0, 0, 0, 0, 0, 0, 0, 5, 1, 2, 206,
    ];
    assert_eq!(
        parse_frame(&bytes[..], &RejectsAll),
        ParseOutcome::<Frame<Vec<u8>, Vec<u8>>>::Fatal(ParseError::PropertiesDecode)
    );
}

#[test]
fn header_frame_too_short_is_fatal() {
    // Payload of 2 bytes cannot hold the twelve fixed header bytes.
    assert_eq!(
        parse_frame(&[2, 0, 1, 0, 0, 0, 2, 0, 16, 206][..], &VecDecoders),
        ParseOutcome::<Frame<Vec<u8>, Vec<u8>>>::Fatal(ParseError::ShortContentHeader)
    );
}

#[test]
fn unknown_frame_type_is_fatal() {
    assert_eq!(
        parse_frame(&[9, 0, 1, 0, 0, 0, 0, 206][..], &VecDecoders),
        ParseOutcome::<Frame<Vec<u8>, Vec<u8>>>::Fatal(ParseError::UnknownFrameType)
    );
}

#[test]
fn wrong_end_sentinel_is_fatal() {
    // Everything valid except the frame-end byte: fatal regardless of payload.
    assert_eq!(
        parse_frame(&[8, 0, 1, 0, 0, 0, 0, 99][..], &VecDecoders),
        ParseOutcome::<Frame<Vec<u8>, Vec<u8>>>::Fatal(ParseError::BadFrameEnd)
    );
    assert_eq!(
        parse_frame(&[3, 0, 2, 0, 0, 0, 3, 10, 11, 12, 0][..], &VecDecoders),
        ParseOutcome::<Frame<Vec<u8>, Vec<u8>>>::Fatal(ParseError::BadFrameEnd)
    );
}

#[test]
fn bad_protocol_literal_is_fatal() {
    assert_eq!(
        parse_frame(&[65, 77, 81, 88][..], &VecDecoders),
        ParseOutcome::<Frame<Vec<u8>, Vec<u8>>>::Fatal(ParseError::BadProtocolHeader)
    );
}

#[test]
fn truncated_inputs_are_incomplete() {
    let full = [8u8, 0, 1, 0, 0, 0, 0, 206];
    for cut in 0..full.len() {
        assert_eq!(
            parse_frame(&full[..cut], &VecDecoders),
            ParseOutcome::<Frame<Vec<u8>, Vec<u8>>>::Incomplete,
            "prefix of length {cut}"
        );
    }
    let header = [65u8, 77, 81, 80, 0, 0, 9, 1];
    for cut in 0..header.len() {
        assert_eq!(
            parse_frame(&header[..cut], &VecDecoders),
            ParseOutcome::<Frame<Vec<u8>, Vec<u8>>>::Incomplete,
            "header prefix of length {cut}"
        );
    }
}

#[test]
fn truncated_payload_is_incomplete() {
    // Declared size 5, but only two payload bytes supplied: never fatal.
    assert_eq!(
        parse_frame(&[3, 0, 1, 0, 0, 0, 5, 1, 2][..], &VecDecoders),
        ParseOutcome::<Frame<Vec<u8>, Vec<u8>>>::Incomplete
    );
    // Whole payload there but the sentinel still missing.
    assert_eq!(
        parse_frame(&[3, 0, 1, 0, 0, 0, 2, 1, 2][..], &VecDecoders),
        ParseOutcome::<Frame<Vec<u8>, Vec<u8>>>::Incomplete
    );
}

#[test]
fn two_frames_back_to_back() {
    let buf = [
        8u8, 0, 1, 0, 0, 0, 0, 206, // heartbeat on channel 1
        3, 0, 2, 0, 0, 0, 3, 10, 11, 12, 206, // body on channel 2
    ];
    let first = parse_frame(&buf[..], &VecDecoders);
    assert_eq!(first, ParseOutcome::Success(Frame::Heartbeat(1), 8));
    let second = parse_frame(&buf[8..], &VecDecoders);
    assert_eq!(second, ParseOutcome::Success(Frame::Body(2, vec![10, 11, 12]), 11));
}

#[test]
fn parse_frame_type_each_tag() {
    assert_eq!(parse_frame_type(&[1][..]), ParseOutcome::Success(FrameType::Method, 1));
    assert_eq!(parse_frame_type(&[2][..]), ParseOutcome::Success(FrameType::Header, 1));
    assert_eq!(parse_frame_type(&[3][..]), ParseOutcome::Success(FrameType::Body, 1));
    assert_eq!(parse_frame_type(&[8][..]), ParseOutcome::Success(FrameType::Heartbeat, 1));
    assert_eq!(
        parse_frame_type(&[4][..]),
        ParseOutcome::Fatal(ParseError::UnknownFrameType)
    );
    assert_eq!(parse_frame_type(&[][..]), ParseOutcome::<FrameType>::Incomplete);
}

#[test]
fn parse_channel_values() {
    assert_eq!(parse_channel(&[1, 44][..]), ParseOutcome::Success(300, 2));
    assert_eq!(parse_channel(&[0, 0][..]), ParseOutcome::Success(0, 2));
    assert_eq!(parse_channel(&[7][..]), ParseOutcome::<u16>::Incomplete);
}

#[test]
fn parse_protocol_header_alone() {
    assert_eq!(
        parse_protocol_header(&[65, 77, 81, 80, 0, 0, 9, 1][..]),
        ParseOutcome::Success(ProtocolVersion { major: 0, minor: 9, revision: 1 }, 8)
    );
    assert_eq!(
        parse_protocol_header(&[66][..]),
        ParseOutcome::<ProtocolVersion>::Fatal(ParseError::BadProtocolHeader)
    );
    assert_eq!(
        parse_protocol_header(&[65, 77, 81][..]),
        ParseOutcome::<ProtocolVersion>::Incomplete
    );
}

#[test]
fn parse_raw_frame_extracts_envelope() {
    assert_eq!(
        parse_raw_frame(&[8, 0, 1, 0, 0, 0, 0, 206][..]),
        ParseOutcome::Success(
            RawFrame { frame_type: FrameType::Heartbeat, channel_id: 1, payload: vec![] },
            8,
        )
    );
    assert_eq!(
        parse_raw_frame(&[1, 1, 44, 0, 0, 0, 2, 5, 6, 206, 99][..]),
        ParseOutcome::Success(
            RawFrame { frame_type: FrameType::Method, channel_id: 300, payload: vec![5, 6] },
            10,
        )
    );
}

#[test]
fn parse_content_header_exact_fields() {
    let payload = [
        1, 4, // class id 260
        0, 7, // weight
        1, 2, 3, 4, 5, 6, 7, 8, // body size, big-endian
        42, // property byte, consumed whole
    ];
    assert_eq!(
        parse_content_header(&payload[..], &VecDecoders),
        ParseOutcome::Success(
            ContentHeader {
                class_id: 260,
                weight: 7,
                body_size: 72623859790382856, // 0x0102030405060708
                properties: vec![42],
            },
            13,
        )
    );
    assert_eq!(
        parse_content_header(&payload[..5], &VecDecoders),
        ParseOutcome::<ContentHeader<Vec<u8>>>::Incomplete
    );
    assert_eq!(
        parse_content_header(&payload[..], &RejectsAll),
        ParseOutcome::<ContentHeader<Vec<u8>>>::Fatal(ParseError::PropertiesDecode)
    );
}

#[test]
fn parse_content_header_keeps_decoder_leftover() {
    // 13-byte payload; the decoder leaves the last byte unconsumed, so the
    // consumed count is 13 - 1 = 12 and the leftover byte is not touched.
    let payload = [0u8, 16, 0, 0, 0, 0, 0, 0, 0, 0, 0, 5, 42];
    assert_eq!(
        parse_content_header(&payload[..], &LeavesOneByte),
        ParseOutcome::Success(
            ContentHeader { class_id: 16, weight: 0, body_size: 5, properties: vec![] },
            12,
        )
    );
}

#[test]
fn assemble_content_header_judges_decoder_answers() {
    // The property value is handed through unchanged; consumed is the
    // payload length minus the reported leftover.
    assert_eq!(
        assemble_content_header(16, 0, 5, 14, Some((vec![9u8], 0))),
        ParseOutcome::Success(
            ContentHeader { class_id: 16, weight: 0, body_size: 5, properties: vec![9u8] },
            14,
        )
    );
    assert_eq!(
        assemble_content_header(16, 0, 5, 14, Some((vec![9u8], 2))),
        ParseOutcome::Success(
            ContentHeader { class_id: 16, weight: 0, body_size: 5, properties: vec![9u8] },
            12,
        )
    );
    // A leftover larger than the two property bytes available is nonsense.
    assert_eq!(
        assemble_content_header(16, 0, 5, 14, Some((vec![9u8], 3))),
        ParseOutcome::<ContentHeader<Vec<u8>>>::Fatal(ParseError::PropertiesDecode)
    );
    assert_eq!(
        assemble_content_header(16, 0, 5, 14, None::<(Vec<u8>, usize)>),
        ParseOutcome::<ContentHeader<Vec<u8>>>::Fatal(ParseError::PropertiesDecode)
    );
}

#[test]
fn require_fully_consumed_judges_decoder_answers() {
    assert_eq!(
        require_fully_consumed(Some((5u8, 0)), ParseError::MethodDecode),
        Ok(5u8)
    );
    assert_eq!(
        require_fully_consumed(Some((5u8, 1)), ParseError::MethodDecode),
        Err(ParseError::TrailingBytes)
    );
    assert_eq!(
        require_fully_consumed(None::<(u8, usize)>, ParseError::MethodDecode),
        Err(ParseError::MethodDecode)
    );
}
