//! Frames, byte for byte.

use lan_mouse_clipboard::error::IoError;
use lan_mouse_clipboard::proto::{
    clipboard_message, decode_frame, decode_payload, encode_frame, frame_length, hello_message,
    ByteReader, DecodeError, MAX_FRAME_SIZE,
};
use lan_mouse_clipboard::{CapMsg, FrameError, CAP_CLIPBOARD, PROTOCOL_VERSION};
use serde::ser::SerializeStructVariant;

fn round_trip(msg: CapMsg) {
    let encoded = encode_frame(&msg).expect("encode");
    let decoded = decode_frame(&mut ByteReader::new(encoded)).expect("decode");
    assert_eq!(msg, decoded);
}

#[test]
fn round_trip_hello() {
    round_trip(CapMsg::Hello {
        protocol_version: PROTOCOL_VERSION,
        peer_id: "aa:bb:cc".into(),
        capabilities: CAP_CLIPBOARD,
    });
}

#[test]
fn round_trip_clipboard() {
    round_trip(CapMsg::Clipboard {
        origin: "aa:bb:cc".into(),
        serial: 42,
        mime: "text/plain;charset=utf-8".into(),
        data: b"hello world".to_vec(),
    });
}

#[test]
fn oversize_length_rejected_without_allocation() {
    // Feed a frame claiming 100_000_000 bytes: must error after reading 4 bytes.
    let mut cursor = ByteReader::new(100_000_000u32.to_be_bytes().to_vec());
    let err = decode_frame(&mut cursor).unwrap_err();
    assert!(matches!(err, FrameError::TooLarge(100_000_000)));
    // The reader should be exactly at position 4: no payload bytes read.
    assert_eq!(cursor.position(), 4);
}

#[test]
fn u32_max_rejected() {
    let mut cursor = ByteReader::new(u32::MAX.to_be_bytes().to_vec());
    let err = decode_frame(&mut cursor).unwrap_err();
    assert!(matches!(err, FrameError::TooLarge(u32::MAX)));
    assert_eq!(cursor.position(), 4);
}

#[test]
fn malformed_payload_returns_error() {
    // Valid length prefix, garbage payload.
    let payload = b"\xff\xff\xff";
    let mut frame = Vec::new();
    frame.extend_from_slice(&(payload.len() as u32).to_be_bytes());
    frame.extend_from_slice(payload);
    let err = decode_frame(&mut ByteReader::new(frame)).unwrap_err();
    assert!(matches!(err, FrameError::Decode(_)));
}

#[test]
fn eof_mid_frame_returns_error() {
    // 4-byte length says 100 bytes, but only 10 bytes of payload follow.
    let mut frame = Vec::new();
    frame.extend_from_slice(&100u32.to_be_bytes());
    frame.extend_from_slice(&[0u8; 10]);
    let err = decode_frame(&mut ByteReader::new(frame)).unwrap_err();
    assert!(matches!(err, FrameError::Io(_)));
}

#[test]
fn encode_oversize_data_returns_error() {
    let data = vec![0u8; (MAX_FRAME_SIZE + 1) as usize];
    let msg = CapMsg::Clipboard {
        origin: "x".into(),
        serial: 0,
        mime: "text/plain;charset=utf-8".into(),
        data,
    };
    // The encoded form includes varint overhead, so it is over the limit.
    let err = encode_frame(&msg).unwrap_err();
    assert!(matches!(err, FrameError::TooLarge(_)));
}

#[test]
fn hello_frame_bytes() {
    let frame = encode_frame(&CapMsg::Hello {
        protocol_version: 1,
        peer_id: "aa:bb".into(),
        capabilities: 300,
    })
    .expect("encode");
    assert_eq!(
        frame,
        vec![0, 0, 0, 10, 0, 1, 5, b'a', b'a', b':', b'b', b'b', 0xac, 0x02]
    );
}

#[test]
fn clipboard_frame_bytes() {
    let frame = encode_frame(&CapMsg::Clipboard {
        origin: "é".into(),
        serial: 128,
        mime: "m".into(),
        data: vec![7, 0, 255],
    })
    .expect("encode");
    assert_eq!(
        frame,
        vec![0, 0, 0, 12, 1, 2, 0xc3, 0xa9, 0x80, 0x01, 1, b'm', 3, 7, 0, 255]
    );
}

#[test]
fn largest_serial_takes_ten_bytes() {
    let frame = encode_frame(&CapMsg::Clipboard {
        origin: String::new(),
        serial: u64::MAX,
        mime: String::new(),
        data: Vec::new(),
    })
    .expect("encode");
    let mut expected = vec![0, 0, 0, 14, 1, 0];
    expected.extend_from_slice(&[0xff; 9]);
    expected.extend_from_slice(&[0x01, 0, 0]);
    assert_eq!(frame, expected);
    round_trip(CapMsg::Clipboard {
        origin: String::new(),
        serial: u64::MAX,
        mime: String::new(),
        data: Vec::new(),
    });
}

#[test]
fn what_follows_a_frame_stays_unread() {
    let first = CapMsg::Hello {
        protocol_version: 7,
        peer_id: "p".into(),
        capabilities: u32::MAX,
    };
    let second = CapMsg::Clipboard {
        origin: "o".into(),
        serial: 1,
        mime: "text/plain".into(),
        data: vec![b'x'; 200],
    };
    let mut bytes = encode_frame(&first).expect("encode");
    let end_of_first = bytes.len();
    bytes.extend_from_slice(&encode_frame(&second).expect("encode"));
    let mut reader = ByteReader::new(bytes);
    assert_eq!(decode_frame(&mut reader).expect("first"), first);
    assert_eq!(reader.position(), end_of_first);
    assert_eq!(decode_frame(&mut reader).expect("second"), second);
    let err = decode_frame(&mut reader).unwrap_err();
    assert!(matches!(err, FrameError::Io(IoError::UnexpectedEof)));
}

#[test]
fn short_prefix_is_an_end_of_input() {
    let mut reader = ByteReader::new(vec![0, 0, 0]);
    let err = decode_frame(&mut reader).unwrap_err();
    assert!(matches!(err, FrameError::Io(IoError::UnexpectedEof)));
    assert_eq!(reader.position(), 3);
}

#[test]
fn unknown_variants_are_malformed() {
    for payload in [&[2, 0, 0][..], &[0xac, 0x02][..]] {
        let err = decode_payload(payload).unwrap_err();
        assert!(matches!(
            err,
            FrameError::Decode(DecodeError::Malformed(postcard::Error::SerdeDeCustom))
        ));
    }
}

#[test]
fn variant_numbers_fit_in_five_bytes() {
    // A longer form of a number is read as well.
    assert!(decode_payload(&[0x80, 0, 1, 1, b'p', 1]).is_ok());
    // Too many bytes, and a fifth byte that overflows.
    for payload in [
        &[0x80, 0x80, 0x80, 0x80, 0x80, 0][..],
        &[0x80, 0x80, 0x80, 0x80, 0x10][..],
    ] {
        let err = decode_payload(payload).unwrap_err();
        assert!(matches!(
            err,
            FrameError::Decode(DecodeError::Malformed(
                postcard::Error::DeserializeBadVarint
            ))
        ));
    }
    let err = decode_payload(&[0x80, 0x80, 0x80, 0x80, 0x0f]).unwrap_err();
    assert!(matches!(
        err,
        FrameError::Decode(DecodeError::Malformed(postcard::Error::SerdeDeCustom))
    ));
}

#[test]
fn messages_cut_short_are_malformed() {
    let messages = [
        CapMsg::Hello {
            protocol_version: 300,
            peer_id: "aé".into(),
            capabilities: u32::MAX,
        },
        CapMsg::Clipboard {
            origin: "é".into(),
            serial: u64::MAX,
            mime: "text/plain".into(),
            data: vec![7; 130],
        },
    ];
    for msg in messages {
        let frame = encode_frame(&msg).expect("encode");
        let payload = &frame[4..];
        assert!(decode_payload(payload).is_ok());
        for n in 0..payload.len() {
            let err = decode_payload(&payload[..n]).unwrap_err();
            assert!(matches!(
                err,
                FrameError::Decode(DecodeError::Malformed(_))
            ));
        }
    }
}

#[test]
fn truncated_and_invalid_fields_are_malformed() {
    // Nothing at all; a string shorter than announced; a string that is no text.
    for payload in [&[][..], &[0, 1, 5, b'a'][..], &[0, 1, 1, 0xff, 0][..]] {
        let err = decode_payload(payload).unwrap_err();
        assert!(matches!(
            err,
            FrameError::Decode(DecodeError::Malformed(_))
        ));
    }
}

#[test]
fn bytes_behind_a_message_are_refused() {
    let mut reader = ByteReader::new(vec![0, 0, 0, 6, 0, 1, 1, 97, 1, 170]);
    let err = decode_frame(&mut reader).unwrap_err();
    assert!(matches!(err, FrameError::Decode(DecodeError::Trailing)));
    assert_eq!(reader.position(), 10);
    let err = decode_payload(&[1, 1, b'o', 1, 1, b'm', 1, b'x', 0]).unwrap_err();
    assert!(matches!(err, FrameError::Decode(DecodeError::Trailing)));
    assert!(decode_payload(&[1, 1, b'o', 1, 1, b'm', 1, b'x']).is_ok());
}

#[test]
fn fields_have_their_limits() {
    // A version of more than sixteen bits, or in more than three bytes.
    for payload in [
        &[0, 0xff, 0xff, 0x04, 0, 0][..],
        &[0, 0x80, 0x80, 0x80, 0, 0, 0][..],
        // Capabilities of more than 32 bits.
        &[0, 1, 0, 0xff, 0xff, 0xff, 0xff, 0x10][..],
        // A serial of more than 64 bits, or in more than ten bytes.
        &[
            1, 0, 0xff, 0xff, 0xff, 0xff, 0xff, 0xff, 0xff, 0xff, 0xff, 0x02, 0, 0,
        ][..],
        &[
            1, 0, 0x80, 0x80, 0x80, 0x80, 0x80, 0x80, 0x80, 0x80, 0x80, 0x80, 0, 0, 0,
        ][..],
        // Texts that are no UTF-8: an origin and a MIME type.
        &[1, 1, 0xc3, 1, 0, 0][..],
        &[1, 0, 1, 2, 0xc0, 0x80, 0][..],
        // A length that nothing in memory has.
        &[
            1, 0, 1, 0, 0xff, 0xff, 0xff, 0xff, 0xff, 0xff, 0xff, 0xff, 0xff, 0x01,
        ][..],
    ] {
        let err = decode_payload(payload).unwrap_err();
        assert!(matches!(
            err,
            FrameError::Decode(DecodeError::Malformed(_))
        ));
    }
    // The largest of each.
    assert!(decode_payload(&[0, 0xff, 0xff, 0x03, 0, 0xff, 0xff, 0xff, 0xff, 0x0f]).is_ok());
}

#[test]
fn read_fields_become_messages() {
    let err = || postcard::Error::DeserializeUnexpectedEnd;
    assert_eq!(
        hello_message(Ok(((1, "p".into(), 2), &[]))).unwrap(),
        CapMsg::Hello {
            protocol_version: 1,
            peer_id: "p".into(),
            capabilities: 2,
        }
    );
    assert!(matches!(
        hello_message(Ok(((1, "p".into(), 2), &[0]))),
        Err(FrameError::Decode(DecodeError::Trailing))
    ));
    assert!(matches!(
        hello_message(Err(err())),
        Err(FrameError::Decode(DecodeError::Malformed(
            postcard::Error::DeserializeUnexpectedEnd
        )))
    ));
    assert_eq!(
        clipboard_message(Ok((("o".into(), 3, "m".into(), vec![4]), &[]))).unwrap(),
        CapMsg::Clipboard {
            origin: "o".into(),
            serial: 3,
            mime: "m".into(),
            data: vec![4],
        }
    );
    assert!(matches!(
        clipboard_message(Ok((("o".into(), 3, "m".into(), vec![4]), &[9]))),
        Err(FrameError::Decode(DecodeError::Trailing))
    ));
    assert!(matches!(
        clipboard_message(Err(err())),
        Err(FrameError::Decode(DecodeError::Malformed(
            postcard::Error::DeserializeUnexpectedEnd
        )))
    ));
}

#[test]
fn length_prefix_is_big_endian_and_capped() {
    assert!(matches!(frame_length([0, 1, 2, 3]), Ok(66051)));
    assert!(matches!(frame_length([4, 0, 0, 0]), Ok(67_108_864)));
    assert!(matches!(
        frame_length([4, 0, 0, 1]),
        Err(FrameError::TooLarge(67_108_865))
    ));
    assert!(matches!(
        frame_length([255, 255, 255, 255]),
        Err(FrameError::TooLarge(u32::MAX))
    ));
}

/// The message as `serde` sees an enum with two struct variants.
struct AsEnum<'a>(&'a CapMsg);

impl serde::Serialize for AsEnum<'_> {
    fn serialize<S: serde::Serializer>(&self, serializer: S) -> Result<S::Ok, S::Error> {
        match self.0 {
            CapMsg::Hello {
                protocol_version,
                peer_id,
                capabilities,
            } => {
                let mut variant =
                    serializer.serialize_struct_variant("CapMsg", 0, "Hello", 3)?;
                variant.serialize_field("protocol_version", protocol_version)?;
                variant.serialize_field("peer_id", peer_id)?;
                variant.serialize_field("capabilities", capabilities)?;
                variant.end()
            }
            CapMsg::Clipboard {
                origin,
                serial,
                mime,
                data,
            } => {
                let mut variant =
                    serializer.serialize_struct_variant("CapMsg", 1, "Clipboard", 4)?;
                variant.serialize_field("origin", origin)?;
                variant.serialize_field("serial", serial)?;
                variant.serialize_field("mime", mime)?;
                variant.serialize_field("data", data)?;
                variant.end()
            }
        }
    }
}

#[test]
fn payload_is_that_of_a_derived_enum() {
    let messages = [
        CapMsg::Hello {
            protocol_version: u16::MAX,
            peer_id: "aa:bb:cc".into(),
            capabilities: u32::MAX,
        },
        CapMsg::Clipboard {
            origin: "aa:bb:cc".into(),
            serial: 1 << 40,
            mime: "text/plain;charset=utf-8".into(),
            data: (0..=255u8).collect(),
        },
    ];
    for msg in messages {
        let frame = encode_frame(&msg).expect("encode");
        let payload = postcard::to_stdvec(&AsEnum(&msg)).expect("postcard");
        assert_eq!(frame[4..], payload[..]);
        assert_eq!(frame[..4], (payload.len() as u32).to_be_bytes());
    }
}
