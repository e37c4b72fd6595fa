use signal_orchestrate::{signal_version, Frame, FrameCodecError, SignalFrameCodec, Version};

fn channel_frame(body: &[u8]) -> Frame {
    Frame(signal_version(), body.to_vec())
}

fn prefixed(payload: &[u8]) -> Vec<u8> {
    let mut bytes = (payload.len() as u32).to_le_bytes().to_vec();
    bytes.extend_from_slice(payload);
    bytes
}

#[test]
fn channel_version_is_contract_one_revision_six() {
    assert_eq!(
        signal_version(),
        Version {
            contract_id: 1,
            wire_revision: 6
        }
    );
}

#[test]
fn frames_round_trip_through_length_prefixed_bytes() {
    for body in [&b""[..], &b"lock"[..], &[0u8, 255, 7, 9, 42][..]] {
        let frame = channel_frame(body);
        let bytes = frame.encode_length_prefixed().expect("encode");
        assert_eq!(Frame::decode_length_prefixed(&bytes), Ok(frame));
    }
}

#[test]
fn encoded_frame_is_a_length_prefix_and_the_rkyv_archive() {
    let frame = channel_frame(b"payload");
    let bytes = frame.encode_length_prefixed().expect("encode");
    let archive = rkyv::to_bytes::<rkyv::rancor::Error>(&(1u32, 6u32, b"payload".to_vec()))
        .expect("archive");
    assert_eq!(bytes, prefixed(&archive));
    assert_ne!(&bytes[4..], b"payload");
    let length = u32::from_le_bytes([bytes[0], bytes[1], bytes[2], bytes[3]]) as usize;
    assert_eq!(length, bytes.len() - 4);
}

#[test]
fn encoding_refuses_a_foreign_version() {
    let version = Version {
        contract_id: 1,
        wire_revision: 5,
    };
    assert_eq!(
        Frame(version, vec![1, 2, 3]).encode_length_prefixed(),
        Err(FrameCodecError::VersionMismatch {
            expected: signal_version(),
            found: version,
        })
    );
}

#[test]
fn decoding_refuses_a_missing_prefix() {
    for bytes in [&b""[..], &[4u8][..], &[4u8, 0, 0][..]] {
        assert_eq!(
            Frame::decode_length_prefixed(bytes),
            Err(FrameCodecError::LengthPrefixMissing)
        );
    }
}

#[test]
fn decoding_refuses_a_length_mismatch() {
    assert_eq!(
        Frame::decode_length_prefixed(&[5, 0, 0, 0, 1, 2]),
        Err(FrameCodecError::LengthMismatch {
            expected: 5,
            found: 2
        })
    );
    let mut bytes = channel_frame(b"abc").encode_length_prefixed().unwrap();
    bytes.push(0);
    let found = bytes.len() - 4;
    assert_eq!(
        Frame::decode_length_prefixed(&bytes),
        Err(FrameCodecError::LengthMismatch {
            expected: found - 1,
            found
        })
    );
}

#[test]
fn decoding_refuses_bytes_that_are_no_archive() {
    assert_eq!(
        Frame::decode_length_prefixed(&prefixed(&[1, 2, 3])),
        Err(FrameCodecError::ArchiveDecode)
    );
    assert_eq!(
        Frame::decode_length_prefixed(&[0, 0, 0, 0]),
        Err(FrameCodecError::ArchiveDecode)
    );
}

#[test]
fn decoding_refuses_a_foreign_version() {
    let archive = rkyv::to_bytes::<rkyv::rancor::Error>(&(2u32, 6u32, vec![9u8]))
        .expect("archive");
    assert_eq!(
        Frame::decode_length_prefixed(&prefixed(&archive)),
        Err(FrameCodecError::VersionMismatch {
            expected: signal_version(),
            found: Version {
                contract_id: 2,
                wire_revision: 6
            },
        })
    );
}

#[test]
fn the_longest_archived_body_leaves_room_for_the_relative_offset() {
    assert_eq!(signal_orchestrate::MAX_FRAME_BODY, 0x7fff_0000);
    assert!((signal_orchestrate::MAX_FRAME_BODY as u64) < i32::MAX as u64);
}
