use pmppt::codec::{decode_frame, decode_frame_len, encode_frame, FrameError};

#[test]
fn frame_has_little_endian_prefix() {
    let f = encode_frame(&[1, 2, 3]).unwrap();
    assert_eq!(f, vec![3, 0, 0, 0, 1, 2, 3]);
    let big = vec![7u8; 0x1_02];
    let f = encode_frame(&big).unwrap();
    assert_eq!(&f[..4], &[0x02, 0x01, 0, 0]);
}

#[test]
fn frame_round_trip() {
    for payload in [vec![], vec![0u8], (0u8..=255).collect::<Vec<u8>>()] {
        let f = encode_frame(&payload).unwrap();
        assert_eq!(decode_frame(&f).unwrap(), payload);
    }
}

#[test]
fn truncated_frames_are_refused() {
    assert_eq!(decode_frame(&[1, 0]), Err(FrameError::Truncated));
    assert_eq!(decode_frame(&[4, 0, 0, 0, 9, 9]), Err(FrameError::Truncated));
    assert_eq!(decode_frame_len(&[0, 0, 0]), Err(FrameError::Truncated));
}

#[test]
fn oversized_frames_are_refused() {
    assert_eq!(decode_frame_len(&[1, 0, 0, 0x80]), Err(FrameError::TooLarge));
    assert_eq!(decode_frame_len(&[0, 0, 0, 0x80]), Ok(0x8000_0000));
    assert_eq!(decode_frame(&[0xff, 0xff, 0xff, 0xff]), Err(FrameError::TooLarge));
}

#[test]
fn trailing_bytes_are_refused() {
    assert_eq!(decode_frame(&[1, 0, 0, 0, 5, 6]), Err(FrameError::TrailingBytes));
}
