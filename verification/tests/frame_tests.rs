use audio_viz::frame::{decode_frames, CaptureError, BUFFER_LEN, BYTES_PER_FRAME};

fn bytes_of(frames: &[(f32, f32)]) -> Vec<u8> {
    let mut bytes = Vec::new();
    for &(l, r) in frames {
        bytes.extend_from_slice(&l.to_le_bytes());
        bytes.extend_from_slice(&r.to_le_bytes());
    }
    bytes
}

#[test]
fn buffer_len_is_one_frame_rate_slice() {
    assert_eq!(BUFFER_LEN, 44100 / 60);
    assert_eq!(BYTES_PER_FRAME, 8);
}

#[test]
fn decode_reads_little_endian_pairs() {
    let bytes = bytes_of(&[(0.0, 1.0), (-1.0, 0.5)]);
    let frames = decode_frames(&bytes, 2).unwrap();
    assert_eq!(frames.len(), 2);
    assert_eq!(frames[0].left_bits, 0.0f32.to_bits());
    assert_eq!(frames[0].right_bits, 1.0f32.to_bits());
    assert_eq!(frames[1].left_bits, (-1.0f32).to_bits());
    assert_eq!(frames[1].right_bits, 0.5f32.to_bits());
}

#[test]
fn decode_is_exact_on_known_bit_patterns() {
    // 1.0f32 is 0x3F800000: bytes 00 00 80 3F on the wire.
    let bytes = vec![0x00, 0x00, 0x80, 0x3F, 0x00, 0x00, 0x00, 0x00];
    let frames = decode_frames(&bytes, 1).unwrap();
    assert_eq!(frames[0].left_bits, 0x3F80_0000);
    assert_eq!(frames[0].right_bits, 0);
}

#[test]
fn decode_of_no_frames_is_empty() {
    let bytes: Vec<u8> = Vec::new();
    let frames = decode_frames(&bytes, 0).unwrap();
    assert!(frames.is_empty());
}

#[test]
fn short_read_is_a_format_mismatch() {
    let bytes = vec![0u8; 12];
    assert_eq!(decode_frames(&bytes, 2), Err(CaptureError::FormatMismatch));
}

#[test]
fn long_read_is_a_format_mismatch() {
    let bytes = vec![0u8; 24];
    assert_eq!(decode_frames(&bytes, 2), Err(CaptureError::FormatMismatch));
}

#[test]
fn capture_errors_describe_themselves() {
    assert_eq!(CaptureError::DeviceUnavailable.describe(), "audio device unavailable");
    assert_eq!(
        CaptureError::FormatMismatch.describe(),
        "capture data does not match the configured format"
    );
}
