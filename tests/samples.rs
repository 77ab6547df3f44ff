use speech_to_text::samples::{decode, sample_from_le, SampleError};

#[test]
fn decode_even_buffer_little_endian() {
    let bytes: Vec<u8> = vec![0x01, 0x00, 0xff, 0xff, 0x00, 0x80, 0xff, 0x7f];
    let samples = decode(&bytes).unwrap();
    assert_eq!(samples, vec![1i16, -1, -32768, 32767]);
}

#[test]
fn decode_empty_buffer() {
    let bytes: Vec<u8> = Vec::new();
    assert_eq!(decode(&bytes).unwrap(), Vec::<i16>::new());
}

#[test]
fn decode_odd_buffer_is_rejected() {
    let bytes: Vec<u8> = vec![1, 2, 3];
    assert_eq!(decode(&bytes), Err(SampleError::InvalidBufferLength));
    let one: Vec<u8> = vec![7];
    assert_eq!(decode(&one), Err(SampleError::InvalidBufferLength));
}

#[test]
fn decode_round_trip_re_encodes() {
    let bytes: Vec<u8> = (0..=255u8).chain((0..=255u8).rev()).collect();
    let samples = decode(&bytes).unwrap();
    assert_eq!(samples.len(), bytes.len() / 2);
    let again: Vec<u8> = samples.iter().flat_map(|s| s.to_le_bytes()).collect();
    assert_eq!(again, bytes);
}

#[test]
fn sample_from_le_matches_std() {
    for lo in [0u8, 1, 0x7f, 0x80, 0xfe, 0xff] {
        for hi in [0u8, 1, 0x7f, 0x80, 0xfe, 0xff] {
            assert_eq!(sample_from_le(lo, hi), i16::from_le_bytes([lo, hi]));
        }
    }
}
