use chesswav::audio::to_wav;
use chesswav::chess::Square;
use chesswav::freq::from_square;
use chesswav::wav::{header, HEADER_SIZE};

#[test]
fn a4_c4() {
    assert_eq!(from_square(&Square { file: 0, rank: 3 }), 262);
}

#[test]
fn f4_a4() {
    assert_eq!(from_square(&Square { file: 5, rank: 3 }), 440);
}

#[test]
fn e4_g4() {
    assert_eq!(from_square(&Square { file: 4, rank: 3 }), 392);
}

#[test]
fn b4_d4() {
    assert_eq!(from_square(&Square { file: 1, rank: 3 }), 294);
}

#[test]
fn g4_b4() {
    assert_eq!(from_square(&Square { file: 6, rank: 3 }), 494);
}

#[test]
fn h4_c5() {
    assert_eq!(from_square(&Square { file: 7, rank: 3 }), 523);
}

#[test]
fn octave_up_a5() {
    assert_eq!(from_square(&Square { file: 0, rank: 4 }), 524);
}

#[test]
fn octave_down_a3() {
    assert_eq!(from_square(&Square { file: 0, rank: 2 }), 131);
}

#[test]
fn two_octaves_up() {
    assert_eq!(from_square(&Square { file: 0, rank: 5 }), 1048);
}

#[test]
fn two_octaves_down() {
    assert_eq!(from_square(&Square { file: 0, rank: 1 }), 65);
}

#[test]
fn header_size() {
    let h = header(1000);
    assert_eq!(h.len(), 44);
    assert_eq!(HEADER_SIZE, 44);
}

#[test]
fn riff_marker() {
    let h = header(1000);
    assert_eq!(&h[0..4], b"RIFF");
}

#[test]
fn wave_marker() {
    let h = header(1000);
    assert_eq!(&h[8..12], b"WAVE");
}

#[test]
fn fmt_marker() {
    let h = header(1000);
    assert_eq!(&h[12..16], b"fmt ");
}

#[test]
fn data_marker() {
    let h = header(1000);
    assert_eq!(&h[36..40], b"data");
}

#[test]
fn chunk_size_correct() {
    let h = header(1000);
    let chunk_size = u32::from_le_bytes([h[4], h[5], h[6], h[7]]);
    assert_eq!(chunk_size, 36 + 2000);
}

#[test]
fn data_size_correct() {
    let h = header(1000);
    let data_size = u32::from_le_bytes([h[40], h[41], h[42], h[43]]);
    assert_eq!(data_size, 2000);
}

#[test]
fn sample_rate_correct() {
    let h = header(1000);
    let sr = u32::from_le_bytes([h[24], h[25], h[26], h[27]]);
    assert_eq!(sr, 44100);
}

#[test]
fn byte_layout() {
    let expected: [u8; 44] = [
        0x52, 0x49, 0x46, 0x46,
        0xf4, 0x07, 0x00, 0x00,
        0x57, 0x41, 0x56, 0x45,
        0x66, 0x6d, 0x74, 0x20,
        0x10, 0x00, 0x00, 0x00,
        0x01, 0x00,
        0x01, 0x00,
        0x44, 0xac, 0x00, 0x00,
        0x88, 0x58, 0x01, 0x00,
        0x02, 0x00,
        0x10, 0x00,
        0x64, 0x61, 0x74, 0x61,
        0xd0, 0x07, 0x00, 0x00,
    ];
    let h = header(1000);
    assert_eq!(h.as_slice(), &expected);
}

#[test]
fn chunk_size() {
    let h = header(1000);
    let size = u32::from_le_bytes([h[4], h[5], h[6], h[7]]);
    assert_eq!(size, 36 + 2000); // 1000 samples * 2 bytes
}

#[test]
fn data_size() {
    let h = header(1000);
    let size = u32::from_le_bytes([h[40], h[41], h[42], h[43]]);
    assert_eq!(size, 2000);
}

#[test]
fn sample_rate() {
    let h = header(1000);
    let sr = u32::from_le_bytes([h[24], h[25], h[26], h[27]]);
    assert_eq!(sr, 44100);
}

#[test]
fn to_wav_prepends_header() {
    let samples: Vec<i16> = vec![0, 1, -1, i16::MAX, i16::MIN];
    let bytes = to_wav(&samples);
    assert_eq!(bytes.len(), 44 + samples.len() * 2);
    assert_eq!(&bytes[0..4], b"RIFF");
    assert_eq!(&bytes[8..12], b"WAVE");
}

#[test]
fn to_wav_encodes_samples_little_endian() {
    let samples: Vec<i16> = vec![0x1234, -2];
    let bytes = to_wav(&samples);
    assert_eq!(&bytes[44..48], &[0x34, 0x12, 0xfe, 0xff]);
}

#[test]
fn to_wav_empty_input_is_header_only() {
    let bytes = to_wav(&[]);
    assert_eq!(bytes.len(), 44);
    let data_size = u32::from_le_bytes([bytes[40], bytes[41], bytes[42], bytes[43]]);
    assert_eq!(data_size, 0);
}
