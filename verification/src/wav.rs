//! WAV byte layout: the 44-byte RIFF/WAVE header for 16-bit mono PCM at
//! 44100 Hz.
//!
//! Layout, offsets in bytes:
//!
//! ```text
//! 0   "RIFF"     4  file size - 8     8   "WAVE"
//! 12  "fmt "     16 chunk size (16)   20  format (1 = PCM)
//! 22  channels   24 sample rate       28  byte rate
//! 32  block align  34 bits per sample
//! 36  "data"     40 data size         44  samples (little-endian)
//! ```

use vstd::prelude::*;

use vstd::bytes::{spec_u16_to_le_bytes, spec_u32_to_le_bytes, u16_to_le_bytes, u32_to_le_bytes};

verus! {

/// The header's length in bytes.
pub const HEADER_SIZE: usize = 44;

/// The largest sample count whose data size and chunk size still fit in the
/// header's 32-bit fields.
pub open spec fn max_samples() -> int {
    (0xffff_ffff - 36) / 2
}

/// The 44 header bytes for `n` 16-bit mono samples at 44100 Hz.
pub open spec fn spec_header(n: u32) -> Seq<u8>
    recommends
        n <= max_samples(),
{
    seq![0x52u8, 0x49u8, 0x46u8, 0x46u8]  // "RIFF"
     + spec_u32_to_le_bytes((36 + 2 * n) as u32) + seq![0x57u8, 0x41u8, 0x56u8, 0x45u8]  // "WAVE"
     + seq![0x66u8, 0x6du8, 0x74u8, 0x20u8]  // "fmt "
     + spec_u32_to_le_bytes(16u32) + spec_u16_to_le_bytes(1u16) + spec_u16_to_le_bytes(1u16)
        + spec_u32_to_le_bytes(44100u32) + spec_u32_to_le_bytes(88200u32) + spec_u16_to_le_bytes(
        2u16,
    ) + spec_u16_to_le_bytes(16u16) + seq![0x64u8, 0x61u8, 0x74u8, 0x61u8]  // "data"
     + spec_u32_to_le_bytes((2 * n) as u32)
}

/// Generates the 44-byte WAV header for the given number of samples.
pub fn header(num_samples: u32) -> (h: Vec<u8>)
    requires
        num_samples <= max_samples(),
    ensures
        h@ == spec_header(num_samples),
        h@.len() == HEADER_SIZE,
{
    proof {
        vstd::bytes::lemma_auto_spec_u32_to_from_le_bytes();
        vstd::bytes::lemma_auto_spec_u16_to_from_le_bytes();
    }
    let data_size: u32 = num_samples * 2;
    let chunk_size: u32 = 36 + data_size;

    let mut h: Vec<u8> = Vec::new();
    h.push(0x52);
    h.push(0x49);
    h.push(0x46);
    h.push(0x46);
    let mut bytes = u32_to_le_bytes(chunk_size);
    h.append(&mut bytes);
    h.push(0x57);
    h.push(0x41);
    h.push(0x56);
    h.push(0x45);

    h.push(0x66);
    h.push(0x6d);
    h.push(0x74);
    h.push(0x20);
    let mut bytes = u32_to_le_bytes(16);
    h.append(&mut bytes);
    let mut bytes = u16_to_le_bytes(1);
    h.append(&mut bytes);
    let mut bytes = u16_to_le_bytes(1);
    h.append(&mut bytes);
    let mut bytes = u32_to_le_bytes(44100);
    h.append(&mut bytes);
    let mut bytes = u32_to_le_bytes(88200);
    h.append(&mut bytes);
    let mut bytes = u16_to_le_bytes(2);
    h.append(&mut bytes);
    let mut bytes = u16_to_le_bytes(16);
    h.append(&mut bytes);

    h.push(0x64);
    h.push(0x61);
    h.push(0x74);
    h.push(0x61);
    let mut bytes = u32_to_le_bytes(data_size);
    h.append(&mut bytes);

    proof {
        assert(h@ =~= spec_header(num_samples));
    }
    h
}

} // verus!
