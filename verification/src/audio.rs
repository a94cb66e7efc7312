//! Audio format constants and the sample-to-WAV byte encoder.
//!
//! Waveform synthesis itself is floating-point work and lives with the
//! program around this library; what belongs here is the byte layout:
//! 16-bit mono PCM samples at 44100 Hz, little-endian, behind a 44-byte
//! header.

use vstd::prelude::*;

use crate::wav;

verus! {

pub const SAMPLE_RATE: u32 = 44100;

pub const BITS_PER_SAMPLE: u16 = 16;

pub const BYTES_PER_SAMPLE: usize = 2;

pub const NUM_CHANNELS: u16 = 1;

pub const MS_PER_SECOND: u32 = 1000;

/// The two little-endian bytes of a 16-bit sample.
pub open spec fn spec_sample_le(x: i16) -> Seq<u8> {
    let u = (x as int) % 65536;
    seq![(u % 256) as u8, (u / 256) as u8]
}

/// The little-endian byte stream of a run of samples.
pub open spec fn spec_samples_le(s: Seq<i16>) -> Seq<u8>
    decreases s.len(),
{
    if s.len() == 0 {
        Seq::empty()
    } else {
        spec_sample_le(s[0]) + spec_samples_le(s.subrange(1, s.len() as int))
    }
}

/// The two little-endian bytes of one sample.
fn sample_le(s: i16) -> (r: (u8, u8))
    ensures
        seq![r.0, r.1] == spec_sample_le(s),
{
    let mut v: i32 = s as i32;
    if v < 0 {
        v = v + 65536;
    }
    ((v % 256) as u8, (v / 256) as u8)
}

/// Converts samples to a complete WAV file: header first, then each sample
/// as two little-endian bytes.
pub fn to_wav(samples: &[i16]) -> (r: Vec<u8>)
    requires
        samples@.len() <= wav::max_samples(),
    ensures
        r@ == wav::spec_header(samples@.len() as u32) + spec_samples_le(samples@),
{
    let n = samples.len();
    let mut data = wav::header(n as u32);
    let mut i: usize = 0;
    proof {
        assert(samples@.subrange(0, n as int) =~= samples@);
        assert(data@ + spec_samples_le(samples@) =~= wav::spec_header(n as u32)
            + spec_samples_le(samples@));
    }
    while i < n
        invariant
            i <= n,
            n == samples@.len(),
            n <= wav::max_samples(),
            wav::spec_header(n as u32) + spec_samples_le(samples@) == data@ + spec_samples_le(
                samples@.subrange(i as int, n as int),
            ),
        decreases n - i,
    {
        proof {
            assert(samples@.subrange(i as int, n as int).subrange(1, n - i) =~= samples@.subrange(
                i + 1,
                n as int,
            ));
        }
        let (lo, hi) = sample_le(samples[i]);
        data.push(lo);
        data.push(hi);
        i = i + 1;
    }
    proof {
        assert(samples@.subrange(n as int, n as int) =~= Seq::<i16>::empty());
        assert(data@ + Seq::<u8>::empty() =~= data@);
    }
    data
}

} // verus!
