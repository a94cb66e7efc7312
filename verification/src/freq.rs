//! Frequency mapping: board squares become musical notes.
//!
//! The file picks the note within a C-major scale (file 'a' is C, file 'f'
//! is the tuning reference A at 440 Hz, file 'h' is the next C up), and the
//! rank picks the octave, with rank 4 as the reference octave. One octave up
//! doubles the frequency; one down halves it, rounding toward zero.

use vstd::prelude::*;

use crate::chess::Square;

verus! {

/// The reference-octave frequency for each file, in Hz: the notes
/// C D E F G A B C with A = 440 Hz.
pub open spec fn base_freq(file: int) -> u32 {
    if file == 0 {
        262
    } else if file == 1 {
        294
    } else if file == 2 {
        330
    } else if file == 3 {
        349
    } else if file == 4 {
        392
    } else if file == 5 {
        440
    } else if file == 6 {
        494
    } else {
        523
    }
}

/// The base frequency scaled by the octave offset: doubled per octave above
/// the reference, halved (integer division) per octave below.
pub open spec fn octave_scale(base: int, octave_diff: int) -> int {
    if octave_diff == 4 {
        base * 16
    } else if octave_diff == 3 {
        base * 8
    } else if octave_diff == 2 {
        base * 4
    } else if octave_diff == 1 {
        base * 2
    } else if octave_diff == -1 {
        base / 2
    } else if octave_diff == -2 {
        base / 4
    } else if octave_diff == -3 {
        base / 8
    } else {
        base
    }
}

/// The frequency a square sounds at.
pub open spec fn spec_from_square(sq: Square) -> int {
    octave_scale(base_freq(sq.file as int) as int, sq.rank - 3)
}

/// Converts a board square to its frequency in Hz.
pub fn from_square(square: &Square) -> (r: u32)
    requires
        square.in_range(),
    ensures
        r == spec_from_square(*square),
{
    let base: u32 = match square.file {
        0 => 262,
        1 => 294,
        2 => 330,
        3 => 349,
        4 => 392,
        5 => 440,
        6 => 494,
        _ => 523,
    };
    match square.rank {
        0 => base / 8,
        1 => base / 4,
        2 => base / 2,
        3 => base,
        4 => base * 2,
        5 => base * 4,
        6 => base * 8,
        _ => base * 16,
    }
}

} // verus!
