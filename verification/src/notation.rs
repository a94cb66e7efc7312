//! A lightweight notation tokenizer: piece, destination, and capture flag,
//! with no threat or promotion handling. The audio pipeline needs no more.

use vstd::prelude::*;

use crate::chess::{spec_square_from_chars, square_from_chars, PieceKind, Square};
use crate::text::chars_of;

verus! {

/// A tokenized move: which piece goes where, and whether it captures.
#[derive(Debug, Clone, Copy, PartialEq, Eq)]
pub struct Move {
    pub piece: PieceKind,
    pub dest: Square,
    pub capture: bool,
}

/// The token with '+', '#', '!', '?' and 'x' removed.
pub open spec fn spec_token_clean(s: Seq<char>) -> Seq<char>
    decreases s.len(),
{
    if s.len() == 0 {
        s
    } else if s[0] == '+' || s[0] == '#' || s[0] == '!' || s[0] == '?' || s[0] == 'x' {
        spec_token_clean(s.subrange(1, s.len() as int))
    } else {
        seq![s[0]] + spec_token_clean(s.subrange(1, s.len() as int))
    }
}

/// The piece kind named by the token's first character; anything but an
/// upper-case piece letter means a pawn.
pub open spec fn spec_kind_from_char(c: char) -> PieceKind {
    if c == 'K' {
        PieceKind::King
    } else if c == 'Q' {
        PieceKind::Queen
    } else if c == 'R' {
        PieceKind::Rook
    } else if c == 'B' {
        PieceKind::Bishop
    } else if c == 'N' {
        PieceKind::Knight
    } else {
        PieceKind::Pawn
    }
}

/// What `parse` makes of a token: the capture flag from the raw text, the
/// piece from the cleaned token's first character, and the destination from
/// its last two.
pub open spec fn spec_parse_token(s: Seq<char>) -> Option<Move> {
    let clean = spec_token_clean(s);
    if clean.len() < 2 {
        None
    } else {
        let piece = spec_kind_from_char(clean[0]);
        match spec_square_from_chars(clean[clean.len() - 2], clean[clean.len() - 1]) {
            Some(dest) => Some(Move { piece, dest, capture: s.contains('x') }),
            None => None,
        }
    }
}

/// Tokenizes one move, ignoring annotations entirely.
pub fn parse(input: &str) -> (r: Option<Move>)
    ensures
        r == spec_parse_token(input@),
        r matches Some(m) ==> m.dest.in_range(),
{
    let chars = chars_of(input);
    let mut clean: Vec<char> = Vec::new();
    let mut capture = false;
    let mut i: usize = 0;
    proof {
        assert(chars@.subrange(0, chars@.len() as int) =~= chars@);
        assert(clean@ + spec_token_clean(chars@) =~= spec_token_clean(chars@));
    }
    while i < chars.len()
        invariant
            i <= chars@.len(),
            chars@ == input@,
            capture == exists|j: int| 0 <= j < i && chars@[j] == 'x',
            spec_token_clean(input@) == clean@ + spec_token_clean(
                chars@.subrange(i as int, chars@.len() as int),
            ),
        decreases chars@.len() - i,
    {
        let c = chars[i];
        proof {
            assert(chars@.subrange(i as int, chars@.len() as int).subrange(
                1,
                chars@.len() - i,
            ) =~= chars@.subrange(i + 1, chars@.len() as int));
        }
        if c == 'x' {
            capture = true;
        }
        if !(c == '+' || c == '#' || c == '!' || c == '?' || c == 'x') {
            clean.push(c);
        }
        i = i + 1;
    }
    proof {
        assert(chars@.subrange(chars@.len() as int, chars@.len() as int) =~= Seq::<
            char,
        >::empty());
        assert(clean@ + Seq::<char>::empty() =~= clean@);
        assert(capture == input@.contains('x'));
    }
    if clean.len() < 2 {
        return None;
    }
    let first = clean[0];
    let piece = match first {
        'K' => PieceKind::King,
        'Q' => PieceKind::Queen,
        'R' => PieceKind::Rook,
        'B' => PieceKind::Bishop,
        'N' => PieceKind::Knight,
        _ => PieceKind::Pawn,
    };
    let fc = clean[clean.len() - 2];
    let rc = clean[clean.len() - 1];
    match square_from_chars(fc, rc) {
        Some(dest) => Some(Move { piece, dest, capture }),
        None => None,
    }
}

} // verus!
