//! Move disambiguation and hint extraction.
//!
//! Algebraic notation can be ambiguous when several pieces of the same type
//! can reach the same square (for example `Rad1` against `Rfd1`). This module
//! strips annotation symbols from notation, extracts file and rank hints, and
//! resolves castling notation into a fully specified king-and-rook move.
//! Castling is built from the notation text and the mover's color alone: the
//! engine keeps no castling rights, so no board inspection happens here.

use vstd::prelude::*;

use crate::board::ParsedMove;
use crate::chess::{file_of_letter, is_file_letter, is_rank_digit, rank_of_digit, Color, Move, Piece, Square};
use crate::text::{chars_of, eq_chars, push_char};

verus! {

/// The symbols that `strip_annotations` removes.
pub open spec fn is_annotation(c: char) -> bool {
    c == '+' || c == '#' || c == '!' || c == '?' || c == 'x' || c == '-'
}

/// The characters before the first '=', with annotation symbols removed:
/// what is left of a notation token once check, capture, quality marks and
/// the promotion suffix are gone.
pub open spec fn spec_strip(s: Seq<char>) -> Seq<char>
    decreases s.len(),
{
    if s.len() == 0 {
        s
    } else if s[0] == '=' {
        Seq::empty()
    } else if is_annotation(s[0]) {
        spec_strip(s.subrange(1, s.len() as int))
    } else {
        seq![s[0]] + spec_strip(s.subrange(1, s.len() as int))
    }
}

/// The string with only '+' and '#' removed, the shape castling detection
/// compares against "O-O" and "O-O-O".
pub open spec fn spec_castle_clean(s: Seq<char>) -> Seq<char>
    decreases s.len(),
{
    if s.len() == 0 {
        s
    } else if s[0] == '+' || s[0] == '#' {
        spec_castle_clean(s.subrange(1, s.len() as int))
    } else {
        seq![s[0]] + spec_castle_clean(s.subrange(1, s.len() as int))
    }
}

/// The notation names a castling move.
pub open spec fn spec_is_castling(s: Seq<char>) -> bool {
    spec_castle_clean(s) == "O-O"@ || spec_castle_clean(s) == "O-O-O"@
}

/// One pass over disambiguation characters, last occurrence winning: a file
/// letter sets the file hint, a rank digit sets the rank hint.
pub open spec fn fold_hints(s: Seq<char>, fh: Option<u8>, rh: Option<u8>) -> (Option<u8>, Option<
    u8,
>)
    decreases s.len(),
{
    if s.len() == 0 {
        (fh, rh)
    } else {
        let c = s[0];
        let fh2 = if is_file_letter(c) {
            Some(file_of_letter(c))
        } else {
            fh
        };
        let rh2 = if !is_file_letter(c) && is_rank_digit(c) {
            Some(rank_of_digit(c))
        } else {
            rh
        };
        fold_hints(s.subrange(1, s.len() as int), fh2, rh2)
    }
}

/// The hints hiding in a cleaned notation token. A pawn token longer than
/// two characters names its source file first (as in the cleaned form of
/// `exd5`); a piece token longer than three characters holds disambiguation
/// characters between the piece letter and the two destination characters.
pub open spec fn spec_extract_hints(clean: Seq<char>, piece: Piece) -> (Option<u8>, Option<u8>) {
    if piece == Piece::Pawn {
        if clean.len() > 2 && is_file_letter(clean[0]) {
            (Some(file_of_letter(clean[0])), None)
        } else {
            (None, None)
        }
    } else if clean.len() <= 3 {
        (None, None)
    } else {
        fold_hints(clean.subrange(1, clean.len() - 2), None, None)
    }
}

/// The fully specified move that castling notation names for this color:
/// king from file 4 to the noted destination, rook around it.
pub open spec fn spec_castled_move(chess_move: Move, color: Color) -> ParsedMove {
    let rank: u8 = match color {
        Color::White => 0,
        Color::Black => 7,
    };
    let kingside = chess_move.dest.file == 6;
    let rook_from = if kingside {
        Square { file: 7, rank }
    } else {
        Square { file: 0, rank }
    };
    let rook_to = if kingside {
        Square { file: 5, rank }
    } else {
        Square { file: 3, rank }
    };
    ParsedMove {
        origin: Square { file: 4, rank },
        dest: chess_move.dest,
        promotion: None,
        castling_rook: Some((rook_from, rook_to)),
    }
}

/// Whether the notation (ignoring '+' and '#') reads "O-O" or "O-O-O".
pub fn is_castling(notation: &str) -> (r: bool)
    ensures
        r == spec_is_castling(notation@),
{
    let chars = chars_of(notation);
    let mut clean: Vec<char> = Vec::new();
    let mut i: usize = 0;
    proof {
        assert(chars@.subrange(0, chars@.len() as int) =~= chars@);
        assert(clean@ + spec_castle_clean(chars@) =~= spec_castle_clean(chars@));
    }
    while i < chars.len()
        invariant
            i <= chars@.len(),
            chars@ == notation@,
            spec_castle_clean(notation@) == clean@ + spec_castle_clean(
                chars@.subrange(i as int, chars@.len() as int),
            ),
        decreases chars@.len() - i,
    {
        let c = chars[i];
        proof {
            assert(chars@.subrange(i as int, chars@.len() as int).subrange(
                1,
                chars@.len() - i,
            ) =~= chars@.subrange(i + 1, chars@.len() as int));
        }
        if !(c == '+' || c == '#') {
            clean.push(c);
        }
        i = i + 1;
    }
    proof {
        assert(chars@.subrange(chars@.len() as int, chars@.len() as int) =~= Seq::<
            char,
        >::empty());
        assert(clean@ + Seq::<char>::empty() =~= clean@);
    }
    let short = eq_chars(&clean, "O-O");
    let long = eq_chars(&clean, "O-O-O");
    short || long
}

/// The characters before the first '=', with annotation symbols removed.
pub fn strip_annotations(notation: &str) -> (r: String)
    ensures
        r@ == spec_strip(notation@),
{
    let chars = chars_of(notation);
    let mut out = String::new();
    let mut i: usize = 0;
    proof {
        assert(chars@.subrange(0, chars@.len() as int) =~= chars@);
        assert(out@ + spec_strip(chars@) =~= spec_strip(chars@));
    }
    while i < chars.len()
        invariant
            i <= chars@.len(),
            chars@ == notation@,
            spec_strip(notation@) == out@ + spec_strip(
                chars@.subrange(i as int, chars@.len() as int),
            ),
        decreases chars@.len() - i,
    {
        let c = chars[i];
        proof {
            assert(chars@.subrange(i as int, chars@.len() as int).subrange(
                1,
                chars@.len() - i,
            ) =~= chars@.subrange(i + 1, chars@.len() as int));
        }
        if c == '=' {
            proof {
                assert(spec_strip(chars@.subrange(i as int, chars@.len() as int)) =~= Seq::<
                    char,
                >::empty());
                assert(out@ + Seq::<char>::empty() =~= out@);
            }
            return out;
        }
        if !(c == '+' || c == '#' || c == '!' || c == '?' || c == 'x' || c == '-') {
            push_char(&mut out, c);
        }
        i = i + 1;
    }
    proof {
        assert(chars@.subrange(chars@.len() as int, chars@.len() as int) =~= Seq::<
            char,
        >::empty());
        assert(out@ + Seq::<char>::empty() =~= out@);
    }
    out
}

/// The file and rank hints hiding in a cleaned notation token.
pub fn extract_hints(clean: &str, piece: Piece) -> (r: (Option<u8>, Option<u8>))
    ensures
        r == spec_extract_hints(clean@, piece),
{
    let chars = chars_of(clean);
    if matches!(piece, Piece::Pawn) {
        return extract_pawn_hints(&chars);
    }
    if chars.len() <= 3 {
        return (None, None);
    }
    let end = chars.len() - 2;
    let mut file_hint: Option<u8> = None;
    let mut rank_hint: Option<u8> = None;
    let mut i: usize = 1;
    while i < end
        invariant
            1 <= i <= end,
            end == chars@.len() - 2,
            chars@.len() > 3,
            chars@ == clean@,
            fold_hints(chars@.subrange(1, end as int), None, None) == fold_hints(
                chars@.subrange(i as int, end as int),
                file_hint,
                rank_hint,
            ),
        decreases end - i,
    {
        let c = chars[i];
        proof {
            assert(chars@.subrange(i as int, end as int).subrange(1, end - i) =~= chars@.subrange(
                i + 1,
                end as int,
            ));
        }
        if c >= 'a' && c <= 'h' {
            file_hint = Some(c as u8 - ('a' as u8));
        } else if c >= '1' && c <= '8' {
            rank_hint = Some(c as u8 - ('1' as u8));
        }
        i = i + 1;
    }
    proof {
        assert(chars@.subrange(end as int, end as int) =~= Seq::<char>::empty());
    }
    (file_hint, rank_hint)
}

/// The pawn variant of hint extraction: a token longer than two characters
/// names its source file first.
fn extract_pawn_hints(chars: &Vec<char>) -> (r: (Option<u8>, Option<u8>))
    ensures
        r == spec_extract_hints(chars@, Piece::Pawn),
{
    if chars.len() > 2 {
        let source_file = chars[0];
        if source_file >= 'a' && source_file <= 'h' {
            return (Some(source_file as u8 - ('a' as u8)), None);
        }
    }
    (None, None)
}

/// The fully specified castling move for this color, built from the
/// notation alone.
pub fn resolve_castling(chess_move: &Move, color: Color) -> (r: Option<ParsedMove>)
    ensures
        r == Some(spec_castled_move(*chess_move, color)),
{
    let rank: u8 = match color {
        Color::White => 0,
        Color::Black => 7,
    };
    let kingside = chess_move.dest.file == 6;
    let (rook_from, rook_to) = if kingside {
        (Square { file: 7, rank }, Square { file: 5, rank })
    } else {
        (Square { file: 0, rank }, Square { file: 3, rank })
    };
    Some(
        ParsedMove {
            origin: Square { file: 4, rank },
            dest: chess_move.dest,
            promotion: None,
            castling_rook: Some((rook_from, rook_to)),
        },
    )
}

} // verus!
