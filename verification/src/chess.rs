//! Chess domain types: colors, pieces, squares, and parsed moves.
//!
//! Squares use 0-indexed file (0 = "a" .. 7 = "h") and rank (0 = rank 1 ..
//! 7 = rank 8). Algebraic notation is parsed elsewhere; this module holds the
//! value types and the square-level parsing helpers.

use vstd::prelude::*;

use crate::text::{chars_of, contains_char, eq_chars};

verus! {

/// A file letter, 'a' through 'h'.
pub open spec fn is_file_letter(c: char) -> bool {
    'a' <= c && c <= 'h'
}

/// A rank digit, '1' through '8'.
pub open spec fn is_rank_digit(c: char) -> bool {
    '1' <= c && c <= '8'
}

/// The 0-indexed file named by a file letter.
pub open spec fn file_of_letter(c: char) -> u8 {
    (c as u8 - 'a' as u8) as u8
}

/// The 0-indexed rank named by a rank digit.
pub open spec fn rank_of_digit(c: char) -> u8 {
    (c as u8 - '1' as u8) as u8
}

/// The two sides of a game.
#[derive(Debug, Clone, Copy, PartialEq, Eq, Structural)]
pub enum Color {
    White,
    Black,
}

impl Color {
    /// The other side.
    pub fn opponent(self) -> (r: Color)
        ensures
            r == self.spec_opponent(),
    {
        match self {
            Color::White => Color::Black,
            Color::Black => Color::White,
        }
    }

    pub open spec fn spec_opponent(self) -> Color {
        match self {
            Color::White => Color::Black,
            Color::Black => Color::White,
        }
    }
}

/// The six piece types, as used by the board engine.
#[derive(Debug, Clone, Copy, PartialEq, Eq, Structural)]
pub enum Piece {
    Pawn,
    Knight,
    Rook,
    Bishop,
    Queen,
    King,
}

/// The six piece types, as used by the lightweight notation tokenizer.
#[derive(Debug, Clone, Copy, PartialEq, Eq, Structural)]
pub enum PieceKind {
    King,
    Queen,
    Rook,
    Bishop,
    Knight,
    Pawn,
}

/// Check/checkmate annotation carried by a parsed move.
#[derive(Debug, Clone, Copy, PartialEq, Eq, Structural)]
pub enum Threat {
    Quiet,
    Check,
    Checkmate,
}

/// Capture annotation carried by a parsed move.
#[derive(Debug, Clone, Copy, PartialEq, Eq, Structural)]
pub enum Capture {
    Quiet,
    Taken,
}

/// A board square: file 0-7 (a-h) and rank 0-7 (ranks 1-8).
#[derive(Debug, Clone, Copy, PartialEq, Eq, Structural)]
pub struct Square {
    pub file: u8,
    pub rank: u8,
}

impl Square {
    /// Both coordinates on the 8x8 board.
    pub open spec fn in_range(self) -> bool {
        self.file < 8 && self.rank < 8
    }

    /// The file letter, 'a' for file 0 through 'h' for file 7.
    pub fn file_char(&self) -> (c: char)
        requires
            self.file < 8,
        ensures
            c == spec_file_char(self.file as int),
    {
        match self.file {
            0 => 'a',
            1 => 'b',
            2 => 'c',
            3 => 'd',
            4 => 'e',
            5 => 'f',
            6 => 'g',
            _ => 'h',
        }
    }

    /// The 1-based rank number shown in notation.
    pub fn rank_num(&self) -> (n: u8)
        requires
            self.rank < 8,
        ensures
            n == self.rank + 1,
    {
        self.rank + 1
    }

    /// The square in algebraic notation, as in "e4".
    pub fn to_text(&self) -> (s: String)
        requires
            self.in_range(),
        ensures
            s@ == seq![spec_file_char(self.file as int), crate::text::spec_digit(self.rank + 1)],
    {
        let mut s = String::new();
        crate::text::push_char(&mut s, self.file_char());
        crate::text::push_char(&mut s, crate::text::digit_char((self.rank + 1) as usize));
        proof {
            assert(s@ =~= seq![
                spec_file_char(self.file as int),
                crate::text::spec_digit(self.rank + 1),
            ]);
        }
        s
    }

    /// Row-major index into a flat 64-cell board, rank first.
    pub fn to_index(&self) -> (i: usize)
        requires
            self.in_range(),
        ensures
            i == self.rank * 8 + self.file,
    {
        (self.rank as usize) * 8 + (self.file as usize)
    }
}

/// A move as written in algebraic notation, before the board resolves its
/// origin: the piece, the destination, and the annotations the token
/// carried.
#[derive(Debug, Clone, Copy, PartialEq, Eq)]
pub struct Move {
    pub piece: Piece,
    pub dest: Square,
    pub threat: Threat,
    pub capture: Capture,
    pub promotion: Option<Piece>,
}

/// The piece named by an upper-case piece letter; a pawn has no letter.
pub open spec fn spec_piece_from_char(c: char) -> Option<Piece> {
    if c == 'N' {
        Some(Piece::Knight)
    } else if c == 'R' {
        Some(Piece::Rook)
    } else if c == 'B' {
        Some(Piece::Bishop)
    } else if c == 'Q' {
        Some(Piece::Queen)
    } else if c == 'K' {
        Some(Piece::King)
    } else {
        None
    }
}

/// The square named by a file letter and a rank digit, when both are valid.
pub open spec fn spec_square_from_chars(fc: char, rc: char) -> Option<Square> {
    if is_file_letter(fc) && is_rank_digit(rc) {
        Some(Square { file: file_of_letter(fc), rank: rank_of_digit(rc) })
    } else {
        None
    }
}

/// The square named by the first two characters of the text.
pub open spec fn spec_parse_square(s: Seq<char>) -> Option<Square> {
    if s.len() < 2 {
        None
    } else {
        spec_square_from_chars(s[0], s[1])
    }
}

/// The characters after the first '=', or `None` when there is none.
pub open spec fn after_eq(s: Seq<char>) -> Option<Seq<char>>
    decreases s.len(),
{
    if s.len() == 0 {
        None
    } else if s[0] == '=' {
        Some(s.subrange(1, s.len() as int))
    } else {
        after_eq(s.subrange(1, s.len() as int))
    }
}

/// The promotion piece named after the first '=' of the token, if any.
pub open spec fn spec_promotion(s: Seq<char>) -> Option<Piece> {
    match after_eq(s) {
        Some(t) => if t.len() > 0 {
            spec_piece_from_char(t[0])
        } else {
            None
        },
        None => None,
    }
}

/// The threat annotation carried by the token: '#' beats '+'.
pub open spec fn spec_threat(s: Seq<char>) -> Threat {
    if s.contains('#') {
        Threat::Checkmate
    } else if s.contains('+') {
        Threat::Check
    } else {
        Threat::Quiet
    }
}

/// The capture annotation carried by the token.
pub open spec fn spec_capture(s: Seq<char>) -> Capture {
    if s.contains('x') {
        Capture::Taken
    } else {
        Capture::Quiet
    }
}

/// What `Move::parse` makes of a token: annotations read off the raw text,
/// castling recognized on the cleaned text, and otherwise the piece letter
/// (pawn when there is none) plus the last two characters as destination.
pub open spec fn spec_parse_move(s: Seq<char>, move_index: int) -> Option<Move> {
    let threat = spec_threat(s);
    let capture = spec_capture(s);
    let promotion = spec_promotion(s);
    let clean = crate::hint::spec_strip(s);
    let rank: u8 = if move_index % 2 == 0 {
        0
    } else {
        7
    };
    if clean == "OO"@ {
        Some(Move { piece: Piece::King, dest: Square { file: 6, rank }, threat, capture, promotion: None })
    } else if clean == "OOO"@ {
        Some(Move { piece: Piece::King, dest: Square { file: 2, rank }, threat, capture, promotion: None })
    } else if clean.len() < 2 {
        None
    } else {
        let piece = match spec_piece_from_char(clean[0]) {
            Some(p) => p,
            None => Piece::Pawn,
        };
        match spec_square_from_chars(clean[clean.len() - 2], clean[clean.len() - 1]) {
            Some(dest) => Some(Move { piece, dest, threat, capture, promotion }),
            None => None,
        }
    }
}

impl Piece {
    /// The piece named by an upper-case piece letter.
    fn from_char(c: char) -> (r: Option<Piece>)
        ensures
            r == spec_piece_from_char(c),
    {
        match c {
            'N' => Some(Piece::Knight),
            'R' => Some(Piece::Rook),
            'B' => Some(Piece::Bishop),
            'Q' => Some(Piece::Queen),
            'K' => Some(Piece::King),
            _ => None,
        }
    }
}

/// The square named by a file letter and a rank digit.
pub(crate) fn square_from_chars(fc: char, rc: char) -> (r: Option<Square>)
    ensures
        r == spec_square_from_chars(fc, rc),
        r matches Some(sq) ==> sq.in_range(),
{
    if fc >= 'a' && fc <= 'h' && rc >= '1' && rc <= '8' {
        Some(Square { file: fc as u8 - ('a' as u8), rank: rc as u8 - ('1' as u8) })
    } else {
        None
    }
}

impl Square {
    /// The square named by the first two characters of the text, as in "e4".
    pub fn parse(s: &str) -> (r: Option<Square>)
        ensures
            r == spec_parse_square(s@),
            r matches Some(sq) ==> sq.in_range(),
    {
        let n = s.unicode_len();
        if n < 2 {
            return None;
        }
        let fc = s.get_char(0);
        let rc = s.get_char(1);
        square_from_chars(fc, rc)
    }
}

/// The promotion piece named after the first '=' of the token, if any.
fn parse_promotion(chars: &Vec<char>) -> (r: Option<Piece>)
    ensures
        r == spec_promotion(chars@),
{
    let mut i: usize = 0;
    proof {
        assert(chars@.subrange(0, chars@.len() as int) =~= chars@);
    }
    while i < chars.len()
        invariant
            i <= chars@.len(),
            after_eq(chars@) == after_eq(chars@.subrange(i as int, chars@.len() as int)),
        decreases chars@.len() - i,
    {
        proof {
            assert(chars@.subrange(i as int, chars@.len() as int).subrange(
                1,
                chars@.len() - i,
            ) =~= chars@.subrange(i + 1, chars@.len() as int));
        }
        if chars[i] == '=' {
            if i + 1 < chars.len() {
                return Piece::from_char(chars[i + 1]);
            } else {
                return None;
            }
        }
        i = i + 1;
    }
    None
}

impl Move {
    /// Parses one token of algebraic notation. The move index fixes whose
    /// turn it is: even for White (back rank 0), odd for Black (back rank
    /// 7); only castling destinations depend on it.
    pub fn parse(input: &str, move_index: usize) -> (r: Option<Move>)
        ensures
            r == spec_parse_move(input@, move_index as int),
            r matches Some(m) ==> m.dest.in_range(),
    {
        let chars = chars_of(input);
        let threat = if contains_char(&chars, '#') {
            Threat::Checkmate
        } else if contains_char(&chars, '+') {
            Threat::Check
        } else {
            Threat::Quiet
        };
        let capture = if contains_char(&chars, 'x') {
            Capture::Taken
        } else {
            Capture::Quiet
        };
        let promotion = parse_promotion(&chars);
        let clean_string = crate::hint::strip_annotations(input);
        let clean = chars_of(clean_string.as_str());
        let rank: u8 = if move_index % 2 == 0 {
            0
        } else {
            7
        };
        if eq_chars(&clean, "OO") {
            return Some(
                Move {
                    piece: Piece::King,
                    dest: Square { file: 6, rank },
                    threat,
                    capture,
                    promotion: None,
                },
            );
        }
        if eq_chars(&clean, "OOO") {
            return Some(
                Move {
                    piece: Piece::King,
                    dest: Square { file: 2, rank },
                    threat,
                    capture,
                    promotion: None,
                },
            );
        }
        if clean.len() < 2 {
            return None;
        }
        let piece = match Piece::from_char(clean[0]) {
            Some(p) => p,
            None => Piece::Pawn,
        };
        let fc = clean[clean.len() - 2];
        let rc = clean[clean.len() - 1];
        match square_from_chars(fc, rc) {
            Some(dest) => Some(Move { piece, dest, threat, capture, promotion }),
            None => None,
        }
    }
}

/// The file letter for a 0-indexed file.
pub open spec fn spec_file_char(file: int) -> char {
    if file == 0 {
        'a'
    } else if file == 1 {
        'b'
    } else if file == 2 {
        'c'
    } else if file == 3 {
        'd'
    } else if file == 4 {
        'e'
    } else if file == 5 {
        'f'
    } else if file == 6 {
        'g'
    } else {
        'h'
    }
}

} // verus!
