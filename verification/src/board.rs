//! The board engine: position state, attack detection, move application,
//! and check/checkmate determination.
//!
//! The position is a flat 64-cell array of optional (piece, color) pairs,
//! indexed rank-major: cell `rank * 8 + file`. The board is a plain `Copy`
//! value, so the checkmate search can test trial moves on cheap copies.

use vstd::prelude::*;

use crate::chess::{Color, Piece, Square};

verus! {

broadcast use vstd::array::group_array_axioms;

/// A fully resolved move, ready to be applied to the board: explicit origin
/// and destination, plus promotion piece and castling rook relocation when
/// the move calls for them.
#[derive(Debug, Clone, Copy, PartialEq, Eq)]
pub struct ParsedMove {
    pub origin: Square,
    pub dest: Square,
    pub promotion: Option<Piece>,
    pub castling_rook: Option<(Square, Square)>,
}

/// The 8x8 position: at most one piece per cell, by construction.
#[derive(Debug, Clone, Copy)]
pub struct Board {
    pub squares: [Option<(Piece, Color)>; 64],
}

/// Both coordinates within the 8x8 board.
pub open spec fn on_board(file: int, rank: int) -> bool {
    0 <= file < 8 && 0 <= rank < 8
}

/// The back-rank piece that starts the game on the given file.
pub open spec fn back_rank_piece(file: int) -> Piece {
    if file == 0 || file == 7 {
        Piece::Rook
    } else if file == 1 || file == 6 {
        Piece::Knight
    } else if file == 2 || file == 5 {
        Piece::Bishop
    } else if file == 3 {
        Piece::Queen
    } else {
        Piece::King
    }
}

/// The standard opening layout, cell by cell.
pub open spec fn initial_at(file: int, rank: int) -> Option<(Piece, Color)> {
    if rank == 0 {
        Some((back_rank_piece(file), Color::White))
    } else if rank == 1 {
        Some((Piece::Pawn, Color::White))
    } else if rank == 6 {
        Some((Piece::Pawn, Color::Black))
    } else if rank == 7 {
        Some((back_rank_piece(file), Color::Black))
    } else {
        None
    }
}

impl Board {
    /// The cell contents at (file, rank).
    pub open spec fn at(self, file: int, rank: int) -> Option<(Piece, Color)>
        recommends
            on_board(file, rank),
    {
        self.squares@[rank * 8 + file]
    }

    /// The board with one cell replaced.
    pub open spec fn with_cell(self, file: int, rank: int, v: Option<(Piece, Color)>) -> Board
        recommends
            on_board(file, rank),
    {
        Board { squares: vstd::array::spec_array_update(self.squares, rank * 8 + file, v) }
    }

    /// An empty board, every cell vacant.
    pub fn empty() -> (b: Board)
        ensures
            forall|f: int, r: int| on_board(f, r) ==> b.at(f, r) is None,
    {
        Board { squares: [None; 64] }
    }

    /// The standard opening position.
    pub fn new() -> (b: Board)
        ensures
            forall|f: int, r: int| on_board(f, r) ==> b.at(f, r) == initial_at(f, r),
    {
        let mut b = Board::empty();
        let mut file: u8 = 0;
        while file < 8
            invariant
                file <= 8,
                forall|f: int, r: int|
                    on_board(f, r) && f < file ==> b.at(f, r) == initial_at(f, r),
                forall|f: int, r: int|
                    on_board(f, r) && f >= file && (r == 0 || r == 1 || r == 6 || r == 7)
                        ==> b.at(f, r) is None,
                forall|f: int, r: int|
                    on_board(f, r) && 2 <= r <= 5 ==> b.at(f, r) is None,
            decreases 8 - file,
        {
            let piece = match file {
                0 => Piece::Rook,
                1 => Piece::Knight,
                2 => Piece::Bishop,
                3 => Piece::Queen,
                4 => Piece::King,
                5 => Piece::Bishop,
                6 => Piece::Knight,
                _ => Piece::Rook,
            };
            assert(piece == back_rank_piece(file as int));
            b.set(file, 0, (piece, Color::White));
            b.set(file, 1, (Piece::Pawn, Color::White));
            b.set(file, 6, (Piece::Pawn, Color::Black));
            b.set(file, 7, (piece, Color::Black));
            file = file + 1;
        }
        b
    }

    /// The contents of a square, `None` when vacant.
    pub fn get(&self, file: u8, rank: u8) -> (r: Option<(Piece, Color)>)
        requires
            file < 8,
            rank < 8,
        ensures
            r == self.at(file as int, rank as int),
    {
        self.squares[(rank as usize) * 8 + (file as usize)]
    }

    /// Places a piece on a square, replacing whatever was there.
    pub fn set(&mut self, file: u8, rank: u8, piece: (Piece, Color))
        requires
            file < 8,
            rank < 8,
        ensures
            *final(self) == old(self).with_cell(file as int, rank as int, Some(piece)),
    {
        self.squares[(rank as usize) * 8 + (file as usize)] = Some(piece);
        proof {
            assert(final(self).squares =~= old(self).with_cell(
                file as int, rank as int, Some(piece)).squares);
        }
    }

    /// Empties a square.
    pub fn clear_square(&mut self, file: u8, rank: u8)
        requires
            file < 8,
            rank < 8,
        ensures
            *final(self) == old(self).with_cell(file as int, rank as int, None),
    {
        self.squares[(rank as usize) * 8 + (file as usize)] = None;
        proof {
            assert(final(self).squares =~= old(self).with_cell(
                file as int, rank as int, None).squares);
        }
    }
}

/// Absolute value.
pub open spec fn mag(x: int) -> int {
    if x < 0 {
        -x
    } else {
        x
    }
}

/// Sign: -1, 0, or 1.
pub open spec fn sgn(x: int) -> int {
    if x > 0 {
        1
    } else if x < 0 {
        -1
    } else {
        0
    }
}

/// Number of king-steps along the line from (f, r) to (tf, tr).
pub open spec fn spec_steps(f: int, r: int, tf: int, tr: int) -> int {
    if mag(tf - f) > mag(tr - r) {
        mag(tf - f)
    } else {
        mag(tr - r)
    }
}

/// Two distinct squares on a common rank, file, or diagonal.
pub open spec fn aligned(f: int, r: int, tf: int, tr: int) -> bool {
    !(tf == f && tr == r) && (tf == f || tr == r || mag(tf - f) == mag(tr - r))
}

/// The next `steps - 1` cells walking from (f, r) by (sf, sr) are all empty:
/// the cells strictly between a slider and its destination.
pub open spec fn spec_clear_between(b: Board, f: int, r: int, sf: int, sr: int, steps: int) -> bool
    decreases steps,
{
    steps <= 1 || (b.at(f + sf, r + sr) is None && spec_clear_between(
        b,
        f + sf,
        r + sr,
        sf,
        sr,
        steps - 1,
    ))
}

/// No piece stands strictly between (f, r) and (tf, tr) on their line.
pub open spec fn spec_path_clear(b: Board, f: int, r: int, tf: int, tr: int) -> bool {
    spec_clear_between(b, f, r, sgn(tf - f), sgn(tr - r), spec_steps(f, r, tf, tr))
}

/// Pawns advance toward higher ranks for White, lower for Black.
pub open spec fn pawn_dir(c: Color) -> int {
    match c {
        Color::White => 1,
        Color::Black => -1,
    }
}

/// The rank a pawn starts on, from which it may advance two squares.
pub open spec fn pawn_start_rank(c: Color) -> int {
    match c {
        Color::White => 1,
        Color::Black => 6,
    }
}

/// A pawn attacks exactly the two diagonally forward squares.
pub open spec fn spec_pawn_attacks(c: Color, f: int, r: int, tf: int, tr: int) -> bool {
    mag(tf - f) == 1 && tr - r == pawn_dir(c)
}

/// Knight movement: an L of two by one.
pub open spec fn spec_knight_reaches(f: int, r: int, tf: int, tr: int) -> bool {
    (mag(tf - f) == 2 && mag(tr - r) == 1) || (mag(tf - f) == 1 && mag(tr - r) == 2)
}

/// King movement: one step in any direction.
pub open spec fn spec_king_reaches(f: int, r: int, tf: int, tr: int) -> bool {
    mag(tf - f) <= 1 && mag(tr - r) <= 1 && mag(tf - f) + mag(tr - r) > 0
}

/// Bishop movement: a nonempty diagonal with a clear path.
pub open spec fn spec_bishop_reaches(b: Board, f: int, r: int, tf: int, tr: int) -> bool {
    mag(tf - f) == mag(tr - r) && tf != f && spec_path_clear(b, f, r, tf, tr)
}

/// Rook movement: a nonempty straight line with a clear path.
pub open spec fn spec_rook_reaches(b: Board, f: int, r: int, tf: int, tr: int) -> bool {
    ((tf == f && tr != r) || (tf != f && tr == r)) && spec_path_clear(b, f, r, tf, tr)
}

/// Pawn movement as used by move resolution: one forward onto an empty
/// square, two forward from the start rank over empty squares, or one
/// diagonal forward regardless of occupancy.
pub open spec fn spec_pawn_reaches(b: Board, c: Color, f: int, r: int, tf: int, tr: int) -> bool {
    let d = pawn_dir(c);
    (tf == f && tr - r == d && b.at(tf, tr) is None) || (tf == f && tr - r == 2 * d && r
        == pawn_start_rank(c) && b.at(f, r + d) is None && b.at(tf, tr) is None) || (mag(tf - f)
        == 1 && tr - r == d)
}

/// Pawn movement as used by legal-move generation: as `spec_pawn_reaches`,
/// except that a diagonal step must capture an enemy piece.
pub open spec fn spec_pawn_can_move_to(
    b: Board,
    c: Color,
    f: int,
    r: int,
    tf: int,
    tr: int,
) -> bool {
    let d = pawn_dir(c);
    (tf == f && tr - r == d && b.at(tf, tr) is None) || (tf == f && tr - r == 2 * d && r
        == pawn_start_rank(c) && b.at(f, r + d) is None && b.at(tf, tr) is None) || (mag(tf - f)
        == 1 && tr - r == d && (b.at(tf, tr) matches Some(pc) && pc.1 != c))
}

/// Movement reachability, by piece, as move resolution sees it.
pub open spec fn spec_can_reach(
    b: Board,
    p: Piece,
    c: Color,
    f: int,
    r: int,
    tf: int,
    tr: int,
) -> bool {
    match p {
        Piece::Pawn => spec_pawn_reaches(b, c, f, r, tf, tr),
        Piece::Knight => spec_knight_reaches(f, r, tf, tr),
        Piece::Bishop => spec_bishop_reaches(b, f, r, tf, tr),
        Piece::Rook => spec_rook_reaches(b, f, r, tf, tr),
        Piece::Queen => spec_bishop_reaches(b, f, r, tf, tr) || spec_rook_reaches(b, f, r, tf, tr),
        Piece::King => spec_king_reaches(f, r, tf, tr),
    }
}

/// Attack reachability, by piece: the same as movement except that a pawn
/// attacks only its forward diagonals.
pub open spec fn spec_attacks(
    b: Board,
    p: Piece,
    c: Color,
    f: int,
    r: int,
    tf: int,
    tr: int,
) -> bool {
    match p {
        Piece::Pawn => spec_pawn_attacks(c, f, r, tf, tr),
        Piece::Knight => spec_knight_reaches(f, r, tf, tr),
        Piece::Bishop => spec_bishop_reaches(b, f, r, tf, tr),
        Piece::Rook => spec_rook_reaches(b, f, r, tf, tr),
        Piece::Queen => spec_bishop_reaches(b, f, r, tf, tr) || spec_rook_reaches(b, f, r, tf, tr),
        Piece::King => spec_king_reaches(f, r, tf, tr),
    }
}

/// Relation between a walking coordinate and its target: after `n` more
/// steps of size `s` the walk reaches `t`.
pub open spec fn steps_short_of(cur: int, t: int, s: int, n: int) -> bool {
    if s == 1 {
        cur == t - n
    } else if s == -1 {
        cur == t + n
    } else {
        s == 0 && cur == t
    }
}

impl Board {
    /// Walks the line from (file, rank) toward `dest` one step at a time and
    /// reports whether every strictly intermediate square is empty.
    fn path_clear(&self, file: u8, rank: u8, dest: &Square, file_step: i8, rank_step: i8) -> (res:
        bool)
        requires
            file < 8,
            rank < 8,
            dest.in_range(),
            aligned(file as int, rank as int, dest.file as int, dest.rank as int),
            file_step == sgn(dest.file as int - file as int),
            rank_step == sgn(dest.rank as int - rank as int),
        ensures
            res == spec_path_clear(
                *self,
                file as int,
                rank as int,
                dest.file as int,
                dest.rank as int,
            ),
    {
        let df = dest.file as i8 - file as i8;
        let dr = dest.rank as i8 - rank as i8;
        let adf = if df < 0 {
            -df
        } else {
            df
        };
        let adr = if dr < 0 {
            -dr
        } else {
            dr
        };
        let steps = if adf > adr {
            adf
        } else {
            adr
        };
        let ghost total = steps as int;
        let mut cur_f = file as i8;
        let mut cur_r = rank as i8;
        let mut n = steps;
        while n > 1
            invariant
                1 <= n <= total,
                total == spec_steps(file as int, rank as int, dest.file as int, dest.rank as int),
                aligned(file as int, rank as int, dest.file as int, dest.rank as int),
                file_step == sgn(dest.file as int - file as int),
                rank_step == sgn(dest.rank as int - rank as int),
                file < 8,
                rank < 8,
                dest.in_range(),
                steps_short_of(cur_f as int, dest.file as int, file_step as int, n as int),
                steps_short_of(cur_r as int, dest.rank as int, rank_step as int, n as int),
                spec_path_clear(
                    *self,
                    file as int,
                    rank as int,
                    dest.file as int,
                    dest.rank as int,
                ) == spec_clear_between(
                    *self,
                    cur_f as int,
                    cur_r as int,
                    file_step as int,
                    rank_step as int,
                    n as int,
                ),
            decreases n,
        {
            let next_f = cur_f + file_step;
            let next_r = cur_r + rank_step;
            if self.get(next_f as u8, next_r as u8).is_some() {
                return false;
            }
            cur_f = next_f;
            cur_r = next_r;
            n = n - 1;
        }
        true
    }

    /// Knight reachability: the two-by-one L shape.
    fn knight_can_reach(&self, file: u8, rank: u8, dest: &Square) -> (res: bool)
        requires
            file < 8,
            rank < 8,
            dest.in_range(),
        ensures
            res == spec_knight_reaches(file as int, rank as int, dest.file as int, dest.rank as int),
    {
        let file_distance = abs_i8(dest.file as i8 - file as i8);
        let rank_distance = abs_i8(dest.rank as i8 - rank as i8);
        (file_distance == 2 && rank_distance == 1) || (file_distance == 1 && rank_distance == 2)
    }

    /// King reachability: one step in any direction.
    fn king_can_reach(&self, file: u8, rank: u8, dest: &Square) -> (res: bool)
        requires
            file < 8,
            rank < 8,
            dest.in_range(),
        ensures
            res == spec_king_reaches(file as int, rank as int, dest.file as int, dest.rank as int),
    {
        let file_distance = abs_i8(dest.file as i8 - file as i8);
        let rank_distance = abs_i8(dest.rank as i8 - rank as i8);
        file_distance <= 1 && rank_distance <= 1 && (file_distance + rank_distance) > 0
    }

    /// Bishop reachability: a clear nonempty diagonal.
    fn bishop_can_reach(&self, file: u8, rank: u8, dest: &Square) -> (res: bool)
        requires
            file < 8,
            rank < 8,
            dest.in_range(),
        ensures
            res == spec_bishop_reaches(
                *self,
                file as int,
                rank as int,
                dest.file as int,
                dest.rank as int,
            ),
    {
        let file_distance = dest.file as i8 - file as i8;
        let rank_distance = dest.rank as i8 - rank as i8;
        if abs_i8(file_distance) != abs_i8(rank_distance) || file_distance == 0 {
            return false;
        }
        self.path_clear(file, rank, dest, sgn_i8(file_distance), sgn_i8(rank_distance))
    }

    /// Rook reachability: a clear nonempty straight line.
    fn rook_can_reach(&self, file: u8, rank: u8, dest: &Square) -> (res: bool)
        requires
            file < 8,
            rank < 8,
            dest.in_range(),
        ensures
            res == spec_rook_reaches(
                *self,
                file as int,
                rank as int,
                dest.file as int,
                dest.rank as int,
            ),
    {
        let file_distance = dest.file as i8 - file as i8;
        let rank_distance = dest.rank as i8 - rank as i8;
        if (file_distance != 0 && rank_distance != 0) || (file_distance == 0 && rank_distance == 0) {
            return false;
        }
        self.path_clear(file, rank, dest, sgn_i8(file_distance), sgn_i8(rank_distance))
    }

    /// Pawn reachability for move resolution; the diagonal step does not
    /// inspect the destination square.
    fn pawn_can_reach(&self, color: Color, file: u8, rank: u8, dest: &Square) -> (res: bool)
        requires
            file < 8,
            rank < 8,
            dest.in_range(),
        ensures
            res == spec_pawn_reaches(
                *self,
                color,
                file as int,
                rank as int,
                dest.file as int,
                dest.rank as int,
            ),
    {
        let (direction, start_rank): (i8, u8) = match color {
            Color::White => (1, 1),
            Color::Black => (-1, 6),
        };
        let file_distance = dest.file as i8 - file as i8;
        let rank_distance = dest.rank as i8 - rank as i8;
        if file_distance == 0 && rank_distance == direction && self.get(
            dest.file,
            dest.rank,
        ).is_none() {
            return true;
        }
        if file_distance == 0 && rank_distance == 2 * direction && rank == start_rank {
            let mid_rank = (rank as i8 + direction) as u8;
            if self.get(file, mid_rank).is_none() && self.get(dest.file, dest.rank).is_none() {
                return true;
            }
        }
        if abs_i8(file_distance) == 1 && rank_distance == direction {
            return true;
        }
        false
    }

    /// Pawn reachability for legal-move generation; the diagonal step must
    /// capture an enemy piece.
    fn pawn_can_move_to(&self, color: Color, file: u8, rank: u8, dest: &Square) -> (res: bool)
        requires
            file < 8,
            rank < 8,
            dest.in_range(),
        ensures
            res == spec_pawn_can_move_to(
                *self,
                color,
                file as int,
                rank as int,
                dest.file as int,
                dest.rank as int,
            ),
    {
        let (direction, start_rank): (i8, u8) = match color {
            Color::White => (1, 1),
            Color::Black => (-1, 6),
        };
        let file_distance = dest.file as i8 - file as i8;
        let rank_distance = dest.rank as i8 - rank as i8;
        if file_distance == 0 && rank_distance == direction && self.get(
            dest.file,
            dest.rank,
        ).is_none() {
            return true;
        }
        if file_distance == 0 && rank_distance == 2 * direction && rank == start_rank {
            let mid_rank = (rank as i8 + direction) as u8;
            if self.get(file, mid_rank).is_none() && self.get(dest.file, dest.rank).is_none() {
                return true;
            }
        }
        if abs_i8(file_distance) == 1 && rank_distance == direction {
            if let Some((_, dest_color)) = self.get(dest.file, dest.rank) {
                return dest_color != color;
            }
        }
        false
    }

    /// Whether a pawn of `color` standing at (file, rank) attacks `target`.
    fn pawn_attacks_square(color: Color, file: u8, rank: u8, target: &Square) -> (res: bool)
        requires
            file < 8,
            rank < 8,
            target.in_range(),
        ensures
            res == spec_pawn_attacks(
                color,
                file as int,
                rank as int,
                target.file as int,
                target.rank as int,
            ),
    {
        let direction: i8 = match color {
            Color::White => 1,
            Color::Black => -1,
        };
        let file_distance = target.file as i8 - file as i8;
        let rank_distance = target.rank as i8 - rank as i8;
        abs_i8(file_distance) == 1 && rank_distance == direction
    }

    /// Movement reachability, dispatched by piece.
    fn can_reach(&self, piece: Piece, color: Color, file: u8, rank: u8, dest: &Square) -> (res:
        bool)
        requires
            file < 8,
            rank < 8,
            dest.in_range(),
        ensures
            res == spec_can_reach(
                *self,
                piece,
                color,
                file as int,
                rank as int,
                dest.file as int,
                dest.rank as int,
            ),
    {
        match piece {
            Piece::Pawn => self.pawn_can_reach(color, file, rank, dest),
            Piece::Knight => self.knight_can_reach(file, rank, dest),
            Piece::Bishop => self.bishop_can_reach(file, rank, dest),
            Piece::Rook => self.rook_can_reach(file, rank, dest),
            Piece::Queen => self.bishop_can_reach(file, rank, dest) || self.rook_can_reach(
                file,
                rank,
                dest,
            ),
            Piece::King => self.king_can_reach(file, rank, dest),
        }
    }

    /// Attack reachability, dispatched by piece.
    fn attacks_square(&self, piece: Piece, color: Color, file: u8, rank: u8, target: &Square) -> (
        res: bool)
        requires
            file < 8,
            rank < 8,
            target.in_range(),
        ensures
            res == spec_attacks(
                *self,
                piece,
                color,
                file as int,
                rank as int,
                target.file as int,
                target.rank as int,
            ),
    {
        match piece {
            Piece::Pawn => Self::pawn_attacks_square(color, file, rank, target),
            Piece::Knight => self.knight_can_reach(file, rank, target),
            Piece::Bishop => self.bishop_can_reach(file, rank, target),
            Piece::Rook => self.rook_can_reach(file, rank, target),
            Piece::Queen => self.bishop_can_reach(file, rank, target) || self.rook_can_reach(
                file,
                rank,
                target,
            ),
            Piece::King => self.king_can_reach(file, rank, target),
        }
    }
}

/// A piece of `c` stands at (f, r) and attacks (tf, tr).
pub open spec fn attacker_at(b: Board, c: Color, f: int, r: int, tf: int, tr: int) -> bool {
    b.at(f, r) matches Some(pc) && pc.1 == c && spec_attacks(b, pc.0, c, f, r, tf, tr)
}

/// Some piece of `c` attacks the square (tf, tr).
pub open spec fn spec_attacked_at(b: Board, c: Color, tf: int, tr: int) -> bool {
    exists|f: int, r: int| on_board(f, r) && #[trigger] attacker_at(b, c, f, r, tf, tr)
}

/// Rank-major scan position, the order in which the engine visits squares.
pub open spec fn scan_ord(f: int, r: int) -> int {
    r * 8 + f
}

/// A king of `c` stands at (f, r).
pub open spec fn is_king_at(b: Board, c: Color, f: int, r: int) -> bool {
    on_board(f, r) && b.at(f, r) == Some((Piece::King, c))
}

/// The first king of `c` in scan order.
pub open spec fn spec_first_king(b: Board, c: Color, f: int, r: int) -> bool {
    is_king_at(b, c, f, r) && forall|f2: int, r2: int|
        #[trigger] is_king_at(b, c, f2, r2) ==> scan_ord(f, r) <= scan_ord(f2, r2)
}

/// The king of `c` (the first in scan order, should several exist) stands
/// attacked by the opponent. A board without a king of `c` is never in check.
pub open spec fn spec_in_check(b: Board, c: Color) -> bool {
    exists|f: int, r: int|
        #[trigger] spec_first_king(b, c, f, r) && spec_attacked_at(b, c.spec_opponent(), f, r)
}

impl Board {
    /// Stores an optional piece on a square, as `apply_move` and the trial
    /// boards need.
    fn put(&mut self, file: u8, rank: u8, cell: Option<(Piece, Color)>)
        requires
            file < 8,
            rank < 8,
        ensures
            *final(self) == old(self).with_cell(file as int, rank as int, cell),
    {
        self.squares[(rank as usize) * 8 + (file as usize)] = cell;
        proof {
            assert(final(self).squares =~= old(self).with_cell(
                file as int, rank as int, cell).squares);
        }
    }

    /// Whether any piece of `attacker_color` attacks the `target` square.
    pub fn is_square_attacked_by(&self, target: Square, attacker_color: Color) -> (res: bool)
        requires
            target.in_range(),
        ensures
            res == spec_attacked_at(*self, attacker_color, target.file as int, target.rank as int),
    {
        let mut rank: u8 = 0;
        while rank < 8
            invariant
                rank <= 8,
                target.in_range(),
                forall|f: int, r: int|
                    on_board(f, r) && r < rank ==> !#[trigger] attacker_at(
                        *self,
                        attacker_color,
                        f,
                        r,
                        target.file as int,
                        target.rank as int,
                    ),
            decreases 8 - rank,
        {
            let mut file: u8 = 0;
            while file < 8
                invariant
                    file <= 8,
                    rank < 8,
                    target.in_range(),
                    forall|f: int, r: int|
                        on_board(f, r) && r < rank ==> !#[trigger] attacker_at(
                            *self,
                            attacker_color,
                            f,
                            r,
                            target.file as int,
                            target.rank as int,
                        ),
                    forall|f: int|
                        0 <= f < file ==> !#[trigger] attacker_at(
                            *self,
                            attacker_color,
                            f,
                            rank as int,
                            target.file as int,
                            target.rank as int,
                        ),
                decreases 8 - file,
            {
                if let Some((piece, color)) = self.get(file, rank) {
                    if color == attacker_color && self.attacks_square(
                        piece,
                        color,
                        file,
                        rank,
                        &target,
                    ) {
                        proof {
                            assert(attacker_at(
                                *self,
                                attacker_color,
                                file as int,
                                rank as int,
                                target.file as int,
                                target.rank as int,
                            ));
                        }
                        return true;
                    }
                }
                file = file + 1;
            }
            rank = rank + 1;
        }
        false
    }

    /// The square of the first king of `color` in scan order, or `None`
    /// when no such king exists.
    pub fn find_king(&self, color: Color) -> (res: Option<Square>)
        ensures
            match res {
                Some(k) => k.in_range() && spec_first_king(*self, color, k.file as int, k.rank as int),
                None => forall|f: int, r: int| !#[trigger] is_king_at(*self, color, f, r),
            },
    {
        let mut rank: u8 = 0;
        while rank < 8
            invariant
                rank <= 8,
                forall|f: int, r: int|
                    r < rank ==> !#[trigger] is_king_at(*self, color, f, r),
            decreases 8 - rank,
        {
            let mut file: u8 = 0;
            while file < 8
                invariant
                    file <= 8,
                    rank < 8,
                    forall|f: int, r: int|
                        r < rank ==> !#[trigger] is_king_at(*self, color, f, r),
                    forall|f: int, r: int|
                        r == rank && f < file ==> !#[trigger] is_king_at(*self, color, f, r),
                decreases 8 - file,
            {
                if let Some((Piece::King, piece_color)) = self.get(file, rank) {
                    if piece_color == color {
                        return Some(Square { file, rank });
                    }
                }
                file = file + 1;
            }
            rank = rank + 1;
        }
        None
    }

    /// Whether the king of `color` is in check.
    pub fn is_in_check(&self, color: Color) -> (res: bool)
        ensures
            res == spec_in_check(*self, color),
    {
        match self.find_king(color) {
            Some(king_square) => {
                let attacked = self.is_square_attacked_by(king_square, color.opponent());
                proof {
                    let kf = king_square.file as int;
                    let kr = king_square.rank as int;
                    if attacked {
                        assert(spec_first_king(*self, color, kf, kr));
                    } else {
                        if spec_in_check(*self, color) {
                            let (f, r) = choose|f: int, r: int|
                                #[trigger] spec_first_king(*self, color, f, r)
                                    && spec_attacked_at(*self, color.spec_opponent(), f, r);
                            assert(is_king_at(*self, color, f, r));
                            assert(scan_ord(kf, kr) <= scan_ord(f, r));
                            assert(scan_ord(f, r) <= scan_ord(kf, kr));
                            assert(f == kf && r == kr);
                        }
                    }
                }
                attacked
            },
            None => false,
        }
    }
}

/// Movement reachability as the legal-move search sees it: identical to
/// `spec_can_reach` except that a pawn's diagonal step must capture.
pub open spec fn spec_movegen_reach(
    b: Board,
    p: Piece,
    c: Color,
    f: int,
    r: int,
    tf: int,
    tr: int,
) -> bool {
    match p {
        Piece::Pawn => spec_pawn_can_move_to(b, c, f, r, tf, tr),
        Piece::Knight => spec_knight_reaches(f, r, tf, tr),
        Piece::Bishop => spec_bishop_reaches(b, f, r, tf, tr),
        Piece::Rook => spec_rook_reaches(b, f, r, tf, tr),
        Piece::Queen => spec_bishop_reaches(b, f, r, tf, tr) || spec_rook_reaches(b, f, r, tf, tr),
        Piece::King => spec_king_reaches(f, r, tf, tr),
    }
}

/// A destination the piece could move to: not one of its own pieces, and
/// reachable under the legal-move variant of the movement rules.
pub open spec fn spec_valid_destination(
    b: Board,
    p: Piece,
    c: Color,
    f: int,
    r: int,
    tf: int,
    tr: int,
) -> bool {
    !(b.at(tf, tr) matches Some(pc) && pc.1 == c) && spec_movegen_reach(b, p, c, f, r, tf, tr)
}

/// The board after trying the move (f, r) -> (tf, tr): origin cleared, its
/// old contents written over the destination.
pub open spec fn spec_trial(b: Board, f: int, r: int, tf: int, tr: int) -> Board {
    b.with_cell(f, r, None).with_cell(tf, tr, b.at(f, r))
}

/// Trying the move would not leave the mover's own king in check.
pub open spec fn spec_leaves_king_safe(b: Board, c: Color, f: int, r: int, tf: int, tr: int) -> bool {
    !spec_in_check(spec_trial(b, f, r, tf, tr), c)
}

/// A fully legal move for the piece at (f, r): valid destination and the
/// king stays safe.
pub open spec fn spec_legal_move(
    b: Board,
    p: Piece,
    c: Color,
    f: int,
    r: int,
    tf: int,
    tr: int,
) -> bool {
    spec_valid_destination(b, p, c, f, r, tf, tr) && spec_leaves_king_safe(b, c, f, r, tf, tr)
}

/// The piece at (f, r) has some legal move.
pub open spec fn spec_piece_has_legal_move(b: Board, p: Piece, c: Color, f: int, r: int) -> bool {
    exists|tf: int, tr: int|
        on_board(tf, tr) && #[trigger] spec_legal_move(b, p, c, f, r, tf, tr)
}

/// A piece of `c` stands at (f, r) and has some legal move.
pub open spec fn mover_can_move(b: Board, c: Color, f: int, r: int) -> bool {
    b.at(f, r) matches Some(pc) && pc.1 == c && spec_piece_has_legal_move(b, pc.0, c, f, r)
}

/// Some piece of `c` has a legal move.
pub open spec fn spec_has_any_legal_move(b: Board, c: Color) -> bool {
    exists|f: int, r: int| on_board(f, r) && #[trigger] mover_can_move(b, c, f, r)
}

/// Checkmate: in check with no legal move to escape.
pub open spec fn spec_checkmate(b: Board, c: Color) -> bool {
    spec_in_check(b, c) && !spec_has_any_legal_move(b, c)
}

impl Board {
    /// Whether `dest` is a square the piece could move to, ignoring king
    /// safety: not occupied by its own side, and reachable under the
    /// legal-move rules.
    fn is_valid_destination(&self, piece: Piece, color: Color, file: u8, rank: u8, dest: &Square)
        -> (res: bool)
        requires
            file < 8,
            rank < 8,
            dest.in_range(),
        ensures
            res == spec_valid_destination(
                *self,
                piece,
                color,
                file as int,
                rank as int,
                dest.file as int,
                dest.rank as int,
            ),
    {
        if let Some((_, dest_color)) = self.get(dest.file, dest.rank) {
            if dest_color == color {
                return false;
            }
        }
        match piece {
            Piece::Pawn => self.pawn_can_move_to(color, file, rank, dest),
            Piece::Knight => self.knight_can_reach(file, rank, dest),
            Piece::Bishop => self.bishop_can_reach(file, rank, dest),
            Piece::Rook => self.rook_can_reach(file, rank, dest),
            Piece::Queen => self.bishop_can_reach(file, rank, dest) || self.rook_can_reach(
                file,
                rank,
                dest,
            ),
            Piece::King => self.king_can_reach(file, rank, dest),
        }
    }

    /// Tries the move on a copy of the board and reports whether the
    /// mover's own king is safe afterwards.
    fn move_leaves_king_safe(&self, color: Color, file: u8, rank: u8, dest: &Square) -> (res: bool)
        requires
            file < 8,
            rank < 8,
            dest.in_range(),
        ensures
            res == spec_leaves_king_safe(
                *self,
                color,
                file as int,
                rank as int,
                dest.file as int,
                dest.rank as int,
            ),
    {
        let mut trial = *self;
        let piece_on_origin = trial.get(file, rank);
        trial.put(file, rank, None);
        trial.put(dest.file, dest.rank, piece_on_origin);
        !trial.is_in_check(color)
    }

    /// Whether the piece at (file, rank) has any legal move at all.
    fn piece_has_legal_move(&self, piece: Piece, color: Color, file: u8, rank: u8) -> (res: bool)
        requires
            file < 8,
            rank < 8,
        ensures
            res == spec_piece_has_legal_move(*self, piece, color, file as int, rank as int),
    {
        let mut dest_rank: u8 = 0;
        while dest_rank < 8
            invariant
                dest_rank <= 8,
                file < 8,
                rank < 8,
                forall|tf: int, tr: int|
                    on_board(tf, tr) && tr < dest_rank ==> !#[trigger] spec_legal_move(
                        *self,
                        piece,
                        color,
                        file as int,
                        rank as int,
                        tf,
                        tr,
                    ),
            decreases 8 - dest_rank,
        {
            let mut dest_file: u8 = 0;
            while dest_file < 8
                invariant
                    dest_file <= 8,
                    dest_rank < 8,
                    file < 8,
                    rank < 8,
                    forall|tf: int, tr: int|
                        on_board(tf, tr) && tr < dest_rank ==> !#[trigger] spec_legal_move(
                            *self,
                            piece,
                            color,
                            file as int,
                            rank as int,
                            tf,
                            tr,
                        ),
                    forall|tf: int|
                        0 <= tf < dest_file ==> !#[trigger] spec_legal_move(
                            *self,
                            piece,
                            color,
                            file as int,
                            rank as int,
                            tf,
                            dest_rank as int,
                        ),
                decreases 8 - dest_file,
            {
                let dest = Square { file: dest_file, rank: dest_rank };
                if self.is_valid_destination(piece, color, file, rank, &dest)
                    && self.move_leaves_king_safe(color, file, rank, &dest) {
                    proof {
                        assert(spec_legal_move(
                            *self,
                            piece,
                            color,
                            file as int,
                            rank as int,
                            dest_file as int,
                            dest_rank as int,
                        ));
                    }
                    return true;
                }
                dest_file = dest_file + 1;
            }
            dest_rank = dest_rank + 1;
        }
        false
    }

    /// Whether any piece of `color` has a legal move.
    fn has_any_legal_move(&self, color: Color) -> (res: bool)
        ensures
            res == spec_has_any_legal_move(*self, color),
    {
        let mut rank: u8 = 0;
        while rank < 8
            invariant
                rank <= 8,
                forall|f: int, r: int|
                    on_board(f, r) && r < rank ==> !#[trigger] mover_can_move(*self, color, f, r),
            decreases 8 - rank,
        {
            let mut file: u8 = 0;
            while file < 8
                invariant
                    file <= 8,
                    rank < 8,
                    forall|f: int, r: int|
                        on_board(f, r) && r < rank ==> !#[trigger] mover_can_move(
                            *self,
                            color,
                            f,
                            r,
                        ),
                    forall|f: int|
                        0 <= f < file ==> !#[trigger] mover_can_move(
                            *self,
                            color,
                            f,
                            rank as int,
                        ),
                decreases 8 - file,
            {
                if let Some((piece, piece_color)) = self.get(file, rank) {
                    if piece_color == color && self.piece_has_legal_move(piece, color, file, rank) {
                        proof {
                            assert(mover_can_move(*self, color, file as int, rank as int));
                        }
                        return true;
                    }
                }
                file = file + 1;
            }
            rank = rank + 1;
        }
        false
    }

    /// Whether the king of `color` is checkmated: in check with no legal
    /// move to escape.
    pub fn is_checkmate(&self, color: Color) -> (res: bool)
        ensures
            res == spec_checkmate(*self, color),
    {
        self.is_in_check(color) && !self.has_any_legal_move(color)
    }
}

/// The cell at (f, r) after the king (or single-piece) part of the move:
/// origin cleared, destination overwritten with the moved piece, promoted
/// if the move says so.
pub open spec fn spec_after_king_move(b: Board, m: ParsedMove, f: int, r: int) -> Option<
    (Piece, Color),
> {
    let moved = b.at(m.origin.file as int, m.origin.rank as int);
    if f == m.dest.file as int && r == m.dest.rank as int {
        match m.promotion {
            Some(p) => match moved {
                Some(pc) => Some((p, pc.1)),
                None => None,
            },
            None => moved,
        }
    } else if f == m.origin.file as int && r == m.origin.rank as int {
        None
    } else {
        b.at(f, r)
    }
}

/// The cell at (f, r) after the whole move, castling rook relocation
/// included. The rook moves after the king, picked up from wherever the
/// king move left it.
pub open spec fn spec_after_move(b: Board, m: ParsedMove, f: int, r: int) -> Option<
    (Piece, Color),
> {
    match m.castling_rook {
        Some((rook_from, rook_to)) => {
            if f == rook_to.file as int && r == rook_to.rank as int {
                spec_after_king_move(b, m, rook_from.file as int, rook_from.rank as int)
            } else if f == rook_from.file as int && r == rook_from.rank as int {
                None
            } else {
                spec_after_king_move(b, m, f, r)
            }
        },
        None => spec_after_king_move(b, m, f, r),
    }
}

/// The candidate test used by origin search: the right piece of the right
/// color stands at (f, r), it obeys the disambiguation hints, and it can
/// reach the destination.
pub open spec fn origin_matches(
    b: Board,
    p: Piece,
    c: Color,
    file_hint: Option<u8>,
    rank_hint: Option<u8>,
    dest: Square,
    f: int,
    r: int,
) -> bool {
    b.at(f, r) == Some((p, c)) && (file_hint matches Some(h) ==> f == h as int) && (
    rank_hint matches Some(h) ==> r == h as int) && spec_can_reach(
        b,
        p,
        c,
        f,
        r,
        dest.file as int,
        dest.rank as int,
    )
}

impl Board {
    /// Applies a resolved move: moves (and possibly promotes) the piece at
    /// the origin, silently discarding whatever stood on the destination,
    /// then relocates the castling rook if there is one. No legality check
    /// happens here; the move is trusted to come from `resolve_move`.
    pub fn apply_move(&mut self, parsed: &ParsedMove)
        requires
            parsed.origin.in_range(),
            parsed.dest.in_range(),
            parsed.castling_rook matches Some(rooks) ==> rooks.0.in_range() && rooks.1.in_range(),
            parsed.promotion is Some ==> old(self).at(
                parsed.origin.file as int,
                parsed.origin.rank as int,
            ) is Some,
        ensures
            forall|f: int, r: int|
                on_board(f, r) ==> final(self).at(f, r) == spec_after_move(
                    *old(self),
                    *parsed,
                    f,
                    r,
                ),
    {
        let piece_on_origin = self.get(parsed.origin.file, parsed.origin.rank);
        self.put(parsed.origin.file, parsed.origin.rank, None);
        if let Some(promoted_piece) = parsed.promotion {
            let color = piece_on_origin.unwrap().1;
            self.set(parsed.dest.file, parsed.dest.rank, (promoted_piece, color));
        } else {
            self.put(parsed.dest.file, parsed.dest.rank, piece_on_origin);
        }
        if let Some((rook_from, rook_to)) = parsed.castling_rook {
            let rook = self.get(rook_from.file, rook_from.rank);
            self.put(rook_from.file, rook_from.rank, None);
            self.put(rook_to.file, rook_to.rank, rook);
        }
    }

    /// The first square in scan order holding a piece of the requested type
    /// and color that obeys the hints and can reach `dest`, or `None` when
    /// no square qualifies.
    pub fn find_origin(
        &self,
        piece: Piece,
        dest: &Square,
        color: Color,
        file_hint: Option<u8>,
        rank_hint: Option<u8>,
    ) -> (res: Option<Square>)
        requires
            dest.in_range(),
        ensures
            match res {
                Some(sq) => sq.in_range() && origin_matches(
                    *self,
                    piece,
                    color,
                    file_hint,
                    rank_hint,
                    *dest,
                    sq.file as int,
                    sq.rank as int,
                ) && forall|f: int, r: int|
                    on_board(f, r) && scan_ord(f, r) < scan_ord(sq.file as int, sq.rank as int)
                        ==> !#[trigger] origin_matches(
                        *self,
                        piece,
                        color,
                        file_hint,
                        rank_hint,
                        *dest,
                        f,
                        r,
                    ),
                None => forall|f: int, r: int|
                    on_board(f, r) ==> !#[trigger] origin_matches(
                        *self,
                        piece,
                        color,
                        file_hint,
                        rank_hint,
                        *dest,
                        f,
                        r,
                    ),
            },
    {
        let mut rank: u8 = 0;
        while rank < 8
            invariant
                rank <= 8,
                dest.in_range(),
                forall|f: int, r: int|
                    on_board(f, r) && r < rank ==> !#[trigger] origin_matches(
                        *self,
                        piece,
                        color,
                        file_hint,
                        rank_hint,
                        *dest,
                        f,
                        r,
                    ),
            decreases 8 - rank,
        {
            let mut file: u8 = 0;
            while file < 8
                invariant
                    file <= 8,
                    rank < 8,
                    dest.in_range(),
                    forall|f: int, r: int|
                        on_board(f, r) && r < rank ==> !#[trigger] origin_matches(
                            *self,
                            piece,
                            color,
                            file_hint,
                            rank_hint,
                            *dest,
                            f,
                            r,
                        ),
                    forall|f: int|
                        0 <= f < file ==> !#[trigger] origin_matches(
                            *self,
                            piece,
                            color,
                            file_hint,
                            rank_hint,
                            *dest,
                            f,
                            rank as int,
                        ),
                decreases 8 - file,
            {
                let mut hint_ok = true;
                if let Some(found) = self.get(file, rank) {
                    let (found_piece, found_color) = found;
                    if found_piece == piece && found_color == color {
                        if let Some(hint_file) = file_hint {
                            if file != hint_file {
                                hint_ok = false;
                            }
                        }
                        if let Some(hint_rank) = rank_hint {
                            if rank != hint_rank {
                                hint_ok = false;
                            }
                        }
                        if hint_ok && self.can_reach(piece, color, file, rank, dest) {
                            return Some(Square { file, rank });
                        }
                    }
                }
                file = file + 1;
            }
            rank = rank + 1;
        }
        None
    }
}

impl Board {
    /// Resolves one notation token into a fully specified move. Castling
    /// notation resolves from the text and color alone; any other move gets
    /// its origin from the first square in scan order holding a matching
    /// piece that obeys the notation's hints and can reach the destination.
    /// `None` means no such origin exists: a missing piece, a blocked path,
    /// and an unmatched hint all look alike here.
    pub fn resolve_move(
        &self,
        chess_move: &crate::chess::Move,
        notation: &str,
        color: Color,
    ) -> (res: Option<ParsedMove>)
        requires
            chess_move.dest.in_range(),
        ensures
            ({
                let hints = crate::hint::spec_extract_hints(
                    crate::hint::spec_strip(notation@),
                    chess_move.piece,
                );
                if crate::hint::spec_is_castling(notation@) {
                    res == Some(crate::hint::spec_castled_move(*chess_move, color))
                } else {
                    match res {
                        Some(pm) => pm.dest == chess_move.dest && pm.promotion
                            == chess_move.promotion && pm.castling_rook is None
                            && pm.origin.in_range() && origin_matches(
                            *self,
                            chess_move.piece,
                            color,
                            hints.0,
                            hints.1,
                            chess_move.dest,
                            pm.origin.file as int,
                            pm.origin.rank as int,
                        ) && forall|f: int, r: int|
                            on_board(f, r) && scan_ord(f, r) < scan_ord(
                                pm.origin.file as int,
                                pm.origin.rank as int,
                            ) ==> !#[trigger] origin_matches(
                                *self,
                                chess_move.piece,
                                color,
                                hints.0,
                                hints.1,
                                chess_move.dest,
                                f,
                                r,
                            ),
                        None => forall|f: int, r: int|
                            on_board(f, r) ==> !#[trigger] origin_matches(
                                *self,
                                chess_move.piece,
                                color,
                                hints.0,
                                hints.1,
                                chess_move.dest,
                                f,
                                r,
                            ),
                    }
                }
            }),
    {
        if crate::hint::is_castling(notation) {
            return crate::hint::resolve_castling(chess_move, color);
        }
        let clean = crate::hint::strip_annotations(notation);
        let (file_hint, rank_hint) = crate::hint::extract_hints(clean.as_str(), chess_move.piece);
        match self.find_origin(chess_move.piece, &chess_move.dest, color, file_hint, rank_hint) {
            Some(origin) => Some(
                ParsedMove {
                    origin,
                    dest: chess_move.dest,
                    promotion: chess_move.promotion,
                    castling_rook: None,
                },
            ),
            None => None,
        }
    }
}

/// Absolute value of a small signed offset.
fn abs_i8(x: i8) -> (r: i8)
    requires
        -64 <= x <= 64,
    ensures
        r == mag(x as int),
{
    if x < 0 {
        -x
    } else {
        x
    }
}

/// Sign of a small signed offset.
fn sgn_i8(x: i8) -> (r: i8)
    requires
        -64 <= x <= 64,
    ensures
        r == sgn(x as int),
{
    if x > 0 {
        1
    } else if x < 0 {
        -1
    } else {
        0
    }
}

/// A pawn attacks exactly its two forward diagonals: the squares one file to
/// either side and one step ahead, and never the square straight ahead.
pub proof fn lemma_pawn_attack_asymmetry(c: Color, f: int, r: int)
    ensures
        spec_pawn_attacks(c, f, r, f - 1, r + pawn_dir(c)),
        spec_pawn_attacks(c, f, r, f + 1, r + pawn_dir(c)),
        !spec_pawn_attacks(c, f, r, f, r + pawn_dir(c)),
{
}

/// A board holding a pawn of `c` sees both its forward diagonal squares as
/// attacked by `c`, whatever else stands anywhere.
pub proof fn lemma_pawn_attacks_on_board(b: Board, c: Color, f: int, r: int, tf: int)
    requires
        on_board(f, r),
        on_board(tf, r + pawn_dir(c)),
        b.at(f, r) == Some((Piece::Pawn, c)),
        mag(tf - f) == 1,
    ensures
        spec_attacked_at(b, c, tf, r + pawn_dir(c)),
{
    assert(attacker_at(b, c, f, r, tf, r + pawn_dir(c)));
}

/// Every cell strictly between the ends of a clear path is empty.
pub proof fn lemma_clear_between_cell(
    b: Board,
    f: int,
    r: int,
    sf: int,
    sr: int,
    steps: int,
    j: int,
)
    requires
        1 <= j < steps,
        spec_clear_between(b, f, r, sf, sr, steps),
    ensures
        b.at(f + j * sf, r + j * sr) is None,
    decreases j,
{
    if j == 1 {
    } else {
        lemma_clear_between_cell(b, f + sf, r + sr, sf, sr, steps - 1, j - 1);
        assert((j - 1) * sf + sf == j * sf) by (nonlinear_arith);
        assert((j - 1) * sr + sr == j * sr) by (nonlinear_arith);
    }
}

/// A blocked slider: a rook on the corner square (file 0, rank 0) does not
/// attack the far end of its file while any piece stands strictly between.
pub proof fn lemma_blocked_slider(b: Board, blocker_rank: int)
    requires
        1 <= blocker_rank < 7,
        b.at(0, blocker_rank) is Some,
    ensures
        !spec_rook_reaches(b, 0, 0, 0, 7),
{
    if spec_path_clear(b, 0, 0, 0, 7) {
        lemma_clear_between_cell(b, 0, 0, 0, 1, 7, blocker_rank);
    }
}

/// A move that would leave the mover's own king in check is never a legal
/// move: the legal-move search excludes such destinations structurally.
pub proof fn lemma_no_self_check(b: Board, p: Piece, c: Color, f: int, r: int, tf: int, tr: int)
    requires
        spec_in_check(spec_trial(b, f, r, tf, tr), c),
    ensures
        !spec_legal_move(b, p, c, f, r, tf, tr),
{
}

/// Checkmate implies check: a side with no legal move is only mated when
/// its king already stands attacked.
pub proof fn lemma_checkmate_implies_check(b: Board, c: Color)
    ensures
        spec_checkmate(b, c) ==> spec_in_check(b, c),
{
}

/// A board without a king of `c` is never in check, and so never mated.
pub proof fn lemma_no_king_no_check(b: Board, c: Color)
    requires
        forall|f: int, r: int| !#[trigger] is_king_at(b, c, f, r),
    ensures
        !spec_in_check(b, c),
        !spec_checkmate(b, c),
{
}

/// What `with_cell` does to every cell of the board.
pub broadcast proof fn lemma_with_cell(b: Board, file: int, rank: int, v: Option<(Piece, Color)>, f: int, r: int)
    requires
        on_board(file, rank),
        on_board(f, r),
    ensures
        #[trigger] b.with_cell(file, rank, v).at(f, r)
            == if f == file && r == rank { v } else { b.at(f, r) },
{
    assert(b.with_cell(file, rank, v).squares@ == b.squares@.update(rank * 8 + file, v));
}

} // verus!
