use chesswav::board::Board;
use chesswav::chess::{Color, Move, Piece, Square};

/// Check without checkmate: the converse of "checkmate implies check" fails.
#[test]
fn check_does_not_imply_checkmate() {
    let mut board = Board::empty();
    board.set(4, 7, (Piece::King, Color::Black)); // Ke8
    board.set(4, 5, (Piece::Queen, Color::White)); // Qe6 checks along the file
    assert!(board.is_in_check(Color::Black));
    assert!(!board.is_checkmate(Color::Black));
}

/// Move resolution lets a pawn step diagonally onto an empty square, while
/// the legal-move search demands a capture target there.
#[test]
fn pawn_diagonal_resolves_without_target() {
    let mut board = Board::empty();
    board.set(4, 3, (Piece::Pawn, Color::White)); // e4, d5 stays empty
    let chess_move = Move::parse("exd5", 0).unwrap();
    let parsed = board.resolve_move(&chess_move, "exd5", Color::White).unwrap();
    assert_eq!(parsed.origin, Square { file: 4, rank: 3 });
    assert_eq!(parsed.dest, Square { file: 3, rank: 4 });
}

/// A capture silently replaces whatever stood on the destination.
#[test]
fn apply_move_discards_captured_piece() {
    let mut board = Board::empty();
    board.set(4, 3, (Piece::Queen, Color::White));
    board.set(4, 6, (Piece::Pawn, Color::Black));
    let chess_move = Move::parse("Qxe7", 0).unwrap();
    let parsed = board.resolve_move(&chess_move, "Qxe7", Color::White).unwrap();
    board.apply_move(&parsed);
    assert_eq!(board.get(4, 6), Some((Piece::Queen, Color::White)));
    assert_eq!(board.get(4, 3), None);
}

/// Tokens too short or malformed to name a move are rejected.
#[test]
fn parse_rejects_malformed_tokens() {
    assert!(Move::parse("", 0).is_none());
    assert!(Move::parse("x", 0).is_none());
    assert!(Move::parse("N", 0).is_none());
    assert!(chesswav::notation::parse("").is_none());
    assert!(chesswav::notation::parse("N4").is_none());
}

/// The first matching piece in scan order wins when no hint disambiguates.
#[test]
fn origin_search_prefers_lowest_rank_then_file() {
    let mut board = Board::empty();
    board.set(0, 3, (Piece::Rook, Color::White)); // a4
    board.set(7, 3, (Piece::Rook, Color::White)); // h4
    board.set(3, 0, (Piece::Rook, Color::White)); // d1: lower rank, scanned first
    let dest = Square { file: 3, rank: 3 }; // d4
    let origin = board.find_origin(Piece::Rook, &dest, Color::White, None, None);
    assert_eq!(origin, Some(Square { file: 3, rank: 0 }));
}

/// Scholar's mate replayed step by step: no earlier position is mate.
#[test]
fn scholars_mate_intermediate_states() {
    let notations = ["e4", "e5", "Bc4", "Nc6", "Qh5", "Nf6", "Qxf7#"];
    let mut board = Board::new();
    for (index, notation) in notations.iter().enumerate() {
        let chess_move = Move::parse(notation, index).unwrap();
        let color = if index % 2 == 0 { Color::White } else { Color::Black };
        let resolved = board.resolve_move(&chess_move, notation, color).unwrap();
        board.apply_move(&resolved);
        if index < notations.len() - 1 {
            assert!(!board.is_checkmate(Color::White));
            assert!(!board.is_checkmate(Color::Black));
        }
    }
    assert!(board.is_in_check(Color::Black));
    assert!(board.is_checkmate(Color::Black));
}

/// Kings never castle through the engine's legal-move search, but applying a
/// queenside castle relocates both king and rook.
#[test]
fn apply_castling_queenside_black() {
    let mut board = Board::new();
    board.clear_square(1, 7);
    board.clear_square(2, 7);
    board.clear_square(3, 7);
    let chess_move = Move::parse("O-O-O", 1).unwrap();
    let parsed = board.resolve_move(&chess_move, "O-O-O", Color::Black).unwrap();
    board.apply_move(&parsed);
    assert_eq!(board.get(2, 7), Some((Piece::King, Color::Black)));
    assert_eq!(board.get(3, 7), Some((Piece::Rook, Color::Black)));
    assert_eq!(board.get(4, 7), None);
    assert_eq!(board.get(0, 7), None);
}
