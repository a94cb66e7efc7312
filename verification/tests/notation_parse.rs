use chesswav::chess::{Capture, Move, Piece, Square, Threat};
use chesswav::notation;
use chesswav::PieceKind;

#[test]
fn move_pawn_e4() {
    let m = Move::parse("e4", 0).unwrap();
    assert_eq!(m.piece, Piece::Pawn);
    assert_eq!(m.dest, Square { file: 4, rank: 3 });
    assert_eq!(m.threat, Threat::Quiet);
    assert_eq!(m.capture, Capture::Quiet);
    assert_eq!(m.promotion, None);
}

#[test]
fn move_knight() {
    let m = Move::parse("Nf3", 0).unwrap();
    assert_eq!(m.piece, Piece::Knight);
    assert_eq!(m.dest, Square { file: 5, rank: 2 });
    assert_eq!(m.threat, Threat::Quiet);
    assert_eq!(m.capture, Capture::Quiet);
    assert_eq!(m.promotion, None);
}

#[test]
fn move_capture() {
    let m = Move::parse("Bxc6", 0).unwrap();
    assert_eq!(m.piece, Piece::Bishop);
    assert_eq!(m.dest, Square { file: 2, rank: 5 });
    assert_eq!(m.threat, Threat::Quiet);
    assert_eq!(m.capture, Capture::Taken);
    assert_eq!(m.promotion, None);
}

#[test]
fn move_bishop() {
    let m = Move::parse("Bb5", 0).unwrap();
    assert_eq!(m.piece, Piece::Bishop);
    assert_eq!(m.dest, Square { file: 1, rank: 4 });
    assert_eq!(m.threat, Threat::Quiet);
    assert_eq!(m.capture, Capture::Quiet);
    assert_eq!(m.promotion, None);
}

#[test]
fn move_queen() {
    let m = Move::parse("Qh5+", 0).unwrap();
    assert_eq!(m.piece, Piece::Queen);
    assert_eq!(m.dest, Square { file: 7, rank: 4 });
    assert_eq!(m.threat, Threat::Check);
    assert_eq!(m.capture, Capture::Quiet);
    assert_eq!(m.promotion, None);
}

#[test]
fn move_king() {
    let m = Move::parse("Kf1", 0).unwrap();
    assert_eq!(m.piece, Piece::King);
    assert_eq!(m.dest, Square { file: 5, rank: 0 });
    assert_eq!(m.threat, Threat::Quiet);
    assert_eq!(m.capture, Capture::Quiet);
    assert_eq!(m.promotion, None);
}

#[test]
fn castling_kingside_white() {
    let m = Move::parse("O-O", 0).unwrap();
    assert_eq!(m.piece, Piece::King);
    assert_eq!(m.dest, Square { file: 6, rank: 0 });
    assert_eq!(m.threat, Threat::Quiet);
    assert_eq!(m.capture, Capture::Quiet);
    assert_eq!(m.promotion, None);
}

#[test]
fn castling_kingside_black() {
    let m = Move::parse("O-O", 1).unwrap();
    assert_eq!(m.piece, Piece::King);
    assert_eq!(m.dest, Square { file: 6, rank: 7 });
    assert_eq!(m.threat, Threat::Quiet);
    assert_eq!(m.capture, Capture::Quiet);
    assert_eq!(m.promotion, None);
}

#[test]
fn castling_queenside_white() {
    let m = Move::parse("O-O-O", 0).unwrap();
    assert_eq!(m.piece, Piece::King);
    assert_eq!(m.dest, Square { file: 2, rank: 0 });
    assert_eq!(m.threat, Threat::Quiet);
    assert_eq!(m.capture, Capture::Quiet);
    assert_eq!(m.promotion, None);
}

#[test]
fn castling_queenside_black() {
    let m = Move::parse("O-O-O", 1).unwrap();
    assert_eq!(m.piece, Piece::King);
    assert_eq!(m.dest, Square { file: 2, rank: 7 });
    assert_eq!(m.threat, Threat::Quiet);
    assert_eq!(m.capture, Capture::Quiet);
    assert_eq!(m.promotion, None);
}

#[test]
fn move_rook() {
    let m = Move::parse("Rad1", 0).unwrap();
    assert_eq!(m.piece, Piece::Rook);
    assert_eq!(m.dest, Square { file: 3, rank: 0 });
    assert_eq!(m.threat, Threat::Quiet);
    assert_eq!(m.capture, Capture::Quiet);
    assert_eq!(m.promotion, None);
}

#[test]
fn move_invalid_file() {
    assert!(Move::parse("Ni4", 0).is_none());
}

#[test]
fn move_invalid_rank() {
    assert!(Move::parse("Ne9", 0).is_none());
    assert!(Move::parse("Ne0", 0).is_none());
}

#[test]
fn check_detected() {
    let m = Move::parse("Nf3+", 0).unwrap();
    assert_eq!(m.threat, Threat::Check);
}

#[test]
fn no_check_by_default() {
    let m = Move::parse("Nf3", 0).unwrap();
    assert_eq!(m.threat, Threat::Quiet);
}

#[test]
fn check_on_pawn_move() {
    let m = Move::parse("e4+", 0).unwrap();
    assert_eq!(m.piece, Piece::Pawn);
    assert_eq!(m.threat, Threat::Check);
}

#[test]
fn capture_detected() {
    let m = Move::parse("Nxe5", 0).unwrap();
    assert_eq!(m.capture, Capture::Taken);
}

#[test]
fn no_capture_by_default() {
    let m = Move::parse("Ne5", 0).unwrap();
    assert_eq!(m.capture, Capture::Quiet);
}

#[test]
fn capture_with_check() {
    let m = Move::parse("Bxf7+", 0).unwrap();
    assert_eq!(m.piece, Piece::Bishop);
    assert_eq!(m.threat, Threat::Check);
    assert_eq!(m.capture, Capture::Taken);
}

#[test]
fn checkmate_detected() {
    let m = Move::parse("Qf7#", 0).unwrap();
    assert_eq!(m.piece, Piece::Queen);
    assert_eq!(m.dest, Square { file: 5, rank: 6 });
    assert_eq!(m.threat, Threat::Checkmate);
}

#[test]
fn promotion_detected() {
    let m = Move::parse("e8=Q", 0).unwrap();
    assert_eq!(m.piece, Piece::Pawn);
    assert_eq!(m.dest, Square { file: 4, rank: 7 });
    assert_eq!(m.promotion, Some(Piece::Queen));
}

#[test]
fn promotion_with_capture() {
    let m = Move::parse("exd8=Q", 0).unwrap();
    assert_eq!(m.piece, Piece::Pawn);
    assert_eq!(m.dest, Square { file: 3, rank: 7 });
    assert_eq!(m.capture, Capture::Taken);
    assert_eq!(m.promotion, Some(Piece::Queen));
}

#[test]
fn no_promotion_by_default() {
    let m = Move::parse("e4", 0).unwrap();
    assert_eq!(m.promotion, None);
}

#[test]
fn promotion_to_knight() {
    let m = Move::parse("e8=N", 0).unwrap();
    assert_eq!(m.promotion, Some(Piece::Knight));
}

#[test]
fn promotion_to_rook() {
    let m = Move::parse("a1=R", 1).unwrap();
    assert_eq!(m.promotion, Some(Piece::Rook));
}

#[test]
fn pawn_move_e4() {
    let m = notation::parse("e4").unwrap();
    assert_eq!(m.piece, PieceKind::Pawn);
    assert_eq!(m.dest, Square::parse("e4").unwrap());
    assert!(!m.capture);
}

#[test]
fn pawn_move_d5() {
    let m = notation::parse("d5").unwrap();
    assert_eq!(m.piece, PieceKind::Pawn);
    assert_eq!(m.dest, Square::parse("d5").unwrap());
    assert!(!m.capture);
}

#[test]
fn knight_move() {
    let m = notation::parse("Nf3").unwrap();
    assert_eq!(m.piece, PieceKind::Knight);
    assert_eq!(m.dest, Square::parse("f3").unwrap());
    assert!(!m.capture);
}

#[test]
fn bishop_move() {
    let m = notation::parse("Bb5").unwrap();
    assert_eq!(m.piece, PieceKind::Bishop);
    assert_eq!(m.dest, Square::parse("b5").unwrap());
}

#[test]
fn queen_move() {
    let m = notation::parse("Qh4").unwrap();
    assert_eq!(m.piece, PieceKind::Queen);
    assert_eq!(m.dest, Square::parse("h4").unwrap());
}

#[test]
fn rook_move() {
    let m = notation::parse("Ra1").unwrap();
    assert_eq!(m.piece, PieceKind::Rook);
    assert_eq!(m.dest, Square::parse("a1").unwrap());
}

#[test]
fn king_move() {
    let m = notation::parse("Ke2").unwrap();
    assert_eq!(m.piece, PieceKind::King);
    assert_eq!(m.dest, Square::parse("e2").unwrap());
}

#[test]
fn piece_capture() {
    let m = notation::parse("Bxc6").unwrap();
    assert_eq!(m.piece, PieceKind::Bishop);
    assert_eq!(m.dest, Square::parse("c6").unwrap());
    assert!(m.capture);
}

#[test]
fn pawn_capture() {
    let m = notation::parse("exd5").unwrap();
    assert_eq!(m.piece, PieceKind::Pawn);
    assert_eq!(m.dest, Square::parse("d5").unwrap());
    assert!(m.capture);
}

#[test]
fn queen_capture() {
    let m = notation::parse("Qxf7").unwrap();
    assert_eq!(m.piece, PieceKind::Queen);
    assert_eq!(m.dest, Square::parse("f7").unwrap());
    assert!(m.capture);
}

#[test]
fn check_annotation() {
    let m = notation::parse("Qh5+").unwrap();
    assert_eq!(m.piece, PieceKind::Queen);
    assert_eq!(m.dest, Square::parse("h5").unwrap());
}

#[test]
fn checkmate_annotation() {
    let m = notation::parse("Qxf7#").unwrap();
    assert_eq!(m.piece, PieceKind::Queen);
    assert_eq!(m.dest, Square::parse("f7").unwrap());
    assert!(m.capture);
}

#[test]
fn parse_e4() {
    let sq = Square::parse("e4").unwrap();
    assert_eq!(sq.file, 4);
    assert_eq!(sq.rank, 3);
}

#[test]
fn parse_a1() {
    let sq = Square::parse("a1").unwrap();
    assert_eq!(sq.file, 0);
    assert_eq!(sq.rank, 0);
}

#[test]
fn parse_h8() {
    let sq = Square::parse("h8").unwrap();
    assert_eq!(sq.file, 7);
    assert_eq!(sq.rank, 7);
}

#[test]
fn parse_invalid_file() {
    assert!(Square::parse("i4").is_none());
}

#[test]
fn parse_invalid_rank() {
    assert!(Square::parse("e9").is_none());
    assert!(Square::parse("e0").is_none());
}

#[test]
fn file_char_a() {
    let sq = Square { file: 0, rank: 0 };
    assert_eq!(sq.file_char(), 'a');
}

#[test]
fn file_char_h() {
    let sq = Square { file: 7, rank: 0 };
    assert_eq!(sq.file_char(), 'h');
}

#[test]
fn rank_num_1() {
    let sq = Square { file: 0, rank: 0 };
    assert_eq!(sq.rank_num(), 1);
}

#[test]
fn rank_num_8() {
    let sq = Square { file: 0, rank: 7 };
    assert_eq!(sq.rank_num(), 8);
}

#[test]
fn to_index_a1() {
    let sq = Square::parse("a1").unwrap();
    assert_eq!(sq.to_index(), 0);
}

#[test]
fn to_index_h8() {
    let sq = Square::parse("h8").unwrap();
    assert_eq!(sq.to_index(), 63);
}

#[test]
fn to_index_e4() {
    let sq = Square::parse("e4").unwrap();
    assert_eq!(sq.to_index(), 28);
}

#[test]
fn display() {
    let sq = Square::parse("e4").unwrap();
    assert_eq!(sq.to_text(), "e4");
}
