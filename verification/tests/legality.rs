use chess_cli::chess::piece::Piece;
use chess_cli::chess::piece::PieceColor;
use chess_cli::chess::piece::PieceKind;
use chess_cli::chess::piece::Position;
use chess_cli::chess::piece::bishop_like_legal;
use chess_cli::chess::piece::queen_like_legal;
use chess_cli::chess::piece::rook_like_legal;

fn all_positions() -> Vec<Position> {
    let mut v = Vec::new();
    for rank in 0..8i8 {
        for file in 0..8i8 {
            v.push(Position { file, rank });
        }
    }
    v
}

#[test]
fn king_rule_is_chebyshev_one() {
    for &s in all_positions().iter() {
        for &e in all_positions().iter() {
            let dr = (s.rank - e.rank).abs();
            let df = (s.file - e.file).abs();
            let expected = dr.max(df) <= 1;
            assert_eq!(PieceKind::King.is_legal(s, e, PieceColor::White), expected);
        }
    }
}

#[test]
fn king_zero_move_is_legal() {
    let s = Position { file: 4, rank: 4 };
    assert!(PieceKind::King.is_legal(s, s, PieceColor::Black));
}

#[test]
fn rook_rule_is_exactly_one_axis() {
    for &s in all_positions().iter() {
        for &e in all_positions().iter() {
            let dr = s.rank - e.rank;
            let df = s.file - e.file;
            let expected = (dr == 0 && df != 0) || (df == 0 && dr != 0);
            assert_eq!(rook_like_legal(s, e), expected);
            assert_eq!(PieceKind::Rook.is_legal(s, e, PieceColor::White), expected);
        }
    }
}

#[test]
fn rook_zero_move_is_illegal() {
    let s = Position { file: 0, rank: 0 };
    assert!(!PieceKind::Rook.is_legal(s, s, PieceColor::White));
}

#[test]
fn bishop_rule_is_equal_magnitudes() {
    for &s in all_positions().iter() {
        for &e in all_positions().iter() {
            let expected = (s.rank - e.rank).abs() == (s.file - e.file).abs();
            assert_eq!(bishop_like_legal(s, e), expected);
            assert_eq!(PieceKind::Bishop.is_legal(s, e, PieceColor::Black), expected);
        }
    }
}

#[test]
fn bishop_zero_move_is_legal() {
    let s = Position { file: 7, rank: 2 };
    assert!(PieceKind::Bishop.is_legal(s, s, PieceColor::White));
}

#[test]
fn queen_rule_is_rook_or_bishop() {
    for &s in all_positions().iter() {
        for &e in all_positions().iter() {
            let expected = rook_like_legal(s, e) || bishop_like_legal(s, e);
            assert_eq!(queen_like_legal(s, e), expected);
            assert_eq!(PieceKind::Queen.is_legal(s, e, PieceColor::White), expected);
        }
    }
}

#[test]
fn knight_rule_is_unrestricted() {
    for &s in all_positions().iter() {
        for &e in all_positions().iter() {
            assert!(PieceKind::Knight.is_legal(s, e, PieceColor::White));
            assert!(PieceKind::Knight.is_legal(s, e, PieceColor::Black));
        }
    }
}

#[test]
fn pawn_rule_is_one_forward_step() {
    for &s in all_positions().iter() {
        for &e in all_positions().iter() {
            let df_ok = (s.file - e.file).abs() <= 1;
            let white_expected = e.rank - s.rank == 1 && df_ok;
            let black_expected = e.rank - s.rank == -1 && df_ok;
            assert_eq!(PieceKind::Pawn.is_legal(s, e, PieceColor::White), white_expected);
            assert_eq!(PieceKind::Pawn.is_legal(s, e, PieceColor::Black), black_expected);
        }
    }
}

#[test]
fn piece_uses_its_own_color() {
    let start = Position { file: 3, rank: 3 };
    let up = Position { file: 3, rank: 4 };
    let down = Position { file: 3, rank: 2 };
    let white_pawn = Piece { color: PieceColor::White, kind: PieceKind::Pawn };
    let black_pawn = Piece { color: PieceColor::Black, kind: PieceKind::Pawn };
    assert!(white_pawn.is_legal(start, up));
    assert!(!white_pawn.is_legal(start, down));
    assert!(black_pawn.is_legal(start, down));
    assert!(!black_pawn.is_legal(start, up));
}

#[test]
fn piece_icons() {
    let mk = |kind| Piece { color: PieceColor::White, kind };
    assert_eq!(mk(PieceKind::King).icon(), 'K');
    assert_eq!(mk(PieceKind::Queen).icon(), 'Q');
    assert_eq!(mk(PieceKind::Bishop).icon(), 'i');
    assert_eq!(mk(PieceKind::Knight).icon(), 'f');
    assert_eq!(mk(PieceKind::Rook).icon(), '#');
    assert_eq!(mk(PieceKind::Pawn).icon(), 'x');
}
