use chess_cli::chess::board::ChessBoard;
use chess_cli::chess::board::GameState;
use chess_cli::chess::error::SystemError;
use chess_cli::chess::piece::PieceColor;
use chess_cli::chess::piece::PieceKind;
use chess_cli::chess::piece::Position;

fn at(board: &ChessBoard, file: i8, rank: i8) -> Option<(PieceColor, PieceKind)> {
    board.piece_at(Position { file, rank }).map(|p| (p.color, p.kind))
}

#[test]
fn starting_board_piece_counts() {
    let board = ChessBoard::new();
    let mut total = 0;
    let mut white = 0;
    let mut black = 0;
    for rank in 0..8i8 {
        for file in 0..8i8 {
            if let Some((color, _)) = at(&board, file, rank) {
                total += 1;
                match color {
                    PieceColor::White => white += 1,
                    PieceColor::Black => black += 1,
                }
                assert!(rank <= 1 || rank >= 6);
                if rank <= 1 {
                    assert_eq!(color, PieceColor::White);
                } else {
                    assert_eq!(color, PieceColor::Black);
                }
            } else {
                assert!((2..6).contains(&rank));
            }
        }
    }
    assert_eq!(total, 32);
    assert_eq!(white, 16);
    assert_eq!(black, 16);
}

#[test]
fn starting_board_back_rank_order() {
    let board = ChessBoard::new();
    let order = [
        PieceKind::Rook,
        PieceKind::Knight,
        PieceKind::Bishop,
        PieceKind::Queen,
        PieceKind::King,
        PieceKind::Bishop,
        PieceKind::Knight,
        PieceKind::Rook,
    ];
    for file in 0..8i8 {
        let expected = order[file as usize];
        assert_eq!(at(&board, file, 0), Some((PieceColor::White, expected)));
        assert_eq!(at(&board, file, 7), Some((PieceColor::Black, expected)));
        assert_eq!(at(&board, file, 1), Some((PieceColor::White, PieceKind::Pawn)));
        assert_eq!(at(&board, file, 6), Some((PieceColor::Black, PieceKind::Pawn)));
    }
}

#[test]
fn execute_action_reports_missing_piece() {
    let board = ChessBoard::new();
    let r = board.execute_action(Position { file: 4, rank: 2 }, Position { file: 4, rank: 3 });
    assert_eq!(r, Err(SystemError::PieceMissing));
}

#[test]
fn execute_action_accepts_legal_move() {
    let board = ChessBoard::new();
    let r = board.execute_action(Position { file: 1, rank: 0 }, Position { file: 2, rank: 2 });
    // the knight is unrestricted, so any transition from its square is accepted
    assert_eq!(r, Ok(GameState::InProgress));
}

#[test]
fn execute_action_rejects_illegal_move() {
    let board = ChessBoard::new();
    // a rook may not change both rank and file
    let r = board.execute_action(Position { file: 0, rank: 0 }, Position { file: 1, rank: 2 });
    assert_eq!(r, Err(SystemError::InvalidPieceMove));
}

#[test]
fn execute_action_never_mutates_the_grid() {
    let board = ChessBoard::new();
    let _ = board.execute_action(Position { file: 1, rank: 1 }, Position { file: 1, rank: 2 });
    // the pawn is still at its starting square and its target is still empty
    assert_eq!(at(&board, 1, 1), Some((PieceColor::White, PieceKind::Pawn)));
    assert_eq!(at(&board, 1, 2), None);
}
