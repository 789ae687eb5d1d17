use vstd::prelude::*;
use crate::chess::error::SystemError;
use crate::chess::piece::Piece;
use crate::chess::piece::PieceColor;
use crate::chess::piece::PieceKind;
use crate::chess::piece::Position;
use crate::chess::piece::file_index;
use crate::chess::piece::parsed_position;
use crate::chess::piece::rank_index;
use crate::chess::piece::piece_legal;
use crate::chess::piece::valid_file_char;
use crate::chess::piece::valid_rank_char;

verus! {

/// The phase a successfully validated move reports. Only `InProgress` is
/// ever produced by the minimal rule set; the other three are declared
/// states with no computed transition into them.
#[derive(Copy, Clone, Debug, PartialEq, Eq, Structural)]
pub enum GameState {
    InProgress,
    Check,
    Checkmate,
    Stalemate,
}

impl GameState {
    /// A terminal phase ends the match.
    pub open spec fn spec_is_terminal(self) -> bool {
        self is Checkmate || self is Stalemate
    }

    pub fn is_terminal(&self) -> (r: bool)
        ensures
            r == self.spec_is_terminal(),
    {
        match self {
            GameState::Checkmate => true,
            GameState::Stalemate => true,
            _ => false,
        }
    }
}

/// The back rank of one side, in Rook-Knight-Bishop-Queen-King-Bishop-
/// Knight-Rook order from file 0.
pub open spec fn back_rank_row(color: PieceColor) -> Seq<Option<Piece>> {
    seq![
        Some(Piece { color, kind: PieceKind::Rook }),
        Some(Piece { color, kind: PieceKind::Knight }),
        Some(Piece { color, kind: PieceKind::Bishop }),
        Some(Piece { color, kind: PieceKind::Queen }),
        Some(Piece { color, kind: PieceKind::King }),
        Some(Piece { color, kind: PieceKind::Bishop }),
        Some(Piece { color, kind: PieceKind::Knight }),
        Some(Piece { color, kind: PieceKind::Rook }),
    ]
}

/// A rank filled with one side's pawns.
pub open spec fn pawn_row(color: PieceColor) -> Seq<Option<Piece>> {
    seq![
        Some(Piece { color, kind: PieceKind::Pawn }),
        Some(Piece { color, kind: PieceKind::Pawn }),
        Some(Piece { color, kind: PieceKind::Pawn }),
        Some(Piece { color, kind: PieceKind::Pawn }),
        Some(Piece { color, kind: PieceKind::Pawn }),
        Some(Piece { color, kind: PieceKind::Pawn }),
        Some(Piece { color, kind: PieceKind::Pawn }),
        Some(Piece { color, kind: PieceKind::Pawn }),
    ]
}

/// An empty rank.
pub open spec fn empty_row() -> Seq<Option<Piece>> {
    seq![None, None, None, None, None, None, None, None]
}

/// The standard starting layout, indexed `[rank][file]`: White on ranks 0
/// and 1, Black on ranks 6 and 7.
pub open spec fn starting_board() -> Seq<Seq<Option<Piece>>> {
    seq![
        back_rank_row(PieceColor::White),
        pawn_row(PieceColor::White),
        empty_row(),
        empty_row(),
        empty_row(),
        empty_row(),
        pawn_row(PieceColor::Black),
        back_rank_row(PieceColor::Black),
    ]
}

/// Number of occupied squares in `row` at index `i` or beyond.
pub open spec fn row_pieces_from(row: Seq<Option<Piece>>, i: int) -> int
    decreases row.len() - i,
{
    if i >= row.len() {
        0
    } else {
        (if row[i] is Some {
            1int
        } else {
            0int
        }) + row_pieces_from(row, i + 1)
    }
}

/// Number of occupied squares in a row.
pub open spec fn row_pieces(row: Seq<Option<Piece>>) -> int {
    row_pieces_from(row, 0)
}

/// Number of squares in `row` at index `i` or beyond holding a piece of the
/// given color.
pub open spec fn row_color_pieces_from(row: Seq<Option<Piece>>, color: PieceColor, i: int) -> int
    decreases row.len() - i,
{
    if i >= row.len() {
        0
    } else {
        (if row[i] matches Some(piece) && piece.color == color {
            1int
        } else {
            0int
        }) + row_color_pieces_from(row, color, i + 1)
    }
}

/// Number of squares in a row holding a piece of the given color.
pub open spec fn row_color_pieces(row: Seq<Option<Piece>>, color: PieceColor) -> int {
    row_color_pieces_from(row, color, 0)
}

/// Number of occupied squares on the ranks of `board` at index `r` or
/// beyond.
pub open spec fn board_pieces_from(board: Seq<Seq<Option<Piece>>>, r: int) -> int
    decreases board.len() - r,
{
    if r >= board.len() {
        0
    } else {
        row_pieces(board[r]) + board_pieces_from(board, r + 1)
    }
}

/// Number of occupied squares on a board.
pub open spec fn board_pieces(board: Seq<Seq<Option<Piece>>>) -> int {
    board_pieces_from(board, 0)
}

/// Number of squares on the ranks of `board` at index `r` or beyond holding
/// a piece of the given color.
pub open spec fn board_color_pieces_from(
    board: Seq<Seq<Option<Piece>>>,
    color: PieceColor,
    r: int,
) -> int
    decreases board.len() - r,
{
    if r >= board.len() {
        0
    } else {
        row_color_pieces(board[r], color) + board_color_pieces_from(board, color, r + 1)
    }
}

/// Number of squares on a board holding a piece of the given color.
pub open spec fn board_color_pieces(board: Seq<Seq<Option<Piece>>>, color: PieceColor) -> int {
    board_color_pieces_from(board, color, 0)
}

/// The 8x8 grid, owning zero-or-one piece per square, indexed
/// `[rank][file]`.
pub struct ChessBoard {
    squares: Vec<Vec<Option<Piece>>>,
}

impl View for ChessBoard {
    type V = Seq<Seq<Option<Piece>>>;

    closed spec fn view(&self) -> Seq<Seq<Option<Piece>>> {
        self.squares@.map_values(|row: Vec<Option<Piece>>| row@)
    }
}

/// What a move request against one square's content yields: an empty source
/// square is `PieceMissing`, an occupying piece whose rule rejects the
/// transition is `InvalidPieceMove`, and an accepted move reports the match
/// still in progress (the grid itself is never mutated).
pub open spec fn square_outcome(square: Option<Piece>, start: Position, end: Position) -> Result<
    GameState,
    SystemError,
> {
    match square {
        None => Err(SystemError::PieceMissing),
        Some(piece) => if piece_legal(piece, start, end) {
            Ok(GameState::InProgress)
        } else {
            Err(SystemError::InvalidPieceMove)
        },
    }
}

/// A move command line is well-formed iff it holds exactly six characters
/// with a space in the middle: `<file><rank> <file><rank>` plus the line
/// terminator.
pub open spec fn action_format_ok(line: Seq<char>) -> bool {
    line.len() == 6 && line[2] == ' '
}

/// Both characters of one coordinate are valid.
pub open spec fn valid_pos_chars(file_char: char, rank_char: char) -> bool {
    valid_file_char(file_char) && valid_rank_char(rank_char)
}

/// Splits a move command line into its two coordinates. The line must hold
/// exactly six characters with a space at index 2; characters 0-1 name the
/// start and characters 3-4 the end. When both coordinates are bad, the
/// start's error is the one propagated.
pub fn parse_action(action: String) -> (r: Result<(Position, Position), SystemError>)
    ensures
        !action_format_ok(action@) ==> (r matches Err(SystemError::BadActionString(s)) && s@
            == action@),
        action_format_ok(action@) && !valid_pos_chars(action@[0], action@[1]) ==> r == Err::<
            (Position, Position),
            SystemError,
        >(SystemError::InvalidPosition(action@[0], action@[1])),
        action_format_ok(action@) && valid_pos_chars(action@[0], action@[1]) && !valid_pos_chars(
            action@[3],
            action@[4],
        ) ==> r == Err::<(Position, Position), SystemError>(
            SystemError::InvalidPosition(action@[3], action@[4]),
        ),
        action_format_ok(action@) && valid_pos_chars(action@[0], action@[1]) && valid_pos_chars(
            action@[3],
            action@[4],
        ) ==> r == Ok::<(Position, Position), SystemError>(
            (
                parsed_position(action@[0], action@[1]),
                parsed_position(action@[3], action@[4]),
            ),
        ),
        r matches Ok(positions) ==> positions.0.wf() && positions.1.wf(),
{
    let len = action.as_str().unicode_len();
    if len == 6 && action.as_str().get_char(2) == ' ' {
        let start = Position::new([action.as_str().get_char(0), action.as_str().get_char(1)]);
        let end = Position::new([action.as_str().get_char(3), action.as_str().get_char(4)]);
        match (start, end) {
            (Err(start_error), Err(_)) => Err(start_error),
            (Err(error), _) => Err(error),
            (_, Err(error)) => Err(error),
            (Ok(start_pos), Ok(end_pos)) => Ok((start_pos, end_pos)),
        }
    } else {
        Err(SystemError::BadActionString(action))
    }
}

/// One step of the match loop's color protocol: the active color advances
/// exactly on a successful move and never on an error, so a failed turn is
/// retried by the same player.
pub fn next_player(player: PieceColor, outcome: &Result<GameState, SystemError>) -> (r: PieceColor)
    ensures
        outcome is Ok ==> r == player.spec_opposite(),
        outcome is Err ==> r == player,
{
    match outcome {
        Ok(_) => player.opposite(),
        Err(_) => player,
    }
}

fn exec_row(color: PieceColor, kinds: [PieceKind; 8]) -> (r: Vec<Option<Piece>>)
    ensures
        r@.len() == 8,
        forall|i: int| 0 <= i < 8 ==> r@[i] == Some(Piece { color, kind: kinds@[i] }),
{
    let mut row: Vec<Option<Piece>> = Vec::new();
    let mut i: usize = 0;
    while i < 8
        invariant
            i <= 8,
            row@.len() == i,
            forall|j: int| 0 <= j < i ==> row@[j] == Some(Piece { color, kind: kinds@[j] }),
        decreases 8 - i,
    {
        row.push(Some(Piece { color, kind: kinds[i] }));
        i = i + 1;
    }
    row
}

fn exec_back_rank(color: PieceColor) -> (r: Vec<Option<Piece>>)
    ensures
        r@ == back_rank_row(color),
{
    let kinds: [PieceKind; 8] = [
        PieceKind::Rook,
        PieceKind::Knight,
        PieceKind::Bishop,
        PieceKind::Queen,
        PieceKind::King,
        PieceKind::Bishop,
        PieceKind::Knight,
        PieceKind::Rook,
    ];
    let row = exec_row(color, kinds);
    proof {
        assert(row@ =~= back_rank_row(color));
    }
    row
}

fn exec_pawn_rank(color: PieceColor) -> (r: Vec<Option<Piece>>)
    ensures
        r@ == pawn_row(color),
{
    let kinds: [PieceKind; 8] = [
        PieceKind::Pawn,
        PieceKind::Pawn,
        PieceKind::Pawn,
        PieceKind::Pawn,
        PieceKind::Pawn,
        PieceKind::Pawn,
        PieceKind::Pawn,
        PieceKind::Pawn,
    ];
    let row = exec_row(color, kinds);
    proof {
        assert(row@ =~= pawn_row(color));
    }
    row
}

fn exec_empty_rank() -> (r: Vec<Option<Piece>>)
    ensures
        r@ == empty_row(),
{
    let mut row: Vec<Option<Piece>> = Vec::new();
    let mut i: usize = 0;
    while i < 8
        invariant
            i <= 8,
            row@.len() == i,
            forall|j: int| 0 <= j < i ==> row@[j] is None,
        decreases 8 - i,
    {
        row.push(None);
        i = i + 1;
    }
    proof {
        assert(row@ =~= empty_row());
    }
    row
}

impl ChessBoard {
    /// Each rank exists and holds eight squares.
    pub open spec fn wf(self) -> bool {
        self@.len() == 8 && (forall|r: int| 0 <= r < 8 ==> (#[trigger] self@[r]).len() == 8)
    }

    /// Builds the standard starting position, the only constructor.
    pub fn new() -> (r: ChessBoard)
        ensures
            r.wf(),
            r@ == starting_board(),
    {
        let mut squares: Vec<Vec<Option<Piece>>> = Vec::new();
        squares.push(exec_back_rank(PieceColor::White));
        squares.push(exec_pawn_rank(PieceColor::White));
        squares.push(exec_empty_rank());
        squares.push(exec_empty_rank());
        squares.push(exec_empty_rank());
        squares.push(exec_empty_rank());
        squares.push(exec_pawn_rank(PieceColor::Black));
        squares.push(exec_back_rank(PieceColor::Black));
        let board = ChessBoard { squares };
        proof {
            assert(board@ =~= starting_board());
        }
        board
    }

    /// Read-only lookup of the square at a validated position.
    pub fn piece_at(&self, pos: Position) -> (r: Option<Piece>)
        requires
            self.wf(),
            pos.wf(),
        ensures
            r == self@[pos.rank as int][pos.file as int],
    {
        proof {
            assert(self@.len() == self.squares@.len());
            assert(self@[pos.rank as int] == self.squares@[pos.rank as int]@);
        }
        self.squares[pos.rank as usize][pos.file as usize]
    }

    /// Validates one requested transition against the rule of the piece at
    /// the source square. The grid is never mutated: an accepted move only
    /// reports the match as still in progress.
    pub fn execute_action(&self, start: Position, end: Position) -> (r: Result<
        GameState,
        SystemError,
    >)
        requires
            self.wf(),
            start.wf(),
            end.wf(),
        ensures
            r == square_outcome(self@[start.rank as int][start.file as int], start, end),
    {
        match self.piece_at(start) {
            Some(piece) => {
                if piece.is_legal(start, end) {
                    Ok(GameState::InProgress)
                } else {
                    Err(SystemError::InvalidPieceMove)
                }
            },
            None => Err(SystemError::PieceMissing),
        }
    }

    /// Orchestrates one ply from an already-read command line: check the
    /// line's shape, parse the two coordinates, and evaluate the move
    /// against the piece at the source square. A failed turn returns the
    /// error unchanged; the active color is the caller's to advance.
    #[allow(unused_variables)]
    pub fn take_turn(&self, player: &PieceColor, action: String) -> (r: Result<
        GameState,
        SystemError,
    >)
        requires
            self.wf(),
        ensures
            !action_format_ok(action@) ==> (r matches Err(SystemError::BadActionString(s)) && s@
                == action@),
            action_format_ok(action@) && !valid_pos_chars(action@[0], action@[1]) ==> r == Err::<
                GameState,
                SystemError,
            >(SystemError::InvalidPosition(action@[0], action@[1])),
            action_format_ok(action@) && valid_pos_chars(action@[0], action@[1])
                && !valid_pos_chars(action@[3], action@[4]) ==> r == Err::<GameState, SystemError>(
                SystemError::InvalidPosition(action@[3], action@[4]),
            ),
            action_format_ok(action@) && valid_pos_chars(action@[0], action@[1])
                && valid_pos_chars(action@[3], action@[4]) ==> r == square_outcome(
                self@[rank_index(action@[1])][file_index(action@[0])],
                parsed_position(action@[0], action@[1]),
                parsed_position(action@[3], action@[4]),
            ),
    {
        match parse_action(action) {
            Ok(positions) => self.execute_action(positions.0, positions.1),
            Err(error) => Err(error),
        }
    }
}

/// The back rank of either side reads Rook, Knight, Bishop, Queen, King,
/// Bishop, Knight, Rook from file 0.
pub proof fn lemma_back_rank_order(color: PieceColor)
    ensures
        back_rank_row(color).len() == 8,
        back_rank_row(color)[0] == Some(Piece { color, kind: PieceKind::Rook }),
        back_rank_row(color)[1] == Some(Piece { color, kind: PieceKind::Knight }),
        back_rank_row(color)[2] == Some(Piece { color, kind: PieceKind::Bishop }),
        back_rank_row(color)[3] == Some(Piece { color, kind: PieceKind::Queen }),
        back_rank_row(color)[4] == Some(Piece { color, kind: PieceKind::King }),
        back_rank_row(color)[5] == Some(Piece { color, kind: PieceKind::Bishop }),
        back_rank_row(color)[6] == Some(Piece { color, kind: PieceKind::Knight }),
        back_rank_row(color)[7] == Some(Piece { color, kind: PieceKind::Rook }),
{
}

/// The starting layout holds exactly 32 pieces: 16 White on ranks 0 and 1,
/// 16 Black on ranks 6 and 7, pawns on ranks 1 and 6, nothing in between,
/// and the documented back-rank ordering on ranks 0 and 7.
pub proof fn lemma_starting_board_setup()
    ensures
        board_pieces(starting_board()) == 32,
        board_color_pieces(starting_board(), PieceColor::White) == 16,
        board_color_pieces(starting_board(), PieceColor::Black) == 16,
        starting_board()[0] == back_rank_row(PieceColor::White),
        starting_board()[7] == back_rank_row(PieceColor::Black),
        forall|f: int|
            0 <= f < 8 ==> starting_board()[1][f] == Some(
                Piece { color: PieceColor::White, kind: PieceKind::Pawn },
            ),
        forall|f: int|
            0 <= f < 8 ==> starting_board()[6][f] == Some(
                Piece { color: PieceColor::Black, kind: PieceKind::Pawn },
            ),
        forall|r: int, f: int| 2 <= r < 6 && 0 <= f < 8 ==> starting_board()[r][f] is None,
        forall|r: int, f: int|
            0 <= r < 2 && 0 <= f < 8 ==> ((#[trigger] starting_board()[r][f]) matches Some(piece)
                && piece.color == PieceColor::White),
        forall|r: int, f: int|
            6 <= r < 8 && 0 <= f < 8 ==> ((#[trigger] starting_board()[r][f]) matches Some(piece)
                && piece.color == PieceColor::Black),
{
    reveal_with_fuel(row_pieces_from, 10);
    reveal_with_fuel(row_color_pieces_from, 10);
    reveal_with_fuel(board_pieces_from, 10);
    reveal_with_fuel(board_color_pieces_from, 10);
    assert(row_pieces(back_rank_row(PieceColor::White)) == 8);
    assert(row_pieces(back_rank_row(PieceColor::Black)) == 8);
    assert(row_pieces(pawn_row(PieceColor::White)) == 8);
    assert(row_pieces(pawn_row(PieceColor::Black)) == 8);
    assert(row_pieces(empty_row()) == 0);
    assert(row_color_pieces(back_rank_row(PieceColor::White), PieceColor::White) == 8);
    assert(row_color_pieces(back_rank_row(PieceColor::Black), PieceColor::Black) == 8);
    assert(row_color_pieces(back_rank_row(PieceColor::White), PieceColor::Black) == 0);
    assert(row_color_pieces(back_rank_row(PieceColor::Black), PieceColor::White) == 0);
    assert(row_color_pieces(pawn_row(PieceColor::White), PieceColor::White) == 8);
    assert(row_color_pieces(pawn_row(PieceColor::Black), PieceColor::Black) == 8);
    assert(row_color_pieces(pawn_row(PieceColor::White), PieceColor::Black) == 0);
    assert(row_color_pieces(pawn_row(PieceColor::Black), PieceColor::White) == 0);
    assert(row_color_pieces(empty_row(), PieceColor::White) == 0);
    assert(row_color_pieces(empty_row(), PieceColor::Black) == 0);
}

} // verus!
