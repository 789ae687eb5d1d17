use vstd::prelude::*;
use crate::chess::error::SystemError;

verus! {

/// A validated board coordinate: `file` is the column (`a`..`h` mapped to
/// 0..7), `rank` is the row (`1`..`8` mapped to 0..7). A parsed `Position`
/// never holds an out-of-board value.
#[derive(Copy, Clone, Debug, PartialEq, Eq, Structural)]
pub struct Position {
    pub file: i8,
    pub rank: i8,
}

/// A rank character is valid iff it is a digit `1`..`8`.
pub open spec fn valid_rank_char(c: char) -> bool {
    '1' <= c && c <= '8'
}

/// A file character is valid iff it is a letter `a`..`h`, in either case.
pub open spec fn valid_file_char(c: char) -> bool {
    ('a' <= c && c <= 'h') || ('A' <= c && c <= 'H')
}

/// Zero-based rank index a valid rank character denotes.
pub open spec fn rank_index(c: char) -> int {
    c as int - '1' as int
}

/// Zero-based file index a valid file character denotes, the same for the
/// lower-case letter and its upper-case counterpart.
pub open spec fn file_index(c: char) -> int {
    if 'a' <= c && c <= 'h' {
        c as int - 'a' as int
    } else {
        c as int - 'A' as int
    }
}

/// The position a valid character pair parses to.
pub open spec fn parsed_position(file_char: char, rank_char: char) -> Position {
    Position { file: file_index(file_char) as i8, rank: rank_index(rank_char) as i8 }
}

impl Position {
    /// Both coordinates lie on the board.
    pub open spec fn wf(self) -> bool {
        0 <= self.file <= 7 && 0 <= self.rank <= 7
    }

    /// Parses a `[file_char, rank_char]` pair, rejecting any character
    /// outside the board's ranges and carrying the offending pair back.
    pub fn new(position: [char; 2]) -> (r: Result<Position, SystemError>)
        ensures
            valid_file_char(position@[0]) && valid_rank_char(position@[1]) ==> (r
                matches Ok(p) && p == parsed_position(position@[0], position@[1]) && p.wf()),
            !(valid_file_char(position@[0]) && valid_rank_char(position@[1])) ==> r == Err::<
                Position,
                SystemError,
            >(SystemError::InvalidPosition(position@[0], position@[1])),
    {
        let file = position[0];
        let rank = position[1];
        let rank_num: i8 = if rank >= '1' && rank <= '8' {
            (rank as u32 - '1' as u32) as i8
        } else {
            return Err(SystemError::InvalidPosition(file, rank));
        };
        let file_num: i8 = if file >= 'a' && file <= 'h' {
            (file as u32 - 'a' as u32) as i8
        } else if file >= 'A' && file <= 'H' {
            (file as u32 - 'A' as u32) as i8
        } else {
            return Err(SystemError::InvalidPosition(file, rank));
        };
        Ok(Position { rank: rank_num, file: file_num })
    }
}

/// Piece ownership, and "whose turn / whose viewing orientation".
#[derive(Copy, Clone, Debug, PartialEq, Eq, Structural)]
pub enum PieceColor {
    White,
    Black,
}

impl PieceColor {
    /// The other side.
    pub open spec fn spec_opposite(self) -> PieceColor {
        match self {
            PieceColor::White => PieceColor::Black,
            PieceColor::Black => PieceColor::White,
        }
    }

    pub fn opposite(&self) -> (r: PieceColor)
        ensures
            r == self.spec_opposite(),
    {
        match self {
            PieceColor::White => PieceColor::Black,
            PieceColor::Black => PieceColor::White,
        }
    }

    /// The exact escape sequence a piece of this color is rendered with.
    pub open spec fn spec_as_str(self) -> Seq<char> {
        match self {
            PieceColor::White => "\x1b[34m\x1b[1m"@,
            PieceColor::Black => "\x1b[31m\x1b[1m"@,
        }
    }

    pub fn as_str(&self) -> (r: &'static str)
        ensures
            r@ == self.spec_as_str(),
    {
        match self {
            PieceColor::White => "\x1b[34m\x1b[1m",
            PieceColor::Black => "\x1b[31m\x1b[1m",
        }
    }
}

/// The closed set of piece kinds, each carrying exactly one movement rule.
#[derive(Copy, Clone, Debug, PartialEq, Eq, Structural)]
pub enum PieceKind {
    King,
    Queen,
    Bishop,
    Knight,
    Rook,
    Pawn,
}

/// The occupant of a square: a color and a kind.
#[derive(Copy, Clone, Debug, PartialEq, Eq, Structural)]
pub struct Piece {
    pub color: PieceColor,
    pub kind: PieceKind,
}

/// A rook-shaped move: start and end share a rank or a file, but not both.
/// The same-square move fails both branches.
pub open spec fn rook_like(start: Position, end: Position) -> bool {
    (start.rank == end.rank && start.file != end.file) || (start.file == end.file
        && start.rank != end.rank)
}

/// A bishop-shaped move: the rank and file deltas have the same magnitude.
/// The same-square move (both deltas zero) is accepted.
pub open spec fn bishop_like(start: Position, end: Position) -> bool {
    vstd::math::abs(start.rank - end.rank) == vstd::math::abs(start.file - end.file)
}

/// A queen-shaped move: rook-shaped or bishop-shaped.
pub open spec fn queen_like(start: Position, end: Position) -> bool {
    rook_like(start, end) || bishop_like(start, end)
}

/// A king-shaped move: at most one step in each direction, the zero move
/// included.
pub open spec fn king_like(start: Position, end: Position) -> bool {
    vstd::math::abs(start.rank - end.rank) <= 1 && vstd::math::abs(start.file - end.file) <= 1
}

/// The rank direction a pawn of the given color advances in.
pub open spec fn forward_direction(color: PieceColor) -> int {
    match color {
        PieceColor::White => 1,
        PieceColor::Black => -1,
    }
}

/// A pawn move: exactly one rank step in the color's forward direction,
/// drifting at most one file sideways. No two-square initial advance and no
/// capture-only diagonal distinction exist in this rule set.
pub open spec fn pawn_like(color: PieceColor, start: Position, end: Position) -> bool {
    end.rank - start.rank == forward_direction(color) && vstd::math::abs(start.file - end.file)
        <= 1
}

/// The movement rule each kind enforces. All rules are shape checks over the
/// two coordinates only: board occupancy is never consulted, so blocking and
/// capture play no part. The knight is unrestricted by design.
pub open spec fn kind_legal(kind: PieceKind, color: PieceColor, start: Position, end: Position) -> bool {
    match kind {
        PieceKind::King => king_like(start, end),
        PieceKind::Queen => queen_like(start, end),
        PieceKind::Bishop => bishop_like(start, end),
        PieceKind::Knight => true,
        PieceKind::Rook => rook_like(start, end),
        PieceKind::Pawn => pawn_like(color, start, end),
    }
}

/// The rule of the piece occupying a square.
pub open spec fn piece_legal(piece: Piece, start: Position, end: Position) -> bool {
    kind_legal(piece.kind, piece.color, start, end)
}

/// Magnitude of the difference of two on-board coordinates.
fn abs_delta(a: i8, b: i8) -> (r: i8)
    requires
        0 <= a <= 7,
        0 <= b <= 7,
    ensures
        r == vstd::math::abs(a - b),
{
    if a >= b {
        a - b
    } else {
        b - a
    }
}

/// Rook-shaped move check.
pub fn rook_like_legal(start: Position, end: Position) -> (r: bool)
    requires
        start.wf(),
        end.wf(),
    ensures
        r == rook_like(start, end),
{
    if start.rank == end.rank && abs_delta(start.file, end.file) >= 1 {
        true
    } else if start.file == end.file && abs_delta(start.rank, end.rank) >= 1 {
        true
    } else {
        false
    }
}

/// Bishop-shaped move check.
pub fn bishop_like_legal(start: Position, end: Position) -> (r: bool)
    requires
        start.wf(),
        end.wf(),
    ensures
        r == bishop_like(start, end),
{
    abs_delta(start.rank, end.rank) == abs_delta(start.file, end.file)
}

/// Queen-shaped move check.
pub fn queen_like_legal(start: Position, end: Position) -> (r: bool)
    requires
        start.wf(),
        end.wf(),
    ensures
        r == queen_like(start, end),
{
    if rook_like_legal(start, end) {
        true
    } else {
        bishop_like_legal(start, end)
    }
}

impl PieceKind {
    /// Evaluates this kind's movement rule for a piece of the given color.
    pub fn is_legal(&self, start: Position, end: Position, color: PieceColor) -> (r: bool)
        requires
            start.wf(),
            end.wf(),
        ensures
            r == kind_legal(*self, color, start, end),
    {
        match self {
            PieceKind::King => abs_delta(start.rank, end.rank) <= 1 && abs_delta(
                start.file,
                end.file,
            ) <= 1,
            PieceKind::Queen => queen_like_legal(start, end),
            PieceKind::Bishop => bishop_like_legal(start, end),
            PieceKind::Knight => true,
            PieceKind::Rook => rook_like_legal(start, end),
            PieceKind::Pawn => {
                let direction: i8 = match color {
                    PieceColor::White => 1,
                    PieceColor::Black => -1,
                };
                end.rank - start.rank == direction && abs_delta(start.file, end.file) <= 1
            },
        }
    }
}

impl Piece {
    /// Evaluates the occupying piece's rule with its own color.
    pub fn is_legal(&self, start: Position, end: Position) -> (r: bool)
        requires
            start.wf(),
            end.wf(),
        ensures
            r == piece_legal(*self, start, end),
    {
        self.kind.is_legal(start, end, self.color)
    }

    /// The glyph the surrounding display code draws this piece with.
    pub open spec fn spec_icon(self) -> char {
        match self.kind {
            PieceKind::King => 'K',
            PieceKind::Queen => 'Q',
            PieceKind::Bishop => 'i',
            PieceKind::Knight => 'f',
            PieceKind::Rook => '#',
            PieceKind::Pawn => 'x',
        }
    }

    pub fn icon(&self) -> (r: char)
        ensures
            r == self.spec_icon(),
    {
        match self.kind {
            PieceKind::King => 'K',
            PieceKind::Queen => 'Q',
            PieceKind::Bishop => 'i',
            PieceKind::Knight => 'f',
            PieceKind::Rook => '#',
            PieceKind::Pawn => 'x',
        }
    }
}

/// Parsing is case-insensitive in the file character: an upper-case file
/// letter is valid exactly when its lower-case counterpart is, and both map
/// to the same file index.
pub proof fn lemma_file_case_insensitive(lower: char, upper: char)
    requires
        'a' <= lower && lower <= 'h',
        upper as int == lower as int - 32,
    ensures
        valid_file_char(lower),
        valid_file_char(upper),
        file_index(lower) == file_index(upper),
{
}

/// King legality holds exactly when the larger of the two delta magnitudes
/// is at most one, the zero move included.
pub proof fn lemma_king_rule(start: Position, end: Position, color: PieceColor)
    ensures
        kind_legal(PieceKind::King, color, start, end) <==> vstd::math::max(
            vstd::math::abs(start.rank - end.rank) as int,
            vstd::math::abs(start.file - end.file) as int,
        ) <= 1,
        kind_legal(PieceKind::King, color, start, start),
{
}

/// Rook legality holds exactly when one of the two deltas is zero and the
/// other is nonzero; in particular the same-square move is illegal.
pub proof fn lemma_rook_rule(start: Position, end: Position, color: PieceColor)
    ensures
        kind_legal(PieceKind::Rook, color, start, end) <==> ((start.rank - end.rank == 0
            && start.file - end.file != 0) || (start.file - end.file == 0 && start.rank - end.rank
            != 0)),
        !kind_legal(PieceKind::Rook, color, start, start),
{
}

/// Bishop legality holds exactly when the two delta magnitudes agree; the
/// zero/zero case makes the same-square move legal.
pub proof fn lemma_bishop_rule(start: Position, end: Position, color: PieceColor)
    ensures
        kind_legal(PieceKind::Bishop, color, start, end) <==> vstd::math::abs(
            start.rank - end.rank,
        ) == vstd::math::abs(start.file - end.file),
        kind_legal(PieceKind::Bishop, color, start, start),
{
}

/// Queen legality is the disjunction of rook and bishop legality on the same
/// inputs.
pub proof fn lemma_queen_rule(start: Position, end: Position, color: PieceColor)
    ensures
        kind_legal(PieceKind::Queen, color, start, end) <==> (kind_legal(
            PieceKind::Rook,
            color,
            start,
            end,
        ) || kind_legal(PieceKind::Bishop, color, start, end)),
{
}

/// Knight legality holds for any two positions: the minimal rule set leaves
/// the knight unrestricted.
pub proof fn lemma_knight_rule(start: Position, end: Position, color: PieceColor)
    ensures
        kind_legal(PieceKind::Knight, color, start, end),
{
}

/// Pawn legality holds exactly when the rank delta equals the color's
/// forward direction (White +1, Black -1) and the file drift is at most one.
pub proof fn lemma_pawn_rule(start: Position, end: Position, color: PieceColor)
    ensures
        forward_direction(PieceColor::White) == 1,
        forward_direction(PieceColor::Black) == -1,
        kind_legal(PieceKind::Pawn, color, start, end) <==> (end.rank - start.rank
            == forward_direction(color) && vstd::math::abs(start.file - end.file) <= 1),
{
}

} // verus!
