use vstd::prelude::*;

verus! {

/// The flat error taxonomy of the simulator. Every error is surfaced to the
/// caller as data; none is fatal.
#[derive(Debug, PartialEq, Eq)]
pub enum SystemError {
    /// A coordinate character pair outside the board's valid ranges; the
    /// original two characters are carried for user display.
    InvalidPosition(char, char),
    /// The input line does not match the fixed six-character two-coordinate
    /// format; the raw line is carried for user display.
    BadActionString(String),
    /// The source square of a requested move is empty.
    PieceMissing,
    /// The occupying piece's geometric rule rejects the requested transition.
    InvalidPieceMove,
}

} // verus!
