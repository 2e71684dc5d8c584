//! The pieces that can occupy a square.

use vstd::prelude::*;
use crate::color::ChessColor;

verus! {

/// One chess piece, or `Empty` for an empty square. The variants use the
/// common shorthands of algebraic notation, with pawns written `P`.
/// Every variant but `Empty` carries the color it belongs to.
#[derive(Debug, Copy, Clone, Hash, PartialEq, Eq, Structural)]
pub enum ChessPiece {
    Empty,
    /// A pawn.
    P(ChessColor),
    /// A rook.
    R(ChessColor),
    /// A knight.
    N(ChessColor),
    /// A bishop.
    B(ChessColor),
    /// A queen.
    Q(ChessColor),
    /// A king.
    K(ChessColor),
}

/// The color of a piece, or `None` for the empty square.
pub open spec fn piece_color_spec(p: ChessPiece) -> Option<ChessColor> {
    match p {
        ChessPiece::P(c) => Some(c),
        ChessPiece::R(c) => Some(c),
        ChessPiece::N(c) => Some(c),
        ChessPiece::B(c) => Some(c),
        ChessPiece::Q(c) => Some(c),
        ChessPiece::K(c) => Some(c),
        ChessPiece::Empty => None,
    }
}

/// Whether a piece is a pawn of either color.
pub open spec fn is_pawn(p: ChessPiece) -> bool {
    match p {
        ChessPiece::P(_) => true,
        _ => false,
    }
}

impl ChessPiece {
    /// Gets the color of the piece if it is not [`ChessPiece::Empty`];
    /// otherwise returns [`None`].
    pub fn color(&self) -> (r: Option<ChessColor>)
        ensures
            r == piece_color_spec(*self),
    {
        match self {
            ChessPiece::P(c) => Some(*c),
            ChessPiece::R(c) => Some(*c),
            ChessPiece::N(c) => Some(*c),
            ChessPiece::B(c) => Some(*c),
            ChessPiece::Q(c) => Some(*c),
            ChessPiece::K(c) => Some(*c),
            ChessPiece::Empty => None,
        }
    }
}

} // verus!
