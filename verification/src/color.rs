//! The two sides of a chess game.

use vstd::prelude::*;

verus! {

/// One of the two sides. `Wh` (White) moves up the board, `Bl` (Black)
/// moves down; the colors also serve as indices into per-color state,
/// through [`ChessColor::index`].
#[derive(Debug, Copy, Clone, Hash, PartialEq, Eq, Structural)]
pub enum ChessColor {
    Wh,
    Bl,
}

/// The forward direction of a color: `+1` for White, `-1` for Black.
/// Pawn and double-step geometry is written over this value so that it
/// reads the same for both colors.
pub open spec fn dir_spec(c: ChessColor) -> int {
    if c == ChessColor::Wh {
        1
    } else {
        -1
    }
}

/// The color of the other side.
pub open spec fn opposite_spec(c: ChessColor) -> ChessColor {
    if c == ChessColor::Wh {
        ChessColor::Bl
    } else {
        ChessColor::Wh
    }
}

/// The position of a color in per-color arrays: White first, Black second.
pub open spec fn color_index(c: ChessColor) -> int {
    if c == ChessColor::Wh {
        0
    } else {
        1
    }
}

impl ChessColor {
    /// The forward direction of this color as an executable value.
    pub(crate) fn dir(&self) -> (d: i32)
        ensures
            d == dir_spec(*self),
    {
        if *self == ChessColor::Wh {
            1
        } else {
            -1
        }
    }

    /// Returns the opposite color.
    pub fn opposite(&self) -> (r: ChessColor)
        ensures
            r == opposite_spec(*self),
    {
        if *self == ChessColor::Wh {
            ChessColor::Bl
        } else {
            ChessColor::Wh
        }
    }

    /// The position of this color in per-color arrays.
    pub fn index(&self) -> (i: usize)
        ensures
            i == color_index(*self),
    {
        if *self == ChessColor::Wh {
            0
        } else {
            1
        }
    }
}

} // verus!
