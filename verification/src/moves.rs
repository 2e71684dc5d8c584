//! One ply of the game, and its rendering in compact algebraic notation.

use vstd::prelude::*;
use vstd::string::StringExecFns;
use crate::piece::ChessPiece;

verus! {

/// An immutable record of one move.
///
/// Square indices are rank-major: index 0 is `a1`, index 7 is `h1`,
/// index 56 is `a8`; `file = index % 8`, `rank = index / 8`.
#[derive(Debug, Copy, Clone, Hash, PartialEq, Eq, Structural)]
pub struct ChessMove {
    /// The piece which moves.
    pub piece: ChessPiece,
    /// The original position of the piece.
    pub origin: usize,
    /// The target position of the piece.
    pub target: usize,
    /// The piece being captured, or [`ChessPiece::Empty`].
    pub captures: ChessPiece,
    /// A piece to replace the moving one with after the move, or
    /// [`ChessPiece::Empty`]. Only used for pawn promotions.
    pub promotes: ChessPiece,
    /// Whether the move is an en-passant capture.
    pub en_passant: bool,
    /// Whether the move castles; the rook relocation is derived from the
    /// king's origin and target.
    pub castles: bool,
}

/// A non-capturing move of `piece` from `origin` to `target`.
pub open spec fn mv_to_spec(piece: ChessPiece, origin: usize, target: usize) -> ChessMove {
    ChessMove {
        piece,
        origin,
        target,
        captures: ChessPiece::Empty,
        promotes: ChessPiece::Empty,
        en_passant: false,
        castles: false,
    }
}

/// A move of `piece` from `origin` to `target` capturing `captures`.
pub open spec fn mv_captures_spec(
    piece: ChessPiece,
    origin: usize,
    target: usize,
    captures: ChessPiece,
) -> ChessMove {
    ChessMove {
        piece,
        origin,
        target,
        captures,
        promotes: ChessPiece::Empty,
        en_passant: false,
        castles: false,
    }
}

/// The notation letter of a piece: empty for pawns, one of `R`/`N`/`B`/
/// `Q`/`K` otherwise, and `_` for the empty square.
pub open spec fn piece_letter(p: ChessPiece) -> Seq<char> {
    match p {
        ChessPiece::P(_) => Seq::<char>::empty(),
        ChessPiece::R(_) => seq!['R'],
        ChessPiece::N(_) => seq!['N'],
        ChessPiece::B(_) => seq!['B'],
        ChessPiece::Q(_) => seq!['Q'],
        ChessPiece::K(_) => seq!['K'],
        ChessPiece::Empty => seq!['_'],
    }
}

/// The file letter of a square index: `a` through `h` from `i % 8`.
pub open spec fn file_char(i: int) -> char {
    let f = i % 8;
    if f == 0 {
        'a'
    } else if f == 1 {
        'b'
    } else if f == 2 {
        'c'
    } else if f == 3 {
        'd'
    } else if f == 4 {
        'e'
    } else if f == 5 {
        'f'
    } else if f == 6 {
        'g'
    } else {
        'h'
    }
}

/// The rank digit of a square index below 64: `1` through `8` from
/// `i / 8 + 1`.
pub open spec fn rank_char(i: int) -> char {
    let r = i / 8;
    if r == 0 {
        '1'
    } else if r == 1 {
        '2'
    } else if r == 2 {
        '3'
    } else if r == 3 {
        '4'
    } else if r == 4 {
        '5'
    } else if r == 5 {
        '6'
    } else if r == 6 {
        '7'
    } else {
        '8'
    }
}

/// The two-character text of a square index: file letter, then 1-based rank.
pub open spec fn square_chars(i: int) -> Seq<char> {
    seq![file_char(i), rank_char(i)]
}

/// The notation of a move. Castling renders as `O-O` (kingside) or
/// `O-O-O` (queenside, a target exactly two files below the origin); any
/// other move renders as
/// `<piece-letter><origin-square>[x]<target-square>[(<promotion-letter>)][ e.p.]`,
/// where `x` appears iff a capture occurred, the promotion suffix appears
/// iff a promotion piece is set, and the en-passant suffix appears iff the
/// en-passant flag is set.
pub open spec fn algebraic_spec(m: ChessMove) -> Seq<char> {
    if m.castles {
        if m.target + 2 == m.origin {
            seq!['O', '-', 'O', '-', 'O']
        } else {
            seq!['O', '-', 'O']
        }
    } else {
        piece_letter(m.piece) + square_chars(m.origin as int) + (if m.captures != ChessPiece::Empty {
            seq!['x']
        } else {
            Seq::<char>::empty()
        }) + square_chars(m.target as int) + (if m.promotes != ChessPiece::Empty {
            seq!['('] + piece_letter(m.promotes) + seq![')']
        } else {
            Seq::<char>::empty()
        }) + (if m.en_passant {
            seq![' ', 'e', '.', 'p', '.']
        } else {
            Seq::<char>::empty()
        })
    }
}

impl ChessPiece {
    /// The notation letter of the piece as executable text.
    pub(crate) fn letter(&self) -> (r: &'static str)
        ensures
            r@ == piece_letter(*self),
    {
        proof {
            reveal_strlit("");
            reveal_strlit("R");
            reveal_strlit("N");
            reveal_strlit("B");
            reveal_strlit("Q");
            reveal_strlit("K");
            reveal_strlit("_");
        }
        let r = match self {
            ChessPiece::P(_) => "",
            ChessPiece::R(_) => "R",
            ChessPiece::N(_) => "N",
            ChessPiece::B(_) => "B",
            ChessPiece::Q(_) => "Q",
            ChessPiece::K(_) => "K",
            ChessPiece::Empty => "_",
        };
        proof {
            assert(r@ =~= piece_letter(*self));
        }
        r
    }
}

/// The file letter of a square index as executable text.
fn file_str(i: usize) -> (r: &'static str)
    requires
        i < 64,
    ensures
        r@ == seq![file_char(i as int)],
{
    proof {
        reveal_strlit("a");
        reveal_strlit("b");
        reveal_strlit("c");
        reveal_strlit("d");
        reveal_strlit("e");
        reveal_strlit("f");
        reveal_strlit("g");
        reveal_strlit("h");
    }
    let r = match i % 8 {
        0 => "a",
        1 => "b",
        2 => "c",
        3 => "d",
        4 => "e",
        5 => "f",
        6 => "g",
        _ => "h",
    };
    proof {
        assert(r@ =~= seq![file_char(i as int)]);
    }
    r
}

/// The rank digit of a square index as executable text.
fn rank_str(i: usize) -> (r: &'static str)
    requires
        i < 64,
    ensures
        r@ == seq![rank_char(i as int)],
{
    proof {
        reveal_strlit("1");
        reveal_strlit("2");
        reveal_strlit("3");
        reveal_strlit("4");
        reveal_strlit("5");
        reveal_strlit("6");
        reveal_strlit("7");
        reveal_strlit("8");
    }
    let r = match i / 8 {
        0 => "1",
        1 => "2",
        2 => "3",
        3 => "4",
        4 => "5",
        5 => "6",
        6 => "7",
        _ => "8",
    };
    proof {
        assert(r@ =~= seq![rank_char(i as int)]);
    }
    r
}

impl ChessMove {
    /// Builds a non-capturing move.
    pub fn to(piece: ChessPiece, origin: usize, target: usize) -> (r: ChessMove)
        ensures
            r == mv_to_spec(piece, origin, target),
    {
        ChessMove {
            piece,
            origin,
            target,
            captures: ChessPiece::Empty,
            promotes: ChessPiece::Empty,
            en_passant: false,
            castles: false,
        }
    }

    /// Builds a capturing move.
    pub fn captures(
        piece: ChessPiece,
        origin: usize,
        target: usize,
        captures: ChessPiece,
    ) -> (r: ChessMove)
        ensures
            r == mv_captures_spec(piece, origin, target, captures),
    {
        ChessMove {
            piece,
            origin,
            target,
            captures,
            promotes: ChessPiece::Empty,
            en_passant: false,
            castles: false,
        }
    }

    /// Returns the move in compact algebraic notation, as
    /// [`algebraic_spec`] states it.
    ///
    /// The rendering does not contain information about checks, and
    /// contains redundant information about piece locations.
    #[verifier::rlimit(60)]
    pub fn algebraic(&self) -> (r: String)
        requires
            self.origin < 64,
            self.target < 64,
        ensures
            r@ == algebraic_spec(*self),
    {
        if self.castles {
            proof {
                reveal_strlit("O-O-O");
                reveal_strlit("O-O");
            }
            let r = if self.origin >= 2 && self.target == self.origin - 2 {
                "O-O-O"
            } else {
                "O-O"
            };
            proof {
                assert(r@ =~= algebraic_spec(*self));
            }
            return r.to_owned();
        }
        proof {
            reveal_strlit("x");
            reveal_strlit("(");
            reveal_strlit(")");
            reveal_strlit(" e.p.");
        }
        let mut s = String::new();
        s.append(self.piece.letter());
        s.append(file_str(self.origin));
        s.append(rank_str(self.origin));
        if !matches!(self.captures, ChessPiece::Empty) {
            s.append("x");
        }
        s.append(file_str(self.target));
        s.append(rank_str(self.target));
        if !matches!(self.promotes, ChessPiece::Empty) {
            s.append("(");
            s.append(self.promotes.letter());
            s.append(")");
        }
        if self.en_passant {
            s.append(" e.p.");
        }
        proof {
            assert(s@ =~= algebraic_spec(*self));
        }
        s
    }
}

} // verus!
