//! A rules engine for standard chess.
//!
//! The library keeps a board position, enumerates the moves available to a
//! side, filters them down to the moves that do not leave the mover's own
//! king capturable, tracks the state that the special moves need (castling
//! rights, the en-passant window, check), and renders moves in a compact
//! notation.

pub mod color;
pub mod piece;
pub mod moves;
pub mod model;
pub mod game;
pub mod gen;
pub mod lemmas;
pub mod laws;

pub use color::ChessColor;
pub use piece::ChessPiece;
pub use moves::ChessMove;
pub use game::ChessGame;
