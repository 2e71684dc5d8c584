//! The pseudo-legal move generator: per-piece-kind move enumeration that
//! ignores whether the resulting position leaves the mover's king exposed.

use vstd::prelude::*;
use crate::color::ChessColor;
use crate::piece::ChessPiece;
use crate::moves::{ChessMove, mv_captures_spec};
use crate::model::{
    bishop_moves_spec, ep_slot_wf, find_moves_spec, holds_opponent, jump_moves, king_moves_spec,
    knight_moves_spec, occupied, off_spec, pawn_moves_spec, pstep_spec, queen_moves_spec,
    pawn_cap_moves, pawn_ep_moves, pawn_fwd_moves, ray_moves, rook_moves_spec, scan_moves,
};
use crate::game::{ChessGame, gs_of, lemma_view_fields};

verus! {

impl ChessGame {
    /// A color-relative step from square `i`: the rank delta is scaled by
    /// the side's forward direction, and a step off the board yields no
    /// target.
    pub(crate) fn step(&self, i: usize, dx: i32, dy: i32, side: &ChessColor) -> (r: Option<usize>)
        requires
            i < 64,
            -2 <= dx <= 2,
            -2 <= dy <= 2,
        ensures
            r == pstep_spec(i as int, dx as int, dy as int, *side),
    {
        let rdy: i32 = dy * side.dir();
        let x = (i % 8) as i32 + dx;
        let y = (i / 8) as i32 + rdy;
        if 0 <= x && x <= 7 && 0 <= y && y <= 7 {
            Some((8 * y + x) as usize)
        } else {
            None
        }
    }

    /// A board-absolute step from square `i`, with no color scaling.
    pub(crate) fn step_real(&self, i: usize, dx: i32, dy: i32) -> (r: Option<usize>)
        requires
            i < 64,
            -8 <= dx <= 8,
            -8 <= dy <= 8,
        ensures
            r == off_spec(i as int, dx as int, dy as int),
    {
        let x = (i % 8) as i32 + dx;
        let y = (i / 8) as i32 + dy;
        if 0 <= x && x <= 7 && 0 <= y && y <= 7 {
            Some((8 * y + x) as usize)
        } else {
            None
        }
    }

    /// Whether square `i` holds any piece.
    pub(crate) fn collides(&self, i: usize) -> (r: bool)
        requires
            i < 64,
        ensures
            r == occupied(self.board@, i as int),
    {
        self.board[i] != ChessPiece::Empty
    }

    /// Whether square `i` holds a piece of the opponent of `side`.
    pub(crate) fn collides_opponent(&self, i: usize, side: &ChessColor) -> (r: bool)
        requires
            i < 64,
        ensures
            r == holds_opponent(self.board@, i as int, *side),
    {
        match self.board[i].color() {
            Some(col) => col == side.opposite(),
            None => false,
        }
    }

    /// Builds the capture by the piece on `origin` of the piece on
    /// `target`.
    pub(crate) fn mv_captures(&self, origin: usize, target: usize) -> (r: ChessMove)
        requires
            origin < 64,
            target < 64,
        ensures
            r == mv_captures_spec(
                self.board@[origin as int],
                origin,
                target,
                self.board@[target as int],
            ),
    {
        ChessMove::captures(self.board[origin], origin, target, self.board[target])
    }

    /// Appends the move, if any, that one fixed knight or king offset
    /// contributes.
    fn jump_move(&self, i: usize, dx: i32, dy: i32, out: &mut Vec<ChessMove>, side: &ChessColor)
        requires
            i < 64,
            -2 <= dx <= 2,
            -2 <= dy <= 2,
        ensures
            final(out)@ == old(out)@ + jump_moves(self.board@, i, dx as int, dy as int, *side),
    {
        match self.step_real(i, dx, dy) {
            Some(t) => {
                if self.collides_opponent(t, side) {
                    out.push(self.mv_captures(i, t));
                } else if !self.collides(t) {
                    out.push(ChessMove::to(self.board[i], i, t));
                }
            },
            None => {},
        }
        proof {
            assert(out@ =~= old(out)@ + jump_moves(self.board@, i, dx as int, dy as int, *side));
        }
    }

    /// Appends the moves of one sliding ray from its `j`-th step outward:
    /// the ray stops at the edge or at the first occupied square, adding a
    /// capture when that square holds an opponent.
    fn ray_moves_from(
        &self,
        i: usize,
        dx: i32,
        dy: i32,
        j: usize,
        out: &mut Vec<ChessMove>,
        side: &ChessColor,
    )
        requires
            i < 64,
            -1 <= dx <= 1,
            -1 <= dy <= 1,
            1 <= j <= 8,
        ensures
            final(out)@ == old(out)@ + ray_moves(self.board@, i, dx as int, dy as int, j as int, *side),
        decreases 8 - j,
    {
        if j > 7 {
            proof {
                assert(out@ =~= old(out)@ + ray_moves(
                    self.board@,
                    i,
                    dx as int,
                    dy as int,
                    j as int,
                    *side,
                ));
            }
            return ;
        }
        proof {
            assert(-8 <= dx as int * j as int <= 8 && -8 <= dy as int * j as int <= 8)
                by (nonlinear_arith)
                requires
                    -1 <= dx as int <= 1,
                    -1 <= dy as int <= 1,
                    1 <= j as int <= 8,
            ;
        }
        match self.step_real(i, dx * (j as i32), dy * (j as i32)) {
            Some(t) => {
                if self.collides_opponent(t, side) {
                    out.push(self.mv_captures(i, t));
                } else if !self.collides(t) {
                    out.push(ChessMove::to(self.board[i], i, t));
                    self.ray_moves_from(i, dx, dy, j + 1, out, side);
                }
            },
            None => {},
        }
        proof {
            assert(out@ =~= old(out)@ + ray_moves(
                self.board@,
                i,
                dx as int,
                dy as int,
                j as int,
                *side,
            ));
        }
    }

    /// Appends the forward moves of the pawn on square `i`: one step
    /// onto an empty square with promotion expansion, and a home-rank
    /// double step when that square is empty too.
    fn pawn_fwd(&self, i: usize, out: &mut Vec<ChessMove>, side: &ChessColor)
        requires
            i < 64,
        ensures
            final(out)@ == old(out)@ + pawn_fwd_moves(self.board@, i, *side),
    {
        let piece = self.board[i];
        let mut blocked = true;
        let mut pos: usize = 0;
        match self.step(i, 0, 1, side) {
            Some(t) => {
                blocked = self.collides(t);
                pos = t;
            },
            None => {},
        }
        if !blocked {
            let mut promos = self.mv_promotion(ChessMove::to(piece, i, pos));
            out.append(&mut promos);
            if (i < 16 && i > 7) || (i < 56 && i > 47) {
                match self.step(i, 0, 2, side) {
                    Some(t2) => {
                        if !self.collides(t2) {
                            out.push(ChessMove::to(piece, i, t2));
                        }
                    },
                    None => {},
                }
            }
        }
        proof {
            assert(out@ =~= old(out)@ + pawn_fwd_moves(self.board@, i, *side));
        }
    }

    /// Appends the diagonal-forward capture of the pawn on square `i`
    /// toward file delta `dx`, with promotion expansion.
    fn pawn_cap(&self, i: usize, dx: i32, out: &mut Vec<ChessMove>, side: &ChessColor)
        requires
            i < 64,
            dx == 1 || dx == -1,
        ensures
            final(out)@ == old(out)@ + pawn_cap_moves(self.board@, i, dx as int, *side),
    {
        match self.step(i, dx, 1, side) {
            Some(t) => {
                if self.collides_opponent(t, side) {
                    let mut promos = self.mv_promotion(self.mv_captures(i, t));
                    out.append(&mut promos);
                }
            },
            None => {},
        }
        proof {
            assert(out@ =~= old(out)@ + pawn_cap_moves(self.board@, i, dx as int, *side));
        }
    }

    /// Appends the en-passant capture the descriptor in slot `k` offers
    /// the pawn on square `i`, if any.
    fn pawn_ep(&self, i: usize, k: usize, out: &mut Vec<ChessMove>)
        requires
            k < 2,
            ep_slot_wf(self.en_passant_loc@[k as int]),
        ensures
            final(out)@ == old(out)@ + pawn_ep_moves(self.board@, self.en_passant_loc@[k as int], i),
    {
        proof {
            lemma_view_fields(self);
        }
        match self.en_passant_loc[k] {
            Some((eo, et)) => {
                if i == eo {
                    out.push(self.mv_en_passant(eo, et));
                }
            },
            None => {},
        }
        proof {
            assert(out@ =~= old(out)@ + pawn_ep_moves(
                self.board@,
                self.en_passant_loc@[k as int],
                i,
            ));
        }
    }

    /// Appends all moves of the pawn on square `i`: forward steps with
    /// promotion expansion, a home-rank double step, diagonal captures,
    /// and the recorded en-passant captures.
    pub(crate) fn pawn_moves(&self, i: usize, out: &mut Vec<ChessMove>, side: &ChessColor)
        requires
            i < 64,
            ep_slot_wf(self.en_passant_loc@[0]),
            ep_slot_wf(self.en_passant_loc@[1]),
        ensures
            final(out)@ == old(out)@ + pawn_moves_spec(self.board@, self.en_passant_loc@, i, *side),
    {
        self.pawn_fwd(i, out, side);
        self.pawn_cap(i, 1, out, side);
        self.pawn_cap(i, -1, out, side);
        self.pawn_ep(i, 0, out);
        self.pawn_ep(i, 1, out);
        proof {
            let b = self.board@;
            let ep = self.en_passant_loc@;
            let o = old(out)@;
            let p1 = pawn_fwd_moves(b, i, *side);
            let p2 = pawn_cap_moves(b, i, 1, *side);
            let p3 = pawn_cap_moves(b, i, -1, *side);
            let p4 = pawn_ep_moves(b, ep[0], i);
            let p5 = pawn_ep_moves(b, ep[1], i);
            vstd::seq_lib::lemma_concat_associative(o, p1, p2);
            vstd::seq_lib::lemma_concat_associative(o, p1 + p2, p3);
            vstd::seq_lib::lemma_concat_associative(o, p1 + p2 + p3, p4);
            vstd::seq_lib::lemma_concat_associative(o, p1 + p2 + p3 + p4, p5);
            assert(out@ == o + pawn_moves_spec(b, ep, i, *side));
        }
    }

    /// Appends all moves of the rook on square `i`: the four axis-aligned
    /// rays.
    pub(crate) fn rook_moves(&self, i: usize, out: &mut Vec<ChessMove>, side: &ChessColor)
        requires
            i < 64,
        ensures
            final(out)@ == old(out)@ + rook_moves_spec(self.board@, i, *side),
    {
        self.ray_moves_from(i, 0, 1, 1, out, side);
        self.ray_moves_from(i, 1, 0, 1, out, side);
        self.ray_moves_from(i, 0, -1, 1, out, side);
        self.ray_moves_from(i, -1, 0, 1, out, side);
        proof {
            assert(out@ =~= old(out)@ + rook_moves_spec(self.board@, i, *side));
        }
    }

    /// Appends all moves of the knight on square `i`: the eight fixed
    /// offsets.
    #[verifier::rlimit(80)]
    pub(crate) fn knight_moves(&self, i: usize, out: &mut Vec<ChessMove>, side: &ChessColor)
        requires
            i < 64,
        ensures
            final(out)@ == old(out)@ + knight_moves_spec(self.board@, i, *side),
    {
        self.jump_move(i, 1, 2, out, side);
        self.jump_move(i, -1, 2, out, side);
        self.jump_move(i, 1, -2, out, side);
        self.jump_move(i, -1, -2, out, side);
        self.jump_move(i, 2, 1, out, side);
        self.jump_move(i, -2, 1, out, side);
        self.jump_move(i, 2, -1, out, side);
        self.jump_move(i, -2, -1, out, side);
        proof {
            let b = self.board@;
            let o = old(out)@;
            let j1 = jump_moves(b, i, 1, 2, *side);
            let j2 = jump_moves(b, i, -1, 2, *side);
            let j3 = jump_moves(b, i, 1, -2, *side);
            let j4 = jump_moves(b, i, -1, -2, *side);
            let j5 = jump_moves(b, i, 2, 1, *side);
            let j6 = jump_moves(b, i, -2, 1, *side);
            let j7 = jump_moves(b, i, 2, -1, *side);
            let j8 = jump_moves(b, i, -2, -1, *side);
            vstd::seq_lib::lemma_concat_associative(o, j1, j2);
            vstd::seq_lib::lemma_concat_associative(o, j1 + j2, j3);
            vstd::seq_lib::lemma_concat_associative(o, j1 + j2 + j3, j4);
            vstd::seq_lib::lemma_concat_associative(o, j1 + j2 + j3 + j4, j5);
            vstd::seq_lib::lemma_concat_associative(o, j1 + j2 + j3 + j4 + j5, j6);
            vstd::seq_lib::lemma_concat_associative(o, j1 + j2 + j3 + j4 + j5 + j6, j7);
            vstd::seq_lib::lemma_concat_associative(o, j1 + j2 + j3 + j4 + j5 + j6 + j7, j8);
            assert(out@ == o + knight_moves_spec(b, i, *side));
        }
    }

    /// Appends all moves of the bishop on square `i`: the four diagonal
    /// rays.
    pub(crate) fn bishop_moves(&self, i: usize, out: &mut Vec<ChessMove>, side: &ChessColor)
        requires
            i < 64,
        ensures
            final(out)@ == old(out)@ + bishop_moves_spec(self.board@, i, *side),
    {
        self.ray_moves_from(i, 1, 1, 1, out, side);
        self.ray_moves_from(i, -1, 1, 1, out, side);
        self.ray_moves_from(i, 1, -1, 1, out, side);
        self.ray_moves_from(i, -1, -1, 1, out, side);
        proof {
            assert(out@ =~= old(out)@ + bishop_moves_spec(self.board@, i, *side));
        }
    }

    /// Appends all moves of the queen on square `i`: the rook rays, then
    /// the bishop rays.
    pub(crate) fn queen_moves(&self, i: usize, out: &mut Vec<ChessMove>, side: &ChessColor)
        requires
            i < 64,
        ensures
            final(out)@ == old(out)@ + queen_moves_spec(self.board@, i, *side),
    {
        self.rook_moves(i, out, side);
        self.bishop_moves(i, out, side);
        proof {
            assert(out@ =~= old(out)@ + queen_moves_spec(self.board@, i, *side));
        }
    }

    /// Appends all moves of the king on square `i` (castling aside): the
    /// eight adjacent squares.
    #[verifier::rlimit(80)]
    pub(crate) fn king_moves(&self, i: usize, out: &mut Vec<ChessMove>, side: &ChessColor)
        requires
            i < 64,
        ensures
            final(out)@ == old(out)@ + king_moves_spec(self.board@, i, *side),
    {
        self.jump_move(i, 0, 1, out, side);
        self.jump_move(i, 1, 1, out, side);
        self.jump_move(i, 1, 0, out, side);
        self.jump_move(i, 1, -1, out, side);
        self.jump_move(i, 0, -1, out, side);
        self.jump_move(i, -1, -1, out, side);
        self.jump_move(i, -1, 0, out, side);
        self.jump_move(i, -1, 1, out, side);
        proof {
            let b = self.board@;
            let o = old(out)@;
            let j1 = jump_moves(b, i, 0, 1, *side);
            let j2 = jump_moves(b, i, 1, 1, *side);
            let j3 = jump_moves(b, i, 1, 0, *side);
            let j4 = jump_moves(b, i, 1, -1, *side);
            let j5 = jump_moves(b, i, 0, -1, *side);
            let j6 = jump_moves(b, i, -1, -1, *side);
            let j7 = jump_moves(b, i, -1, 0, *side);
            let j8 = jump_moves(b, i, -1, 1, *side);
            vstd::seq_lib::lemma_concat_associative(o, j1, j2);
            vstd::seq_lib::lemma_concat_associative(o, j1 + j2, j3);
            vstd::seq_lib::lemma_concat_associative(o, j1 + j2 + j3, j4);
            vstd::seq_lib::lemma_concat_associative(o, j1 + j2 + j3 + j4, j5);
            vstd::seq_lib::lemma_concat_associative(o, j1 + j2 + j3 + j4 + j5, j6);
            vstd::seq_lib::lemma_concat_associative(o, j1 + j2 + j3 + j4 + j5 + j6, j7);
            vstd::seq_lib::lemma_concat_associative(o, j1 + j2 + j3 + j4 + j5 + j6 + j7, j8);
            assert(out@ == o + king_moves_spec(b, i, *side));
        }
    }

    /// All pseudo-legal moves of `side` on the current board: every square
    /// is scanned in order and dispatched to its piece kind's generator,
    /// and the castling moves are appended when both the persistent right
    /// and the currently-available flag hold.
    pub(crate) fn find_moves(&self, side: &ChessColor) -> (r: Vec<ChessMove>)
        requires
            ep_slot_wf(self.en_passant_loc@[0]),
            ep_slot_wf(self.en_passant_loc@[1]),
        ensures
            r@ == find_moves_spec(gs_of(self), *side),
    {
        let mut out: Vec<ChessMove> = Vec::new();
        let mut i: usize = 0;
        while i < 64
            invariant
                i <= 64,
                ep_slot_wf(self.en_passant_loc@[0]),
                ep_slot_wf(self.en_passant_loc@[1]),
                out@ == scan_moves(self.board@, self.en_passant_loc@, *side, i as nat),
            decreases 64 - i,
        {
            let mine = match self.board[i].color() {
                Some(col) => col == *side,
                None => false,
            };
            if mine {
                match self.board[i] {
                    ChessPiece::P(_) => self.pawn_moves(i, &mut out, side),
                    ChessPiece::R(_) => self.rook_moves(i, &mut out, side),
                    ChessPiece::N(_) => self.knight_moves(i, &mut out, side),
                    ChessPiece::B(_) => self.bishop_moves(i, &mut out, side),
                    ChessPiece::Q(_) => self.queen_moves(i, &mut out, side),
                    ChessPiece::K(_) => self.king_moves(i, &mut out, side),
                    ChessPiece::Empty => {},
                }
            }
            proof {
                assert(out@ =~= scan_moves(
                    self.board@,
                    self.en_passant_loc@,
                    *side,
                    (i + 1) as nat,
                ));
            }
            i = i + 1;
        }

        if self.can_castle_k[side.index()] && self.can_castle_now_k[side.index()] {
            out.push(self.mv_castle(side, false));
        }
        if self.can_castle_q[side.index()] && self.can_castle_now_q[side.index()] {
            out.push(self.mv_castle(side, true));
        }
        proof {
            assert(out@ =~= find_moves_spec(gs_of(self), *side));
        }
        out
    }
}

} // verus!
