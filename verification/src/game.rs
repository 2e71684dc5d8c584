//! The game state machine: the board, the special-rule state, the cached
//! legal-move lists, and the move-application pipeline that keeps them
//! consistent.

use vstd::prelude::*;
use crate::color::{ChessColor, color_index, opposite_spec};
use crate::piece::ChessPiece;
use crate::piece::is_pawn;
use crate::moves::{ChessMove, mv_to_spec};
use crate::model::{
    GameModel, GenState, all_wf, applies_spec, board_after_spec, ck_after_spec, cn_geom_k,
    cn_geom_q, cq_after_spec, ep_after_spec, ep_slot_wf, find_moves_spec, gives_check,
    initial_model, is_legal_spec, keep_legal, legal_moves_spec, model_wf, moves_of, mv_castle_spec,
    mv_en_passant_spec, mv_in_range, mv_wf, promo_spec, recompute_spec, step_game_spec,
    targets_any3, to_gen, with_board,
};
use crate::lemmas::lemma_find_moves_wf;

verus! {

/// Whether the side to move after the customary turn switch is in check.
#[derive(Debug, PartialEq, Eq, Structural)]
pub(crate) enum ChessState {
    Normal,
    Check,
}

/// One game of chess.
///
/// The abstract value of a game (its [`view`](View::view)) is a
/// [`GameModel`]; every public operation states its effect against that
/// model. The cached legal-move lists are recomputed synchronously at the
/// end of every applied move, never lazily, and stay valid for both colors
/// whether or not the turn has been switched.
#[derive(Debug)]
pub struct ChessGame {
    pub(crate) board: [ChessPiece; 64],
    pub(crate) temp_board: [ChessPiece; 64],
    pub(crate) can_castle_k: [bool; 2],
    pub(crate) can_castle_q: [bool; 2],
    pub(crate) can_castle_now_k: [bool; 2],
    pub(crate) can_castle_now_q: [bool; 2],
    pub(crate) en_passant_loc: [Option<(usize, usize)>; 2],
    pub(crate) next_moves: [Vec<ChessMove>; 2],
    pub(crate) state: ChessState,
    /// The color whose turn it currently is. Can be modified in place, but
    /// the helper function [`ChessGame::switch_turn`] exists to swap it.
    pub turn: ChessColor,
}

/// The generation state a game currently holds.
pub(crate) open spec fn gs_of(g: &ChessGame) -> GenState {
    GenState {
        board: g.board@,
        ep: g.en_passant_loc@,
        ck: g.can_castle_k@,
        cq: g.can_castle_q@,
        cnk: g.can_castle_now_k@,
        cnq: g.can_castle_now_q@,
        turn: g.turn,
    }
}

impl View for ChessGame {
    type V = GameModel;

    closed spec fn view(&self) -> GameModel {
        GameModel {
            board: self.board@,
            ep: self.en_passant_loc@,
            ck: self.can_castle_k@,
            cq: self.can_castle_q@,
            cnk: self.can_castle_now_k@,
            cnq: self.can_castle_now_q@,
            moves_w: self.next_moves@[0]@,
            moves_b: self.next_moves@[1]@,
            check: self.state == ChessState::Check,
            turn: self.turn,
        }
    }
}

/// Relates a game's abstract value to its fields, for the modules that
/// implement generation over the fields directly.
pub(crate) proof fn lemma_view_fields(g: &ChessGame)
    ensures
        g@.board == g.board@,
        g@.ep == g.en_passant_loc@,
        g@.ck == g.can_castle_k@,
        g@.cq == g.can_castle_q@,
        g@.cnk == g.can_castle_now_k@,
        g@.cnq == g.can_castle_now_q@,
        g@.moves_w == g.next_moves@[0]@,
        g@.moves_b == g.next_moves@[1]@,
        g@.check == (g.state == ChessState::Check),
        g@.turn == g.turn,
        crate::model::to_gen(g@) == gs_of(g),
{
    assert(crate::model::to_gen(g@) =~= gs_of(g));
}

impl ChessGame {
    /// Returns an immutable reference to the current board. Index 0 is
    /// `a1` and the array follows rank-major order up to `h8`.
    pub fn get_board(&self) -> (r: &[ChessPiece; 64])
        ensures
            r@ == self@.board,
    {
        &self.board
    }

    /// Switches the turn; no other part of the state changes.
    pub fn switch_turn(&mut self)
        ensures
            final(self)@ == (GameModel { turn: opposite_spec(old(self)@.turn), ..old(self)@ }),
    {
        self.turn = self.turn.opposite();
        proof {
            assert(self@ =~= (GameModel { turn: opposite_spec(old(self)@.turn), ..old(self)@ }));
        }
    }

    /// Gets all legal moves for one `side`, as they were cached by the
    /// last applied move. This does not have to be the side whose turn it
    /// is right now.
    ///
    /// The order is generation order - the board scan per piece kind -
    /// and callers should rely on membership only.
    pub fn get_legal_moves(&self, side: &ChessColor) -> (r: Vec<ChessMove>)
        ensures
            r@ == moves_of(self@, *side),
    {
        let src: &Vec<ChessMove> = &self.next_moves[side.index()];
        let mut out: Vec<ChessMove> = Vec::new();
        let mut k: usize = 0;
        while k < src.len()
            invariant
                k <= src@.len(),
                out@ == src@.subrange(0, k as int),
            decreases src@.len() - k,
        {
            out.push(src[k]);
            proof {
                assert(src@.subrange(0, k + 1 as int) =~= src@.subrange(0, k as int).push(
                    src@[k as int],
                ));
            }
            k = k + 1;
        }
        proof {
            assert(out@ =~= src@);
        }
        out
    }

    /// Returns `true` if the game is over: the side to move has no legal
    /// move cached.
    pub fn is_ended(&self) -> (r: bool)
        ensures
            r == (moves_of(self@, self@.turn).len() == 0),
    {
        self.next_moves[self.turn.index()].is_empty()
    }

    /// Returns `true` if the current side is in check, as of the last
    /// applied move.
    pub fn is_check(&self) -> (r: bool)
        ensures
            r == self@.check,
    {
        self.state == ChessState::Check
    }

    /// Returns `true` if the game is over in checkmate.
    pub fn is_checkmate(&self) -> (r: bool)
        ensures
            r == (moves_of(self@, self@.turn).len() == 0 && self@.check),
    {
        self.is_ended() && self.is_check()
    }

    /// Returns `true` if the game is over in stalemate.
    pub fn is_stalemate(&self) -> (r: bool)
        ensures
            r == (moves_of(self@, self@.turn).len() == 0 && !self@.check),
    {
        self.is_ended() && !self.is_check()
    }

    /// Expands a move for promotion: a colored piece's move onto the last
    /// rank becomes the four promotion choices, any other colored piece's
    /// move stays alone, and a move of the empty piece yields nothing.
    pub fn mv_promotion(&self, mv: ChessMove) -> (r: Vec<ChessMove>)
        ensures
            r@ == promo_spec(mv),
    {
        let col = match mv.piece.color() {
            Some(col) => col,
            None => {
                let out: Vec<ChessMove> = Vec::new();
                proof {
                    assert(out@ =~= promo_spec(mv));
                }
                return out;
            },
        };
        let mut out: Vec<ChessMove> = Vec::new();
        if mv.target > 55 || mv.target < 8 {
            out.push(ChessMove { promotes: ChessPiece::R(col), ..mv });
            out.push(ChessMove { promotes: ChessPiece::N(col), ..mv });
            out.push(ChessMove { promotes: ChessPiece::B(col), ..mv });
            out.push(ChessMove { promotes: ChessPiece::Q(col), ..mv });
        } else {
            out.push(mv);
        }
        proof {
            assert(out@ =~= promo_spec(mv));
        }
        out
    }

    /// Builds the en-passant capture of the pawn standing on `origin`,
    /// landing on `target`.
    pub fn mv_en_passant(&self, origin: usize, target: usize) -> (r: ChessMove)
        requires
            origin < 64,
        ensures
            r == mv_en_passant_spec(self@.board, origin, target),
    {
        let piece = self.board[origin];
        let captures = match piece.color() {
            Some(col) => ChessPiece::P(col.opposite()),
            None => ChessPiece::Empty,
        };
        ChessMove {
            piece,
            origin,
            target,
            captures,
            promotes: ChessPiece::Empty,
            en_passant: true,
            castles: false,
        }
    }

    /// Builds the castling move of a side: kingside when `queens` is
    /// false, queenside otherwise.
    pub fn mv_castle(&self, side: &ChessColor, queens: bool) -> (r: ChessMove)
        ensures
            r == mv_castle_spec(*side, queens),
    {
        let king: usize = if *side == ChessColor::Wh {
            4
        } else {
            60
        };
        ChessMove {
            piece: ChessPiece::K(*side),
            origin: king,
            target: if queens {
                king - 2
            } else {
                king + 2
            },
            captures: ChessPiece::Empty,
            promotes: ChessPiece::Empty,
            en_passant: false,
            castles: true,
        }
    }
}

/// Whether any move in the list targets one of three given squares.
fn attacks_any(ms: &Vec<ChessMove>, a: usize, b: usize, c: usize) -> (r: bool)
    ensures
        r == targets_any3(ms@, a, b, c),
{
    let mut r = false;
    let mut k: usize = 0;
    while k < ms.len()
        invariant
            k <= ms@.len(),
            r ==> targets_any3(ms@, a, b, c),
            !r ==> (forall|j: int|
                0 <= j < k ==> !((#[trigger] ms@[j]).target == a || ms@[j].target == b
                    || ms@[j].target == c)),
        decreases ms@.len() - k,
    {
        let t = ms[k].target;
        if t == a || t == b || t == c {
            r = true;
        }
        k = k + 1;
    }
    r
}

/// Whether any move in the list captures the king of `opp`.
fn any_captures_king(ms: &Vec<ChessMove>, opp: ChessColor) -> (r: bool)
    ensures
        r == gives_check(ms@, opp),
{
    let mut r = false;
    let mut k: usize = 0;
    while k < ms.len()
        invariant
            k <= ms@.len(),
            r ==> gives_check(ms@, opp),
            !r ==> (forall|j: int|
                0 <= j < k ==> (#[trigger] ms@[j]).captures != ChessPiece::K(opp)),
        decreases ms@.len() - k,
    {
        if ms[k].captures == ChessPiece::K(opp) {
            r = true;
        }
        k = k + 1;
    }
    r
}

impl ChessGame {
    /// The raw board effect of a move, with no recomputation of derived
    /// state: used both by move application and by the legality filter's
    /// simulation. A move whose piece does not match its origin square is
    /// a no-op.
    pub(crate) fn board_effect(&mut self, mv: &ChessMove)
        requires
            mv_in_range(*mv, old(self).turn),
        ensures
            final(self).board@ == board_after_spec(old(self).board@, *mv, old(self).turn),
            final(self).temp_board == old(self).temp_board,
            final(self).can_castle_k == old(self).can_castle_k,
            final(self).can_castle_q == old(self).can_castle_q,
            final(self).can_castle_now_k == old(self).can_castle_now_k,
            final(self).can_castle_now_q == old(self).can_castle_now_q,
            final(self).en_passant_loc == old(self).en_passant_loc,
            final(self).next_moves == old(self).next_moves,
            final(self).state == old(self).state,
            final(self).turn == old(self).turn,
    {
        if !matches!(mv.piece, ChessPiece::Empty) {
            if !(self.board[mv.origin] == mv.piece) {
                return ;
            }
            self.board[mv.target] = if matches!(mv.promotes, ChessPiece::Empty) {
                mv.piece
            } else {
                mv.promotes
            };
            self.board[mv.origin] = ChessPiece::Empty;

            if mv.en_passant {
                let victim = if self.turn == ChessColor::Wh {
                    mv.target - 8
                } else {
                    mv.target + 8
                };
                self.board[victim] = ChessPiece::Empty;
            }

            if mv.castles {
                let queens = mv.target + 2 == mv.origin;
                let rook_origin = if queens {
                    mv.origin - 4
                } else {
                    mv.origin + 3
                };
                let rook_target = (mv.target + mv.origin) / 2;
                self.board[rook_target] = self.board[rook_origin];
                self.board[rook_origin] = ChessPiece::Empty;
            }
            proof {
                assert(self.board@ =~= board_after_spec(old(self).board@, *mv, old(self).turn));
            }
        }
    }

    /// Whether playing `mv` leaves `side`'s king safe: the move's raw
    /// effect is simulated on the board, the opponent's pseudo-legal
    /// moves are generated against the result, and the board is restored
    /// from the scratch copy unconditionally.
    pub(crate) fn is_move_legal(&mut self, side: &ChessColor, mv: &ChessMove) -> (r: bool)
        requires
            mv_in_range(*mv, old(self).turn),
            ep_slot_wf(old(self).en_passant_loc@[0]),
            ep_slot_wf(old(self).en_passant_loc@[1]),
        ensures
            r == is_legal_spec(gs_of(old(self)), *side, *mv),
            final(self).board == old(self).board,
            final(self).temp_board@ == old(self).board@,
            final(self).can_castle_k == old(self).can_castle_k,
            final(self).can_castle_q == old(self).can_castle_q,
            final(self).can_castle_now_k == old(self).can_castle_now_k,
            final(self).can_castle_now_q == old(self).can_castle_now_q,
            final(self).en_passant_loc == old(self).en_passant_loc,
            final(self).next_moves == old(self).next_moves,
            final(self).state == old(self).state,
            final(self).turn == old(self).turn,
    {
        self.temp_board = self.board;
        self.board_effect(mv);
        let opp = self.find_moves(&side.opposite());
        proof {
            assert(gs_of(self) =~= with_board(
                gs_of(old(self)),
                board_after_spec(old(self).board@, *mv, old(self).turn),
            ));
        }
        let mut ok = true;
        let mut k: usize = 0;
        while k < opp.len()
            invariant
                k <= opp@.len(),
                ok == (forall|j: int|
                    0 <= j < k ==> (#[trigger] opp@[j]).captures != ChessPiece::K(*side)),
            decreases opp@.len() - k,
        {
            if opp[k].captures == ChessPiece::K(*side) {
                ok = false;
            }
            k = k + 1;
        }
        self.board = self.temp_board;
        ok
    }

    /// The legal moves of a side: its pseudo-legal moves filtered through
    /// the king-safety simulation, in generation order.
    pub(crate) fn find_legal_moves(&mut self, side: &ChessColor) -> (r: Vec<ChessMove>)
        requires
            ep_slot_wf(old(self).en_passant_loc@[0]),
            ep_slot_wf(old(self).en_passant_loc@[1]),
        ensures
            r@ == legal_moves_spec(gs_of(old(self)), *side),
            final(self).board == old(self).board,
            final(self).can_castle_k == old(self).can_castle_k,
            final(self).can_castle_q == old(self).can_castle_q,
            final(self).can_castle_now_k == old(self).can_castle_now_k,
            final(self).can_castle_now_q == old(self).can_castle_now_q,
            final(self).en_passant_loc == old(self).en_passant_loc,
            final(self).next_moves == old(self).next_moves,
            final(self).state == old(self).state,
            final(self).turn == old(self).turn,
    {
        let moves = self.find_moves(side);
        let ghost gs0 = gs_of(self);
        proof {
            lemma_find_moves_wf(gs0, *side);
        }
        let mut out: Vec<ChessMove> = Vec::new();
        let mut k: usize = 0;
        while k < moves.len()
            invariant
                k <= moves@.len(),
                gs_of(self) == gs0,
                gs0 == gs_of(old(self)),
                self.board == old(self).board,
                self.can_castle_k == old(self).can_castle_k,
                self.can_castle_q == old(self).can_castle_q,
                self.can_castle_now_k == old(self).can_castle_now_k,
                self.can_castle_now_q == old(self).can_castle_now_q,
                self.en_passant_loc == old(self).en_passant_loc,
                self.next_moves == old(self).next_moves,
                self.state == old(self).state,
                self.turn == old(self).turn,
                moves@ == find_moves_spec(gs0, *side),
                all_wf(moves@),
                ep_slot_wf(self.en_passant_loc@[0]),
                ep_slot_wf(self.en_passant_loc@[1]),
                out@ == keep_legal(gs0, *side, moves@.subrange(0, k as int)),
            decreases moves@.len() - k,
        {
            let m = moves[k];
            proof {
                assert(mv_wf(moves@[k as int]));
            }
            if self.is_move_legal(side, &m) {
                out.push(m);
            }
            proof {
                assert(moves@.subrange(0, (k + 1) as int).drop_last() =~= moves@.subrange(
                    0,
                    k as int,
                ));
                assert(moves@.subrange(0, (k + 1) as int).last() == moves@[k as int]);
                assert(out@ =~= keep_legal(gs0, *side, moves@.subrange(0, (k + 1) as int)));
            }
            k = k + 1;
        }
        proof {
            assert(moves@.subrange(0, moves@.len() as int) =~= moves@);
        }
        out
    }

    /// Recomputes the en-passant window from the move just applied: a
    /// pawn double step records the two flanking squares, anything else
    /// clears both descriptors.
    fn update_ep(&mut self, mv: &ChessMove)
        requires
            is_pawn(mv.piece) ==> mv.origin < 64 && mv.target < 64,
        ensures
            final(self).en_passant_loc@ == ep_after_spec(*mv),
            ep_slot_wf(final(self).en_passant_loc@[0]),
            ep_slot_wf(final(self).en_passant_loc@[1]),
            final(self).board == old(self).board,
            final(self).temp_board == old(self).temp_board,
            final(self).can_castle_k == old(self).can_castle_k,
            final(self).can_castle_q == old(self).can_castle_q,
            final(self).can_castle_now_k == old(self).can_castle_now_k,
            final(self).can_castle_now_q == old(self).can_castle_now_q,
            final(self).next_moves == old(self).next_moves,
            final(self).state == old(self).state,
            final(self).turn == old(self).turn,
    {
        let is_p = matches!(mv.piece, ChessPiece::P(_));
        let dbl = if mv.origin >= mv.target {
            mv.origin - mv.target == 16
        } else {
            mv.target - mv.origin == 16
        };
        if is_p && dbl {
            let lane = (mv.origin + mv.target) / 2;
            let mut slot0: Option<(usize, usize)> = None;
            let mut slot1: Option<(usize, usize)> = None;
            match self.step_real(mv.target, 1, 0) {
                Some(loc) => slot0 = Some((loc, lane)),
                None => {},
            }
            match self.step_real(mv.target, -1, 0) {
                Some(loc) => slot1 = Some((loc, lane)),
                None => {},
            }
            self.en_passant_loc = [slot0, slot1];
        } else {
            self.en_passant_loc = [None, None];
        }
        proof {
            assert(self.en_passant_loc@ =~= ep_after_spec(*mv));
        }
    }

    /// Revokes the persistent castling rights the move just applied
    /// forfeits: any king move revokes both of its color's rights, and a
    /// rook moving from an original corner revokes that corner's side.
    fn update_rights(&mut self, mv: &ChessMove)
        ensures
            final(self).can_castle_k@ == ck_after_spec(old(self).can_castle_k@, *mv),
            final(self).can_castle_q@ == cq_after_spec(old(self).can_castle_q@, *mv),
            final(self).board == old(self).board,
            final(self).temp_board == old(self).temp_board,
            final(self).can_castle_now_k == old(self).can_castle_now_k,
            final(self).can_castle_now_q == old(self).can_castle_now_q,
            final(self).en_passant_loc == old(self).en_passant_loc,
            final(self).next_moves == old(self).next_moves,
            final(self).state == old(self).state,
            final(self).turn == old(self).turn,
    {
        match mv.piece {
            ChessPiece::K(side) => {
                let ix = side.index();
                self.can_castle_k[ix] = false;
                self.can_castle_q[ix] = false;
            },
            ChessPiece::R(side) => {
                if mv.origin == 0 || mv.origin == 56 {
                    self.can_castle_q[side.index()] = false;
                } else if mv.origin == 7 || mv.origin == 63 {
                    self.can_castle_k[side.index()] = false;
                }
            },
            _ => {},
        }
        proof {
            assert(self.can_castle_k@ =~= ck_after_spec(old(self).can_castle_k@, *mv));
            assert(self.can_castle_q@ =~= cq_after_spec(old(self).can_castle_q@, *mv));
        }
    }

    /// Recomputes every piece of derived state after a move's board
    /// effect, in order: the en-passant window, castling-right
    /// revocation, both colors' legal-move caches, the currently-
    /// available castling flags (from clear paths and the squares the
    /// first caches target), both caches once more under the new flags,
    /// and the check flag for the side to move.
    #[verifier::rlimit(100)]
    fn recompute(&mut self, mv: &ChessMove)
        requires
            ep_slot_wf(old(self).en_passant_loc@[0]),
            ep_slot_wf(old(self).en_passant_loc@[1]),
            is_pawn(mv.piece) ==> mv.origin < 64 && mv.target < 64,
        ensures
            final(self)@ == recompute_spec(old(self)@, *mv),
            final(self).board == old(self).board,
            model_wf(final(self)@),
    {
        self.update_ep(mv);
        self.update_rights(mv);
        let ghost s1 = GameModel {
            ep: ep_after_spec(*mv),
            ck: ck_after_spec(old(self)@.ck, *mv),
            cq: cq_after_spec(old(self)@.cq, *mv),
            ..old(self)@
        };
        proof {
            lemma_view_fields(old(self));
            assert(self.can_castle_k@ =~= ck_after_spec(old(self).can_castle_k@, *mv));
            assert(self.can_castle_q@ =~= cq_after_spec(old(self).can_castle_q@, *mv));
            lemma_view_fields(self);
            assert(self@ =~= s1);
            assert(gs_of(self) =~= to_gen(s1));
        }

        let mw1 = self.find_legal_moves(&ChessColor::Wh);
        let mb1 = self.find_legal_moves(&ChessColor::Bl);
        proof {
            assert(mw1@ == legal_moves_spec(to_gen(s1), ChessColor::Wh));
            assert(mb1@ == legal_moves_spec(to_gen(s1), ChessColor::Bl));
        }

        let aq_w = attacks_any(&mb1, 2, 3, 4);
        let ak_w = attacks_any(&mb1, 4, 5, 6);
        let aq_b = attacks_any(&mw1, 58, 59, 60);
        let ak_b = attacks_any(&mw1, 60, 61, 62);
        let gq_w = self.board[1] == ChessPiece::Empty && self.board[2] == ChessPiece::Empty
            && self.board[3] == ChessPiece::Empty;
        let gk_w = self.board[5] == ChessPiece::Empty && self.board[6] == ChessPiece::Empty;
        let gq_b = self.board[57] == ChessPiece::Empty && self.board[58] == ChessPiece::Empty
            && self.board[59] == ChessPiece::Empty;
        let gk_b = self.board[61] == ChessPiece::Empty && self.board[62] == ChessPiece::Empty;
        self.can_castle_now_k = [gk_w && !ak_w, gk_b && !ak_b];
        self.can_castle_now_q = [gq_w && !aq_w, gq_b && !aq_b];

        let ghost s2 = GameModel {
            cnk: seq![
                cn_geom_k(s1.board, ChessColor::Wh) && !targets_any3(
                    legal_moves_spec(to_gen(s1), ChessColor::Bl),
                    4,
                    5,
                    6,
                ),
                cn_geom_k(s1.board, ChessColor::Bl) && !targets_any3(
                    legal_moves_spec(to_gen(s1), ChessColor::Wh),
                    60,
                    61,
                    62,
                ),
            ],
            cnq: seq![
                cn_geom_q(s1.board, ChessColor::Wh) && !targets_any3(
                    legal_moves_spec(to_gen(s1), ChessColor::Bl),
                    2,
                    3,
                    4,
                ),
                cn_geom_q(s1.board, ChessColor::Bl) && !targets_any3(
                    legal_moves_spec(to_gen(s1), ChessColor::Wh),
                    58,
                    59,
                    60,
                ),
            ],
            ..s1
        };
        proof {
            lemma_view_fields(self);
            assert(self@ =~= s2);
            assert(gs_of(self) =~= to_gen(s2));
        }

        let mw2 = self.find_legal_moves(&ChessColor::Wh);
        let mb2 = self.find_legal_moves(&ChessColor::Bl);
        proof {
            assert(mw2@ == legal_moves_spec(to_gen(s2), ChessColor::Wh));
            assert(mb2@ == legal_moves_spec(to_gen(s2), ChessColor::Bl));
        }
        let chk = if self.turn == ChessColor::Wh {
            any_captures_king(&mw2, self.turn.opposite())
        } else {
            any_captures_king(&mb2, self.turn.opposite())
        };
        let ghost mw2v = mw2@;
        let ghost mb2v = mb2@;
        self.next_moves[0] = mw2;
        self.next_moves[1] = mb2;
        self.state = if chk {
            ChessState::Check
        } else {
            ChessState::Normal
        };
        proof {
            lemma_view_fields(self);
            assert(self@ =~= (GameModel {
                moves_w: legal_moves_spec(to_gen(s2), ChessColor::Wh),
                moves_b: legal_moves_spec(to_gen(s2), ChessColor::Bl),
                check: gives_check(
                    if old(self)@.turn == ChessColor::Wh {
                        legal_moves_spec(to_gen(s2), ChessColor::Wh)
                    } else {
                        legal_moves_spec(to_gen(s2), ChessColor::Bl)
                    },
                    opposite_spec(old(self)@.turn),
                ),
                ..s2
            }));
            assert(self@ =~= recompute_spec(old(self)@, *mv));
        }
    }

    /// Plays the provided move. A move whose piece does not match the
    /// board's occupant at its origin is rejected: the call returns
    /// `false` and the game is left unmodified. Otherwise the board takes
    /// the move's raw effect, every piece of derived state is recomputed,
    /// and the call returns `true`. This does not switch the turn, which
    /// must be done using [`ChessGame::switch_turn`].
    pub fn apply_move(&mut self, mv: &ChessMove) -> (r: bool)
        requires
            mv_in_range(*mv, old(self)@.turn),
            model_wf(old(self)@),
        ensures
            r == applies_spec(old(self)@, *mv),
            r ==> final(self)@ == step_game_spec(old(self)@, *mv),
            r ==> model_wf(final(self)@),
            !r ==> *final(self) == *old(self),
    {
        proof {
            lemma_view_fields(old(self));
        }
        if !matches!(mv.piece, ChessPiece::Empty) {
            if !(self.board[mv.origin] == mv.piece) {
                return false;
            }
        }
        self.board_effect(mv);
        let ghost se = GameModel {
            board: board_after_spec(old(self)@.board, *mv, old(self)@.turn),
            ..old(self)@
        };
        proof {
            lemma_view_fields(self);
            assert(self@ =~= se);
        }
        self.recompute(mv);
        proof {
            assert(self@ == recompute_spec(se, *mv));
            assert(self@ =~= step_game_spec(old(self)@, *mv));
        }
        true
    }

    /// Creates a new game with the standard starting position, all
    /// castling rights enabled, and the derived state recomputed.
    pub fn new() -> (r: ChessGame)
        ensures
            r@ == step_game_spec(initial_model(), mv_to_spec(ChessPiece::Empty, 16, 16)),
            model_wf(r@),
    {
        let board: [ChessPiece; 64] = [
            ChessPiece::R(ChessColor::Wh),
            ChessPiece::N(ChessColor::Wh),
            ChessPiece::B(ChessColor::Wh),
            ChessPiece::Q(ChessColor::Wh),
            ChessPiece::K(ChessColor::Wh),
            ChessPiece::B(ChessColor::Wh),
            ChessPiece::N(ChessColor::Wh),
            ChessPiece::R(ChessColor::Wh),
            ChessPiece::P(ChessColor::Wh),
            ChessPiece::P(ChessColor::Wh),
            ChessPiece::P(ChessColor::Wh),
            ChessPiece::P(ChessColor::Wh),
            ChessPiece::P(ChessColor::Wh),
            ChessPiece::P(ChessColor::Wh),
            ChessPiece::P(ChessColor::Wh),
            ChessPiece::P(ChessColor::Wh),
            ChessPiece::Empty,
            ChessPiece::Empty,
            ChessPiece::Empty,
            ChessPiece::Empty,
            ChessPiece::Empty,
            ChessPiece::Empty,
            ChessPiece::Empty,
            ChessPiece::Empty,
            ChessPiece::Empty,
            ChessPiece::Empty,
            ChessPiece::Empty,
            ChessPiece::Empty,
            ChessPiece::Empty,
            ChessPiece::Empty,
            ChessPiece::Empty,
            ChessPiece::Empty,
            ChessPiece::Empty,
            ChessPiece::Empty,
            ChessPiece::Empty,
            ChessPiece::Empty,
            ChessPiece::Empty,
            ChessPiece::Empty,
            ChessPiece::Empty,
            ChessPiece::Empty,
            ChessPiece::Empty,
            ChessPiece::Empty,
            ChessPiece::Empty,
            ChessPiece::Empty,
            ChessPiece::Empty,
            ChessPiece::Empty,
            ChessPiece::Empty,
            ChessPiece::Empty,
            ChessPiece::P(ChessColor::Bl),
            ChessPiece::P(ChessColor::Bl),
            ChessPiece::P(ChessColor::Bl),
            ChessPiece::P(ChessColor::Bl),
            ChessPiece::P(ChessColor::Bl),
            ChessPiece::P(ChessColor::Bl),
            ChessPiece::P(ChessColor::Bl),
            ChessPiece::P(ChessColor::Bl),
            ChessPiece::R(ChessColor::Bl),
            ChessPiece::N(ChessColor::Bl),
            ChessPiece::B(ChessColor::Bl),
            ChessPiece::Q(ChessColor::Bl),
            ChessPiece::K(ChessColor::Bl),
            ChessPiece::B(ChessColor::Bl),
            ChessPiece::N(ChessColor::Bl),
            ChessPiece::R(ChessColor::Bl),
        ];
        let mut game = ChessGame {
            board,
            temp_board: [ChessPiece::Empty; 64],
            can_castle_k: [true, true],
            can_castle_q: [true, true],
            can_castle_now_k: [false, false],
            can_castle_now_q: [false, false],
            en_passant_loc: [None, None],
            next_moves: [Vec::new(), Vec::new()],
            state: ChessState::Normal,
            turn: ChessColor::Wh,
        };
        proof {
            lemma_view_fields(&game);
            assert(game@.board =~= crate::model::start_board());
            assert(game@ =~= initial_model());
        }
        let applied = game.apply_move(&ChessMove::to(ChessPiece::Empty, 16, 16));
        game
    }

    /// Loads a custom board into the game and recomputes the derived
    /// state. Disables castling for both players, which can be turned
    /// back on using [`ChessGame::set_castle_eligibility`] or
    /// [`ChessGame::set_all_castle_eligibility`]. Castling only works
    /// correctly when the king is placed in its normal location.
    pub fn load_board(&mut self, board: [ChessPiece; 64])
        requires
            model_wf(old(self)@),
        ensures
            final(self)@ == step_game_spec(
                GameModel { board: board@, ck: seq![false, false], cq: seq![false, false], ..old(
                    self,
                )@ },
                mv_to_spec(ChessPiece::Empty, 16, 16),
            ),
            model_wf(final(self)@),
    {
        self.board = board;
        self.can_castle_k = [false, false];
        self.can_castle_q = [false, false];
        let ghost s0 = GameModel {
            board: board@,
            ck: seq![false, false],
            cq: seq![false, false],
            ..old(self)@
        };
        proof {
            lemma_view_fields(old(self));
            lemma_view_fields(self);
            assert(self@ =~= s0);
            assert(model_wf(self@));
        }
        let applied = self.apply_move(&ChessMove::to(ChessPiece::Empty, 16, 16));
    }

    /// Sets the eligibility to castle for one player (`side`) on either
    /// queens or kings side, then recomputes the derived state. When
    /// `queens` is true the queenside eligibility is set to `state`,
    /// otherwise the kingside one.
    ///
    /// This can be useful after running [`ChessGame::load_board`] with
    /// custom boards.
    pub fn set_castle_eligibility(&mut self, side: &ChessColor, queens: bool, state: bool)
        requires
            model_wf(old(self)@),
        ensures
            final(self)@ == step_game_spec(
                if queens {
                    GameModel { cq: old(self)@.cq.update(color_index(*side), state), ..old(
                        self,
                    )@ }
                } else {
                    GameModel { ck: old(self)@.ck.update(color_index(*side), state), ..old(
                        self,
                    )@ }
                },
                mv_to_spec(ChessPiece::Empty, 0, 0),
            ),
            model_wf(final(self)@),
    {
        if queens {
            self.can_castle_q[side.index()] = state;
        } else {
            self.can_castle_k[side.index()] = state;
        }
        proof {
            lemma_view_fields(old(self));
            lemma_view_fields(self);
            if queens {
                assert(self@ =~= (GameModel {
                    cq: old(self)@.cq.update(color_index(*side), state),
                    ..old(self)@
                }));
            } else {
                assert(self@ =~= (GameModel {
                    ck: old(self)@.ck.update(color_index(*side), state),
                    ..old(self)@
                }));
            }
        }
        let applied = self.apply_move(&ChessMove::to(ChessPiece::Empty, 0, 0));
    }

    /// Sets the castle eligibility for both black and white on kings and
    /// queens side, then recomputes the derived state. The arguments are
    /// arrays indexed by [`ChessColor::index`].
    ///
    /// This can be useful after running [`ChessGame::load_board`] with
    /// custom boards.
    pub fn set_all_castle_eligibility(&mut self, kings: [bool; 2], queens: [bool; 2])
        requires
            model_wf(old(self)@),
        ensures
            final(self)@ == step_game_spec(
                GameModel { ck: kings@, cq: queens@, ..old(self)@ },
                mv_to_spec(ChessPiece::Empty, 0, 0),
            ),
            model_wf(final(self)@),
    {
        self.can_castle_q = queens;
        self.can_castle_k = kings;
        proof {
            lemma_view_fields(old(self));
            lemma_view_fields(self);
            assert(self@ =~= (GameModel { ck: kings@, cq: queens@, ..old(self)@ }));
        }
        let applied = self.apply_move(&ChessMove::to(ChessPiece::Empty, 0, 0));
    }
}

} // verus!
