//! Proofs that the move generator only emits well-formed moves, so that
//! the legality filter can simulate any generated move without leaving
//! the board.

use vstd::prelude::*;
use crate::color::ChessColor;
use crate::piece::ChessPiece;
use crate::moves::ChessMove;
use crate::model::{
    GenState, all_wf, bishop_moves_spec, ep_slot_wf, find_moves_spec, jump_moves, king_moves_spec,
    knight_moves_spec, mv_castle_spec, mv_wf, pawn_cap_moves, pawn_ep_moves, pawn_fwd_moves,
    pawn_moves_spec, promo_spec, queen_moves_spec, ray_moves, rook_moves_spec, scan_moves,
    square_moves,
};

verus! {

/// Well-formedness is preserved by list concatenation.
pub proof fn lemma_all_wf_concat(a: Seq<ChessMove>, b: Seq<ChessMove>)
    requires
        all_wf(a),
        all_wf(b),
    ensures
        all_wf(a + b),
{
    assert forall|k: int| 0 <= k < (a + b).len() implies mv_wf(#[trigger] (a + b)[k]) by {
        if k < a.len() {
            assert(mv_wf(a[k]));
        } else {
            assert(mv_wf(b[k - a.len()]));
        }
    }
}

/// Promotion expansion preserves a move's squares and flags.
pub proof fn lemma_promo_wf(m: ChessMove)
    requires
        mv_wf(m),
    ensures
        all_wf(promo_spec(m)),
{
}

/// A knight or king offset only yields moves within the board.
pub proof fn lemma_jump_wf(b: Seq<ChessPiece>, i: usize, dx: int, dy: int, side: ChessColor)
    requires
        i < 64,
    ensures
        all_wf(jump_moves(b, i, dx, dy, side)),
{
}

/// A sliding ray only yields moves within the board.
pub proof fn lemma_ray_wf(b: Seq<ChessPiece>, i: usize, dx: int, dy: int, j: int, side: ChessColor)
    requires
        i < 64,
    ensures
        all_wf(ray_moves(b, i, dx, dy, j, side)),
    decreases 8 - j,
{
    if 1 <= j <= 7 {
        lemma_ray_wf(b, i, dx, dy, j + 1, side);
        let tail = ray_moves(b, i, dx, dy, j + 1, side);
        match crate::model::off_spec(i as int, dx * j, dy * j) {
            Some(t) => {
                if !crate::model::holds_opponent(b, t as int, side) && !crate::model::occupied(
                    b,
                    t as int,
                ) {
                    lemma_all_wf_concat(seq![crate::moves::mv_to_spec(b[i as int], i, t)], tail);
                }
            },
            None => {},
        }
    }
}

/// A pawn's forward moves stay within the board.
pub proof fn lemma_pawn_fwd_wf(b: Seq<ChessPiece>, i: usize, side: ChessColor)
    requires
        i < 64,
    ensures
        all_wf(pawn_fwd_moves(b, i, side)),
{
    match crate::model::pstep_spec(i as int, 0, 1, side) {
        Some(t) => {
            if !crate::model::occupied(b, t as int) {
                lemma_promo_wf(crate::moves::mv_to_spec(b[i as int], i, t));
                assert forall|k: int|
                    0 <= k < pawn_fwd_moves(b, i, side).len() implies mv_wf(
                    #[trigger] pawn_fwd_moves(b, i, side)[k],
                ) by {
                    let promos = promo_spec(crate::moves::mv_to_spec(b[i as int], i, t));
                    if k < promos.len() {
                        assert(mv_wf(promos[k]));
                    }
                }
            }
        },
        None => {},
    }
}

/// A pawn's diagonal capture stays within the board.
pub proof fn lemma_pawn_cap_wf(b: Seq<ChessPiece>, i: usize, dx: int, side: ChessColor)
    requires
        i < 64,
    ensures
        all_wf(pawn_cap_moves(b, i, dx, side)),
{
    match crate::model::pstep_spec(i as int, dx, 1, side) {
        Some(t) => {
            if crate::model::holds_opponent(b, t as int, side) {
                lemma_promo_wf(crate::moves::mv_captures_spec(b[i as int], i, t, b[t as int]));
            }
        },
        None => {},
    }
}

/// An en-passant capture drawn from a well-formed descriptor stays within
/// the board.
pub proof fn lemma_pawn_ep_wf(b: Seq<ChessPiece>, slot: Option<(usize, usize)>, i: usize)
    requires
        ep_slot_wf(slot),
    ensures
        all_wf(pawn_ep_moves(b, slot, i)),
{
}

/// All of a pawn's moves stay within the board.
pub proof fn lemma_pawn_wf(
    b: Seq<ChessPiece>,
    ep: Seq<Option<(usize, usize)>>,
    i: usize,
    side: ChessColor,
)
    requires
        i < 64,
        ep.len() == 2,
        ep_slot_wf(ep[0]),
        ep_slot_wf(ep[1]),
    ensures
        all_wf(pawn_moves_spec(b, ep, i, side)),
{
    lemma_pawn_fwd_wf(b, i, side);
    lemma_pawn_cap_wf(b, i, 1, side);
    lemma_pawn_cap_wf(b, i, -1, side);
    lemma_pawn_ep_wf(b, ep[0], i);
    lemma_pawn_ep_wf(b, ep[1], i);
    lemma_all_wf_concat(pawn_fwd_moves(b, i, side), pawn_cap_moves(b, i, 1, side));
    lemma_all_wf_concat(
        pawn_fwd_moves(b, i, side) + pawn_cap_moves(b, i, 1, side),
        pawn_cap_moves(b, i, -1, side),
    );
    lemma_all_wf_concat(
        pawn_fwd_moves(b, i, side) + pawn_cap_moves(b, i, 1, side) + pawn_cap_moves(
            b,
            i,
            -1,
            side,
        ),
        pawn_ep_moves(b, ep[0], i),
    );
    lemma_all_wf_concat(
        pawn_fwd_moves(b, i, side) + pawn_cap_moves(b, i, 1, side) + pawn_cap_moves(b, i, -1, side)
            + pawn_ep_moves(b, ep[0], i),
        pawn_ep_moves(b, ep[1], i),
    );
}

/// All of a rook's moves stay within the board.
pub proof fn lemma_rook_wf(b: Seq<ChessPiece>, i: usize, side: ChessColor)
    requires
        i < 64,
    ensures
        all_wf(rook_moves_spec(b, i, side)),
{
    lemma_ray_wf(b, i, 0, 1, 1, side);
    lemma_ray_wf(b, i, 1, 0, 1, side);
    lemma_ray_wf(b, i, 0, -1, 1, side);
    lemma_ray_wf(b, i, -1, 0, 1, side);
    lemma_all_wf_concat(ray_moves(b, i, 0, 1, 1, side), ray_moves(b, i, 1, 0, 1, side));
    lemma_all_wf_concat(
        ray_moves(b, i, 0, 1, 1, side) + ray_moves(b, i, 1, 0, 1, side),
        ray_moves(b, i, 0, -1, 1, side),
    );
    lemma_all_wf_concat(
        ray_moves(b, i, 0, 1, 1, side) + ray_moves(b, i, 1, 0, 1, side) + ray_moves(
            b,
            i,
            0,
            -1,
            1,
            side,
        ),
        ray_moves(b, i, -1, 0, 1, side),
    );
}

/// All of a bishop's moves stay within the board.
pub proof fn lemma_bishop_wf(b: Seq<ChessPiece>, i: usize, side: ChessColor)
    requires
        i < 64,
    ensures
        all_wf(bishop_moves_spec(b, i, side)),
{
    lemma_ray_wf(b, i, 1, 1, 1, side);
    lemma_ray_wf(b, i, -1, 1, 1, side);
    lemma_ray_wf(b, i, 1, -1, 1, side);
    lemma_ray_wf(b, i, -1, -1, 1, side);
    lemma_all_wf_concat(ray_moves(b, i, 1, 1, 1, side), ray_moves(b, i, -1, 1, 1, side));
    lemma_all_wf_concat(
        ray_moves(b, i, 1, 1, 1, side) + ray_moves(b, i, -1, 1, 1, side),
        ray_moves(b, i, 1, -1, 1, side),
    );
    lemma_all_wf_concat(
        ray_moves(b, i, 1, 1, 1, side) + ray_moves(b, i, -1, 1, 1, side) + ray_moves(
            b,
            i,
            1,
            -1,
            1,
            side,
        ),
        ray_moves(b, i, -1, -1, 1, side),
    );
}

/// All of a queen's moves stay within the board.
pub proof fn lemma_queen_wf(b: Seq<ChessPiece>, i: usize, side: ChessColor)
    requires
        i < 64,
    ensures
        all_wf(queen_moves_spec(b, i, side)),
{
    lemma_rook_wf(b, i, side);
    lemma_bishop_wf(b, i, side);
    lemma_all_wf_concat(rook_moves_spec(b, i, side), bishop_moves_spec(b, i, side));
}

/// All of a knight's moves stay within the board.
pub proof fn lemma_knight_wf(b: Seq<ChessPiece>, i: usize, side: ChessColor)
    requires
        i < 64,
    ensures
        all_wf(knight_moves_spec(b, i, side)),
{
    assert forall|k: int|
        0 <= k < knight_moves_spec(b, i, side).len() implies mv_wf(
        #[trigger] knight_moves_spec(b, i, side)[k],
    ) by {
        lemma_jump_wf(b, i, 1, 2, side);
        lemma_jump_wf(b, i, -1, 2, side);
        lemma_jump_wf(b, i, 1, -2, side);
        lemma_jump_wf(b, i, -1, -2, side);
        lemma_jump_wf(b, i, 2, 1, side);
        lemma_jump_wf(b, i, -2, 1, side);
        lemma_jump_wf(b, i, 2, -1, side);
        lemma_jump_wf(b, i, -2, -1, side);
    }
}

/// All of a king's step moves stay within the board.
pub proof fn lemma_king_wf(b: Seq<ChessPiece>, i: usize, side: ChessColor)
    requires
        i < 64,
    ensures
        all_wf(king_moves_spec(b, i, side)),
{
    assert forall|k: int|
        0 <= k < king_moves_spec(b, i, side).len() implies mv_wf(
        #[trigger] king_moves_spec(b, i, side)[k],
    ) by {
        lemma_jump_wf(b, i, 0, 1, side);
        lemma_jump_wf(b, i, 1, 1, side);
        lemma_jump_wf(b, i, 1, 0, side);
        lemma_jump_wf(b, i, 1, -1, side);
        lemma_jump_wf(b, i, 0, -1, side);
        lemma_jump_wf(b, i, -1, -1, side);
        lemma_jump_wf(b, i, -1, 0, side);
        lemma_jump_wf(b, i, -1, 1, side);
    }
}

/// All moves a square contributes stay within the board.
pub proof fn lemma_square_wf(
    b: Seq<ChessPiece>,
    ep: Seq<Option<(usize, usize)>>,
    i: usize,
    side: ChessColor,
)
    requires
        i < 64,
        ep.len() == 2,
        ep_slot_wf(ep[0]),
        ep_slot_wf(ep[1]),
    ensures
        all_wf(square_moves(b, ep, i, side)),
{
    if crate::piece::piece_color_spec(b[i as int]) == Some(side) {
        match b[i as int] {
            ChessPiece::P(_) => lemma_pawn_wf(b, ep, i, side),
            ChessPiece::R(_) => lemma_rook_wf(b, i, side),
            ChessPiece::N(_) => lemma_knight_wf(b, i, side),
            ChessPiece::B(_) => lemma_bishop_wf(b, i, side),
            ChessPiece::Q(_) => lemma_queen_wf(b, i, side),
            ChessPiece::K(_) => lemma_king_wf(b, i, side),
            ChessPiece::Empty => {},
        }
    }
}

/// All moves the board scan contributes stay within the board.
pub proof fn lemma_scan_wf(
    b: Seq<ChessPiece>,
    ep: Seq<Option<(usize, usize)>>,
    side: ChessColor,
    n: nat,
)
    requires
        n <= 64,
        ep.len() == 2,
        ep_slot_wf(ep[0]),
        ep_slot_wf(ep[1]),
    ensures
        all_wf(scan_moves(b, ep, side, n)),
    decreases n,
{
    if n > 0 {
        lemma_scan_wf(b, ep, side, (n - 1) as nat);
        lemma_square_wf(b, ep, (n - 1) as usize, side);
        lemma_all_wf_concat(
            scan_moves(b, ep, side, (n - 1) as nat),
            square_moves(b, ep, (n - 1) as usize, side),
        );
    }
}

/// Every move the generator emits is well-formed: the board scan, and the
/// two castling moves.
pub proof fn lemma_find_moves_wf(gs: GenState, side: ChessColor)
    requires
        gs.ep.len() == 2,
        ep_slot_wf(gs.ep[0]),
        ep_slot_wf(gs.ep[1]),
    ensures
        all_wf(find_moves_spec(gs, side)),
{
    lemma_scan_wf(gs.board, gs.ep, side, 64);
    assert(mv_wf(mv_castle_spec(side, false)));
    assert(mv_wf(mv_castle_spec(side, true)));
    assert forall|k: int|
        0 <= k < find_moves_spec(gs, side).len() implies mv_wf(
        #[trigger] find_moves_spec(gs, side)[k],
    ) by {
        let sc = scan_moves(gs.board, gs.ep, side, 64);
        if k < sc.len() {
            assert(mv_wf(sc[k]));
        }
    }
}

} // verus!
