//! The library's laws: properties of the move generator and of move
//! application that hold on every state, proved once and for all.

use vstd::prelude::*;
use crate::color::{ChessColor, opposite_spec};
use crate::piece::{ChessPiece, is_pawn, piece_color_spec};
use crate::moves::{ChessMove, algebraic_spec};
use crate::model::{
    GameModel, GenState, bishop_moves_spec, board_after_spec, ep_slot_wf, find_moves_spec,
    is_legal_spec, jump_moves, keep_legal, king_moves_spec, knight_moves_spec, last_rank,
    legal_moves_spec, moves_of, pawn_cap_moves, pawn_ep_moves, pawn_fwd_moves, pawn_moves_spec,
    promo_spec, ray_moves, rook_moves_spec, scan_moves, square_moves, with_board,
};

verus! {

/// Whether a move occurs in a list.
pub open spec fn contains_mv(ms: Seq<ChessMove>, m: ChessMove) -> bool {
    exists|j: int| 0 <= j < ms.len() && ms[j] == m
}

/// The four promotion variants of a move all occur in a list.
pub open spec fn promo_family_in(ms: Seq<ChessMove>, m: ChessMove) -> bool {
    match piece_color_spec(m.piece) {
        Some(col) => {
            &&& contains_mv(ms, ChessMove { promotes: ChessPiece::R(col), ..m })
            &&& contains_mv(ms, ChessMove { promotes: ChessPiece::N(col), ..m })
            &&& contains_mv(ms, ChessMove { promotes: ChessPiece::B(col), ..m })
            &&& contains_mv(ms, ChessMove { promotes: ChessPiece::Q(col), ..m })
        },
        None => true,
    }
}

/// What full promotion expansion asks of one move in a list: if it is a
/// pawn move onto the last rank, it carries a promotion piece of its own
/// color, and all four promotion choices of the same underlying move
/// occur in the list.
pub open spec fn promo_move_ok(ms: Seq<ChessMove>, m: ChessMove) -> bool {
    is_pawn(m.piece) && last_rank(m.target) ==> {
        &&& match (piece_color_spec(m.piece), m.promotes) {
            (Some(col), ChessPiece::R(pc)) => pc == col,
            (Some(col), ChessPiece::N(pc)) => pc == col,
            (Some(col), ChessPiece::B(pc)) => pc == col,
            (Some(col), ChessPiece::Q(pc)) => pc == col,
            _ => false,
        }
        &&& promo_family_in(ms, m)
    }
}

/// Full promotion expansion over a whole list: every pawn move onto the
/// last rank is promoted - the unpromoted move never occurs - and comes
/// with all four promotion choices.
pub open spec fn promo_sound(ms: Seq<ChessMove>) -> bool {
    forall|k: int| 0 <= k < ms.len() ==> promo_move_ok(ms, #[trigger] ms[k])
}

/// A move found in the left part of a concatenation is in the whole.
proof fn lemma_contains_lift_left(a: Seq<ChessMove>, b: Seq<ChessMove>, m: ChessMove)
    requires
        contains_mv(a, m),
    ensures
        contains_mv(a + b, m),
{
    let j = choose|j: int| 0 <= j < a.len() && a[j] == m;
    assert((a + b)[j] == m);
}

/// A move found in the right part of a concatenation is in the whole.
proof fn lemma_contains_lift_right(a: Seq<ChessMove>, b: Seq<ChessMove>, m: ChessMove)
    requires
        contains_mv(b, m),
    ensures
        contains_mv(a + b, m),
{
    let j = choose|j: int| 0 <= j < b.len() && b[j] == m;
    assert((a + b)[a.len() + j] == m);
}

/// Full promotion expansion is preserved by concatenation.
proof fn lemma_promo_sound_concat(a: Seq<ChessMove>, b: Seq<ChessMove>)
    requires
        promo_sound(a),
        promo_sound(b),
    ensures
        promo_sound(a + b),
{
    assert forall|k: int| 0 <= k < (a + b).len() implies promo_move_ok(a + b, #[trigger] (a
        + b)[k]) by {
        if k < a.len() {
            let m = a[k];
            assert(promo_move_ok(a, m));
            if is_pawn(m.piece) && last_rank(m.target) {
                match piece_color_spec(m.piece) {
                    Some(col) => {
                        lemma_contains_lift_left(
                            a,
                            b,
                            ChessMove { promotes: ChessPiece::R(col), ..m },
                        );
                        lemma_contains_lift_left(
                            a,
                            b,
                            ChessMove { promotes: ChessPiece::N(col), ..m },
                        );
                        lemma_contains_lift_left(
                            a,
                            b,
                            ChessMove { promotes: ChessPiece::B(col), ..m },
                        );
                        lemma_contains_lift_left(
                            a,
                            b,
                            ChessMove { promotes: ChessPiece::Q(col), ..m },
                        );
                    },
                    None => {},
                }
            }
        } else {
            let m = b[k - a.len()];
            assert(promo_move_ok(b, m));
            if is_pawn(m.piece) && last_rank(m.target) {
                match piece_color_spec(m.piece) {
                    Some(col) => {
                        lemma_contains_lift_right(
                            a,
                            b,
                            ChessMove { promotes: ChessPiece::R(col), ..m },
                        );
                        lemma_contains_lift_right(
                            a,
                            b,
                            ChessMove { promotes: ChessPiece::N(col), ..m },
                        );
                        lemma_contains_lift_right(
                            a,
                            b,
                            ChessMove { promotes: ChessPiece::B(col), ..m },
                        );
                        lemma_contains_lift_right(
                            a,
                            b,
                            ChessMove { promotes: ChessPiece::Q(col), ..m },
                        );
                    },
                    None => {},
                }
            }
        }
    }
}

/// Promotion expansion of one base move yields exactly the four promotion
/// choices - rook, knight, bishop, queen, in that order - whenever the
/// base move carries a colored piece onto the last rank; the unpromoted
/// move is not among them.
pub proof fn lemma_promotion_expansion(m: ChessMove)
    requires
        piece_color_spec(m.piece) is Some,
        last_rank(m.target),
    ensures
        promo_spec(m).len() == 4,
        promo_spec(m)[0] == (ChessMove {
            promotes: ChessPiece::R(piece_color_spec(m.piece)->Some_0),
            ..m
        }),
        promo_spec(m)[1] == (ChessMove {
            promotes: ChessPiece::N(piece_color_spec(m.piece)->Some_0),
            ..m
        }),
        promo_spec(m)[2] == (ChessMove {
            promotes: ChessPiece::B(piece_color_spec(m.piece)->Some_0),
            ..m
        }),
        promo_spec(m)[3] == (ChessMove {
            promotes: ChessPiece::Q(piece_color_spec(m.piece)->Some_0),
            ..m
        }),
        forall|j: int| 0 <= j < 4 ==> promo_spec(m)[j].promotes != ChessPiece::Empty,
{
}

/// A promotion block is fully expanded: each of its elements carries a
/// promotion piece and has its whole family beside it.
proof fn lemma_promo_block_sound(m: ChessMove)
    requires
        is_pawn(m.piece),
        m.promotes == ChessPiece::Empty,
    ensures
        promo_sound(promo_spec(m)),
{
    let col = piece_color_spec(m.piece)->Some_0;
    if last_rank(m.target) {
        let ms = promo_spec(m);
        assert forall|k: int| 0 <= k < ms.len() implies promo_move_ok(ms, #[trigger] ms[k]) by {
            let e = ms[k];
            assert(e.piece == m.piece && e.target == m.target && e.origin == m.origin && e.captures
                == m.captures && e.en_passant == m.en_passant && e.castles == m.castles);
            assert((ChessMove { promotes: ChessPiece::R(col), ..e }) == ms[0]);
            assert((ChessMove { promotes: ChessPiece::N(col), ..e }) == ms[1]);
            assert((ChessMove { promotes: ChessPiece::B(col), ..e }) == ms[2]);
            assert((ChessMove { promotes: ChessPiece::Q(col), ..e }) == ms[3]);
        }
    } else {
        assert forall|k: int|
            0 <= k < promo_spec(m).len() implies promo_move_ok(
            promo_spec(m),
            #[trigger] promo_spec(m)[k],
        ) by {
            assert(promo_spec(m)[k] == m);
        }
    }
}

/// A pawn's forward moves are fully expanded: the single step promotes on
/// the last rank, and the double step never reaches it.
proof fn lemma_pawn_fwd_promo(b: Seq<ChessPiece>, i: usize, side: ChessColor)
    requires
        i < 64,
        b[i as int] == ChessPiece::P(side),
    ensures
        promo_sound(pawn_fwd_moves(b, i, side)),
{
    match crate::model::pstep_spec(i as int, 0, 1, side) {
        Some(t) => {
            if !crate::model::occupied(b, t as int) {
                let base = crate::moves::mv_to_spec(b[i as int], i, t);
                lemma_promo_block_sound(base);
                if (i < 16 && i > 7) || (i < 56 && i > 47) {
                    match crate::model::pstep_spec(i as int, 0, 2, side) {
                        Some(t2) => {
                            assert(!last_rank(t2));
                            if !crate::model::occupied(b, t2 as int) {
                                lemma_promo_sound_concat(
                                    promo_spec(base),
                                    seq![crate::moves::mv_to_spec(b[i as int], i, t2)],
                                );
                            } else {
                                lemma_promo_sound_concat(
                                    promo_spec(base),
                                    Seq::<ChessMove>::empty(),
                                );
                            }
                        },
                        None => {
                            lemma_promo_sound_concat(promo_spec(base), Seq::<ChessMove>::empty());
                        },
                    }
                } else {
                    lemma_promo_sound_concat(promo_spec(base), Seq::<ChessMove>::empty());
                }
            }
        },
        None => {},
    }
}

/// A pawn's diagonal capture is fully expanded.
proof fn lemma_pawn_cap_promo(b: Seq<ChessPiece>, i: usize, dx: int, side: ChessColor)
    requires
        i < 64,
        b[i as int] == ChessPiece::P(side),
    ensures
        promo_sound(pawn_cap_moves(b, i, dx, side)),
{
    match crate::model::pstep_spec(i as int, dx, 1, side) {
        Some(t) => {
            if crate::model::holds_opponent(b, t as int, side) {
                lemma_promo_block_sound(
                    crate::moves::mv_captures_spec(b[i as int], i, t, b[t as int]),
                );
            }
        },
        None => {},
    }
}

/// An en-passant capture from a well-formed descriptor never lands on the
/// last rank, so it needs no expansion.
proof fn lemma_pawn_ep_promo(b: Seq<ChessPiece>, slot: Option<(usize, usize)>, i: usize)
    requires
        ep_slot_wf(slot),
    ensures
        promo_sound(pawn_ep_moves(b, slot, i)),
{
}

/// All of a pawn's moves are fully expanded.
proof fn lemma_pawn_promo(
    b: Seq<ChessPiece>,
    ep: Seq<Option<(usize, usize)>>,
    i: usize,
    side: ChessColor,
)
    requires
        i < 64,
        ep.len() == 2,
        ep_slot_wf(ep[0]),
        ep_slot_wf(ep[1]),
        b[i as int] == ChessPiece::P(side),
    ensures
        promo_sound(pawn_moves_spec(b, ep, i, side)),
{
    lemma_pawn_fwd_promo(b, i, side);
    lemma_pawn_cap_promo(b, i, 1, side);
    lemma_pawn_cap_promo(b, i, -1, side);
    lemma_pawn_ep_promo(b, ep[0], i);
    lemma_pawn_ep_promo(b, ep[1], i);
    lemma_promo_sound_concat(pawn_fwd_moves(b, i, side), pawn_cap_moves(b, i, 1, side));
    lemma_promo_sound_concat(
        pawn_fwd_moves(b, i, side) + pawn_cap_moves(b, i, 1, side),
        pawn_cap_moves(b, i, -1, side),
    );
    lemma_promo_sound_concat(
        pawn_fwd_moves(b, i, side) + pawn_cap_moves(b, i, 1, side) + pawn_cap_moves(
            b,
            i,
            -1,
            side,
        ),
        pawn_ep_moves(b, ep[0], i),
    );
    lemma_promo_sound_concat(
        pawn_fwd_moves(b, i, side) + pawn_cap_moves(b, i, 1, side) + pawn_cap_moves(b, i, -1, side)
            + pawn_ep_moves(b, ep[0], i),
        pawn_ep_moves(b, ep[1], i),
    );
}

/// A knight or king offset yields no pawn move when no pawn stands on
/// the square, so its moves are trivially fully expanded.
proof fn lemma_jump_promo(b: Seq<ChessPiece>, i: usize, dx: int, dy: int, side: ChessColor)
    requires
        !is_pawn(b[i as int]),
    ensures
        promo_sound(jump_moves(b, i, dx, dy, side)),
{
}

/// A sliding ray yields no pawn move when no pawn stands on the square,
/// so its moves are trivially fully expanded.
proof fn lemma_ray_promo(
    b: Seq<ChessPiece>,
    i: usize,
    dx: int,
    dy: int,
    j: int,
    side: ChessColor,
)
    requires
        !is_pawn(b[i as int]),
    ensures
        promo_sound(ray_moves(b, i, dx, dy, j, side)),
    decreases 8 - j,
{
    if 1 <= j <= 7 {
        lemma_ray_promo(b, i, dx, dy, j + 1, side);
        match crate::model::off_spec(i as int, dx * j, dy * j) {
            Some(t) => {
                if !crate::model::holds_opponent(b, t as int, side) && !crate::model::occupied(
                    b,
                    t as int,
                ) {
                    lemma_promo_sound_concat(
                        seq![crate::moves::mv_to_spec(b[i as int], i, t)],
                        ray_moves(b, i, dx, dy, j + 1, side),
                    );
                }
            },
            None => {},
        }
    }
}

/// A rook's moves are fully expanded when no pawn stands on the square.
proof fn lemma_rook_promo(b: Seq<ChessPiece>, i: usize, side: ChessColor)
    requires
        !is_pawn(b[i as int]),
    ensures
        promo_sound(rook_moves_spec(b, i, side)),
{
    lemma_ray_promo(b, i, 0, 1, 1, side);
    lemma_ray_promo(b, i, 1, 0, 1, side);
    lemma_ray_promo(b, i, 0, -1, 1, side);
    lemma_ray_promo(b, i, -1, 0, 1, side);
    lemma_promo_sound_concat(ray_moves(b, i, 0, 1, 1, side), ray_moves(b, i, 1, 0, 1, side));
    lemma_promo_sound_concat(
        ray_moves(b, i, 0, 1, 1, side) + ray_moves(b, i, 1, 0, 1, side),
        ray_moves(b, i, 0, -1, 1, side),
    );
    lemma_promo_sound_concat(
        ray_moves(b, i, 0, 1, 1, side) + ray_moves(b, i, 1, 0, 1, side) + ray_moves(
            b,
            i,
            0,
            -1,
            1,
            side,
        ),
        ray_moves(b, i, -1, 0, 1, side),
    );
}

/// A bishop's moves are fully expanded when no pawn stands on the square.
proof fn lemma_bishop_promo(b: Seq<ChessPiece>, i: usize, side: ChessColor)
    requires
        !is_pawn(b[i as int]),
    ensures
        promo_sound(bishop_moves_spec(b, i, side)),
{
    lemma_ray_promo(b, i, 1, 1, 1, side);
    lemma_ray_promo(b, i, -1, 1, 1, side);
    lemma_ray_promo(b, i, 1, -1, 1, side);
    lemma_ray_promo(b, i, -1, -1, 1, side);
    lemma_promo_sound_concat(ray_moves(b, i, 1, 1, 1, side), ray_moves(b, i, -1, 1, 1, side));
    lemma_promo_sound_concat(
        ray_moves(b, i, 1, 1, 1, side) + ray_moves(b, i, -1, 1, 1, side),
        ray_moves(b, i, 1, -1, 1, side),
    );
    lemma_promo_sound_concat(
        ray_moves(b, i, 1, 1, 1, side) + ray_moves(b, i, -1, 1, 1, side) + ray_moves(
            b,
            i,
            1,
            -1,
            1,
            side,
        ),
        ray_moves(b, i, -1, -1, 1, side),
    );
}

/// A knight's moves are fully expanded when no pawn stands on the square.
proof fn lemma_knight_promo(b: Seq<ChessPiece>, i: usize, side: ChessColor)
    requires
        !is_pawn(b[i as int]),
    ensures
        promo_sound(knight_moves_spec(b, i, side)),
{
    let j1 = jump_moves(b, i, 1, 2, side);
    let j2 = jump_moves(b, i, -1, 2, side);
    let j3 = jump_moves(b, i, 1, -2, side);
    let j4 = jump_moves(b, i, -1, -2, side);
    let j5 = jump_moves(b, i, 2, 1, side);
    let j6 = jump_moves(b, i, -2, 1, side);
    let j7 = jump_moves(b, i, 2, -1, side);
    let j8 = jump_moves(b, i, -2, -1, side);
    lemma_jump_promo(b, i, 1, 2, side);
    lemma_jump_promo(b, i, -1, 2, side);
    lemma_jump_promo(b, i, 1, -2, side);
    lemma_jump_promo(b, i, -1, -2, side);
    lemma_jump_promo(b, i, 2, 1, side);
    lemma_jump_promo(b, i, -2, 1, side);
    lemma_jump_promo(b, i, 2, -1, side);
    lemma_jump_promo(b, i, -2, -1, side);
    lemma_promo_sound_concat(j1, j2);
    lemma_promo_sound_concat(j1 + j2, j3);
    lemma_promo_sound_concat(j1 + j2 + j3, j4);
    lemma_promo_sound_concat(j1 + j2 + j3 + j4, j5);
    lemma_promo_sound_concat(j1 + j2 + j3 + j4 + j5, j6);
    lemma_promo_sound_concat(j1 + j2 + j3 + j4 + j5 + j6, j7);
    lemma_promo_sound_concat(j1 + j2 + j3 + j4 + j5 + j6 + j7, j8);
}

/// A king's step moves are fully expanded when no pawn stands on the
/// square.
proof fn lemma_king_promo(b: Seq<ChessPiece>, i: usize, side: ChessColor)
    requires
        !is_pawn(b[i as int]),
    ensures
        promo_sound(king_moves_spec(b, i, side)),
{
    let j1 = jump_moves(b, i, 0, 1, side);
    let j2 = jump_moves(b, i, 1, 1, side);
    let j3 = jump_moves(b, i, 1, 0, side);
    let j4 = jump_moves(b, i, 1, -1, side);
    let j5 = jump_moves(b, i, 0, -1, side);
    let j6 = jump_moves(b, i, -1, -1, side);
    let j7 = jump_moves(b, i, -1, 0, side);
    let j8 = jump_moves(b, i, -1, 1, side);
    lemma_jump_promo(b, i, 0, 1, side);
    lemma_jump_promo(b, i, 1, 1, side);
    lemma_jump_promo(b, i, 1, 0, side);
    lemma_jump_promo(b, i, 1, -1, side);
    lemma_jump_promo(b, i, 0, -1, side);
    lemma_jump_promo(b, i, -1, -1, side);
    lemma_jump_promo(b, i, -1, 0, side);
    lemma_jump_promo(b, i, -1, 1, side);
    lemma_promo_sound_concat(j1, j2);
    lemma_promo_sound_concat(j1 + j2, j3);
    lemma_promo_sound_concat(j1 + j2 + j3, j4);
    lemma_promo_sound_concat(j1 + j2 + j3 + j4, j5);
    lemma_promo_sound_concat(j1 + j2 + j3 + j4 + j5, j6);
    lemma_promo_sound_concat(j1 + j2 + j3 + j4 + j5 + j6, j7);
    lemma_promo_sound_concat(j1 + j2 + j3 + j4 + j5 + j6 + j7, j8);
}

/// All moves a square contributes are fully expanded: pawn moves through
/// the promotion rules, and every other piece kind's moves carry that
/// piece.
proof fn lemma_square_promo(
    b: Seq<ChessPiece>,
    ep: Seq<Option<(usize, usize)>>,
    i: usize,
    side: ChessColor,
)
    requires
        i < 64,
        ep.len() == 2,
        ep_slot_wf(ep[0]),
        ep_slot_wf(ep[1]),
    ensures
        promo_sound(square_moves(b, ep, i, side)),
{
    if piece_color_spec(b[i as int]) == Some(side) {
        match b[i as int] {
            ChessPiece::P(_) => lemma_pawn_promo(b, ep, i, side),
            ChessPiece::R(_) => lemma_rook_promo(b, i, side),
            ChessPiece::N(_) => lemma_knight_promo(b, i, side),
            ChessPiece::B(_) => lemma_bishop_promo(b, i, side),
            ChessPiece::Q(_) => {
                lemma_rook_promo(b, i, side);
                lemma_bishop_promo(b, i, side);
                lemma_promo_sound_concat(
                    rook_moves_spec(b, i, side),
                    bishop_moves_spec(b, i, side),
                );
            },
            ChessPiece::K(_) => lemma_king_promo(b, i, side),
            ChessPiece::Empty => {},
        }
    }
}

/// All moves the board scan contributes are fully expanded.
proof fn lemma_scan_promo(
    b: Seq<ChessPiece>,
    ep: Seq<Option<(usize, usize)>>,
    side: ChessColor,
    n: nat,
)
    requires
        n <= 64,
        ep.len() == 2,
        ep_slot_wf(ep[0]),
        ep_slot_wf(ep[1]),
    ensures
        promo_sound(scan_moves(b, ep, side, n)),
    decreases n,
{
    if n > 0 {
        lemma_scan_promo(b, ep, side, (n - 1) as nat);
        lemma_square_promo(b, ep, (n - 1) as usize, side);
        lemma_promo_sound_concat(
            scan_moves(b, ep, side, (n - 1) as nat),
            square_moves(b, ep, (n - 1) as usize, side),
        );
    }
}

/// Promotion is always expanded in the generated move list: a pawn move
/// reaching the last rank occurs only with a promotion piece of its own
/// color - never unpromoted - and each such move occurs together with all
/// four promotion choices of the same underlying move.
pub proof fn lemma_promotion_always_expanded(gs: GenState, side: ChessColor)
    requires
        gs.ep.len() == 2,
        ep_slot_wf(gs.ep[0]),
        ep_slot_wf(gs.ep[1]),
    ensures
        promo_sound(find_moves_spec(gs, side)),
{
    lemma_scan_promo(gs.board, gs.ep, side, 64);
    let sc = scan_moves(gs.board, gs.ep, side, 64);
    let ck_part = if gs.ck[crate::color::color_index(side)] && gs.cnk[crate::color::color_index(
        side,
    )] {
        seq![crate::model::mv_castle_spec(side, false)]
    } else {
        Seq::<ChessMove>::empty()
    };
    let cq_part = if gs.cq[crate::color::color_index(side)] && gs.cnq[crate::color::color_index(
        side,
    )] {
        seq![crate::model::mv_castle_spec(side, true)]
    } else {
        Seq::<ChessMove>::empty()
    };
    assert(promo_sound(ck_part));
    assert(promo_sound(cq_part));
    lemma_promo_sound_concat(sc, ck_part);
    lemma_promo_sound_concat(sc + ck_part, cq_part);
}

/// Every move the legality filter keeps passes the king-safety check.
proof fn lemma_keep_legal_sound(gs: GenState, side: ChessColor, ms: Seq<ChessMove>)
    ensures
        forall|k: int|
            0 <= k < keep_legal(gs, side, ms).len() ==> is_legal_spec(
                gs,
                side,
                #[trigger] keep_legal(gs, side, ms)[k],
            ),
    decreases ms.len(),
{
    if ms.len() > 0 {
        lemma_keep_legal_sound(gs, side, ms.drop_last());
        let pre = keep_legal(gs, side, ms.drop_last());
        let whole = keep_legal(gs, side, ms);
        assert forall|k: int| 0 <= k < whole.len() implies is_legal_spec(
            gs,
            side,
            #[trigger] whole[k],
        ) by {
            if k < pre.len() {
                assert(whole[k] == pre[k]);
                assert(is_legal_spec(gs, side, pre[k]));
            } else {
                assert(whole[k] == ms.last());
            }
        }
    }
}

/// The core legality invariant: for every move the library reports legal,
/// applying its raw board effect leaves no pseudo-legal reply of the
/// opponent that captures the mover's king.
pub proof fn lemma_legal_moves_keep_king_safe(gs: GenState, side: ChessColor, k: int)
    requires
        0 <= k < legal_moves_spec(gs, side).len(),
    ensures
        ({
            let m = legal_moves_spec(gs, side)[k];
            let opp = find_moves_spec(
                with_board(gs, board_after_spec(gs.board, m, gs.turn)),
                opposite_spec(side),
            );
            forall|j: int|
                0 <= j < opp.len() ==> (#[trigger] opp[j]).captures != ChessPiece::K(side)
        }),
{
    lemma_keep_legal_sound(gs, side, find_moves_spec(gs, side));
    let m = legal_moves_spec(gs, side)[k];
    assert(is_legal_spec(gs, side, m));
}

/// Rendering a move in notation is a function of the move value alone:
/// identical moves render identically, whatever board or game they came
/// from.
pub proof fn lemma_notation_deterministic(m1: ChessMove, m2: ChessMove)
    requires
        m1 == m2,
    ensures
        algebraic_spec(m1) == algebraic_spec(m2),
{
}

/// Querying legal moves is idempotent: the cached list is a function of
/// the game state alone, so two queries of the same side with no applied
/// move in between return the same list.
pub proof fn lemma_legal_moves_idempotent(s1: GameModel, s2: GameModel, side: ChessColor)
    requires
        s1 == s2,
    ensures
        moves_of(s1, side) == moves_of(s2, side),
{
}

} // verus!
