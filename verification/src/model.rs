//! The mathematical model of the game.
//!
//! Every executable part of the library is specified against the functions
//! here: square geometry, per-kind pseudo-legal move generation, the raw
//! board effect of a move, the legality filter, and the full recomputation
//! pipeline that runs after a move is applied.

use vstd::prelude::*;
use crate::color::{ChessColor, color_index, dir_spec, opposite_spec};
use crate::piece::{ChessPiece, is_pawn, piece_color_spec};
use crate::moves::{ChessMove, mv_captures_spec, mv_to_spec};

verus! {

/// The state that move generation reads: the board, the en-passant window,
/// the persistent castling rights, the currently-available castling flags,
/// and the color whose turn it is (which fixes the direction of the
/// en-passant victim when a move's raw effect is simulated).
#[verifier::ext_equal]
pub struct GenState {
    /// The 64 squares in rank-major order.
    pub board: Seq<ChessPiece>,
    /// The two en-passant descriptors, each an attacker square paired with
    /// its capture-landing square.
    pub ep: Seq<Option<(usize, usize)>>,
    /// Per-color persistent kingside castling rights.
    pub ck: Seq<bool>,
    /// Per-color persistent queenside castling rights.
    pub cq: Seq<bool>,
    /// Per-color currently-available kingside castling.
    pub cnk: Seq<bool>,
    /// Per-color currently-available queenside castling.
    pub cnq: Seq<bool>,
    /// The color to move.
    pub turn: ChessColor,
}

/// The full abstract state of a game: the generation state together with
/// the cached legal-move lists and the check flag.
#[verifier::ext_equal]
pub struct GameModel {
    /// The 64 squares in rank-major order.
    pub board: Seq<ChessPiece>,
    /// The two en-passant descriptors.
    pub ep: Seq<Option<(usize, usize)>>,
    /// Per-color persistent kingside castling rights.
    pub ck: Seq<bool>,
    /// Per-color persistent queenside castling rights.
    pub cq: Seq<bool>,
    /// Per-color currently-available kingside castling.
    pub cnk: Seq<bool>,
    /// Per-color currently-available queenside castling.
    pub cnq: Seq<bool>,
    /// The cached legal moves of White.
    pub moves_w: Seq<ChessMove>,
    /// The cached legal moves of Black.
    pub moves_b: Seq<ChessMove>,
    /// Whether the side that last recomputed (the turn at that moment)
    /// holds a move that captures the opposing king; after the customary
    /// turn switch this is exactly "the side to move is in check".
    pub check: bool,
    /// The color to move.
    pub turn: ChessColor,
}

/// The generation state held inside a full game state.
pub open spec fn to_gen(s: GameModel) -> GenState {
    GenState {
        board: s.board,
        ep: s.ep,
        ck: s.ck,
        cq: s.cq,
        cnk: s.cnk,
        cnq: s.cnq,
        turn: s.turn,
    }
}

/// The same generation state over another board.
pub open spec fn with_board(gs: GenState, b: Seq<ChessPiece>) -> GenState {
    GenState { board: b, ..gs }
}

/// The cached legal moves of a side.
pub open spec fn moves_of(s: GameModel, side: ChessColor) -> Seq<ChessMove> {
    if side == ChessColor::Wh {
        s.moves_w
    } else {
        s.moves_b
    }
}

/// One step from square `i` by `dx` files and `dy` ranks: the target
/// square, or `None` when the step leaves the board.
pub open spec fn off_spec(i: int, dx: int, dy: int) -> Option<usize> {
    let x = i % 8 + dx;
    let y = i / 8 + dy;
    if 0 <= x && x <= 7 && 0 <= y && y <= 7 {
        Some((8 * y + x) as usize)
    } else {
        None
    }
}

/// A color-relative step: the rank delta is scaled by the side's forward
/// direction.
pub open spec fn pstep_spec(i: int, dx: int, dy: int, side: ChessColor) -> Option<usize> {
    off_spec(i, dx, dy * dir_spec(side))
}

/// Whether square `i` holds any piece.
pub open spec fn occupied(b: Seq<ChessPiece>, i: int) -> bool {
    b[i] != ChessPiece::Empty
}

/// Whether square `i` holds a piece of the opponent of `side`.
pub open spec fn holds_opponent(b: Seq<ChessPiece>, i: int, side: ChessColor) -> bool {
    piece_color_spec(b[i]) == Some(opposite_spec(side))
}

/// A square on the farthest rank from either side's home.
pub open spec fn last_rank(t: usize) -> bool {
    t > 55 || t < 8
}

/// Promotion expansion: a move of a colored piece whose target lies on the
/// last rank becomes the four moves that promote to rook, knight, bishop
/// and queen, in that order; any other move stays as it is, and a move of
/// the empty piece yields nothing.
pub open spec fn promo_spec(m: ChessMove) -> Seq<ChessMove> {
    match piece_color_spec(m.piece) {
        Option::None => Seq::<ChessMove>::empty(),
        Some(col) => if last_rank(m.target) {
            seq![
                ChessMove { promotes: ChessPiece::R(col), ..m },
                ChessMove { promotes: ChessPiece::N(col), ..m },
                ChessMove { promotes: ChessPiece::B(col), ..m },
                ChessMove { promotes: ChessPiece::Q(col), ..m },
            ]
        } else {
            seq![m]
        },
    }
}

/// The en-passant capture of the pawn standing on `origin`, landing on
/// `target`; the captured piece is an opposing pawn, which at apply time
/// is removed from the square the landing square steps over.
pub open spec fn mv_en_passant_spec(b: Seq<ChessPiece>, origin: usize, target: usize) -> ChessMove {
    let piece = b[origin as int];
    ChessMove {
        piece,
        origin,
        target,
        captures: match piece_color_spec(piece) {
            Some(col) => ChessPiece::P(opposite_spec(col)),
            Option::None => ChessPiece::Empty,
        },
        promotes: ChessPiece::Empty,
        en_passant: true,
        castles: false,
    }
}

/// The castling move of a side: the king moves two files toward the
/// chosen rook from its original square.
pub open spec fn mv_castle_spec(side: ChessColor, queens: bool) -> ChessMove {
    let king: usize = if side == ChessColor::Wh {
        4
    } else {
        60
    };
    ChessMove {
        piece: ChessPiece::K(side),
        origin: king,
        target: if queens {
            (king - 2) as usize
        } else {
            (king + 2) as usize
        },
        captures: ChessPiece::Empty,
        promotes: ChessPiece::Empty,
        en_passant: false,
        castles: true,
    }
}

/// The moves a knight or king contributes through one fixed offset: a
/// quiet move onto an empty target, a capture of an opposing piece, and
/// nothing for an off-board or own-occupied target.
pub open spec fn jump_moves(
    b: Seq<ChessPiece>,
    i: usize,
    dx: int,
    dy: int,
    side: ChessColor,
) -> Seq<ChessMove> {
    match off_spec(i as int, dx, dy) {
        Option::None => Seq::<ChessMove>::empty(),
        Some(t) => if holds_opponent(b, t as int, side) {
            seq![mv_captures_spec(b[i as int], i, t, b[t as int])]
        } else if !occupied(b, t as int) {
            seq![mv_to_spec(b[i as int], i, t)]
        } else {
            Seq::<ChessMove>::empty()
        },
    }
}

/// The moves a sliding piece contributes along one ray, from the `j`-th
/// step outward (up to seven steps): the ray stops at the board's edge, at
/// the first occupied square - adding a capture first when that square
/// holds an opponent - and otherwise adds a quiet move and continues.
pub open spec fn ray_moves(
    b: Seq<ChessPiece>,
    i: usize,
    dx: int,
    dy: int,
    j: int,
    side: ChessColor,
) -> Seq<ChessMove>
    decreases 8 - j,
{
    if j < 1 || j > 7 {
        Seq::<ChessMove>::empty()
    } else {
        match off_spec(i as int, dx * j, dy * j) {
            Option::None => Seq::<ChessMove>::empty(),
            Some(t) => if holds_opponent(b, t as int, side) {
                seq![mv_captures_spec(b[i as int], i, t, b[t as int])]
            } else if !occupied(b, t as int) {
                seq![mv_to_spec(b[i as int], i, t)] + ray_moves(b, i, dx, dy, j + 1, side)
            } else {
                Seq::<ChessMove>::empty()
            },
        }
    }
}

/// A pawn's forward moves: one step onto an empty square, expanded for
/// promotion, and from the home rank a second step when that square is
/// empty too.
pub open spec fn pawn_fwd_moves(b: Seq<ChessPiece>, i: usize, side: ChessColor) -> Seq<ChessMove> {
    match pstep_spec(i as int, 0, 1, side) {
        Option::None => Seq::<ChessMove>::empty(),
        Some(t) => if occupied(b, t as int) {
            Seq::<ChessMove>::empty()
        } else {
            promo_spec(mv_to_spec(b[i as int], i, t)) + if (i < 16 && i > 7) || (i < 56 && i > 47) {
                match pstep_spec(i as int, 0, 2, side) {
                    Option::None => Seq::<ChessMove>::empty(),
                    Some(t2) => if !occupied(b, t2 as int) {
                        seq![mv_to_spec(b[i as int], i, t2)]
                    } else {
                        Seq::<ChessMove>::empty()
                    },
                }
            } else {
                Seq::<ChessMove>::empty()
            }
        },
    }
}

/// A pawn's diagonal-forward capture toward file delta `dx`, expanded for
/// promotion, offered only when the target holds an opposing piece.
pub open spec fn pawn_cap_moves(
    b: Seq<ChessPiece>,
    i: usize,
    dx: int,
    side: ChessColor,
) -> Seq<ChessMove> {
    match pstep_spec(i as int, dx, 1, side) {
        Option::None => Seq::<ChessMove>::empty(),
        Some(t) => if holds_opponent(b, t as int, side) {
            promo_spec(mv_captures_spec(b[i as int], i, t, b[t as int]))
        } else {
            Seq::<ChessMove>::empty()
        },
    }
}

/// The en-passant capture one recorded descriptor contributes for the
/// pawn on square `i`: offered exactly when `i` is the recorded attacker
/// square.
pub open spec fn pawn_ep_moves(
    b: Seq<ChessPiece>,
    slot: Option<(usize, usize)>,
    i: usize,
) -> Seq<ChessMove> {
    match slot {
        Some(pair) => if i == pair.0 {
            seq![mv_en_passant_spec(b, pair.0, pair.1)]
        } else {
            Seq::<ChessMove>::empty()
        },
        Option::None => Seq::<ChessMove>::empty(),
    }
}

/// All moves of the pawn on square `i`: forward steps, the two diagonal
/// captures, and the en-passant captures of the two recorded descriptors,
/// in that order.
pub open spec fn pawn_moves_spec(
    b: Seq<ChessPiece>,
    ep: Seq<Option<(usize, usize)>>,
    i: usize,
    side: ChessColor,
) -> Seq<ChessMove> {
    pawn_fwd_moves(b, i, side) + pawn_cap_moves(b, i, 1, side) + pawn_cap_moves(b, i, -1, side)
        + pawn_ep_moves(b, ep[0], i) + pawn_ep_moves(b, ep[1], i)
}

/// All moves of the rook on square `i`: the four axis-aligned rays,
/// upward, rightward, downward, leftward.
pub open spec fn rook_moves_spec(b: Seq<ChessPiece>, i: usize, side: ChessColor) -> Seq<
    ChessMove,
> {
    ray_moves(b, i, 0, 1, 1, side) + ray_moves(b, i, 1, 0, 1, side) + ray_moves(
        b,
        i,
        0,
        -1,
        1,
        side,
    ) + ray_moves(b, i, -1, 0, 1, side)
}

/// All moves of the bishop on square `i`: the four diagonal rays.
pub open spec fn bishop_moves_spec(b: Seq<ChessPiece>, i: usize, side: ChessColor) -> Seq<
    ChessMove,
> {
    ray_moves(b, i, 1, 1, 1, side) + ray_moves(b, i, -1, 1, 1, side) + ray_moves(
        b,
        i,
        1,
        -1,
        1,
        side,
    ) + ray_moves(b, i, -1, -1, 1, side)
}

/// All moves of the queen on square `i`: the rook rays, then the bishop
/// rays.
pub open spec fn queen_moves_spec(b: Seq<ChessPiece>, i: usize, side: ChessColor) -> Seq<
    ChessMove,
> {
    rook_moves_spec(b, i, side) + bishop_moves_spec(b, i, side)
}

/// All moves of the knight on square `i`: the eight fixed offsets.
pub open spec fn knight_moves_spec(b: Seq<ChessPiece>, i: usize, side: ChessColor) -> Seq<
    ChessMove,
> {
    jump_moves(b, i, 1, 2, side) + jump_moves(b, i, -1, 2, side) + jump_moves(b, i, 1, -2, side)
        + jump_moves(b, i, -1, -2, side) + jump_moves(b, i, 2, 1, side) + jump_moves(
        b,
        i,
        -2,
        1,
        side,
    ) + jump_moves(b, i, 2, -1, side) + jump_moves(b, i, -2, -1, side)
}

/// All moves of the king on square `i` (castling aside): the eight
/// adjacent squares.
pub open spec fn king_moves_spec(b: Seq<ChessPiece>, i: usize, side: ChessColor) -> Seq<
    ChessMove,
> {
    jump_moves(b, i, 0, 1, side) + jump_moves(b, i, 1, 1, side) + jump_moves(b, i, 1, 0, side)
        + jump_moves(b, i, 1, -1, side) + jump_moves(b, i, 0, -1, side) + jump_moves(
        b,
        i,
        -1,
        -1,
        side,
    ) + jump_moves(b, i, -1, 0, side) + jump_moves(b, i, -1, 1, side)
}

/// The moves square `i` contributes for `side`: the per-kind moves of the
/// piece standing there when it belongs to `side`, nothing otherwise.
pub open spec fn square_moves(
    b: Seq<ChessPiece>,
    ep: Seq<Option<(usize, usize)>>,
    i: usize,
    side: ChessColor,
) -> Seq<ChessMove> {
    if piece_color_spec(b[i as int]) == Some(side) {
        match b[i as int] {
            ChessPiece::P(_) => pawn_moves_spec(b, ep, i, side),
            ChessPiece::R(_) => rook_moves_spec(b, i, side),
            ChessPiece::N(_) => knight_moves_spec(b, i, side),
            ChessPiece::B(_) => bishop_moves_spec(b, i, side),
            ChessPiece::Q(_) => queen_moves_spec(b, i, side),
            ChessPiece::K(_) => king_moves_spec(b, i, side),
            ChessPiece::Empty => Seq::<ChessMove>::empty(),
        }
    } else {
        Seq::<ChessMove>::empty()
    }
}

/// The moves the squares below `n` contribute for `side`, in board-scan
/// order.
pub open spec fn scan_moves(
    b: Seq<ChessPiece>,
    ep: Seq<Option<(usize, usize)>>,
    side: ChessColor,
    n: nat,
) -> Seq<ChessMove>
    decreases n,
{
    if n == 0 {
        Seq::<ChessMove>::empty()
    } else {
        scan_moves(b, ep, side, (n - 1) as nat) + square_moves(b, ep, (n - 1) as usize, side)
    }
}

/// All pseudo-legal moves of `side` on the given board: the board scan,
/// then the kingside and queenside castling moves when both the
/// persistent right and the currently-available flag hold.
pub open spec fn find_moves_spec(gs: GenState, side: ChessColor) -> Seq<ChessMove> {
    scan_moves(gs.board, gs.ep, side, 64) + (if gs.ck[color_index(side)] && gs.cnk[color_index(
        side,
    )] {
        seq![mv_castle_spec(side, false)]
    } else {
        Seq::<ChessMove>::empty()
    }) + (if gs.cq[color_index(side)] && gs.cnq[color_index(side)] {
        seq![mv_castle_spec(side, true)]
    } else {
        Seq::<ChessMove>::empty()
    })
}

/// Whether a move's recorded piece matches the board, so that applying it
/// has an effect.
pub open spec fn mv_applies(b: Seq<ChessPiece>, m: ChessMove) -> bool {
    m.piece != ChessPiece::Empty && b[m.origin as int] == m.piece
}

/// The square an en-passant victim is removed from: one rank behind the
/// landing square, in the forward direction of the color to move.
pub open spec fn ep_victim(target: usize, turn: ChessColor) -> int {
    target - 8 * dir_spec(turn)
}

/// The raw board effect of a move. A move whose piece does not match its
/// origin square (or is the empty piece) leaves the board unchanged.
/// Otherwise the moving piece - or its promotion piece - is written to the
/// target, the origin is cleared, an en-passant move removes the stepped-
/// over victim, and a castling move relocates the rook beside the king.
pub open spec fn board_after_spec(
    b: Seq<ChessPiece>,
    m: ChessMove,
    turn: ChessColor,
) -> Seq<ChessPiece> {
    if !mv_applies(b, m) {
        b
    } else {
        let b1 = b.update(
            m.target as int,
            if m.promotes == ChessPiece::Empty {
                m.piece
            } else {
                m.promotes
            },
        ).update(m.origin as int, ChessPiece::Empty);
        let b2 = if m.en_passant {
            b1.update(ep_victim(m.target, turn), ChessPiece::Empty)
        } else {
            b1
        };
        if m.castles {
            let queens = m.target + 2 == m.origin;
            let rook_origin = if queens {
                m.origin - 4
            } else {
                m.origin + 3
            };
            let rook_target = (m.target + m.origin) / 2;
            b2.update(rook_target as int, b2[rook_origin as int]).update(
                rook_origin as int,
                ChessPiece::Empty,
            )
        } else {
            b2
        }
    }
}

/// The en-passant window after a move: a pawn double step records, for
/// each on-board square flanking the landing square, that square paired
/// with the stepped-over square; any other move clears both descriptors.
pub open spec fn ep_after_spec(m: ChessMove) -> Seq<Option<(usize, usize)>> {
    let lane = ((m.origin + m.target) / 2) as usize;
    if is_pawn(m.piece) && (m.origin - m.target == 16 || m.target - m.origin == 16) {
        seq![
            match off_spec(m.target as int, 1, 0) {
                Some(loc) => Some((loc, lane)),
                Option::None => Option::None,
            },
            match off_spec(m.target as int, -1, 0) {
                Some(loc) => Some((loc, lane)),
                Option::None => Option::None,
            },
        ]
    } else {
        seq![Option::<(usize, usize)>::None, Option::<(usize, usize)>::None]
    }
}

/// Kingside castling rights after a move: a king move revokes its color's
/// right; a rook moving from a kingside corner revokes its color's right.
pub open spec fn ck_after_spec(ck: Seq<bool>, m: ChessMove) -> Seq<bool> {
    match m.piece {
        ChessPiece::K(side) => ck.update(color_index(side), false),
        ChessPiece::R(side) => if !(m.origin == 0 || m.origin == 56) && (m.origin == 7 || m.origin
            == 63) {
            ck.update(color_index(side), false)
        } else {
            ck
        },
        _ => ck,
    }
}

/// Queenside castling rights after a move: a king move revokes its
/// color's right; a rook moving from a queenside corner revokes its
/// color's right.
pub open spec fn cq_after_spec(cq: Seq<bool>, m: ChessMove) -> Seq<bool> {
    match m.piece {
        ChessPiece::K(side) => cq.update(color_index(side), false),
        ChessPiece::R(side) => if m.origin == 0 || m.origin == 56 {
            cq.update(color_index(side), false)
        } else {
            cq
        },
        _ => cq,
    }
}

/// Whether the squares strictly between a side's king and queenside rook
/// are empty.
pub open spec fn cn_geom_q(b: Seq<ChessPiece>, side: ChessColor) -> bool {
    if side == ChessColor::Wh {
        b[1] == ChessPiece::Empty && b[2] == ChessPiece::Empty && b[3] == ChessPiece::Empty
    } else {
        b[57] == ChessPiece::Empty && b[58] == ChessPiece::Empty && b[59] == ChessPiece::Empty
    }
}

/// Whether the squares strictly between a side's king and kingside rook
/// are empty.
pub open spec fn cn_geom_k(b: Seq<ChessPiece>, side: ChessColor) -> bool {
    if side == ChessColor::Wh {
        b[5] == ChessPiece::Empty && b[6] == ChessPiece::Empty
    } else {
        b[61] == ChessPiece::Empty && b[62] == ChessPiece::Empty
    }
}

/// Whether any move in the list targets one of three given squares.
pub open spec fn targets_any3(ms: Seq<ChessMove>, a: usize, b: usize, c: usize) -> bool {
    exists|k: int|
        0 <= k < ms.len() && ((#[trigger] ms[k]).target == a || ms[k].target == b || ms[k].target
            == c)
}

/// Whether any move in the list captures the king of `opp`.
pub open spec fn gives_check(ms: Seq<ChessMove>, opp: ChessColor) -> bool {
    exists|k: int| 0 <= k < ms.len() && (#[trigger] ms[k]).captures == ChessPiece::K(opp)
}

/// Whether a move leaves the mover's king safe: after its raw board
/// effect, no pseudo-legal move of the opponent captures `side`'s king.
pub open spec fn is_legal_spec(gs: GenState, side: ChessColor, m: ChessMove) -> bool {
    let opp = find_moves_spec(
        with_board(gs, board_after_spec(gs.board, m, gs.turn)),
        opposite_spec(side),
    );
    forall|k: int| 0 <= k < opp.len() ==> (#[trigger] opp[k]).captures != ChessPiece::K(side)
}

/// The moves of a list that pass the legality filter, in order.
pub open spec fn keep_legal(gs: GenState, side: ChessColor, ms: Seq<ChessMove>) -> Seq<ChessMove>
    decreases ms.len(),
{
    if ms.len() == 0 {
        Seq::<ChessMove>::empty()
    } else {
        keep_legal(gs, side, ms.drop_last()) + if is_legal_spec(gs, side, ms.last()) {
            seq![ms.last()]
        } else {
            Seq::<ChessMove>::empty()
        }
    }
}

/// The legal moves of a side: its pseudo-legal moves filtered down to
/// those that leave its own king safe.
pub open spec fn legal_moves_spec(gs: GenState, side: ChessColor) -> Seq<ChessMove> {
    keep_legal(gs, side, find_moves_spec(gs, side))
}

/// The recomputation pipeline that follows a move's board effect, over a
/// state whose board is already the post-effect board: the en-passant
/// window and the persistent castling rights are updated from the move;
/// both colors' legal moves are recomputed; the currently-available
/// castling flags are derived from clear paths and from the squares those
/// moves target; both colors' legal moves are recomputed once more under
/// the new flags; and the check flag is set exactly when the side to move
/// holds a capture of the opposing king.
///
/// The attack test for castling deliberately reads the legality-filtered
/// lists of the first recomputation, not the raw pseudo-legal moves: a
/// square covered only by an opponent piece that is itself pinned does
/// not withhold castling.
pub open spec fn recompute_spec(s: GameModel, m: ChessMove) -> GameModel {
    let s1 = GameModel {
        ep: ep_after_spec(m),
        ck: ck_after_spec(s.ck, m),
        cq: cq_after_spec(s.cq, m),
        ..s
    };
    let mw1 = legal_moves_spec(to_gen(s1), ChessColor::Wh);
    let mb1 = legal_moves_spec(to_gen(s1), ChessColor::Bl);
    let s2 = GameModel {
        cnk: seq![
            cn_geom_k(s1.board, ChessColor::Wh) && !targets_any3(mb1, 4, 5, 6),
            cn_geom_k(s1.board, ChessColor::Bl) && !targets_any3(mw1, 60, 61, 62),
        ],
        cnq: seq![
            cn_geom_q(s1.board, ChessColor::Wh) && !targets_any3(mb1, 2, 3, 4),
            cn_geom_q(s1.board, ChessColor::Bl) && !targets_any3(mw1, 58, 59, 60),
        ],
        ..s1
    };
    let mw2 = legal_moves_spec(to_gen(s2), ChessColor::Wh);
    let mb2 = legal_moves_spec(to_gen(s2), ChessColor::Bl);
    GameModel {
        moves_w: mw2,
        moves_b: mb2,
        check: gives_check(
            if s.turn == ChessColor::Wh {
                mw2
            } else {
                mb2
            },
            opposite_spec(s.turn),
        ),
        ..s2
    }
}

/// Whether applying a move succeeds: the empty piece always does (it only
/// recomputes derived state), and any other move must match the board at
/// its origin.
pub open spec fn applies_spec(s: GameModel, m: ChessMove) -> bool {
    m.piece == ChessPiece::Empty || s.board[m.origin as int] == m.piece
}

/// The full transition of one applied move: the raw board effect followed
/// by the recomputation pipeline.
pub open spec fn step_game_spec(s: GameModel, m: ChessMove) -> GameModel {
    recompute_spec(GameModel { board: board_after_spec(s.board, m, s.turn), ..s }, m)
}

/// The conditions under which applying a move stays within the board:
/// its squares are board indices, an en-passant victim square exists one
/// rank behind the landing square, and a castling rook's original square
/// exists beside the king's origin. Moves drawn from the generator always
/// satisfy them.
pub open spec fn mv_in_range(m: ChessMove, turn: ChessColor) -> bool {
    &&& (m.piece != ChessPiece::Empty ==> m.origin < 64 && m.target < 64)
    &&& (m.piece != ChessPiece::Empty && m.en_passant ==> (if turn == ChessColor::Wh {
        m.target >= 8
    } else {
        m.target < 56
    }))
    &&& (m.piece != ChessPiece::Empty && m.castles ==> (if m.target + 2 == m.origin {
        m.origin >= 4
    } else {
        m.origin <= 60
    }))
}

/// The piece standing on square `i` of the standard starting position.
pub open spec fn start_piece(i: int) -> ChessPiece {
    if i == 0 || i == 7 {
        ChessPiece::R(ChessColor::Wh)
    } else if i == 1 || i == 6 {
        ChessPiece::N(ChessColor::Wh)
    } else if i == 2 || i == 5 {
        ChessPiece::B(ChessColor::Wh)
    } else if i == 3 {
        ChessPiece::Q(ChessColor::Wh)
    } else if i == 4 {
        ChessPiece::K(ChessColor::Wh)
    } else if 8 <= i && i < 16 {
        ChessPiece::P(ChessColor::Wh)
    } else if 48 <= i && i < 56 {
        ChessPiece::P(ChessColor::Bl)
    } else if i == 56 || i == 63 {
        ChessPiece::R(ChessColor::Bl)
    } else if i == 57 || i == 62 {
        ChessPiece::N(ChessColor::Bl)
    } else if i == 58 || i == 61 {
        ChessPiece::B(ChessColor::Bl)
    } else if i == 59 {
        ChessPiece::Q(ChessColor::Bl)
    } else if i == 60 {
        ChessPiece::K(ChessColor::Bl)
    } else {
        ChessPiece::Empty
    }
}

/// The standard starting board.
pub open spec fn start_board() -> Seq<ChessPiece> {
    Seq::new(64, |i: int| start_piece(i))
}

/// The state a fresh game holds before its first recomputation: the
/// starting board, all castling rights enabled, no en-passant window, no
/// cached moves, White to move.
pub open spec fn initial_model() -> GameModel {
    GameModel {
        board: start_board(),
        ep: seq![Option::<(usize, usize)>::None, Option::<(usize, usize)>::None],
        ck: seq![true, true],
        cq: seq![true, true],
        cnk: seq![false, false],
        cnq: seq![false, false],
        moves_w: Seq::<ChessMove>::empty(),
        moves_b: Seq::<ChessMove>::empty(),
        check: false,
        turn: ChessColor::Wh,
    }
}

/// Well-formedness of one generated move: its squares are board indices,
/// an en-passant capture lands strictly between the home ranks, and a
/// castling move starts from a king's original square and moves exactly
/// two files. Every move the generator emits satisfies this, which keeps
/// the raw board effect within the board for either value of the turn.
pub open spec fn mv_wf(m: ChessMove) -> bool {
    &&& m.origin < 64
    &&& m.target < 64
    &&& (m.en_passant ==> 8 <= m.target && m.target < 56)
    &&& (m.castles ==> (m.origin == 4 || m.origin == 60) && (m.target == m.origin + 2 || m.target
        + 2 == m.origin))
}

/// Well-formedness of every move in a list.
pub open spec fn all_wf(ms: Seq<ChessMove>) -> bool {
    forall|k: int| 0 <= k < ms.len() ==> mv_wf(#[trigger] ms[k])
}

/// Well-formedness of an en-passant descriptor: the attacker square is a
/// board index and the landing square lies strictly between the home
/// ranks, so that the stepped-over square exists for either value of the
/// turn.
pub open spec fn ep_slot_wf(slot: Option<(usize, usize)>) -> bool {
    match slot {
        Some(pair) => pair.0 < 64 && 8 <= pair.1 && pair.1 < 56,
        Option::None => true,
    }
}

/// Well-formedness of a game state: the per-color sequences have their
/// fixed lengths, the board has 64 squares, and the en-passant window is
/// well-formed.
pub open spec fn model_wf(s: GameModel) -> bool {
    &&& s.board.len() == 64
    &&& s.ep.len() == 2
    &&& s.ck.len() == 2
    &&& s.cq.len() == 2
    &&& s.cnk.len() == 2
    &&& s.cnq.len() == 2
    &&& ep_slot_wf(s.ep[0])
    &&& ep_slot_wf(s.ep[1])
}

} // verus!
