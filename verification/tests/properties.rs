use chess::{ChessGame, ChessMove};
use chess::ChessColor::{Bl, Wh};
use chess::ChessPiece::{B, Empty, K, N, P, Q, R};

#[test]
fn starting_position_twenty_moves() {
    let game = ChessGame::new();
    assert_eq!(game.turn, Wh);
    let moves = game.get_legal_moves(&Wh);
    assert_eq!(moves.len(), 20);
    let pawn_moves = moves.iter().filter(|m| matches!(m.piece, P(_))).count();
    let knight_moves = moves.iter().filter(|m| matches!(m.piece, N(_))).count();
    assert_eq!(pawn_moves, 16);
    assert_eq!(knight_moves, 4);
}

#[test]
fn legal_moves_idempotent_query() {
    let game = ChessGame::new();
    let first = game.get_legal_moves(&Wh);
    let second = game.get_legal_moves(&Wh);
    assert_eq!(first, second);
    let first_b = game.get_legal_moves(&Bl);
    let second_b = game.get_legal_moves(&Bl);
    assert_eq!(first_b, second_b);
}

#[test]
fn notation_round_trip() {
    let mut game1 = ChessGame::new();
    let mut game2 = ChessGame::new();
    let mv = ChessMove::to(P(Wh), 12, 28);
    let notation1 = mv.algebraic();

    assert!(game1.apply_move(&mv));
    assert!(game2.apply_move(&mv));
    assert_eq!(game1.get_board(), game2.get_board());

    // Identical move values render identically, whatever game they are
    // applied to.
    let notation2 = mv.algebraic();
    assert_eq!(notation1, notation2);
    assert_eq!(notation1, "e2e4");

    // The rendering names the origin and target squares and the absence
    // of a capture and of a promotion.
    assert!(notation1.starts_with("e2"));
    assert!(notation1.ends_with("e4"));
    assert!(!notation1.contains('x'));
    assert!(!notation1.contains('('));
}

#[test]
fn legal_moves_leave_king_safe() {
    // White's rook on e2 is pinned against the king on e1 by the queen on
    // e8: no legal move may leave the king capturable on the next ply.
    let board = [
        Empty, Empty, Empty, Empty, K(Wh), Empty, Empty, Empty,
        Empty, Empty, Empty, Empty, R(Wh), Empty, Empty, Empty,
        Empty, Empty, Empty, Empty, Empty, Empty, Empty, Empty,
        Empty, Empty, Empty, Empty, Empty, Empty, Empty, Empty,
        Empty, Empty, Empty, Empty, Empty, Empty, Empty, Empty,
        Empty, Empty, Empty, Empty, Empty, Empty, Empty, Empty,
        Empty, Empty, Empty, Empty, Empty, Empty, Empty, Empty,
        Empty, Empty, Empty, Empty, Q(Bl), Empty, Empty, K(Bl),
    ];
    let mut game = ChessGame::new();
    game.load_board(board);

    let moves = game.get_legal_moves(&Wh);
    assert!(!moves.is_empty());
    // The pinned rook may only move along the e-file.
    for m in moves.iter() {
        if matches!(m.piece, R(_)) {
            assert_eq!(m.target % 8, 4);
        }
    }
    // After any legal White move, no Black reply captures the White king.
    for m in moves.iter() {
        let mut probe = ChessGame::new();
        probe.load_board(board);
        assert!(probe.apply_move(m));
        for reply in probe.get_legal_moves(&Bl).iter() {
            assert_ne!(reply.captures, K(Wh));
        }
    }
}

#[test]
fn promotion_expands_exactly_four() {
    let game = ChessGame::new();
    let base = ChessMove::to(P(Wh), 54, 62);
    let expanded = game.mv_promotion(base);
    assert_eq!(expanded.len(), 4);
    assert_eq!(expanded[0].promotes, R(Wh));
    assert_eq!(expanded[1].promotes, N(Wh));
    assert_eq!(expanded[2].promotes, B(Wh));
    assert_eq!(expanded[3].promotes, Q(Wh));
    for m in expanded.iter() {
        assert_ne!(m.promotes, Empty);
        assert_eq!(m.origin, base.origin);
        assert_eq!(m.target, base.target);
    }

    // A move short of the last rank stays alone and unpromoted.
    let quiet = ChessMove::to(P(Wh), 12, 20);
    assert_eq!(game.mv_promotion(quiet), vec![quiet]);
}

#[test]
fn promotion_never_unpromoted_in_legal_moves() {
    let mut game = ChessGame::new();
    game.load_board([
        Empty, Empty, Empty, Empty, K(Wh), Empty, Empty, Empty,
        Empty, Empty, Empty, Empty, Empty, Empty, Empty, Empty,
        Empty, Empty, Empty, Empty, Empty, Empty, Empty, Empty,
        Empty, Empty, Empty, Empty, Empty, Empty, Empty, Empty,
        Empty, Empty, Empty, Empty, Empty, Empty, Empty, Empty,
        Empty, Empty, Empty, Empty, Empty, Empty, Empty, Empty,
        Empty, Empty, Empty, Empty, Empty, Empty, P(Wh), Empty,
        Empty, Empty, Empty, Empty, K(Bl), Empty, Empty, Empty,
    ]);

    let moves = game.get_legal_moves(&Wh);
    let promoting: Vec<&ChessMove> = moves.iter().filter(|m| m.origin == 54).collect();
    assert_eq!(promoting.len(), 4);
    for m in promoting.iter() {
        assert_ne!(m.promotes, Empty);
        assert_eq!(m.target, 62);
    }
}

#[test]
fn apply_rejects_mismatched_piece() {
    let mut game = ChessGame::new();
    let before = *game.get_board();
    // No rook stands on e2.
    let bogus = ChessMove::to(R(Wh), 12, 20);
    assert!(!game.apply_move(&bogus));
    assert_eq!(*game.get_board(), before);
    assert_eq!(game.turn, Wh);
    // The caches are untouched: the same twenty moves are still offered.
    assert_eq!(game.get_legal_moves(&Wh).len(), 20);
}

#[test]
fn checkmate_and_stalemate_queries() {
    let mut game = ChessGame::new();
    game.load_board([
        Empty, Empty, Empty, K(Bl), Empty, Empty, Empty, Empty,
        Empty, Empty, Empty, Empty, Empty, Empty, Empty, Empty,
        Empty, Empty, Empty, Empty, Empty, R(Wh), Empty, Empty,
        Empty, Empty, Empty, Empty, R(Wh), Empty, Empty, Empty,
        Empty, Empty, R(Wh), Empty, Empty, Empty, Empty, Empty,
        Empty, Empty, Empty, Empty, Empty, Empty, Empty, Empty,
        Empty, Empty, Empty, Empty, Empty, Empty, Empty, Empty,
        Empty, Empty, Empty, Empty, Empty, Empty, Empty, Empty,
    ]);
    // Back-rank mate: the rook checks on the first rank while the others
    // cut off the second and third ranks.
    game.apply_move(&ChessMove::to(R(Wh), 21, 19));
    game.switch_turn();
    assert!(game.is_ended());
    assert!(game.is_check());
    assert!(game.is_checkmate());
    assert!(!game.is_stalemate());

    let mut game2 = ChessGame::new();
    game2.load_board([
        Empty, Empty, Empty, K(Bl), Empty, Empty, Empty, Empty,
        Empty, Empty, Empty, Empty, Empty, Empty, Empty, Empty,
        Empty, Empty, Empty, Empty, Empty, R(Wh), Empty, Empty,
        Empty, Empty, Empty, Empty, R(Wh), Empty, Empty, Empty,
        Empty, Empty, R(Wh), Empty, Empty, Empty, Empty, Empty,
        Empty, Empty, Empty, Empty, Empty, Empty, Empty, Empty,
        Empty, Empty, Empty, Empty, Empty, Empty, Empty, Empty,
        Empty, Empty, Empty, Empty, Empty, Empty, Empty, Empty,
    ]);
    // The lone king is boxed in but not attacked: stalemate.
    game2.apply_move(&ChessMove::to(R(Wh), 21, 13));
    game2.switch_turn();
    assert!(game2.is_ended());
    assert!(!game2.is_check());
    assert!(!game2.is_checkmate());
    assert!(game2.is_stalemate());
}

#[test]
fn en_passant_window_closes() {
    let mut game = ChessGame::new();
    game.load_board([
        Empty, Empty, Empty, Empty, K(Wh), Empty, Empty, Empty,
        P(Wh), Empty, Empty, Empty, Empty, Empty, Empty, Empty,
        Empty, Empty, Empty, Empty, Empty, Empty, Empty, Empty,
        Empty, P(Bl), Empty, Empty, Empty, Empty, Empty, Empty,
        Empty, Empty, Empty, Empty, Empty, Empty, Empty, Empty,
        Empty, Empty, Empty, Empty, Empty, Empty, Empty, Empty,
        Empty, Empty, Empty, Empty, Empty, Empty, Empty, Empty,
        Empty, Empty, Empty, Empty, K(Bl), Empty, Empty, Empty,
    ]);

    // The double step opens the window for the adjacent Black pawn.
    game.apply_move(&ChessMove::to(P(Wh), 8, 24));
    let ep = game.mv_en_passant(25, 16);
    assert!(game.get_legal_moves(&Bl).contains(&ep));

    // Any following move without a fresh double step closes it.
    game.switch_turn();
    game.apply_move(&ChessMove::to(K(Bl), 60, 61));
    assert!(!game.get_legal_moves(&Bl).contains(&ep));
}

#[test]
fn castling_notation() {
    let game = ChessGame::new();
    assert_eq!(game.mv_castle(&Wh, false).algebraic(), "O-O");
    assert_eq!(game.mv_castle(&Wh, true).algebraic(), "O-O-O");
    assert_eq!(game.mv_castle(&Bl, false).algebraic(), "O-O");
    assert_eq!(game.mv_castle(&Bl, true).algebraic(), "O-O-O");
}

#[test]
fn castle_eligibility_single_side() {
    let mut game = ChessGame::new();
    game.load_board([
        R(Wh), Empty, Empty, Empty, K(Wh), Empty, Empty, R(Wh),
        Empty, Empty, Empty, Empty, Empty, Empty, Empty, Empty,
        Empty, Empty, Empty, Empty, Empty, Empty, Empty, Empty,
        Empty, Empty, Empty, Empty, Empty, Empty, Empty, Empty,
        Empty, Empty, Empty, Empty, Empty, Empty, Empty, Empty,
        Empty, Empty, Empty, Empty, Empty, Empty, Empty, Empty,
        Empty, Empty, Empty, Empty, Empty, Empty, Empty, Empty,
        Empty, Empty, Empty, Empty, K(Bl), Empty, Empty, Empty,
    ]);
    // load_board revokes the rights; both castling moves are withheld.
    let moves = game.get_legal_moves(&Wh);
    assert!(!moves.contains(&game.mv_castle(&Wh, false)));
    assert!(!moves.contains(&game.mv_castle(&Wh, true)));

    // Re-enabling the kingside right alone offers kingside castling only.
    game.set_castle_eligibility(&Wh, false, true);
    let moves = game.get_legal_moves(&Wh);
    assert!(moves.contains(&game.mv_castle(&Wh, false)));
    assert!(!moves.contains(&game.mv_castle(&Wh, true)));

    game.set_castle_eligibility(&Wh, true, true);
    let moves = game.get_legal_moves(&Wh);
    assert!(moves.contains(&game.mv_castle(&Wh, false)));
    assert!(moves.contains(&game.mv_castle(&Wh, true)));
}

#[test]
fn king_move_revokes_castling() {
    let mut game = ChessGame::new();
    game.load_board([
        R(Wh), Empty, Empty, Empty, K(Wh), Empty, Empty, R(Wh),
        Empty, Empty, Empty, Empty, Empty, Empty, Empty, Empty,
        Empty, Empty, Empty, Empty, Empty, Empty, Empty, Empty,
        Empty, Empty, Empty, Empty, Empty, Empty, Empty, Empty,
        Empty, Empty, Empty, Empty, Empty, Empty, Empty, Empty,
        Empty, Empty, Empty, Empty, Empty, Empty, Empty, Empty,
        Empty, Empty, Empty, Empty, Empty, Empty, Empty, Empty,
        Empty, Empty, Empty, Empty, K(Bl), Empty, Empty, Empty,
    ]);
    game.set_all_castle_eligibility([true; 2], [true; 2]);
    assert!(game.get_legal_moves(&Wh).contains(&game.mv_castle(&Wh, false)));

    // Moving the king away and back revokes both rights permanently.
    game.apply_move(&ChessMove::to(K(Wh), 4, 12));
    game.apply_move(&ChessMove::to(K(Wh), 12, 4));
    let moves = game.get_legal_moves(&Wh);
    assert!(!moves.contains(&game.mv_castle(&Wh, false)));
    assert!(!moves.contains(&game.mv_castle(&Wh, true)));
}
