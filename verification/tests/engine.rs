use std::collections::HashSet;

use chess::{ChessGame, ChessMove};
use chess::ChessColor::{Bl, Wh};
use chess::ChessPiece::{B, Empty, K, N, P, Q, R};

#[test]
fn literally_redundant() {
    let game = ChessGame::new();
    assert_eq!(*game.get_board(), [
        R(Wh), N(Wh), B(Wh), Q(Wh), K(Wh), B(Wh), N(Wh), R(Wh),
        P(Wh), P(Wh), P(Wh), P(Wh), P(Wh), P(Wh), P(Wh), P(Wh),
        Empty, Empty, Empty, Empty, Empty, Empty, Empty, Empty,
        Empty, Empty, Empty, Empty, Empty, Empty, Empty, Empty,
        Empty, Empty, Empty, Empty, Empty, Empty, Empty, Empty,
        Empty, Empty, Empty, Empty, Empty, Empty, Empty, Empty,
        P(Bl), P(Bl), P(Bl), P(Bl), P(Bl), P(Bl), P(Bl), P(Bl),
        R(Bl), N(Bl), B(Bl), Q(Bl), K(Bl), B(Bl), N(Bl), R(Bl),
    ]);
}

#[test]
fn pawn_moves() {
    let mut game = ChessGame::new();
    game.load_board([
        Empty, Empty, Empty, Empty, Empty, Empty, Empty, Empty,
        P(Wh), Empty, P(Wh), Empty, P(Wh), P(Wh), Empty, Empty,
        Empty, Empty, Empty, Empty, P(Bl), Empty, Empty, Empty,
        P(Wh), Empty, Empty, Empty, Empty, Empty, Empty, Empty,
        Empty, Empty, Empty, Empty, Empty, Empty, Empty, Empty,
        Empty, Empty, P(Wh), Empty, Empty, Empty, Empty, Empty,
        Empty, Empty, Empty, Empty, Empty, Empty, Empty, Empty,
        Empty, Empty, Empty, Empty, Empty, Empty, Empty, Empty,
    ]);

    let moves: HashSet<ChessMove> = game.get_legal_moves(&game.turn).into_iter().collect();
    assert_eq!(moves, HashSet::from([
        ChessMove::to(P(Wh), 8, 16),
        ChessMove::to(P(Wh), 10, 18),
        ChessMove::to(P(Wh), 10, 26),
        ChessMove::to(P(Wh), 13, 21),
        ChessMove::to(P(Wh), 13, 29),
        ChessMove::to(P(Wh), 24, 32),
        ChessMove::captures(P(Wh), 13, 20, P(Bl)),
        ChessMove::to(P(Wh), 42, 50),
    ]));
}

#[test]
fn rook_moves() {
    let mut game = ChessGame::new();
    game.load_board([
        Empty, Empty, Empty, Empty, Empty, Empty, Empty, Empty,
        Empty, Empty, Empty, Empty, Empty, Empty, Empty, Empty,
        Empty, Empty, Empty, Empty, Empty, Empty, Empty, Empty,
        Empty, Empty, Empty, R(Wh), P(Wh), Empty, Empty, Empty,
        Empty, Empty, Empty, Empty, Empty, Empty, Empty, Empty,
        Empty, Empty, Empty, Empty, Empty, Empty, Empty, Empty,
        Empty, Empty, Empty, B(Bl), Empty, Empty, Empty, Empty,
        Empty, Empty, Empty, Empty, Empty, Empty, Empty, Empty,
    ]);

    let moves: HashSet<ChessMove> = game.get_legal_moves(&game.turn).into_iter().collect();
    assert_eq!(moves, HashSet::from([
        ChessMove::to(P(Wh), 28, 36),

        ChessMove::to(R(Wh), 27, 19),
        ChessMove::to(R(Wh), 27, 11),
        ChessMove::to(R(Wh), 27, 3),

        ChessMove::to(R(Wh), 27, 35),
        ChessMove::to(R(Wh), 27, 43),
        ChessMove::captures(R(Wh), 27, 51, B(Bl)),

        ChessMove::to(R(Wh), 27, 26),
        ChessMove::to(R(Wh), 27, 25),
        ChessMove::to(R(Wh), 27, 24),
    ]));
}

#[test]
fn knight_moves() {
    let mut game = ChessGame::new();
    game.load_board([
        Empty, Empty, Empty, Empty, Empty, Empty, Empty, Empty,
        Empty, Empty, N(Wh), Empty, Empty, Empty, Empty, Empty,
        Empty, Empty, Empty, Empty, P(Wh), Empty, Empty, Empty,
        Empty, Empty, Empty, B(Bl), Empty, Empty, Empty, Empty,
        Empty, Empty, Empty, Empty, Empty, Empty, Empty, Empty,
        Empty, Empty, Empty, Empty, Empty, Empty, Empty, Empty,
        Empty, Empty, Empty, Empty, Empty, Empty, Empty, Empty,
        Empty, Empty, Empty, Empty, Empty, Empty, Empty, Empty,
    ]);

    let moves: HashSet<ChessMove> = game.get_legal_moves(&game.turn).into_iter().collect();
    assert_eq!(moves, HashSet::from([
        ChessMove::to(N(Wh), 10, 0),
        ChessMove::to(N(Wh), 10, 4),
        ChessMove::to(N(Wh), 10, 16),
        ChessMove::to(N(Wh), 10, 25),
        ChessMove::captures(N(Wh), 10, 27, B(Bl)),

        ChessMove::to(P(Wh), 20, 28),
        ChessMove::captures(P(Wh), 20, 27, B(Bl)),
    ]));
}

#[test]
fn bishop_moves() {
    let mut game = ChessGame::new();
    game.load_board([
        Empty, Empty, Empty, Empty, Empty, Empty, Empty, Empty,
        Empty, Empty, Empty, Empty, Empty, Empty, Empty, Empty,
        Empty, Empty, Empty, Empty, Empty, Empty, Empty, Empty,
        Empty, Empty, Empty, B(Wh), Empty, Empty, Empty, Empty,
        Empty, Empty, Empty, Empty, P(Wh), Empty, Empty, Empty,
        Empty, Empty, Empty, Empty, Empty, Empty, Empty, Empty,
        B(Bl), Empty, Empty, Empty, Empty, Empty, Empty, Empty,
        Empty, Empty, Empty, Empty, Empty, Empty, Empty, Empty,
    ]);

    let moves: HashSet<ChessMove> = game.get_legal_moves(&game.turn).into_iter().collect();
    assert_eq!(moves, HashSet::from([
        ChessMove::to(P(Wh), 36, 44),

        ChessMove::to(B(Wh), 27, 18),
        ChessMove::to(B(Wh), 27, 9),
        ChessMove::to(B(Wh), 27, 0),

        ChessMove::to(B(Wh), 27, 34),
        ChessMove::to(B(Wh), 27, 41),
        ChessMove::captures(B(Wh), 27, 48, B(Bl)),

        ChessMove::to(B(Wh), 27, 20),
        ChessMove::to(B(Wh), 27, 13),
        ChessMove::to(B(Wh), 27, 6),
    ]));
}

#[test]
fn queen_moves() {
    let mut game = ChessGame::new();
    game.load_board([
        Empty, Empty, Empty, Empty, Empty, Empty, Empty, Empty,
        Empty, Empty, Empty, Empty, Empty, Empty, Empty, Empty,
        Empty, Empty, Empty, P(Wh), Empty, Empty, Empty, Empty,
        Empty, Empty, Empty, Q(Wh), Empty, Empty, B(Bl), Empty,
        Empty, Empty, Empty, Empty, P(Wh), Empty, Empty, Empty,
        Empty, Empty, Empty, Empty, Empty, Empty, Empty, Empty,
        B(Bl), Empty, Empty, Empty, Empty, Empty, Empty, Empty,
        Empty, Empty, Empty, Empty, Empty, Empty, Empty, Empty,
    ]);

    let moves: HashSet<ChessMove> = game.get_legal_moves(&game.turn).into_iter().collect();
    assert_eq!(moves, HashSet::from([
        ChessMove::to(P(Wh), 36, 44),

        ChessMove::to(Q(Wh), 27, 18),
        ChessMove::to(Q(Wh), 27, 9),
        ChessMove::to(Q(Wh), 27, 0),

        ChessMove::to(Q(Wh), 27, 34),
        ChessMove::to(Q(Wh), 27, 41),
        ChessMove::captures(Q(Wh), 27, 48, B(Bl)),

        ChessMove::to(Q(Wh), 27, 20),
        ChessMove::to(Q(Wh), 27, 13),
        ChessMove::to(Q(Wh), 27, 6),

        ChessMove::to(Q(Wh), 27, 26),
        ChessMove::to(Q(Wh), 27, 25),
        ChessMove::to(Q(Wh), 27, 24),

        ChessMove::to(Q(Wh), 27, 28),
        ChessMove::to(Q(Wh), 27, 29),
        ChessMove::captures(Q(Wh), 27, 30, B(Bl)),

        ChessMove::to(Q(Wh), 27, 35),
        ChessMove::to(Q(Wh), 27, 43),
        ChessMove::to(Q(Wh), 27, 51),
        ChessMove::to(Q(Wh), 27, 59),
    ]));
}

#[test]
fn king_moves() {
    let mut game = ChessGame::new();
    game.load_board([
        Empty, Empty, Empty, Empty, Empty, Empty, Empty, Empty,
        Empty, Empty, Empty, Empty, Empty, Empty, Empty, Empty,
        Empty, Empty, Empty, P(Wh), Empty, Empty, Empty, Empty,
        Empty, Empty, B(Bl), K(Wh), Empty, Empty, Empty, Empty,
        Empty, Empty, Empty, Empty, Empty, Empty, Empty, Empty,
        Empty, Empty, Empty, Empty, Empty, Empty, Empty, Empty,
        Empty, Empty, Empty, Empty, Empty, Empty, Empty, Empty,
        Empty, Empty, Empty, Empty, Empty, Empty, Empty, Empty,
    ]);

    let moves: HashSet<ChessMove> = game.get_legal_moves(&game.turn).into_iter().collect();
    assert_eq!(moves, HashSet::from([
        ChessMove::to(K(Wh), 27, 18),
        ChessMove::to(K(Wh), 27, 20),
        ChessMove::to(K(Wh), 27, 28),
        ChessMove::to(K(Wh), 27, 36),
        ChessMove::to(K(Wh), 27, 34),
        ChessMove::captures(K(Wh), 27, 26, B(Bl)),

        ChessMove::captures(P(Wh), 19, 26, B(Bl)),
    ]));
}

#[test]
fn checkmate() {
    let mut game = ChessGame::new();
    game.load_board([
        Empty, Empty, Empty, K(Bl), Empty, Empty, Empty, Empty,
        Empty, Empty, Empty, Empty, Empty, Empty, Empty, Empty,
        Empty, Empty, Empty, Empty, Empty, R(Wh), Empty, Empty,
        Empty, Empty, Empty, Empty, R(Wh), Empty, Empty, Empty,
        Empty, Empty, R(Wh), Empty, Empty, Empty, Empty, Empty,
        Empty, Empty, Empty, Empty, Empty, Empty, Empty, Empty,
        Empty, Empty, Empty, Empty, Empty, Empty, Empty, Empty,
        Empty, Empty, Empty, Empty, Empty, Empty, Empty, Empty,
    ]);
    game.apply_move(&ChessMove::to(R(Wh), 21, 19));
    game.switch_turn();

    assert!(game.is_check());
    let turn = game.turn;
    assert_eq!(game.get_legal_moves(&turn), Vec::new());
}

#[test]
fn stalemate() {
    let mut game = ChessGame::new();
    game.load_board([
        Empty, Empty, Empty, K(Bl), Empty, Empty, Empty, Empty,
        Empty, Empty, Empty, Empty, Empty, Empty, Empty, Empty,
        Empty, Empty, Empty, Empty, Empty, R(Wh), Empty, Empty,
        Empty, Empty, Empty, Empty, R(Wh), Empty, Empty, Empty,
        Empty, Empty, R(Wh), Empty, Empty, Empty, Empty, Empty,
        Empty, Empty, Empty, Empty, Empty, Empty, Empty, Empty,
        Empty, Empty, Empty, Empty, Empty, Empty, Empty, Empty,
        Empty, Empty, Empty, Empty, Empty, Empty, Empty, Empty,
    ]);
    game.apply_move(&ChessMove::to(R(Wh), 21, 13));
    game.switch_turn();

    assert!(!game.is_check());
    let turn = game.turn;
    assert_eq!(game.get_legal_moves(&turn), Vec::new());
}

#[test]
fn en_passant() {
    let mut game = ChessGame::new();
    game.load_board([
        Empty, Empty, Empty, Empty, Empty, Empty, Empty, Empty,
        P(Wh), Empty, Empty, Empty, P(Wh), Empty, Empty, Empty,
        Empty, Empty, Empty, Empty, Empty, Empty, Empty, Empty,
        Empty, P(Bl), Empty, P(Bl), Empty, P(Bl), Empty, Empty,
        Empty, Empty, Empty, Empty, Empty, Empty, Empty, Empty,
        Empty, Empty, Empty, Empty, Empty, Empty, Empty, Empty,
        Empty, Empty, Empty, Empty, Empty, Empty, Empty, Empty,
        Empty, Empty, Empty, Empty, Empty, Empty, Empty, Empty,
    ]);
    {
        game.apply_move(&ChessMove::to(P(Wh), 8, 24));
        let moves = game.get_legal_moves(&Bl);
        assert!(moves.contains(&game.mv_en_passant(25, 16)));
    }

    {
        game.apply_move(&ChessMove::to(P(Wh), 12, 28));
        let moves = game.get_legal_moves(&Bl);
        assert!(moves.contains(&game.mv_en_passant(27, 20)));
        assert!(moves.contains(&game.mv_en_passant(29, 20)));

        assert!(!moves.contains(&game.mv_en_passant(25, 16)));
    }
}

#[test]
fn castling_1() {
    let mut game = ChessGame::new();
    game.load_board([
        R(Wh), N(Wh), Empty, Empty, K(Wh), Empty, Empty, R(Wh),
        Empty, Empty, Empty, Empty, Empty, Empty, Empty, Empty,
        Empty, Empty, Empty, Empty, Empty, Empty, Empty, Empty,
        Empty, Empty, Empty, Empty, Empty, Empty, Empty, Empty,
        Empty, Empty, Empty, Empty, Empty, Empty, Empty, Empty,
        Empty, Empty, Empty, Empty, Empty, Empty, Empty, Empty,
        Empty, Empty, Empty, Empty, Empty, Empty, Empty, Empty,
        Empty, Empty, Empty, Empty, K(Bl), Empty, Empty, Empty,
    ]);
    game.set_all_castle_eligibility([true; 2], [true; 2]);

    let moves = game.get_legal_moves(&Wh);
    assert!(moves.contains(&game.mv_castle(&Wh, false)));
    assert!(!moves.contains(&game.mv_castle(&Wh, true)));
}

#[test]
fn castling_2() {
    let mut game = ChessGame::new();
    game.load_board([
        R(Wh), Empty, Empty, Empty, K(Wh), Empty, Empty, R(Wh),
        Empty, Empty, Empty, Empty, Empty, Empty, Empty, Empty,
        Empty, Empty, Empty, Empty, Empty, Empty, Empty, Empty,
        Empty, Empty, Empty, Empty, Empty, Empty, Empty, Empty,
        Empty, Empty, Empty, Empty, Empty, Empty, Empty, Empty,
        Empty, Empty, Q(Bl), Empty, Empty, Empty, Empty, Empty,
        Empty, Empty, Empty, Empty, Empty, Empty, Empty, Empty,
        Empty, Empty, Empty, Empty, K(Bl), Empty, Empty, Empty,
    ]);
    game.set_all_castle_eligibility([true; 2], [true; 2]);

    let moves = game.get_legal_moves(&Wh);
    assert!(moves.contains(&game.mv_castle(&Wh, false)));
    assert!(!moves.contains(&game.mv_castle(&Wh, true)));

    game.apply_move(&game.mv_castle(&Wh, false));
    assert_eq!(game.get_board(), &[
        R(Wh), Empty, Empty, Empty, Empty, R(Wh), K(Wh), Empty,
        Empty, Empty, Empty, Empty, Empty, Empty, Empty, Empty,
        Empty, Empty, Empty, Empty, Empty, Empty, Empty, Empty,
        Empty, Empty, Empty, Empty, Empty, Empty, Empty, Empty,
        Empty, Empty, Empty, Empty, Empty, Empty, Empty, Empty,
        Empty, Empty, Q(Bl), Empty, Empty, Empty, Empty, Empty,
        Empty, Empty, Empty, Empty, Empty, Empty, Empty, Empty,
        Empty, Empty, Empty, Empty, K(Bl), Empty, Empty, Empty,
    ]);
}

#[test]
fn castling_3() {
    let mut game = ChessGame::new();
    game.load_board([
        Empty, Empty, Empty, Empty, K(Wh), Empty, Empty, Empty,
        Empty, Empty, Empty, Empty, Empty, Empty, Empty, Empty,
        Empty, Empty, Empty, Empty, Empty, Empty, Empty, Empty,
        Empty, Empty, Empty, Empty, Empty, Empty, Empty, Empty,
        Empty, Q(Wh), Empty, Empty, Empty, Empty, Empty, Empty,
        Empty, Empty, Empty, Empty, Empty, Empty, Empty, Empty,
        Empty, Empty, Empty, Empty, Empty, Empty, Empty, Empty,
        R(Bl), Empty, Empty, Empty, K(Bl), Empty, Empty, R(Bl),
    ]);
    game.set_all_castle_eligibility([true; 2], [true; 2]);

    let moves = game.get_legal_moves(&Bl);
    assert!(!moves.contains(&game.mv_castle(&Bl, false)));
    assert!(!moves.contains(&game.mv_castle(&Bl, true)));
}

#[test]
fn castling_4() {
    let mut game = ChessGame::new();
    game.load_board([
        Empty, Empty, Empty, Empty, K(Wh), Empty, Empty, Empty,
        Empty, Empty, Empty, Empty, Empty, Empty, Empty, Empty,
        Empty, Empty, Empty, Empty, Empty, Empty, Empty, Empty,
        Empty, Empty, Empty, Empty, Empty, Q(Wh), Empty, Empty,
        Empty, Empty, Empty, Empty, Empty, Empty, Empty, Empty,
        Empty, Empty, Empty, Empty, Empty, Empty, Empty, Empty,
        Empty, Empty, Empty, Empty, Empty, Empty, Empty, Empty,
        R(Bl), Empty, Empty, Empty, K(Bl), Empty, Empty, R(Bl),
    ]);
    game.set_all_castle_eligibility([true; 2], [true; 2]);

    let moves = game.get_legal_moves(&Bl);
    assert!(!moves.contains(&game.mv_castle(&Bl, false)));
    assert!(moves.contains(&game.mv_castle(&Bl, true)));

    game.apply_move(&game.mv_castle(&Bl, true));
    assert_eq!(game.get_board(), &[
        Empty, Empty, Empty, Empty, K(Wh), Empty, Empty, Empty,
        Empty, Empty, Empty, Empty, Empty, Empty, Empty, Empty,
        Empty, Empty, Empty, Empty, Empty, Empty, Empty, Empty,
        Empty, Empty, Empty, Empty, Empty, Q(Wh), Empty, Empty,
        Empty, Empty, Empty, Empty, Empty, Empty, Empty, Empty,
        Empty, Empty, Empty, Empty, Empty, Empty, Empty, Empty,
        Empty, Empty, Empty, Empty, Empty, Empty, Empty, Empty,
        Empty, Empty, K(Bl), R(Bl), Empty, Empty, Empty, R(Bl),
    ]);
}

#[test]
fn promotion() {
    let mut game = ChessGame::new();
    game.load_board([
        Empty, Empty, Empty, Empty, K(Wh), Empty, Empty, Empty,
        Empty, Empty, Empty, Empty, Empty, Empty, Empty, Empty,
        Empty, Empty, Empty, Empty, Empty, Empty, Empty, Empty,
        Empty, Empty, Empty, Empty, Empty, Empty, Empty, Empty,
        Empty, Empty, Empty, Empty, Empty, Empty, Empty, Empty,
        Empty, Empty, Empty, Empty, Empty, Empty, Empty, Empty,
        Empty, Empty, Empty, Empty, Empty, Empty, P(Wh), Empty,
        Empty, Empty, Empty, Empty, K(Bl), B(Bl), Empty, R(Bl),
    ]);

    let moves: HashSet<ChessMove> = game.get_legal_moves(&game.turn).into_iter().collect();
    {
        let moves2: HashSet<ChessMove>
            = game.mv_promotion(ChessMove::to(P(Wh), 54, 62)).into_iter().collect();
        assert!(moves.is_superset(&moves2))
    }
    {
        let moves2: HashSet<ChessMove>
            = game.mv_promotion(ChessMove::captures(P(Wh), 54, 61, B(Bl))).into_iter().collect();
        assert!(moves.is_superset(&moves2))
    }
    {
        let moves2: HashSet<ChessMove>
            = game.mv_promotion(ChessMove::captures(P(Wh), 54, 63, R(Bl))).into_iter().collect();
        assert!(moves.is_superset(&moves2))
    }
}

#[test]
fn algebraic() {
    assert_eq!(ChessMove::to(P(Wh), 4, 12).algebraic(), "e1e2");
    assert_eq!(ChessMove::captures(P(Wh), 4, 11, P(Bl)).algebraic(), "e1xd2");
    assert_eq!(ChessMove::to(R(Wh), 7, 23).algebraic(), "Rh1h3");
    let mut m1 = ChessMove::to(P(Wh), 55, 63);
    m1.promotes = Q(Wh);
    assert_eq!(m1.algebraic(), "h7h8(Q)");
    let mut m2 = ChessMove::captures(P(Wh), 32, 41, P(Bl));
    m2.en_passant = true;
    assert_eq!(m2.algebraic(), "a5xb6 e.p.");
    m2.en_passant = false;
    m2.promotes = B(Wh);
    assert_eq!(m2.algebraic(), "a5xb6(B)");
}
