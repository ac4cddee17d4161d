use tunaturk::position::Position;
use tunaturk::search::perft;

#[test]
fn perft_all() {
    let tests = [
        (
            "rnbqkbnr/pppppppp/8/8/8/8/PPPPPPPP/RNBQKBNR w KQkq - 0 1",
            vec![1_u64, 20, 400, 8902, 197281, 4865609],
        ),
        (
            "r3k2r/p1ppqpb1/bn2pnp1/3PN3/1p2P3/2N2Q1p/PPPBBPPP/R3K2R w KQkq - 0 1",
            vec![1, 48, 2039, 97862, 4085603],
        ),
    ];
    for (fen, counts) in tests {
        for (depth, count) in counts.iter().enumerate() {
            let board = Position::from_fen(fen).unwrap();
            let nodes = perft(&board, depth as u8).unwrap();
            println!("{}, depth {}, nodes {}", fen, depth, nodes);
            assert_eq!(nodes, *count);
        }
    }
}

#[test]
fn perft_of_no_depth_is_one() {
    let board = Position::startpos();
    assert_eq!(perft(&board, 0), Some(1));
}

#[test]
fn perft_of_a_mated_position_is_zero() {
    let board = Position::from_fen("rnb1kbnr/pppp1ppp/8/4p3/6Pq/5P2/PPPPP2P/RNBQKBNR w KQkq - 1 3")
        .unwrap();
    assert_eq!(perft(&board, 1), Some(0));
    assert_eq!(perft(&board, 3), Some(0));
}

#[test]
fn perft_with_kings_close_by() {
    let board = Position::from_fen("k7/8/K7/8/8/8/8/8 w - - 0 1").unwrap();
    let oracle = cozy_chess::Board::from_fen("k7/8/K7/8/8/8/8/8 w - - 0 1", false).unwrap();
    fn count(board: &cozy_chess::Board, depth: u8) -> u64 {
        if depth == 0 {
            return 1;
        }
        let mut nodes = 0;
        board.generate_moves(|moves| {
            for mv in moves {
                let mut next = board.clone();
                next.play_unchecked(mv);
                nodes += count(&next, depth - 1);
            }
            false
        });
        nodes
    }
    for depth in 0..5 {
        assert_eq!(perft(&board, depth), Some(count(&oracle, depth)));
    }
    assert_eq!(perft(&board, 1), Some(3));
}
