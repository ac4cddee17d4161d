use tunaturk::position::{find_king, has_kings_apart, has_move, same_move, Position};
use tunaturk::rules::{Color, GameStatus, Move, Piece};

const START: &str = "rnbqkbnr/pppppppp/8/8/8/8/PPPPPPPP/RNBQKBNR w KQkq - 0 1";
const KIWIPETE: &str = "r3k2r/p1ppqpb1/bn2pnp1/3PN3/1p2P3/2N2Q1p/PPPBBPPP/R3K2R w KQkq - 0 1";
const FOOLS_MATE: &str = "rnb1kbnr/pppp1ppp/8/4p3/6Pq/5P2/PPPPP2P/RNBQKBNR w KQkq - 1 3";
const STALEMATE: &str = "7k/5Q2/6K1/8/8/8/8/8 b - - 0 1";

fn chars(text: &str) -> Vec<char> {
    text.chars().collect()
}

fn quiet(from: u8, to: u8) -> Move {
    Move { from, to, promotion: None }
}

fn lift(mv: cozy_chess::Move) -> Move {
    Move {
        from: mv.from as u8,
        to: mv.to as u8,
        promotion: mv.promotion.map(|piece| match piece {
            cozy_chess::Piece::Pawn => Piece::Pawn,
            cozy_chess::Piece::Knight => Piece::Knight,
            cozy_chess::Piece::Bishop => Piece::Bishop,
            cozy_chess::Piece::Rook => Piece::Rook,
            cozy_chess::Piece::Queen => Piece::Queen,
            cozy_chess::Piece::King => Piece::King,
        }),
    }
}

fn moves_of(board: &cozy_chess::Board) -> Vec<Move> {
    let mut moves = Vec::new();
    board.generate_moves(|set| {
        for mv in set {
            moves.push(lift(mv));
        }
        false
    });
    moves
}

#[test]
fn startpos_is_the_initial_position() {
    assert_eq!(Position::startpos().fen(), START);
}

#[test]
fn from_fen_reads_what_fen_writes() {
    for fen in [START, KIWIPETE, FOOLS_MATE, STALEMATE, "8/8/8/8/8/8/k7/7K w - - 12 40"] {
        assert_eq!(Position::from_fen(fen).unwrap().fen(), fen);
    }
}

#[test]
fn from_fen_refuses_what_is_no_position() {
    for text in [
        "",
        "startpos",
        "rnbqkbnr/pppppppp/8/8/8/8/PPPPPPPP/RNBQKBNR w KQkq - 0 1 ",
        " rnbqkbnr/pppppppp/8/8/8/8/PPPPPPPP/RNBQKBNR w KQkq - 0 1",
        "rnbqkbnr/pppppppp/8/8/8/8/PPPPPPPP/RNBQKBNR w KQkq - 0",
        "rnbqkbnr/pppppppp/8/8/8/8/PPPPPPPP/RNBQKBNR x KQkq - 0 1",
        "rnbqkbnr/pppppppp/8/8/8/8/PPPPPPPP/RNBQKBNR w HAha - 0 1",
        "8/8/8/8/8/8/8/8 w - - 0 1",
        "kk6/8/8/8/8/8/8/K7 w - - 0 1",
    ] {
        assert!(Position::from_fen(text).is_none(), "{:?}", text);
    }
}

#[test]
fn from_fen_refuses_kings_that_stand_next_to_each_other() {
    for record in [
        "k7/K7/8/8/8/8/8/8 w - - 0 1",
        "k7/K7/8/8/8/8/8/8 b - - 0 1",
        "8/8/8/8/8/8/8/Kk6 w - - 0 1",
        "8/8/8/3k4/4K3/8/8/8 w - - 0 1",
        "8/8/8/3k4/2K5/8/8/8 b - - 0 1",
    ] {
        assert!(cozy_chess::Board::from_fen(record, false).is_ok(), "{}", record);
        assert!(Position::from_fen(record).is_none(), "{}", record);
    }
}

#[test]
fn from_fen_takes_kings_that_stand_apart() {
    for record in [
        "k7/8/K7/8/8/8/8/8 w - - 0 1",
        "8/8/8/3k4/5K2/8/8/8 w - - 0 1",
        "8/8/8/3k4/8/3K4/8/8 b - - 0 1",
        "k6K/8/8/8/8/8/8/8 w - - 0 1",
    ] {
        assert_eq!(Position::from_fen(record).unwrap().fen(), record);
    }
}

#[test]
fn find_king_gives_the_count_and_the_first_square() {
    let start = chars(START);
    assert_eq!(find_king(&start, Color::White), (1, 7, 4));
    assert_eq!(find_king(&start, Color::Black), (1, 0, 4));
    let corner = chars("k7/K7/8/8/8/8/8/8 w - - 0 1");
    assert_eq!(find_king(&corner, Color::Black), (1, 0, 0));
    assert_eq!(find_king(&corner, Color::White), (1, 1, 0));
    let far = chars("8/8/8/8/8/8/8/2k4K b - - 0 1");
    assert_eq!(find_king(&far, Color::Black), (1, 7, 2));
    assert_eq!(find_king(&far, Color::White), (1, 7, 7));
    let mixed = chars("r3k2r/8/8/8/8/8/8/R3K2R w KQkq - 0 1");
    assert_eq!(find_king(&mixed, Color::White), (1, 7, 4));
}

#[test]
fn find_king_reads_the_placement_only() {
    assert_eq!(find_king(&chars("8/8/8/8/8/8/8/8 w KQkq - 0 1"), Color::White).0, 0);
    assert_eq!(find_king(&chars("8/8/8/8/8/8/8/8 w KQkq - 0 1"), Color::Black).0, 0);
    assert_eq!(find_king(&chars(""), Color::White).0, 0);
    assert_eq!(find_king(&chars(" K"), Color::White).0, 0);
    assert_eq!(find_king(&chars("KK/1K"), Color::White), (3, 0, 0));
    assert_eq!(find_king(&chars("3K"), Color::White), (1, 0, 3));
    assert_eq!(find_king(&chars("9/9K"), Color::White), (1, 1, 9));
}

#[test]
fn kings_are_apart_where_both_stand_and_do_not_touch() {
    assert!(has_kings_apart(&chars(START)));
    assert!(has_kings_apart(&chars("k7/8/K7/8/8/8/8/8 w - - 0 1")));
    assert!(has_kings_apart(&chars("k1K5/8/8/8/8/8/8/8 w - - 0 1")));
    assert!(!has_kings_apart(&chars("kK6/8/8/8/8/8/8/8 w - - 0 1")));
    assert!(!has_kings_apart(&chars("k7/K7/8/8/8/8/8/8 w - - 0 1")));
    assert!(!has_kings_apart(&chars("k7/1K6/8/8/8/8/8/8 w - - 0 1")));
    assert!(!has_kings_apart(&chars("1k6/K7/8/8/8/8/8/8 w - - 0 1")));
    assert!(!has_kings_apart(&chars("k7/8/8/8/8/8/8/8 w - - 0 1")));
    assert!(!has_kings_apart(&chars("K7/8/8/8/8/8/8/8 w - - 0 1")));
    assert!(!has_kings_apart(&chars("k7/8/K7/8/8/8/8/K7 w - - 0 1")));
    assert!(!has_kings_apart(&chars("")));
}

#[test]
fn kings_stay_apart_under_legal_moves() {
    let mut positions = vec![
        Position::from_fen("k7/8/K7/8/8/8/8/8 w - - 0 1").unwrap(),
        Position::from_fen("r3k2r/8/8/8/8/8/8/R3K2R w KQkq - 0 1").unwrap(),
        Position::from_fen(KIWIPETE).unwrap(),
    ];
    for _ in 0..3 {
        let mut next = Vec::new();
        for position in &positions {
            for mv in position.legal_moves() {
                let after = position.play(mv);
                let record: Vec<char> = after.fen().chars().collect();
                assert!(has_kings_apart(&record), "{}", after.fen());
                after.status();
                if next.len() < 400 {
                    next.push(after);
                }
            }
        }
        positions = next;
    }
}

#[test]
fn ongoing_game_has_a_legal_move() {
    for fen in [START, KIWIPETE, FOOLS_MATE, STALEMATE, "k7/8/K7/8/8/8/8/8 w - - 0 1"] {
        let position = Position::from_fen(fen).unwrap();
        let ongoing = position.status() == GameStatus::Ongoing;
        assert_eq!(ongoing, !position.legal_moves().is_empty(), "{}", fen);
    }
}

#[test]
fn clone_keeps_the_position() {
    let board = Position::from_fen(KIWIPETE).unwrap();
    assert_eq!(board.clone().fen(), KIWIPETE);
}

#[test]
fn hash_is_the_hash_of_the_rules() {
    for fen in [START, KIWIPETE, FOOLS_MATE, STALEMATE] {
        let expected = cozy_chess::Board::from_fen(fen, false).unwrap().hash();
        assert_eq!(Position::from_fen(fen).unwrap().hash(), expected);
    }
    assert_ne!(Position::from_fen(START).unwrap().hash(), Position::from_fen(KIWIPETE).unwrap().hash());
}

#[test]
fn hash_leaves_the_clocks_out() {
    let one = Position::from_fen("8/8/8/8/8/8/k7/7K w - - 0 1").unwrap();
    let other = Position::from_fen("8/8/8/8/8/8/k7/7K w - - 12 40").unwrap();
    assert_eq!(one.hash(), other.hash());
}

#[test]
fn status_tells_how_the_game_stands() {
    assert_eq!(Position::startpos().status(), GameStatus::Ongoing);
    assert_eq!(Position::from_fen(FOOLS_MATE).unwrap().status(), GameStatus::Won);
    assert_eq!(Position::from_fen(STALEMATE).unwrap().status(), GameStatus::Drawn);
    let fifty = Position::from_fen("8/8/8/8/8/8/k7/7K w - - 100 80").unwrap();
    assert_eq!(fifty.status(), GameStatus::Drawn);
}

#[test]
fn side_to_move_is_read_from_the_position() {
    assert_eq!(Position::startpos().side_to_move(), Color::White);
    assert_eq!(Position::from_fen(STALEMATE).unwrap().side_to_move(), Color::Black);
    let after = Position::startpos().try_play(quiet(12, 28)).unwrap();
    assert_eq!(after.side_to_move(), Color::Black);
}

#[test]
fn piece_count_counts_each_side() {
    let start = Position::startpos();
    assert_eq!(start.piece_count(Color::White), 16);
    assert_eq!(start.piece_count(Color::Black), 16);
    let stalemate = Position::from_fen(STALEMATE).unwrap();
    assert_eq!(stalemate.piece_count(Color::White), 2);
    assert_eq!(stalemate.piece_count(Color::Black), 1);
}

#[test]
fn piece_count_is_the_count_of_letters_in_the_record() {
    for fen in [START, KIWIPETE, FOOLS_MATE, STALEMATE] {
        let board = Position::from_fen(fen).unwrap();
        let placement = fen.split(' ').next().unwrap();
        let white = placement.chars().filter(|c| c.is_ascii_uppercase()).count();
        let black = placement.chars().filter(|c| c.is_ascii_lowercase()).count();
        assert_eq!(board.piece_count(Color::White) as usize, white);
        assert_eq!(board.piece_count(Color::Black) as usize, black);
    }
}

#[test]
fn legal_moves_are_those_of_the_rules_in_their_order() {
    for fen in [START, KIWIPETE, FOOLS_MATE, STALEMATE, "8/P7/8/8/8/8/k7/7K w - - 0 1"] {
        let expected = moves_of(&cozy_chess::Board::from_fen(fen, false).unwrap());
        assert_eq!(Position::from_fen(fen).unwrap().legal_moves(), expected);
    }
    assert_eq!(Position::startpos().legal_moves().len(), 20);
    assert_eq!(Position::from_fen(KIWIPETE).unwrap().legal_moves().len(), 48);
    assert!(Position::from_fen(FOOLS_MATE).unwrap().legal_moves().is_empty());
}

#[test]
fn play_makes_the_move() {
    let start = Position::startpos();
    let pawn = quiet(12, 28);
    assert!(has_move(&start.legal_moves(), pawn));
    let next = start.play(pawn);
    assert_eq!(next.fen(), "rnbqkbnr/pppppppp/8/8/4P3/8/PPPP1PPP/RNBQKBNR b KQkq e3 0 1");
    assert_eq!(start.fen(), START);
}

#[test]
fn play_castles_and_promotes() {
    let kiwipete = Position::from_fen(KIWIPETE).unwrap();
    let castled = kiwipete.try_play(quiet(4, 7)).unwrap();
    assert_eq!(castled.fen(), "r3k2r/p1ppqpb1/bn2pnp1/3PN3/1p2P3/2N2Q1p/PPPBBPPP/R4RK1 b kq - 1 1");
    let pawn = Position::from_fen("8/P7/8/8/8/8/k7/7K w - - 0 1").unwrap();
    let queen = Move { from: 48, to: 56, promotion: Some(Piece::Queen) };
    assert_eq!(pawn.try_play(queen).unwrap().fen(), "Q7/8/8/8/8/8/k7/7K b - - 0 1");
    let knight = Move { from: 48, to: 56, promotion: Some(Piece::Knight) };
    assert_eq!(pawn.try_play(knight).unwrap().fen(), "N7/8/8/8/8/8/k7/7K b - - 0 1");
}

#[test]
fn try_play_refuses_what_is_not_legal() {
    let start = Position::startpos();
    assert!(start.try_play(quiet(12, 36)).is_none());
    assert!(start.try_play(quiet(4, 12)).is_none());
    assert!(start.try_play(quiet(200, 12)).is_none());
    assert!(start.try_play(Move { from: 12, to: 28, promotion: Some(Piece::Queen) }).is_none());
    assert!(Position::from_fen(FOOLS_MATE).unwrap().try_play(quiet(12, 20)).is_none());
}

#[test]
fn parse_move_reads_the_notation_of_the_protocol() {
    let start = Position::startpos();
    assert_eq!(start.parse_move(&chars("e2e4")), Some(quiet(12, 28)));
    assert_eq!(start.parse_move(&chars("g1f3")), Some(quiet(6, 21)));
    assert_eq!(start.parse_move(&chars("e2e5")), Some(quiet(12, 36)));
    let pawn = Position::from_fen("8/P7/8/8/8/8/k7/7K w - - 0 1").unwrap();
    assert_eq!(
        pawn.parse_move(&chars("a7a8q")),
        Some(Move { from: 48, to: 56, promotion: Some(Piece::Queen) })
    );
    assert_eq!(
        pawn.parse_move(&chars("a7a8r")),
        Some(Move { from: 48, to: 56, promotion: Some(Piece::Rook) })
    );
}

#[test]
fn parse_move_turns_castling_into_king_takes_rook() {
    let kiwipete = Position::from_fen(KIWIPETE).unwrap();
    assert_eq!(kiwipete.parse_move(&chars("e1g1")), Some(quiet(4, 7)));
    assert_eq!(kiwipete.parse_move(&chars("e1c1")), Some(quiet(4, 0)));
    assert_eq!(Position::startpos().parse_move(&chars("e1g1")), Some(quiet(4, 7)));
}

#[test]
fn parse_move_refuses_what_is_no_move() {
    let start = Position::startpos();
    for text in ["", "e2", "e2e", "e9e4", "i2e4", "E2E4", "0000", " e2e4"] {
        assert_eq!(start.parse_move(&chars(text)), None, "{:?}", text);
    }
}

#[test]
fn parse_move_agrees_with_the_rules() {
    let board = cozy_chess::Board::from_fen(KIWIPETE, false).unwrap();
    let position = Position::from_fen(KIWIPETE).unwrap();
    for text in ["e1g1", "e1c1", "e2e4", "a7a8q", "a7a8k", "a7a8x", "e2e4q", "e2e4qq", "h3g2", ""] {
        let expected = cozy_chess::util::parse_uci_move(&board, text).ok().map(lift);
        assert_eq!(position.parse_move(&chars(text)), expected, "{:?}", text);
    }
}

#[test]
fn same_move_compares_all_parts() {
    let queen = Move { from: 48, to: 56, promotion: Some(Piece::Queen) };
    let rook = Move { from: 48, to: 56, promotion: Some(Piece::Rook) };
    assert!(same_move(queen, queen));
    assert!(!same_move(queen, rook));
    assert!(!same_move(queen, quiet(48, 56)));
    assert!(!same_move(quiet(48, 56), queen));
    assert!(same_move(quiet(1, 2), quiet(1, 2)));
    assert!(!same_move(quiet(1, 2), quiet(2, 1)));
    assert!(!same_move(quiet(1, 2), quiet(1, 3)));
}

#[test]
fn has_move_looks_through_the_list() {
    let list = vec![quiet(1, 2), quiet(3, 4)];
    assert!(has_move(&list, quiet(3, 4)));
    assert!(has_move(&list, quiet(1, 2)));
    assert!(!has_move(&list, quiet(4, 3)));
    assert!(!has_move(&Vec::new(), quiet(1, 2)));
}

#[test]
fn piece_index_and_back() {
    let all = [Piece::Pawn, Piece::Knight, Piece::Bishop, Piece::Rook, Piece::Queen, Piece::King];
    for (index, piece) in all.iter().enumerate() {
        assert_eq!(piece.index(), index);
        assert_eq!(Piece::from_index(index), Some(*piece));
    }
    assert_eq!(Piece::from_index(6), None);
    assert_eq!(Piece::from_index(usize::MAX), None);
}
