//! The rules of chess, taken from `cozy_chess`.
//!
//! A board of that crate is opaque here. What the search needs to know of it
//! is stated over its FEN record: each function below calls the crate and
//! says which value of the record it hands back. None of these contracts is
//! proved; they are what the proofs in the other modules rest on.
//!
//! The crate looks for the king of a side in several places and panics
//! where there is none, and it lets a king take the other king where the
//! two stand next to each other. The functions that need a king therefore
//! ask for it, and [`crate::position::Position`] only holds boards on which
//! both kings stand, apart from each other.

use vstd::prelude::*;
use cozy_chess::Board;

verus! {

/// One of the two sides.
#[derive(Clone, Copy, Debug, PartialEq, Eq, Structural)]
pub enum Color {
    White,
    Black,
}

/// Whether a game has ended, and how.
#[derive(Clone, Copy, Debug, PartialEq, Eq, Structural)]
pub enum GameStatus {
    /// The side to move has been mated.
    Won,
    /// Stalemate, or a hundred half-moves without capture or pawn move.
    Drawn,
    Ongoing,
}

/// A kind of piece, in rising order of rank.
#[derive(Clone, Copy, Debug, PartialEq, Eq, Structural)]
pub enum Piece {
    Pawn,
    Knight,
    Bishop,
    Rook,
    Queen,
    King,
}

/// A move between two squares. Squares count from 0 (a1) along the first
/// rank to 7 (h1), then rank by rank up to 63 (h8). Castling is the king
/// moving onto its own rook.
#[derive(Clone, Copy, Debug, PartialEq, Eq)]
pub struct Move {
    pub from: u8,
    pub to: u8,
    pub promotion: Option<Piece>,
}

impl Piece {
    /// The rank of the kind, 0 for a pawn up to 5 for a king.
    pub open spec fn rank(self) -> int {
        match self {
            Piece::Pawn => 0,
            Piece::Knight => 1,
            Piece::Bishop => 2,
            Piece::Rook => 3,
            Piece::Queen => 4,
            Piece::King => 5,
        }
    }

    pub fn index(self) -> (i: usize)
        ensures
            i == self.rank(),
    {
        match self {
            Piece::Pawn => 0,
            Piece::Knight => 1,
            Piece::Bishop => 2,
            Piece::Rook => 3,
            Piece::Queen => 4,
            Piece::King => 5,
        }
    }

    pub fn from_index(i: usize) -> (piece: Option<Piece>)
        ensures
            match piece {
                Some(p) => p.rank() == i,
                None => i > 5,
            },
    {
        match i {
            0 => Some(Piece::Pawn),
            1 => Some(Piece::Knight),
            2 => Some(Piece::Bishop),
            3 => Some(Piece::Rook),
            4 => Some(Piece::Queen),
            5 => Some(Piece::King),
            _ => None,
        }
    }
}

/// `cozy_chess::Board`, of which the verifier sees nothing but the name.
#[verifier::external_type_specification]
#[verifier::external_body]
pub struct ExBoard(cozy_chess::Board);

/// The FEN record of the standard initial position.
pub open spec fn start_fen() -> Seq<char> {
    "rnbqkbnr/pppppppp/8/8/8/8/PPPPPPPP/RNBQKBNR w KQkq - 0 1"@
}

/// The FEN record that `cozy_chess` prints for a board. The boards of this
/// crate come from the initial position, from standard records and from
/// legal moves on such boards only, so the record fixes the board.
pub uninterp spec fn fen_of(board: Board) -> Seq<char>;

/// The record of the board that `Board::from_fen` reads from a text, if it
/// accepts the text.
pub uninterp spec fn parsed_fen(text: Seq<char>) -> Option<Seq<char>>;

/// The Zobrist hash that `Board::hash` gives for the board with this record.
pub uninterp spec fn hash_of(fen: Seq<char>) -> u64;

/// What `Board::status` says of the board with this record.
pub uninterp spec fn status_of(fen: Seq<char>) -> GameStatus;

/// The legal moves of the board with this record, in the order in which
/// `Board::generate_moves` hands them out.
pub uninterp spec fn legal_moves_of(fen: Seq<char>) -> Seq<Move>;

/// The record of the board after `Board::play_unchecked` has made a move.
pub uninterp spec fn after_move(fen: Seq<char>, mv: Move) -> Seq<char>;

/// The move that `util::parse_uci_move` reads from a text on the board with
/// this record, if it accepts the text.
pub uninterp spec fn uci_move_of(fen: Seq<char>, text: Seq<char>) -> Option<Move>;

/// Length of the first field of a record: the characters before the first space.
pub open spec fn first_field_len(fen: Seq<char>) -> nat
    decreases fen.len(),
{
    if fen.len() == 0 || fen[0] == ' ' {
        0
    } else {
        1 + first_field_len(fen.drop_first())
    }
}

/// How many characters of `text` lie between `low` and `high`.
pub open spec fn count_between(text: Seq<char>, low: char, high: char) -> nat
    decreases text.len(),
{
    if text.len() == 0 {
        0
    } else {
        count_between(text.drop_last(), low, high) + if low <= text.last() && text.last() <= high {
            1nat
        } else {
            0nat
        }
    }
}

/// The side to move that a record names: black where the second field
/// starts with `b`, white otherwise.
pub open spec fn side_in(fen: Seq<char>) -> Color {
    let at = first_field_len(fen) + 1;
    if at < fen.len() && fen[at as int] == 'b' {
        Color::Black
    } else {
        Color::White
    }
}

/// The number of pieces of one side in a record: the upper-case letters of
/// the placement field for white, the lower-case ones for black.
pub open spec fn pieces_in(fen: Seq<char>, color: Color) -> nat {
    let placement = fen.take(first_field_len(fen) as int);
    match color {
        Color::White => count_between(placement, 'A', 'Z'),
        Color::Black => count_between(placement, 'a', 'z'),
    }
}

/// The letter that a record writes for the king of a side.
pub open spec fn king_letter(color: Color) -> char {
    match color {
        Color::White => 'K',
        Color::Black => 'k',
    }
}

/// The squares on which `king` stands in the placement field of a record,
/// read from the index `at` on, with `rank` and `file` the square that the
/// character there stands for. Ranks count from the top of the board, as
/// the record writes them, and files from the left; a digit skips as many
/// files as it says and `/` starts the next rank.
pub open spec fn kings_from(fen: Seq<char>, at: int, rank: int, file: int, king: char) -> Seq<
    (int, int),
>
    decreases fen.len() - at,
{
    if at < 0 || at >= fen.len() || fen[at] == ' ' {
        Seq::empty()
    } else if fen[at] == '/' {
        kings_from(fen, at + 1, rank + 1, 0, king)
    } else if '0' <= fen[at] && fen[at] <= '9' {
        kings_from(fen, at + 1, rank, file + (fen[at] as int - '0' as int), king)
    } else if fen[at] == king {
        seq![(rank, file)] + kings_from(fen, at + 1, rank, file + 1, king)
    } else {
        kings_from(fen, at + 1, rank, file + 1, king)
    }
}

/// The squares on which the kings of one side stand in a record.
pub open spec fn king_squares(fen: Seq<char>, color: Color) -> Seq<(int, int)> {
    kings_from(fen, 0, 0, 0, king_letter(color))
}

/// The record holds a king of this side.
pub open spec fn has_king(fen: Seq<char>, color: Color) -> bool {
    king_squares(fen, color).len() > 0
}

/// Two squares that touch, or are the same square.
pub open spec fn neighbours(one: (int, int), other: (int, int)) -> bool {
    -1 <= one.0 - other.0 <= 1 && -1 <= one.1 - other.1 <= 1
}

/// The record holds one king of each side, and the two do not stand next
/// to each other.
pub open spec fn kings_apart(fen: Seq<char>) -> bool {
    let white = king_squares(fen, Color::White);
    let black = king_squares(fen, Color::Black);
    white.len() == 1 && black.len() == 1 && !neighbours(white[0], black[0])
}

/// `Clone` for `Board`, which the crate derives: the copy is the same board.
pub assume_specification[ <Board as Clone>::clone ](board: &Board) -> (copy: Board)
    ensures
        copy == *board,
;

/// `Board::startpos`. Its record is the one that the crate's documentation
/// shows for the default board.
#[verifier::external_body]
pub(crate) fn start_board() -> (board: Board)
    ensures
        fen_of(board) == start_fen(),
{
    Board::startpos()
}

/// `Board::from_fen`, reading a standard (not Shredder) record. The error,
/// which only says which field was refused, is dropped.
#[verifier::external_body]
pub(crate) fn board_from_fen(text: &str) -> (board: Option<Board>)
    ensures
        match board {
            Some(b) => parsed_fen(text@) == Some(fen_of(b)),
            None => parsed_fen(text@) is None,
        },
{
    Board::from_fen(text, false).ok()
}

/// The `Display` impl of `Board`, which writes the standard FEN record.
#[verifier::external_body]
pub(crate) fn board_fen(board: &Board) -> (fen: String)
    ensures
        fen@ == fen_of(*board),
{
    format!("{}", board)
}

/// `Board::hash`.
#[verifier::external_body]
pub(crate) fn board_hash(board: &Board) -> (hash: u64)
    ensures
        hash == hash_of(fen_of(*board)),
{
    board.hash()
}

/// `Board::status`. It looks for the king of the side that is to move. A
/// game goes on only where the generation of moves has handed out a set of
/// moves, and no set is empty: an ongoing game has a legal move.
#[verifier::external_body]
pub(crate) fn board_status(board: &Board) -> (status: GameStatus)
    requires
        has_king(fen_of(*board), side_in(fen_of(*board))),
    ensures
        status == status_of(fen_of(*board)),
        status == GameStatus::Ongoing ==> legal_moves_of(fen_of(*board)).len() > 0,
{
    match board.status() {
        cozy_chess::GameStatus::Won => GameStatus::Won,
        cozy_chess::GameStatus::Drawn => GameStatus::Drawn,
        cozy_chess::GameStatus::Ongoing => GameStatus::Ongoing,
    }
}

/// `Board::side_to_move`. The record names the side in its second field,
/// as `w` or `b`.
#[verifier::external_body]
pub(crate) fn board_side(board: &Board) -> (side: Color)
    ensures
        side == side_in(fen_of(*board)),
{
    match board.side_to_move() {
        cozy_chess::Color::White => Color::White,
        cozy_chess::Color::Black => Color::Black,
    }
}

/// `Board::colors` and `BitBoard::len`: the number of squares that one side
/// occupies. The record writes one letter for each of them, in upper case
/// for white and in lower case for black; a bit board has 64 squares.
#[verifier::external_body]
pub(crate) fn board_piece_count(board: &Board, color: Color) -> (count: u32)
    ensures
        count == pieces_in(fen_of(*board), color),
        count <= 64,
{
    match color {
        Color::White => board.colors(cozy_chess::Color::White).len(),
        Color::Black => board.colors(cozy_chess::Color::Black).len(),
    }
}

/// `Board::generate_moves`, with a listener that takes every move and never
/// stops the generation. Squares and pieces pass by their index, which the
/// crate counts as [`Move`] and [`Piece`] do. The generation looks for the
/// king of the side that is to move.
#[verifier::external_body]
pub(crate) fn board_legal_moves(board: &Board) -> (moves: Vec<Move>)
    requires
        has_king(fen_of(*board), side_in(fen_of(*board))),
    ensures
        moves@ == legal_moves_of(fen_of(*board)),
{
    let mut moves = Vec::new();
    board.generate_moves(|set| {
        moves.extend(set.into_iter().map(|mv| Move {
            from: mv.from as u8,
            to: mv.to as u8,
            promotion: mv.promotion.and_then(|p| Piece::from_index(p as usize)),
        }));
        false
    });
    moves
}

/// `Board::play_unchecked` on a copy of the board. The crate may panic on a
/// move that is not legal, so only legal moves are admitted; their squares
/// and pieces have an index that the crate knows. It looks for both kings.
///
/// Both kings stay, apart from each other: the crate lets a king move to
/// no square next to the other king, castling included, and on the boards
/// of this library the side that is not to move is never in check, so that
/// no other piece can take a king either.
#[verifier::external_body]
pub(crate) fn board_play(board: &Board, mv: Move) -> (next: Board)
    requires
        kings_apart(fen_of(*board)),
        legal_moves_of(fen_of(*board)).contains(mv),
    ensures
        fen_of(next) == after_move(fen_of(*board), mv),
        kings_apart(fen_of(next)),
{
    let mut next = board.clone();
    next.play_unchecked(cozy_chess::Move {
        from: cozy_chess::Square::index(mv.from as usize),
        to: cozy_chess::Square::index(mv.to as usize),
        promotion: mv.promotion.map(|p| cozy_chess::Piece::index(p.index())),
    });
    next
}

/// `util::parse_uci_move`, which reads a move in the notation of the
/// protocol and turns a castling move into the king taking its rook. The
/// error, which says nothing more, is dropped. To tell a castling move, the
/// crate looks for the king of the side that is to move.
#[verifier::external_body]
pub(crate) fn board_parse_move(board: &Board, text: &Vec<char>) -> (mv: Option<Move>)
    requires
        has_king(fen_of(*board), side_in(fen_of(*board))),
    ensures
        mv == uci_move_of(fen_of(*board), text@),
{
    let text: String = text.iter().collect();
    cozy_chess::util::parse_uci_move(board, &text).ok().map(|mv| Move {
        from: mv.from as u8,
        to: mv.to as u8,
        promotion: mv.promotion.and_then(|p| Piece::from_index(p as usize)),
    })
}

} // verus!
