//! A chess position: a board of `cozy_chess`, seen through its FEN record,
//! on which both kings stand apart from each other.

use vstd::prelude::*;
use cozy_chess::Board;
use crate::rules::{
    after_move, board_fen, board_from_fen, board_hash, board_legal_moves, board_parse_move,
    board_piece_count, board_play, board_side, board_status, fen_of, hash_of, king_letter,
    king_squares, kings_apart, kings_from, legal_moves_of, parsed_fen, pieces_in, side_in,
    start_board, start_fen, status_of, uci_move_of, Color, GameStatus, Move,
};
use crate::text::chars_of;

verus! {

/// A legal chess position with its clocks. Its view is its FEN record. In
/// every position both kings stand on the board, apart from each other.
pub struct Position {
    board: Board,
}

impl Clone for Position {
    fn clone(&self) -> (copy: Self)
        ensures
            copy@ == self@,
    {
        proof {
            use_type_invariant(self);
        }
        Position { board: self.board.clone() }
    }
}

impl View for Position {
    type V = Seq<char>;

    closed spec fn view(&self) -> Seq<char> {
        fen_of(self.board)
    }
}

/// Whether two moves are the same move.
pub fn same_move(a: Move, b: Move) -> (same: bool)
    ensures
        same == (a == b),
{
    a.from == b.from && a.to == b.to && match (a.promotion, b.promotion) {
        (None, None) => true,
        (Some(p), Some(q)) => p == q,
        _ => false,
    }
}

/// Whether a move occurs in a list of moves.
pub fn has_move(moves: &Vec<Move>, mv: Move) -> (found: bool)
    ensures
        found == moves@.contains(mv),
{
    let mut i: usize = 0;
    while i < moves.len()
        invariant
            i <= moves.len(),
            forall|j: int| 0 <= j < i ==> moves@[j] != mv,
        decreases moves.len() - i,
    {
        if same_move(moves[i], mv) {
            return true;
        }
        i += 1;
    }
    false
}

/// The end of the first field of a record: the index of its first space,
/// or its length where it has none.
fn first_field_end(record: &Vec<char>) -> (end: usize)
    ensures
        end <= record.len(),
        end < record.len() ==> record[end as int] == ' ',
        forall|i: int| 0 <= i < end ==> record[i] != ' ',
{
    let mut end: usize = 0;
    while end < record.len() && record[end] != ' '
        invariant
            end <= record.len(),
            forall|i: int| 0 <= i < end ==> record[i] != ' ',
        decreases record.len() - end,
    {
        end += 1;
    }
    end
}

/// Looks for the kings of one side in a record, see [`king_squares`]: how
/// many there are, and the rank and the file of the first.
pub fn find_king(record: &Vec<char>, color: Color) -> (found: (usize, usize, u128))
    ensures
        found.0 == king_squares(record@, color).len(),
        found.0 > 0 ==> king_squares(record@, color)[0] == (found.1 as int, found.2 as int),
        found.1 < record.len() || found.0 == 0,
        found.2 <= 9 * record.len(),
{
    let king = match color {
        Color::White => 'K',
        Color::Black => 'k',
    };
    let end = first_field_end(record);
    let mut count: usize = 0;
    let mut first_rank: usize = 0;
    let mut first_file: u128 = 0;
    let mut rank: usize = 0;
    let mut file: u128 = 0;
    let ghost mut seen: Seq<(int, int)> = Seq::empty();
    let mut at: usize = 0;
    while at < end
        invariant
            at <= end <= record.len(),
            end < record.len() ==> record[end as int] == ' ',
            forall|i: int| 0 <= i < end ==> record[i] != ' ',
            king == king_letter(color),
            rank <= at,
            file <= 9 * at,
            count == seen.len(),
            count <= at,
            count > 0 ==> seen[0] == (first_rank as int, first_file as int) && first_rank < at,
            first_file <= 9 * at,
            king_squares(record@, color) == seen + kings_from(
                record@,
                at as int,
                rank as int,
                file as int,
                king,
            ),
        decreases end - at,
    {
        let c = record[at];
        if c == '/' {
            rank += 1;
            file = 0;
        } else if '0' <= c && c <= '9' {
            file += (c as u64 - '0' as u64) as u128;
        } else {
            if c == king {
                if count == 0 {
                    first_rank = rank;
                    first_file = file;
                }
                proof {
                    let rest = kings_from(record@, at + 1, rank as int, file + 1, king);
                    assert(seen.push((rank as int, file as int)) + rest == seen + (seq![
                        (rank as int, file as int),
                    ] + rest));
                    seen = seen.push((rank as int, file as int));
                }
                count += 1;
            }
            file += 1;
        }
        at += 1;
    }
    assert(seen + Seq::<(int, int)>::empty() == seen);
    (count, first_rank, first_file)
}

/// Whether both kings stand in a record, apart from each other, see
/// [`kings_apart`].
pub fn has_kings_apart(record: &Vec<char>) -> (apart: bool)
    ensures
        apart == kings_apart(record@),
{
    let (white_count, white_rank, white_file) = find_king(record, Color::White);
    let (black_count, black_rank, black_file) = find_king(record, Color::Black);
    if white_count != 1 || black_count != 1 {
        return false;
    }
    let near_rank = white_rank <= black_rank + 1 && black_rank <= white_rank + 1;
    let near_file = white_file <= black_file + 1 && black_file <= white_file + 1;
    !(near_rank && near_file)
}

/// The record of the position that a text stands for: the record of the
/// board that the rules read from it, where they accept the text and both
/// kings stand apart on that board.
pub open spec fn accepted_record(text: Seq<char>) -> Option<Seq<char>> {
    match parsed_fen(text) {
        Some(record) => if kings_apart(record) {
            Some(record)
        } else {
            None
        },
        None => None,
    }
}

/// Both kings stand apart in the initial position.
pub proof fn start_has_kings_apart()
    ensures
        kings_apart(start_fen()),
{
    reveal_strlit("rnbqkbnr/pppppppp/8/8/8/8/PPPPPPPP/RNBQKBNR w KQkq - 0 1");
    reveal_with_fuel(kings_from, 46);
    let fen = start_fen();
    assert(king_squares(fen, Color::White) == seq![(7int, 4int)]);
    assert(king_squares(fen, Color::Black) == seq![(0int, 4int)]);
}

impl Position {
    #[verifier::type_invariant]
    spec fn kings_stand_apart(self) -> bool {
        kings_apart(fen_of(self.board))
    }

    /// The standard initial position.
    pub fn startpos() -> (start: Position)
        ensures
            start@ == start_fen(),
    {
        proof {
            start_has_kings_apart();
        }
        Position { board: start_board() }
    }

    /// Reads a position from a standard FEN record, see [`accepted_record`].
    /// A record on which a king is missing, or on which the kings stand
    /// next to each other, is refused like one that the rules refuse.
    pub fn from_fen(text: &str) -> (position: Option<Position>)
        ensures
            match position {
                Some(p) => accepted_record(text@) == Some(p@) && kings_apart(p@),
                None => accepted_record(text@) is None,
            },
    {
        match board_from_fen(text) {
            Some(board) => {
                let record = board_fen(&board);
                if has_kings_apart(&chars_of(record.as_str())) {
                    Some(Position { board })
                } else {
                    None
                }
            },
            None => None,
        }
    }

    /// The FEN record of the position.
    pub fn fen(&self) -> (fen: String)
        ensures
            fen@ == self@,
            kings_apart(fen@),
    {
        proof {
            use_type_invariant(self);
        }
        board_fen(&self.board)
    }

    pub fn hash(&self) -> (hash: u64)
        ensures
            hash == hash_of(self@),
    {
        board_hash(&self.board)
    }

    /// How the game stands. A game that goes on has a legal move.
    pub fn status(&self) -> (status: GameStatus)
        ensures
            status == status_of(self@),
            status == GameStatus::Ongoing ==> legal_moves_of(self@).len() > 0,
    {
        proof {
            use_type_invariant(self);
        }
        board_status(&self.board)
    }

    pub fn side_to_move(&self) -> (side: Color)
        ensures
            side == side_in(self@),
    {
        board_side(&self.board)
    }

    /// The number of pieces that one side has on the board.
    pub fn piece_count(&self, color: Color) -> (count: u32)
        ensures
            count == pieces_in(self@, color),
            count <= 64,
    {
        board_piece_count(&self.board, color)
    }

    pub fn legal_moves(&self) -> (moves: Vec<Move>)
        ensures
            moves@ == legal_moves_of(self@),
    {
        proof {
            use_type_invariant(self);
        }
        board_legal_moves(&self.board)
    }

    /// The position after a legal move.
    pub fn play(&self, mv: Move) -> (next: Position)
        requires
            legal_moves_of(self@).contains(mv),
        ensures
            next@ == after_move(self@, mv),
    {
        proof {
            use_type_invariant(self);
        }
        Position { board: board_play(&self.board, mv) }
    }

    /// The position after a move, or nothing where the move is not legal.
    pub fn try_play(&self, mv: Move) -> (next: Option<Position>)
        ensures
            match next {
                Some(p) => legal_moves_of(self@).contains(mv) && p@ == after_move(self@, mv),
                None => !legal_moves_of(self@).contains(mv),
            },
    {
        let moves = self.legal_moves();
        if has_move(&moves, mv) {
            Some(self.play(mv))
        } else {
            None
        }
    }

    /// Reads a move in the notation of the protocol, such as `e2e4` or
    /// `e7e8q`. The move read need not be legal.
    pub fn parse_move(&self, text: &Vec<char>) -> (mv: Option<Move>)
        ensures
            mv == uci_move_of(self@, text@),
    {
        proof {
            use_type_invariant(self);
        }
        board_parse_move(&self.board, text)
    }
}

} // verus!
