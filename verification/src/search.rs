//! What the search computes: the static score of a position, the negamax
//! value of the move tree below it, and the number of its leaves.
//!
//! The search may be cancelled from outside at every node it enters. Its
//! result is therefore stated for every way in which the cancellation flag
//! can answer: [`Polls`] records the answers, and [`search`] says what comes
//! out for each record.

use vstd::prelude::*;
use crate::position::Position;
use crate::rules::{
    after_move, hash_of, legal_moves_of, pieces_in, side_in, status_of, Color, GameStatus, Move,
};

verus! {

/// The score of a won game. Scores lie between its negative and itself.
pub const WIN_SCORE: i32 = 1000;

/// The number of plies that a search for the best move looks ahead.
pub const SEARCH_DEPTH: u8 = 3;

/// The lead in pieces of the side that is to move: the number of white
/// pieces less the number of black ones, negated for black. Every piece
/// counts as one.
pub open spec fn balance(white: int, black: int, side: Color) -> int {
    match side {
        Color::White => white - black,
        Color::Black => black - white,
    }
}

/// The score of a won game by the side that is to move in it: the full
/// score where that is white, its negative where it is black.
pub open spec fn won_value(side: Color) -> int {
    match side {
        Color::White => WIN_SCORE as int,
        Color::Black => -WIN_SCORE,
    }
}

/// The static score of a position for the side that is to move, see
/// [`balance`].
pub open spec fn material(fen: Seq<char>) -> int {
    balance(
        pieces_in(fen, Color::White) as int,
        pieces_in(fen, Color::Black) as int,
        side_in(fen),
    )
}

/// The score of a position at which the search goes no further: nothing
/// for a draw, the material for a game that goes on, and for a won game
/// what [`won_value`] says.
pub open spec fn leaf_score(fen: Seq<char>) -> int {
    match status_of(fen) {
        GameStatus::Drawn => 0,
        GameStatus::Won => won_value(side_in(fen)),
        GameStatus::Ongoing => material(fen),
    }
}

/// Computes [`balance`] from the two counts of pieces.
pub fn material_balance(white: u32, black: u32, side: Color) -> (score: i64)
    ensures
        score == balance(white as int, black as int, side),
{
    let white: i64 = white as i64;
    let black: i64 = black as i64;
    match side {
        Color::White => white - black,
        Color::Black => black - white,
    }
}

/// Computes [`won_value`].
pub fn won_score(side: Color) -> (score: i32)
    ensures
        score == won_value(side),
{
    match side {
        Color::White => WIN_SCORE,
        Color::Black => -WIN_SCORE,
    }
}

/// Scores a position by its material, see [`material`].
pub fn evaluate(board: &Position) -> (score: i32)
    ensures
        score == material(board@),
        -64 <= score <= 64,
{
    let white = board.piece_count(Color::White);
    let black = board.piece_count(Color::Black);
    material_balance(white, black, board.side_to_move()) as i32
}

/// Scores a position at which the search goes no further, see [`leaf_score`].
pub fn score_leaf(board: &Position) -> (score: i32)
    ensures
        score == leaf_score(board@),
        -WIN_SCORE <= score <= WIN_SCORE,
{
    match board.status() {
        GameStatus::Drawn => 0,
        GameStatus::Won => won_score(board.side_to_move()),
        GameStatus::Ongoing => evaluate(board),
    }
}

/// What the cancellation flag answered when the search entered a node, and
/// what it answered below that node, one record for each move in turn.
pub struct Polls {
    pub stop: bool,
    pub below: Seq<Polls>,
}

/// What a search hands back: the best move with its score, and the number
/// of moves that it made on the way.
pub struct Outcome {
    pub best: Option<Move>,
    pub score: int,
    pub nodes: nat,
}

/// The outcome of a search that makes no move on its way.
pub open spec fn at_once(score: int) -> Outcome {
    Outcome { best: None, score, nodes: 0 }
}

/// The negamax search of the position with record `fen`, `depth` plies deep.
/// `line` holds the hashes of the positions that led here in this search.
///
/// A search that finds the flag raised gives no move and no score. One that
/// has no depth left, or stands at the end of a game, gives the score of
/// the leaf. One that stands on a position of its own line is a draw by
/// repetition. Every other search tries each legal move in turn, see
/// [`search_moves`].
pub open spec fn search(fen: Seq<char>, depth: nat, line: Seq<u64>, polls: Polls) -> Outcome
    decreases depth, 1nat, 0nat,
{
    if polls.stop {
        at_once(0)
    } else if depth == 0 || status_of(fen) != GameStatus::Ongoing {
        at_once(leaf_score(fen))
    } else if line.contains(hash_of(fen)) {
        at_once(0)
    } else {
        search_moves(
            fen,
            depth,
            seq![hash_of(fen)] + line,
            polls.below,
            legal_moves_of(fen).len(),
        )
    }
}

/// The outcome of trying the first `count` legal moves of a position. Each
/// move is searched one ply less deep, on a line that holds this position
/// too, and scores the negative of what that search gives. A move is the
/// best one where it scores more than every move before it and more than
/// the score of a lost game, with which the count begins.
pub open spec fn search_moves(
    fen: Seq<char>,
    depth: nat,
    line: Seq<u64>,
    below: Seq<Polls>,
    count: nat,
) -> Outcome
    decreases depth, 0nat, count,
{
    if depth == 0 || count == 0 {
        Outcome { best: None, score: -WIN_SCORE, nodes: 0 }
    } else {
        let before = search_moves(fen, depth, line, below, (count - 1) as nat);
        let mv = legal_moves_of(fen)[count - 1];
        let reply = search(after_move(fen, mv), (depth - 1) as nat, line, below[count - 1]);
        let nodes = before.nodes + 1 + reply.nodes;
        if -reply.score > before.score {
            Outcome { best: Some(mv), score: -reply.score, nodes }
        } else {
            Outcome { best: before.best, score: before.score, nodes }
        }
    }
}

/// Trying the first `count` moves asks for the records of those moves only.
pub proof fn search_moves_reads_its_polls(
    fen: Seq<char>,
    depth: nat,
    line: Seq<u64>,
    first: Seq<Polls>,
    second: Seq<Polls>,
    count: nat,
)
    requires
        forall|i: int| 0 <= i < count ==> first[i] == second[i],
    ensures
        search_moves(fen, depth, line, first, count) == search_moves(
            fen,
            depth,
            line,
            second,
            count,
        ),
    decreases count,
{
    if depth > 0 && count > 0 {
        search_moves_reads_its_polls(fen, depth, line, first, second, (count - 1) as nat);
    }
}

proof fn tried_move_is_legal(
    fen: Seq<char>,
    depth: nat,
    line: Seq<u64>,
    below: Seq<Polls>,
    count: nat,
)
    requires
        count <= legal_moves_of(fen).len(),
    ensures
        search_moves(fen, depth, line, below, count).best matches Some(mv) ==> legal_moves_of(
            fen,
        ).contains(mv),
    decreases count,
{
    if depth > 0 && count > 0 {
        tried_move_is_legal(fen, depth, line, below, (count - 1) as nat);
        assert(legal_moves_of(fen).contains(legal_moves_of(fen)[count - 1]));
    }
}

/// The move that a search hands back is a legal move of the position.
pub proof fn best_move_is_legal(fen: Seq<char>, depth: nat, line: Seq<u64>, polls: Polls)
    ensures
        search(fen, depth, line, polls).best matches Some(mv) ==> legal_moves_of(fen).contains(mv),
{
    tried_move_is_legal(
        fen,
        depth,
        seq![hash_of(fen)] + line,
        polls.below,
        legal_moves_of(fen).len(),
    );
}

/// A search that finds the cancellation flag raised when it starts makes no
/// move and hands back neither a move nor a score.
pub proof fn cancelled_search_gives_nothing(
    fen: Seq<char>,
    depth: nat,
    line: Seq<u64>,
    polls: Polls,
)
    requires
        polls.stop,
    ensures
        search(fen, depth, line, polls) == at_once(0),
{
}

/// At the end of a game the search gives the score of a won game, which
/// goes by the side that is to move, and nothing for a draw, whatever the
/// depth and the line.
pub proof fn ended_game_scores(fen: Seq<char>, depth: nat, line: Seq<u64>, polls: Polls)
    requires
        !polls.stop,
        status_of(fen) != GameStatus::Ongoing,
    ensures
        search(fen, depth, line, polls).best is None,
        search(fen, depth, line, polls).nodes == 0,
        status_of(fen) == GameStatus::Drawn ==> search(fen, depth, line, polls).score == 0,
        status_of(fen) == GameStatus::Won ==> search(fen, depth, line, polls).score == won_value(
            side_in(fen),
        ),
{
}

/// A position that stands on the line of the search already is a draw,
/// whatever its material, as long as the game goes on and depth is left.
pub proof fn repeated_position_is_drawn(fen: Seq<char>, depth: nat, line: Seq<u64>, polls: Polls)
    requires
        !polls.stop,
        depth > 0,
        status_of(fen) == GameStatus::Ongoing,
        line.contains(hash_of(fen)),
    ensures
        search(fen, depth, line, polls) == at_once(0),
{
}

/// Two records are mirrors of each other, as far as a leaf shows it: the
/// other side is to move, the game stands the same, and the two sides have
/// each other's number of pieces.
pub open spec fn mirrored(fen: Seq<char>, mirror: Seq<char>) -> bool {
    &&& side_in(fen) != side_in(mirror)
    &&& status_of(fen) == status_of(mirror)
    &&& pieces_in(fen, Color::White) == pieces_in(mirror, Color::Black)
    &&& pieces_in(fen, Color::Black) == pieces_in(mirror, Color::White)
}

/// Mirrored positions at which the search goes no further score the
/// negative of each other where the game has ended or the material is even.
pub proof fn mirrored_leaves_negate(
    fen: Seq<char>,
    mirror: Seq<char>,
    depth: nat,
    line: Seq<u64>,
    mirror_line: Seq<u64>,
    polls: Polls,
    mirror_polls: Polls,
)
    requires
        mirrored(fen, mirror),
        !polls.stop,
        !mirror_polls.stop,
        depth == 0 || status_of(fen) != GameStatus::Ongoing,
        status_of(fen) != GameStatus::Ongoing || pieces_in(fen, Color::White) == pieces_in(
            fen,
            Color::Black,
        ),
    ensures
        search(mirror, depth, mirror_line, mirror_polls).score == -search(
            fen,
            depth,
            line,
            polls,
        ).score,
{
}

/// The static score does not change under mirroring: it is the score of the
/// side that is to move.
pub proof fn mirrored_material_is_equal(fen: Seq<char>, mirror: Seq<char>)
    requires
        mirrored(fen, mirror),
    ensures
        material(mirror) == material(fen),
{
}

/// The record of the position after the legal move with the index `i`.
pub open spec fn reply_to(fen: Seq<char>, i: int) -> Seq<char> {
    after_move(fen, legal_moves_of(fen)[i])
}

/// Two positions are mirrors of each other through `depth` plies: they are
/// mirrored themselves, either both stand on their line or neither does,
/// and where depth is left every move of the one leads to the mirror, one
/// ply less deep, of where some move of the other leads. The moves need
/// not come in the same order.
pub open spec fn mirrored_below(
    fen: Seq<char>,
    mirror: Seq<char>,
    depth: nat,
    line: Seq<u64>,
    mirror_line: Seq<u64>,
) -> bool
    decreases depth,
{
    &&& mirrored(fen, mirror)
    &&& line.contains(hash_of(fen)) <==> mirror_line.contains(hash_of(mirror))
    &&& depth > 0 ==> {
        &&& forall|i: int|
            #![trigger reply_to(fen, i)]
            0 <= i < legal_moves_of(fen).len() ==> exists|j: int|
                #![trigger reply_to(mirror, j)]
                0 <= j < legal_moves_of(mirror).len() && mirrored_below(
                    reply_to(fen, i),
                    reply_to(mirror, j),
                    (depth - 1) as nat,
                    seq![hash_of(fen)] + line,
                    seq![hash_of(mirror)] + mirror_line,
                )
        &&& forall|j: int|
            #![trigger reply_to(mirror, j)]
            0 <= j < legal_moves_of(mirror).len() ==> exists|i: int|
                #![trigger reply_to(fen, i)]
                0 <= i < legal_moves_of(fen).len() && mirrored_below(
                    reply_to(fen, i),
                    reply_to(mirror, j),
                    (depth - 1) as nat,
                    seq![hash_of(fen)] + line,
                    seq![hash_of(mirror)] + mirror_line,
                )
    }
}

/// No position within `depth` plies of this one is won.
pub open spec fn never_won(fen: Seq<char>, depth: nat) -> bool
    decreases depth,
{
    &&& status_of(fen) != GameStatus::Won
    &&& depth > 0 ==> forall|i: int|
        #![trigger reply_to(fen, i)]
        0 <= i < legal_moves_of(fen).len() ==> never_won(reply_to(fen, i), (depth - 1) as nat)
}

/// The cancellation flag stays down throughout a search of `depth` plies
/// from a position on a line: no poll that the search makes, at the
/// position or where it tries its moves, asks it to stop.
pub open spec fn undisturbed(polls: Polls, fen: Seq<char>, depth: nat, line: Seq<u64>) -> bool
    decreases depth,
{
    &&& !polls.stop
    &&& depth > 0 && status_of(fen) == GameStatus::Ongoing && !line.contains(hash_of(fen))
        ==> forall|i: int|
        #![trigger reply_to(fen, i)]
        0 <= i < legal_moves_of(fen).len() ==> undisturbed(
            polls.below[i],
            reply_to(fen, i),
            (depth - 1) as nat,
            seq![hash_of(fen)] + line,
        )
}

proof fn undisturbed_moves_are_fixed(
    fen: Seq<char>,
    depth: nat,
    line: Seq<u64>,
    one: Seq<Polls>,
    other: Seq<Polls>,
    count: nat,
)
    requires
        depth > 0,
        count <= legal_moves_of(fen).len(),
        forall|i: int|
            #![trigger reply_to(fen, i)]
            0 <= i < legal_moves_of(fen).len() ==> undisturbed(
                one[i],
                reply_to(fen, i),
                (depth - 1) as nat,
                line,
            ) && undisturbed(other[i], reply_to(fen, i), (depth - 1) as nat, line),
    ensures
        search_moves(fen, depth, line, one, count) == search_moves(fen, depth, line, other, count),
    decreases depth, 0nat, count,
{
    if count > 0 {
        undisturbed_moves_are_fixed(fen, depth, line, one, other, (count - 1) as nat);
        let reply = reply_to(fen, count - 1);
        undisturbed_search_is_fixed(
            reply,
            (depth - 1) as nat,
            line,
            one[count - 1],
            other[count - 1],
        );
    }
}

/// A search during which the flag stays down gives what the position, the
/// depth and the line fix: whatever else the two records hold, the outcome
/// is the same.
pub proof fn undisturbed_search_is_fixed(
    fen: Seq<char>,
    depth: nat,
    line: Seq<u64>,
    one: Polls,
    other: Polls,
)
    requires
        undisturbed(one, fen, depth, line),
        undisturbed(other, fen, depth, line),
    ensures
        search(fen, depth, line, one) == search(fen, depth, line, other),
    decreases depth, 1nat, 0nat,
{
    if depth > 0 && status_of(fen) == GameStatus::Ongoing && !line.contains(hash_of(fen)) {
        undisturbed_moves_are_fixed(
            fen,
            depth,
            seq![hash_of(fen)] + line,
            one.below,
            other.below,
            legal_moves_of(fen).len(),
        );
    }
}

/// The score of the legal move with the index `i`: the negative of what
/// the search of the position after it gives.
pub open spec fn move_score(
    fen: Seq<char>,
    depth: nat,
    line: Seq<u64>,
    below: Seq<Polls>,
    i: int,
) -> int {
    -search(reply_to(fen, i), (depth - 1) as nat, line, below[i]).score
}

/// The score of the first `count` moves is the greatest of their scores
/// and the score of a lost game.
pub proof fn best_score_is_greatest(
    fen: Seq<char>,
    depth: nat,
    line: Seq<u64>,
    below: Seq<Polls>,
    count: nat,
)
    requires
        depth > 0,
    ensures
        search_moves(fen, depth, line, below, count).score >= -WIN_SCORE,
        forall|i: int|
            0 <= i < count ==> search_moves(fen, depth, line, below, count).score >= #[trigger] move_score(
                fen,
                depth,
                line,
                below,
                i,
            ),
        search_moves(fen, depth, line, below, count).score == -WIN_SCORE || exists|i: int|
            0 <= i < count && search_moves(fen, depth, line, below, count).score
                == #[trigger] move_score(fen, depth, line, below, i),
    decreases count,
{
    if count > 0 {
        best_score_is_greatest(fen, depth, line, below, (count - 1) as nat);
        let before = search_moves(fen, depth, line, below, (count - 1) as nat);
        let last = move_score(fen, depth, line, below, count - 1);
        if before.score != -WIN_SCORE && !(last > before.score) {
            let i = choose|i: int|
                0 <= i < count - 1 && before.score == #[trigger] move_score(
                    fen,
                    depth,
                    line,
                    below,
                    i,
                );
            assert(0 <= i < count);
        }
    }
}

proof fn mirrored_moves_score_no_less(
    fen: Seq<char>,
    mirror: Seq<char>,
    depth: nat,
    line: Seq<u64>,
    mirror_line: Seq<u64>,
    polls: Polls,
    mirror_polls: Polls,
    i: int,
) -> (j: int)
    requires
        depth > 0,
        status_of(fen) == GameStatus::Ongoing,
        !line.contains(hash_of(fen)),
        mirrored_below(fen, mirror, depth, line, mirror_line),
        never_won(fen, depth),
        undisturbed(polls, fen, depth, line),
        undisturbed(mirror_polls, mirror, depth, mirror_line),
        0 <= i < legal_moves_of(fen).len(),
    ensures
        0 <= j < legal_moves_of(mirror).len(),
        move_score(mirror, depth, seq![hash_of(mirror)] + mirror_line, mirror_polls.below, j)
            == move_score(fen, depth, seq![hash_of(fen)] + line, polls.below, i),
    decreases depth, 0nat,
{
    let reply = reply_to(fen, i);
    let j = choose|j: int|
        #![trigger reply_to(mirror, j)]
        0 <= j < legal_moves_of(mirror).len() && mirrored_below(
            reply,
            reply_to(mirror, j),
            (depth - 1) as nat,
            seq![hash_of(fen)] + line,
            seq![hash_of(mirror)] + mirror_line,
        );
    let mirror_reply = reply_to(mirror, j);
    mirrored_searches_agree(
        reply,
        mirror_reply,
        (depth - 1) as nat,
        seq![hash_of(fen)] + line,
        seq![hash_of(mirror)] + mirror_line,
        polls.below[i],
        mirror_polls.below[j],
    );
    j
}

proof fn mirror_moves_score_no_less(
    fen: Seq<char>,
    mirror: Seq<char>,
    depth: nat,
    line: Seq<u64>,
    mirror_line: Seq<u64>,
    polls: Polls,
    mirror_polls: Polls,
    j: int,
) -> (i: int)
    requires
        depth > 0,
        status_of(fen) == GameStatus::Ongoing,
        !line.contains(hash_of(fen)),
        mirrored_below(fen, mirror, depth, line, mirror_line),
        never_won(fen, depth),
        undisturbed(polls, fen, depth, line),
        undisturbed(mirror_polls, mirror, depth, mirror_line),
        0 <= j < legal_moves_of(mirror).len(),
    ensures
        0 <= i < legal_moves_of(fen).len(),
        move_score(mirror, depth, seq![hash_of(mirror)] + mirror_line, mirror_polls.below, j)
            == move_score(fen, depth, seq![hash_of(fen)] + line, polls.below, i),
    decreases depth, 0nat,
{
    let mirror_reply = reply_to(mirror, j);
    let i = choose|i: int|
        #![trigger reply_to(fen, i)]
        0 <= i < legal_moves_of(fen).len() && mirrored_below(
            reply_to(fen, i),
            mirror_reply,
            (depth - 1) as nat,
            seq![hash_of(fen)] + line,
            seq![hash_of(mirror)] + mirror_line,
        );
    let reply = reply_to(fen, i);
    mirrored_searches_agree(
        reply,
        mirror_reply,
        (depth - 1) as nat,
        seq![hash_of(fen)] + line,
        seq![hash_of(mirror)] + mirror_line,
        polls.below[i],
        mirror_polls.below[j],
    );
    i
}

/// A search that is not cancelled gives mirrored positions the same score,
/// which is the score of the side that is to move, as long as no position
/// that it reaches is won.
pub proof fn mirrored_searches_agree(
    fen: Seq<char>,
    mirror: Seq<char>,
    depth: nat,
    line: Seq<u64>,
    mirror_line: Seq<u64>,
    polls: Polls,
    mirror_polls: Polls,
)
    requires
        mirrored_below(fen, mirror, depth, line, mirror_line),
        never_won(fen, depth),
        undisturbed(polls, fen, depth, line),
        undisturbed(mirror_polls, mirror, depth, mirror_line),
    ensures
        search(mirror, depth, mirror_line, mirror_polls).score == search(
            fen,
            depth,
            line,
            polls,
        ).score,
    decreases depth, 1nat,
{
    if depth > 0 && status_of(fen) == GameStatus::Ongoing && !line.contains(hash_of(fen)) {
        let below_line = seq![hash_of(fen)] + line;
        let mirror_below_line = seq![hash_of(mirror)] + mirror_line;
        let count = legal_moves_of(fen).len();
        let mirror_count = legal_moves_of(mirror).len();
        let best = search_moves(fen, depth, below_line, polls.below, count).score;
        let mirror_best = search_moves(
            mirror,
            depth,
            mirror_below_line,
            mirror_polls.below,
            mirror_count,
        ).score;
        best_score_is_greatest(fen, depth, below_line, polls.below, count);
        best_score_is_greatest(mirror, depth, mirror_below_line, mirror_polls.below, mirror_count);
        if best != -WIN_SCORE {
            let i = choose|i: int|
                0 <= i < count && best == #[trigger] move_score(
                    fen,
                    depth,
                    below_line,
                    polls.below,
                    i,
                );
            let j = mirrored_moves_score_no_less(
                fen,
                mirror,
                depth,
                line,
                mirror_line,
                polls,
                mirror_polls,
                i,
            );
            assert(mirror_best >= move_score(
                mirror,
                depth,
                mirror_below_line,
                mirror_polls.below,
                j,
            ));
        }
        if mirror_best != -WIN_SCORE {
            let j = choose|j: int|
                0 <= j < mirror_count && mirror_best == #[trigger] move_score(
                    mirror,
                    depth,
                    mirror_below_line,
                    mirror_polls.below,
                    j,
                );
            let i = mirror_moves_score_no_less(
                fen,
                mirror,
                depth,
                line,
                mirror_line,
                polls,
                mirror_polls,
                j,
            );
            assert(best >= move_score(fen, depth, below_line, polls.below, i));
        }
    }
}

/// Mirrored positions score the negative of each other where the search,
/// under the conditions of [`mirrored_searches_agree`], scores them zero.
/// With any other score they do not: both have the score of the side that
/// is to move.
pub proof fn mirrored_searches_negate(
    fen: Seq<char>,
    mirror: Seq<char>,
    depth: nat,
    line: Seq<u64>,
    mirror_line: Seq<u64>,
    polls: Polls,
    mirror_polls: Polls,
)
    requires
        mirrored_below(fen, mirror, depth, line, mirror_line),
        never_won(fen, depth),
        undisturbed(polls, fen, depth, line),
        undisturbed(mirror_polls, mirror, depth, mirror_line),
    ensures
        search(mirror, depth, mirror_line, mirror_polls).score == -search(
            fen,
            depth,
            line,
            polls,
        ).score <==> search(fen, depth, line, polls).score == 0,
{
    mirrored_searches_agree(fen, mirror, depth, line, mirror_line, polls, mirror_polls);
}

/// The number of lines of play of exactly `depth` plies from a position.
pub open spec fn perft_count(fen: Seq<char>, depth: nat) -> nat
    decreases depth, 1nat, 0nat,
{
    if depth == 0 {
        1
    } else {
        perft_sum(fen, depth, legal_moves_of(fen).len())
    }
}

/// The number of lines of play of `depth` plies that start with one of the
/// first `count` legal moves.
pub open spec fn perft_sum(fen: Seq<char>, depth: nat, count: nat) -> nat
    decreases depth, 0nat, count,
{
    if depth == 0 || count == 0 {
        0
    } else {
        perft_sum(fen, depth, (count - 1) as nat) + perft_count(
            after_move(fen, legal_moves_of(fen)[count - 1]),
            (depth - 1) as nat,
        )
    }
}

/// One ply deep there are as many lines of play as legal moves.
pub proof fn perft_of_one_ply(fen: Seq<char>)
    ensures
        perft_count(fen, 1) == legal_moves_of(fen).len(),
{
    perft_sum_of_one_ply(fen, legal_moves_of(fen).len());
}

proof fn perft_sum_of_one_ply(fen: Seq<char>, count: nat)
    ensures
        perft_sum(fen, 1, count) == count,
    decreases count,
{
    if count > 0 {
        perft_sum_of_one_ply(fen, (count - 1) as nat);
        assert(perft_count(after_move(fen, legal_moves_of(fen)[count - 1]), 0) == 1);
    }
}

proof fn perft_sum_grows(fen: Seq<char>, depth: nat, count: nat, more: nat)
    requires
        count <= more,
    ensures
        perft_sum(fen, depth, count) <= perft_sum(fen, depth, more),
    decreases more,
{
    if count < more && depth > 0 {
        perft_sum_grows(fen, depth, count, (more - 1) as nat);
    }
}

/// Counts the lines of play of `depth` plies from a position by walking
/// them all. Gives nothing where the count does not fit in 64 bits.
pub fn perft(board: &Position, depth: u8) -> (leaves: Option<u64>)
    ensures
        match leaves {
            Some(count) => count == perft_count(board@, depth as nat),
            None => perft_count(board@, depth as nat) > u64::MAX,
        },
    decreases depth,
{
    if depth == 0 {
        return Some(1);
    }
    let moves = board.legal_moves();
    let mut total: u64 = 0;
    let mut i: usize = 0;
    while i < moves.len()
        invariant
            depth > 0,
            i <= moves.len(),
            moves@ == legal_moves_of(board@),
            total == perft_sum(board@, depth as nat, i as nat),
        decreases moves.len() - i,
    {
        let next = board.play(moves[i]);
        proof {
            perft_sum_grows(board@, depth as nat, (i + 1) as nat, moves.len() as nat);
        }
        let below = match perft(&next, depth - 1) {
            Some(count) => count,
            None => return None,
        };
        total = match total.checked_add(below) {
            Some(sum) => sum,
            None => return None,
        };
        i += 1;
    }
    Some(total)
}

} // verus!
