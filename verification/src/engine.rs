//! The engine: the position it plays from, its counters, the stack of the
//! hashes of the current line, and the search that picks a move.

use vstd::prelude::*;
use std::sync::{Arc, Mutex};
use std::time::Instant;
use crate::budget::{limit_of, resolve_limit, EndCondition, SearchLimit};
use crate::go::GoInfo;
use crate::position::Position;
use crate::protocol::{position_of, read_position, SearchMessage};
use crate::rules::{
    hash_of, legal_moves_of, side_in, start_fen, status_of, Color, GameStatus, Move,
};
use crate::search::{
    best_move_is_legal, reply_to, score_leaf, search, search_moves, search_moves_reads_its_polls,
    undisturbed, won_value, Polls, SEARCH_DEPTH, WIN_SCORE,
};

verus! {

/// What the thread that reads commands shares with the one that searches.
#[derive(Debug)]
pub struct Shared {
    /// Raised to ask a running search to stop.
    pub stop: bool,
}

/// `std::sync::Mutex`: a lock around a value, opaque here.
#[verifier::external_type_specification]
#[verifier::external_body]
#[verifier::reject_recursive_types(T)]
pub struct ExMutex<T: ?Sized>(Mutex<T>);

/// `Mutex::lock`, held for one read of the flag. Another thread may write
/// the flag at any time, so nothing is known of the answer. A lock that a
/// panicking writer left poisoned is read all the same.
#[verifier::external_body]
fn stop_requested(shared: &Arc<Mutex<Shared>>) -> bool {
    match shared.lock() {
        Ok(guard) => guard.stop,
        Err(poisoned) => poisoned.into_inner().stop,
    }
}

/// `Mutex::lock`, held for one write of the flag. Nothing is known of the
/// flag afterwards, as another thread may write it at once. A poisoned
/// lock is written all the same.
#[verifier::external_body]
fn write_stop(shared: &Arc<Mutex<Shared>>, stop: bool) {
    match shared.lock() {
        Ok(mut guard) => guard.stop = stop,
        Err(poisoned) => poisoned.into_inner().stop = stop,
    }
}

/// Asks a running search to stop, and every later one, until the flag is
/// taken down again.
pub fn request_stop(shared: &Arc<Mutex<Shared>>) {
    write_stop(shared, true);
}

/// One slot of the stack of the search: the hash of the position that the
/// search last entered with as many plies left as the slot's index says.
#[derive(Clone, Copy, Debug, PartialEq, Eq)]
pub struct SearchStack {
    pub board_hash: u64,
}

impl Default for SearchStack {
    fn default() -> (slot: Self)
        ensures
            slot.board_hash == 0,
    {
        Self { board_hash: 0 }
    }
}

/// The counters of a search.
#[derive(Clone, Copy, Debug, PartialEq, Eq)]
pub struct SearchInfo {
    /// The moves that the search has made.
    pub nodes: u64,
    pub tt_hits: u64,
    pub cutoffs: u64,
}

impl SearchInfo {
    /// Counters that stand at zero.
    pub fn new() -> (info: Self)
        ensures
            info.nodes == 0,
            info.tt_hits == 0,
            info.cutoffs == 0,
    {
        Self { nodes: 0, tt_hits: 0, cutoffs: 0 }
    }

    /// Sets every counter back to zero.
    pub fn reset(&mut self)
        ensures
            final(self).nodes == 0,
            final(self).tt_hits == 0,
            final(self).cutoffs == 0,
    {
        self.nodes = 0;
        self.tt_hits = 0;
        self.cutoffs = 0;
    }
}

/// The hashes that a stack holds above the slot of `depth`, nearest first:
/// the line that led to a position searched with `depth` plies left.
pub open spec fn line_above(stack: Seq<SearchStack>, depth: int) -> Seq<u64> {
    Seq::new((stack.len() - depth - 1) as nat, |i: int| stack[depth + 1 + i].board_hash)
}

/// A count of nodes as a 64-bit counter shows it: it stays at its greatest
/// value once it has reached it.
pub open spec fn saturated(count: int) -> u64 {
    if count > u64::MAX {
        u64::MAX
    } else {
        count as u64
    }
}

/// Whether a hash stands in the stack above the slot of `depth`: whether
/// a position with that hash led to the one searched there.
pub fn on_line(stack: &Vec<SearchStack>, depth: u8, hash: u64) -> (found: bool)
    requires
        (depth as int) < stack.len(),
    ensures
        found == line_above(stack@, depth as int).contains(hash),
{
    let ghost line = line_above(stack@, depth as int);
    let mut at: usize = depth as usize + 1;
    while at < stack.len()
        invariant
            depth < at <= stack.len(),
            line == line_above(stack@, depth as int),
            forall|i: int| 0 <= i < at - depth - 1 ==> line[i] != hash,
        decreases stack.len() - at,
    {
        if stack[at].board_hash == hash {
            assert(line[at - depth - 1] == hash);
            return true;
        }
        at += 1;
    }
    false
}

/// A stack of `slots` slots, each with the hash zero.
pub fn fresh_stack(slots: usize) -> (stack: Vec<SearchStack>)
    ensures
        stack.len() == slots,
        forall|i: int| 0 <= i < slots ==> stack[i].board_hash == 0,
{
    let mut stack: Vec<SearchStack> = Vec::new();
    while stack.len() < slots
        invariant
            stack.len() <= slots,
            forall|i: int| 0 <= i < stack.len() ==> stack[i].board_hash == 0,
        decreases slots - stack.len(),
    {
        stack.push(SearchStack::default());
    }
    stack
}

/// Nodes searched in a second, from a count of nodes and the milliseconds
/// that they took, with one millisecond added so that no time is no divisor.
pub open spec fn speed(nodes: int, millis: int) -> int {
    nodes * 1000 / (millis + 1)
}

/// Computes [`speed`].
pub fn nodes_per_second(nodes: u64, millis: u64) -> (nps: u128)
    ensures
        nps == speed(nodes as int, millis as int),
{
    (nodes as u128 * 1000) / (millis as u128 + 1)
}

/// What a search for the best move hands back.
pub struct SearchResult {
    /// The move to play, if the search has found one.
    pub best_move: Option<Move>,
    /// The score of that move, for the side that is to move.
    pub score: i32,
    /// The rule that the command selected to end the search.
    pub limit: SearchLimit,
    /// What the cancellation flag answered during the search.
    pub polls: Ghost<Polls>,
}

/// What the engine answers to a message.
pub enum Answer {
    /// The message is carried out and there is nothing to say.
    Done,
    /// The engine is ready.
    ReadyOk,
    /// The search that a `go` command asked for has ended.
    Searched(SearchResult),
    /// The message cannot be carried out: it names no position, or no rule
    /// that ends a search.
    Refused,
}

/// The engine. It owns the position, the counters and the stack of the
/// search; only the cancellation flag is shared with another thread.
#[derive(Clone)]
pub struct Engine {
    search_info: SearchInfo,
    shared: Arc<Mutex<Shared>>,
    board: Position,
    my_side: Color,
    search_stack: Vec<SearchStack>,
}

impl Engine {
    /// The record of the position that the engine plays from.
    pub closed spec fn position(&self) -> Seq<char> {
        self.board@
    }

    /// The side that the engine plays.
    pub closed spec fn side(&self) -> Color {
        self.my_side
    }

    /// The counters of the last search.
    pub closed spec fn counters(&self) -> SearchInfo {
        self.search_info
    }

    /// The flag that cancels a search, as the engine shares it.
    pub closed spec fn flag(&self) -> Arc<Mutex<Shared>> {
        self.shared
    }

    /// The stack of the search: one slot for each number of plies left.
    pub closed spec fn stack(&self) -> Seq<SearchStack> {
        self.search_stack@
    }

    /// An engine at the start of a game, playing white, that a raised flag
    /// in `shared` cancels.
    pub fn new(shared: Arc<Mutex<Shared>>) -> (engine: Engine)
        ensures
            engine.position() == start_fen(),
            engine.side() == Color::White,
            engine.counters().nodes == 0,
            engine.counters().tt_hits == 0,
            engine.counters().cutoffs == 0,
            engine.flag() == shared,
            engine.stack().len() == 0,
    {
        Engine {
            search_info: SearchInfo::new(),
            shared,
            board: Position::startpos(),
            my_side: Color::White,
            search_stack: Vec::new(),
        }
    }

    /// Sets up the initial position and clears the counters. The side that
    /// the engine plays stays as it is until a position is set, and so do
    /// the flag and the stack.
    pub fn setup_newgame(&mut self)
        ensures
            final(self).position() == start_fen(),
            final(self).side() == old(self).side(),
            final(self).counters().nodes == 0,
            final(self).counters().tt_hits == 0,
            final(self).counters().cutoffs == 0,
            final(self).flag() == old(self).flag(),
            final(self).stack() == old(self).stack(),
    {
        self.board = Position::startpos();
        self.search_info.reset();
    }

    /// Sets the position that a `position` command names, and plays the
    /// side that is to move in it.
    pub fn set_position(&mut self, input: String)
        requires
            position_of(input@) is Some,
        ensures
            Some(final(self).position()) == position_of(input@),
            final(self).side() == side_in(final(self).position()),
            final(self).counters() == old(self).counters(),
            final(self).flag() == old(self).flag(),
            final(self).stack() == old(self).stack(),
    {
        self.try_set_position(input);
    }

    /// Sets the position that a `position` command names. Where the command
    /// names none, the engine stays as it is and the answer is `false`.
    pub fn try_set_position(&mut self, input: String) -> (done: bool)
        ensures
            done == position_of(input@) is Some,
            done ==> Some(final(self).position()) == position_of(input@) && final(self).side()
                == side_in(final(self).position()),
            !done ==> final(self).position() == old(self).position() && final(self).side() == old(
                self,
            ).side(),
            final(self).counters() == old(self).counters(),
            final(self).flag() == old(self).flag(),
            final(self).stack() == old(self).stack(),
    {
        match read_position(input.as_str()) {
            Some(position) => {
                self.my_side = position.side_to_move();
                self.board = position;
                true
            },
            None => false,
        }
    }

    /// Carries a message out. A new game takes the flag down and sets up
    /// the start; a position is set as [`Engine::try_set_position`] does; a
    /// search is made as [`Engine::find_best_move`] does, where the command
    /// selects a rule that ends it. What is refused leaves the engine as
    /// it is. Only a search touches the stack.
    pub fn handle(&mut self, message: SearchMessage) -> (answer: Answer)
        ensures
            final(self).flag() == old(self).flag(),
            !(answer is Searched) ==> final(self).stack() == old(self).stack(),
            match message {
                SearchMessage::NewGame => {
                    &&& answer is Done
                    &&& final(self).position() == start_fen()
                    &&& final(self).side() == old(self).side()
                    &&& final(self).counters().nodes == 0
                    &&& final(self).counters().tt_hits == 0
                    &&& final(self).counters().cutoffs == 0
                },
                SearchMessage::SetPosition(text) => {
                    &&& final(self).counters() == old(self).counters()
                    &&& if position_of(text@) is Some {
                        &&& answer is Done
                        &&& Some(final(self).position()) == position_of(text@)
                        &&& final(self).side() == side_in(final(self).position())
                    } else {
                        &&& answer is Refused
                        &&& final(self).position() == old(self).position()
                        &&& final(self).side() == old(self).side()
                    }
                },
                SearchMessage::Go(info) => if info.has_limit() {
                    &&& answer matches Answer::Searched(found)
                    &&& Some(found.limit) == limit_of(info, old(self).side())
                    &&& old(self).searched(
                        *final(self),
                        SEARCH_DEPTH as nat,
                        found.best_move,
                        found.score,
                        found.polls@,
                    )
                } else {
                    &&& answer is Refused
                    &&& final(self).position() == old(self).position()
                    &&& final(self).side() == old(self).side()
                    &&& final(self).counters() == old(self).counters()
                },
                SearchMessage::Ready => {
                    &&& answer is ReadyOk
                    &&& final(self).position() == old(self).position()
                    &&& final(self).side() == old(self).side()
                    &&& final(self).counters() == old(self).counters()
                },
            },
    {
        match message {
            SearchMessage::NewGame => {
                write_stop(&self.shared, false);
                self.setup_newgame();
                Answer::Done
            },
            SearchMessage::SetPosition(text) => {
                if self.try_set_position(text) {
                    Answer::Done
                } else {
                    Answer::Refused
                }
            },
            SearchMessage::Go(info) => {
                if resolve_limit(&info, self.my_side).is_some() {
                    Answer::Searched(self.find_best_move(&info))
                } else {
                    Answer::Refused
                }
            },
            SearchMessage::Ready => Answer::ReadyOk,
        }
    }

    /// The position that the engine plays from.
    pub fn board(&self) -> (board: &Position)
        ensures
            board@ == self.position(),
    {
        &self.board
    }

    /// The side that the engine plays.
    pub fn my_side(&self) -> (side: Color)
        ensures
            side == self.side(),
    {
        self.my_side
    }

    /// The stack of the search, as the last search left it.
    pub fn search_stack(&self) -> (stack: &Vec<SearchStack>)
        ensures
            stack@ == self.stack(),
    {
        &self.search_stack
    }

    /// The counters of the last search.
    pub fn search_info(&self) -> (info: SearchInfo)
        ensures
            info == self.counters(),
    {
        self.search_info
    }

    /// What the search of one node leaves and hands back: the search of the
    /// position with record `fen` with `depth` plies left, on the line that
    /// the stack holds above the slot of that depth, where the cancellation
    /// flag answers as `polls` tells.
    ///
    /// A search that finds the flag raised leaves the engine as it was and
    /// finds nothing. Every other search puts the hash of the position into
    /// the slot of its depth. The slots above stay, and so do the position
    /// of the engine, its side and its flag; the nodes are counted on. What
    /// is found is the outcome that [`search`] states. In particular a won
    /// or drawn game and a position that stands on the line already give
    /// their score at once, without a move and without a node, and a
    /// position whose moves are tried has a move.
    pub open spec fn visited(
        self,
        after: Engine,
        fen: Seq<char>,
        depth: int,
        best_move: Option<Move>,
        score: i32,
        polls: Polls,
    ) -> bool {
        let line = line_above(self.stack(), depth);
        let out = search(fen, depth as nat, line, polls);
        let at_once = best_move is None && after.counters() == self.counters();
        &&& polls.stop ==> after == self && best_move is None && score == 0
        &&& !polls.stop ==> after.stack()[depth].board_hash == hash_of(fen)
        &&& after.stack().len() == self.stack().len()
        &&& forall|k: int| depth < k < self.stack().len() ==> after.stack()[k] == self.stack()[k]
        &&& after.position() == self.position()
        &&& after.side() == self.side()
        &&& after.flag() == self.flag()
        &&& after.counters().tt_hits == self.counters().tt_hits
        &&& after.counters().cutoffs == self.counters().cutoffs
        &&& after.counters().nodes == saturated(self.counters().nodes + out.nodes)
        &&& after.counters().nodes >= self.counters().nodes
        &&& best_move == out.best
        &&& score == out.score
        &&& -WIN_SCORE <= score <= WIN_SCORE
        &&& !polls.stop && status_of(fen) == GameStatus::Won ==> at_once && score == won_value(
            side_in(fen),
        )
        &&& !polls.stop && status_of(fen) == GameStatus::Drawn ==> at_once && score == 0
        &&& !polls.stop && depth > 0 && status_of(fen) == GameStatus::Ongoing ==> {
            &&& line.contains(hash_of(fen)) ==> at_once && score == 0
            &&& !line.contains(hash_of(fen)) ==> legal_moves_of(fen).len() > 0
        }
    }

    /// Enters a node of the negamax search, see [`search`]: reads the
    /// cancellation flag and goes on as [`Engine::visit`] does with the
    /// answer. The condition that ends the search is handed down and not
    /// consulted: in this version only the depth and the flag end a search.
    /// The slot of the depth must be there whatever the flag will answer,
    /// as nobody knows the answer before the call.
    pub fn negamax(
        &mut self,
        board: &Position,
        end_condition: &EndCondition,
        depth: u8,
    ) -> (found: (Option<Move>, i32, Ghost<Polls>))
        requires
            (depth as int) < old(self).stack().len(),
        ensures
            old(self).visited(*final(self), board@, depth as int, found.0, found.1, found.2@),
        decreases depth, 2nat,
    {
        let stop = stop_requested(&self.shared);
        self.visit(board, end_condition, depth, stop)
    }

    /// The search of one node, once the cancellation flag has answered
    /// `stop`, see [`Engine::visited`]. With the flag raised no slot of the
    /// stack is needed.
    pub fn visit(
        &mut self,
        board: &Position,
        end_condition: &EndCondition,
        depth: u8,
        stop: bool,
    ) -> (found: (Option<Move>, i32, Ghost<Polls>))
        requires
            stop || (depth as int) < old(self).stack().len(),
        ensures
            found.2@.stop == stop,
            old(self).visited(*final(self), board@, depth as int, found.0, found.1, found.2@),
        decreases depth, 1nat,
    {
        self.walk(board, end_condition, depth, stop, true)
    }

    /// The search of one node, once the flag has answered `stop` there. A
    /// search that is `watched` reads the flag again at every node below;
    /// one that is not reads it nowhere and goes on as if it stayed down.
    fn walk(
        &mut self,
        board: &Position,
        end_condition: &EndCondition,
        depth: u8,
        stop: bool,
        watched: bool,
    ) -> (found: (Option<Move>, i32, Ghost<Polls>))
        requires
            stop || (depth as int) < old(self).stack().len(),
        ensures
            found.2@.stop == stop,
            old(self).visited(*final(self), board@, depth as int, found.0, found.1, found.2@),
            !watched && !stop ==> undisturbed(
                found.2@,
                board@,
                depth as nat,
                line_above(old(self).stack(), depth as int),
            ),
        decreases depth, 0nat,
    {
        if stop {
            return (None, 0, Ghost(Polls { stop: true, below: Seq::empty() }));
        }
        let hash = board.hash();
        let ghost line = line_above(self.search_stack@, depth as int);
        let on_line = on_line(&self.search_stack, depth, hash);
        self.search_stack.set(depth as usize, SearchStack { board_hash: hash });
        if depth == 0 || board.status() != GameStatus::Ongoing {
            return (None, score_leaf(board), Ghost(Polls { stop: false, below: Seq::empty() }));
        } else if on_line {
            return (None, 0, Ghost(Polls { stop: false, below: Seq::empty() }));
        }
        let ghost child_line = seq![hash] + line;
        assert(line_above(self.search_stack@, depth - 1) == child_line);

        let mut max_score: i32 = -WIN_SCORE;
        let mut best_move: Option<Move> = None;
        let ghost mut below: Seq<Polls> = Seq::empty();
        let moves = board.legal_moves();
        let mut i: usize = 0;
        while i < moves.len()
            invariant
                depth > 0,
                i <= moves.len(),
                moves@ == legal_moves_of(board@),
                below.len() == i,
                moves.len() > 0,
                hash == hash_of(board@),
                !watched ==> forall|j: int|
                    #![trigger reply_to(board@, j)]
                    0 <= j < i ==> undisturbed(
                        below[j],
                        reply_to(board@, j),
                        (depth - 1) as nat,
                        child_line,
                    ),
                self.stack().len() == old(self).stack().len(),
                (depth as int) < self.stack().len(),
                self.stack()[depth as int].board_hash == hash,
                line_above(self.stack(), depth - 1) == child_line,
                forall|k: int|
                    depth < k < old(self).stack().len() ==> self.stack()[k] == old(self).stack()[k],
                self.position() == old(self).position(),
                self.side() == old(self).side(),
                self.flag() == old(self).flag(),
                self.counters().tt_hits == old(self).counters().tt_hits,
                self.counters().cutoffs == old(self).counters().cutoffs,
                ({
                    let tried = search_moves(board@, depth as nat, child_line, below, i as nat);
                    &&& best_move == tried.best
                    &&& max_score == tried.score
                    &&& self.counters().nodes == saturated(
                        old(self).counters().nodes + tried.nodes,
                    )
                }),
                -WIN_SCORE <= max_score <= WIN_SCORE,
            decreases moves.len() - i,
        {
            let mv = moves[i];
            self.search_info.nodes = self.search_info.nodes.saturating_add(1);
            let next = board.play(mv);
            let (_, reply, polls) = if watched {
                self.negamax(&next, end_condition, depth - 1)
            } else {
                self.walk(&next, end_condition, depth - 1, false, false)
            };
            let score = -reply;
            proof {
                search_moves_reads_its_polls(
                    board@,
                    depth as nat,
                    child_line,
                    below,
                    below.push(polls@),
                    i as nat,
                );
                below = below.push(polls@);
                assert(line_above(self.stack(), depth - 1) == child_line);
            }
            if score > max_score {
                max_score = score;
                best_move = Some(mv);
            }
            i += 1;
        }
        (best_move, max_score, Ghost(Polls { stop: false, below }))
    }

    /// What a search of `depth` plies from the position of the engine leaves
    /// and hands back, where the cancellation flag answers as `polls` tells:
    /// the outcome that [`search`] states, on a line of its own, with the
    /// nodes counted from zero. The position, the side and the flag stay.
    /// The stack has one slot for each number of plies left, and the slot of
    /// the root holds the hash of the position unless the search was
    /// cancelled there.
    pub open spec fn searched(
        self,
        after: Engine,
        depth: nat,
        best_move: Option<Move>,
        score: i32,
        polls: Polls,
    ) -> bool {
        let out = search(self.position(), depth, Seq::empty(), polls);
        &&& after.stack().len() == depth + 1
        &&& !polls.stop ==> after.stack()[depth as int].board_hash == hash_of(self.position())
        &&& after.position() == self.position()
        &&& after.side() == self.side()
        &&& after.flag() == self.flag()
        &&& after.counters().tt_hits == 0
        &&& after.counters().cutoffs == 0
        &&& after.counters().nodes == saturated(out.nodes as int)
        &&& best_move == out.best
        &&& score == out.score
        &&& -WIN_SCORE <= score <= WIN_SCORE
        &&& best_move matches Some(mv) ==> legal_moves_of(self.position()).contains(mv)
    }

    /// Starts a search at the position of the engine, once the flag has
    /// answered `stop`: clears the counters, takes a stack with one slot
    /// for each number of plies left, and searches the root.
    fn search_root(&mut self, depth: u8, end_condition: &EndCondition, stop: bool) -> (found: (
        Option<Move>,
        i32,
        Ghost<Polls>,
    ))
        ensures
            found.2@.stop == stop,
            old(self).searched(*final(self), depth as nat, found.0, found.1, found.2@),
    {
        self.search_info.reset();
        self.search_stack = fresh_stack(depth as usize + 1);
        assert(line_above(self.search_stack@, depth as int) == Seq::<u64>::empty());
        let board = self.board.clone();
        let found = self.visit(&board, end_condition, depth, stop);
        proof {
            best_move_is_legal(board@, depth as nat, Seq::empty(), found.2@);
        }
        found
    }

    /// Searches the position of the engine `depth` plies deep, once the
    /// cancellation flag has answered `stop` for the root. With the flag
    /// raised there the search ends at once, without a move.
    pub fn search_polled(&mut self, depth: u8, stop: bool) -> (found: (
        Option<Move>,
        i32,
        Ghost<Polls>,
    ))
        ensures
            found.2@.stop == stop,
            stop ==> found.0 is None && found.1 == 0 && final(self).counters().nodes == 0,
            old(self).searched(*final(self), depth as nat, found.0, found.1, found.2@),
    {
        self.search_root(depth, &EndCondition::Depth(depth), stop)
    }

    /// Searches the position of the engine `depth` plies deep without
    /// reading the cancellation flag: nothing cancels this search, and what
    /// it finds is fixed by the position and the depth, see
    /// [`undisturbed_search_is_fixed`](crate::search::undisturbed_search_is_fixed).
    pub fn search_unwatched(&mut self, depth: u8) -> (found: (Option<Move>, i32, Ghost<Polls>))
        ensures
            undisturbed(found.2@, old(self).position(), depth as nat, Seq::empty()),
            old(self).searched(*final(self), depth as nat, found.0, found.1, found.2@),
    {
        self.search_info.reset();
        self.search_stack = fresh_stack(depth as usize + 1);
        assert(line_above(self.search_stack@, depth as int) == Seq::<u64>::empty());
        let board = self.board.clone();
        let found = self.walk(&board, &EndCondition::Depth(depth), depth, false, false);
        proof {
            best_move_is_legal(board@, depth as nat, Seq::empty(), found.2@);
        }
        found
    }

    /// Searches the position of the engine `depth` plies deep. Hands back
    /// the best move, its score, and what the cancellation flag answered on
    /// the way.
    pub fn search(&mut self, depth: u8) -> (found: (Option<Move>, i32, Ghost<Polls>))
        ensures
            old(self).searched(*final(self), depth as nat, found.0, found.1, found.2@),
    {
        let stop = stop_requested(&self.shared);
        self.search_polled(depth, stop)
    }

    /// Searches the position of the engine [`SEARCH_DEPTH`] plies deep for
    /// the best move, see [`Engine::search`]. The command must select a rule
    /// that ends the search; the rule is handed back and, in this version,
    /// ends nothing.
    pub fn find_best_move(&mut self, info: &GoInfo) -> (found: SearchResult)
        requires
            info.has_limit(),
        ensures
            Some(found.limit) == limit_of(*info, old(self).side()),
            old(self).searched(
                *final(self),
                SEARCH_DEPTH as nat,
                found.best_move,
                found.score,
                found.polls@,
            ),
    {
        let start = Instant::now();
        let limit = resolve_limit(info, self.my_side).unwrap();
        let end_condition = EndCondition::starting_at(limit, &start);
        let stop = stop_requested(&self.shared);
        let (best_move, score, polls) = self.search_root(SEARCH_DEPTH, &end_condition, stop);
        SearchResult { best_move, score, limit, polls }
    }
}

} // verus!
