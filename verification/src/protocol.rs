//! The commands of the protocol: which command a line is, and which
//! position a `position` command names.

use vstd::prelude::*;
use vstd::string::StrSliceExecFns;
use crate::go::{parameters, well_formed, GoInfo};
use crate::position::{accepted_record, Position};
use crate::rules::{after_move, legal_moves_of, start_fen, uci_move_of};
use crate::text::{
    chars_of, find, find_word, first_field_is_short, is_word, split_on_spaces, split_spaces,
    split_spaces_is_never_empty, tail, texts, trim_end, trimmed_end,
};

verus! {

/// The FEN record that a `position` command carries: what stands between
/// the fourth character from the start of `fen` and the word `moves`, or
/// the end of the command, without the spaces at its end. There is none
/// where `fen` is missing or `moves` comes too early.
pub open spec fn record_in(input: Seq<char>) -> Option<Seq<char>> {
    match find_word(input, "fen"@) {
        None => None,
        Some(at) => {
            let end = match find_word(input, "moves"@) {
                Some(moves_at) => moves_at,
                None => input.len() as int,
            };
            if at + 4 > end {
                None
            } else {
                Some(trim_end(input.subrange(at + 4, end)))
            }
        },
    }
}

/// The record of the position that a command starts from: the initial
/// position where it says `startpos`, else the one that it carries, as far
/// as it is accepted, see [`accepted_record`].
pub open spec fn base_of(input: Seq<char>) -> Option<Seq<char>> {
    if find_word(input, "startpos"@) is Some {
        Some(start_fen())
    } else {
        match record_in(input) {
            Some(text) => accepted_record(text),
            None => None,
        }
    }
}

/// The record of the position after the first `count` of the moves have
/// been played from `fen`. There is none where one of them cannot be read
/// or is not legal where it is played.
pub open spec fn replayed(fen: Seq<char>, moves: Seq<Seq<char>>, count: nat) -> Option<Seq<char>>
    decreases count,
{
    if count == 0 {
        Some(fen)
    } else {
        match replayed(fen, moves, (count - 1) as nat) {
            None => None,
            Some(before) => match uci_move_of(before, moves[count - 1]) {
                None => None,
                Some(mv) => if legal_moves_of(before).contains(mv) {
                    Some(after_move(before, mv))
                } else {
                    None
                },
            },
        }
    }
}

/// The record of the position that a `position` command names: the one it
/// starts from, after the moves that follow the word `moves`, each in a
/// field of its own from the sixth character after the start of that word.
/// There is none where the start or a move is refused, or where nothing
/// follows `moves`.
pub open spec fn position_of(input: Seq<char>) -> Option<Seq<char>> {
    match base_of(input) {
        None => None,
        Some(fen) => match find_word(input, "moves"@) {
            None => Some(fen),
            Some(at) => if at + 6 > input.len() {
                None
            } else {
                let moves = split_spaces(input.skip(at + 6));
                replayed(fen, moves, moves.len())
            },
        },
    }
}

proof fn replay_stays_refused(fen: Seq<char>, moves: Seq<Seq<char>>, count: nat, more: nat)
    requires
        count <= more,
        replayed(fen, moves, count) is None,
    ensures
        replayed(fen, moves, more) is None,
    decreases more,
{
    if count < more {
        replay_stays_refused(fen, moves, count, (more - 1) as nat);
    }
}

/// Plays the moves from a position, see [`replayed`].
fn replay(start: Position, moves: &Vec<Vec<char>>) -> (end: Option<Position>)
    ensures
        match end {
            Some(p) => replayed(start@, texts(moves@), moves.len() as nat) == Some(p@),
            None => replayed(start@, texts(moves@), moves.len() as nat) is None,
        },
{
    let ghost from = start@;
    let mut current = start;
    let mut i: usize = 0;
    while i < moves.len()
        invariant
            i <= moves.len(),
            from == start@,
            replayed(from, texts(moves@), i as nat) == Some(current@),
        decreases moves.len() - i,
    {
        let next = match current.parse_move(&moves[i]) {
            Some(mv) => current.try_play(mv),
            None => None,
        };
        match next {
            Some(position) => {
                current = position;
            },
            None => {
                proof {
                    assert(texts(moves@)[i as int] == moves@[i as int]@);
                    assert(replayed(from, texts(moves@), (i + 1) as nat) is None);
                    replay_stays_refused(
                        from,
                        texts(moves@),
                        (i + 1) as nat,
                        moves.len() as nat,
                    );
                }
                return None;
            },
        }
        i += 1;
    }
    Some(current)
}

/// Reads the position that a `position` command names, see [`position_of`].
pub fn read_position(input: &str) -> (position: Option<Position>)
    ensures
        match position {
            Some(p) => position_of(input@) == Some(p@),
            None => position_of(input@) is None,
        },
{
    let chars = chars_of(input);
    let moves_at = find(&chars, "moves");
    let base = if find(&chars, "startpos").is_some() {
        Position::startpos()
    } else {
        let at = match find(&chars, "fen") {
            Some(at) => at,
            None => return None,
        };
        let end = match moves_at {
            Some(moves_at) => moves_at,
            None => chars.len(),
        };
        if end < 4 || at > end - 4 {
            return None;
        }
        let stop = trimmed_end(&chars, at + 4, end);
        match Position::from_fen(input.substring_char(at + 4, stop)) {
            Some(position) => position,
            None => return None,
        }
    };
    match moves_at {
        None => Some(base),
        Some(at) => {
            if chars.len() - at < 6 {
                return None;
            }
            let moves = split_on_spaces(&tail(&chars, at + 6));
            replay(base, &moves)
        },
    }
}

/// What the thread that reads commands sends to the engine.
#[derive(Debug, PartialEq, Eq)]
pub enum SearchMessage {
    NewGame,
    /// Carries the line of a `position` command from its tenth character on.
    SetPosition(String),
    Go(GoInfo),
    Ready,
}

/// A line of the protocol, once it has been told apart by its first word.
#[derive(Debug, PartialEq, Eq)]
pub enum Command {
    /// A command for the engine.
    Message(SearchMessage),
    /// Asks a running search to stop; it does not wait for the engine.
    Stop,
    PonderHit,
    Quit,
    /// Any other line; it is passed over.
    Unknown,
}

/// Whether `command` is what the line says. The first field of the line
/// decides. A `position` line must go on after its first word and a `go`
/// line must be well formed: else the line is refused and there is no
/// command.
pub open spec fn is_command(line: Seq<char>, command: Option<Command>) -> bool {
    let word = split_spaces(line)[0];
    if word == "ucinewgame"@ {
        command == Some(Command::Message(SearchMessage::NewGame))
    } else if word == "position"@ {
        if line.len() < 9 {
            command is None
        } else {
            command matches Some(Command::Message(SearchMessage::SetPosition(rest))) && rest@
                == line.skip(9)
        }
    } else if word == "go"@ {
        if well_formed(line.skip(2)) {
            command == Some(Command::Message(SearchMessage::Go(parameters(line.skip(2)))))
        } else {
            command is None
        }
    } else if word == "stop"@ {
        command == Some(Command::Stop)
    } else if word == "isready"@ {
        command == Some(Command::Message(SearchMessage::Ready))
    } else if word == "ponderhit"@ {
        command == Some(Command::PonderHit)
    } else if word == "quit"@ {
        command == Some(Command::Quit)
    } else {
        command == Some(Command::Unknown)
    }
}

/// Tells which command a line is, see [`is_command`].
pub fn parse_command(line: &str) -> (command: Option<Command>)
    ensures
        is_command(line@, command),
{
    let chars = chars_of(line);
    let fields = split_on_spaces(&chars);
    proof {
        split_spaces_is_never_empty(chars@);
    }
    let word = &fields[0];
    if is_word(word, "ucinewgame") {
        Some(Command::Message(SearchMessage::NewGame))
    } else if is_word(word, "position") {
        if chars.len() < 9 {
            None
        } else {
            let rest = line.substring_char(9, chars.len());
            assert(line@.subrange(9, chars.len() as int) == line@.skip(9));
            Some(Command::Message(SearchMessage::SetPosition(rest.to_owned())))
        }
    } else if is_word(word, "go") {
        proof {
            reveal_strlit("go");
            first_field_is_short(chars@);
        }
        let rest = line.substring_char(2, chars.len());
        assert(line@.subrange(2, chars.len() as int) == line@.skip(2));
        match GoInfo::parse(rest) {
            Some(info) => Some(Command::Message(SearchMessage::Go(info))),
            None => None,
        }
    } else if is_word(word, "stop") {
        Some(Command::Stop)
    } else if is_word(word, "isready") {
        Some(Command::Message(SearchMessage::Ready))
    } else if is_word(word, "ponderhit") {
        Some(Command::PonderHit)
    } else if is_word(word, "quit") {
        Some(Command::Quit)
    } else {
        Some(Command::Unknown)
    }
}

} // verus!
