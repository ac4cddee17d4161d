//! The parameters of a `go` command.

use vstd::prelude::*;
use crate::text::{
    chars_of, field_index, find_field, number_in, parse_u32, split_on_spaces, split_spaces, texts,
};

verus! {

/// What a `go` command asks for. Every number follows its keyword in the
/// command; what the command does not name is absent.
#[derive(Clone, Copy, Debug, PartialEq, Eq)]
pub struct GoInfo {
    pub wtime: Option<u32>,
    pub btime: Option<u32>,
    pub winc: Option<u32>,
    pub binc: Option<u32>,
    pub moves_to_go: Option<u32>,
    pub depth: Option<u32>,
    pub nodes: Option<u32>,
    pub mate: Option<u32>,
    pub movetime: Option<u32>,
    pub infinite: bool,
}

/// Whether `word` is one of the fields.
pub open spec fn names(fields: Seq<Seq<char>>, word: Seq<char>) -> bool {
    field_index(fields, word, 0) < fields.len()
}

/// The field that follows the first occurrence of a keyword is a number,
/// or the keyword does not occur.
pub open spec fn argument_ok(fields: Seq<Seq<char>>, word: Seq<char>) -> bool {
    let at = field_index(fields, word, 0);
    names(fields, word) ==> at + 1 < fields.len() && number_in(fields[at + 1]) is Some
}

/// The number that follows the first occurrence of a keyword.
pub open spec fn argument(fields: Seq<Seq<char>>, word: Seq<char>) -> Option<u32> {
    let at = field_index(fields, word, 0);
    if at + 1 < fields.len() {
        number_in(fields[at + 1])
    } else {
        None
    }
}

/// A command text in which every keyword that occurs has its number. Fields
/// that are no keyword are of no account.
pub open spec fn well_formed(text: Seq<char>) -> bool {
    let fields = split_spaces(text);
    &&& argument_ok(fields, "wtime"@)
    &&& argument_ok(fields, "btime"@)
    &&& argument_ok(fields, "winc"@)
    &&& argument_ok(fields, "binc"@)
    &&& argument_ok(fields, "movestogo"@)
    &&& argument_ok(fields, "depth"@)
    &&& argument_ok(fields, "nodes"@)
    &&& argument_ok(fields, "mate"@)
    &&& argument_ok(fields, "movetime"@)
}

/// The parameters that a well-formed command text names.
pub open spec fn parameters(text: Seq<char>) -> GoInfo {
    let fields = split_spaces(text);
    GoInfo {
        wtime: argument(fields, "wtime"@),
        btime: argument(fields, "btime"@),
        winc: argument(fields, "winc"@),
        binc: argument(fields, "binc"@),
        moves_to_go: argument(fields, "movestogo"@),
        depth: argument(fields, "depth"@),
        nodes: argument(fields, "nodes"@),
        mate: argument(fields, "mate"@),
        movetime: argument(fields, "movetime"@),
        infinite: names(fields, "infinite"@),
    }
}

/// Looks a keyword up. The outer `None` says that the keyword stands
/// without a number behind it.
fn find_arg(fields: &Vec<Vec<char>>, word: &str) -> (found: Option<Option<u32>>)
    ensures
        match found {
            Some(value) => argument_ok(texts(fields@), word@) && value == argument(
                texts(fields@),
                word@,
            ),
            None => !argument_ok(texts(fields@), word@),
        },
{
    let at = find_field(fields, word);
    if at == fields.len() {
        Some(None)
    } else if at + 1 == fields.len() {
        None
    } else {
        match parse_u32(&fields[at + 1]) {
            Some(value) => Some(Some(value)),
            None => None,
        }
    }
}

impl GoInfo {
    /// True where the command names something that ends a search: `infinite`,
    /// a node count, a depth, a time for the move, or both clocks.
    pub open spec fn has_limit(self) -> bool {
        self.infinite || self.nodes is Some || self.depth is Some || self.movetime is Some || (
        self.btime is Some && self.wtime is Some)
    }

    /// Reads the parameters of a `go` command, or nothing where a keyword
    /// stands without its number.
    pub fn parse(input: &str) -> (info: Option<GoInfo>)
        ensures
            info == if well_formed(input@) {
                Some(parameters(input@))
            } else {
                None
            },
    {
        let chars = chars_of(input);
        let fields = split_on_spaces(&chars);
        let wtime = match find_arg(&fields, "wtime") {
            Some(value) => value,
            None => return None,
        };
        let btime = match find_arg(&fields, "btime") {
            Some(value) => value,
            None => return None,
        };
        let winc = match find_arg(&fields, "winc") {
            Some(value) => value,
            None => return None,
        };
        let binc = match find_arg(&fields, "binc") {
            Some(value) => value,
            None => return None,
        };
        let moves_to_go = match find_arg(&fields, "movestogo") {
            Some(value) => value,
            None => return None,
        };
        let depth = match find_arg(&fields, "depth") {
            Some(value) => value,
            None => return None,
        };
        let nodes = match find_arg(&fields, "nodes") {
            Some(value) => value,
            None => return None,
        };
        let mate = match find_arg(&fields, "mate") {
            Some(value) => value,
            None => return None,
        };
        let movetime = match find_arg(&fields, "movetime") {
            Some(value) => value,
            None => return None,
        };
        let infinite = find_field(&fields, "infinite") < fields.len();
        Some(
            GoInfo {
                wtime,
                btime,
                winc,
                binc,
                moves_to_go,
                depth,
                nodes,
                mate,
                movetime,
                infinite,
            },
        )
    }

    /// Reads the parameters of a well-formed `go` command.
    pub fn new(input: String) -> (info: Self)
        requires
            well_formed(input@),
        ensures
            info == parameters(input@),
    {
        GoInfo::parse(input.as_str()).unwrap()
    }
}

} // verus!
