//! How long a search may run: the clock heuristic, the choice of one
//! termination policy from the parameters of a `go` command, and the test
//! of that policy.

use vstd::prelude::*;
use std::time::{Duration, Instant};
use crate::go::GoInfo;
use crate::rules::Color;

verus! {

/// Milliseconds granted to a move from the two clocks: a tenth of our own
/// time, plus three quarters of the lead where we are ahead on the clock.
pub open spec fn clock_allowance(mine: int, theirs: int) -> int {
    if theirs < mine {
        ((mine - theirs) * 3) / 4 + mine / 10
    } else {
        mine / 10
    }
}

/// Computes [`clock_allowance`] for the remaining times of both sides.
pub fn allocate_time(mine: u32, theirs: u32) -> (ms: u64)
    ensures
        ms == clock_allowance(mine as int, theirs as int),
{
    let mine_ms: u64 = mine as u64;
    let theirs_ms: u64 = theirs as u64;
    if theirs_ms < mine_ms {
        ((mine_ms - theirs_ms) * 3) / 4 + mine_ms / 10
    } else {
        mine_ms / 10
    }
}

/// The one rule that ends a search, before a clock has been read.
#[derive(Clone, Copy, Debug, PartialEq, Eq)]
pub enum SearchLimit {
    Infinite,
    Nodes(u64),
    Depth(u8),
    /// Milliseconds from the start of the search.
    Millis(u64),
}

/// A depth as the search counts it: what exceeds a byte counts as 255.
pub open spec fn capped_depth(depth: u32) -> u8 {
    if depth > 255 {
        255u8
    } else {
        depth as u8
    }
}

/// The rule that a command selects for the side that is to move. The first
/// of these that the command names decides: `infinite`, a node count, a
/// depth, a time for the move, both clocks. A command that names none of
/// them selects no rule.
pub open spec fn limit_of(info: GoInfo, side: Color) -> Option<SearchLimit> {
    if info.infinite {
        Some(SearchLimit::Infinite)
    } else if let Some(nodes) = info.nodes {
        Some(SearchLimit::Nodes(nodes as u64))
    } else if let Some(depth) = info.depth {
        Some(SearchLimit::Depth(capped_depth(depth)))
    } else if let Some(movetime) = info.movetime {
        Some(SearchLimit::Millis(movetime as u64))
    } else if info.btime is Some && info.wtime is Some {
        let white = info.wtime->0 as int;
        let black = info.btime->0 as int;
        Some(
            SearchLimit::Millis(
                match side {
                    Color::White => clock_allowance(white, black),
                    Color::Black => clock_allowance(black, white),
                } as u64,
            ),
        )
    } else {
        None
    }
}

/// Selects the rule that ends the search, see [`limit_of`].
pub fn resolve_limit(info: &GoInfo, side: Color) -> (limit: Option<SearchLimit>)
    ensures
        limit == limit_of(*info, side),
        limit is Some <==> info.has_limit(),
{
    if info.infinite {
        Some(SearchLimit::Infinite)
    } else if let Some(nodes) = info.nodes {
        Some(SearchLimit::Nodes(nodes as u64))
    } else if let Some(depth) = info.depth {
        Some(
            SearchLimit::Depth(
                if depth > 255 {
                    255
                } else {
                    depth as u8
                },
            ),
        )
    } else if let Some(movetime) = info.movetime {
        Some(SearchLimit::Millis(movetime as u64))
    } else {
        match (info.btime, info.wtime) {
            (Some(black), Some(white)) => Some(
                SearchLimit::Millis(
                    match side {
                        Color::White => allocate_time(white, black),
                        Color::Black => allocate_time(black, white),
                    },
                ),
            ),
            _ => None,
        }
    }
}

/// A depth outranks the clocks: a command that names a depth and both
/// clocks never selects a time, and it selects the depth unless it also
/// names `infinite` or a node count, which come first.
pub proof fn depth_outranks_clocks(info: GoInfo, side: Color)
    requires
        info.depth is Some,
        info.wtime is Some,
        info.btime is Some,
    ensures
        !(limit_of(info, side) matches Some(SearchLimit::Millis(_))),
        !info.infinite && info.nodes is None ==> limit_of(info, side) == Some(
            SearchLimit::Depth(capped_depth(info.depth->0)),
        ),
{
}

/// `std::time::Instant`: a reading of the clock, opaque here.
#[verifier::external_type_specification]
#[verifier::external_body]
pub struct ExInstant(std::time::Instant);

/// The span of time that `Duration::from_millis` makes of a number of
/// milliseconds.
pub uninterp spec fn span_of(millis: u64) -> Duration;

/// The instant that `Instant::checked_add` finds later than `start` by a
/// span, if the clock can represent it.
pub uninterp spec fn later_by(start: Instant, span: Duration) -> Option<Instant>;

/// Whether, by `>=` on instants, the first is not before the second.
pub uninterp spec fn not_earlier(now: Instant, deadline: Instant) -> bool;

/// `Instant::now`: the reading of a clock, of which nothing is known.
pub assume_specification[ Instant::now ]() -> Instant;

/// `Duration::from_millis`: the span of so many milliseconds, which
/// depends on their number alone.
pub assume_specification[ Duration::from_millis ](millis: u64) -> (span: Duration)
    ensures
        span == span_of(millis),
;

/// `Instant::checked_add`: an instant later by a span, or nothing where the
/// clock cannot represent it. The answer depends on the instant and the
/// span alone.
pub assume_specification[ Instant::checked_add ](start: &Instant, span: Duration) -> (later:
    Option<Instant>)
    ensures
        later == later_by(*start, span),
;

/// `>=` on two instants: whether the first is not before the second, which
/// depends on the two alone.
#[verifier::external_body]
fn not_before(now: &Instant, deadline: &Instant) -> (reached: bool)
    ensures
        reached == not_earlier(*now, *deadline),
{
    now >= deadline
}

/// The rule that ends a search, with its deadline where it has one.
#[derive(Clone, Copy, Debug)]
pub enum EndCondition {
    Time(Instant),
    Nodes(u64),
    Depth(u8),
    Infinite,
}

impl EndCondition {
    /// The condition that a limit makes, given the deadline that the clock
    /// has worked out for a limit of time: that deadline, or none where the
    /// clock cannot represent it. A deadline that cannot be represented
    /// will never come: the search is then unbounded.
    pub fn with_deadline(limit: SearchLimit, deadline: Option<Instant>) -> (condition:
        EndCondition)
        ensures
            condition == match limit {
                SearchLimit::Infinite => EndCondition::Infinite,
                SearchLimit::Nodes(count) => EndCondition::Nodes(count),
                SearchLimit::Depth(depth) => EndCondition::Depth(depth),
                SearchLimit::Millis(_) => match deadline {
                    Some(at) => EndCondition::Time(at),
                    None => EndCondition::Infinite,
                },
            },
    {
        match limit {
            SearchLimit::Infinite => EndCondition::Infinite,
            SearchLimit::Nodes(count) => EndCondition::Nodes(count),
            SearchLimit::Depth(depth) => EndCondition::Depth(depth),
            SearchLimit::Millis(_) => match deadline {
                Some(at) => EndCondition::Time(at),
                None => EndCondition::Infinite,
            },
        }
    }

    /// The condition that a limit makes for a search that starts at `start`,
    /// see [`EndCondition::with_deadline`]. The deadline of a limit of time
    /// is `start` and the time of the limit, as the clock adds them.
    pub fn starting_at(limit: SearchLimit, start: &Instant) -> (condition: EndCondition)
        ensures
            condition == match limit {
                SearchLimit::Infinite => EndCondition::Infinite,
                SearchLimit::Nodes(count) => EndCondition::Nodes(count),
                SearchLimit::Depth(depth) => EndCondition::Depth(depth),
                SearchLimit::Millis(ms) => match later_by(*start, span_of(ms)) {
                    Some(at) => EndCondition::Time(at),
                    None => EndCondition::Infinite,
                },
            },
    {
        let deadline = match limit {
            SearchLimit::Millis(ms) => start.checked_add(Duration::from_millis(ms)),
            _ => None,
        };
        EndCondition::with_deadline(limit, deadline)
    }

    /// Whether the condition holds once `nodes` nodes have been searched, on
    /// reaching `depth`, given whether the clock has passed the deadline of
    /// a condition that has one.
    pub fn met_given(&self, nodes: u64, depth: u8, deadline_passed: bool) -> (met: bool)
        ensures
            met == match *self {
                EndCondition::Time(_) => deadline_passed,
                EndCondition::Nodes(count) => nodes >= count,
                EndCondition::Depth(reach) => depth == reach,
                EndCondition::Infinite => false,
            },
    {
        match self {
            EndCondition::Time(_) => deadline_passed,
            EndCondition::Nodes(count) => nodes >= *count,
            EndCondition::Depth(reach) => depth == *reach,
            EndCondition::Infinite => false,
        }
    }

    /// Whether the condition holds at the instant `now`, once `nodes` nodes
    /// have been searched, on reaching `depth`: a deadline is met from its
    /// instant on.
    pub fn met_at(&self, nodes: u64, depth: u8, now: &Instant) -> (met: bool)
        ensures
            met == match *self {
                EndCondition::Time(deadline) => not_earlier(*now, deadline),
                EndCondition::Nodes(count) => nodes >= count,
                EndCondition::Depth(reach) => depth == reach,
                EndCondition::Infinite => false,
            },
    {
        let deadline_passed = match self {
            EndCondition::Time(deadline) => not_before(now, deadline),
            _ => false,
        };
        self.met_given(nodes, depth, deadline_passed)
    }

    /// Whether the condition holds now, once `nodes` nodes have been
    /// searched, on reaching `depth`, see [`EndCondition::met_at`]. A
    /// deadline is held against the clock as it stands at the call, so
    /// nothing is known of the answer for it.
    pub fn met(&self, nodes: u64, depth: u8) -> (met: bool)
        ensures
            match *self {
                EndCondition::Time(_) => true,
                EndCondition::Nodes(count) => met == (nodes >= count),
                EndCondition::Depth(reach) => met == (depth == reach),
                EndCondition::Infinite => !met,
            },
    {
        match self {
            EndCondition::Time(_) => {
                let now = Instant::now();
                self.met_at(nodes, depth, &now)
            },
            EndCondition::Nodes(count) => nodes >= *count,
            EndCondition::Depth(reach) => depth == *reach,
            EndCondition::Infinite => false,
        }
    }
}

} // verus!
