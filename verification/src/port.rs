//! Validation of a request for a free port, and the answer to it.
use vstd::prelude::*;
use vstd::string::*;

use crate::status::ArenaStatus;
use crate::text::{decimal_string, decimal_text, string_of};

verus! {

/// How the host looks for a free port in a range.
#[derive(Clone, Copy, Debug, PartialEq, Eq, Structural)]
pub enum PortSearchStrategy {
    Random,
    Linear,
}

/// A validated search: the inclusive range of ports and the strategy.
#[derive(Clone, Copy, Debug, PartialEq, Eq, Structural)]
pub struct PortSearchRequest {
    pub range_start: u16,
    pub range_end_inclusive: u16,
    pub strategy: PortSearchStrategy,
}

/// Where the bounds are out of range: `range_start` must lie in `0..=65535`
/// and `range_end` in `1..=65536`.
pub open spec fn range_message(range_start: i32, range_end: i32) -> Seq<char> {
    "arena_find_available_port: range_start ("@ + decimal_text(range_start as int)
        + ") must be within 0..=65535 and range_end ("@ + decimal_text(range_end as int)
        + ") must be within 1..=65536"@
}

/// Where the range is empty.
pub open spec fn order_message(range_start: i32, range_end: i32) -> Seq<char> {
    "arena_find_available_port: range_start ("@ + decimal_text(range_start as int)
        + ") must be < range_end ("@ + decimal_text(range_end as int) + ")"@
}

/// Where the strategy code names no strategy.
pub open spec fn strategy_message(strategy: i32) -> Seq<char> {
    "arena_find_available_port: unrecognized strategy "@ + decimal_text(strategy as int)
}

/// Where the host finds no free port in the range.
pub open spec fn exhausted_message(range_start: i32, range_end: i32) -> Seq<char> {
    "arena_find_available_port failed: no available port found in range "@ + decimal_text(
        range_start as int,
    ) + ".."@ + decimal_text(range_end as int)
}

/// The outcome of validating a port search: the search, or the message that
/// refuses it, checked in the order bounds, emptiness, strategy.
pub open spec fn port_request_outcome(range_start: i32, range_end: i32, strategy: i32) -> Result<
    PortSearchRequest,
    Seq<char>,
> {
    if !(0 <= range_start <= 65535) || !(1 <= range_end <= 65536) {
        Err(range_message(range_start, range_end))
    } else if range_start >= range_end {
        Err(order_message(range_start, range_end))
    } else if strategy == 0 {
        Ok(
            PortSearchRequest {
                range_start: range_start as u16,
                range_end_inclusive: (range_end - 1) as u16,
                strategy: PortSearchStrategy::Random,
            },
        )
    } else if strategy == 1 {
        Ok(
            PortSearchRequest {
                range_start: range_start as u16,
                range_end_inclusive: (range_end - 1) as u16,
                strategy: PortSearchStrategy::Linear,
            },
        )
    } else {
        Err(strategy_message(strategy))
    }
}

/// Validates a port search for the half-open range `range_start..range_end`
/// with strategy code `strategy` (0 random, 1 linear).
pub fn port_search_request(range_start: i32, range_end: i32, strategy: i32) -> (r: Result<
    PortSearchRequest,
    String,
>)
    ensures
        match (r, port_request_outcome(range_start, range_end, strategy)) {
            (Ok(a), Ok(b)) => a == b,
            (Err(m), Err(n)) => m@ == n,
            _ => false,
        },
{
    if !(0 <= range_start && range_start <= 65535) || !(1 <= range_end && range_end <= 65536) {
        let mut m = string_of("arena_find_available_port: range_start (");
        m.append(decimal_string(range_start as i128).as_str());
        m.append(") must be within 0..=65535 and range_end (");
        m.append(decimal_string(range_end as i128).as_str());
        m.append(") must be within 1..=65536");
        return Err(m);
    }
    if range_start >= range_end {
        let mut m = string_of("arena_find_available_port: range_start (");
        m.append(decimal_string(range_start as i128).as_str());
        m.append(") must be < range_end (");
        m.append(decimal_string(range_end as i128).as_str());
        m.append(")");
        return Err(m);
    }
    let strategy = if strategy == 0 {
        PortSearchStrategy::Random
    } else if strategy == 1 {
        PortSearchStrategy::Linear
    } else {
        let mut m = string_of("arena_find_available_port: unrecognized strategy ");
        m.append(decimal_string(strategy as i128).as_str());
        return Err(m);
    };
    Ok(
        PortSearchRequest {
            range_start: range_start as u16,
            range_end_inclusive: (range_end - 1) as u16,
            strategy,
        },
    )
}

/// The answer to a validated search for `range_start..range_end` whose host
/// search found `found`: the port, or `Panic` with the message that says the
/// range is exhausted.
pub fn port_search_answer(range_start: i32, range_end: i32, found: Option<u16>) -> (r: Result<
    i32,
    (ArenaStatus, String),
>)
    ensures
        found matches Some(p) ==> r == Ok::<i32, (ArenaStatus, String)>(p as i32),
        found is None ==> (r matches Err((s, m)) && s == ArenaStatus::Panic && m@
            == exhausted_message(range_start, range_end)),
{
    match found {
        Some(p) => Ok(p as i32),
        None => {
            let mut m = string_of(
                "arena_find_available_port failed: no available port found in range ",
            );
            m.append(decimal_string(range_start as i128).as_str());
            m.append("..");
            m.append(decimal_string(range_end as i128).as_str());
            Err((ArenaStatus::Panic, m))
        },
    }
}

/// An accepted search names a non-empty range of valid ports whose last
/// port is the one below `range_end`.
pub proof fn lemma_accepted_range_is_nonempty(range_start: i32, range_end: i32, strategy: i32)
    ensures
        port_request_outcome(range_start, range_end, strategy) matches Ok(req) ==> {
            &&& req.range_start as int == range_start
            &&& req.range_end_inclusive as int == range_end - 1
            &&& req.range_start <= req.range_end_inclusive
        },
        port_request_outcome(range_start, range_end, strategy) is Ok <==> (0 <= range_start
            < range_end <= 65536 && (strategy == 0 || strategy == 1)),
{
}

} // verus!
