//! What a dispatched record looks like when it reaches a C log target: its
//! level integer, its caller, and whether it can cross the boundary at all.
use vstd::prelude::*;

use crate::logging::level::{delivered_level_code, severity_code, Level};
use crate::text::contains_char;

verus! {

/// The final component of a path, as `std::path::Path::file_name` gives it
/// (as text), where it has one.
pub uninterp spec fn path_file_name(path: Seq<char>) -> Option<Seq<char>>;

/// The final component of `path` through `std::path::Path::file_name`.
/// Claims that it is `path_file_name(path)`.
#[verifier::external_body]
fn file_name_of(path: &str) -> (r: Option<String>)
    ensures
        match r {
            Some(s) => path_file_name(path@) == Some(s@),
            None => path_file_name(path@) is None,
        },
{
    std::path::Path::new(path).file_name().and_then(|n| n.to_str()).map(|s| s.to_owned())
}

/// The caller of a record whose event gives `file` and `line`: the file's
/// final path component where both are known and the component is not
/// empty, with the line; no caller and line 0 otherwise.
pub open spec fn record_caller_of(file: Option<Seq<char>>, line: Option<u32>) -> (Option<Seq<char>>, u32) {
    match (file, line) {
        (Some(f), Some(l)) => (
            match path_file_name(f) {
                Some(n) => if n.len() > 0 {
                    Some(n)
                } else {
                    None
                },
                None => None,
            },
            l,
        ),
        _ => (None, 0),
    }
}

/// The caller recorded for an event with `file` and `line`.
pub fn record_caller(file: Option<&str>, line: Option<u32>) -> (r: (Option<String>, u32))
    ensures
        r.1 == record_caller_of(
            match file {
                Some(f) => Some(f@),
                None => None,
            },
            line,
        ).1,
        match r.0 {
            Some(s) => record_caller_of(
                match file {
                    Some(f) => Some(f@),
                    None => None,
                },
                line,
            ).0 == Some(s@),
            None => record_caller_of(
                match file {
                    Some(f) => Some(f@),
                    None => None,
                },
                line,
            ).0 is None,
        },
{
    match (file, line) {
        (Some(path), Some(l)) => {
            let name = match file_name_of(path) {
                Some(n) => if n.unicode_len() > 0 {
                    Some(n)
                } else {
                    None
                },
                None => None,
            };
            (name, l)
        },
        _ => (None, 0),
    }
}

/// How a record is handed to a C log target.
#[derive(Clone, Copy, Debug, PartialEq, Eq, Structural)]
pub struct DeliveryPlan {
    /// The level integer.
    pub level: i32,
    /// Whether the caller's file is passed (else a null pointer).
    pub caller_passed: bool,
    /// The caller's line (0 where no caller is passed).
    pub caller_line: u32,
}

/// How a record is handed over, if at all: a target or payload holding a
/// NUL character cannot become a C string and the record is dropped; a
/// caller file holding one is passed as absent.
pub open spec fn delivery_of(
    severity: Level,
    target: Seq<char>,
    payload: Seq<char>,
    caller_file: Option<Seq<char>>,
    caller_line: u32,
) -> Option<DeliveryPlan> {
    if target.contains('\0') || payload.contains('\0') {
        None
    } else {
        let passed = match caller_file {
            Some(f) => !f.contains('\0'),
            None => false,
        };
        Some(
            DeliveryPlan {
                level: severity_code(severity),
                caller_passed: passed,
                caller_line: if passed {
                    caller_line
                } else {
                    0
                },
            },
        )
    }
}

/// How a record with these parts is handed to a C log target, if at all.
pub fn plan_delivery(
    severity: Level,
    target: &str,
    payload: &str,
    caller_file: Option<&str>,
    caller_line: u32,
) -> (r: Option<DeliveryPlan>)
    ensures
        r == delivery_of(
            severity,
            target@,
            payload@,
            match caller_file {
                Some(f) => Some(f@),
                None => None,
            },
            caller_line,
        ),
{
    if contains_char(target, '\0') || contains_char(payload, '\0') {
        return None;
    }
    let passed = match caller_file {
        Some(f) => !contains_char(f, '\0'),
        None => false,
    };
    Some(
        DeliveryPlan {
            level: delivered_level_code(severity),
            caller_passed: passed,
            caller_line: if passed {
                caller_line
            } else {
                0
            },
        },
    )
}

} // verus!
