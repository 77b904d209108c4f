//! Status codes returned across the C boundary, and the opaque handle types
//! that the C side holds.
use vstd::prelude::*;

verus! {

/// Outcome of a call across the C boundary.
#[derive(Clone, Copy, Debug, PartialEq, Eq, Structural)]
pub enum ArenaStatus {
    Success,
    InvalidArgument,
    Failed,
    Panic,
    NotFound,
}

/// The integer that the C side receives for each status.
pub open spec fn status_code(s: ArenaStatus) -> i32 {
    match s {
        ArenaStatus::Success => 0,
        ArenaStatus::InvalidArgument => 1,
        ArenaStatus::Failed => 2,
        ArenaStatus::Panic => 3,
        ArenaStatus::NotFound => 4,
    }
}

impl ArenaStatus {
    /// The integer that the C side receives for this status.
    pub fn code(&self) -> (r: i32)
        ensures
            r == status_code(*self),
    {
        match self {
            ArenaStatus::Success => 0,
            ArenaStatus::InvalidArgument => 1,
            ArenaStatus::Failed => 2,
            ArenaStatus::Panic => 3,
            ArenaStatus::NotFound => 4,
        }
    }
}

/// Distinct statuses have distinct codes.
pub proof fn lemma_status_codes_distinct(a: ArenaStatus, b: ArenaStatus)
    ensures
        status_code(a) == status_code(b) <==> a == b,
{
}

/// Success is 0 on the C side, and the failures follow it: an invalid
/// argument 1, a failure 2, a panic 3, something not found 4.
pub proof fn lemma_status_code_table(s: ArenaStatus)
    ensures
        s is Success <==> status_code(s) == 0,
        s is InvalidArgument <==> status_code(s) == 1,
        s is Failed <==> status_code(s) == 2,
        s is Panic <==> status_code(s) == 3,
        s is NotFound <==> status_code(s) == 4,
{
}

/// Opaque handle to an open arena, as the C side sees it.
pub struct ArenaHandle {
    _private: [u8; 0],
}

/// Opaque handle to an open arena together with its runtime, as the C side sees it.
pub struct OpenArenaHandle {
    _private: [u8; 0],
}

/// Opaque handle to a running playbook, as the C side sees it.
pub struct ArenaActivePlaybookHandle {
    _private: [u8; 0],
}

/// Opaque handle to a running HTTP playbook, as the C side sees it.
pub struct ArenaHttpPlaybookHandle {
    _private: [u8; 0],
}

/// Opaque handle to a running MSSQL playbook, as the C side sees it.
pub struct ArenaMssqlPlaybookHandle {
    _private: [u8; 0],
}

/// Opaque handle to a running Localstack playbook, as the C side sees it.
pub struct ArenaLocalstackPlaybookHandle {
    _private: [u8; 0],
}

} // verus!
