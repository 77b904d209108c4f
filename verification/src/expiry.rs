//! The expiry override of a dependency, from its configured number of seconds.
use vstd::prelude::*;

verus! {

/// How a dependency's default expiry is overridden.
#[derive(Clone, Copy, Debug, PartialEq, Eq, Structural)]
pub enum ExpiryOverride {
    /// The dependency never expires.
    Disabled,
    /// The dependency expires after this many seconds.
    After(u64),
}

/// The override that `expiry_seconds` asks for: none where it is absent,
/// no expiry for 0, expiry after that many seconds otherwise.
pub open spec fn expiry_override_of(expiry_seconds: Option<u64>) -> Option<ExpiryOverride> {
    match expiry_seconds {
        None => None,
        Some(s) => if s == 0 {
            Some(ExpiryOverride::Disabled)
        } else {
            Some(ExpiryOverride::After(s))
        },
    }
}

/// The override that `expiry_seconds` asks for.
pub fn expiry_override(expiry_seconds: Option<u64>) -> (r: Option<ExpiryOverride>)
    ensures
        r == expiry_override_of(expiry_seconds),
{
    match expiry_seconds {
        None => None,
        Some(0) => Some(ExpiryOverride::Disabled),
        Some(seconds) => Some(ExpiryOverride::After(seconds)),
    }
}

} // verus!
