//! Readiness checks: their configuration, and the message a check that
//! times out gives. The polling itself runs beside the async runtime.
use vstd::prelude::*;
use vstd::string::*;

use crate::text::{decimal_digits, decimal_string, digit_char, push_char, string_of};

verus! {

/// Polls an HTTP target until it answers.
pub struct HttpReadinessCheck;

/// Polls a TCP target until it accepts a connection.
pub struct TcpReadinessCheck;

impl HttpReadinessCheck {
    /// The HTTP readiness check.
    pub fn new() -> (r: Self)
        ensures
            r == HttpReadinessCheck,
    {
        HttpReadinessCheck
    }
}

impl TcpReadinessCheck {
    /// The TCP readiness check.
    pub fn new() -> (r: Self)
        ensures
            r == TcpReadinessCheck,
    {
        TcpReadinessCheck
    }
}

/// Time a readiness check waits for its target when none is configured, in milliseconds.
pub open spec fn default_timeout_ms() -> u64 {
    10_000
}

/// One readiness check of a component.
#[derive(Debug)]
pub enum ReadinessCheckConfig {
    Http { target: String, timeout_ms: u64 },
    Tcp { target: String, timeout_ms: u64 },
}

impl ReadinessCheckConfig {
    /// A copy of this check.
    pub fn duplicate(&self) -> (r: Self)
        ensures
            r == *self,
    {
        match self {
            ReadinessCheckConfig::Http { target, timeout_ms } => ReadinessCheckConfig::Http {
                target: target.clone(),
                timeout_ms: *timeout_ms,
            },
            ReadinessCheckConfig::Tcp { target, timeout_ms } => ReadinessCheckConfig::Tcp {
                target: target.clone(),
                timeout_ms: *timeout_ms,
            },
        }
    }
}

/// Time a readiness check waits for its target when none is configured, in milliseconds.
pub fn default_readiness_timeout_ms() -> (r: u64)
    ensures
        r == default_timeout_ms(),
{
    10_000
}

/// The kind of a readiness check, as its timeout message names it.
#[derive(Clone, Copy, Debug, PartialEq, Eq, Structural)]
pub enum ReadinessKind {
    Http,
    Tcp,
}

/// The digits after the decimal point of a fraction of a second given in
/// milliseconds (`1..=999`), without trailing zeros.
pub open spec fn millis_fraction_digits(f: nat) -> Seq<char> {
    let d1 = ((('0' as u32) + f / 100) as char);
    let d2 = ((('0' as u32) + (f / 10) % 10) as char);
    let d3 = ((('0' as u32) + f % 10) as char);
    if f % 10 != 0 {
        seq![d1, d2, d3]
    } else if (f / 10) % 10 != 0 {
        seq![d1, d2]
    } else {
        seq![d1]
    }
}

/// `Debug` text of a duration of `ms` milliseconds: whole seconds with the
/// fraction and `s` from one second up, `ms` below, `0ns` for zero.
pub open spec fn duration_millis_debug(ms: nat) -> Seq<char> {
    if ms >= 1000 {
        let f = ms % 1000;
        decimal_digits(ms / 1000) + (if f == 0 {
            Seq::<char>::empty()
        } else {
            "."@ + millis_fraction_digits(f)
        }) + "s"@
    } else if ms >= 1 {
        decimal_digits(ms) + "ms"@
    } else {
        "0ns"@
    }
}

/// `Debug` text of a duration of `ms` milliseconds, as `std::time::Duration`
/// writes `Duration::from_millis(ms)`.
fn duration_debug_text(ms: u64) -> (r: String)
    ensures
        r@ == duration_millis_debug(ms as nat),
{
    if ms >= 1000 {
        let mut m = decimal_string((ms / 1000) as i128);
        let f: u64 = ms % 1000;
        let ghost whole = m@;
        if f != 0 {
            m.append(".");
            push_char(&mut m, digit_char((f / 100) as u32));
            if f % 10 != 0 {
                push_char(&mut m, digit_char(((f / 10) % 10) as u32));
                push_char(&mut m, digit_char((f % 10) as u32));
            } else if (f / 10) % 10 != 0 {
                push_char(&mut m, digit_char(((f / 10) % 10) as u32));
            }
            assert(m@ =~= whole + ("."@ + millis_fraction_digits(f as nat)));
        } else {
            assert(m@ =~= whole + Seq::<char>::empty());
        }
        m.append("s");
        m
    } else if ms >= 1 {
        let mut m = decimal_string(ms as i128);
        m.append("ms");
        m
    } else {
        string_of("0ns")
    }
}

/// The message of a readiness check of `kind` on `identifier` that timed out
/// after `timeout_ms` milliseconds.
pub open spec fn timeout_message(kind: ReadinessKind, identifier: Seq<char>, timeout_ms: nat) -> Seq<
    char,
> {
    let label = match kind {
        ReadinessKind::Http => "HTTP"@,
        ReadinessKind::Tcp => "TCP"@,
    };
    "["@ + identifier + "] "@ + label + " healthcheck timed out after "@ + duration_millis_debug(
        timeout_ms,
    )
}

/// The message of a readiness check that timed out.
pub fn readiness_timeout_message(kind: ReadinessKind, identifier: &str, timeout_ms: u64) -> (r:
    String)
    ensures
        r@ == timeout_message(kind, identifier@, timeout_ms as nat),
{
    let mut m = string_of("[");
    m.append(identifier);
    m.append("] ");
    match kind {
        ReadinessKind::Http => m.append("HTTP"),
        ReadinessKind::Tcp => m.append("TCP"),
    }
    m.append(" healthcheck timed out after ");
    m.append(duration_debug_text(timeout_ms).as_str());
    m
}

/// What a readiness poll does next.
#[derive(Clone, Copy, Debug, PartialEq, Eq, Structural)]
pub enum ReadinessStep {
    /// Probe the target now.
    Probe,
    /// The target answered: the check passes.
    Ready,
    /// Wait the poll interval, then decide again.
    Wait,
    /// The time is up: the check fails with its timeout message.
    TimedOut,
}

/// Interval between two probes of a readiness check, in milliseconds.
pub open spec fn poll_interval_ms() -> u64 {
    100
}

/// The next step of a readiness poll that has run for `elapsed_ms` of its
/// `timeout_ms`, given the outcome of the probe just made (`None` where no
/// probe was made since the last decision): a successful probe passes; a
/// failed one waits; without a probe, it probes while time is left and
/// times out otherwise.
pub fn next_readiness_step(elapsed_ms: u128, timeout_ms: u64, last_probe: Option<bool>) -> (r:
    ReadinessStep)
    ensures
        last_probe == Some(true) ==> r == ReadinessStep::Ready,
        last_probe == Some(false) ==> r == ReadinessStep::Wait,
        last_probe is None ==> (r == if elapsed_ms < timeout_ms as u128 {
            ReadinessStep::Probe
        } else {
            ReadinessStep::TimedOut
        }),
{
    match last_probe {
        Some(true) => ReadinessStep::Ready,
        Some(false) => ReadinessStep::Wait,
        None => if elapsed_ms < timeout_ms as u128 {
            ReadinessStep::Probe
        } else {
            ReadinessStep::TimedOut
        },
    }
}

/// Interval between two probes of a readiness check, in milliseconds.
pub fn readiness_poll_interval_ms() -> (r: u64)
    ensures
        r == poll_interval_ms(),
{
    100
}

} // verus!
