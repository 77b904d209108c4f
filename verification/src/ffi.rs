//! The decisions behind the C entry points: which argument is refused and
//! with what message, and which status and message each outcome gives.
//! Reading raw pointers, running the arena and writing the answers back
//! happen at the boundary itself.
use vstd::prelude::*;
use vstd::string::*;

use crate::component::executable::{debug_quoted, debug_string};
use crate::status::ArenaStatus;
use crate::http::json::{json_document, json_parse_error_text, json_text_parses, parse_json_value};
use crate::text::{contains_char, decimal_string, decimal_text, string_of};

verus! {

/// What the boundary found behind one string argument.
#[derive(Clone, Copy, Debug, PartialEq, Eq, Structural)]
pub enum ArgState {
    /// The pointer is null.
    Null,
    /// The pointer is not null but the bytes are not UTF-8.
    InvalidUtf8,
    /// The argument reads as a string.
    Valid,
}

/// The message refusing a null argument.
pub open spec fn null_message(function: Seq<char>, argument: Seq<char>) -> Seq<char> {
    function + ": "@ + argument + " must not be null"@
}

/// The message refusing an argument that is not UTF-8.
pub open spec fn utf8_message(function: Seq<char>, argument: Seq<char>) -> Seq<char> {
    function + ": "@ + argument + " is not valid UTF-8"@
}

/// Position of the first argument at `i` or later in state `state`, or -1.
pub open spec fn first_in_state(states: Seq<ArgState>, state: ArgState, i: int) -> int
    decreases states.len() - i,
{
    if i < 0 || i >= states.len() {
        -1
    } else if states[i] == state {
        i
    } else {
        first_in_state(states, state, i + 1)
    }
}

/// The message refusing the arguments, if any: every argument is checked
/// for null first, in order; then every argument for UTF-8, in order.
pub open spec fn argument_error(function: Seq<char>, names: Seq<Seq<char>>, states: Seq<ArgState>) -> Option<
    Seq<char>,
> {
    let n = first_in_state(states, ArgState::Null, 0);
    let u = first_in_state(states, ArgState::InvalidUtf8, 0);
    if n >= 0 {
        Some(null_message(function, names[n]))
    } else if u >= 0 {
        Some(utf8_message(function, names[u]))
    } else {
        None
    }
}

/// The position of the first argument in `state`.
fn find_state(states: &[ArgState], state: ArgState) -> (r: Option<usize>)
    ensures
        match r {
            Some(i) => i == first_in_state(states@, state, 0) && i < states@.len(),
            None => first_in_state(states@, state, 0) == -1,
        },
{
    let mut i: usize = 0;
    while i < states.len()
        invariant
            i <= states@.len(),
            first_in_state(states@, state, 0) == first_in_state(states@, state, i as int),
        decreases states@.len() - i,
    {
        if states[i] == state {
            return Some(i);
        }
        i = i + 1;
    }
    None
}

/// The message that refuses the string arguments `names` of `function`
/// given what the boundary found behind each, if any.
pub fn argument_check(function: &str, names: &[&str], states: &[ArgState]) -> (r: Option<String>)
    requires
        names@.len() == states@.len(),
    ensures
        match r {
            Some(m) => argument_error(function@, crate::logging::allowlist::str_views(names@), states@)
                == Some(m@),
            None => argument_error(function@, crate::logging::allowlist::str_views(names@), states@)
                is None,
        },
{
    match find_state(states, ArgState::Null) {
        Some(i) => {
            let mut m = string_of(function);
            m.append(": ");
            m.append(names[i]);
            m.append(" must not be null");
            Some(m)
        },
        None => match find_state(states, ArgState::InvalidUtf8) {
            Some(i) => {
                let mut m = string_of(function);
                m.append(": ");
                m.append(names[i]);
                m.append(" is not valid UTF-8");
                Some(m)
            },
            None => None,
        },
    }
}

/// How an operation behind the boundary ended.
#[derive(Debug)]
pub enum Outcome<T> {
    /// It finished with a value.
    Done(T),
    /// It refused with a message.
    Refused(String),
    /// It panicked with a message.
    Panicked(String),
}

/// The status and message with which a playbook operation of `function`
/// answers: success, or failure with the function's name before the message.
pub fn playbook_status(function: &str, outcome: Outcome<()>) -> (r: (ArenaStatus, Option<String>))
    ensures
        outcome is Done ==> r.0 == ArenaStatus::Success && r.1 is None,
        outcome matches Outcome::Refused(msg) ==> r.0 == ArenaStatus::Failed && (r.1 matches Some(m)
            && m@ == function@ + ": "@ + msg@),
        outcome matches Outcome::Panicked(msg) ==> r.0 == ArenaStatus::Failed && (r.1 matches Some(m)
            && m@ == function@ + ": "@ + msg@),
{
    match outcome {
        Outcome::Done(()) => (ArenaStatus::Success, None),
        Outcome::Refused(msg) => {
            let mut m = string_of(function);
            m.append(": ");
            m.append(msg.as_str());
            (ArenaStatus::Failed, Some(m))
        },
        Outcome::Panicked(msg) => {
            let mut m = string_of(function);
            m.append(": ");
            m.append(msg.as_str());
            (ArenaStatus::Failed, Some(m))
        },
    }
}

/// The status and message with which an entry point that opens, runs or
/// signs answers: the value, or the function's name before a refusal, or
/// `panic in` and the function's name before a panic's message.
pub open spec fn entry_result<T>(function: Seq<char>, outcome: Outcome<T>) -> Result<T, Seq<char>> {
    match outcome {
        Outcome::Done(v) => Ok(v),
        Outcome::Refused(msg) => Err(function + ": "@ + msg@),
        Outcome::Panicked(msg) => Err("panic in "@ + function + ": "@ + msg@),
    }
}

/// The value of an entry point's operation, or the message it answers with.
pub fn entry_answer<T>(function: &str, outcome: Outcome<T>) -> (r: Result<T, String>)
    ensures
        match (r, entry_result(function@, outcome)) {
            (Ok(a), Ok(b)) => a == b,
            (Err(m), Err(n)) => m@ == n,
            _ => false,
        },
{
    match outcome {
        Outcome::Done(v) => Ok(v),
        Outcome::Refused(msg) => {
            let mut m = string_of(function);
            m.append(": ");
            m.append(msg.as_str());
            Err(m)
        },
        Outcome::Panicked(msg) => {
            let mut m = string_of("panic in ");
            m.append(function);
            m.append(": ");
            m.append(msg.as_str());
            Err(m)
        },
    }
}

/// What looking up a dependency of the open arena found.
#[derive(Clone, Copy, Debug, PartialEq, Eq, Structural)]
pub enum DependencyLookup {
    /// The arena was already closed.
    ArenaClosed,
    /// No dependency has the identifier.
    Missing,
    /// The dependency is of another kind.
    OtherKind,
    /// The dependency is of the kind asked for.
    Found,
}

/// The message refusing a lookup of `identifier` for a dependency type
/// named by `type_phrase` (such as `an MssqlDependency`), if any.
pub open spec fn lookup_message(lookup: DependencyLookup, identifier: Seq<char>, type_phrase: Seq<char>) -> Option<Seq<char>> {
    match lookup {
        DependencyLookup::ArenaClosed => Some("arena is already closed"@),
        DependencyLookup::Missing => Some("dependency '"@ + identifier + "' not found"@),
        DependencyLookup::OtherKind => Some("dependency '"@ + identifier + "' is not "@ + type_phrase),
        DependencyLookup::Found => None,
    }
}

/// The message refusing a dependency lookup, if any.
pub fn lookup_refusal(lookup: DependencyLookup, identifier: &str, type_phrase: &str) -> (r: Option<String>)
    ensures
        match lookup_message(lookup, identifier@, type_phrase@) {
            Some(m) => r matches Some(s) && s@ == m,
            None => r is None,
        },
{
    match lookup {
        DependencyLookup::ArenaClosed => Some(string_of("arena is already closed")),
        DependencyLookup::Missing => {
            let mut m = string_of("dependency '");
            m.append(identifier);
            m.append("' not found");
            Some(m)
        },
        DependencyLookup::OtherKind => {
            let mut m = string_of("dependency '");
            m.append(identifier);
            m.append("' is not ");
            m.append(type_phrase);
            Some(m)
        },
        DependencyLookup::Found => None,
    }
}

/// What looking up a managed playbook of the open arena found.
#[derive(Clone, Copy, Debug, PartialEq, Eq, Structural)]
pub enum PlaybookLookup {
    /// The arena was already closed.
    ArenaClosed,
    /// No match of the arena registers the identifier.
    NotRegistered,
    /// A match registers a playbook with the identifier.
    Registered,
}

/// The message refusing to run the managed playbook `identifier`, if any.
pub open spec fn playbook_run_message(lookup: PlaybookLookup, identifier: Seq<char>) -> Option<Seq<char>> {
    match lookup {
        PlaybookLookup::ArenaClosed => Some("arena is already closed"@),
        PlaybookLookup::NotRegistered => Some("playbook '"@ + identifier + "' is not registered on any match"@),
        PlaybookLookup::Registered => None,
    }
}

/// The message refusing to run a managed playbook, if any.
pub fn playbook_run_refusal(lookup: PlaybookLookup, identifier: &str) -> (r: Option<String>)
    ensures
        match playbook_run_message(lookup, identifier@) {
            Some(m) => r matches Some(s) && s@ == m,
            None => r is None,
        },
{
    match lookup {
        PlaybookLookup::ArenaClosed => Some(string_of("arena is already closed")),
        PlaybookLookup::NotRegistered => {
            let mut m = string_of("playbook '");
            m.append(identifier);
            m.append("' is not registered on any match");
            Some(m)
        },
        PlaybookLookup::Registered => None,
    }
}

/// The message of a spec that `serde_json` could not read: `what` is
/// `spec` for a playbook spec, empty for a verify spec.
pub open spec fn parse_failure_message(function: Seq<char>, what: Seq<char>, error: Seq<char>) -> Seq<char> {
    if what.len() == 0 {
        function + ": parse failed: "@ + error
    } else {
        function + ": "@ + what + " parse failed: "@ + error
    }
}

/// The status and message with which an entry point refuses a spec it
/// could not read: an invalid argument.
pub fn parse_failure_answer(function: &str, what: &str, error: &str) -> (r: (ArenaStatus, String))
    ensures
        r.0 == ArenaStatus::InvalidArgument,
        r.1@ == parse_failure_message(function@, what@, error@),
{
    let mut m = string_of(function);
    if what.unicode_len() > 0 {
        m.append(": ");
        m.append(what);
        m.append(" parse failed: ");
    } else {
        m.append(": parse failed: ");
    }
    m.append(error);
    (ArenaStatus::InvalidArgument, m)
}

/// What an active playbook answered to a verify query.
#[derive(Clone, Copy, Debug, PartialEq, Eq, Structural)]
pub enum PlaybookReply {
    /// The handle no longer holds an active playbook.
    Gone,
    /// The playbook is of another kind.
    OtherKind,
    /// The query read this value.
    Read(i32),
}

/// The message of a query whose result differs from the expected one.
pub open spec fn verify_mismatch_message(query: Seq<char>, expected: i32, actual: i32) -> Seq<char> {
    "verify failed for query "@ + debug_quoted(query) + ": expected "@ + decimal_text(expected as int)
        + ", got "@ + decimal_text(actual as int)
}

/// The outcome of verifying that `query` reads `expected`, given the
/// playbook's reply: `gone` where the playbook was dropped or closed, a
/// refusal naming `kind_phrase` (such as `a Postgres`) where it is of
/// another kind, the mismatch where the value differs.
pub open spec fn verify_result(query: Seq<char>, expected: i32, reply: PlaybookReply, gone: Seq<char>, kind_phrase: Seq<char>) -> Result<(), Seq<char>> {
    match reply {
        PlaybookReply::Gone => Err(gone),
        PlaybookReply::OtherKind => Err("playbook handle is not "@ + kind_phrase + " playbook"@),
        PlaybookReply::Read(actual) => if actual == expected {
            Ok(())
        } else {
            Err(verify_mismatch_message(query, expected, actual))
        },
    }
}

/// A verify whose query read a value succeeds exactly when the value read
/// is the expected one, and otherwise fails naming the query, the expected
/// value and the value read; a playbook that is gone, or of another kind,
/// never verifies.
pub proof fn lemma_verify_succeeds_iff_equal(
    query: Seq<char>,
    expected: i32,
    actual: i32,
    gone: Seq<char>,
    kind_phrase: Seq<char>,
)
    ensures
        verify_result(query, expected, PlaybookReply::Read(actual), gone, kind_phrase) is Ok <==> actual
            == expected,
        actual != expected ==> verify_result(query, expected, PlaybookReply::Read(actual), gone, kind_phrase)
            == Err::<(), Seq<char>>(
            "verify failed for query "@ + debug_quoted(query) + ": expected "@ + decimal_text(expected as int)
                + ", got "@ + decimal_text(actual as int),
        ),
        verify_result(query, expected, PlaybookReply::Gone, gone, kind_phrase) == Err::<(), Seq<char>>(gone),
        verify_result(query, expected, PlaybookReply::OtherKind, gone, kind_phrase) is Err,
{
}

/// The outcome of a verify query, as an operation behind the boundary ends.
pub fn verify_reply_outcome(query: &str, expected: i32, reply: PlaybookReply, gone: &str, kind_phrase: &str) -> (r: Outcome<()>)
    ensures
        match (r, verify_result(query@, expected, reply, gone@, kind_phrase@)) {
            (Outcome::Done(()), Ok(())) => true,
            (Outcome::Refused(m), Err(n)) => m@ == n,
            _ => false,
        },
{
    match reply {
        PlaybookReply::Gone => Outcome::Refused(string_of(gone)),
        PlaybookReply::OtherKind => {
            let mut m = string_of("playbook handle is not ");
            m.append(kind_phrase);
            m.append(" playbook");
            Outcome::Refused(m)
        },
        PlaybookReply::Read(actual) => if actual == expected {
            Outcome::Done(())
        } else {
            let mut m = string_of("verify failed for query ");
            m.append(debug_string(query).as_str());
            m.append(": expected ");
            m.append(decimal_string(expected as i128).as_str());
            m.append(", got ");
            m.append(decimal_string(actual as i128).as_str());
            Outcome::Refused(m)
        },
    }
}

/// The token a signing answers with, or the message: a token holding a NUL
/// character cannot cross the boundary.
pub open spec fn signed_token_result(function: Seq<char>, outcome: Outcome<String>) -> Result<Seq<char>, Seq<char>> {
    match entry_result(function, outcome) {
        Ok(t) => if t@.contains('\0') {
            Err(function + ": token contained interior NUL"@)
        } else {
            Ok(t@)
        },
        Err(m) => Err(m),
    }
}

/// The token that signing claims answers with, or the message.
pub fn signed_token_answer(function: &str, outcome: Outcome<String>) -> (r: Result<String, String>)
    ensures
        match (r, signed_token_result(function@, outcome)) {
            (Ok(a), Ok(b)) => a@ == b,
            (Err(m), Err(n)) => m@ == n,
            _ => false,
        },
{
    match entry_answer(function, outcome) {
        Ok(token) => if contains_char(token.as_str(), '\0') {
            let mut m = string_of(function);
            m.append(": token contained interior NUL");
            Err(m)
        } else {
            Ok(token)
        },
        Err(m) => Err(m),
    }
}

/// The message refusing claims that `serde_json` could not read.
pub open spec fn claims_message(error: Seq<char>) -> Seq<char> {
    "arena_oauth_sign_claims: claims is not valid JSON: "@ + error
}

/// The claims to sign, read from JSON text, or the message refusing them.
pub fn read_claims(claims_json: &str) -> (r: Result<serde_json::Value, String>)
    ensures
        r is Ok <==> json_text_parses(claims_json@),
        r matches Ok(v) ==> v == json_document(claims_json@),
        r matches Err(m) ==> m@ == claims_message(json_parse_error_text(claims_json@)),
{
    match parse_json_value(claims_json) {
        Ok(v) => Ok(v),
        Err(e) => {
            let mut m = string_of("arena_oauth_sign_claims: claims is not valid JSON: ");
            m.append(e.as_str());
            Err(m)
        },
    }
}

/// What resetting a dependency found.
#[derive(Clone, Copy, Debug, PartialEq, Eq, Structural)]
pub enum ResetFinding {
    /// The arena was already closed.
    ArenaClosed,
    /// No dependency has the identifier.
    DependencyMissing,
    /// The dependency was reset, or reported a failure while resetting.
    Reset { succeeded: bool },
}

/// The status a reset answers with.
pub open spec fn reset_status_of(f: ResetFinding) -> ArenaStatus {
    match f {
        ResetFinding::ArenaClosed => ArenaStatus::Failed,
        ResetFinding::DependencyMissing => ArenaStatus::NotFound,
        ResetFinding::Reset { succeeded } => if succeeded {
            ArenaStatus::Success
        } else {
            ArenaStatus::Failed
        },
    }
}

/// The message a reset answer carries, if any: a missing dependency is
/// named, and every failure is reported as a closed arena.
pub open spec fn reset_message_of(f: ResetFinding, identifier: Seq<char>) -> Option<Seq<char>> {
    match reset_status_of(f) {
        ArenaStatus::NotFound => Some("dependency '"@ + identifier + "' not found"@),
        ArenaStatus::Failed => Some("reset: arena is already closed"@),
        _ => None,
    }
}

/// The status and message with which a reset of `identifier` answers.
pub fn reset_answer(finding: ResetFinding, identifier: &str) -> (r: (ArenaStatus, Option<String>))
    ensures
        r.0 == reset_status_of(finding),
        match reset_message_of(finding, identifier@) {
            Some(m) => r.1 matches Some(s) && s@ == m,
            None => r.1 is None,
        },
{
    match finding {
        ResetFinding::ArenaClosed => (ArenaStatus::Failed, Some(string_of("reset: arena is already closed"))),
        ResetFinding::DependencyMissing => {
            let mut m = string_of("dependency '");
            m.append(identifier);
            m.append("' not found");
            (ArenaStatus::NotFound, Some(m))
        },
        ResetFinding::Reset { succeeded } => if succeeded {
            (ArenaStatus::Success, None)
        } else {
            (ArenaStatus::Failed, Some(string_of("reset: arena is already closed")))
        },
    }
}

/// The status and message with which reading the state of an arena answers,
/// given whether its state could be read (`None` where it panicked).
pub fn state_read_answer(outcome: Outcome<bool>) -> (r: (ArenaStatus, Option<String>))
    ensures
        outcome == Outcome::<bool>::Done(true) ==> r.0 == ArenaStatus::Success && r.1 is None,
        outcome == Outcome::<bool>::Done(false) ==> r.0 == ArenaStatus::NotFound && (r.1 matches Some(m)
            && m@ == "arena_state_json: arena is already closed"@),
        outcome matches Outcome::Panicked(msg) ==> r.0 == ArenaStatus::Panic && (r.1 matches Some(m)
            && m@ == "arena_state_json failed: "@ + msg@),
        outcome matches Outcome::Refused(msg) ==> r.0 == ArenaStatus::Panic && (r.1 matches Some(m)
            && m@ == "arena_state_json failed: "@ + msg@),
{
    match outcome {
        Outcome::Done(true) => (ArenaStatus::Success, None),
        Outcome::Done(false) => (
            ArenaStatus::NotFound,
            Some(string_of("arena_state_json: arena is already closed")),
        ),
        Outcome::Refused(msg) => {
            let mut m = string_of("arena_state_json failed: ");
            m.append(msg.as_str());
            (ArenaStatus::Panic, Some(m))
        },
        Outcome::Panicked(msg) => {
            let mut m = string_of("arena_state_json failed: ");
            m.append(msg.as_str());
            (ArenaStatus::Panic, Some(m))
        },
    }
}

/// Whether a configuration text asks for parsing: an absent or empty text
/// stands for the default configuration.
pub fn config_text_is_default(text: Option<&str>) -> (r: bool)
    ensures
        r == match text {
            None => true,
            Some(t) => t@.len() == 0,
        },
{
    match text {
        None => true,
        Some(t) => t.unicode_len() == 0,
    }
}

/// The text written to an out-string: `value`, or `fallback` where `value`
/// holds a NUL character and so cannot become a C string.
pub fn c_text_or_fallback(value: String, fallback: &str) -> (r: String)
    ensures
        r@ == if value@.contains('\0') {
            fallback@
        } else {
            value@
        },
{
    if contains_char(value.as_str(), '\0') {
        string_of(fallback)
    } else {
        value
    }
}

/// The status with which setting the log level answers, given whether the
/// level was valid and whether installing it panicked.
pub fn set_log_level_status(valid: bool, panicked: bool) -> (r: ArenaStatus)
    ensures
        !valid ==> r == ArenaStatus::InvalidArgument,
        valid && panicked ==> r == ArenaStatus::Panic,
        valid && !panicked ==> r == ArenaStatus::Success,
{
    if !valid {
        ArenaStatus::InvalidArgument
    } else if panicked {
        ArenaStatus::Panic
    } else {
        ArenaStatus::Success
    }
}

} // verus!
