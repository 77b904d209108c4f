//! The entry points of the C interface as a whole: the order in which each
//! one checks its arguments, reads its spec, looks up what it acts on and
//! runs it, and the status and message it answers with. What the boundary,
//! the spec reader and the arena runtime found at each step comes in as a
//! value; a step is only consulted once every step before it has passed.
use vstd::prelude::*;
use vstd::string::*;

use crate::ffi::{
    argument_check, argument_error, claims_message, entry_answer, entry_result, lookup_message,
    lookup_refusal, parse_failure_answer, parse_failure_message, playbook_run_message,
    playbook_run_refusal, playbook_status, read_claims, signed_token_answer, signed_token_result,
    verify_reply_outcome, verify_result, ArgState, DependencyLookup, Outcome, PlaybookLookup,
    PlaybookReply,
};
use crate::http::json::{json_parse_error_text, json_text_parses};
use crate::http::playbook::{open_prefix, plan_playbook_open, playbook_spec_error, stub_matches, PlaybookSpec, StubPlan};
use crate::logging::allowlist::str_views;
use crate::matches::{match_plan_outcome, plan_match, MatchConfig, MatchPlan};
use crate::port::{exhausted_message, port_request_outcome, port_search_answer, port_search_request};
use crate::status::ArenaStatus;
use crate::text::string_of;

verus! {

/// Whether an answer of status and message is the one described by `e`.
pub open spec fn answers_with(r: (ArenaStatus, Option<String>), e: (ArenaStatus, Option<Seq<char>>)) -> bool {
    &&& r.0 == e.0
    &&& match e.1 {
        Some(m) => r.1 matches Some(s) && s@ == m,
        None => r.1 is None,
    }
}

/// Whether a result carrying no value is the one described by `e`.
pub open spec fn unit_result_is(r: Result<(), String>, e: Result<(), Seq<char>>) -> bool {
    match (r, e) {
        (Ok(()), Ok(())) => true,
        (Err(m), Err(n)) => m@ == n,
        _ => false,
    }
}

/// A verify spec as read: the query and the value it must read.
#[derive(Debug)]
pub struct QuerySpec {
    pub query: String,
    pub expected_value: i32,
}

/// How an entry point reports a panic while it reads its verify spec.
#[derive(Clone, Copy, Debug, PartialEq, Eq, Structural)]
pub enum SpecPanicReport {
    /// `panic in <function>: <message>`.
    PanicIn,
    /// `<function> failed: <message>`.
    FunctionFailed,
}

/// The message reporting a panic while reading a verify spec.
pub open spec fn spec_panic_message(function: Seq<char>, report: SpecPanicReport, msg: Seq<char>) -> Seq<char> {
    match report {
        SpecPanicReport::PanicIn => "panic in "@ + function + ": "@ + msg,
        SpecPanicReport::FunctionFailed => function + " failed: "@ + msg,
    }
}

/// The status and message of a query verify entry point `function`: its
/// handle and its verify spec are checked for null, then the spec for
/// UTF-8 (invalid arguments); then the spec is read (an invalid argument
/// where it does not read, a failure where reading panicked); then the
/// playbook answers (gone, of another kind, or the value the query read),
/// and a panic while it answers is a failure too.
pub open spec fn query_verify_result(
    function: Seq<char>,
    handle: ArgState,
    verify_spec: ArgState,
    parsed: Outcome<QuerySpec>,
    report: SpecPanicReport,
    reply: Outcome<PlaybookReply>,
    gone: Seq<char>,
    kind_phrase: Seq<char>,
) -> (ArenaStatus, Option<Seq<char>>) {
    match argument_error(function, seq!["handle"@, "verify_spec"@], seq![handle, verify_spec]) {
        Some(m) => (ArenaStatus::InvalidArgument, Some(m)),
        None => match parsed {
            Outcome::Refused(e) => (ArenaStatus::InvalidArgument, Some(parse_failure_message(function, ""@, e@))),
            Outcome::Panicked(p) => (ArenaStatus::Failed, Some(spec_panic_message(function, report, p@))),
            Outcome::Done(spec) => match reply {
                Outcome::Done(rp) => match verify_result(spec.query@, spec.expected_value, rp, gone, kind_phrase) {
                    Ok(()) => (ArenaStatus::Success, None),
                    Err(m) => (ArenaStatus::Failed, Some(function + ": "@ + m)),
                },
                Outcome::Refused(m) => (ArenaStatus::Failed, Some(function + ": "@ + m@)),
                Outcome::Panicked(m) => (ArenaStatus::Failed, Some(function + ": "@ + m@)),
            },
        },
    }
}

/// The status and message with which a query verify entry point answers
/// (`arena_postgres_playbook_verify`, `arena_oracle_playbook_verify`,
/// `arena_mssql_playbook_verify`).
pub fn query_verify_answer(
    function: &str,
    handle: ArgState,
    verify_spec: ArgState,
    parsed: Outcome<QuerySpec>,
    report: SpecPanicReport,
    reply: Outcome<PlaybookReply>,
    gone: &str,
    kind_phrase: &str,
) -> (r: (ArenaStatus, Option<String>))
    ensures
        answers_with(
            r,
            query_verify_result(function@, handle, verify_spec, parsed, report, reply, gone@, kind_phrase@),
        ),
{
    let names: Vec<&str> = vec!["handle", "verify_spec"];
    let states: Vec<ArgState> = vec![handle, verify_spec];
    assert(str_views(names@) =~= seq!["handle"@, "verify_spec"@]);
    assert(states@ =~= seq![handle, verify_spec]);
    match argument_check(function, names.as_slice(), states.as_slice()) {
        Some(m) => return (ArenaStatus::InvalidArgument, Some(m)),
        None => {},
    }
    match parsed {
        Outcome::Refused(e) => {
            let (s, m) = parse_failure_answer(function, "", e.as_str());
            (s, Some(m))
        },
        Outcome::Panicked(p) => {
            let m = match report {
                SpecPanicReport::PanicIn => {
                    let mut m = string_of("panic in ");
                    m.append(function);
                    m.append(": ");
                    m.append(p.as_str());
                    m
                },
                SpecPanicReport::FunctionFailed => {
                    let mut m = string_of(function);
                    m.append(" failed: ");
                    m.append(p.as_str());
                    m
                },
            };
            (ArenaStatus::Failed, Some(m))
        },
        Outcome::Done(spec) => {
            let outcome = match reply {
                Outcome::Done(rp) => verify_reply_outcome(
                    spec.query.as_str(),
                    spec.expected_value,
                    rp,
                    gone,
                    kind_phrase,
                ),
                Outcome::Refused(m) => Outcome::Refused(m),
                Outcome::Panicked(m) => Outcome::Panicked(m),
            };
            playbook_status(function, outcome)
        },
    }
}

/// The result of an entry point `function` that opens the playbook of a
/// dependency named in its spec (`arena_mssql_playbook_open`,
/// `arena_localstack_playbook_open`): the arena handle and the spec are
/// checked for null, then the spec for UTF-8; then the spec is read; then
/// the dependency is looked up (the arena closed, no such dependency, or
/// one that is not `type_phrase`); then the playbook runs, and a panic
/// while it runs is reported as such.
pub open spec fn dependency_open_result(
    function: Seq<char>,
    arena_handle: ArgState,
    spec: ArgState,
    parsed: Result<String, String>,
    lookup: DependencyLookup,
    type_phrase: Seq<char>,
    run: Outcome<()>,
) -> Result<(), Seq<char>> {
    match argument_error(function, seq!["arena handle"@, "spec"@], seq![arena_handle, spec]) {
        Some(m) => Err(m),
        None => match parsed {
            Err(e) => Err(parse_failure_message(function, "spec"@, e@)),
            Ok(identifier) => match lookup_message(lookup, identifier@, type_phrase) {
                Some(m) => Err(function + ": "@ + m),
                None => entry_result(function, run),
            },
        },
    }
}

/// The result of opening the playbook of a dependency: `parsed` is the
/// dependency identifier the spec names, or why the spec did not read.
pub fn dependency_open_answer(
    function: &str,
    arena_handle: ArgState,
    spec: ArgState,
    parsed: Result<String, String>,
    lookup: DependencyLookup,
    type_phrase: &str,
    run: Outcome<()>,
) -> (r: Result<(), String>)
    ensures
        unit_result_is(
            r,
            dependency_open_result(function@, arena_handle, spec, parsed, lookup, type_phrase@, run),
        ),
{
    let names: Vec<&str> = vec!["arena handle", "spec"];
    let states: Vec<ArgState> = vec![arena_handle, spec];
    assert(str_views(names@) =~= seq!["arena handle"@, "spec"@]);
    assert(states@ =~= seq![arena_handle, spec]);
    match argument_check(function, names.as_slice(), states.as_slice()) {
        Some(m) => return Err(m),
        None => {},
    }
    let identifier = match parsed {
        Err(e) => {
            let (_, m) = parse_failure_answer(function, "spec", e.as_str());
            return Err(m);
        },
        Ok(identifier) => identifier,
    };
    match lookup_refusal(lookup, identifier.as_str(), type_phrase) {
        Some(m) => entry_answer(function, Outcome::<()>::Refused(m)),
        None => entry_answer(function, run),
    }
}

/// The message with which `arena_http_playbook_open` refuses, if any: the
/// arena handle and the spec are checked for null, then the spec for UTF-8;
/// then the spec is read; then a spec without stubs is refused; then the
/// HTTP dependency is looked up; then each stub's method is checked, in
/// order; then the stubs are installed, and a panic while they are is
/// reported as such.
pub open spec fn http_open_refusal(
    arena_handle: ArgState,
    spec: ArgState,
    parsed: Result<PlaybookSpec, String>,
    lookup: DependencyLookup,
    run: Outcome<()>,
) -> Option<Seq<char>> {
    let function = "arena_http_playbook_open"@;
    match argument_error(function, seq!["arena handle"@, "spec"@], seq![arena_handle, spec]) {
        Some(m) => Some(m),
        None => match parsed {
            Err(e) => Some(parse_failure_message(function, "spec"@, e@)),
            Ok(p) => if p.mappings@.len() == 0 {
                playbook_spec_error(p)
            } else {
                match lookup_message(lookup, p.dependency_identifier@, "an HttpDependency"@) {
                    Some(m) => Some(open_prefix() + m),
                    None => if playbook_spec_error(p) is Some {
                        playbook_spec_error(p)
                    } else {
                        match entry_result(function, run) {
                            Ok(()) => None,
                            Err(m) => Some(m),
                        }
                    },
                }
            },
        },
    }
}

/// The stubs that `arena_http_playbook_open` installs, or its message.
pub fn http_open_answer(
    arena_handle: ArgState,
    spec: ArgState,
    parsed: Result<PlaybookSpec, String>,
    lookup: DependencyLookup,
    run: Outcome<()>,
) -> (r: Result<Vec<StubPlan>, String>)
    ensures
        match r {
            Ok(plans) => {
                &&& http_open_refusal(arena_handle, spec, parsed, lookup, run) is None
                &&& parsed matches Ok(p)
                &&& plans@.len() == p.mappings@.len()
                &&& forall|i: int|
                    0 <= i < plans@.len() ==> stub_matches(#[trigger] plans@[i], p.mappings@[i])
            },
            Err(m) => http_open_refusal(arena_handle, spec, parsed, lookup, run) == Some(m@),
        },
{
    let names: Vec<&str> = vec!["arena handle", "spec"];
    let states: Vec<ArgState> = vec![arena_handle, spec];
    assert(str_views(names@) =~= seq!["arena handle"@, "spec"@]);
    assert(states@ =~= seq![arena_handle, spec]);
    match argument_check("arena_http_playbook_open", names.as_slice(), states.as_slice()) {
        Some(m) => return Err(m),
        None => {},
    }
    let p = match parsed {
        Err(e) => {
            let (_, m) = parse_failure_answer("arena_http_playbook_open", "spec", e.as_str());
            return Err(m);
        },
        Ok(p) => p,
    };
    if p.mappings.len() == 0 {
        return plan_playbook_open(&p);
    }
    match lookup_refusal(lookup, p.dependency_identifier.as_str(), "an HttpDependency") {
        Some(m) => {
            let mut msg = string_of("arena_http_playbook_open: ");
            msg.append(m.as_str());
            return Err(msg);
        },
        None => {},
    }
    let plans = match plan_playbook_open(&p) {
        Ok(plans) => plans,
        Err(m) => return Err(m),
    };
    match entry_answer("arena_http_playbook_open", run) {
        Ok(()) => Ok(plans),
        Err(m) => Err(m),
    }
}

/// The result of `arena_match_playbook_run`: the arena handle and the
/// identifier are checked for null, then the identifier for UTF-8; then the
/// arena must be open and a match must register the playbook; then the
/// playbook runs, and a panic while it runs is reported as such.
pub open spec fn match_playbook_run_result(
    arena_handle: ArgState,
    identifier_state: ArgState,
    identifier: Seq<char>,
    lookup: PlaybookLookup,
    run: Outcome<()>,
) -> Result<(), Seq<char>> {
    let function = "arena_match_playbook_run"@;
    match argument_error(function, seq!["arena handle"@, "identifier"@], seq![arena_handle, identifier_state]) {
        Some(m) => Err(m),
        None => match playbook_run_message(lookup, identifier) {
            Some(m) => Err(function + ": "@ + m),
            None => entry_result(function, run),
        },
    }
}

/// The result of `arena_match_playbook_run` for the playbook `identifier`.
pub fn match_playbook_run_answer(
    arena_handle: ArgState,
    identifier_state: ArgState,
    identifier: &str,
    lookup: PlaybookLookup,
    run: Outcome<()>,
) -> (r: Result<(), String>)
    ensures
        unit_result_is(r, match_playbook_run_result(arena_handle, identifier_state, identifier@, lookup, run)),
{
    let names: Vec<&str> = vec!["arena handle", "identifier"];
    let states: Vec<ArgState> = vec![arena_handle, identifier_state];
    assert(str_views(names@) =~= seq!["arena handle"@, "identifier"@]);
    assert(states@ =~= seq![arena_handle, identifier_state]);
    match argument_check("arena_match_playbook_run", names.as_slice(), states.as_slice()) {
        Some(m) => return Err(m),
        None => {},
    }
    match playbook_run_refusal(lookup, identifier) {
        Some(m) => entry_answer("arena_match_playbook_run", Outcome::<()>::Refused(m)),
        None => entry_answer("arena_match_playbook_run", run),
    }
}

/// The states of the arguments of `arena_oauth_sign_claims`, in order.
#[derive(Clone, Copy, Debug)]
pub struct SignClaimsArgs {
    pub handle: ArgState,
    pub dependency_identifier: ArgState,
    pub provider_json: ArgState,
    pub claims_json: ArgState,
}

/// The result of `arena_oauth_sign_claims`: the four arguments are checked
/// for null, then the three strings for UTF-8; then the provider is read,
/// then the claims (each refusal carrying the function's name twice, once
/// from the reader and once from the entry point); then the OAuth
/// dependency is looked up; then the claims are signed, and a token
/// holding a NUL character cannot be handed back.
pub open spec fn sign_claims_result(
    args: SignClaimsArgs,
    identifier: Seq<char>,
    provider_error: Option<String>,
    claims_json: Seq<char>,
    lookup: DependencyLookup,
    signed: Outcome<String>,
) -> Result<Seq<char>, Seq<char>> {
    let function = "arena_oauth_sign_claims"@;
    match argument_error(
        function,
        seq!["handle"@, "dependency_identifier"@, "provider_json"@, "claims_json"@],
        seq![args.handle, args.dependency_identifier, args.provider_json, args.claims_json],
    ) {
        Some(m) => Err(m),
        None => match provider_error {
            Some(e) => Err(function + ": "@ + ("arena_oauth_sign_claims: provider is not valid JSON: "@ + e@)),
            None => if !json_text_parses(claims_json) {
                Err(function + ": "@ + claims_message(json_parse_error_text(claims_json)))
            } else {
                match lookup_message(lookup, identifier, "an OauthDependency"@) {
                    Some(m) => Err(function + ": "@ + m),
                    None => signed_token_result(function, signed),
                }
            },
        },
    }
}

/// The token `arena_oauth_sign_claims` hands back, or its message:
/// `provider_error` is why the provider did not read, if it did not.
pub fn sign_claims_answer(
    args: SignClaimsArgs,
    identifier: &str,
    provider_error: Option<String>,
    claims_json: &str,
    lookup: DependencyLookup,
    signed: Outcome<String>,
) -> (r: Result<String, String>)
    ensures
        match (r, sign_claims_result(args, identifier@, provider_error, claims_json@, lookup, signed)) {
            (Ok(a), Ok(b)) => a@ == b,
            (Err(m), Err(n)) => m@ == n,
            _ => false,
        },
{
    let names: Vec<&str> = vec!["handle", "dependency_identifier", "provider_json", "claims_json"];
    let states: Vec<ArgState> = vec![args.handle, args.dependency_identifier, args.provider_json, args.claims_json];
    assert(str_views(names@) =~= seq!["handle"@, "dependency_identifier"@, "provider_json"@, "claims_json"@]);
    assert(states@ =~= seq![args.handle, args.dependency_identifier, args.provider_json, args.claims_json]);
    match argument_check("arena_oauth_sign_claims", names.as_slice(), states.as_slice()) {
        Some(m) => return Err(m),
        None => {},
    }
    match provider_error {
        Some(e) => {
            let mut m = string_of("arena_oauth_sign_claims: provider is not valid JSON: ");
            m.append(e.as_str());
            return entry_answer("arena_oauth_sign_claims", Outcome::<String>::Refused(m));
        },
        None => {},
    }
    match read_claims(claims_json) {
        Err(m) => return entry_answer("arena_oauth_sign_claims", Outcome::<String>::Refused(m)),
        Ok(_) => {},
    }
    match lookup_refusal(lookup, identifier, "an OauthDependency") {
        Some(m) => entry_answer("arena_oauth_sign_claims", Outcome::<String>::Refused(m)),
        None => signed_token_answer("arena_oauth_sign_claims", signed),
    }
}

/// The answer of `arena_find_available_port`: a null `port_out` is an
/// invalid argument; then the range and the strategy are checked (invalid
/// arguments too); then the host's search either found a port or the range
/// is exhausted, which is reported as a panic.
pub open spec fn find_port_result(
    port_out_null: bool,
    range_start: i32,
    range_end: i32,
    strategy: i32,
    found: Option<u16>,
) -> Result<i32, (ArenaStatus, Seq<char>)> {
    if port_out_null {
        Err((ArenaStatus::InvalidArgument, "arena_find_available_port: port_out must not be null"@))
    } else {
        match port_request_outcome(range_start, range_end, strategy) {
            Err(m) => Err((ArenaStatus::InvalidArgument, m)),
            Ok(_) => match found {
                Some(p) => Ok(p as i32),
                None => Err((ArenaStatus::Panic, exhausted_message(range_start, range_end))),
            },
        }
    }
}

/// The port `arena_find_available_port` writes back, or its status and message.
pub fn find_port_answer(
    port_out_null: bool,
    range_start: i32,
    range_end: i32,
    strategy: i32,
    found: Option<u16>,
) -> (r: Result<i32, (ArenaStatus, String)>)
    ensures
        match (r, find_port_result(port_out_null, range_start, range_end, strategy, found)) {
            (Ok(a), Ok(b)) => a == b,
            (Err((s, m)), Err((t, n))) => s == t && m@ == n,
            _ => false,
        },
{
    if port_out_null {
        return Err(
            (ArenaStatus::InvalidArgument, string_of("arena_find_available_port: port_out must not be null")),
        );
    }
    match port_search_request(range_start, range_end, strategy) {
        Err(m) => Err((ArenaStatus::InvalidArgument, m)),
        Ok(_) => port_search_answer(range_start, range_end, found),
    }
}

/// The refusal of `arena_open` before its match is planned, if any: the
/// name is checked for null, then for UTF-8; then the configuration is read
/// (its error after the function's name, or a panic while reading); then
/// the runtime that will run the arena must start.
pub open spec fn arena_open_early_refusal(
    name: ArgState,
    parsed: Outcome<MatchConfig>,
    runtime_error: Option<String>,
) -> Option<Seq<char>> {
    match argument_error("arena_open"@, seq!["name"@], seq![name]) {
        Some(m) => Some(m),
        None => match parsed {
            Outcome::Refused(e) => Some("arena_open: "@ + e@),
            Outcome::Panicked(p) => Some("arena_open failed: "@ + p@),
            Outcome::Done(_) => match runtime_error {
                Some(e) => Some("failed to create tokio runtime: "@ + e@),
                None => None,
            },
        },
    }
}

/// Whether `r` is what `arena_open` answers once its match was planned as
/// `planned` and opening the arena ended as `opened`: the plan's refusal
/// as it stands; else the plan, or the state that refused to open, or a
/// panic while opening.
pub open spec fn arena_open_after_plan(
    planned: Result<MatchPlan, String>,
    opened: Outcome<()>,
    r: Result<MatchPlan, String>,
) -> bool {
    match planned {
        Err(m) => r matches Err(e) && e@ == m@,
        Ok(p) => match opened {
            Outcome::Done(()) => r == Ok::<MatchPlan, String>(p),
            Outcome::Refused(state) => r matches Err(e) && e@ == state@,
            Outcome::Panicked(msg) => r matches Err(e) && e@ == "arena_open failed: "@ + msg@,
        },
    }
}

/// The match `arena_open` opens, or its message: `parsed` is the
/// configuration as read, `runtime_error` why the runtime did not start,
/// and `opened` how opening the planned arena ended.
pub fn arena_open_answer(
    name: ArgState,
    parsed: Outcome<MatchConfig>,
    runtime_error: Option<String>,
    opened: Outcome<()>,
) -> (r: Result<MatchPlan, String>)
    ensures
        match arena_open_early_refusal(name, parsed, runtime_error) {
            Some(m) => r matches Err(e) && e@ == m,
            None => parsed matches Outcome::Done(config) && exists|planned: Result<MatchPlan, String>|
                match_plan_outcome(config, planned) && #[trigger] arena_open_after_plan(planned, opened, r),
        },
{
    let names: Vec<&str> = vec!["name"];
    let states: Vec<ArgState> = vec![name];
    assert(str_views(names@) =~= seq!["name"@]);
    assert(states@ =~= seq![name]);
    match argument_check("arena_open", names.as_slice(), states.as_slice()) {
        Some(m) => return Err(m),
        None => {},
    }
    let config = match parsed {
        Outcome::Refused(e) => {
            let mut m = string_of("arena_open: ");
            m.append(e.as_str());
            return Err(m);
        },
        Outcome::Panicked(p) => {
            let mut m = string_of("arena_open failed: ");
            m.append(p.as_str());
            return Err(m);
        },
        Outcome::Done(c) => c,
    };
    match runtime_error {
        Some(e) => {
            let mut m = string_of("failed to create tokio runtime: ");
            m.append(e.as_str());
            return Err(m);
        },
        None => {},
    }
    let planned = plan_match(&config);
    let ghost planned_view = planned;
    let r = match planned {
        Err(m) => Err(m),
        Ok(p) => match opened {
            Outcome::Done(()) => Ok(p),
            Outcome::Refused(state) => Err(state),
            Outcome::Panicked(msg) => {
                let mut m = string_of("arena_open failed: ");
                m.append(msg.as_str());
                Err(m)
            },
        },
    };
    assert(arena_open_after_plan(planned_view, opened, r));
    r
}

} // verus!
