use arena_ffi::ffi::{
    argument_check, c_text_or_fallback, config_text_is_default, entry_answer, lookup_refusal,
    parse_failure_answer, playbook_status, read_claims, reset_answer, set_log_level_status,
    signed_token_answer, state_read_answer, verify_reply_outcome, ArgState, DependencyLookup,
    Outcome, PlaybookLookup, PlaybookReply, ResetFinding, playbook_run_refusal,
};
use arena_ffi::port::{port_search_answer, port_search_request, PortSearchRequest, PortSearchStrategy};
use arena_ffi::status::ArenaStatus;

#[test]
fn status_codes_are_stable() {
    assert_eq!(ArenaStatus::Success.code(), 0);
    assert_eq!(ArenaStatus::InvalidArgument.code(), 1);
    assert_eq!(ArenaStatus::Failed.code(), 2);
    assert_eq!(ArenaStatus::Panic.code(), 3);
    assert_eq!(ArenaStatus::NotFound.code(), 4);
}

#[test]
fn open_with_null_name_writes_error() {
    let msg = argument_check("arena_open", &["name"], &[ArgState::Null]).unwrap();
    assert!(msg.contains("name must not be null"), "got: {msg}");
}

#[test]
fn nulls_are_reported_before_bad_utf8() {
    let names = ["handle", "dependency_identifier", "provider_json", "claims_json"];
    let states = [ArgState::Valid, ArgState::InvalidUtf8, ArgState::Valid, ArgState::Null];
    assert_eq!(
        argument_check("arena_oauth_sign_claims", &names, &states).unwrap(),
        "arena_oauth_sign_claims: claims_json must not be null"
    );
    let states = [ArgState::Valid, ArgState::Valid, ArgState::InvalidUtf8, ArgState::InvalidUtf8];
    assert_eq!(
        argument_check("arena_oauth_sign_claims", &names, &states).unwrap(),
        "arena_oauth_sign_claims: provider_json is not valid UTF-8"
    );
    assert_eq!(argument_check("f", &names, &[ArgState::Valid; 4]), None);
}

#[test]
fn soft_reset_missing_dependency_reports_not_found() {
    let (status, msg) = reset_answer(ResetFinding::DependencyMissing, "does-not-exist");
    assert_eq!(status, ArenaStatus::NotFound);
    let msg = msg.unwrap();
    assert!(msg.contains("does-not-exist"));
    assert_eq!(msg, "dependency 'does-not-exist' not found");
}

#[test]
fn reset_answers() {
    assert_eq!(reset_answer(ResetFinding::Reset { succeeded: true }, "db"), (ArenaStatus::Success, None));
    assert_eq!(
        reset_answer(ResetFinding::Reset { succeeded: false }, "db"),
        (ArenaStatus::Failed, Some("reset: arena is already closed".to_string()))
    );
    assert_eq!(
        reset_answer(ResetFinding::ArenaClosed, "db"),
        (ArenaStatus::Failed, Some("reset: arena is already closed".to_string()))
    );
}

#[test]
fn query_verification_mismatch_names_query_and_values() {
    let r = verify_reply_outcome("SELECT 1", 2, PlaybookReply::Read(1), "playbook is already dropped", "a Postgres");
    let (status, msg) = playbook_status("arena_postgres_playbook_verify", r);
    assert_eq!(status, ArenaStatus::Failed);
    assert_eq!(
        msg.unwrap(),
        "arena_postgres_playbook_verify: verify failed for query \"SELECT 1\": expected 2, got 1"
    );
    let ok = verify_reply_outcome("SELECT 1", -7, PlaybookReply::Read(-7), "gone", "a Postgres");
    assert_eq!(playbook_status("f", ok), (ArenaStatus::Success, None));
    let gone = verify_reply_outcome("q", 0, PlaybookReply::Gone, "playbook is already closed", "an MSSQL");
    assert!(matches!(gone, Outcome::Refused(ref m) if m == "playbook is already closed"));
    let other = verify_reply_outcome("q", 0, PlaybookReply::OtherKind, "gone", "an Oracle");
    assert!(matches!(other, Outcome::Refused(ref m) if m == "playbook handle is not an Oracle playbook"));
    let (s, m) = playbook_status("f", Outcome::Panicked("boom".to_string()));
    assert_eq!((s, m.unwrap()), (ArenaStatus::Failed, "f: boom".to_string()));
}

#[test]
fn entry_answers_prefix_function_name() {
    assert_eq!(entry_answer("f", Outcome::Done(5)), Ok(5));
    assert_eq!(
        entry_answer::<()>("arena_match_playbook_run", Outcome::Refused("arena is already closed".to_string())),
        Err("arena_match_playbook_run: arena is already closed".to_string())
    );
    assert_eq!(
        entry_answer::<()>("arena_match_playbook_run", Outcome::Panicked("oops".to_string())),
        Err("panic in arena_match_playbook_run: oops".to_string())
    );
}

#[test]
fn dependency_lookup_messages() {
    assert_eq!(lookup_refusal(DependencyLookup::Found, "db", "an MssqlDependency"), None);
    assert_eq!(
        lookup_refusal(DependencyLookup::ArenaClosed, "db", "an MssqlDependency").unwrap(),
        "arena is already closed"
    );
    assert_eq!(
        lookup_refusal(DependencyLookup::Missing, "db", "an MssqlDependency").unwrap(),
        "dependency 'db' not found"
    );
    assert_eq!(
        lookup_refusal(DependencyLookup::OtherKind, "db", "a LocalstackDependency").unwrap(),
        "dependency 'db' is not a LocalstackDependency"
    );
}

#[test]
fn parse_failures_are_invalid_arguments() {
    assert_eq!(
        parse_failure_answer("arena_mssql_playbook_open", "spec", "EOF"),
        (ArenaStatus::InvalidArgument, "arena_mssql_playbook_open: spec parse failed: EOF".to_string())
    );
    assert_eq!(
        parse_failure_answer("arena_mssql_playbook_verify", "", "EOF"),
        (ArenaStatus::InvalidArgument, "arena_mssql_playbook_verify: parse failed: EOF".to_string())
    );
}

#[test]
fn signed_tokens_must_not_hold_nul() {
    let f = "arena_oauth_sign_claims";
    assert_eq!(signed_token_answer(f, Outcome::Done("a.b.c".to_string())), Ok("a.b.c".to_string()));
    assert_eq!(
        signed_token_answer(f, Outcome::Done("a\0b".to_string())),
        Err("arena_oauth_sign_claims: token contained interior NUL".to_string())
    );
    assert_eq!(
        signed_token_answer(f, Outcome::Refused("dependency 'x' not found".to_string())),
        Err("arena_oauth_sign_claims: dependency 'x' not found".to_string())
    );
    assert_eq!(
        signed_token_answer(f, Outcome::Panicked("bad key".to_string())),
        Err("panic in arena_oauth_sign_claims: bad key".to_string())
    );
}

#[test]
fn claims_are_read_as_json() {
    let v = read_claims("{\"sub\": \"u1\"}").unwrap();
    assert_eq!(v["sub"], "u1");
    let e = read_claims("{").unwrap_err();
    assert!(e.starts_with("arena_oauth_sign_claims: claims is not valid JSON: "));
    assert!(e.len() > "arena_oauth_sign_claims: claims is not valid JSON: ".len());
}

#[test]
fn state_reads_and_small_decisions() {
    assert_eq!(state_read_answer(Outcome::Done(true)), (ArenaStatus::Success, None));
    assert_eq!(
        state_read_answer(Outcome::Done(false)),
        (ArenaStatus::NotFound, Some("arena_state_json: arena is already closed".to_string()))
    );
    assert_eq!(
        state_read_answer(Outcome::Panicked("p".to_string())),
        (ArenaStatus::Panic, Some("arena_state_json failed: p".to_string()))
    );
    assert!(config_text_is_default(None));
    assert!(config_text_is_default(Some("")));
    assert!(!config_text_is_default(Some("{}")));
    assert_eq!(set_log_level_status(false, false), ArenaStatus::InvalidArgument);
    assert_eq!(set_log_level_status(true, true), ArenaStatus::Panic);
    assert_eq!(set_log_level_status(true, false), ArenaStatus::Success);
}

#[test]
fn port_search_validation() {
    assert_eq!(
        port_search_request(1000, 2000, 1).unwrap(),
        PortSearchRequest { range_start: 1000, range_end_inclusive: 1999, strategy: PortSearchStrategy::Linear }
    );
    assert_eq!(port_search_request(0, 65536, 0).unwrap().strategy, PortSearchStrategy::Random);
    assert_eq!(port_search_request(0, 65536, 0).unwrap().range_end_inclusive, 65535);
    assert_eq!(
        port_search_request(-1, 10, 0).unwrap_err(),
        "arena_find_available_port: range_start (-1) must be within 0..=65535 and range_end (10) must be within 1..=65536"
    );
    assert_eq!(
        port_search_request(10, 10, 0).unwrap_err(),
        "arena_find_available_port: range_start (10) must be < range_end (10)"
    );
    assert_eq!(
        port_search_request(10, 20, 7).unwrap_err(),
        "arena_find_available_port: unrecognized strategy 7"
    );
    assert_eq!(port_search_answer(10, 20, Some(15)), Ok(15));
    assert_eq!(
        port_search_answer(10, 20, None),
        Err((ArenaStatus::Panic, "arena_find_available_port failed: no available port found in range 10..20".to_string()))
    );
}

#[test]
fn out_strings_with_nul_fall_back() {
    assert_eq!(c_text_or_fallback("fine".to_string(), "fallback"), "fine");
    assert_eq!(c_text_or_fallback("bad\0text".to_string(), "fallback"), "fallback");
}

#[test]
fn unregistered_match_playbook_is_refused() {
    assert_eq!(playbook_run_refusal(PlaybookLookup::Registered, "seed"), None);
    let m = playbook_run_refusal(PlaybookLookup::NotRegistered, "seed").unwrap();
    assert_eq!(m, "playbook 'seed' is not registered on any match");
    assert_eq!(
        entry_answer::<()>("arena_match_playbook_run", Outcome::Refused(m)),
        Err("arena_match_playbook_run: playbook 'seed' is not registered on any match".to_string())
    );
    assert_eq!(
        playbook_run_refusal(PlaybookLookup::ArenaClosed, "seed").unwrap(),
        "arena is already closed"
    );
}

#[test]
fn decimal_text_covers_the_extremes() {
    assert_eq!(
        port_search_request(i32::MIN, i32::MAX, 0).unwrap_err(),
        "arena_find_available_port: range_start (-2147483648) must be within 0..=65535 and range_end (2147483647) must be within 1..=65536"
    );
    assert_eq!(
        port_search_request(10, 20, 1_000_000_007).unwrap_err(),
        "arena_find_available_port: unrecognized strategy 1000000007"
    );
}
