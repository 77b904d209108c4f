use arena_ffi::entry::{
    arena_open_answer, dependency_open_answer, find_port_answer, http_open_answer, match_playbook_run_answer,
    query_verify_answer, sign_claims_answer, QuerySpec, SignClaimsArgs, SpecPanicReport,
};
use arena_ffi::ffi::{ArgState, DependencyLookup, Outcome, PlaybookLookup, PlaybookReply};
use arena_ffi::http::playbook::{PlaybookMappingSpec, PlaybookResponseSpec, PlaybookSpec};
use arena_ffi::matches::MatchConfig;
use arena_ffi::status::ArenaStatus;

fn query(q: &str, expected: i32) -> Outcome<QuerySpec> {
    Outcome::Done(QuerySpec { query: q.to_string(), expected_value: expected })
}

fn mapping(method: &str) -> PlaybookMappingSpec {
    PlaybookMappingSpec {
        method: method.to_string(),
        url_path: "/orders".to_string(),
        priority: None,
        response: PlaybookResponseSpec { status: 200, json_body: None },
        expect: None,
    }
}

fn http_spec(methods: &[&str]) -> PlaybookSpec {
    PlaybookSpec { dependency_identifier: "api".to_string(), mappings: methods.iter().map(|m| mapping(m)).collect() }
}

fn all_valid() -> SignClaimsArgs {
    SignClaimsArgs {
        handle: ArgState::Valid,
        dependency_identifier: ArgState::Valid,
        provider_json: ArgState::Valid,
        claims_json: ArgState::Valid,
    }
}

#[test]
fn query_verify_checks_arguments_then_spec_then_reply() {
    let f = "arena_postgres_playbook_verify";
    let report = SpecPanicReport::FunctionFailed;
    let r = query_verify_answer(
        f,
        ArgState::Valid,
        ArgState::InvalidUtf8,
        Outcome::Refused("EOF".to_string()),
        report,
        Outcome::Done(PlaybookReply::Read(1)),
        "playbook is already dropped",
        "a Postgres",
    );
    assert_eq!(
        r,
        (ArenaStatus::InvalidArgument, Some("arena_postgres_playbook_verify: verify_spec is not valid UTF-8".to_string()))
    );
    let r = query_verify_answer(
        f,
        ArgState::Null,
        ArgState::InvalidUtf8,
        query("q", 1),
        report,
        Outcome::Done(PlaybookReply::Read(1)),
        "gone",
        "a Postgres",
    );
    assert_eq!(r.1.unwrap(), "arena_postgres_playbook_verify: handle must not be null");
    let r = query_verify_answer(
        f,
        ArgState::Valid,
        ArgState::Valid,
        Outcome::Refused("EOF while parsing".to_string()),
        report,
        Outcome::Done(PlaybookReply::Gone),
        "gone",
        "a Postgres",
    );
    assert_eq!(
        r,
        (ArenaStatus::InvalidArgument, Some("arena_postgres_playbook_verify: parse failed: EOF while parsing".to_string()))
    );
    let r = query_verify_answer(
        f,
        ArgState::Valid,
        ArgState::Valid,
        Outcome::Panicked("p".to_string()),
        report,
        Outcome::Done(PlaybookReply::Gone),
        "gone",
        "a Postgres",
    );
    assert_eq!(r, (ArenaStatus::Failed, Some("arena_postgres_playbook_verify failed: p".to_string())));
    let r = query_verify_answer(
        "arena_oracle_playbook_verify",
        ArgState::Valid,
        ArgState::Valid,
        Outcome::Panicked("p".to_string()),
        SpecPanicReport::PanicIn,
        Outcome::Done(PlaybookReply::Gone),
        "gone",
        "an Oracle",
    );
    assert_eq!(r, (ArenaStatus::Failed, Some("panic in arena_oracle_playbook_verify: p".to_string())));
    let r = query_verify_answer(
        "arena_oracle_playbook_verify",
        ArgState::Valid,
        ArgState::Valid,
        query("SELECT 1", 1),
        SpecPanicReport::PanicIn,
        Outcome::Done(PlaybookReply::OtherKind),
        "playbook is already dropped",
        "an Oracle",
    );
    assert_eq!(
        r,
        (ArenaStatus::Failed, Some("arena_oracle_playbook_verify: playbook handle is not an Oracle playbook".to_string()))
    );
    let r = query_verify_answer(
        "arena_mssql_playbook_verify",
        ArgState::Valid,
        ArgState::Valid,
        query("SELECT 1", 1),
        SpecPanicReport::PanicIn,
        Outcome::Done(PlaybookReply::Read(1)),
        "playbook is already closed",
        "an MSSQL",
    );
    assert_eq!(r, (ArenaStatus::Success, None));
    let r = query_verify_answer(
        "arena_mssql_playbook_verify",
        ArgState::Valid,
        ArgState::Valid,
        query("SELECT 1", 1),
        SpecPanicReport::PanicIn,
        Outcome::Panicked("lost connection".to_string()),
        "playbook is already closed",
        "an MSSQL",
    );
    assert_eq!(r, (ArenaStatus::Failed, Some("arena_mssql_playbook_verify: lost connection".to_string())));
}

#[test]
fn dependency_playbook_open_checks_in_order() {
    let f = "arena_mssql_playbook_open";
    let t = "an MssqlDependency";
    assert_eq!(
        dependency_open_answer(f, ArgState::Null, ArgState::Null, Err("x".to_string()), DependencyLookup::Found, t, Outcome::Done(())),
        Err("arena_mssql_playbook_open: arena handle must not be null".to_string())
    );
    assert_eq!(
        dependency_open_answer(f, ArgState::Valid, ArgState::Valid, Err("EOF".to_string()), DependencyLookup::ArenaClosed, t, Outcome::Done(())),
        Err("arena_mssql_playbook_open: spec parse failed: EOF".to_string())
    );
    assert_eq!(
        dependency_open_answer(f, ArgState::Valid, ArgState::Valid, Ok("db".to_string()), DependencyLookup::Missing, t, Outcome::Done(())),
        Err("arena_mssql_playbook_open: dependency 'db' not found".to_string())
    );
    assert_eq!(
        dependency_open_answer(
            "arena_localstack_playbook_open",
            ArgState::Valid,
            ArgState::Valid,
            Ok("aws".to_string()),
            DependencyLookup::OtherKind,
            "a LocalstackDependency",
            Outcome::Done(()),
        ),
        Err("arena_localstack_playbook_open: dependency 'aws' is not a LocalstackDependency".to_string())
    );
    assert_eq!(
        dependency_open_answer(f, ArgState::Valid, ArgState::Valid, Ok("db".to_string()), DependencyLookup::Found, t, Outcome::Panicked("boom".to_string())),
        Err("panic in arena_mssql_playbook_open: boom".to_string())
    );
    assert_eq!(
        dependency_open_answer(f, ArgState::Valid, ArgState::Valid, Ok("db".to_string()), DependencyLookup::Found, t, Outcome::Done(())),
        Ok(())
    );
}

#[test]
fn http_open_refuses_empty_spec_before_lookup_and_methods_after() {
    let empty = http_open_answer(ArgState::Valid, ArgState::Valid, Ok(http_spec(&[])), DependencyLookup::ArenaClosed, Outcome::Done(()));
    assert_eq!(empty.unwrap_err(), "arena_http_playbook_open: mappings must not be empty");
    let closed = http_open_answer(ArgState::Valid, ArgState::Valid, Ok(http_spec(&["PATCH"])), DependencyLookup::ArenaClosed, Outcome::Done(()));
    assert_eq!(closed.unwrap_err(), "arena_http_playbook_open: arena is already closed");
    let other = http_open_answer(ArgState::Valid, ArgState::Valid, Ok(http_spec(&["get"])), DependencyLookup::OtherKind, Outcome::Done(()));
    assert_eq!(other.unwrap_err(), "arena_http_playbook_open: dependency 'api' is not an HttpDependency");
    let bad = http_open_answer(ArgState::Valid, ArgState::Valid, Ok(http_spec(&["get", "patch"])), DependencyLookup::Found, Outcome::Done(()));
    assert_eq!(bad.unwrap_err(), "arena_http_playbook_open: unsupported HTTP method: PATCH");
    let parse = http_open_answer(ArgState::Valid, ArgState::Valid, Err("EOF".to_string()), DependencyLookup::Found, Outcome::Done(()));
    assert_eq!(parse.unwrap_err(), "arena_http_playbook_open: spec parse failed: EOF");
    let null = http_open_answer(ArgState::Valid, ArgState::Null, Ok(http_spec(&[])), DependencyLookup::Found, Outcome::Done(()));
    assert_eq!(null.unwrap_err(), "arena_http_playbook_open: spec must not be null");
    let panicked = http_open_answer(ArgState::Valid, ArgState::Valid, Ok(http_spec(&["get"])), DependencyLookup::Found, Outcome::Panicked("p".to_string()));
    assert_eq!(panicked.unwrap_err(), "panic in arena_http_playbook_open: p");
    let ok = http_open_answer(ArgState::Valid, ArgState::Valid, Ok(http_spec(&["get", "Post"])), DependencyLookup::Found, Outcome::Done(()));
    assert_eq!(ok.unwrap().len(), 2);
}

#[test]
fn match_playbook_run_refuses_unregistered_playbook() {
    assert_eq!(
        match_playbook_run_answer(ArgState::Valid, ArgState::Null, "", PlaybookLookup::Registered, Outcome::Done(())),
        Err("arena_match_playbook_run: identifier must not be null".to_string())
    );
    assert_eq!(
        match_playbook_run_answer(ArgState::Valid, ArgState::InvalidUtf8, "", PlaybookLookup::Registered, Outcome::Done(())),
        Err("arena_match_playbook_run: identifier is not valid UTF-8".to_string())
    );
    assert_eq!(
        match_playbook_run_answer(ArgState::Valid, ArgState::Valid, "seed", PlaybookLookup::NotRegistered, Outcome::Done(())),
        Err("arena_match_playbook_run: playbook 'seed' is not registered on any match".to_string())
    );
    assert_eq!(
        match_playbook_run_answer(ArgState::Valid, ArgState::Valid, "seed", PlaybookLookup::ArenaClosed, Outcome::Done(())),
        Err("arena_match_playbook_run: arena is already closed".to_string())
    );
    assert_eq!(
        match_playbook_run_answer(ArgState::Valid, ArgState::Valid, "seed", PlaybookLookup::Registered, Outcome::Done(())),
        Ok(())
    );
}

#[test]
fn sign_claims_reads_provider_then_claims_then_looks_up() {
    let mut args = all_valid();
    args.claims_json = ArgState::Null;
    args.provider_json = ArgState::InvalidUtf8;
    assert_eq!(
        sign_claims_answer(args, "auth", None, "{}", DependencyLookup::Found, Outcome::Done("t".to_string())).unwrap_err(),
        "arena_oauth_sign_claims: claims_json must not be null"
    );
    let r = sign_claims_answer(all_valid(), "auth", Some("bad provider".to_string()), "{", DependencyLookup::Missing, Outcome::Done("t".to_string()));
    assert_eq!(
        r.unwrap_err(),
        "arena_oauth_sign_claims: arena_oauth_sign_claims: provider is not valid JSON: bad provider"
    );
    let r = sign_claims_answer(all_valid(), "auth", None, "{", DependencyLookup::Missing, Outcome::Done("t".to_string()));
    assert!(r.unwrap_err().starts_with("arena_oauth_sign_claims: arena_oauth_sign_claims: claims is not valid JSON: "));
    let r = sign_claims_answer(all_valid(), "auth", None, "{}", DependencyLookup::OtherKind, Outcome::Done("t".to_string()));
    assert_eq!(r.unwrap_err(), "arena_oauth_sign_claims: dependency 'auth' is not an OauthDependency");
    let r = sign_claims_answer(all_valid(), "auth", None, "{}", DependencyLookup::Found, Outcome::Done("a\0b".to_string()));
    assert_eq!(r.unwrap_err(), "arena_oauth_sign_claims: token contained interior NUL");
    let r = sign_claims_answer(all_valid(), "auth", None, "{\"sub\":\"u\"}", DependencyLookup::Found, Outcome::Done("a.b.c".to_string()));
    assert_eq!(r.unwrap(), "a.b.c");
}

#[test]
fn find_port_checks_out_pointer_then_range_then_search() {
    assert_eq!(
        find_port_answer(true, -1, 0, 9, None),
        Err((ArenaStatus::InvalidArgument, "arena_find_available_port: port_out must not be null".to_string()))
    );
    assert_eq!(
        find_port_answer(false, 10, 20, 9, Some(12)),
        Err((ArenaStatus::InvalidArgument, "arena_find_available_port: unrecognized strategy 9".to_string()))
    );
    assert_eq!(find_port_answer(false, 10, 20, 1, Some(12)), Ok(12));
    assert_eq!(
        find_port_answer(false, 10, 20, 0, None),
        Err((ArenaStatus::Panic, "arena_find_available_port failed: no available port found in range 10..20".to_string()))
    );
}

fn empty_match() -> MatchConfig {
    MatchConfig { network: None, match_name: None, dependencies: None, components: None, playbooks: None }
}

#[test]
fn arena_open_checks_name_then_config_then_runtime_then_plan() {
    assert_eq!(
        arena_open_answer(ArgState::Null, Outcome::Done(empty_match()), None, Outcome::Done(())).unwrap_err(),
        "arena_open: name must not be null"
    );
    assert_eq!(
        arena_open_answer(ArgState::InvalidUtf8, Outcome::Done(empty_match()), None, Outcome::Done(())).unwrap_err(),
        "arena_open: name is not valid UTF-8"
    );
    assert_eq!(
        arena_open_answer(ArgState::Valid, Outcome::Refused("config is not valid JSON: EOF".to_string()), None, Outcome::Done(()))
            .unwrap_err(),
        "arena_open: config is not valid JSON: EOF"
    );
    assert_eq!(
        arena_open_answer(ArgState::Valid, Outcome::Panicked("p".to_string()), None, Outcome::Done(())).unwrap_err(),
        "arena_open failed: p"
    );
    assert_eq!(
        arena_open_answer(ArgState::Valid, Outcome::Done(empty_match()), Some("no threads".to_string()), Outcome::Done(()))
            .unwrap_err(),
        "failed to create tokio runtime: no threads"
    );
    assert_eq!(
        arena_open_answer(ArgState::Valid, Outcome::Done(empty_match()), None, Outcome::Refused("Failed".to_string()))
            .unwrap_err(),
        "Failed"
    );
    assert_eq!(
        arena_open_answer(ArgState::Valid, Outcome::Done(empty_match()), None, Outcome::Done(())).unwrap().name,
        "arena-match"
    );
}
