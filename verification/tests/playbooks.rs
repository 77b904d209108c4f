use arena_ffi::healthcheck::{
    default_readiness_timeout_ms, next_readiness_step, readiness_poll_interval_ms,
    readiness_timeout_message, HttpReadinessCheck, ReadinessKind, ReadinessStep, TcpReadinessCheck,
};
use arena_ffi::http::mapping::{ExpectSpec, HttpMethod, MappingSpec};
use arena_ffi::http::playbook::{
    criteria_for, plan_playbook_open, plan_verify, verify_count, PlaybookMappingSpec,
    PlaybookResponseSpec, PlaybookSpec, VerifyCount, VerifySpec,
};
use arena_ffi::http::startup::{
    default_mapping_status, plan_startup_stubs, HttpDependencyMapping, OnDependencyStartupConfig,
};
use arena_ffi::managed_playbook::{
    default_exec_on_dependency_start, DependencyPlaybookConfig, HttpPlaybookConfig,
    PlaybookKindConfig,
};
use arena_ffi::port::port_search_request;
use arena_ffi::text::{join_strings, to_ascii_uppercase, trim_str};

fn stub(method: &str, path: &str, status: u16) -> PlaybookMappingSpec {
    PlaybookMappingSpec {
        method: method.to_string(),
        url_path: path.to_string(),
        priority: None,
        response: PlaybookResponseSpec { status, json_body: None },
        expect: None,
    }
}

#[test]
fn readiness_timeout_messages_use_duration_debug_text() {
    assert_eq!(default_readiness_timeout_ms(), 10_000);
    assert_eq!(
        readiness_timeout_message(ReadinessKind::Http, "api", 10_000),
        "[api] HTTP healthcheck timed out after 10s"
    );
    assert_eq!(
        readiness_timeout_message(ReadinessKind::Tcp, "db", 1_500),
        "[db] TCP healthcheck timed out after 1.5s"
    );
    assert_eq!(
        readiness_timeout_message(ReadinessKind::Tcp, "db", 500),
        "[db] TCP healthcheck timed out after 500ms"
    );
    assert_eq!(
        readiness_timeout_message(ReadinessKind::Http, "x", 0),
        "[x] HTTP healthcheck timed out after 0ns"
    );
    assert_eq!(
        readiness_timeout_message(ReadinessKind::Http, "x", 2_025),
        "[x] HTTP healthcheck timed out after 2.025s"
    );
}

#[test]
fn duration_text_matches_std_debug_for_millisecond_durations() {
    for ms in [0u64, 1, 9, 10, 999, 1000, 1001, 1010, 1100, 12_340, 60_000, 86_400_123, u64::MAX] {
        let expected = format!("{:?}", std::time::Duration::from_millis(ms));
        assert_eq!(
            readiness_timeout_message(ReadinessKind::Tcp, "d", ms),
            format!("[d] TCP healthcheck timed out after {expected}")
        );
    }
}

#[test]
fn readiness_polling_steps() {
    assert_eq!(readiness_poll_interval_ms(), 100);
    assert_eq!(next_readiness_step(0, 1000, None), ReadinessStep::Probe);
    assert_eq!(next_readiness_step(999, 1000, Some(false)), ReadinessStep::Wait);
    assert_eq!(next_readiness_step(999, 1000, Some(true)), ReadinessStep::Ready);
    assert_eq!(next_readiness_step(1000, 1000, None), ReadinessStep::TimedOut);
    assert_eq!(next_readiness_step(5, 0, None), ReadinessStep::TimedOut);
    let _ = HttpReadinessCheck::new();
    let _ = TcpReadinessCheck::new();
}

#[test]
fn playbook_open_plans_stubs_in_order() {
    let mut first = stub("get", "/a", 200);
    first.priority = Some(1);
    first.expect = Some(ExpectSpec::Never);
    let spec = PlaybookSpec {
        dependency_identifier: "stub".to_string(),
        mappings: vec![first, stub("DELETE", "/b", 204)],
    };
    let plans = plan_playbook_open(&spec).unwrap();
    assert_eq!(plans.len(), 2);
    assert_eq!(plans[0].method, HttpMethod::Get);
    assert_eq!(plans[0].priority, Some(1));
    assert_eq!(plans[0].expect, Some(ExpectSpec::Never));
    assert_eq!(plans[1].method, HttpMethod::Delete);
    assert_eq!(plans[1].response.status, 204);
    assert!(plans[1].response.headers.is_empty());
}

#[test]
fn playbook_open_refusals() {
    let empty = PlaybookSpec { dependency_identifier: "stub".to_string(), mappings: vec![] };
    assert_eq!(
        plan_playbook_open(&empty).unwrap_err(),
        "arena_http_playbook_open: mappings must not be empty"
    );
    let bad = PlaybookSpec {
        dependency_identifier: "stub".to_string(),
        mappings: vec![stub("GET", "/a", 200), stub("head", "/b", 200), stub("options", "/c", 200)],
    };
    assert_eq!(
        plan_playbook_open(&bad).unwrap_err(),
        "arena_http_playbook_open: unsupported HTTP method: HEAD"
    );
}

#[test]
fn verify_needs_exactly_one_count() {
    assert_eq!(verify_count(Some(2), None).unwrap(), VerifyCount::Exactly(2));
    assert_eq!(verify_count(None, Some(1)).unwrap(), VerifyCount::AtLeast(1));
    let msg = "verify spec requires exactly one of expected_count or minimum_count";
    assert_eq!(verify_count(Some(1), Some(1)).unwrap_err(), msg);
    assert_eq!(verify_count(None, None).unwrap_err(), msg);
    let c = criteria_for("put", "/x").unwrap();
    assert_eq!(c.method, HttpMethod::Put);
    assert_eq!(c.url_path, "/x");
    let spec = VerifySpec {
        dependency_identifier: None,
        method: "bogus".to_string(),
        url_path: "/x".to_string(),
        expected_count: None,
        minimum_count: None,
    };
    assert_eq!(plan_verify(&spec).unwrap_err(), msg);
    let spec = VerifySpec { expected_count: Some(3), ..spec };
    assert_eq!(plan_verify(&spec).unwrap_err(), "unsupported HTTP method: BOGUS");
    let spec = VerifySpec { method: "POST".to_string(), ..spec };
    let (count, crit) = plan_verify(&spec).unwrap();
    assert_eq!(count, VerifyCount::Exactly(3));
    assert_eq!(crit.method, HttpMethod::Post);
}

#[test]
fn startup_stubs_and_their_refusal() {
    assert_eq!(default_mapping_status(), 200);
    let ok = OnDependencyStartupConfig {
        dependency_identifier: "stub".to_string(),
        mappings: vec![HttpDependencyMapping {
            method: "post".to_string(),
            url_path: "/token".to_string(),
            status: 201,
            json_body: Some(serde_json::from_str("{\"t\": 1}").unwrap()),
        }],
    };
    let stubs = plan_startup_stubs(&ok).unwrap();
    assert_eq!(stubs[0].method, HttpMethod::Post);
    assert_eq!(stubs[0].status, 201);
    assert_eq!(stubs[0].url_path, "/token");
    let bad = OnDependencyStartupConfig {
        dependency_identifier: "stub".to_string(),
        mappings: vec![HttpDependencyMapping {
            method: "patch".to_string(),
            url_path: "/x".to_string(),
            status: 200,
            json_body: None,
        }],
    };
    assert_eq!(
        plan_startup_stubs(&bad).unwrap_err(),
        "unsupported HTTP method in on_dependency_startup mapping: PATCH"
    );
}

#[test]
fn managed_playbook_dependency_identifier() {
    assert!(default_exec_on_dependency_start());
    let http = PlaybookKindConfig::Http(HttpPlaybookConfig {
        dependency_identifier: "stub".to_string(),
        mappings: Vec::<MappingSpec>::new(),
    });
    assert_eq!(http.dependency_identifier(), "stub");
    let pg = PlaybookKindConfig::Postgres(DependencyPlaybookConfig { dependency_identifier: "db".to_string() });
    assert_eq!(pg.dependency_identifier(), "db");
}

#[test]
fn text_helpers() {
    assert_eq!(
        port_search_request(-2147483648, 0, 9).unwrap_err(),
        "arena_find_available_port: range_start (-2147483648) must be within 0..=65535 and range_end (0) must be within 1..=65536"
    );
    assert_eq!(to_ascii_uppercase("aBc-é"), "ABC-é");
    assert_eq!(trim_str("  x y \t"), "x y");
    assert_eq!(join_strings(&vec!["a".to_string(), "b".to_string()], ", "), "a, b");
    assert_eq!(join_strings(&vec![], ", "), "");
}
