use arena_ffi::logging::delivery::{plan_delivery, record_caller, DeliveryPlan};
use arena_ffi::logging::allowlist::{
    allowlist_needles_hit_values, collect_equals_field_values, dispatcher_allow_json_bytes_store,
    dispatcher_allowlist_always_admits, dispatcher_field_kv_tail,
    dispatcher_impl_allowlists_allows_delivery,
};
use arena_ffi::logging::dispatch::should_forward_event;
use arena_ffi::logging::level::{
    arena_log_level_from_i32, delivered_level_code, dispatcher_default_logging_target_publish_level_of,
    requested_log_level, to_internal_level, ArenaLogLevel, Level,
};
use arena_ffi::logging::payload::{
    host_dispatcher_accepts_metadata_target, host_dispatcher_payload_for_host,
    shorten_tracing_metadata_target_label, StructuredPayloadCollector,
};
use arena_ffi::status::ArenaStatus;

fn s(v: &[&str]) -> Vec<String> {
    v.iter().map(|x| x.to_string()).collect()
}

#[test]
fn kv_tail_takes_text_after_last_pipe_trimmed() {
    assert_eq!(dispatcher_field_kv_tail("started | a | dependency=db , x=1  "), "dependency=db , x=1");
    assert_eq!(dispatcher_field_kv_tail("no pipe here"), "");
    assert_eq!(dispatcher_field_kv_tail("ends with |"), "");
}

#[test]
fn equals_field_values_strip_key_space_and_quotes() {
    let vals = collect_equals_field_values("dependency=\"db\", component= web , dependency=cache,x=1", "dependency=");
    assert_eq!(vals, vec!["db", "cache"]);
    let comps = collect_equals_field_values("dependency=\"db\", component= web ", "component=");
    assert_eq!(comps, vec!["web"]);
    assert!(collect_equals_field_values("", "dependency=").is_empty());
}

#[test]
fn always_admitted_targets() {
    assert!(dispatcher_allowlist_always_admits("arena::core"));
    assert!(dispatcher_allowlist_always_admits("arena_container::run"));
    assert!(dispatcher_allowlist_always_admits("arena_ffi::logging"));
    assert!(dispatcher_allowlist_always_admits("ffi_logging_test"));
    assert!(dispatcher_allowlist_always_admits("ffi_logging_test::x"));
    assert!(!dispatcher_allowlist_always_admits("arena_postgres"));
    assert!(!dispatcher_allowlist_always_admits("ffi_logging_tests"));
}

#[test]
fn needles_hit_by_substring() {
    let needles = s(&["pg"]);
    assert!(allowlist_needles_hit_values(&needles, &["my-pg-1"]));
    assert!(!allowlist_needles_hit_values(&needles, &["kafka"]));
    assert!(!allowlist_needles_hit_values(&[], &["kafka"]));
}

#[test]
fn delivery_rule_cases() {
    let deps = s(&["db"]);
    let comps = s(&["web"]);
    let none: Vec<String> = Vec::new();
    // outside the arena_ family: delivered
    assert!(dispatcher_impl_allowlists_allows_delivery("hyper::client", "x", &none, &none));
    // always admitted
    assert!(dispatcher_impl_allowlists_allows_delivery("arena::core", "x", &none, &none));
    // arena_* with no fields: not delivered
    assert!(!dispatcher_impl_allowlists_allows_delivery("arena_postgres", "msg", &deps, &comps));
    // dependency field admitted by the dependency allowlist
    assert!(dispatcher_impl_allowlists_allows_delivery("arena_postgres", "msg | dependency=db", &deps, &none));
    // dependency field but empty dependency allowlist
    assert!(!dispatcher_impl_allowlists_allows_delivery("arena_postgres", "msg | dependency=db", &none, &comps));
    // component field
    assert!(dispatcher_impl_allowlists_allows_delivery("arena_exec", "m | component=web-1", &none, &comps));
    // both fields, one hit is enough
    assert!(dispatcher_impl_allowlists_allows_delivery("arena_exec", "m | dependency=x, component=web", &deps, &comps));
    assert!(!dispatcher_impl_allowlists_allows_delivery("arena_exec", "m | dependency=x, component=y", &deps, &comps));
}

#[test]
fn allowlist_growth_keeps_delivery() {
    let deps = s(&["db"]);
    let grown = s(&["db", "other"]);
    let none: Vec<String> = Vec::new();
    let p = "m | dependency=db";
    assert!(dispatcher_impl_allowlists_allows_delivery("arena_pg", p, &deps, &none));
    assert!(dispatcher_impl_allowlists_allows_delivery("arena_pg", p, &grown, &none));
}

#[test]
fn json_allowlist_is_trimmed_and_drops_empty() {
    assert_eq!(dispatcher_allow_json_bytes_store(br#"[" db ", "", "  ", "web"]"#), s(&["db", "web"]));
    assert!(dispatcher_allow_json_bytes_store(b"not json").is_empty());
    assert!(dispatcher_allow_json_bytes_store(br#"{"a": 1}"#).is_empty());
}

#[test]
fn forwarding_needs_a_target_and_an_accepted_event() {
    let none: Vec<String> = Vec::new();
    assert!(should_forward_event(true, "arena::core", "[arena::core] hi", &none, &none));
    assert!(!should_forward_event(false, "arena::core", "[arena::core] hi", &none, &none));
    assert!(!should_forward_event(true, "hyper", "[hyper] hi", &none, &none));
}

#[test]
fn host_target_acceptance() {
    assert!(host_dispatcher_accepts_metadata_target("arena::x"));
    assert!(host_dispatcher_accepts_metadata_target("arena_postgres"));
    assert!(host_dispatcher_accepts_metadata_target("ffi_logging_test"));
    assert!(!host_dispatcher_accepts_metadata_target("tokio::runtime"));
}

#[test]
fn labels_are_shortened_after_72_characters() {
    let short = "arena::core";
    assert_eq!(shorten_tracing_metadata_target_label(short), short);
    let exact: String = "a".repeat(72);
    assert_eq!(shorten_tracing_metadata_target_label(&exact), exact);
    let long: String = "é".repeat(80);
    let expected = format!("{}\u{2026}", "é".repeat(72));
    assert_eq!(shorten_tracing_metadata_target_label(&long), expected);
}

#[test]
fn host_payload_format() {
    assert_eq!(host_dispatcher_payload_for_host("arena::x", String::new()), "[arena::x]");
    assert_eq!(host_dispatcher_payload_for_host("arena::x", "hello".to_string()), "[arena::x] hello");
}

#[test]
fn collector_builds_body() {
    let c = StructuredPayloadCollector::new();
    assert_eq!(c.into_body(), "");
    let mut c = StructuredPayloadCollector::new();
    c.append_message_fragment_raw("started");
    assert_eq!(c.into_body(), "started");
    let mut c = StructuredPayloadCollector::new();
    c.push_kv("dependency", "db");
    c.push_kv("port", "5432");
    assert_eq!(c.into_body(), "dependency=db, port=5432");
    let mut c = StructuredPayloadCollector::new();
    c.append_message_fragment_raw("start");
    c.append_message_fragment_raw("ed");
    c.push_kv("dependency", "db");
    assert_eq!(c.into_body(), "started | dependency=db");
}

#[test]
fn recorded_dependency_field_reaches_allowlist_reader() {
    let mut c = StructuredPayloadCollector::new();
    c.append_message_fragment_raw("container ready");
    c.push_kv("dependency", "\"orders-db\"");
    let payload = host_dispatcher_payload_for_host("arena_postgres::dep", c.into_body());
    let tail = dispatcher_field_kv_tail(&payload);
    assert_eq!(collect_equals_field_values(tail, "dependency="), vec!["orders-db"]);
    let deps = s(&["orders"]);
    let none: Vec<String> = Vec::new();
    assert!(dispatcher_impl_allowlists_allows_delivery("arena_postgres::dep", &payload, &deps, &none));
}

#[test]
fn level_codes_roundtrip() {
    for (code, level) in [
        (1, ArenaLogLevel::Error),
        (2, ArenaLogLevel::Warn),
        (3, ArenaLogLevel::Info),
        (4, ArenaLogLevel::Debug),
        (5, ArenaLogLevel::Trace),
    ] {
        assert_eq!(arena_log_level_from_i32(code), Some(level));
        assert_eq!(level.code(), code);
        assert_eq!(delivered_level_code(to_internal_level(level)), code);
    }
    assert_eq!(arena_log_level_from_i32(0), None);
    assert_eq!(arena_log_level_from_i32(6), None);
}

#[test]
fn publish_level_defaults_to_info() {
    assert_eq!(dispatcher_default_logging_target_publish_level_of(2), 2);
    assert_eq!(dispatcher_default_logging_target_publish_level_of(-7), 3);
    assert_eq!(dispatcher_default_logging_target_publish_level_of(99), 3);
}

#[test]
fn requested_level_and_directives() {
    assert_eq!(requested_log_level(4), Ok(Level::Debug));
    assert_eq!(requested_log_level(9), Err(ArenaStatus::InvalidArgument));
    assert_eq!(Level::Warn.directive(), "warn");
    assert_eq!(Level::Trace.directive(), "trace");
}

#[test]
fn delivery_drops_records_that_cannot_be_c_strings() {
    assert_eq!(
        plan_delivery(Level::Warn, "arena::db", "hello", Some("main.rs"), 7),
        Some(DeliveryPlan { level: 2, caller_passed: true, caller_line: 7 })
    );
    assert_eq!(
        plan_delivery(Level::Trace, "arena::db", "hello", None, 7),
        Some(DeliveryPlan { level: 5, caller_passed: false, caller_line: 0 })
    );
    assert_eq!(
        plan_delivery(Level::Info, "arena::db", "hello", Some("a\0b"), 7),
        Some(DeliveryPlan { level: 3, caller_passed: false, caller_line: 0 })
    );
    assert_eq!(plan_delivery(Level::Info, "bad\0target", "hello", None, 1), None);
    assert_eq!(plan_delivery(Level::Info, "t", "pay\0load", None, 1), None);
    assert_eq!(record_caller(Some("src/engine/run.rs"), Some(12)), (Some("run.rs".to_string()), 12));
    assert_eq!(record_caller(Some("src/engine/run.rs"), None), (None, 0));
    assert_eq!(record_caller(None, Some(3)), (None, 0));
    assert_eq!(record_caller(Some("/"), Some(3)), (None, 3));
}

#[test]
fn tagged_record_without_message_is_not_admitted() {
    let mut c = StructuredPayloadCollector::new();
    c.push_kv("dependency", "orders-db");
    let payload = host_dispatcher_payload_for_host("arena_postgres::dep", c.into_body());
    assert_eq!(payload, "[arena_postgres::dep] dependency=orders-db");
    let deps = s(&["orders"]);
    let none: Vec<String> = Vec::new();
    assert!(!dispatcher_impl_allowlists_allows_delivery("arena_postgres::dep", &payload, &deps, &none));
    let mut c = StructuredPayloadCollector::new();
    c.append_message_fragment_raw("up");
    c.push_kv("component", "web-api");
    let payload = host_dispatcher_payload_for_host("arena_exec::comp", c.into_body());
    assert!(dispatcher_impl_allowlists_allows_delivery("arena_exec::comp", &payload, &none, &s(&["web"])));
    assert!(!dispatcher_impl_allowlists_allows_delivery("arena_exec::comp", &payload, &s(&["web"]), &none));
}
