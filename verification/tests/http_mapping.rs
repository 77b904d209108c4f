use arena_ffi::http::mapping::{
    body_pattern, build_http_playbook, build_playbook_from_mappings, header_pattern,
    parse_http_method, response_def, BodyPattern, BodyPatternSpec, DelayDistributionSpec,
    ExpectSpec, HeaderPattern, HeaderPatternSpec, HttpMethod, MappingSpec, ResponseSpec,
    ResponsesPlan,
};

fn bare_mapping(method: &str, path: &str) -> MappingSpec {
    MappingSpec {
        method: method.to_string(),
        url_path: path.to_string(),
        priority: None,
        scenario_name: None,
        when_state_is: None,
        will_set_state_to: None,
        headers: None,
        body_patterns: None,
        response: None,
        responses: None,
        status: None,
        json_body: None,
        expect: None,
    }
}

fn response(status: u16) -> ResponseSpec {
    ResponseSpec {
        status,
        json_body: None,
        headers: None,
        fixed_delay_ms: None,
        delay_distribution: None,
    }
}

#[test]
fn mapping_spec_deserializes_flat_managed_status() {
    let mut spec = bare_mapping("POST", "/api/x");
    spec.status = Some(500);
    spec.json_body = Some(serde_json::from_str("{ \"err\": true }").unwrap());
    let responses = spec.resolved_responses().unwrap();
    assert_eq!(responses.len(), 1);
    assert_eq!(responses[0].status, 500);
}

#[test]
fn response_def_fixed_delay_and_headers_apply_to_definition() {
    let spec = ResponseSpec {
        status: 201,
        json_body: None,
        headers: Some(vec![("Location".to_string(), "/api/x/1".to_string())]),
        fixed_delay_ms: Some(40),
        delay_distribution: None,
    };
    let def = response_def(&spec);
    assert_eq!(def.status, 201);
    assert_eq!(def.fixed_delay_ms, Some(40));
    assert_eq!(
        def.headers,
        vec![("Location".to_string(), "/api/x/1".to_string())]
    );
}

#[test]
fn response_def_uniform_delay_distribution_applies_to_definition() {
    let spec = ResponseSpec {
        status: 200,
        json_body: None,
        headers: None,
        fixed_delay_ms: None,
        delay_distribution: Some(DelayDistributionSpec {
            distribution_type: "uniform".to_string(),
            lower: 5,
            upper: 15,
        }),
    };
    let def = response_def(&spec);
    assert_eq!(def.status, 200);
    assert_eq!(def.uniform_delay_ms, Some((5, 15)));
    assert!(def.headers.is_empty());
}

#[test]
fn response_def_ignores_other_distributions() {
    let mut spec = response(200);
    spec.delay_distribution = Some(DelayDistributionSpec {
        distribution_type: "lognormal".to_string(),
        lower: 1,
        upper: 2,
    });
    assert_eq!(response_def(&spec).uniform_delay_ms, None);
}

#[test]
fn flat_json_body_alone_defaults_status_to_200() {
    let mut spec = bare_mapping("GET", "/a");
    spec.json_body = Some(serde_json::from_str("[1, 2]").unwrap());
    let responses = spec.resolved_responses().unwrap();
    assert_eq!(responses.len(), 1);
    assert_eq!(responses[0].status, 200);
    assert_eq!(responses[0].json_body, Some(serde_json::from_str("[1,2]").unwrap()));
}

#[test]
fn responses_take_precedence_over_response_and_status() {
    let mut spec = bare_mapping("GET", "/a");
    spec.responses = Some(vec![response(201), response(202)]);
    spec.response = Some(response(500));
    spec.status = Some(404);
    let responses = spec.resolved_responses().unwrap();
    let statuses: Vec<u16> = responses.iter().map(|r| r.status).collect();
    assert_eq!(statuses, vec![201, 202]);

    let mut single = bare_mapping("GET", "/a");
    single.response = Some(response(500));
    single.status = Some(404);
    assert_eq!(single.resolved_responses().unwrap()[0].status, 500);
}

#[test]
fn empty_responses_and_missing_response_are_refused() {
    let mut spec = bare_mapping("GET", "/a");
    spec.responses = Some(vec![]);
    assert_eq!(
        spec.resolved_responses().unwrap_err(),
        "responses must not be empty when provided"
    );
    let none = bare_mapping("GET", "/a");
    assert_eq!(
        none.resolved_responses().unwrap_err(),
        "mapping requires response, responses, or status"
    );
}

#[test]
fn http_method_is_case_insensitive() {
    assert_eq!(parse_http_method("get").unwrap(), HttpMethod::Get);
    assert_eq!(parse_http_method("Post").unwrap(), HttpMethod::Post);
    assert_eq!(parse_http_method("PUT").unwrap(), HttpMethod::Put);
    assert_eq!(parse_http_method("delete").unwrap(), HttpMethod::Delete);
    assert_eq!(
        parse_http_method("patch").unwrap_err(),
        "unsupported HTTP method: PATCH"
    );
}

#[test]
fn header_pattern_needs_exactly_one_matcher() {
    let eq = HeaderPatternSpec { equal_to: Some("a".to_string()), matches: None };
    assert!(matches!(header_pattern(&eq).unwrap(), HeaderPattern::EqualTo(v) if v == "a"));
    let re = HeaderPatternSpec { equal_to: None, matches: Some("^b".to_string()) };
    assert!(matches!(header_pattern(&re).unwrap(), HeaderPattern::Matching(v) if v == "^b"));
    let both = HeaderPatternSpec { equal_to: Some("a".to_string()), matches: Some("b".to_string()) };
    assert_eq!(
        header_pattern(&both).unwrap_err(),
        "header pattern requires exactly one of equal_to or matches"
    );
    let neither = HeaderPatternSpec { equal_to: None, matches: None };
    assert!(header_pattern(&neither).is_err());
}

#[test]
fn body_pattern_parses_json_or_takes_substring() {
    let json = BodyPatternSpec { equal_to_json: Some("{\"a\": 1}".to_string()), contains: None };
    match body_pattern(&json).unwrap() {
        BodyPattern::EqualToJson(v) => assert_eq!(v, serde_json::from_str::<serde_json::Value>("{\"a\":1}").unwrap()),
        other => panic!("unexpected {:?}", other),
    }
    let sub = BodyPatternSpec { equal_to_json: None, contains: Some("needle".to_string()) };
    assert!(matches!(body_pattern(&sub).unwrap(), BodyPattern::Containing(v) if v == "needle"));
    let bad = BodyPatternSpec { equal_to_json: Some("{not json".to_string()), contains: None };
    let err = body_pattern(&bad).unwrap_err();
    assert!(err.starts_with("body pattern equal_to_json is not valid JSON: "));
    assert!(err.len() > "body pattern equal_to_json is not valid JSON: ".len());
    let neither = BodyPatternSpec { equal_to_json: None, contains: None };
    assert_eq!(
        body_pattern(&neither).unwrap_err(),
        "body pattern requires exactly one of equal_to_json or contains"
    );
}

#[test]
fn json_text_is_parsed_by_serde_json() {
    let spec = BodyPatternSpec { equal_to_json: Some("{\"k\": [true, null]}".to_string()), contains: None };
    match body_pattern(&spec).unwrap() {
        BodyPattern::EqualToJson(v) => {
            assert_eq!(v, serde_json::from_str::<serde_json::Value>("{\"k\":[true,null]}").unwrap())
        }
        other => panic!("unexpected {:?}", other),
    }
    let bad = BodyPatternSpec { equal_to_json: Some("[1,".to_string()), contains: None };
    assert!(body_pattern(&bad).is_err());
}

#[test]
fn several_responses_without_expectation_play_in_sequence() {
    let mut spec = bare_mapping("get", "/seq");
    spec.responses = Some(vec![response(200), response(503)]);
    let plans = build_playbook_from_mappings(&[spec]).unwrap();
    assert_eq!(plans.len(), 1);
    assert_eq!(plans[0].method, HttpMethod::Get);
    assert_eq!(plans[0].url_path, "/seq");
    match &plans[0].responses {
        ResponsesPlan::InSequence(defs) => {
            let statuses: Vec<u16> = defs.iter().map(|d| d.status).collect();
            assert_eq!(statuses, vec![200, 503]);
        }
        other => panic!("unexpected {:?}", other),
    }
}

#[test]
fn expectation_makes_first_response_then_rest() {
    let mut spec = bare_mapping("POST", "/exp");
    spec.responses = Some(vec![response(201), response(409), response(410)]);
    spec.expect = Some(ExpectSpec::Exactly { count: 2 });
    let plans = build_playbook_from_mappings(&[spec]).unwrap();
    match &plans[0].responses {
        ResponsesPlan::Returning { first, then, expect } => {
            assert_eq!(first.status, 201);
            let rest: Vec<u16> = then.iter().map(|d| d.status).collect();
            assert_eq!(rest, vec![409, 410]);
            assert_eq!(*expect, Some(ExpectSpec::Exactly { count: 2 }));
        }
        other => panic!("unexpected {:?}", other),
    }

    let mut one = bare_mapping("GET", "/one");
    one.status = Some(204);
    let plans = build_playbook_from_mappings(&[one]).unwrap();
    assert!(matches!(&plans[0].responses, ResponsesPlan::Returning { first, then, expect: None } if first.status == 204 && then.is_empty()));
}

#[test]
fn mapping_options_are_carried_over() {
    let mut spec = bare_mapping("PUT", "/opt");
    spec.status = Some(200);
    spec.priority = Some(3);
    spec.scenario_name = Some("flow".to_string());
    spec.when_state_is = Some("Started".to_string());
    spec.will_set_state_to = Some("Done".to_string());
    spec.headers = Some(vec![(
        "X-Key".to_string(),
        HeaderPatternSpec { equal_to: Some("1".to_string()), matches: None },
    )]);
    spec.body_patterns = Some(vec![BodyPatternSpec { equal_to_json: None, contains: Some("id".to_string()) }]);
    let plans = build_playbook_from_mappings(&[spec]).unwrap();
    let o = &plans[0].options;
    assert_eq!(o.priority, Some(3));
    assert_eq!(o.scenario_name.as_deref(), Some("flow"));
    assert_eq!(o.when_state_is.as_deref(), Some("Started"));
    assert_eq!(o.will_set_state_to.as_deref(), Some("Done"));
    assert_eq!(o.headers.len(), 1);
    assert_eq!(o.headers[0].0, "X-Key");
    assert!(matches!(&o.headers[0].1, HeaderPattern::EqualTo(v) if v == "1"));
    assert!(matches!(&o.body_patterns[0], BodyPattern::Containing(v) if v == "id"));
}

#[test]
fn playbook_refuses_empty_list_and_reports_first_error() {
    assert_eq!(build_playbook_from_mappings(&[]).unwrap_err(), "mappings must not be empty");
    let mut good = bare_mapping("GET", "/ok");
    good.status = Some(200);
    let mut bad_method = bare_mapping("TRACE", "/x");
    bad_method.status = Some(200);
    let no_response = bare_mapping("GET", "/y");
    assert_eq!(
        build_playbook_from_mappings(&[good, bad_method, no_response]).unwrap_err(),
        "unsupported HTTP method: TRACE"
    );
    assert_eq!(
        build_http_playbook(&[]).unwrap_err(),
        "http playbook registration failed: mappings must not be empty"
    );
}

#[test]
fn response_errors_come_before_method_errors() {
    let spec = bare_mapping("TRACE", "/x");
    assert_eq!(
        build_playbook_from_mappings(&[spec]).unwrap_err(),
        "mapping requires response, responses, or status"
    );
}
