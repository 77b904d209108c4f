//! Scoped HTTP playbooks opened from the C side: the stubs a playbook spec
//! asks for, and the request count a verify spec checks.
use vstd::prelude::*;
use vstd::string::*;

use crate::http::json::clone_json_option;
use crate::http::mapping::{
    method_of, parse_http_method, unsupported_method_message, ExpectSpec, HttpMethod,
    ResponseDefinitionPlan,
};
use crate::text::string_of;

verus! {

/// The response of one stub in a playbook spec.
#[derive(Debug)]
pub struct PlaybookResponseSpec {
    pub status: u16,
    pub json_body: Option<serde_json::Value>,
}

/// One stub of a playbook spec.
#[derive(Debug)]
pub struct PlaybookMappingSpec {
    pub method: String,
    pub url_path: String,
    pub priority: Option<u32>,
    pub response: PlaybookResponseSpec,
    pub expect: Option<ExpectSpec>,
}

/// A playbook spec: the dependency it stubs and its stubs in order.
#[derive(Debug)]
pub struct PlaybookSpec {
    pub dependency_identifier: String,
    pub mappings: Vec<PlaybookMappingSpec>,
}

/// One stub as installed: matched by method, path and priority, answering
/// with its response under its expectation.
#[derive(Debug)]
pub struct StubPlan {
    pub method: HttpMethod,
    pub url_path: String,
    pub priority: Option<u32>,
    pub response: ResponseDefinitionPlan,
    pub expect: Option<ExpectSpec>,
}

/// A verify request as sent: exactly one of the two counts must be given.
#[derive(Debug)]
pub struct VerifySpec {
    pub dependency_identifier: Option<String>,
    pub method: String,
    pub url_path: String,
    pub expected_count: Option<u64>,
    pub minimum_count: Option<u64>,
}

/// How many matching requests a verify call demands.
#[derive(Clone, Copy, Debug, PartialEq, Eq, Structural)]
pub enum VerifyCount {
    Exactly(u64),
    AtLeast(u64),
}

/// The requests a verify call counts.
#[derive(Debug)]
pub struct RequestCriteria {
    pub method: HttpMethod,
    pub url_path: String,
}

/// Prefix of every message `arena_http_playbook_open` gives.
pub open spec fn open_prefix() -> Seq<char> {
    "arena_http_playbook_open: "@
}

/// Whether `plan` is the stub that `spec` asks for.
pub open spec fn stub_matches(plan: StubPlan, spec: PlaybookMappingSpec) -> bool {
    &&& Some(plan.method) == method_of(spec.method@)
    &&& plan.url_path == spec.url_path
    &&& plan.priority == spec.priority
    &&& plan.response.status == spec.response.status
    &&& plan.response.json_body == spec.response.json_body
    &&& plan.response.headers@ == Seq::<(String, String)>::empty()
    &&& plan.response.fixed_delay_ms is None
    &&& plan.response.uniform_delay_ms is None
    &&& plan.expect == spec.expect
}

/// The position of the first stub at `i` or later whose method is refused,
/// or -1.
pub open spec fn first_bad_method(ms: Seq<PlaybookMappingSpec>, i: int) -> int
    decreases ms.len() - i,
{
    if i < 0 || i >= ms.len() {
        -1
    } else if method_of(ms[i].method@) is None {
        i
    } else {
        first_bad_method(ms, i + 1)
    }
}

/// The error a playbook spec gives, if any: no stub at all, else the first
/// refused method.
pub open spec fn playbook_spec_error(spec: PlaybookSpec) -> Option<Seq<char>> {
    let ms = spec.mappings@;
    if ms.len() == 0 {
        Some(open_prefix() + "mappings must not be empty"@)
    } else if first_bad_method(ms, 0) >= 0 {
        Some(open_prefix() + unsupported_method_message(ms[first_bad_method(ms, 0)].method@))
    } else {
        None
    }
}

/// The stub that one mapping of a playbook spec asks for.
fn stub_for(m: &PlaybookMappingSpec) -> (r: Result<StubPlan, String>)
    ensures
        match r {
            Ok(p) => stub_matches(p, *m),
            Err(e) => method_of(m.method@) is None && e@ == unsupported_method_message(m.method@),
        },
{
    let method = match parse_http_method(m.method.as_str()) {
        Ok(x) => x,
        Err(e) => return Err(e),
    };
    Ok(
        StubPlan {
            method,
            url_path: m.url_path.clone(),
            priority: m.priority,
            response: ResponseDefinitionPlan {
                status: m.response.status,
                json_body: clone_json_option(&m.response.json_body),
                headers: Vec::new(),
                fixed_delay_ms: None,
                uniform_delay_ms: None,
            },
            expect: m.expect,
        },
    )
}

/// The stubs a playbook spec asks for, in order, or the message with which
/// opening it fails.
pub fn plan_playbook_open(spec: &PlaybookSpec) -> (r: Result<Vec<StubPlan>, String>)
    ensures
        match r {
            Ok(plans) => playbook_spec_error(*spec) is None && plans@.len() == spec.mappings@.len()
                && forall|i: int|
                0 <= i < plans@.len() ==> stub_matches(#[trigger] plans@[i], spec.mappings@[i]),
            Err(m) => playbook_spec_error(*spec) == Some(m@),
        },
{
    if spec.mappings.len() == 0 {
        let mut m = string_of("arena_http_playbook_open: ");
        m.append("mappings must not be empty");
        return Err(m);
    }
    let ghost ms = spec.mappings@;
    let mut plans: Vec<StubPlan> = Vec::new();
    let mut i: usize = 0;
    while i < spec.mappings.len()
        invariant
            ms == spec.mappings@,
            0 < ms.len(),
            i <= ms.len(),
            plans@.len() == i,
            first_bad_method(ms, 0) == first_bad_method(ms, i as int),
            forall|j: int| 0 <= j < i ==> stub_matches(#[trigger] plans@[j], ms[j]),
        decreases ms.len() - i,
    {
        match stub_for(&spec.mappings[i]) {
            Ok(p) => {
                plans.push(p);
            },
            Err(e) => {
                let mut m = string_of("arena_http_playbook_open: ");
                m.append(e.as_str());
                return Err(m);
            },
        }
        i = i + 1;
    }
    Ok(plans)
}

/// Where a verify spec does not give exactly one count.
pub open spec fn count_mode_message() -> Seq<char> {
    "verify spec requires exactly one of expected_count or minimum_count"@
}

/// The count a verify spec demands, where it gives exactly one.
pub open spec fn verify_count_of(expected: Option<u64>, minimum: Option<u64>) -> Option<VerifyCount> {
    match (expected, minimum) {
        (Some(n), None) => Some(VerifyCount::Exactly(n)),
        (None, Some(n)) => Some(VerifyCount::AtLeast(n)),
        _ => None,
    }
}

/// The count a verify spec demands.
pub fn verify_count(expected_count: Option<u64>, minimum_count: Option<u64>) -> (r: Result<
    VerifyCount,
    String,
>)
    ensures
        match r {
            Ok(c) => verify_count_of(expected_count, minimum_count) == Some(c),
            Err(m) => verify_count_of(expected_count, minimum_count) is None && m@
                == count_mode_message(),
        },
{
    match (expected_count, minimum_count) {
        (Some(n), None) => Ok(VerifyCount::Exactly(n)),
        (None, Some(n)) => Ok(VerifyCount::AtLeast(n)),
        _ => Err(string_of("verify spec requires exactly one of expected_count or minimum_count")),
    }
}

/// The requests counted for `method` and `url_path`.
pub fn criteria_for(method: &str, url_path: &str) -> (r: Result<RequestCriteria, String>)
    ensures
        match r {
            Ok(c) => method_of(method@) == Some(c.method) && c.url_path@ == url_path@,
            Err(e) => method_of(method@) is None && e@ == unsupported_method_message(method@),
        },
{
    let m = match parse_http_method(method) {
        Ok(x) => x,
        Err(e) => return Err(e),
    };
    Ok(RequestCriteria { method: m, url_path: string_of(url_path) })
}

/// What a verify call checks: the count demanded and the requests counted,
/// or the message that refuses the spec (the count is checked first).
pub fn plan_verify(spec: &VerifySpec) -> (r: Result<(VerifyCount, RequestCriteria), String>)
    ensures
        match r {
            Ok((c, crit)) => verify_count_of(spec.expected_count, spec.minimum_count) == Some(c)
                && method_of(spec.method@) == Some(crit.method) && crit.url_path@ == spec.url_path@,
            Err(m) => (verify_count_of(spec.expected_count, spec.minimum_count) is None && m@
                == count_mode_message()) || (verify_count_of(
                spec.expected_count,
                spec.minimum_count,
            ) is Some && method_of(spec.method@) is None && m@ == unsupported_method_message(
                spec.method@,
            )),
        },
{
    let count = match verify_count(spec.expected_count, spec.minimum_count) {
        Ok(c) => c,
        Err(e) => return Err(e),
    };
    let crit = match criteria_for(spec.method.as_str(), spec.url_path.as_str()) {
        Ok(c) => c,
        Err(e) => return Err(e),
    };
    Ok((count, crit))
}

} // verus!
