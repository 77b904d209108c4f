//! HTTP stub mappings: from the mapping specs a client sends to the plan of
//! stub definitions that the HTTP dependency installs.
use vstd::prelude::*;
use vstd::string::*;

use crate::http::json::{clone_json_option, json_document, json_parse_error_text, json_text_parses, parse_json_value};
use crate::text::{ascii_upper_seq, str_eq, string_of, to_ascii_uppercase};

verus! {

/// How often a mapping is expected to be called.
#[derive(Clone, Copy, Debug, PartialEq, Eq, Structural)]
pub enum ExpectSpec {
    Exactly { count: u64 },
    AtLeast { count: u64 },
    Never,
}

/// A header matcher as sent: exactly one of the two must be given.
#[derive(Debug)]
pub struct HeaderPatternSpec {
    pub equal_to: Option<String>,
    pub matches: Option<String>,
}

/// A body matcher as sent: exactly one of the two must be given.
#[derive(Debug)]
pub struct BodyPatternSpec {
    pub equal_to_json: Option<String>,
    pub contains: Option<String>,
}

/// A random delay before responding; only the `uniform` kind has an effect.
#[derive(Debug)]
pub struct DelayDistributionSpec {
    pub distribution_type: String,
    pub lower: u64,
    pub upper: u64,
}

/// One response of a mapping. Headers are name/value pairs in the order the
/// client's map yielded them.
#[derive(Debug)]
pub struct ResponseSpec {
    pub status: u16,
    pub json_body: Option<serde_json::Value>,
    pub headers: Option<Vec<(String, String)>>,
    pub fixed_delay_ms: Option<u64>,
    pub delay_distribution: Option<DelayDistributionSpec>,
}

/// One mapping as the client sends it. `status` and `json_body` are the
/// older flat form of a single response.
#[derive(Debug)]
pub struct MappingSpec {
    pub method: String,
    pub url_path: String,
    pub priority: Option<u32>,
    pub scenario_name: Option<String>,
    pub when_state_is: Option<String>,
    pub will_set_state_to: Option<String>,
    pub headers: Option<Vec<(String, HeaderPatternSpec)>>,
    pub body_patterns: Option<Vec<BodyPatternSpec>>,
    pub response: Option<ResponseSpec>,
    pub responses: Option<Vec<ResponseSpec>>,
    pub status: Option<u16>,
    pub json_body: Option<serde_json::Value>,
    pub expect: Option<ExpectSpec>,
}

/// The request methods a mapping can match.
#[derive(Clone, Copy, Debug, PartialEq, Eq, Structural)]
pub enum HttpMethod {
    Get,
    Post,
    Put,
    Delete,
}

/// A header matcher of a stub.
#[derive(Debug)]
pub enum HeaderPattern {
    EqualTo(String),
    Matching(String),
}

/// A body matcher of a stub.
#[derive(Debug)]
pub enum BodyPattern {
    EqualToJson(serde_json::Value),
    Containing(String),
}

/// A stub response definition.
#[derive(Debug)]
pub struct ResponseDefinitionPlan {
    pub status: u16,
    pub json_body: Option<serde_json::Value>,
    pub headers: Vec<(String, String)>,
    pub fixed_delay_ms: Option<u64>,
    pub uniform_delay_ms: Option<(u64, u64)>,
}

/// The request matching of a stub besides its method and path.
#[derive(Debug)]
pub struct MappingOptionsPlan {
    pub priority: Option<u32>,
    pub scenario_name: Option<String>,
    pub when_state_is: Option<String>,
    pub will_set_state_to: Option<String>,
    pub headers: Vec<(String, HeaderPattern)>,
    pub body_patterns: Vec<BodyPattern>,
}

/// How a stub responds: either cycling through its responses in sequence,
/// or returning the first, then the rest in turn, with a call expectation.
#[derive(Debug)]
pub enum ResponsesPlan {
    InSequence(Vec<ResponseDefinitionPlan>),
    Returning {
        first: ResponseDefinitionPlan,
        then: Vec<ResponseDefinitionPlan>,
        expect: Option<ExpectSpec>,
    },
}

/// One stub of the playbook.
#[derive(Debug)]
pub struct MappingPlan {
    pub method: HttpMethod,
    pub url_path: String,
    pub options: MappingOptionsPlan,
    pub responses: ResponsesPlan,
}

/// The method that `text` names, compared without regard to ASCII case.
pub open spec fn method_of(text: Seq<char>) -> Option<HttpMethod> {
    let u = ascii_upper_seq(text);
    if u == "GET"@ {
        Some(HttpMethod::Get)
    } else if u == "POST"@ {
        Some(HttpMethod::Post)
    } else if u == "PUT"@ {
        Some(HttpMethod::Put)
    } else if u == "DELETE"@ {
        Some(HttpMethod::Delete)
    } else {
        None
    }
}

/// A method is named by its upper-case form: "GET" is GET, "POST" POST,
/// "PUT" PUT, "DELETE" DELETE, each by that name only; any other name
/// names no method.
pub proof fn lemma_method_names(text: Seq<char>)
    ensures
        method_of(text) == Some(HttpMethod::Get) <==> ascii_upper_seq(text) == "GET"@,
        method_of(text) == Some(HttpMethod::Post) <==> ascii_upper_seq(text) == "POST"@,
        method_of(text) == Some(HttpMethod::Put) <==> ascii_upper_seq(text) == "PUT"@,
        method_of(text) == Some(HttpMethod::Delete) <==> ascii_upper_seq(text) == "DELETE"@,
        method_of(text) is None <==> (ascii_upper_seq(text) != "GET"@ && ascii_upper_seq(text) != "POST"@
            && ascii_upper_seq(text) != "PUT"@ && ascii_upper_seq(text) != "DELETE"@),
{
    reveal_strlit("GET");
    reveal_strlit("POST");
    reveal_strlit("PUT");
    reveal_strlit("DELETE");
    assert("GET"@[0] != "POST"@[0]);
    assert("GET"@[0] != "PUT"@[0]);
    assert("GET"@[0] != "DELETE"@[0]);
    assert("POST"@[1] != "PUT"@[1]);
    assert("POST"@[0] != "DELETE"@[0]);
    assert("PUT"@[0] != "DELETE"@[0]);
}

/// The message that refuses a method.
pub open spec fn unsupported_method_message(text: Seq<char>) -> Seq<char> {
    "unsupported HTTP method: "@ + ascii_upper_seq(text)
}

/// Where `responses` is given but empty.
pub open spec fn empty_responses_message() -> Seq<char> {
    "responses must not be empty when provided"@
}

/// Where no response is given in any form.
pub open spec fn missing_response_message() -> Seq<char> {
    "mapping requires response, responses, or status"@
}

/// Where a header matcher does not give exactly one of its two forms.
pub open spec fn header_pattern_message() -> Seq<char> {
    "header pattern requires exactly one of equal_to or matches"@
}

/// Where a body matcher does not give exactly one of its two forms.
pub open spec fn body_pattern_message() -> Seq<char> {
    "body pattern requires exactly one of equal_to_json or contains"@
}

/// Where a body matcher's JSON cannot be read.
pub open spec fn body_json_message(text: Seq<char>) -> Seq<char> {
    "body pattern equal_to_json is not valid JSON: "@ + json_parse_error_text(text)
}

/// Where a playbook is given no mapping.
pub open spec fn empty_mappings_message() -> Seq<char> {
    "mappings must not be empty"@
}

/// The header matcher a spec gives, where it gives exactly one form.
pub open spec fn header_pattern_of(spec: HeaderPatternSpec) -> Option<HeaderPattern> {
    match (spec.equal_to, spec.matches) {
        (Some(v), None) => Some(HeaderPattern::EqualTo(v)),
        (None, Some(v)) => Some(HeaderPattern::Matching(v)),
        _ => None,
    }
}

/// Whether a body matcher spec is accepted: exactly one form, and readable
/// JSON where the form is JSON.
pub open spec fn body_pattern_accepted(spec: BodyPatternSpec) -> bool {
    match (spec.equal_to_json, spec.contains) {
        (Some(text), None) => json_text_parses(text@),
        (None, Some(_)) => true,
        _ => false,
    }
}

/// The message that refuses a body matcher spec that is not accepted.
pub open spec fn body_pattern_error(spec: BodyPatternSpec) -> Seq<char> {
    match (spec.equal_to_json, spec.contains) {
        (Some(text), None) => body_json_message(text@),
        _ => body_pattern_message(),
    }
}

/// Whether `plan` is the body matcher that an accepted `spec` gives: the
/// JSON document read from its text, or its substring.
pub open spec fn body_pattern_matches(plan: BodyPattern, spec: BodyPatternSpec) -> bool {
    match (spec.equal_to_json, spec.contains) {
        (Some(t), None) => plan == BodyPattern::EqualToJson(json_document(t@)),
        (None, Some(c)) => plan == BodyPattern::Containing(c),
        _ => false,
    }
}

/// The response definition that a response spec gives: status, body and
/// headers as given, the fixed delay as given, and a uniform random delay
/// only where the distribution is of type `uniform`.
pub open spec fn response_definition_matches(d: ResponseDefinitionPlan, spec: ResponseSpec) -> bool {
    &&& d.status == spec.status
    &&& d.json_body == spec.json_body
    &&& d.headers@ == match spec.headers {
        Some(h) => h@,
        None => Seq::<(String, String)>::empty(),
    }
    &&& d.fixed_delay_ms == spec.fixed_delay_ms
    &&& d.uniform_delay_ms == match spec.delay_distribution {
        Some(dist) => if dist.distribution_type@ == "uniform"@ {
            Some((dist.lower, dist.upper))
        } else {
            None
        },
        None => None,
    }
}

/// Whether two response specs hold the same values.
pub open spec fn response_spec_same(a: ResponseSpec, b: ResponseSpec) -> bool {
    &&& a.status == b.status
    &&& a.json_body == b.json_body
    &&& match (a.headers, b.headers) {
        (Some(x), Some(y)) => x@ == y@,
        (None, None) => true,
        _ => false,
    }
    &&& a.fixed_delay_ms == b.fixed_delay_ms
    &&& match (a.delay_distribution, b.delay_distribution) {
        (Some(x), Some(y)) => x.distribution_type == y.distribution_type && x.lower == y.lower
            && x.upper == y.upper,
        (None, None) => true,
        _ => false,
    }
}

/// Whether `out` holds, in order, the responses that a mapping resolves to:
/// its `responses` list, else its single `response`, else a response built
/// from the flat `status` (200 by default) and `json_body`.
pub open spec fn responses_resolved(out: Seq<ResponseSpec>, spec: MappingSpec) -> bool {
    match spec.responses {
        Some(rs) => out.len() == rs@.len() && forall|i: int|
            0 <= i < out.len() ==> response_spec_same(#[trigger] out[i], rs@[i]),
        None => match spec.response {
            Some(r) => out.len() == 1 && response_spec_same(out[0], r),
            None => out.len() == 1 && out[0].status == match spec.status {
                Some(s) => s,
                None => 200u16,
            } && out[0].json_body == spec.json_body && out[0].headers is None
                && out[0].fixed_delay_ms is None && out[0].delay_distribution is None,
        },
    }
}

/// The outcome of resolving a mapping's responses: which error, if any.
pub open spec fn resolve_error(spec: MappingSpec) -> Option<Seq<char>> {
    match spec.responses {
        Some(rs) => if rs@.len() == 0 {
            Some(empty_responses_message())
        } else {
            None
        },
        None => match spec.response {
            Some(_) => None,
            None => if spec.status is Some || spec.json_body is Some {
                None
            } else {
                Some(missing_response_message())
            },
        },
    }
}

/// The header matchers of a mapping, none where it gives none.
pub open spec fn headers_of(spec: MappingSpec) -> Seq<(String, HeaderPatternSpec)> {
    match spec.headers {
        Some(h) => h@,
        None => Seq::<(String, HeaderPatternSpec)>::empty(),
    }
}

/// The body matchers of a mapping, none where it gives none.
pub open spec fn bodies_of(spec: MappingSpec) -> Seq<BodyPatternSpec> {
    match spec.body_patterns {
        Some(b) => b@,
        None => Seq::<BodyPatternSpec>::empty(),
    }
}

/// The error of the first refused body matcher at position `i` or later.
pub open spec fn first_body_error(bodies: Seq<BodyPatternSpec>, i: int) -> Option<Seq<char>>
    decreases bodies.len() - i,
{
    if i < 0 || i >= bodies.len() {
        None
    } else if !body_pattern_accepted(bodies[i]) {
        Some(body_pattern_error(bodies[i]))
    } else {
        first_body_error(bodies, i + 1)
    }
}

/// The error that a mapping's matchers give, if any: the first refused
/// header matcher, else the first refused body matcher.
pub open spec fn options_error(spec: MappingSpec) -> Option<Seq<char>> {
    let headers = headers_of(spec);
    let bodies = bodies_of(spec);
    if exists|i: int| 0 <= i < headers.len() && header_pattern_of(#[trigger] headers[i].1) is None {
        Some(header_pattern_message())
    } else {
        first_body_error(bodies, 0)
    }
}

/// Whether `plan` is the matching that an accepted mapping gives.
pub open spec fn options_match(plan: MappingOptionsPlan, spec: MappingSpec) -> bool {
    let headers = headers_of(spec);
    let bodies = bodies_of(spec);
    &&& plan.priority == spec.priority
    &&& plan.scenario_name == spec.scenario_name
    &&& plan.when_state_is == spec.when_state_is
    &&& plan.will_set_state_to == spec.will_set_state_to
    &&& plan.headers@.len() == headers.len()
    &&& forall|i: int|
        0 <= i < headers.len() ==> #[trigger] plan.headers@[i].0 == headers[i].0 && Some(
            plan.headers@[i].1,
        ) == header_pattern_of(headers[i].1)
    &&& plan.body_patterns@.len() == bodies.len()
    &&& forall|i: int|
        0 <= i < bodies.len() ==> body_pattern_matches(#[trigger] plan.body_patterns@[i], bodies[i])
}

/// The error that a mapping gives, if any, in the order responses, method,
/// matchers.
pub open spec fn mapping_error(spec: MappingSpec) -> Option<Seq<char>> {
    if resolve_error(spec) is Some {
        resolve_error(spec)
    } else if method_of(spec.method@) is None {
        Some(unsupported_method_message(spec.method@))
    } else {
        options_error(spec)
    }
}

/// The number of responses an accepted mapping resolves to.
pub open spec fn resolved_count(spec: MappingSpec) -> nat {
    match spec.responses {
        Some(rs) => rs@.len(),
        None => 1,
    }
}

/// The response spec at position `i` of what an accepted mapping resolves to
/// is matched by `d` (for the flat form, the single built response).
pub open spec fn resolved_definition_matches(d: ResponseDefinitionPlan, spec: MappingSpec, i: int) -> bool {
    match spec.responses {
        Some(rs) => response_definition_matches(d, rs@[i]),
        None => match spec.response {
            Some(r) => response_definition_matches(d, r),
            None => {
                &&& d.status == match spec.status {
                    Some(s) => s,
                    None => 200u16,
                }
                &&& d.json_body == spec.json_body
                &&& d.headers@ == Seq::<(String, String)>::empty()
                &&& d.fixed_delay_ms is None
                &&& d.uniform_delay_ms is None
            },
        },
    }
}

/// Whether `plan` is the stub that an accepted mapping gives: several
/// responses without an expectation cycle in sequence; otherwise the first
/// response is returned, then the others in turn, under the expectation.
pub open spec fn mapping_plan_matches(plan: MappingPlan, spec: MappingSpec) -> bool {
    &&& Some(plan.method) == method_of(spec.method@)
    &&& plan.url_path == spec.url_path
    &&& options_match(plan.options, spec)
    &&& match plan.responses {
        ResponsesPlan::InSequence(defs) => {
            &&& resolved_count(spec) > 1
            &&& spec.expect is None
            &&& defs@.len() == resolved_count(spec)
            &&& forall|i: int|
                0 <= i < defs@.len() ==> resolved_definition_matches(#[trigger] defs@[i], spec, i)
        },
        ResponsesPlan::Returning { first, then, expect } => {
            &&& !(resolved_count(spec) > 1 && spec.expect is None)
            &&& expect == spec.expect
            &&& resolved_definition_matches(first, spec, 0)
            &&& then@.len() + 1 == resolved_count(spec)
            &&& forall|i: int|
                0 <= i < then@.len() ==> resolved_definition_matches(#[trigger] then@[i], spec, i + 1)
        },
    }
}

/// A copy of an optional string.
pub fn clone_opt_string(s: &Option<String>) -> (r: Option<String>)
    ensures
        r == *s,
{
    match s {
        Some(v) => Some(v.clone()),
        None => None,
    }
}

/// A copy of a list of name/value pairs.
pub fn clone_pairs(v: &Vec<(String, String)>) -> (r: Vec<(String, String)>)
    ensures
        r@ == v@,
{
    let mut out: Vec<(String, String)> = Vec::new();
    let mut i: usize = 0;
    while i < v.len()
        invariant
            i <= v@.len(),
            out@ == v@.subrange(0, i as int),
        decreases v@.len() - i,
    {
        let (a, b) = &v[i];
        out.push((a.clone(), b.clone()));
        i = i + 1;
        assert(out@ =~= v@.subrange(0, i as int));
    }
    assert(v@.subrange(0, v@.len() as int) =~= v@);
    out
}

impl DelayDistributionSpec {
    /// A copy of this distribution.
    pub fn duplicate(&self) -> (r: Self)
        ensures
            r.distribution_type == self.distribution_type,
            r.lower == self.lower,
            r.upper == self.upper,
    {
        DelayDistributionSpec {
            distribution_type: self.distribution_type.clone(),
            lower: self.lower,
            upper: self.upper,
        }
    }
}

impl ResponseSpec {
    /// A copy of this response.
    pub fn duplicate(&self) -> (r: Self)
        ensures
            response_spec_same(r, *self),
    {
        ResponseSpec {
            status: self.status,
            json_body: clone_json_option(&self.json_body),
            headers: match &self.headers {
                Some(h) => Some(clone_pairs(h)),
                None => None,
            },
            fixed_delay_ms: self.fixed_delay_ms,
            delay_distribution: match &self.delay_distribution {
                Some(d) => Some(d.duplicate()),
                None => None,
            },
        }
    }
}

impl MappingSpec {
    /// The responses this mapping answers with, in order.
    pub fn resolved_responses(&self) -> (r: Result<Vec<ResponseSpec>, String>)
        ensures
            match r {
                Ok(v) => resolve_error(*self) is None && responses_resolved(v@, *self),
                Err(m) => resolve_error(*self) == Some(m@),
            },
    {
        if let Some(responses) = &self.responses {
            if responses.len() == 0 {
                return Err(string_of("responses must not be empty when provided"));
            }
            let mut out: Vec<ResponseSpec> = Vec::new();
            let mut i: usize = 0;
            while i < responses.len()
                invariant
                    i <= responses@.len(),
                    out@.len() == i,
                    forall|j: int| 0 <= j < i ==> response_spec_same(#[trigger] out@[j], responses@[j]),
                decreases responses@.len() - i,
            {
                out.push(responses[i].duplicate());
                i = i + 1;
            }
            return Ok(out);
        }
        if let Some(response) = &self.response {
            let mut out: Vec<ResponseSpec> = Vec::new();
            out.push(response.duplicate());
            return Ok(out);
        }
        if self.status.is_some() || self.json_body.is_some() {
            let status = match self.status {
                Some(s) => s,
                None => 200,
            };
            let mut out: Vec<ResponseSpec> = Vec::new();
            out.push(
                ResponseSpec {
                    status,
                    json_body: clone_json_option(&self.json_body),
                    headers: None,
                    fixed_delay_ms: None,
                    delay_distribution: None,
                },
            );
            return Ok(out);
        }
        Err(string_of("mapping requires response, responses, or status"))
    }
}

/// The response definition that `spec` gives.
pub fn response_def(spec: &ResponseSpec) -> (r: ResponseDefinitionPlan)
    ensures
        response_definition_matches(r, *spec),
{
    let headers = match &spec.headers {
        Some(h) => clone_pairs(h),
        None => Vec::new(),
    };
    let uniform_delay_ms = match &spec.delay_distribution {
        Some(dist) => if str_eq(dist.distribution_type.as_str(), "uniform") {
            Some((dist.lower, dist.upper))
        } else {
            None
        },
        None => None,
    };
    ResponseDefinitionPlan {
        status: spec.status,
        json_body: clone_json_option(&spec.json_body),
        headers,
        fixed_delay_ms: spec.fixed_delay_ms,
        uniform_delay_ms,
    }
}

/// The header matcher that `spec` gives.
pub fn header_pattern(spec: &HeaderPatternSpec) -> (r: Result<HeaderPattern, String>)
    ensures
        match r {
            Ok(p) => header_pattern_of(*spec) == Some(p),
            Err(m) => header_pattern_of(*spec) is None && m@ == header_pattern_message(),
        },
{
    match (&spec.equal_to, &spec.matches) {
        (Some(value), None) => Ok(HeaderPattern::EqualTo(value.clone())),
        (None, Some(value)) => Ok(HeaderPattern::Matching(value.clone())),
        _ => Err(string_of("header pattern requires exactly one of equal_to or matches")),
    }
}

/// The body matcher that `pattern` gives.
pub fn body_pattern(pattern: &BodyPatternSpec) -> (r: Result<BodyPattern, String>)
    ensures
        match r {
            Ok(p) => body_pattern_accepted(*pattern) && body_pattern_matches(p, *pattern),
            Err(m) => !body_pattern_accepted(*pattern) && m@ == body_pattern_error(*pattern),
        },
{
    match (&pattern.equal_to_json, &pattern.contains) {
        (Some(json), None) => match parse_json_value(json.as_str()) {
            Ok(value) => Ok(BodyPattern::EqualToJson(value)),
            Err(e) => {
                let mut m = string_of("body pattern equal_to_json is not valid JSON: ");
                m.append(e.as_str());
                Err(m)
            },
        },
        (None, Some(substring)) => Ok(BodyPattern::Containing(substring.clone())),
        _ => Err(string_of("body pattern requires exactly one of equal_to_json or contains")),
    }
}

/// The method that `method` names, compared without regard to ASCII case.
pub fn parse_http_method(method: &str) -> (r: Result<HttpMethod, String>)
    ensures
        match r {
            Ok(m) => method_of(method@) == Some(m),
            Err(e) => method_of(method@) is None && e@ == unsupported_method_message(method@),
        },
{
    let upper = to_ascii_uppercase(method);
    if str_eq(upper.as_str(), "GET") {
        Ok(HttpMethod::Get)
    } else if str_eq(upper.as_str(), "POST") {
        Ok(HttpMethod::Post)
    } else if str_eq(upper.as_str(), "PUT") {
        Ok(HttpMethod::Put)
    } else if str_eq(upper.as_str(), "DELETE") {
        Ok(HttpMethod::Delete)
    } else {
        let mut m = string_of("unsupported HTTP method: ");
        m.append(upper.as_str());
        Err(m)
    }
}

/// The matching that a mapping's options give, or the first error.
pub fn apply_mapping_options(spec: &MappingSpec) -> (r: Result<MappingOptionsPlan, String>)
    ensures
        match r {
            Ok(p) => options_error(*spec) is None && options_match(p, *spec),
            Err(m) => options_error(*spec) == Some(m@),
        },
{
    let ghost hseq = headers_of(*spec);
    let ghost bseq = bodies_of(*spec);
    let mut headers: Vec<(String, HeaderPattern)> = Vec::new();
    if let Some(hs) = &spec.headers {
        let mut i: usize = 0;
        assert(hseq == hs@);
        while i < hs.len()
            invariant
                hseq == hs@,
                spec.headers == Some(*hs),
                i <= hs@.len(),
                headers@.len() == i,
                forall|j: int|
                    0 <= j < i ==> #[trigger] headers@[j].0 == hs@[j].0 && Some(headers@[j].1)
                        == header_pattern_of(hs@[j].1),
            decreases hs@.len() - i,
        {
            let (name, pattern_spec) = &hs[i];
            match header_pattern(pattern_spec) {
                Ok(p) => {
                    headers.push((name.clone(), p));
                },
                Err(e) => {
                    assert(hseq == hs@);
                    assert(header_pattern_of(hseq[i as int].1) is None);
                    return Err(e);
                },
            }
            i = i + 1;
        }
        assert forall|j: int| 0 <= j < hseq.len() implies header_pattern_of(#[trigger] hseq[j].1) is Some by {
            assert(headers@[j].0 == hs@[j].0);
        }
    }
    assert(headers@.len() == hseq.len());
    assert(forall|j: int| 0 <= j < hseq.len() ==> header_pattern_of(#[trigger] hseq[j].1) is Some);
    let mut bodies: Vec<BodyPattern> = Vec::new();
    if let Some(bs) = &spec.body_patterns {
        let mut i: usize = 0;
        assert(bseq == bs@);
        while i < bs.len()
            invariant
                bseq == bs@,
                first_body_error(bseq, 0) == first_body_error(bseq, i as int),
                hseq == headers_of(*spec),
                forall|j: int| 0 <= j < hseq.len() ==> header_pattern_of(#[trigger] hseq[j].1) is Some,
                spec.body_patterns == Some(*bs),
                i <= bs@.len(),
                bodies@.len() == i,
                forall|j: int|
                    0 <= j < i ==> body_pattern_accepted(#[trigger] bs@[j]) && body_pattern_matches(
                        bodies@[j],
                        bs@[j],
                    ),
            decreases bs@.len() - i,
        {
            match body_pattern(&bs[i]) {
                Ok(p) => {
                    bodies.push(p);
                    assert(body_pattern_accepted(bseq[i as int]));
                },
                Err(e) => {
                    assert(!body_pattern_accepted(bseq[i as int]));
                    return Err(e);
                },
            }
            i = i + 1;
        }
    }
    assert(bodies@.len() == bseq.len());
    assert(first_body_error(bseq, 0) is None) by {
        if bseq.len() > 0 {
            assert(first_body_error(bseq, 0) == first_body_error(bseq, bseq.len() as int));
        }
    }
    Ok(
        MappingOptionsPlan {
            priority: spec.priority,
            scenario_name: clone_opt_string(&spec.scenario_name),
            when_state_is: clone_opt_string(&spec.when_state_is),
            will_set_state_to: clone_opt_string(&spec.will_set_state_to),
            headers,
            body_patterns: bodies,
        },
    )
}

/// The stub that one mapping gives, or the first error.
pub fn apply_mapping_step(spec: &MappingSpec) -> (r: Result<MappingPlan, String>)
    ensures
        match r {
            Ok(p) => mapping_error(*spec) is None && mapping_plan_matches(p, *spec),
            Err(m) => mapping_error(*spec) == Some(m@),
        },
{
    let responses = match spec.resolved_responses() {
        Ok(v) => v,
        Err(e) => return Err(e),
    };
    let mut defs: Vec<ResponseDefinitionPlan> = Vec::new();
    let mut i: usize = 0;
    while i < responses.len()
        invariant
            i <= responses@.len(),
            defs@.len() == i,
            forall|j: int|
                0 <= j < i ==> response_definition_matches(#[trigger] defs@[j], responses@[j]),
        decreases responses@.len() - i,
    {
        defs.push(response_def(&responses[i]));
        i = i + 1;
    }
    assert(forall|j: int|
        0 <= j < defs@.len() ==> resolved_definition_matches(#[trigger] defs@[j], *spec, j)) by {
        assert forall|j: int| 0 <= j < defs@.len() implies resolved_definition_matches(
            #[trigger] defs@[j],
            *spec,
            j,
        ) by {
            assert(response_definition_matches(defs@[j], responses@[j]));
            assert(response_spec_same(responses@[j], responses@[j]));
        }
    }
    let method = match parse_http_method(spec.method.as_str()) {
        Ok(m) => m,
        Err(e) => return Err(e),
    };
    let options = match apply_mapping_options(spec) {
        Ok(o) => o,
        Err(e) => return Err(e),
    };
    let url_path = spec.url_path.clone();
    if defs.len() > 1 && spec.expect.is_none() {
        return Ok(MappingPlan { method, url_path, options, responses: ResponsesPlan::InSequence(defs) });
    }
    let ghost all = defs@;
    let first = defs.remove(0);
    assert(defs@ =~= all.subrange(1, all.len() as int));
    Ok(
        MappingPlan {
            method,
            url_path,
            options,
            responses: ResponsesPlan::Returning { first, then: defs, expect: spec.expect },
        },
    )
}

/// The error of the first refused mapping at position `i` or later.
pub open spec fn first_mapping_error(mappings: Seq<MappingSpec>, i: int) -> Option<Seq<char>>
    decreases mappings.len() - i,
{
    if i < 0 || i >= mappings.len() {
        None
    } else if mapping_error(mappings[i]) is Some {
        mapping_error(mappings[i])
    } else {
        first_mapping_error(mappings, i + 1)
    }
}

/// The error a list of mappings gives, if any: none at all, else the first
/// refused mapping.
pub open spec fn mappings_error(mappings: Seq<MappingSpec>) -> Option<Seq<char>> {
    if mappings.len() == 0 {
        Some(empty_mappings_message())
    } else {
        first_mapping_error(mappings, 0)
    }
}

/// The stubs that a list of mappings installs, one per mapping in order, or
/// the first error.
pub fn build_playbook_from_mappings(mappings: &[MappingSpec]) -> (r: Result<Vec<MappingPlan>, String>)
    ensures
        match r {
            Ok(plans) => mappings_error(mappings@) is None && plans@.len() == mappings@.len()
                && forall|i: int|
                0 <= i < plans@.len() ==> mapping_plan_matches(#[trigger] plans@[i], mappings@[i]),
            Err(m) => mappings_error(mappings@) == Some(m@),
        },
{
    if mappings.len() == 0 {
        return Err(string_of("mappings must not be empty"));
    }
    let mut plans: Vec<MappingPlan> = Vec::new();
    let mut i: usize = 0;
    while i < mappings.len()
        invariant
            0 < mappings@.len(),
            i <= mappings@.len(),
            plans@.len() == i,
            first_mapping_error(mappings@, 0) == first_mapping_error(mappings@, i as int),
            forall|j: int| 0 <= j < i ==> mapping_plan_matches(#[trigger] plans@[j], mappings@[j]),
        decreases mappings@.len() - i,
    {
        match apply_mapping_step(&mappings[i]) {
            Ok(p) => {
                plans.push(p);
            },
            Err(e) => {
                return Err(e);
            },
        }
        i = i + 1;
    }
    Ok(plans)
}

/// Registering a managed HTTP playbook whose mappings are refused fails
/// with this message.
pub open spec fn registration_failure_message(error: Seq<char>) -> Seq<char> {
    "http playbook registration failed: "@ + error
}

/// The stubs of a managed HTTP playbook, or the message with which its
/// registration fails.
pub fn build_http_playbook(mappings: &[MappingSpec]) -> (r: Result<Vec<MappingPlan>, String>)
    ensures
        match r {
            Ok(plans) => mappings_error(mappings@) is None && plans@.len() == mappings@.len()
                && forall|i: int|
                0 <= i < plans@.len() ==> mapping_plan_matches(#[trigger] plans@[i], mappings@[i]),
            Err(m) => mappings_error(mappings@) matches Some(e) && m@ == registration_failure_message(e),
        },
{
    match build_playbook_from_mappings(mappings) {
        Ok(plans) => Ok(plans),
        Err(e) => {
            let mut m = string_of("http playbook registration failed: ");
            m.append(e.as_str());
            Err(m)
        },
    }
}

} // verus!
