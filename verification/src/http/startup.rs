//! Stubs installed on an HTTP dependency as soon as it starts.
use vstd::prelude::*;
use vstd::string::*;

use crate::http::json::clone_json_option;
use crate::http::mapping::{method_of, parse_http_method, HttpMethod};
use crate::text::{ascii_upper_seq, string_of};

verus! {

/// Status of a startup stub where none is given.
pub open spec fn default_mapping_status_spec() -> u16 {
    200
}

/// One startup stub as configured.
#[derive(Debug)]
pub struct HttpDependencyMapping {
    pub method: String,
    pub url_path: String,
    pub status: u16,
    pub json_body: Option<serde_json::Value>,
}

/// The stubs installed on one HTTP dependency when it starts.
#[derive(Debug)]
pub struct OnDependencyStartupConfig {
    pub dependency_identifier: String,
    pub mappings: Vec<HttpDependencyMapping>,
}

/// One startup stub as installed.
#[derive(Debug)]
pub struct StartupStub {
    pub method: HttpMethod,
    pub url_path: String,
    pub status: u16,
    pub json_body: Option<serde_json::Value>,
}

/// Status of a startup stub where none is given.
pub fn default_mapping_status() -> (r: u16)
    ensures
        r == default_mapping_status_spec(),
{
    200
}

/// The message with which installing a startup stub with an unknown method fails.
pub open spec fn startup_method_message(method: Seq<char>) -> Seq<char> {
    "unsupported HTTP method in on_dependency_startup mapping: "@ + ascii_upper_seq(method)
}

/// Whether `stub` is what `m` installs.
pub open spec fn startup_stub_matches(stub: StartupStub, m: HttpDependencyMapping) -> bool {
    &&& Some(stub.method) == method_of(m.method@)
    &&& stub.url_path == m.url_path
    &&& stub.status == m.status
    &&& stub.json_body == m.json_body
}

/// Position of the first startup stub at `i` or later with an unknown method, or -1.
pub open spec fn first_unknown_method(ms: Seq<HttpDependencyMapping>, i: int) -> int
    decreases ms.len() - i,
{
    if i < 0 || i >= ms.len() {
        -1
    } else if method_of(ms[i].method@) is None {
        i
    } else {
        first_unknown_method(ms, i + 1)
    }
}

/// The stubs a startup configuration installs, in order, or the message of
/// the first stub with an unknown method.
pub fn plan_startup_stubs(config: &OnDependencyStartupConfig) -> (r: Result<Vec<StartupStub>, String>)
    ensures
        match r {
            Ok(v) => first_unknown_method(config.mappings@, 0) == -1 && v@.len() == config.mappings@.len()
                && forall|i: int| 0 <= i < v@.len() ==> startup_stub_matches(#[trigger] v@[i], config.mappings@[i]),
            Err(e) => first_unknown_method(config.mappings@, 0) >= 0 && e@ == startup_method_message(
                config.mappings@[first_unknown_method(config.mappings@, 0)].method@,
            ),
        },
{
    let ghost ms = config.mappings@;
    let mut out: Vec<StartupStub> = Vec::new();
    let mut i: usize = 0;
    while i < config.mappings.len()
        invariant
            ms == config.mappings@,
            i <= ms.len(),
            out@.len() == i,
            first_unknown_method(ms, 0) == first_unknown_method(ms, i as int),
            forall|j: int| 0 <= j < i ==> startup_stub_matches(#[trigger] out@[j], ms[j]),
        decreases ms.len() - i,
    {
        let m = &config.mappings[i];
        match parse_http_method(m.method.as_str()) {
            Ok(method) => {
                out.push(
                    StartupStub {
                        method,
                        url_path: m.url_path.clone(),
                        status: m.status,
                        json_body: clone_json_option(&m.json_body),
                    },
                );
            },
            Err(_) => {
                let mut msg = string_of("unsupported HTTP method in on_dependency_startup mapping: ");
                msg.append(crate::text::to_ascii_uppercase(m.method.as_str()).as_str());
                return Err(msg);
            },
        }
        i = i + 1;
    }
    Ok(out)
}

} // verus!
