//! HTTP stub-server dependencies: their container name and port.
use vstd::prelude::*;
use vstd::string::*;

use crate::text::{replace_char, replace_char_str, string_of};

verus! {

/// An HTTP dependency as configured.
#[derive(Debug)]
pub struct HttpDependencyConfig {
    pub identifier: String,
    pub image_name: Option<String>,
    pub image_tag: Option<String>,
    pub port: Option<u16>,
    pub container_name: Option<String>,
}

/// The container name used where none is configured: `arena-http-` and the
/// identifier with its spaces turned into dashes.
pub open spec fn default_http_container_name(identifier: Seq<char>) -> Seq<char> {
    "arena-http-"@ + replace_char(identifier, ' ', '-')
}

/// The container name of an HTTP dependency.
pub fn http_container_name(config: &HttpDependencyConfig) -> (r: String)
    ensures
        r@ == match config.container_name {
            Some(n) => n@,
            None => default_http_container_name(config.identifier@),
        },
{
    match &config.container_name {
        Some(n) => n.clone(),
        None => {
            let mut m = string_of("arena-http-");
            m.append(replace_char_str(config.identifier.as_str(), ' ', '-').as_str());
            m
        },
    }
}

/// The port of an HTTP dependency: as configured, else 0 (any free port).
pub fn http_port(config: &HttpDependencyConfig) -> (r: u16)
    ensures
        r == match config.port {
            Some(p) => p,
            None => 0u16,
        },
{
    match config.port {
        Some(p) => p,
        None => 0,
    }
}

} // verus!
