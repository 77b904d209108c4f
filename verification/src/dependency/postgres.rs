//! Postgres dependencies: the settings a configuration resolves to.
use vstd::prelude::*;

use crate::expiry::{expiry_override, expiry_override_of, ExpiryOverride};
use crate::component::executable::clone_strings;
use crate::http::mapping::clone_opt_string;
use crate::text::string_of;

verus! {

/// A Postgres dependency as configured.
#[derive(Debug)]
pub struct PostgresDependencyConfig {
    pub identifier: String,
    pub expiry_seconds: Option<u64>,
    pub image_name: Option<String>,
    pub image: Option<String>,
    pub port: Option<u16>,
    pub database_name: Option<String>,
    pub database_username: Option<String>,
    pub database_password: Option<String>,
    pub container_name: Option<String>,
    pub startup_sql_scripts: Option<Vec<String>>,
}

/// The settings of a Postgres dependency, defaults filled in.
#[derive(Debug)]
pub struct PostgresDependencyPlan {
    pub identifier: String,
    pub image: Option<String>,
    pub image_name: Option<String>,
    pub port: u16,
    pub database_name: String,
    pub database_username: String,
    pub database_password: String,
    pub startup_sql_scripts: Vec<String>,
    pub network: Option<String>,
    pub container_name: Option<String>,
    pub expiry: Option<ExpiryOverride>,
}

/// `s`, or `default` where `s` is absent.
pub open spec fn text_or(s: Option<String>, default: Seq<char>) -> Seq<char> {
    match s {
        Some(v) => v@,
        None => default,
    }
}

/// The optional network, as text.
pub open spec fn network_view(network: Option<&str>) -> Option<Seq<char>> {
    match network {
        Some(n) => Some(n@),
        None => None,
    }
}

/// The optional string, as text.
pub open spec fn opt_view(s: Option<String>) -> Option<Seq<char>> {
    match s {
        Some(v) => Some(v@),
        None => None,
    }
}

/// `s`, or a copy of `default` where `s` is absent.
pub fn string_or(s: &Option<String>, default: &str) -> (r: String)
    ensures
        r@ == text_or(*s, default@),
{
    match s {
        Some(v) => v.clone(),
        None => string_of(default),
    }
}

/// The optional network as an owned string.
pub fn network_string(network: Option<&str>) -> (r: Option<String>)
    ensures
        opt_view(r) == network_view(network),
{
    match network {
        Some(n) => Some(string_of(n)),
        None => None,
    }
}

/// Whether `p` is what the Postgres configuration `config` resolves to on
/// `network`: port 5432, database `arena_db`, user `arena_user` and
/// password `postgres` unless given; no startup script unless given; the
/// expiry override of `expiry_seconds`; everything else as configured.
pub open spec fn postgres_plan_matches(p: PostgresDependencyPlan, config: PostgresDependencyConfig, network: Option<Seq<char>>) -> bool {
    &&& p.identifier == config.identifier
    &&& p.image == config.image
    &&& p.image_name == config.image_name
    &&& p.port == match config.port {
        Some(x) => x,
        None => 5432u16,
    }
    &&& p.database_name@ == text_or(config.database_name, "arena_db"@)
    &&& p.database_username@ == text_or(config.database_username, "arena_user"@)
    &&& p.database_password@ == text_or(config.database_password, "postgres"@)
    &&& p.startup_sql_scripts@ == match config.startup_sql_scripts {
        Some(v) => v@,
        None => Seq::<String>::empty(),
    }
    &&& opt_view(p.network) == network
    &&& p.container_name == config.container_name
    &&& p.expiry == expiry_override_of(config.expiry_seconds)
}

/// The settings a Postgres configuration resolves to: port 5432, database
/// `arena_db`, user `arena_user` and password `postgres` unless given; no
/// startup script unless given; the expiry override of `expiry_seconds`.
pub fn build(config: &PostgresDependencyConfig, network: Option<&str>) -> (r: Result<
    PostgresDependencyPlan,
    String,
>)
    ensures
        r matches Ok(p) && postgres_plan_matches(p, *config, network_view(network)),
{
    let scripts = match &config.startup_sql_scripts {
        Some(v) => clone_strings(v),
        None => Vec::new(),
    };
    Ok(
        PostgresDependencyPlan {
            identifier: config.identifier.clone(),
            image: clone_opt_string(&config.image),
            image_name: clone_opt_string(&config.image_name),
            port: match config.port {
                Some(p) => p,
                None => 5432,
            },
            database_name: string_or(&config.database_name, "arena_db"),
            database_username: string_or(&config.database_username, "arena_user"),
            database_password: string_or(&config.database_password, "postgres"),
            startup_sql_scripts: scripts,
            network: network_string(network),
            container_name: clone_opt_string(&config.container_name),
            expiry: expiry_override(config.expiry_seconds),
        },
    )
}

} // verus!
