//! Oracle dependencies as configured; every setting is optional and passed
//! on as given.
use vstd::prelude::*;

verus! {

/// An Oracle dependency as configured.
#[derive(Debug)]
pub struct OracleDependencyConfig {
    pub identifier: String,
    pub image_name: Option<String>,
    pub image: Option<String>,
    pub port: Option<u16>,
    pub database_name: Option<String>,
    pub database_username: Option<String>,
    pub database_password: Option<String>,
    pub admin_password: Option<String>,
    pub container_name: Option<String>,
    pub startup_sql_scripts: Option<Vec<String>>,
}

} // verus!
