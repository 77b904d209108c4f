pub mod boundary;
pub mod component;
pub mod dependency;
pub mod encounter;
pub mod entry;
pub mod expiry;
pub mod ffi;
pub mod healthcheck;
pub mod http;
pub mod logging;
pub mod managed_playbook;
pub mod matches;
pub mod port;
pub mod registry;
pub mod status;
pub mod text;
