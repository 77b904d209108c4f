//! Containerized components as configured; every setting is passed on to
//! the container builder as given.
use vstd::prelude::*;

use crate::component::executable::RuntimeArgConfig;
use crate::healthcheck::ReadinessCheckConfig;

verus! {

/// A host port published as a container port.
#[derive(Debug)]
pub struct PortMappingConfig {
    pub host_port: u16,
    pub container_port: u16,
}

/// A host path mounted at a container path.
#[derive(Debug)]
pub struct VolumeMappingConfig {
    pub host_path: String,
    pub container_path: String,
}

/// A containerized component as configured. Environment variables are
/// name/value pairs in the order the client's map yielded them.
#[derive(Debug)]
pub struct ContainerizedComponentConfig {
    pub identifier: String,
    pub containerfile: String,
    pub build_context: Option<String>,
    pub image_tag: Option<String>,
    pub network: Option<String>,
    pub env_vars: Option<Vec<(String, String)>>,
    pub runtime_args: Option<Vec<RuntimeArgConfig>>,
    pub port_mappings: Option<Vec<PortMappingConfig>>,
    pub readiness_checks: Option<Vec<ReadinessCheckConfig>>,
    pub host_mappings: Option<Vec<String>>,
    pub volume_mappings: Option<Vec<VolumeMappingConfig>>,
}

} // verus!
