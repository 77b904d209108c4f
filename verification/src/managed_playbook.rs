//! Managed playbooks registered on a match: their configuration, and when
//! they run.
use vstd::prelude::*;

use crate::http::mapping::MappingSpec;

verus! {

/// Whether a managed playbook runs when its dependency starts, where the
/// configuration does not say.
pub open spec fn default_exec_on_start() -> bool {
    true
}

/// Whether a managed playbook runs when its dependency starts, where the
/// configuration does not say.
pub fn default_exec_on_dependency_start() -> (r: bool)
    ensures
        r == default_exec_on_start(),
{
    true
}

/// A managed HTTP playbook: the stubs it installs on its dependency.
#[derive(Debug)]
pub struct HttpPlaybookConfig {
    pub dependency_identifier: String,
    pub mappings: Vec<MappingSpec>,
}

/// A managed playbook of a database or cloud dependency, named by its dependency.
#[derive(Debug)]
pub struct DependencyPlaybookConfig {
    pub dependency_identifier: String,
}

/// The kind of a managed playbook.
#[derive(Debug)]
pub enum PlaybookKindConfig {
    Http(HttpPlaybookConfig),
    Mssql(DependencyPlaybookConfig),
    Oracle(DependencyPlaybookConfig),
    Localstack(DependencyPlaybookConfig),
    Postgres(DependencyPlaybookConfig),
}

/// A managed playbook as registered on a match.
#[derive(Debug)]
pub struct ManagedPlaybookConfig {
    pub identifier: String,
    pub exec_on_dependency_start: bool,
    pub kind: PlaybookKindConfig,
}

impl PlaybookKindConfig {
    /// The identifier of the dependency the playbook acts on.
    pub fn dependency_identifier(&self) -> (r: &String)
        ensures
            *r == match *self {
                PlaybookKindConfig::Http(h) => h.dependency_identifier,
                PlaybookKindConfig::Mssql(d) => d.dependency_identifier,
                PlaybookKindConfig::Oracle(d) => d.dependency_identifier,
                PlaybookKindConfig::Localstack(d) => d.dependency_identifier,
                PlaybookKindConfig::Postgres(d) => d.dependency_identifier,
            },
    {
        match self {
            PlaybookKindConfig::Http(h) => &h.dependency_identifier,
            PlaybookKindConfig::Mssql(d) => &d.dependency_identifier,
            PlaybookKindConfig::Oracle(d) => &d.dependency_identifier,
            PlaybookKindConfig::Localstack(d) => &d.dependency_identifier,
            PlaybookKindConfig::Postgres(d) => &d.dependency_identifier,
        }
    }
}

/// The kind of dependency a managed playbook acts on.
#[derive(Clone, Copy, Debug, PartialEq, Eq, Structural)]
pub enum PlaybookKind {
    Http,
    Mssql,
    Oracle,
    Localstack,
    Postgres,
}

/// How a managed playbook is registered on its match.
#[derive(Debug)]
pub struct PlaybookRegistration {
    pub identifier: String,
    pub dependency_identifier: String,
    pub kind: PlaybookKind,
    pub exec_on_dependency_start: bool,
}

/// The kind of a playbook configuration.
pub open spec fn kind_of(kind: PlaybookKindConfig) -> PlaybookKind {
    match kind {
        PlaybookKindConfig::Http(_) => PlaybookKind::Http,
        PlaybookKindConfig::Mssql(_) => PlaybookKind::Mssql,
        PlaybookKindConfig::Oracle(_) => PlaybookKind::Oracle,
        PlaybookKindConfig::Localstack(_) => PlaybookKind::Localstack,
        PlaybookKindConfig::Postgres(_) => PlaybookKind::Postgres,
    }
}

/// The dependency a playbook configuration acts on.
pub open spec fn dependency_of(kind: PlaybookKindConfig) -> String {
    match kind {
        PlaybookKindConfig::Http(h) => h.dependency_identifier,
        PlaybookKindConfig::Mssql(d) => d.dependency_identifier,
        PlaybookKindConfig::Oracle(d) => d.dependency_identifier,
        PlaybookKindConfig::Localstack(d) => d.dependency_identifier,
        PlaybookKindConfig::Postgres(d) => d.dependency_identifier,
    }
}

/// Whether `r` registers the playbook `config`: its identifier, dependency,
/// kind, and whether it runs when the dependency starts.
pub open spec fn registration_matches(r: PlaybookRegistration, config: ManagedPlaybookConfig) -> bool {
    &&& r.identifier == config.identifier
    &&& r.dependency_identifier == dependency_of(config.kind)
    &&& r.kind == kind_of(config.kind)
    &&& r.exec_on_dependency_start == config.exec_on_dependency_start
}

/// A managed playbook is registered as the kind it was configured as, on
/// the dependency its configuration names, under its own identifier and
/// with its own choice of running when that dependency starts: an MSSQL
/// playbook as MSSQL, an Oracle one as Oracle, and so on for every kind.
pub proof fn lemma_registration_keeps_kind(r: PlaybookRegistration, config: ManagedPlaybookConfig)
    requires
        registration_matches(r, config),
    ensures
        config.kind is Http <==> r.kind == PlaybookKind::Http,
        config.kind is Mssql <==> r.kind == PlaybookKind::Mssql,
        config.kind is Oracle <==> r.kind == PlaybookKind::Oracle,
        config.kind is Localstack <==> r.kind == PlaybookKind::Localstack,
        config.kind is Postgres <==> r.kind == PlaybookKind::Postgres,
        config.kind matches PlaybookKindConfig::Http(h) ==> r.dependency_identifier == h.dependency_identifier,
        config.kind matches PlaybookKindConfig::Mssql(d) ==> r.dependency_identifier == d.dependency_identifier,
        config.kind matches PlaybookKindConfig::Oracle(d) ==> r.dependency_identifier == d.dependency_identifier,
        config.kind matches PlaybookKindConfig::Localstack(d) ==> r.dependency_identifier
            == d.dependency_identifier,
        config.kind matches PlaybookKindConfig::Postgres(d) ==> r.dependency_identifier
            == d.dependency_identifier,
        r.identifier == config.identifier,
        r.exec_on_dependency_start == config.exec_on_dependency_start,
{
}

/// How the playbook `config` is registered.
pub fn playbook_registration(config: &ManagedPlaybookConfig) -> (r: PlaybookRegistration)
    ensures
        registration_matches(r, *config),
{
    let kind = match &config.kind {
        PlaybookKindConfig::Http(_) => PlaybookKind::Http,
        PlaybookKindConfig::Mssql(_) => PlaybookKind::Mssql,
        PlaybookKindConfig::Oracle(_) => PlaybookKind::Oracle,
        PlaybookKindConfig::Localstack(_) => PlaybookKind::Localstack,
        PlaybookKindConfig::Postgres(_) => PlaybookKind::Postgres,
    };
    PlaybookRegistration {
        identifier: config.identifier.clone(),
        dependency_identifier: config.kind.dependency_identifier().clone(),
        kind,
        exec_on_dependency_start: config.exec_on_dependency_start,
    }
}

} // verus!
