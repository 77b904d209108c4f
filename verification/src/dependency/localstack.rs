//! Localstack dependencies: the check that each lambda's source directory
//! exists before the dependency is built.
use vstd::prelude::*;
use vstd::string::*;

use crate::text::string_of;

verus! {

/// A queue to create.
#[derive(Debug)]
pub struct QueueSpecConfig {
    pub name: String,
    pub fifo: bool,
}

/// A lambda to deploy from a source directory.
#[derive(Debug)]
pub struct LambdaSpecConfig {
    pub name: String,
    pub runtime: String,
    pub handler: String,
    pub source_dir: String,
    pub environment: Option<Vec<(String, String)>>,
}

/// An event bus to create.
#[derive(Debug)]
pub struct EventBusSpecConfig {
    pub name: String,
}

/// What an event rule delivers to.
#[derive(Debug)]
pub enum EventTargetKindConfig {
    SqsQueue { queue_name: String },
    Lambda { function_name: String },
}

/// One target of an event rule.
#[derive(Debug)]
pub struct EventRuleTargetConfig {
    pub target_id: String,
    pub kind: EventTargetKindConfig,
}

/// An event rule to create.
#[derive(Debug)]
pub struct EventRuleSpecConfig {
    pub name: String,
    pub event_bus: Option<String>,
    pub event_pattern: String,
    pub targets: Vec<EventRuleTargetConfig>,
}

/// A Localstack dependency as configured.
#[derive(Debug)]
pub struct LocalstackDependencyConfig {
    pub identifier: String,
    pub port: Option<u16>,
    pub image_name: Option<String>,
    pub image_tag: Option<String>,
    pub container_name: Option<String>,
    pub services: Option<Vec<String>>,
    pub queues: Option<Vec<QueueSpecConfig>>,
    pub lambdas: Option<Vec<LambdaSpecConfig>>,
    pub event_buses: Option<Vec<EventBusSpecConfig>>,
    pub event_rules: Option<Vec<EventRuleSpecConfig>>,
}

/// Where a lambda's source directory is missing.
pub open spec fn missing_source_message(name: Seq<char>, source_dir: Seq<char>) -> Seq<char> {
    "localstack lambda '"@ + name + "': source_dir '"@ + source_dir
        + "' does not exist or is not a directory"@
}

/// Whether `path` names an existing directory, through `std::path::Path::is_dir`.
/// What it answers depends on the file system at the time of the call and
/// is not stated.
#[verifier::external_body]
fn is_directory(path: &str) -> (r: bool) {
    std::path::Path::new(path).is_dir()
}

/// Whether `answer` is what a probe of the directory `path` through
/// `is_directory` gave back.
pub closed spec fn probed(path: Seq<char>, answer: bool) -> bool {
    exists|p: &str| p@ == path && call_ensures(is_directory, (p,), answer)
}

/// How many of `answers` were asked for: the paths are probed in order up to
/// and including the first that is missing, all of them where none is.
pub open spec fn probe_count(answers: Seq<bool>) -> int {
    match first_missing(answers, 0) {
        Some(m) => m + 1,
        None => answers.len() as int,
    }
}

/// Whether `answers`, one for each path in order, came back from probing
/// `paths` until the first missing one; the answers past it were never asked.
pub open spec fn probes_of(paths: Seq<Seq<char>>, answers: Seq<bool>) -> bool {
    &&& answers.len() == paths.len()
    &&& forall|k: int| 0 <= k < probe_count(answers) ==> probed(#[trigger] paths[k], answers[k])
}

/// The source directories of the lambdas, in order.
pub open spec fn source_dirs(lambdas: Seq<LambdaSpecConfig>) -> Seq<Seq<char>> {
    Seq::new(lambdas.len(), |i: int| lambdas[i].source_dir@)
}

/// Probes the directory `path`: the answer is what `is_directory` gave back.
pub(crate) fn probe_directory(path: &str) -> (r: bool)
    ensures
        probed(path@, r),
{
    let probe = is_directory;
    let r = probe(path);
    proof {
        assert(call_ensures(is_directory, (path,), r));
    }
    r
}

/// The lambdas of a configuration, none where none are configured.
pub open spec fn lambdas_of(config: LocalstackDependencyConfig) -> Seq<LambdaSpecConfig> {
    match config.lambdas {
        Some(v) => v@,
        None => Seq::<LambdaSpecConfig>::empty(),
    }
}

/// The position of the first lambda at `i` or later whose source directory
/// is missing according to `exists`, if any.
pub open spec fn first_missing(exists: Seq<bool>, i: int) -> Option<int>
    decreases exists.len() - i,
{
    if i < 0 || i >= exists.len() {
        None
    } else if !exists[i] {
        Some(i)
    } else {
        first_missing(exists, i + 1)
    }
}

/// The first missing position found from `i` on lies at or after `i`, within the sequence.
pub proof fn lemma_first_missing_in_range(exists: Seq<bool>, i: int)
    requires
        0 <= i,
    ensures
        first_missing(exists, i) matches Some(k) ==> i <= k < exists.len() && !exists[k],
    decreases exists.len() - i,
{
    if i < exists.len() && exists[i] {
        lemma_first_missing_in_range(exists, i + 1);
    }
}

/// Where every answer from `j` up to `i` is there and the one at `i` is
/// missing, the first missing from `j` on is at `i`; where every answer from
/// `j` on is there, none is missing.
proof fn lemma_first_missing_at(exists: Seq<bool>, j: int, i: int)
    requires
        0 <= j <= i <= exists.len(),
        forall|k: int| j <= k < i ==> #[trigger] exists[k],
    ensures
        i < exists.len() && !exists[i] ==> first_missing(exists, j) == Some(i),
        i == exists.len() ==> first_missing(exists, j) is None,
    decreases i - j,
{
    if j < i {
        lemma_first_missing_at(exists, j + 1, i);
    }
}

/// The first missing answer past the end of `a1` in `a1 + a2` is the first
/// missing one of `a2`, shifted.
proof fn lemma_first_missing_shift(a1: Seq<bool>, a2: Seq<bool>, j: int)
    requires
        0 <= j <= a2.len(),
    ensures
        first_missing(a1 + a2, a1.len() + j) == match first_missing(a2, j) {
            Some(m) => Some(m + a1.len()),
            None => None::<int>,
        },
    decreases a2.len() - j,
{
    if j < a2.len() {
        assert((a1 + a2)[a1.len() + j] == a2[j]);
        lemma_first_missing_shift(a1, a2, j + 1);
    }
}

/// The first missing answer of `a1 + a2` from `i` on: that of `a1` where
/// there is one, else that of `a2`, shifted.
pub proof fn lemma_first_missing_concat(a1: Seq<bool>, a2: Seq<bool>, i: int)
    requires
        0 <= i <= a1.len(),
    ensures
        first_missing(a1 + a2, i) == match first_missing(a1, i) {
            Some(m) => Some(m),
            None => match first_missing(a2, 0) {
                Some(m) => Some(m + a1.len()),
                None => None::<int>,
            },
        },
    decreases a1.len() - i,
{
    if i < a1.len() {
        assert((a1 + a2)[i] == a1[i]);
        lemma_first_missing_concat(a1, a2, i + 1);
    } else {
        lemma_first_missing_shift(a1, a2, 0);
    }
}

/// The outcome of the source check given, for each lambda in order, whether
/// its source directory exists: the first missing one refuses the
/// configuration.
pub open spec fn sources_outcome(lambdas: Seq<LambdaSpecConfig>, exists: Seq<bool>) -> Result<(), Seq<char>> {
    match first_missing(exists, 0) {
        Some(i) => Err(missing_source_message(lambdas[i].name@, lambdas[i].source_dir@)),
        None => Ok(()),
    }
}

/// The message refusing `lam`, whose source directory is missing.
fn missing_source_text(lam: &LambdaSpecConfig) -> (r: String)
    ensures
        r@ == missing_source_message(lam.name@, lam.source_dir@),
{
    let mut m = string_of("localstack lambda '");
    m.append(lam.name.as_str());
    m.append("': source_dir '");
    m.append(lam.source_dir.as_str());
    m.append("' does not exist or is not a directory");
    m
}

/// The outcome of the source check, given whether each lambda's source
/// directory exists (`exists[i]` for the `i`-th lambda).
pub fn lambda_sources_outcome(config: &LocalstackDependencyConfig, exists: &Vec<bool>) -> (r: Result<(), String>)
    requires
        exists@.len() == lambdas_of(*config).len(),
    ensures
        match (r, sources_outcome(lambdas_of(*config), exists@)) {
            (Ok(()), Ok(())) => true,
            (Err(m), Err(n)) => m@ == n,
            _ => false,
        },
{
    if let Some(lambdas) = &config.lambdas {
        let mut i: usize = 0;
        while i < lambdas.len()
            invariant
                config.lambdas == Some(*lambdas),
                exists@.len() == lambdas@.len(),
                i <= lambdas@.len(),
                first_missing(exists@, 0) == first_missing(exists@, i as int),
            decreases lambdas@.len() - i,
        {
            if !exists[i] {
                return Err(missing_source_text(&lambdas[i]));
            }
            i = i + 1;
        }
    }
    Ok(())
}

/// Checks, in order, that each lambda's source directory exists; the first
/// that does not refuses the configuration. Whether a directory exists is
/// read from the file system at the time of the call: each lambda's
/// `source_dir` is probed once, in order, until the first missing one.
pub fn check_lambda_sources(config: &LocalstackDependencyConfig) -> (r: Result<(), String>)
    ensures
        exists|found: Seq<bool>|
            probes_of(source_dirs(lambdas_of(*config)), found) && #[trigger] sources_outcome(
                lambdas_of(*config),
                found,
            ) == match r {
                Ok(()) => Ok::<(), Seq<char>>(()),
                Err(m) => Err(m@),
            },
        config.lambdas is None ==> r is Ok,
{
    let ghost lams = lambdas_of(*config);
    let ghost dirs = source_dirs(lams);
    if let Some(lambdas) = &config.lambdas {
        let mut i: usize = 0;
        while i < lambdas.len()
            invariant
                config.lambdas == Some(*lambdas),
                lams == lambdas@,
                dirs == source_dirs(lambdas@),
                i <= lambdas@.len(),
                forall|k: int| 0 <= k < i ==> probed(#[trigger] dirs[k], true),
            decreases lambdas@.len() - i,
        {
            let there = probe_directory(lambdas[i].source_dir.as_str());
            if !there {
                let ghost found = Seq::new(lams.len(), |k: int| k < i);
                proof {
                    lemma_first_missing_at(found, 0, i as int);
                    assert(probes_of(dirs, found));
                }
                let m = missing_source_text(&lambdas[i]);
                assert(sources_outcome(lambdas_of(*config), found) == Err::<(), Seq<char>>(m@));
                return Err(m);
            }
            i = i + 1;
        }
    }
    let ghost found = Seq::new(lams.len(), |k: int| true);
    proof {
        lemma_first_missing_at(found, 0, found.len() as int);
        assert(probes_of(dirs, found));
        assert(sources_outcome(lambdas_of(*config), found) == Ok::<(), Seq<char>>(()));
    }
    Ok(())
}

} // verus!
