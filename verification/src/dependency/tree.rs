//! Dependency trees: a dependency starts after its children, and nesting is
//! bounded. Planning a tree goes in pre-order and stops at the first
//! refusal: a node too deep, a dependency's settings, or a Localstack
//! lambda whose source directory the file system does not show.
use vstd::prelude::*;
use vstd::string::*;

use crate::component::tree::MAX_CHILDREN_DEPTH;
use crate::dependency::http::{http_container_name, http_port, HttpDependencyConfig};
use crate::dependency::kafka::{flavor_of, kafka_settings, unknown_flavor_message, KafkaDependencyConfig, KafkaSettings};
use crate::dependency::localstack::{
    check_lambda_sources, lambdas_of, probed, probes_of, probe_count, lemma_first_missing_concat, lemma_first_missing_in_range, source_dirs, sources_outcome, LocalstackDependencyConfig,
};
use crate::dependency::oracle::OracleDependencyConfig;
use crate::dependency::postgres::{build, postgres_plan_matches, PostgresDependencyConfig, PostgresDependencyPlan};
use crate::dependency::smtp::{smtp_tls_mode, tls_of, unknown_tls_message, SmtpDependencyConfig, SmtpTls};
use crate::text::{decimal_string, decimal_text, string_of};

verus! {

/// The settings of a dependency that the arena runtime builds by itself
/// (MSSQL, OAuth, Temporal): the library plans it without checks of its
/// own and hands the settings on as they were written.
#[derive(Debug)]
pub struct RuntimeDependencyConfig {
    /// The dependency's settings, a JSON object.
    pub settings_json: String,
}

/// A dependency as configured.
#[derive(Debug)]
pub enum DependencyConfig {
    Postgres(PostgresDependencyConfig),
    Mssql(RuntimeDependencyConfig),
    Oracle(OracleDependencyConfig),
    Kafka(KafkaDependencyConfig),
    Http(HttpDependencyConfig),
    Localstack(LocalstackDependencyConfig),
    Oauth(RuntimeDependencyConfig),
    Temporal(RuntimeDependencyConfig),
    Smtp(SmtpDependencyConfig),
}

/// A dependency with the dependencies that start before it.
#[derive(Debug)]
pub struct DependencyNode {
    pub config: DependencyConfig,
    pub children: Vec<DependencyNode>,
}

/// What building one dependency involves, beyond its configuration.
#[derive(Debug)]
pub enum DependencyPlan {
    Postgres(PostgresDependencyPlan),
    /// Built by the arena runtime from these settings.
    Mssql(String),
    Oracle,
    Kafka(KafkaSettings),
    Http { container_name: String, port: u16 },
    Localstack,
    /// Built by the arena runtime from these settings.
    Oauth(String),
    /// Built by the arena runtime from these settings.
    Temporal(String),
    Smtp(SmtpTls),
}

/// What building a tree of dependencies involves.
#[derive(Debug)]
pub struct DependencyTreePlan {
    pub dependency: DependencyPlan,
    pub children: Vec<DependencyTreePlan>,
}

/// Where a tree is nested deeper than allowed.
pub open spec fn dependency_depth_message() -> Seq<char> {
    "dependency children nesting exceeds max depth of "@ + decimal_text(MAX_CHILDREN_DEPTH as int)
}

/// The error that a dependency's settings give, if any: an unknown Kafka
/// flavor or SMTP TLS mode.
pub open spec fn settings_error(config: DependencyConfig) -> Option<Seq<char>> {
    match config {
        DependencyConfig::Kafka(k) => match k.flavor {
            Some(n) => if flavor_of(Some(n@)) is None {
                Some(unknown_flavor_message(n@))
            } else {
                None
            },
            None => None,
        },
        DependencyConfig::Smtp(s) => match s.tls_mode {
            Some(m) => if tls_of(Some(m@)) is None {
                Some(unknown_tls_message(m@))
            } else {
                None
            },
            None => None,
        },
        _ => None,
    }
}


/// The source directories that building `config` probes: a Localstack
/// dependency's lambda sources, in order; none for the other kinds.
pub open spec fn node_dirs(config: DependencyConfig) -> Seq<Seq<char>> {
    match config {
        DependencyConfig::Localstack(l) => source_dirs(lambdas_of(l)),
        _ => Seq::<Seq<char>>::empty(),
    }
}

/// The refusal of one dependency, given the answers its probes gave back:
/// its settings error, else (for Localstack) its first missing lambda source.
pub open spec fn dependency_outcome(config: DependencyConfig, answers: Seq<bool>) -> Option<Seq<char>> {
    if settings_error(config) is Some {
        settings_error(config)
    } else {
        match config {
            DependencyConfig::Localstack(l) => match sources_outcome(lambdas_of(l), answers) {
                Ok(()) => None,
                Err(m) => Some(m),
            },
            _ => None,
        }
    }
}

/// Planning a tree rooted at a node at `depth`, in pre-order, where the
/// directory probes give back `answers` in turn: the first refusal, if any
/// (too deep, else the node's own, else the first refused child), and the
/// directories probed until then, in order.
pub open spec fn tree_run(node: DependencyNode, depth: int, answers: Seq<bool>) -> (Option<Seq<char>>, Seq<Seq<char>>)
    decreases node, 0int,
{
    if depth >= MAX_CHILDREN_DEPTH {
        (Some(dependency_depth_message()), Seq::<Seq<char>>::empty())
    } else {
        let dirs = node_dirs(node.config);
        let own = dependency_outcome(node.config, answers.take(dirs.len() as int));
        if own is Some {
            (own, dirs)
        } else {
            let rest = children_run(node.children@, depth + 1, answers.skip(dirs.len() as int), 0);
            (rest.0, dirs + rest.1)
        }
    }
}

/// Planning the children from position `i` on, in order, where the probes
/// give back `answers` in turn: the first refusal and the directories probed.
pub open spec fn children_run(children: Seq<DependencyNode>, depth: int, answers: Seq<bool>, i: int) -> (
    Option<Seq<char>>,
    Seq<Seq<char>>,
)
    decreases children, children.len() - i,
{
    if i < 0 || i >= children.len() {
        (None, Seq::<Seq<char>>::empty())
    } else {
        let first = tree_run(children[i], depth, answers);
        if first.0 is Some {
            first
        } else {
            let rest = children_run(children, depth, answers.skip(first.1.len() as int), i + 1);
            (rest.0, first.1 + rest.1)
        }
    }
}

/// Whether some probe answers, as they came back from probing the
/// directories the run reaches, give the outcome `outcome` for a tree at `depth`.
pub open spec fn tree_outcome_with_probes(node: DependencyNode, depth: int, outcome: Option<Seq<char>>) -> bool {
    exists|a: Seq<bool>|
        probes_of(tree_run(node, depth, a).1, a) && #[trigger] tree_run(node, depth, a).0 == outcome
}

/// Answers probed for two runs in turn were probed for the two together.
proof fn lemma_probes_concat(p1: Seq<Seq<char>>, a1: Seq<bool>, p2: Seq<Seq<char>>, a2: Seq<bool>)
    requires
        probes_of(p1, a1),
        probes_of(p2, a2),
    ensures
        probes_of(p1 + p2, a1 + a2),
{
    lemma_first_missing_concat(a1, a2, 0);
    lemma_first_missing_in_range(a1, 0);
    lemma_first_missing_in_range(a2, 0);
    assert forall|k: int| 0 <= k < probe_count(a1 + a2) implies probed(#[trigger] (p1 + p2)[k], (a1 + a2)[k]) by {
        if k < a1.len() {
            assert(probed(p1[k], a1[k]));
        } else {
            assert(probed(p2[k - a1.len()], a2[k - a1.len()]));
        }
    }
}

/// A run that reaches no further than `a` goes the same way whatever follows `a`.
proof fn lemma_run_prefix(node: DependencyNode, depth: int, a: Seq<bool>, b: Seq<bool>)
    requires
        tree_run(node, depth, a).1.len() <= a.len(),
    ensures
        tree_run(node, depth, a + b) == tree_run(node, depth, a),
    decreases node, 0int,
{
    if depth < MAX_CHILDREN_DEPTH {
        let n = node_dirs(node.config).len() as int;
        assert((a + b).take(n) =~= a.take(n));
        if dependency_outcome(node.config, a.take(n)) is None {
            assert((a + b).skip(n) =~= a.skip(n) + b);
            lemma_children_run_prefix(node.children@, depth + 1, a.skip(n), b, 0);
        }
    }
}

/// The same for the children from position `i` on.
proof fn lemma_children_run_prefix(children: Seq<DependencyNode>, depth: int, a: Seq<bool>, b: Seq<bool>, i: int)
    requires
        children_run(children, depth, a, i).1.len() <= a.len(),
    ensures
        children_run(children, depth, a + b, i) == children_run(children, depth, a, i),
    decreases children, children.len() - i,
{
    if 0 <= i < children.len() {
        assert(decreases_to!(children => children[i]));
        let first = tree_run(children[i], depth, a);
        lemma_run_prefix(children[i], depth, a, b);
        if first.0 is None {
            let k = first.1.len() as int;
            assert((a + b).skip(k) =~= a.skip(k) + b);
            lemma_children_run_prefix(children, depth, a.skip(k), b, i + 1);
        }
    }
}

/// Whether some probe answers let the tree rooted at `node`, at `depth`, be accepted.
pub open spec fn tree_accepted_somehow(node: DependencyNode, depth: int) -> bool {
    exists|b: Seq<bool>| (#[trigger] tree_run(node, depth, b)).0 is None
}

/// Where no child from position `i` on is refused, each of them is accepted
/// with the answers that reach it.
proof fn lemma_children_run_accepted(children: Seq<DependencyNode>, depth: int, a: Seq<bool>, i: int)
    requires
        0 <= i,
        children_run(children, depth, a, i).0 is None,
    ensures
        forall|j: int|
            i <= j < children.len() ==> tree_accepted_somehow(#[trigger] children[j], depth),
    decreases children.len() - i,
{
    if i < children.len() {
        let first = tree_run(children[i], depth, a);
        assert(first.0 is None);
        lemma_children_run_accepted(children, depth, a.skip(first.1.len() as int), i + 1);
        assert forall|j: int| i <= j < children.len() implies tree_accepted_somehow(#[trigger] children[j], depth) by {
            if j == i {
                assert(tree_run(children[i], depth, a).0 is None);
            }
        }
    }
}

/// A node is refused at depth 32 and below, before any directory is probed;
/// an accepted node stands above it, its own settings and lambda sources are
/// accepted, and every child is accepted one level deeper. So every path of
/// an accepted top-level tree has fewer than 32 levels of children.
pub proof fn lemma_accepted_dependency_tree_bounded(node: DependencyNode, depth: int, a: Seq<bool>)
    ensures
        depth >= MAX_CHILDREN_DEPTH ==> tree_run(node, depth, a) == (
            Some(dependency_depth_message()),
            Seq::<Seq<char>>::empty(),
        ),
        tree_run(node, depth, a).0 is None ==> {
            &&& depth < MAX_CHILDREN_DEPTH
            &&& settings_error(node.config) is None
            &&& dependency_outcome(node.config, a.take(node_dirs(node.config).len() as int)) is None
            &&& forall|j: int|
                0 <= j < node.children@.len() ==> tree_accepted_somehow(#[trigger] node.children@[j], depth + 1)
        },
{
    if tree_run(node, depth, a).0 is None {
        let n = node_dirs(node.config).len() as int;
        lemma_children_run_accepted(node.children@, depth + 1, a.skip(n), 0);
    }
}

/// Whether `plan` is what building one accepted dependency involves.
pub open spec fn dependency_plan_matches(plan: DependencyPlan, config: DependencyConfig, network: Option<Seq<char>>) -> bool {
    match (plan, config) {
        (DependencyPlan::Postgres(p), DependencyConfig::Postgres(c)) => postgres_plan_matches(p, c, network),
        (DependencyPlan::Mssql(s), DependencyConfig::Mssql(c)) => s@ == c.settings_json@,
        (DependencyPlan::Oauth(s), DependencyConfig::Oauth(c)) => s@ == c.settings_json@,
        (DependencyPlan::Temporal(s), DependencyConfig::Temporal(c)) => s@ == c.settings_json@,
        (DependencyPlan::Oracle, DependencyConfig::Oracle(_)) => true,
        (DependencyPlan::Kafka(s), DependencyConfig::Kafka(c)) => {
            &&& s.port == match c.port {
                Some(x) => x,
                None => 9092u16,
            }
            &&& s.flavor == flavor_of(
                match c.flavor {
                    Some(n) => Some(n@),
                    None => None,
                },
            )->0
            &&& s.expiry == crate::expiry::expiry_override_of(c.expiry_seconds)
        },
        (DependencyPlan::Http { container_name, port }, DependencyConfig::Http(c)) => {
            &&& container_name@ == match c.container_name {
                Some(n) => n@,
                None => crate::dependency::http::default_http_container_name(c.identifier@),
            }
            &&& port == match c.port {
                Some(p) => p,
                None => 0u16,
            }
        },
        (DependencyPlan::Localstack, DependencyConfig::Localstack(_)) => true,
        (DependencyPlan::Smtp(t), DependencyConfig::Smtp(c)) => Some(t) == tls_of(
            match c.tls_mode {
                Some(m) => Some(m@),
                None => None,
            },
        ),
        _ => false,
    }
}

/// A Postgres dependency planned in a tree keeps every setting of its
/// configuration: its identifier, image and container name as given; the
/// port, database name, user and password as given, else 5432, `arena_db`,
/// `arena_user` and `postgres`; its startup scripts as given, else none;
/// and the match's network.
pub proof fn lemma_planned_postgres_keeps_settings(
    plan: DependencyPlan,
    c: PostgresDependencyConfig,
    network: Option<Seq<char>>,
)
    requires
        dependency_plan_matches(plan, DependencyConfig::Postgres(c), network),
    ensures
        plan matches DependencyPlan::Postgres(p) && {
            &&& p.identifier == c.identifier
            &&& p.image == c.image
            &&& p.image_name == c.image_name
            &&& p.container_name == c.container_name
            &&& (c.port matches Some(x) ==> p.port == x)
            &&& (c.port is None ==> p.port == 5432)
            &&& (c.database_name matches Some(n) ==> p.database_name@ == n@)
            &&& (c.database_name is None ==> p.database_name@ == "arena_db"@)
            &&& (c.database_username matches Some(n) ==> p.database_username@ == n@)
            &&& (c.database_username is None ==> p.database_username@ == "arena_user"@)
            &&& (c.database_password matches Some(n) ==> p.database_password@ == n@)
            &&& (c.database_password is None ==> p.database_password@ == "postgres"@)
            &&& (c.startup_sql_scripts matches Some(v) ==> p.startup_sql_scripts@ == v@)
            &&& (c.startup_sql_scripts is None ==> p.startup_sql_scripts@.len() == 0)
            &&& (network matches Some(n) ==> p.network matches Some(m) && m@ == n)
            &&& (network is None ==> p.network is None)
        },
{
}

/// Whether `plan` mirrors an accepted tree: each node's plan matches its
/// dependency, with one child plan per child, in order.
pub open spec fn dependency_tree_plan_matches(plan: DependencyTreePlan, node: DependencyNode, network: Option<Seq<char>>) -> bool
    decreases node, 0int,
{
    &&& dependency_plan_matches(plan.dependency, node.config, network)
    &&& plan.children@.len() == node.children@.len()
    &&& dependency_children_plans_match(plan.children@, node.children@, network, 0)
}

/// Whether the child plans from position `i` on mirror the children.
pub open spec fn dependency_children_plans_match(plans: Seq<DependencyTreePlan>, children: Seq<DependencyNode>, network: Option<Seq<char>>, i: int) -> bool
    decreases children, children.len() - i,
{
    if i < 0 || i >= children.len() || i >= plans.len() {
        true
    } else {
        dependency_tree_plan_matches(plans[i], children[i], network) && dependency_children_plans_match(
            plans,
            children,
            network,
            i + 1,
        )
    }
}

/// The depth message.
fn dependency_depth_error_text() -> (r: String)
    ensures
        r@ == dependency_depth_message(),
{
    let mut m = string_of("dependency children nesting exceeds max depth of ");
    m.append(decimal_string(MAX_CHILDREN_DEPTH as i128).as_str());
    m
}

/// Whether `r` is what building `config` on `network` gives, where its
/// probes gave back `a`: the probes are those of its lambda sources, and `r`
/// is the plan where nothing refuses it, the refusal otherwise.
pub open spec fn dependency_result_matches(
    config: DependencyConfig,
    network: Option<Seq<char>>,
    a: Seq<bool>,
    r: Result<DependencyPlan, String>,
) -> bool {
    probes_of(node_dirs(config), a) && match r {
        Ok(p) => dependency_outcome(config, a) is None && dependency_plan_matches(p, config, network),
        Err(m) => dependency_outcome(config, a) == Some(m@),
    }
}

/// Whether `r` is what building the tree rooted at `node`, standing at
/// `depth`, on `network` gives, where the probes gave back `a` in turn.
pub open spec fn tree_result_matches(
    node: DependencyNode,
    depth: int,
    network: Option<Seq<char>>,
    a: Seq<bool>,
    r: Result<DependencyTreePlan, String>,
) -> bool {
    probes_of(tree_run(node, depth, a).1, a) && match r {
        Ok(p) => tree_run(node, depth, a).0 is None && dependency_tree_plan_matches(p, node, network),
        Err(m) => tree_run(node, depth, a).0 == Some(m@),
    }
}

/// What building one dependency on `network` involves, or the message that
/// refuses it: its settings first, then (for Localstack) its lambda sources,
/// each probed once, in order.
pub fn build_dependency(config: &DependencyConfig, network: Option<&str>) -> (r: Result<DependencyPlan, String>)
    ensures
        exists|a: Seq<bool>|
            #[trigger] dependency_result_matches(*config, crate::dependency::postgres::network_view(network), a, r),
{
    let ghost mut w = Seq::<bool>::empty();
    let r = match config {
        DependencyConfig::Postgres(c) => match build(c, network) {
            Ok(p) => Ok(DependencyPlan::Postgres(p)),
            Err(m) => Err(m),
        },
        DependencyConfig::Mssql(c) => Ok(DependencyPlan::Mssql(c.settings_json.clone())),
        DependencyConfig::Oracle(_) => Ok(DependencyPlan::Oracle),
        DependencyConfig::Oauth(c) => Ok(DependencyPlan::Oauth(c.settings_json.clone())),
        DependencyConfig::Temporal(c) => Ok(DependencyPlan::Temporal(c.settings_json.clone())),
        DependencyConfig::Kafka(c) => match kafka_settings(c) {
            Ok(s) => Ok(DependencyPlan::Kafka(s)),
            Err(m) => Err(m),
        },
        DependencyConfig::Http(c) => Ok(DependencyPlan::Http { container_name: http_container_name(c), port: http_port(c) }),
        DependencyConfig::Localstack(c) => {
            let checked = check_lambda_sources(c);
            proof {
                w = choose|found: Seq<bool>|
                    probes_of(source_dirs(lambdas_of(*c)), found) && #[trigger] sources_outcome(lambdas_of(*c), found)
                        == match checked {
                        Ok(()) => Ok::<(), Seq<char>>(()),
                        Err(m) => Err(m@),
                    };
            }
            match checked {
                Ok(()) => Ok(DependencyPlan::Localstack),
                Err(m) => Err(m),
            }
        },
        DependencyConfig::Smtp(c) => match smtp_tls_mode(c) {
            Ok(t) => Ok(DependencyPlan::Smtp(t)),
            Err(m) => Err(m),
        },
    };
    assert(dependency_result_matches(*config, crate::dependency::postgres::network_view(network), w, r));
    r
}

/// Child plans that match a prefix keep matching when one more is added.
proof fn lemma_dependency_plans_push(
    plans: Seq<DependencyTreePlan>,
    p: DependencyTreePlan,
    children: Seq<DependencyNode>,
    network: Option<Seq<char>>,
    i: int,
)
    requires
        0 <= i <= plans.len(),
        plans.len() < children.len(),
        dependency_children_plans_match(plans, children, network, i),
        dependency_tree_plan_matches(p, children[plans.len() as int], network),
    ensures
        dependency_children_plans_match(plans.push(p), children, network, i),
    decreases plans.len() - i,
{
    if i < plans.len() {
        lemma_dependency_plans_push(plans, p, children, network, i + 1);
        assert(plans.push(p)[i] == plans[i]);
    } else {
        assert(plans.push(p)[i] == p);
        assert(dependency_children_plans_match(plans.push(p), children, network, i + 1));
    }
}

/// What building a tree rooted at `node`, standing at `depth`, on `network`
/// involves, or the message of the first refusal in pre-order: for each
/// node, too deep, else its own refusal, else its children in order. The
/// refusal is fixed over the directory probes as they came back.
pub fn build_dependency_node_at_depth(node: &DependencyNode, network: Option<&str>, depth: usize) -> (r: Result<
    DependencyTreePlan,
    String,
>)
    ensures
        exists|a: Seq<bool>|
            #[trigger] tree_result_matches(*node, depth as int, crate::dependency::postgres::network_view(network), a, r),
    decreases node,
{
    if depth >= MAX_CHILDREN_DEPTH {
        let r = Err(dependency_depth_error_text());
        assert(tree_result_matches(*node, depth as int, crate::dependency::postgres::network_view(network), Seq::<bool>::empty(), r));
        return r;
    }
    let ghost dirs = node_dirs(node.config);
    let built = build_dependency(&node.config, network);
    let ghost own = choose|a: Seq<bool>|
        #[trigger] dependency_result_matches(node.config, crate::dependency::postgres::network_view(network), a, built);
    proof {
        assert(own.take(dirs.len() as int) =~= own);
    }
    let dependency = match built {
        Ok(d) => d,
        Err(m) => {
            let r = Err(m);
            assert(tree_result_matches(*node, depth as int, crate::dependency::postgres::network_view(network), own, r));
            return r;
        },
    };
    let ghost kids = node.children@;
    let ghost nv = crate::dependency::postgres::network_view(network);
    let ghost mut acc = Seq::<bool>::empty();
    let ghost mut probed_dirs = Seq::<Seq<char>>::empty();
    let mut plans: Vec<DependencyTreePlan> = Vec::new();
    let mut i: usize = 0;
    proof {
        assert forall|x: Seq<bool>| #[trigger] children_run(kids, depth + 1, acc + x, 0) == (
            children_run(kids, depth + 1, x, 0).0,
            probed_dirs + children_run(kids, depth + 1, x, 0).1,
        ) by {
            assert(acc + x =~= x);
            assert(probed_dirs + children_run(kids, depth + 1, x, 0).1 =~= children_run(kids, depth + 1, x, 0).1);
        }
    }
    while i < node.children.len()
        invariant
            kids == node.children@,
            nv == crate::dependency::postgres::network_view(network),
            depth < MAX_CHILDREN_DEPTH,
            dirs == node_dirs(node.config),
            probes_of(dirs, own),
            dependency_outcome(node.config, own) is None,
            dependency_plan_matches(dependency, node.config, nv),
            i <= kids.len(),
            plans@.len() == i,
            probes_of(probed_dirs, acc),
            forall|x: Seq<bool>| #[trigger] children_run(kids, depth + 1, acc + x, 0) == (
                children_run(kids, depth + 1, x, i as int).0,
                probed_dirs + children_run(kids, depth + 1, x, i as int).1,
            ),
            dependency_children_plans_match(plans@, kids, nv, 0),
        decreases kids.len() - i,
    {
        assert(decreases_to!(*node => node.children));
        assert(decreases_to!(node.children => kids));
        assert(decreases_to!(kids => kids[i as int]));
        let child = &node.children[i];
        let sub = build_dependency_node_at_depth(child, network, depth + 1);
        let ghost ci = choose|a: Seq<bool>| #[trigger] tree_result_matches(*child, depth + 1, nv, a, sub);
        let ghost pi = tree_run(*child, depth + 1, ci).1;
        proof {
            assert forall|x: Seq<bool>| #[trigger] children_run(kids, depth + 1, ci + x, i as int) == (
                if tree_run(*child, depth + 1, ci).0 is Some {
                    tree_run(*child, depth + 1, ci).0
                } else {
                    children_run(kids, depth + 1, x, i + 1).0
                },
                if tree_run(*child, depth + 1, ci).0 is Some {
                    pi
                } else {
                    pi + children_run(kids, depth + 1, x, i + 1).1
                },
            ) by {
                lemma_run_prefix(*child, depth + 1, ci, x);
                assert((ci + x).skip(pi.len() as int) =~= x);
            }
        }
        match sub {
            Ok(p) => {
                proof {
                    lemma_dependency_plans_push(plans@, p, kids, nv, 0);
                    lemma_probes_concat(probed_dirs, acc, pi, ci);
                    let old_acc = acc;
                    let old_dirs = probed_dirs;
                    acc = acc + ci;
                    probed_dirs = probed_dirs + pi;
                    assert forall|x: Seq<bool>| #[trigger] children_run(kids, depth + 1, acc + x, 0) == (
                        children_run(kids, depth + 1, x, i + 1).0,
                        probed_dirs + children_run(kids, depth + 1, x, i + 1).1,
                    ) by {
                        assert(acc + x =~= old_acc + (ci + x));
                        assert(children_run(kids, depth + 1, old_acc + (ci + x), 0) == (
                            children_run(kids, depth + 1, ci + x, i as int).0,
                            old_dirs + children_run(kids, depth + 1, ci + x, i as int).1,
                        ));
                        assert(old_dirs + (pi + children_run(kids, depth + 1, x, i + 1).1) =~= probed_dirs
                            + children_run(kids, depth + 1, x, i + 1).1);
                    }
                }
                plans.push(p);
            },
            Err(m) => {
                proof {
                    let empty = Seq::<bool>::empty();
                    assert(ci + empty =~= ci);
                    assert(children_run(kids, depth + 1, ci, i as int) == (Some(m@), pi));
                    assert(children_run(kids, depth + 1, acc + ci, 0) == (Some(m@), probed_dirs + pi));
                    let t = own + (acc + ci);
                    assert(t.take(dirs.len() as int) =~= own);
                    assert(t.skip(dirs.len() as int) =~= acc + ci);
                    lemma_probes_concat(probed_dirs, acc, pi, ci);
                    lemma_probes_concat(dirs, own, probed_dirs + pi, acc + ci);
                    assert(tree_run(*node, depth as int, t) == (Some(m@), dirs + (probed_dirs + pi)));
                }
                let r = Err(m);
                assert(tree_result_matches(*node, depth as int, nv, own + (acc + ci), r));
                return r;
            },
        }
        i = i + 1;
    }
    proof {
        let empty = Seq::<bool>::empty();
        assert(acc + empty =~= acc);
        assert(children_run(kids, depth + 1, acc, 0) == (None::<Seq<char>>, probed_dirs + Seq::<Seq<char>>::empty()));
        assert(probed_dirs + Seq::<Seq<char>>::empty() =~= probed_dirs);
        let t = own + acc;
        assert(t.take(dirs.len() as int) =~= own);
        assert(t.skip(dirs.len() as int) =~= acc);
        lemma_probes_concat(dirs, own, probed_dirs, acc);
        assert(tree_run(*node, depth as int, t) == (None::<Seq<char>>, dirs + probed_dirs));
    }
    let r = Ok(DependencyTreePlan { dependency, children: plans });
    assert(tree_result_matches(*node, depth as int, nv, own + acc, r));
    r
}

/// What building a top-level dependency tree on `network` involves.
pub fn build_dependency_node(node: &DependencyNode, network: Option<&str>) -> (r: Result<DependencyTreePlan, String>)
    ensures
        exists|a: Seq<bool>| #[trigger] tree_result_matches(*node, 0, crate::dependency::postgres::network_view(network), a, r),
{
    build_dependency_node_at_depth(node, network, 0)
}

} // verus!
