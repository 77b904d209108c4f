//! Matches: a name, a network, trees of dependencies and components, and
//! managed playbooks. Planning a match plans every dependency tree, then
//! every component tree, in order, and stops at the first refusal.
use vstd::prelude::*;

use crate::component::tree::{build_component_node, tree_error, tree_plan_matches, ComponentNode, ComponentTreePlan};
use crate::dependency::postgres::{network_view, opt_view, string_or, text_or};
use crate::dependency::tree::{
    build_dependency_node, dependency_tree_plan_matches, tree_outcome_with_probes, DependencyNode,
    DependencyTreePlan,
};
use crate::managed_playbook::{playbook_registration, registration_matches, ManagedPlaybookConfig, PlaybookRegistration};

verus! {

/// Name of a match where none is given.
pub open spec fn default_match_name() -> Seq<char> {
    "arena-match"@
}

/// A match as configured.
#[derive(Debug)]
pub struct MatchConfig {
    pub network: Option<String>,
    pub match_name: Option<String>,
    pub dependencies: Option<Vec<DependencyNode>>,
    pub components: Option<Vec<ComponentNode>>,
    pub playbooks: Option<Vec<ManagedPlaybookConfig>>,
}

/// What building a match involves: its name, one plan per dependency tree
/// and per component tree, and one registration per managed playbook, each
/// in order.
#[derive(Debug)]
pub struct MatchPlan {
    pub name: String,
    pub dependencies: Vec<DependencyTreePlan>,
    pub components: Vec<ComponentTreePlan>,
    pub playbooks: Vec<PlaybookRegistration>,
}

/// The managed playbooks of a match, none where none are listed.
pub open spec fn playbook_configs(config: MatchConfig) -> Seq<ManagedPlaybookConfig> {
    match config.playbooks {
        Some(v) => v@,
        None => Seq::<ManagedPlaybookConfig>::empty(),
    }
}

/// The dependency trees of a match, none where none are listed.
pub open spec fn dependency_nodes(config: MatchConfig) -> Seq<DependencyNode> {
    match config.dependencies {
        Some(v) => v@,
        None => Seq::<DependencyNode>::empty(),
    }
}

/// The component trees of a match, none where none are listed.
pub open spec fn component_nodes(config: MatchConfig) -> Seq<ComponentNode> {
    match config.components {
        Some(v) => v@,
        None => Seq::<ComponentNode>::empty(),
    }
}

/// Whether `m` is what planning the dependency trees of a match refuses
/// with: every tree before some position is accepted, and the tree there is
/// refused with `m`, each over the directory probes as they came back.
pub open spec fn dependencies_refusal(nodes: Seq<DependencyNode>, m: Seq<char>) -> bool {
    exists|i: int|
        0 <= i < nodes.len() && (forall|j: int| 0 <= j < i ==> tree_outcome_with_probes(#[trigger] nodes[j], 0, None))
            && #[trigger] tree_outcome_with_probes(nodes[i], 0, Some(m))
}

/// The plans of a match's dependency trees on `network`, in order, or the
/// first refusal.
pub fn build_dependencies(config: &MatchConfig, network: Option<&str>) -> (r: Result<Vec<DependencyTreePlan>, String>)
    ensures
        match r {
            Ok(plans) => {
                &&& plans@.len() == dependency_nodes(*config).len()
                &&& forall|i: int|
                    0 <= i < plans@.len() ==> tree_outcome_with_probes(#[trigger] dependency_nodes(*config)[i], 0, None)
                &&& forall|i: int|
                    0 <= i < plans@.len() ==> dependency_tree_plan_matches(
                        #[trigger] plans@[i],
                        dependency_nodes(*config)[i],
                        network_view(network),
                    )
            },
            Err(m) => dependencies_refusal(dependency_nodes(*config), m@),
        },
{
    let mut plans: Vec<DependencyTreePlan> = Vec::new();
    if let Some(nodes) = &config.dependencies {
        let mut i: usize = 0;
        while i < nodes.len()
            invariant
                config.dependencies == Some(*nodes),
                i <= nodes@.len(),
                plans@.len() == i,
                forall|j: int| 0 <= j < i ==> tree_outcome_with_probes(#[trigger] nodes@[j], 0, None),
                forall|j: int|
                    0 <= j < i ==> dependency_tree_plan_matches(#[trigger] plans@[j], nodes@[j], network_view(network)),
            decreases nodes@.len() - i,
        {
            let built = build_dependency_node(&nodes[i], network);
            proof {
                let a = choose|a: Seq<bool>|
                    #[trigger] crate::dependency::tree::tree_result_matches(nodes@[i as int], 0, network_view(network), a, built);
                assert(built is Ok ==> tree_outcome_with_probes(nodes@[i as int], 0, None));
                assert(built matches Err(m) ==> tree_outcome_with_probes(nodes@[i as int], 0, Some(m@)));
            }
            match built {
                Ok(p) => {
                    plans.push(p);
                },
                Err(m) => {
                    return Err(m);
                },
            }
            i = i + 1;
        }
    }
    Ok(plans)
}

/// The first component tree error from position `i` on, if any.
pub open spec fn first_component_error(nodes: Seq<ComponentNode>, i: int) -> Option<Seq<char>>
    decreases nodes.len() - i,
{
    if i < 0 || i >= nodes.len() {
        None
    } else if tree_error(nodes[i], 0) is Some {
        tree_error(nodes[i], 0)
    } else {
        first_component_error(nodes, i + 1)
    }
}

/// The plans of a match's component trees, in order, or the first error.
pub fn build_components(config: &MatchConfig) -> (r: Result<Vec<ComponentTreePlan>, String>)
    ensures
        match r {
            Ok(plans) => first_component_error(component_nodes(*config), 0) is None && plans@.len()
                == component_nodes(*config).len() && forall|i: int|
                0 <= i < plans@.len() ==> tree_plan_matches(#[trigger] plans@[i], component_nodes(*config)[i]),
            Err(m) => first_component_error(component_nodes(*config), 0) == Some(m@),
        },
{
    let mut plans: Vec<ComponentTreePlan> = Vec::new();
    if let Some(nodes) = &config.components {
        let mut i: usize = 0;
        while i < nodes.len()
            invariant
                config.components == Some(*nodes),
                i <= nodes@.len(),
                plans@.len() == i,
                first_component_error(nodes@, 0) == first_component_error(nodes@, i as int),
                forall|j: int| 0 <= j < i ==> tree_plan_matches(#[trigger] plans@[j], nodes@[j]),
            decreases nodes@.len() - i,
        {
            match build_component_node(&nodes[i]) {
                Ok(p) => {
                    plans.push(p);
                },
                Err(m) => {
                    return Err(m);
                },
            }
            i = i + 1;
        }
    }
    Ok(plans)
}

/// The registrations of the playbooks, one per playbook, in order.
pub fn playbook_registrations(playbooks: &Option<Vec<ManagedPlaybookConfig>>) -> (r: Vec<PlaybookRegistration>)
    ensures
        r@.len() == match *playbooks {
            Some(v) => v@.len(),
            None => 0,
        },
        forall|i: int| 0 <= i < r@.len() ==> registration_matches(#[trigger] r@[i], playbooks->0@[i]),
{
    let mut out: Vec<PlaybookRegistration> = Vec::new();
    if let Some(v) = playbooks {
        let mut i: usize = 0;
        while i < v.len()
            invariant
                *playbooks == Some(*v),
                i <= v@.len(),
                out@.len() == i,
                forall|j: int| 0 <= j < i ==> registration_matches(#[trigger] out@[j], v@[j]),
            decreases v@.len() - i,
        {
            out.push(playbook_registration(&v[i]));
            i = i + 1;
        }
    }
    out
}

/// Whether `r` is what planning a match of `config` gives: its name (the
/// default where none is given), its dependency trees on its network, then
/// its component trees, and its managed playbooks registered once each, in
/// order, with whether each runs when its dependency starts; the first
/// refusal otherwise.
pub open spec fn match_plan_outcome(config: MatchConfig, r: Result<MatchPlan, String>) -> bool {
    match r {
        Ok(p) => {
            &&& p.name@ == text_or(config.match_name, default_match_name())
            &&& p.dependencies@.len() == dependency_nodes(config).len()
            &&& forall|i: int|
                0 <= i < p.dependencies@.len() ==> tree_outcome_with_probes(
                    #[trigger] dependency_nodes(config)[i],
                    0,
                    None,
                )
            &&& forall|i: int|
                0 <= i < p.dependencies@.len() ==> dependency_tree_plan_matches(
                    #[trigger] p.dependencies@[i],
                    dependency_nodes(config)[i],
                    opt_view(config.network),
                )
            &&& first_component_error(component_nodes(config), 0) is None
            &&& p.components@.len() == component_nodes(config).len()
            &&& forall|i: int|
                0 <= i < p.components@.len() ==> tree_plan_matches(
                    #[trigger] p.components@[i],
                    component_nodes(config)[i],
                )
            &&& p.playbooks@.len() == playbook_configs(config).len()
            &&& forall|i: int|
                0 <= i < p.playbooks@.len() ==> registration_matches(
                    #[trigger] p.playbooks@[i],
                    playbook_configs(config)[i],
                )
        },
        Err(m) => dependencies_refusal(dependency_nodes(config), m@) || ((forall|i: int|
            0 <= i < dependency_nodes(config).len() ==> tree_outcome_with_probes(
                #[trigger] dependency_nodes(config)[i],
                0,
                None,
            )) && first_component_error(component_nodes(config), 0) == Some(m@)),
    }
}

/// A planned match is named as configured, `arena-match` where no name is
/// given, and registers exactly the configured playbooks, one each.
pub proof fn lemma_planned_match_name(config: MatchConfig, p: MatchPlan)
    requires
        match_plan_outcome(config, Ok(p)),
    ensures
        config.match_name matches Some(n) ==> p.name@ == n@,
        config.match_name is None ==> p.name@ == "arena-match"@,
        p.playbooks@.len() == match config.playbooks {
            Some(v) => v@.len(),
            None => 0,
        },
{
}

/// What building a match of `config` involves, or the first refusal.
pub fn plan_match(config: &MatchConfig) -> (r: Result<MatchPlan, String>)
    ensures
        match_plan_outcome(*config, r),
{
    let network: Option<&str> = match &config.network {
        Some(n) => Some(n.as_str()),
        None => None,
    };
    assert(network_view(network) == opt_view(config.network));
    let name = string_or(&config.match_name, "arena-match");
    let dependencies = match build_dependencies(config, network) {
        Ok(d) => d,
        Err(m) => return Err(m),
    };
    let components = match build_components(config) {
        Ok(c) => c,
        Err(m) => return Err(m),
    };
    let playbooks = playbook_registrations(&config.playbooks);
    Ok(MatchPlan { name, dependencies, components, playbooks })
}

} // verus!
