//! Component trees: a component starts after its children, and nesting is
//! bounded. Planning a tree validates every executable component in it,
//! depth first, and refuses trees nested too deep.
use vstd::prelude::*;
use vstd::string::*;

use crate::component::containerized::ContainerizedComponentConfig;
use crate::component::executable::{build, build_error, ExecutableComponentConfig, ExecutableComponentPlan};
use crate::text::{decimal_string, decimal_text, string_of};

verus! {

/// Deepest level at which a child may stand below a top-level node.
pub const MAX_CHILDREN_DEPTH: usize = 32;

/// A component as configured.
#[derive(Debug)]
pub enum ComponentConfig {
    Exec(ExecutableComponentConfig),
    Containerized(ContainerizedComponentConfig),
}

/// A component with the components that start before it.
#[derive(Debug)]
pub struct ComponentNode {
    pub config: ComponentConfig,
    pub children: Vec<ComponentNode>,
}

/// What building one component involves.
#[derive(Debug)]
pub enum ComponentPlan {
    Exec(ExecutableComponentPlan),
    Containerized,
}

/// What building a tree of components involves.
#[derive(Debug)]
pub struct ComponentTreePlan {
    pub component: ComponentPlan,
    pub children: Vec<ComponentTreePlan>,
}

/// Where a tree is nested deeper than allowed.
pub open spec fn depth_message() -> Seq<char> {
    "component children nesting exceeds max depth of "@ + decimal_text(MAX_CHILDREN_DEPTH as int)
}

/// The error that building one component gives, if any.
pub open spec fn component_error(config: ComponentConfig) -> Option<Seq<char>> {
    match config {
        ComponentConfig::Exec(e) => build_error(e),
        ComponentConfig::Containerized(_) => None,
    }
}

/// The error that a node at `depth` gives, if any: too deep, else its own
/// component, else the first child that gives one.
pub open spec fn tree_error(node: ComponentNode, depth: int) -> Option<Seq<char>>
    decreases node, 0int,
{
    if depth >= MAX_CHILDREN_DEPTH {
        Some(depth_message())
    } else if component_error(node.config) is Some {
        component_error(node.config)
    } else {
        children_error(node.children@, depth + 1, 0)
    }
}

/// The error of the first child at position `i` or later that gives one.
pub open spec fn children_error(children: Seq<ComponentNode>, depth: int, i: int) -> Option<Seq<char>>
    decreases children, children.len() - i,
{
    if i < 0 || i >= children.len() {
        None
    } else if tree_error(children[i], depth) is Some {
        tree_error(children[i], depth)
    } else {
        children_error(children, depth, i + 1)
    }
}

/// Whether `plan` is what building one accepted component involves.
pub open spec fn component_plan_matches(plan: ComponentPlan, config: ComponentConfig) -> bool {
    match (plan, config) {
        (ComponentPlan::Exec(p), ComponentConfig::Exec(e)) => {
            &&& match e.build_tool {
                Some(b) => p.build_tool matches Some(t) && crate::component::executable::build_tool_matches(t, b),
                None => p.build_tool is None,
            }
            &&& match e.cpu_profile_output {
                Some(out) => p.cpu_profile matches Some(c) && c.output == out && c.auto_open
                    == e.cpu_profile_auto_open && c.hotspots == e.cpu_profile_hotspots,
                None => p.cpu_profile is None,
            }
            &&& p.readiness_checks@ == crate::component::executable::readiness_checks_of(e)
        },
        (ComponentPlan::Containerized, ComponentConfig::Containerized(_)) => true,
        _ => false,
    }
}

/// Whether `plan` mirrors an accepted tree: each node's plan matches its
/// component, with one child plan per child, in order.
pub open spec fn tree_plan_matches(plan: ComponentTreePlan, node: ComponentNode) -> bool
    decreases node, 0int,
{
    &&& component_plan_matches(plan.component, node.config)
    &&& plan.children@.len() == node.children@.len()
    &&& children_plans_match(plan.children@, node.children@, 0)
}

/// Whether the child plans from position `i` on mirror the children.
pub open spec fn children_plans_match(plans: Seq<ComponentTreePlan>, children: Seq<ComponentNode>, i: int) -> bool
    decreases children, children.len() - i,
{
    if i < 0 || i >= children.len() || i >= plans.len() {
        true
    } else {
        tree_plan_matches(plans[i], children[i]) && children_plans_match(plans, children, i + 1)
    }
}

/// The depth message.
fn depth_error_text() -> (r: String)
    ensures
        r@ == depth_message(),
{
    let mut m = string_of("component children nesting exceeds max depth of ");
    m.append(decimal_string(MAX_CHILDREN_DEPTH as i128).as_str());
    m
}

/// What building one component involves, or the message that refuses it.
pub fn build_component(config: &ComponentConfig) -> (r: Result<ComponentPlan, String>)
    ensures
        match r {
            Ok(p) => component_error(*config) is None && component_plan_matches(p, *config),
            Err(m) => component_error(*config) == Some(m@),
        },
{
    match config {
        ComponentConfig::Exec(e) => match build(e) {
            Ok(p) => Ok(ComponentPlan::Exec(p)),
            Err(m) => Err(m),
        },
        ComponentConfig::Containerized(_) => Ok(ComponentPlan::Containerized),
    }
}

/// Child plans that match a prefix keep matching when one more is added.
proof fn lemma_children_plans_push(
    plans: Seq<ComponentTreePlan>,
    p: ComponentTreePlan,
    children: Seq<ComponentNode>,
    i: int,
)
    requires
        0 <= i <= plans.len(),
        plans.len() < children.len(),
        children_plans_match(plans, children, i),
        tree_plan_matches(p, children[plans.len() as int]),
    ensures
        children_plans_match(plans.push(p), children, i),
    decreases plans.len() - i,
{
    if i < plans.len() {
        lemma_children_plans_push(plans, p, children, i + 1);
        assert(plans.push(p)[i] == plans[i]);
    } else {
        assert(plans.push(p)[i] == p);
        assert(children_plans_match(plans.push(p), children, i + 1));
    }
}

/// Children before position `i` give no error, so the first error from `0`
/// is the first error from `i`.
proof fn lemma_children_error_skip(children: Seq<ComponentNode>, depth: int, i: int)
    requires
        0 <= i <= children.len(),
        forall|j: int| 0 <= j < i ==> tree_error(#[trigger] children[j], depth) is None,
    ensures
        children_error(children, depth, 0) == children_error(children, depth, i),
    decreases i,
{
    if i > 0 {
        lemma_children_error_skip(children, depth, i - 1);
    }
}

/// What building a tree rooted at `node`, standing at `depth`, involves, or
/// the message of the first error, depth first.
pub fn build_component_node_at_depth(node: &ComponentNode, depth: usize) -> (r: Result<
    ComponentTreePlan,
    String,
>)
    ensures
        match r {
            Ok(p) => tree_error(*node, depth as int) is None && tree_plan_matches(p, *node),
            Err(m) => tree_error(*node, depth as int) == Some(m@),
        },
    decreases node,
{
    if depth >= MAX_CHILDREN_DEPTH {
        return Err(depth_error_text());
    }
    let component = match build_component(&node.config) {
        Ok(c) => c,
        Err(m) => return Err(m),
    };
    let ghost kids = node.children@;
    let mut plans: Vec<ComponentTreePlan> = Vec::new();
    let mut i: usize = 0;
    while i < node.children.len()
        invariant
            kids == node.children@,
            depth < MAX_CHILDREN_DEPTH,
            component_error(node.config) is None,
            component_plan_matches(component, node.config),
            i <= kids.len(),
            plans@.len() == i,
            forall|j: int| 0 <= j < i ==> tree_error(#[trigger] kids[j], depth + 1) is None,
            children_plans_match(plans@, kids, 0),
        decreases kids.len() - i,
    {
        assert(decreases_to!(*node => node.children));
        assert(decreases_to!(node.children => kids));
        assert(decreases_to!(kids => kids[i as int]));
        let child = &node.children[i];
        match build_component_node_at_depth(child, depth + 1) {
            Ok(p) => {
                proof {
                    lemma_children_plans_push(plans@, p, kids, 0);
                }
                plans.push(p);
            },
            Err(m) => {
                proof {
                    lemma_children_error_skip(kids, depth + 1, i as int);
                    assert(tree_error(kids[i as int], depth + 1) == Some(m@));
                    assert(children_error(kids, depth + 1, i as int) == Some(m@));
                    assert(tree_error(*node, depth as int) == children_error(kids, depth + 1, 0));
                }
                return Err(m);
            },
        }
        i = i + 1;
    }
    proof {
        lemma_children_error_skip(kids, depth + 1, kids.len() as int);
    }
    Ok(ComponentTreePlan { component, children: plans })
}

/// Where no child from position `i` on gives an error, none of them does.
proof fn lemma_children_error_none(children: Seq<ComponentNode>, depth: int, i: int)
    requires
        0 <= i,
        children_error(children, depth, i) is None,
    ensures
        forall|j: int| i <= j < children.len() ==> tree_error(#[trigger] children[j], depth) is None,
    decreases children.len() - i,
{
    if i < children.len() {
        lemma_children_error_none(children, depth, i + 1);
    }
}

/// A node is refused at depth 32 and below; an accepted node stands above
/// it, its own component is accepted, and every child is accepted one level
/// deeper. So every path of an accepted top-level tree has fewer than 32
/// levels of children.
pub proof fn lemma_accepted_tree_bounded(node: ComponentNode, depth: int)
    ensures
        depth >= MAX_CHILDREN_DEPTH ==> tree_error(node, depth) == Some(depth_message()),
        tree_error(node, depth) is None ==> {
            &&& depth < MAX_CHILDREN_DEPTH
            &&& component_error(node.config) is None
            &&& forall|j: int|
                0 <= j < node.children@.len() ==> tree_error(#[trigger] node.children@[j], depth + 1)
                    is None
        },
{
    if tree_error(node, depth) is None {
        lemma_children_error_none(node.children@, depth + 1, 0);
    }
}

/// What building a top-level tree involves.
pub fn build_component_node(node: &ComponentNode) -> (r: Result<ComponentTreePlan, String>)
    ensures
        match r {
            Ok(p) => tree_error(*node, 0) is None && tree_plan_matches(p, *node),
            Err(m) => tree_error(*node, 0) == Some(m@),
        },
{
    build_component_node_at_depth(node, 0)
}

} // verus!
