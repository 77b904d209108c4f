//! The dispatcher's decision for one event, and what the allowlists
//! guarantee of it.
use vstd::prelude::*;

use crate::logging::allowlist::{
    allows_delivery, always_admits, dispatcher_impl_allowlists_allows_delivery, needles_hit,
};
use crate::logging::payload::{accepts_target, host_dispatcher_accepts_metadata_target};
use crate::text::{is_prefix, string_views};

verus! {

/// Whether an event of `target` whose host payload is `payload` is handed
/// to the registered log targets: there must be a target, the event's
/// target must be forwarded, and the allowlists must admit it.
pub open spec fn forwards_event(
    has_targets: bool,
    target: Seq<char>,
    payload: Seq<char>,
    dependency_allowlist: Seq<Seq<char>>,
    component_allowlist: Seq<Seq<char>>,
) -> bool {
    has_targets && accepts_target(target) && allows_delivery(
        target,
        payload,
        dependency_allowlist,
        component_allowlist,
    )
}

/// Whether an event is handed to the registered log targets.
pub fn should_forward_event(
    has_targets: bool,
    metadata_target: &str,
    payload: &str,
    dependency_allowlist: &[String],
    component_allowlist: &[String],
) -> (r: bool)
    ensures
        r == forwards_event(
            has_targets,
            metadata_target@,
            payload@,
            string_views(dependency_allowlist@),
            string_views(component_allowlist@),
        ),
{
    if !has_targets {
        return false;
    }
    if !host_dispatcher_accepts_metadata_target(metadata_target) {
        return false;
    }
    dispatcher_impl_allowlists_allows_delivery(
        metadata_target,
        payload,
        dependency_allowlist,
        component_allowlist,
    )
}

/// Records of targets outside the `arena_` family, and of the targets that
/// are always admitted, are delivered whatever the allowlists hold.
pub proof fn lemma_unfiltered_targets_pass(
    target: Seq<char>,
    payload: Seq<char>,
    deps: Seq<Seq<char>>,
    comps: Seq<Seq<char>>,
)
    ensures
        (always_admits(target) || !is_prefix("arena_"@, target)) ==> allows_delivery(
            target,
            payload,
            deps,
            comps,
        ),
{
}

/// With both allowlists empty, no record of an `arena_` target that is not
/// always admitted is delivered.
pub proof fn lemma_empty_allowlists_block(target: Seq<char>, payload: Seq<char>)
    ensures
        (!always_admits(target) && is_prefix("arena_"@, target)) ==> !allows_delivery(
            target,
            payload,
            Seq::<Seq<char>>::empty(),
            Seq::<Seq<char>>::empty(),
        ),
{
}

/// Adding an entry to either allowlist never stops a record that was
/// delivered from being delivered.
pub proof fn lemma_allowlist_growth_keeps_delivery(
    target: Seq<char>,
    payload: Seq<char>,
    deps: Seq<Seq<char>>,
    comps: Seq<Seq<char>>,
    extra: Seq<char>,
)
    ensures
        allows_delivery(target, payload, deps, comps) ==> allows_delivery(
            target,
            payload,
            deps.push(extra),
            comps,
        ),
        allows_delivery(target, payload, deps, comps) ==> allows_delivery(
            target,
            payload,
            deps,
            comps.push(extra),
        ),
{
    assert forall|vals: Seq<Seq<char>>| needles_hit(deps, vals) implies needles_hit(deps.push(extra), vals) by {
        let (i, j) = choose|i: int, j: int|
            0 <= i < deps.len() && 0 <= j < vals.len() && #[trigger] crate::text::contains_seq(vals[j], deps[i]);
        assert(deps.push(extra)[i] == deps[i]);
        assert(crate::text::contains_seq(vals[j], deps.push(extra)[i]));
    }
    assert forall|vals: Seq<Seq<char>>| needles_hit(comps, vals) implies needles_hit(comps.push(extra), vals) by {
        let (i, j) = choose|i: int, j: int|
            0 <= i < comps.len() && 0 <= j < vals.len() && #[trigger] crate::text::contains_seq(vals[j], comps[i]);
        assert(comps.push(extra)[i] == comps[i]);
        assert(crate::text::contains_seq(vals[j], comps.push(extra)[i]));
    }
}

/// No event is forwarded while no log target is registered.
pub proof fn lemma_no_targets_no_forward(
    target: Seq<char>,
    payload: Seq<char>,
    deps: Seq<Seq<char>>,
    comps: Seq<Seq<char>>,
)
    ensures
        !forwards_event(false, target, payload, deps, comps),
{
}

} // verus!
