//! Depth of nested calls across the C boundary on the current thread.
//! The count itself lives in a thread-local beside the entry points; these
//! functions compute its transitions.
use vstd::prelude::*;

verus! {

/// The depth after entering one more boundary call (saturating at `u32::MAX`).
pub open spec fn depth_after_enter(depth: u32) -> u32 {
    if depth < u32::MAX {
        (depth + 1) as u32
    } else {
        u32::MAX
    }
}

/// The depth after leaving one boundary call (saturating at 0).
pub open spec fn depth_after_leave(depth: u32) -> u32 {
    if depth > 0 {
        (depth - 1) as u32
    } else {
        0
    }
}

/// Whether a thread at boundary depth `depth` is inside a boundary call.
pub fn inside_boundary(depth: u32) -> (r: bool)
    ensures
        r == (depth > 0),
{
    depth > 0
}

/// The entry and exit of one call across the boundary.
pub struct BoundaryScope;

impl BoundaryScope {
    /// The depth after entering a boundary call at depth `depth`.
    pub fn enter(depth: u32) -> (r: u32)
        ensures
            r == depth_after_enter(depth),
    {
        depth.saturating_add(1)
    }

    /// The depth after leaving a boundary call at depth `depth`.
    pub fn leave(depth: u32) -> (r: u32)
        ensures
            r == depth_after_leave(depth),
    {
        depth.saturating_sub(1)
    }
}

/// Inside a boundary call the thread is inside the boundary, and leaving the
/// call gives back the depth it was entered at (below the saturation point).
pub proof fn lemma_scope_restores_depth(depth: u32)
    ensures
        depth_after_enter(depth) > 0,
        depth < u32::MAX ==> depth_after_leave(depth_after_enter(depth)) == depth,
{
}

/// Leaving more calls than were entered never goes below depth 0, and at
/// depth 0 the thread is outside.
pub proof fn lemma_leave_at_outside(depth: u32)
    ensures
        depth == 0 ==> depth_after_leave(depth) == 0,
        depth_after_leave(depth) <= depth,
{
}

/// The depth after a run of boundary events starting at `depth`, in order:
/// `true` enters a call, `false` leaves one.
pub open spec fn depth_after(depth: u32, events: Seq<bool>) -> u32
    decreases events.len(),
{
    if events.len() == 0 {
        depth
    } else {
        let before = depth_after(depth, events.drop_last());
        if events.last() {
            depth_after_enter(before)
        } else {
            depth_after_leave(before)
        }
    }
}

/// How many more calls the events enter than they leave.
pub open spec fn balance(events: Seq<bool>) -> int
    decreases events.len(),
{
    if events.len() == 0 {
        0
    } else {
        balance(events.drop_last()) + if events.last() {
            1int
        } else {
            -1int
        }
    }
}

/// Whether the events are those of calls that nest: no prefix leaves more
/// calls than it entered.
pub open spec fn well_nested(events: Seq<bool>) -> bool {
    forall|k: int| 0 <= k <= events.len() ==> balance(#[trigger] events.take(k)) >= 0
}

/// No run of events enters more calls than it has events.
proof fn lemma_balance_bounded(events: Seq<bool>)
    ensures
        balance(events) <= events.len(),
    decreases events.len(),
{
    if events.len() > 0 {
        lemma_balance_bounded(events.drop_last());
    }
}

/// Boundary calls nest as a count: on a thread that starts outside, after
/// any run of nested calls entered and left (fewer events than `u32::MAX`),
/// the depth is the number of calls entered and not yet left. So the thread
/// is inside the boundary exactly while some call is still executing (also
/// after nested calls inside it have returned), and outside once every call
/// it entered has returned.
pub proof fn lemma_nested_depth(events: Seq<bool>)
    requires
        well_nested(events),
        events.len() < u32::MAX,
    ensures
        depth_after(0, events) == balance(events),
        (depth_after(0, events) > 0) == (balance(events) > 0),
        balance(events) == 0 ==> depth_after(0, events) == 0,
    decreases events.len(),
{
    if events.len() > 0 {
        let init = events.drop_last();
        assert forall|k: int| 0 <= k <= init.len() implies balance(#[trigger] init.take(k)) >= 0 by {
            assert(init.take(k) =~= events.take(k));
        }
        lemma_nested_depth(init);
        lemma_balance_bounded(init);
        assert(events.take(events.len() as int) =~= events);
    }
}

} // verus!
