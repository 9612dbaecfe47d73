use vstd::prelude::*;

verus! {

/// What the path tracer does next with a ray, once it knows whether the ray
/// hit the scene and whether the surface scattered it.
#[derive(Clone, Copy, Debug, PartialEq, Eq, Structural)]
pub enum PathStep {
    /// The path ends without light: the bounce budget is spent, or the ray was absorbed.
    Black,
    /// The ray left the scene: the path ends with the sky colour.
    Sky,
    /// The scattered ray is traced on with the smaller bounce budget `depth`.
    Bounce { depth: u32 },
}

/// The decision of the integrator for a ray traced with `depth` bounces left.
pub open spec fn step_of(depth: u32, hit: bool, scattered: bool) -> PathStep {
    if depth == 0 {
        PathStep::Black
    } else if !hit {
        PathStep::Sky
    } else if !scattered {
        PathStep::Black
    } else {
        PathStep::Bounce { depth: (depth - 1) as u32 }
    }
}

/// Decides what follows a ray traced with `depth` bounces left, given whether
/// it hit the scene and whether the hit surface scattered it.
pub fn path_step(depth: u32, hit: bool, scattered: bool) -> (r: PathStep)
    ensures
        r == step_of(depth, hit, scattered),
        depth == 0 ==> r == PathStep::Black,
        depth > 0 && !hit ==> r == PathStep::Sky,
        depth > 0 && hit && !scattered ==> r == PathStep::Black,
        depth > 0 && hit && scattered ==> r == (PathStep::Bounce { depth: (depth - 1) as u32 }),
{
    if depth == 0 {
        PathStep::Black
    } else if !hit {
        PathStep::Sky
    } else if !scattered {
        PathStep::Black
    } else {
        PathStep::Bounce { depth: depth - 1 }
    }
}

/// The number of bounces of a path started with `depth` bounces left, where
/// `events[k]` tells whether the `k`-th ray hit the scene and was scattered.
/// A path that has not ended when the events run out counts what it did so far.
pub open spec fn bounces(depth: u32, events: Seq<(bool, bool)>) -> nat
    decreases events.len(),
{
    if events.len() == 0 {
        0
    } else {
        match step_of(depth, events[0].0, events[0].1) {
            PathStep::Bounce { depth: next } => 1 + bounces(next, events.drop_first()),
            _ => 0,
        }
    }
}

/// A path never bounces more often than the depth it was started with,
/// whatever the scene and the surfaces do.
pub proof fn lemma_depth_bounds_bounces(depth: u32, events: Seq<(bool, bool)>)
    ensures
        bounces(depth, events) <= depth,
    decreases events.len(),
{
    if events.len() > 0 && depth > 0 {
        lemma_depth_bounds_bounces((depth - 1) as u32, events.drop_first());
    }
}

} // verus!
