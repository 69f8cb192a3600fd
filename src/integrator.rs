//! The termination policy of the path integrator.
//!
//! A path starts with a bounce budget (`depth`). Before each scene query the
//! budget is checked; after the query the integrator learns whether the ray
//! escaped, was absorbed, or was scattered, and decides how the path goes on.
//! The colour arithmetic itself (attenuation products, the sky gradient) is
//! done by the caller on whatever number type it renders with.

use vstd::prelude::*;

verus! {

/// What the scene and the hit material made of one ray.
#[derive(Debug, Clone, Copy, PartialEq, Eq, Structural)]
pub enum PathEvent {
    /// No surface lies along the ray.
    Missed,
    /// The nearest surface's material absorbed the ray.
    Absorbed,
    /// The nearest surface's material sent out a new ray.
    Scattered,
}

/// How the integrator continues after one scene query.
#[derive(Debug, Clone, Copy, PartialEq, Eq, Structural)]
pub enum PathStep {
    /// The path ends and gathers no light.
    Black,
    /// The path escaped: its colour is the sky gradient of its direction.
    Sky,
    /// Trace the scattered ray with the given budget and tint the result by
    /// the material's attenuation.
    Bounce { depth: i16 },
}

/// Whether a path with this budget still queries the scene.
pub open spec fn may_trace_spec(depth: int) -> bool {
    depth > 0
}

/// The step that follows an event, for a path whose budget allowed the query.
pub open spec fn step_spec(depth: int, event: PathEvent) -> PathStep
    recommends
        may_trace_spec(depth),
{
    match event {
        PathEvent::Missed => PathStep::Sky,
        PathEvent::Absorbed => PathStep::Black,
        PathEvent::Scattered => PathStep::Bounce { depth: (depth - 1) as i16 },
    }
}

/// Returns whether a path with `depth` bounces left queries the scene at all.
/// When it does not, the path is black.
pub fn may_trace(depth: i16) -> (r: bool)
    ensures
        r == may_trace_spec(depth as int),
{
    depth > 0
}

/// Decides how a path goes on after its scene query and material scatter.
pub fn next_step(depth: i16, event: PathEvent) -> (r: PathStep)
    requires
        may_trace_spec(depth as int),
    ensures
        r == step_spec(depth as int, event),
        r is Bounce ==> r->depth == depth - 1,
{
    match event {
        PathEvent::Missed => PathStep::Sky,
        PathEvent::Absorbed => PathStep::Black,
        PathEvent::Scattered => PathStep::Bounce { depth: depth - 1 },
    }
}

/// How a path that starts with `depth` ends when the scene and materials
/// produce `events` in turn: `None` while the events run out before it ends.
pub open spec fn path_end(depth: i16, events: Seq<PathEvent>) -> Option<PathStep>
    decreases events.len(),
{
    if !may_trace_spec(depth as int) {
        Some(PathStep::Black)
    } else if events.len() == 0 {
        None
    } else {
        match step_spec(depth as int, events[0]) {
            PathStep::Bounce { depth: d } => path_end(d, events.drop_first()),
            s => Some(s),
        }
    }
}

/// A path whose budget is spent is black, whatever the ray and the scene.
pub proof fn lemma_spent_budget_is_black(depth: i16, events: Seq<PathEvent>)
    requires
        depth <= 0,
    ensures
        path_end(depth, events) == Some(PathStep::Black),
{
}

/// A path with budget left whose first ray meets nothing shows the sky.
pub proof fn lemma_first_miss_is_sky(depth: i16, events: Seq<PathEvent>)
    requires
        depth > 0,
        events.len() > 0,
        events[0] == PathEvent::Missed,
    ensures
        path_end(depth, events) == Some(PathStep::Sky),
{
}

/// Every path ends after at most `depth` scene queries: the bounce budget
/// bounds the recursion, whatever the scene does.
pub proof fn lemma_path_ends_within_budget(depth: i16, events: Seq<PathEvent>)
    requires
        depth as int <= events.len(),
    ensures
        path_end(depth, events) is Some,
    decreases events.len(),
{
    if depth > 0 {
        lemma_path_ends_within_budget((depth - 1) as i16, events.drop_first());
    }
}

/// A ray trapped between surfaces that always scatter it (two facing
/// mirrors) ends black once the budget is spent.
pub proof fn lemma_endless_scattering_is_black(depth: i16, events: Seq<PathEvent>)
    requires
        depth as int <= events.len(),
        forall|i: int| 0 <= i < events.len() ==> events[i] == PathEvent::Scattered,
    ensures
        path_end(depth, events) == Some(PathStep::Black),
    decreases events.len(),
{
    if depth > 0 {
        let rest = events.drop_first();
        assert forall|i: int| 0 <= i < rest.len() implies rest[i] == PathEvent::Scattered by {
            assert(rest[i] == events[i + 1]);
        }
        lemma_endless_scattering_is_black((depth - 1) as i16, rest);
    }
}

} // verus!
