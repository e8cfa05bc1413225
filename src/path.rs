use vstd::prelude::*;

use crate::traced::TracedPath;

verus! {

/// Depth bound of a light path: the camera ray is traced at depth 0, each
/// scattered ray one deeper, and a ray that would be traced deeper than this
/// contributes black instead.
pub const MAX_DEPTH: u32 = 50;

/// What happened to one traced ray.
#[derive(Clone, Copy, Debug, PartialEq, Eq, Structural)]
pub enum Bounce {
    /// The ray hit nothing and sees the sky.
    Escaped,
    /// The ray hit a surface whose material absorbed it.
    Absorbed,
    /// The ray hit a surface and a new ray was scattered from it.
    Scattered,
}

/// How the radiance of a finished path is closed.
#[derive(Clone, Copy, Debug, PartialEq, Eq, Structural)]
pub enum PathEnd {
    /// The last ray escaped: the path carries the sky gradient.
    Sky,
    /// A material absorbed the path: black.
    Absorbed,
    /// The depth bound cut the path: black.
    Truncated,
}

/// The state of a path after a traced ray.
#[derive(Clone, Copy, Debug, PartialEq, Eq, Structural)]
pub enum Step {
    /// Trace the scattered ray at this depth.
    Trace { depth: u32 },
    /// The path is done.
    Finish { end: PathEnd },
}

/// The decision taken after the ray at `depth` did `b`.
pub open spec fn next_step(depth: u32, b: Bounce) -> Step {
    match b {
        Bounce::Escaped => Step::Finish { end: PathEnd::Sky },
        Bounce::Absorbed => Step::Finish { end: PathEnd::Absorbed },
        Bounce::Scattered => if depth < MAX_DEPTH {
            Step::Trace { depth: (depth + 1) as u32 }
        } else {
            Step::Finish { end: PathEnd::Truncated }
        },
    }
}

/// The state of a path whose traced rays, from the camera ray on, did
/// `bounces` in turn; a finished path ignores what would follow.
pub open spec fn walk(bounces: Seq<Bounce>) -> Step
    decreases bounces.len(),
{
    if bounces.len() == 0 {
        Step::Trace { depth: 0 }
    } else {
        match walk(bounces.drop_last()) {
            Step::Trace { depth } => next_step(depth, bounces.last()),
            Step::Finish { end } => Step::Finish { end },
        }
    }
}

/// Decides what follows the ray traced at `depth`.
pub fn advance(depth: u32, b: Bounce) -> (r: Step)
    requires
        depth <= MAX_DEPTH,
    ensures
        r == next_step(depth, b),
{
    match b {
        Bounce::Escaped => Step::Finish { end: PathEnd::Sky },
        Bounce::Absorbed => Step::Finish { end: PathEnd::Absorbed },
        Bounce::Scattered => if depth < MAX_DEPTH {
            Step::Trace { depth: depth + 1 }
        } else {
            Step::Finish { end: PathEnd::Truncated }
        },
    }
}

/// A path that is still going after `bounces` has traced exactly one ray
/// per bounce, each of which scattered, and stands within the depth bound.
pub proof fn lemma_walk_trace_depth(bounces: Seq<Bounce>)
    ensures
        walk(bounces) is Trace ==> {
            &&& walk(bounces)->depth == bounces.len()
            &&& walk(bounces)->depth <= MAX_DEPTH
            &&& forall|i: int| 0 <= i < bounces.len() ==> bounces[i] == Bounce::Scattered
        },
    decreases bounces.len(),
{
    if bounces.len() > 0 {
        let prefix = bounces.drop_last();
        lemma_walk_trace_depth(prefix);
        if walk(bounces) is Trace {
            assert forall|i: int| 0 <= i < bounces.len() implies bounces[i]
                == Bounce::Scattered by {
                if i < bounces.len() - 1 {
                    assert(bounces[i] == prefix[i]);
                }
            }
        }
    }
}

/// Every path finishes within the depth bound, whatever the scene does: after
/// at most `MAX_DEPTH + 1` traced rays it has ended, even where every ray
/// scatters.
pub proof fn lemma_path_terminates(bounces: Seq<Bounce>)
    requires
        bounces.len() >= MAX_DEPTH + 1,
    ensures
        walk(bounces.take(MAX_DEPTH + 1)) is Finish,
{
    lemma_walk_trace_depth(bounces.take(MAX_DEPTH + 1));
}

/// A path on which every traced ray scatters is cut off by the depth bound
/// after `MAX_DEPTH + 1` rays.
pub proof fn lemma_scattering_path_truncated(bounces: Seq<Bounce>)
    requires
        bounces.len() == MAX_DEPTH + 1,
        forall|i: int| 0 <= i < bounces.len() ==> bounces[i] == Bounce::Scattered,
    ensures
        walk(bounces) == (Step::Finish { end: PathEnd::Truncated }),
{
    let prefix = bounces.drop_last();
    lemma_walk_trace_depth(prefix);
    lemma_walk_still_tracing(prefix);
}

/// A prefix of scattering rays within the depth bound leaves the path going.
proof fn lemma_walk_still_tracing(bounces: Seq<Bounce>)
    requires
        bounces.len() <= MAX_DEPTH,
        forall|i: int| 0 <= i < bounces.len() ==> bounces[i] == Bounce::Scattered,
    ensures
        walk(bounces) == (Step::Trace { depth: bounces.len() as u32 }),
    decreases bounces.len(),
{
    if bounces.len() > 0 {
        let prefix = bounces.drop_last();
        assert forall|i: int| 0 <= i < prefix.len() implies prefix[i] == Bounce::Scattered by {
            assert(prefix[i] == bounces[i]);
        }
        lemma_walk_still_tracing(prefix);
    }
}

/// The scene-side work of a path: traces the path's current ray, which the
/// caller's own state holds, and reports what that ray did.
pub trait RayTracer {
    /// Traces the current ray, which stands at `depth`; on a scatter, the
    /// scattered ray becomes the current one.
    fn trace(&mut self, depth: u32) -> Bounce;
}

/// Traces one light path to its end: asks `tracer` for one ray after
/// another, deepest last, and stops on an escape, an absorption or the depth
/// bound. Returns how the path ended and the depth of its last traced ray;
/// the rays traced are exactly those that `tracer` records meanwhile, at most
/// `MAX_DEPTH + 1` of them.
pub fn trace_path<T: RayTracer>(tracer: &mut TracedPath<T>) -> (r: (PathEnd, u32))
    ensures
        r.1 <= MAX_DEPTH,
        r.0 == PathEnd::Truncated ==> r.1 == MAX_DEPTH,
        final(tracer).log().len() == old(tracer).log().len() + r.1 + 1,
        walk(final(tracer).log().skip(old(tracer).log().len() as int)) == (Step::Finish {
            end: r.0,
        }),
{
    let mut depth: u32 = 0;
    let ghost mut seen: Seq<Bounce> = Seq::empty();
    loop
        invariant
            depth <= MAX_DEPTH,
            seen.len() == depth,
            walk(seen) == (Step::Trace { depth }),
            tracer.log() == old(tracer).log() + seen,
        decreases MAX_DEPTH - depth,
    {
        let b = tracer.trace(depth);
        let ghost before = seen;
        proof {
            seen = seen.push(b);
            assert(seen.drop_last() =~= before);
            assert(tracer.log() =~= old(tracer).log() + seen);
        }
        match advance(depth, b) {
            Step::Trace { depth: next } => {
                depth = next;
            },
            Step::Finish { end } => {
                assert(tracer.log().skip(old(tracer).log().len() as int) =~= seen);
                return (end, depth);
            },
        }
    }
}

} // verus!
