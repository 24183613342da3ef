//! Control of one light path: what follows each query of the scene, and the
//! bound on how deep a path can go.
//!
//! The radiance along a ray is found by following the ray from bounce to
//! bounce. The colours are worked out by the caller; this module decides when
//! the path goes on and when it ends, and shows that it always ends.

use vstd::prelude::*;

verus! {

/// Number of bounces after which a path is cut off.
pub const MAX_DEPTH: usize = 50;

/// What a path does once the scene has been queried for its current ray.
#[derive(Clone, Copy, Debug, PartialEq, Eq, Structural)]
pub enum Step {
    /// Nothing was hit: the path ends with the background colour.
    Background,
    /// Something was hit but the path has used up its bounces: it ends in
    /// black.
    Exhausted,
    /// Something was hit: its material is asked to scatter the ray. If it
    /// does, the path goes on with the scattered ray at depth `next`; if it
    /// absorbs the ray, the path ends in black.
    Scatter { next: usize },
}

/// What becomes of the ray of a path at one depth.
#[derive(Clone, Copy, Debug, PartialEq, Eq, Structural)]
pub enum Fate {
    /// It hits nothing.
    Escapes,
    /// It hits an object whose material absorbs it.
    Absorbed,
    /// It hits an object whose material scatters it.
    Scattered,
}

/// The step taken at `depth`, given whether the scene was hit.
pub open spec fn step_at(hit: bool, depth: nat) -> Step {
    if !hit {
        Step::Background
    } else if depth < MAX_DEPTH {
        Step::Scatter { next: (depth + 1) as usize }
    } else {
        Step::Exhausted
    }
}

/// Decides what a path at `depth` does after the scene was queried: `hit`
/// says whether the ray met an object.
pub fn step(hit: bool, depth: usize) -> (s: Step)
    ensures
        s == step_at(hit, depth as nat),
        s matches Step::Scatter { next } ==> next == depth + 1 && next <= MAX_DEPTH,
{
    if !hit {
        Step::Background
    } else if depth < MAX_DEPTH {
        Step::Scatter { next: depth + 1 }
    } else {
        Step::Exhausted
    }
}

/// Whether a path at `depth` goes on to `depth + 1` when its ray meets `fate`.
pub open spec fn goes_on(fate: Fate, depth: nat) -> bool {
    step_at(!(fate is Escapes), depth) is Scatter && fate is Scattered
}

/// Number of rays that follow the one at `depth` on a path whose ray at each
/// depth `d` meets `fates(d)`.
pub open spec fn bounces(fates: spec_fn(nat) -> Fate, depth: nat) -> nat
    decreases MAX_DEPTH - depth,
{
    if depth < MAX_DEPTH && goes_on(fates(depth), depth) {
        1 + bounces(fates, depth + 1)
    } else {
        0
    }
}

/// A path ends whatever its rays meet: from `depth` it goes on at most
/// `MAX_DEPTH - depth` times, and not at all from `MAX_DEPTH` or deeper.
pub proof fn lemma_path_ends(fates: spec_fn(nat) -> Fate, depth: nat)
    ensures
        depth <= MAX_DEPTH ==> bounces(fates, depth) <= MAX_DEPTH - depth,
        depth >= MAX_DEPTH ==> bounces(fates, depth) == 0,
        bounces(fates, depth) <= MAX_DEPTH,
    decreases MAX_DEPTH - depth,
{
    if depth < MAX_DEPTH && goes_on(fates(depth), depth) {
        lemma_path_ends(fates, depth + 1);
    }
}

/// A path goes on exactly when `step` says to scatter and the material does.
pub proof fn lemma_goes_on(fate: Fate, depth: nat)
    ensures
        goes_on(fate, depth) <==> (fate is Scattered && depth < MAX_DEPTH),
{
}

} // verus!
