//! What a surface decides about a ray that hits it: whether the ray goes on
//! or is absorbed, and, for a transparent surface, from which side the ray
//! comes and whether it is reflected or refracted. All numbers are given by
//! their order keys (see `crate::param`).

use vstd::prelude::*;
use crate::param::{below, is_below, is_positive, positive};

verus! {

/// The kinds of surface.
#[derive(Clone, Copy, Debug, PartialEq, Eq, Structural)]
pub enum MaterialKind {
    /// A diffuse surface, which scatters into the half-space of its normal.
    Lambertian,
    /// A mirror, more or less polished.
    Metal,
    /// A transparent surface, which reflects or refracts.
    Dielectric,
}

/// The side from which a ray meets a transparent surface.
#[derive(Clone, Copy, Debug, PartialEq, Eq, Structural)]
pub enum Crossing {
    /// From outside: the ray runs against the normal.
    Entering,
    /// From inside: the ray runs along the normal.
    Exiting,
}

/// The two ways a ray leaves a transparent surface.
#[derive(Clone, Copy, Debug, PartialEq, Eq, Structural)]
pub enum Bend {
    /// Mirrored about the normal.
    Reflect,
    /// Passed through the surface, bent by Snell's law.
    Refract,
}

/// Whether a surface of kind `kind` scatters a ray rather than absorbing it.
/// `facing` is the product of the scattered direction with the normal. Only a
/// metal absorbs, and only a ray that does not point away from it.
pub open spec fn scatters(kind: MaterialKind, facing: Option<u64>) -> bool {
    kind is Metal ==> positive(facing)
}

/// Decides whether a ray scattered by a surface of kind `kind` goes on, where
/// `facing` is the product of the scattered direction with the normal.
pub fn survives(kind: MaterialKind, facing: Option<u64>) -> (r: bool)
    ensures
        r == scatters(kind, facing),
{
    match kind {
        MaterialKind::Metal => is_positive(facing),
        _ => true,
    }
}

/// Decides from which side a ray meets a transparent surface, where `facing`
/// is the product of the incoming direction with the normal: from inside
/// where it is positive, else from outside.
pub fn crossing(facing: Option<u64>) -> (c: Crossing)
    ensures
        c == Crossing::Exiting <==> positive(facing),
        c == Crossing::Entering <==> !positive(facing),
{
    if is_positive(facing) {
        Crossing::Exiting
    } else {
        Crossing::Entering
    }
}

/// Decides how a ray leaves a transparent surface. `discriminant` is that of
/// Snell's law: where it is not positive the reflection is total. Else the
/// ray is reflected if the number drawn for it, `draw`, lies below the
/// surface's `reflectance`, and refracted if not.
pub fn bend(discriminant: Option<u64>, draw: Option<u64>, reflectance: Option<u64>) -> (b: Bend)
    ensures
        b == Bend::Refract <==> positive(discriminant) && !below(draw, reflectance),
        b == Bend::Reflect <==> !positive(discriminant) || below(draw, reflectance),
{
    if is_positive(discriminant) && !is_below(draw, reflectance) {
        Bend::Refract
    } else {
        Bend::Reflect
    }
}

/// A diffuse surface and a transparent one scatter every ray.
pub proof fn lemma_always_scatters(kind: MaterialKind, facing: Option<u64>)
    requires
        kind is Lambertian || kind is Dielectric,
    ensures
        scatters(kind, facing),
{
}

} // verus!
