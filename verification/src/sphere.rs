//! Which root of the ray-sphere quadratic counts as the hit.
//!
//! A ray meets a sphere where a quadratic in the ray parameter vanishes. With
//! a negative discriminant there is no root and the ray misses. Otherwise the
//! quadratic has a nearer and a farther root (they coincide where the ray
//! touches the sphere), and the hit is the first of the two, nearer first,
//! that lies strictly inside the interval the caller asks for. All numbers
//! are given by their order keys (see `crate::param`).

use vstd::prelude::*;
use crate::param::{inside, is_inside, is_non_negative, non_negative};

verus! {

/// One of the two roots of the quadratic.
#[derive(Clone, Copy, Debug, PartialEq, Eq, Structural)]
pub enum Root {
    /// The root with the smaller parameter.
    Near,
    /// The root with the larger parameter.
    Far,
}

/// What is known of one sphere's quadratic for the ray at hand.
#[derive(Clone, Copy, Debug, PartialEq, Eq, Structural)]
pub struct Quadratic {
    /// The discriminant.
    pub discriminant: Option<u64>,
    /// The root with the smaller parameter; read only where the discriminant
    /// is not negative.
    pub near: Option<u64>,
    /// The root with the larger parameter; read only where the discriminant
    /// is not negative.
    pub far: Option<u64>,
}

impl Quadratic {
    /// The parameter of a root.
    pub open spec fn param(self, root: Root) -> Option<u64> {
        match root {
            Root::Near => self.near,
            Root::Far => self.far,
        }
    }

    /// The root that counts as the hit between `t_min` and `t_max`: none with
    /// a negative discriminant; else the nearer one if it lies inside the
    /// interval; else the farther one if that does.
    pub open spec fn selected(self, t_min: Option<u64>, t_max: Option<u64>) -> Option<Root> {
        if !non_negative(self.discriminant) {
            None
        } else if inside(self.near, t_min, t_max) {
            Some(Root::Near)
        } else if inside(self.far, t_min, t_max) {
            Some(Root::Far)
        } else {
            None
        }
    }

    /// The parameter at which the sphere is hit between `t_min` and `t_max`,
    /// if it is.
    pub open spec fn reported(self, t_min: Option<u64>, t_max: Option<u64>) -> Option<u64> {
        match self.selected(t_min, t_max) {
            Some(root) => self.param(root),
            None => None,
        }
    }

    /// Picks the root at which the ray hits the sphere between `t_min` and
    /// `t_max`, if it does.
    pub fn select_root(&self, t_min: Option<u64>, t_max: Option<u64>) -> (root: Option<Root>)
        ensures
            root == self.selected(t_min, t_max),
    {
        if !is_non_negative(self.discriminant) {
            None
        } else if is_inside(self.near, t_min, t_max) {
            Some(Root::Near)
        } else if is_inside(self.far, t_min, t_max) {
            Some(Root::Far)
        } else {
            None
        }
    }
}

/// A ray misses exactly when the discriminant is negative or neither root
/// lies inside the interval.
pub proof fn lemma_miss(q: Quadratic, t_min: Option<u64>, t_max: Option<u64>)
    ensures
        q.selected(t_min, t_max) is None <==> !non_negative(q.discriminant) || (!inside(
            q.near,
            t_min,
            t_max,
        ) && !inside(q.far, t_min, t_max)),
{
}

/// Where a quadratic with roots has one inside the interval, a ray misses
/// exactly when the discriminant is negative.
pub proof fn lemma_miss_without_roots(q: Quadratic, t_min: Option<u64>, t_max: Option<u64>)
    requires
        non_negative(q.discriminant) ==> inside(q.near, t_min, t_max) || inside(
            q.far,
            t_min,
            t_max,
        ),
    ensures
        q.selected(t_min, t_max) is None <==> !non_negative(q.discriminant),
{
}

/// The hit lies strictly inside the interval, and where the roots are in
/// order it is the smallest root that does.
pub proof fn lemma_root_is_first(q: Quadratic, t_min: Option<u64>, t_max: Option<u64>)
    requires
        q.near is Some && q.far is Some ==> q.near.unwrap() <= q.far.unwrap(),
        q.selected(t_min, t_max) is Some,
    ensures
        ({
            let t = q.reported(t_min, t_max);
            &&& inside(t, t_min, t_max)
            &&& inside(q.near, t_min, t_max) ==> t.unwrap() <= q.near.unwrap()
            &&& inside(q.far, t_min, t_max) ==> t.unwrap() <= q.far.unwrap()
        }),
{
}

} // verus!
