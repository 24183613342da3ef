//! The scene as an insertion-ordered list of objects, and the choice of the
//! nearest among the hits that its objects report for one ray.
//!
//! A hit is reported by its ray parameter, given as an order key (see
//! `crate::param`): a smaller key is a hit closer to the ray's origin.

use vstd::prelude::*;
use crate::param::inside;
use crate::sphere::Quadratic;

verus! {

/// A scene: the objects a ray is tested against, in the order they were added.
pub struct World<T> {
    obj_list: Vec<T>,
}

impl<T> View for World<T> {
    type V = Seq<T>;

    closed spec fn view(&self) -> Seq<T> {
        self.obj_list@
    }
}

impl<T> World<T> {
    /// The empty scene.
    pub fn new() -> (world: World<T>)
        ensures
            world@ == Seq::<T>::empty(),
    {
        World { obj_list: Vec::new() }
    }

    /// Appends `obj` to the scene; the objects already there keep their places.
    pub fn add(&mut self, obj: T)
        ensures
            final(self)@ == old(self)@.push(obj),
    {
        self.obj_list.push(obj);
    }

    /// The number of objects in the scene.
    pub fn len(&self) -> (n: usize)
        ensures
            n == self@.len(),
    {
        self.obj_list.len()
    }

    /// The object added as number `i`, counting from zero.
    pub fn get(&self, i: usize) -> (obj: &T)
        requires
            i < self@.len(),
        ensures
            *obj == self@[i as int],
    {
        &self.obj_list[i]
    }
}

impl<T> Default for World<T> {
    fn default() -> (world: World<T>)
        ensures
            world@ == Seq::<T>::empty(),
    {
        World::new()
    }
}

/// Whether object `i` reports a hit below `limit`.
pub open spec fn accepted(hits: Seq<Option<u64>>, limit: u64, i: int) -> bool {
    0 <= i < hits.len() && hits[i] is Some && hits[i].unwrap() < limit
}

/// Whether object `i` is the one a scan in insertion order keeps: its hit is
/// accepted, no accepted hit is closer, and no earlier object is as close.
pub open spec fn is_nearest(hits: Seq<Option<u64>>, limit: u64, i: int) -> bool {
    &&& accepted(hits, limit, i)
    &&& forall|j: int| #[trigger]
        accepted(hits, limit, j) ==> hits[i].unwrap() <= hits[j].unwrap()
    &&& forall|j: int| 0 <= j < i && #[trigger] accepted(hits, limit, j) ==> hits[i].unwrap()
        < hits[j].unwrap()
}

/// Whether `best` is what a scan of `hits` under `limit` returns: the
/// nearest object, or nothing where no hit is accepted.
pub open spec fn scan_result(hits: Seq<Option<u64>>, limit: u64, best: Option<usize>) -> bool {
    match best {
        Some(i) => is_nearest(hits, limit, i as int),
        None => forall|j: int| !accepted(hits, limit, j),
    }
}

/// Scans the reported hits in order and keeps the closest one below `limit`,
/// lowering the bound to each hit it keeps. `hits[i]` is `None` where object
/// `i` is missed.
pub fn nearest(hits: &Vec<Option<u64>>, limit: u64) -> (best: Option<usize>)
    ensures
        scan_result(hits@, limit, best),
{
    let mut best: Option<usize> = None;
    let mut closest: u64 = limit;
    let mut i: usize = 0;
    while i < hits.len()
        invariant
            i <= hits.len(),
            closest <= limit,
            match best {
                Some(b) => b < i && hits@[b as int] == Some(closest) && is_nearest(
                    hits@.take(i as int),
                    limit,
                    b as int,
                ),
                None => closest == limit && forall|j: int| !accepted(hits@.take(i as int), limit, j),
            },
        decreases hits.len() - i,
    {
        let ghost before = hits@.take(i as int);
        let ghost after = hits@.take(i + 1);
        assert(forall|j: int| 0 <= j < i ==> after[j] == before[j]);
        assert(after[i as int] == hits@[i as int]);
        assert(forall|j: int|
            accepted(after, limit, j) ==> (accepted(before, limit, j) || j == i));
        assert(forall|j: int| accepted(before, limit, j) ==> accepted(after, limit, j));
        match hits[i] {
            Some(t) => {
                if t < closest {
                    closest = t;
                    best = Some(i);
                }
            },
            None => {},
        }
        i = i + 1;
    }
    assert(hits@.take(i as int) == hits@);
    best
}

/// The outcome of a scan is fixed by the reported hits and the limit: two
/// outcomes of the same scan are equal.
pub proof fn lemma_scan_unique(
    hits: Seq<Option<u64>>,
    limit: u64,
    first: Option<usize>,
    second: Option<usize>,
)
    requires
        scan_result(hits, limit, first),
        scan_result(hits, limit, second),
    ensures
        first == second,
{
    match (first, second) {
        (Some(i), Some(j)) => {
            assert(accepted(hits, limit, i as int));
            assert(accepted(hits, limit, j as int));
        },
        (Some(i), None) => {
            assert(accepted(hits, limit, i as int));
        },
        (None, Some(j)) => {
            assert(accepted(hits, limit, j as int));
        },
        (None, None) => {},
    }
}

/// Where every object was tested under the bound `limit`, so that each hit it
/// reports lies below it, a scan returns nothing exactly when no object is
/// hit, and else an object whose hit is the minimum over all hits.
pub proof fn lemma_scan_is_minimum(hits: Seq<Option<u64>>, limit: u64, best: Option<usize>)
    requires
        forall|j: int| 0 <= j < hits.len() && hits[j] is Some ==> hits[j].unwrap() < limit,
        scan_result(hits, limit, best),
    ensures
        best is None <==> forall|j: int| 0 <= j < hits.len() ==> hits[j] is None,
        best matches Some(i) ==> {
            &&& i < hits.len()
            &&& hits[i as int] is Some
            &&& forall|j: int|
                0 <= j < hits.len() && hits[j] is Some ==> hits[i as int].unwrap()
                    <= hits[j].unwrap()
        },
{
    match best {
        Some(i) => {
            assert(accepted(hits, limit, i as int));
            assert forall|j: int| 0 <= j < hits.len() && hits[j] is Some implies hits[i as int].unwrap()
                <= hits[j].unwrap() by {
                assert(accepted(hits, limit, j));
            }
        },
        None => {
            assert forall|j: int| 0 <= j < hits.len() implies hits[j] is None by {
                assert(!accepted(hits, limit, j));
            }
        },
    }
}

/// Whether `hits` is what the spheres with the given quadratics report when
/// each is tested between `t_min` and `t_max`.
pub open spec fn reports(
    spheres: Seq<Quadratic>,
    t_min: Option<u64>,
    t_max: u64,
    hits: Seq<Option<u64>>,
) -> bool {
    &&& hits.len() == spheres.len()
    &&& forall|i: int|
        0 <= i < spheres.len() ==> #[trigger] hits[i] == spheres[i].reported(t_min, Some(t_max))
}

/// A scene of spheres, each tested between `t_min` and `t_max` and the
/// nearest of their hits kept, is hit exactly when one of its spheres is; the
/// hit it returns lies strictly between the bounds and is the minimum over
/// the hits of all its spheres.
pub proof fn lemma_scene_hit(
    spheres: Seq<Quadratic>,
    t_min: Option<u64>,
    t_max: u64,
    hits: Seq<Option<u64>>,
    best: Option<usize>,
)
    requires
        reports(spheres, t_min, t_max, hits),
        scan_result(hits, t_max, best),
    ensures
        best is None <==> forall|i: int|
            0 <= i < spheres.len() ==> (#[trigger] spheres[i]).selected(t_min, Some(t_max))
                is None,
        best matches Some(b) ==> {
            &&& b < spheres.len()
            &&& inside(hits[b as int], t_min, Some(t_max))
            &&& forall|j: int|
                0 <= j < hits.len() && hits[j] is Some ==> hits[b as int].unwrap()
                    <= hits[j].unwrap()
        },
{
    assert forall|j: int| 0 <= j < hits.len() && hits[j] is Some implies hits[j].unwrap()
        < t_max by {
        assert(hits[j] == spheres[j].reported(t_min, Some(t_max)));
    }
    lemma_scan_is_minimum(hits, t_max, best);
    if let Some(b) = best {
        assert(hits[b as int] == spheres[b as int].reported(t_min, Some(t_max)));
    } else {
        assert forall|i: int| 0 <= i < spheres.len() implies (#[trigger] spheres[i]).selected(
            t_min,
            Some(t_max),
        ) is None by {
            assert(hits[i] is None);
        }
    }
}

/// The parameter of the nearest hit does not depend on the order in which the
/// objects were added: two scans that see the same hits, in any order, keep
/// hits at the same parameter.
pub proof fn lemma_nearest_order_free(
    first: Seq<Option<u64>>,
    second: Seq<Option<u64>>,
    limit: u64,
    i: int,
    j: int,
)
    requires
        first.to_multiset() == second.to_multiset(),
        is_nearest(first, limit, i),
        is_nearest(second, limit, j),
    ensures
        first[i] == second[j],
{
    first.to_multiset_ensures();
    second.to_multiset_ensures();
    assert(first.contains(first[i]));
    assert(second.contains(second[j]));
    assert(second.to_multiset().count(first[i]) > 0);
    assert(first.to_multiset().count(second[j]) > 0);
    let k = choose|k: int| 0 <= k < second.len() && second[k] == first[i];
    assert(accepted(second, limit, k));
    let m = choose|m: int| 0 <= m < first.len() && first[m] == second[j];
    assert(accepted(first, limit, m));
}

} // verus!
