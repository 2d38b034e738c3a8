//! A scene: a list of hittables that answers with the closest hit.
use crate::engine::hittables::hittable::{in_window, narrowed, HitRecord, Hittable};
use crate::engine::ray::Ray;
use crate::scalar::Scalar;
use vstd::prelude::*;

verus! {

/// Of two hits the one with the smaller parameter; of two equally far ones
/// the candidate, which comes later in the list.
pub open spec fn nearer<M>(best: Option<HitRecord<M>>, candidate: Option<HitRecord<M>>) -> Option<
    HitRecord<M>,
> {
    match candidate {
        None => best,
        Some(c) => match best {
            None => candidate,
            Some(b) => if c.t.le(b.t) {
                candidate
            } else {
                best
            },
        },
    }
}

/// The closest hit among `members`: each member is tested by itself in the
/// whole window, and the hit with the smallest parameter is kept. Where
/// several members hit equally close, the last of them gives the record.
pub open spec fn closest_hit<H: Hittable>(
    members: Seq<H>,
    ray: Ray,
    t_min: Scalar,
    t_max: Scalar,
) -> Option<HitRecord<H::Surface>>
    decreases members.len(),
{
    if members.len() == 0 {
        None
    } else {
        nearer(
            closest_hit(members.drop_last(), ray, t_min, t_max),
            members.last().hit_spec(ray, t_min, t_max),
        )
    }
}

/// A scene: hittables in the order in which they were added. As a
/// hittable itself it answers with the closest hit among its members.
pub struct HittableCollection<H: Hittable> {
    hittable_list: Vec<H>,
}

impl<H: Hittable> View for HittableCollection<H> {
    type V = Seq<H>;

    /// The members, in the order in which they were added.
    closed spec fn view(&self) -> Seq<H> {
        self.hittable_list@
    }
}

impl<H: Hittable> HittableCollection<H> {
    /// A scene without members.
    pub fn new() -> (collection: HittableCollection<H>)
        ensures
            collection@ == Seq::<H>::empty(),
    {
        HittableCollection { hittable_list: Vec::new() }
    }

    /// Adds `hittable` behind the members that are there.
    pub fn add(&mut self, hittable: H)
        ensures
            final(self)@ == old(self)@.push(hittable),
    {
        self.hittable_list.push(hittable);
    }

    /// Removes every member.
    pub fn clear(&mut self)
        ensures
            final(self)@ == Seq::<H>::empty(),
    {
        self.hittable_list.clear();
    }
}

impl<H: Hittable> Hittable for HittableCollection<H> {
    type Surface = H::Surface;

    open spec fn hit_spec(&self, ray: Ray, t_min: Scalar, t_max: Scalar) -> Option<
        HitRecord<H::Surface>,
    > {
        closest_hit(self@, ray, t_min, t_max)
    }

    /// Walks the members once. The upper end of the window starts at
    /// `t_max` and is lowered to the parameter of each hit that is found,
    /// so that a later member is only asked for a hit at least as close.
    fn hit(&self, ray: &Ray, t_min: Scalar, t_max: Scalar) -> (hit: Option<HitRecord<H::Surface>>) {
        let mut smallest_distance = t_max;
        let mut result: Option<HitRecord<H::Surface>> = None;
        let mut i: usize = 0;
        while i < self.hittable_list.len()
            invariant
                i <= self.hittable_list.len(),
                result == closest_hit(self@.take(i as int), *ray, t_min, t_max),
                match result {
                    Some(record) => smallest_distance == record.t && in_window(
                        record.t,
                        t_min,
                        t_max,
                    ),
                    None => smallest_distance == t_max,
                },
            decreases self.hittable_list.len() - i,
        {
            let hittable = &self.hittable_list[i];
            let hit_result = hittable.hit(ray, t_min, smallest_distance);
            proof {
                assert(self@.take(i + 1).drop_last() == self@.take(i as int));
                assert(self@.take(i + 1).last() == *hittable);
                if result is Some {
                    hittable.lemma_hit_narrowed(*ray, t_min, smallest_distance, t_max);
                }
                hittable.lemma_hit_in_window(*ray, t_min, t_max);
            }
            match hit_result {
                Some(hit_record) => {
                    smallest_distance = hit_record.t;
                    result = Some(hit_record);
                },
                _ => {},
            };
            i += 1;
        }
        proof {
            assert(self@.take(i as int) == self@);
        }
        result
    }

    proof fn lemma_hit_in_window(&self, ray: Ray, t_min: Scalar, t_max: Scalar) {
        lemma_closest_hit_in_window(self@, ray, t_min, t_max);
    }

    proof fn lemma_hit_narrowed(&self, ray: Ray, t_min: Scalar, bound: Scalar, t_max: Scalar) {
        lemma_closest_hit_narrowed(self@, ray, t_min, bound, t_max);
    }
}

/// The closest hit lies in the window of the query.
pub proof fn lemma_closest_hit_in_window<H: Hittable>(
    members: Seq<H>,
    ray: Ray,
    t_min: Scalar,
    t_max: Scalar,
)
    ensures
        closest_hit(members, ray, t_min, t_max) matches Some(record) ==> in_window(
            record.t,
            t_min,
            t_max,
        ),
    decreases members.len(),
{
    if members.len() > 0 {
        lemma_closest_hit_in_window(members.drop_last(), ray, t_min, t_max);
        members.last().lemma_hit_in_window(ray, t_min, t_max);
    }
}

/// Lowering the upper end of the window to `bound` keeps the closest hit if
/// it is at or below `bound`, and leaves no hit otherwise.
pub proof fn lemma_closest_hit_narrowed<H: Hittable>(
    members: Seq<H>,
    ray: Ray,
    t_min: Scalar,
    bound: Scalar,
    t_max: Scalar,
)
    requires
        bound.le(t_max),
    ensures
        closest_hit(members, ray, t_min, bound) == narrowed(
            closest_hit(members, ray, t_min, t_max),
            bound,
        ),
    decreases members.len(),
{
    if members.len() > 0 {
        lemma_closest_hit_narrowed(members.drop_last(), ray, t_min, bound, t_max);
        lemma_closest_hit_in_window(members.drop_last(), ray, t_min, t_max);
        members.last().lemma_hit_narrowed(ray, t_min, bound, t_max);
        members.last().lemma_hit_in_window(ray, t_min, t_max);
    }
}

/// The parameter of a hit as its place on the number line, if there is a
/// hit.
pub open spec fn distance<M>(hit: Option<HitRecord<M>>) -> Option<int> {
    match hit {
        Some(record) => Some(record.t.rank()),
        None => None,
    }
}

/// The closest hit is what testing every member by itself and keeping the
/// smallest parameter gives: there is no hit exactly when no member hits;
/// otherwise the record is the own hit of one member, no member hits
/// closer, and every later member hits farther.
pub proof fn lemma_closest_hit_is_minimum<H: Hittable>(
    members: Seq<H>,
    ray: Ray,
    t_min: Scalar,
    t_max: Scalar,
)
    ensures
        closest_hit(members, ray, t_min, t_max) is None <==> forall|i: int|
            0 <= i < members.len() ==> (#[trigger] members[i].hit_spec(ray, t_min, t_max)) is None,
        closest_hit(members, ray, t_min, t_max) matches Some(best) ==> exists|i: int|
            {
                &&& 0 <= i < members.len()
                &&& #[trigger] members[i].hit_spec(ray, t_min, t_max) == Some(best)
                &&& forall|j: int|
                    0 <= j < members.len() ==> (#[trigger] members[j].hit_spec(ray, t_min, t_max)
                        matches Some(other) ==> best.t.le(other.t))
                &&& forall|j: int|
                    i < j < members.len() ==> (#[trigger] members[j].hit_spec(ray, t_min, t_max)
                        matches Some(other) ==> best.t.lt(other.t))
            },
    decreases members.len(),
{
    if members.len() > 0 {
        let front = members.drop_last();
        let last = members.len() - 1;
        lemma_closest_hit_is_minimum(front, ray, t_min, t_max);
        lemma_closest_hit_in_window(front, ray, t_min, t_max);
        members.last().lemma_hit_in_window(ray, t_min, t_max);
        assert(forall|i: int| 0 <= i < front.len() ==> front[i] == members[i]);
        let before = closest_hit(front, ray, t_min, t_max);
        let own = members[last].hit_spec(ray, t_min, t_max);
        match closest_hit(members, ray, t_min, t_max) {
            None => {},
            Some(best) => {
                if own == Some(best) && !(before matches Some(b) && !best.t.le(b.t)) {
                    assert(members[last].hit_spec(ray, t_min, t_max) == Some(best));
                } else {
                    let i = choose|i: int|
                        {
                            &&& 0 <= i < front.len()
                            &&& #[trigger] front[i].hit_spec(ray, t_min, t_max) == Some(best)
                            &&& forall|j: int|
                                0 <= j < front.len() ==> (#[trigger] front[j].hit_spec(
                                    ray,
                                    t_min,
                                    t_max,
                                ) matches Some(other) ==> best.t.le(other.t))
                            &&& forall|j: int|
                                i < j < front.len() ==> (#[trigger] front[j].hit_spec(
                                    ray,
                                    t_min,
                                    t_max,
                                ) matches Some(other) ==> best.t.lt(other.t))
                        };
                    assert(members[i].hit_spec(ray, t_min, t_max) == Some(best));
                }
            },
        }
    }
}

/// The order of the members does not change how far the closest hit is:
/// two lists that hold the same members, each as often as the other, give
/// a hit at the same parameter, or both give none.
pub proof fn lemma_closest_hit_order_independent<H: Hittable>(
    first: Seq<H>,
    second: Seq<H>,
    ray: Ray,
    t_min: Scalar,
    t_max: Scalar,
)
    requires
        first.to_multiset() == second.to_multiset(),
    ensures
        distance(closest_hit(first, ray, t_min, t_max)) == distance(
            closest_hit(second, ray, t_min, t_max),
        ),
{
    first.to_multiset_ensures();
    second.to_multiset_ensures();
    lemma_closest_hit_is_minimum(first, ray, t_min, t_max);
    lemma_closest_hit_is_minimum(second, ray, t_min, t_max);
    lemma_closest_hit_in_window(first, ray, t_min, t_max);
    lemma_closest_hit_in_window(second, ray, t_min, t_max);
    assert forall|i: int| 0 <= i < first.len() implies second.contains(#[trigger] first[i]) by {
        assert(first.contains(first[i]));
        assert(second.to_multiset().count(first[i]) > 0);
    }
    assert forall|i: int| 0 <= i < second.len() implies first.contains(#[trigger] second[i]) by {
        assert(second.contains(second[i]));
        assert(first.to_multiset().count(second[i]) > 0);
    }
    lemma_no_closer_than_any(first, second, ray, t_min, t_max);
    lemma_no_closer_than_any(second, first, ray, t_min, t_max);
}

/// If every member of `some` also occurs in `all`, the closest hit among
/// `all` is at least as close as the closest hit among `some`.
proof fn lemma_no_closer_than_any<H: Hittable>(
    some: Seq<H>,
    all: Seq<H>,
    ray: Ray,
    t_min: Scalar,
    t_max: Scalar,
)
    requires
        forall|i: int| 0 <= i < some.len() ==> all.contains(#[trigger] some[i]),
    ensures
        closest_hit(some, ray, t_min, t_max) matches Some(a) ==> (closest_hit(
            all,
            ray,
            t_min,
            t_max,
        ) matches Some(b) && b.t.le(a.t)),
{
    lemma_closest_hit_is_minimum(some, ray, t_min, t_max);
    lemma_closest_hit_is_minimum(all, ray, t_min, t_max);
    if let Some(a) = closest_hit(some, ray, t_min, t_max) {
        let i = choose|i: int|
            0 <= i < some.len() && #[trigger] some[i].hit_spec(ray, t_min, t_max) == Some(a);
        assert(all.contains(some[i]));
        let j = choose|j: int| 0 <= j < all.len() && all[j] == some[i];
        assert(all[j].hit_spec(ray, t_min, t_max) == Some(a));
    }
}

} // verus!
