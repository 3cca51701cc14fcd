//! A list of objects, tried one after the other.
use vstd::prelude::*;
use std::sync::Arc;
use crate::figures::aabb::AABB;
use crate::figures::hittable::{HitRecord, Hittable};
use crate::utility::interval::Interval;
use crate::utility::ray::Ray;
use crate::utility::scalar::Scalar;
use crate::utility::utils::Sampler;

verus! {

/// Objects in the order in which they were added, and the box around them.
pub struct HitList {
    pub list: Vec<Arc<Hittable>>,
    pub bbox: AABB,
}

/// The far end of the window that is left once `best` was found: the
/// parameter of `best`, or the window's own end.
pub open spec fn spec_closest(best: Option<HitRecord>, ray_t: Interval) -> Scalar {
    match best {
        Some(h) => h.t,
        None => ray_t.max,
    }
}

/// The window from the near end of `ray_t` to what `best` leaves of it.
pub open spec fn spec_shrunk(best: Option<HitRecord>, ray_t: Interval) -> Interval {
    Interval { min: ray_t.min, max: spec_closest(best, ray_t) }
}

/// The later of two results of one scan, where there is one.
pub open spec fn spec_prefer(found: Option<HitRecord>, best: Option<HitRecord>) -> Option<
    HitRecord,
> {
    if found is Some {
        found
    } else {
        best
    }
}

/// The hit that a scan of the first `n` objects ends with: each object is
/// asked for a hit in the window that the hits before it have left, and a
/// hit so found replaces the one before.
pub open spec fn spec_scan(
    list: Seq<Arc<Hittable>>,
    n: nat,
    r: Ray,
    ray_t: Interval,
    seed: u64,
) -> (Option<HitRecord>, u64)
    decreases list, n,
{
    if n == 0 || n > list.len() {
        (None, seed)
    } else {
        let (best, s) = spec_scan(list, (n - 1) as nat, r, ray_t, seed);
        let (found, next) = list[n - 1].spec_hit(r, spec_shrunk(best, ray_t), s);
        (spec_prefer(found, best), next)
    }
}

/// The union of the boxes of the first `n` objects.
pub open spec fn spec_union(list: Seq<Arc<Hittable>>, n: nat) -> AABB
    decreases list, n,
{
    if n == 0 || n > list.len() {
        AABB::spec_empty()
    } else {
        spec_union(list, (n - 1) as nat).spec_concat(list[n - 1].spec_bounding_box())
    }
}

impl HitList {
    /// The box is the union of the boxes of the objects.
    pub open spec fn spec_wf(self) -> bool {
        self.bbox == spec_union(self.list@, self.list@.len())
    }

    pub open spec fn spec_hit(self, r: Ray, ray_t: Interval, seed: u64) -> (Option<HitRecord>, u64)
        decreases self,
    {
        spec_scan(self.list@, self.list@.len(), r, ray_t, seed)
    }

    pub fn new() -> (r: HitList)
        ensures
            r.list@.len() == 0,
            r.bbox == AABB::spec_empty(),
            r.spec_wf(),
    {
        HitList { list: Vec::new(), bbox: AABB::empty() }
    }

    /// Adds an object at the end and grows the box around it.
    pub fn push(&mut self, value: Arc<Hittable>)
        ensures
            final(self).list@ == old(self).list@.push(value),
            final(self).bbox == old(self).bbox.spec_concat(value.spec_bounding_box()),
            old(self).spec_wf() ==> final(self).spec_wf(),
    {
        proof {
            lemma_union_prefix(self.list@, self.list@.push(value), self.list@.len());
        }
        self.bbox.concat(value.bounding_box());
        self.list.push(value);
    }

    /// Removes every object.
    pub fn clear(&mut self)
        ensures
            final(self).list@.len() == 0,
            final(self).bbox == AABB::spec_empty(),
            final(self).spec_wf(),
    {
        self.list.clear();
        self.bbox = AABB::empty();
    }

    /// The objects, in order.
    pub fn objects(self) -> (r: Vec<Arc<Hittable>>)
        ensures
            r@ == self.list@,
    {
        self.list
    }

    pub fn len(&self) -> (r: usize)
        ensures
            r == self.list@.len(),
    {
        self.list.len()
    }

    pub fn hit(&self, r: &Ray, ray_t: Interval, rng: &mut Sampler) -> (res: Option<HitRecord>)
        ensures
            (res, final(rng).seed) == self.spec_hit(*r, ray_t, old(rng).seed),
        decreases self,
    {
        let mut best: Option<HitRecord> = None;
        let mut closest_so_far: Scalar = ray_t.max;
        let mut i: usize = 0;
        while i < self.list.len()
            invariant
                i <= self.list@.len(),
                (best, rng.seed) == spec_scan(self.list@, i as nat, *r, ray_t, old(rng).seed),
                closest_so_far == spec_closest(best, ray_t),
            decreases self.list@.len() - i,
        {
            let found: Option<HitRecord> = self.list[i].hit(
                r,
                Interval::new(ray_t.min, closest_so_far),
                rng,
            );
            if let Some(rec) = found {
                closest_so_far = rec.t;
                best = Some(rec);
            }
            i = i + 1;
        }
        best
    }

    pub fn bounding_box(&self) -> (r: AABB)
        ensures
            r == self.bbox,
    {
        self.bbox
    }
}

/// The union of the first `n` boxes is that of any list that starts with
/// the same `n` objects.
pub proof fn lemma_union_prefix(a: Seq<Arc<Hittable>>, b: Seq<Arc<Hittable>>, n: nat)
    requires
        n <= a.len(),
        n <= b.len(),
        forall|i: int| 0 <= i < n ==> a[i] == b[i],
    ensures
        spec_union(a, n) == spec_union(b, n),
    decreases n,
{
    if n > 0 {
        lemma_union_prefix(a, b, (n - 1) as nat);
    }
}

} // verus!
