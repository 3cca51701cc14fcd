//! A binary tree of boxes over a set of objects.
use vstd::prelude::*;
use std::sync::Arc;
use crate::figures::aabb::AABB;
use crate::figures::hittable::{HitRecord, Hittable, share};
use crate::figures::hittable_list::{HitList, spec_prefer, spec_shrunk, spec_union};
use crate::utility::interval::Interval;
use crate::utility::ray::Ray;
use crate::utility::scalar::Scalar;
use crate::utility::utils::Sampler;

verus! {

/// A node of the tree: two children and the box around both.
pub struct BvhNode {
    pub left: Arc<Hittable>,
    pub right: Arc<Hittable>,
    pub bbox: AABB,
}

/// How the boxes of two objects lie to each other along an axis.
#[derive(Clone, Copy, Debug, PartialEq, Eq, Structural)]
pub enum AxisOrder {
    Less,
    Equal,
    Greater,
}

/// The raw value of the near end of the object's box on the axis.
pub open spec fn spec_key(h: Arc<Hittable>, axis: int) -> int {
    h.spec_bounding_box().spec_axis_interval(axis).min.raw as int
}

/// `sorted` with `x` put behind the last object whose key is not above
/// that of `x`.
pub open spec fn spec_insert(sorted: Seq<Arc<Hittable>>, x: Arc<Hittable>, axis: int) -> Seq<
    Arc<Hittable>,
>
    decreases sorted.len(),
{
    if sorted.len() == 0 {
        seq![x]
    } else if spec_key(sorted.last(), axis) <= spec_key(x, axis) {
        sorted.push(x)
    } else {
        spec_insert(sorted.drop_last(), x, axis).push(sorted.last())
    }
}

/// The first `n` objects in the order of their keys, objects of one key in
/// the order in which they came.
pub open spec fn spec_sorted(objects: Seq<Arc<Hittable>>, n: nat, axis: int) -> Seq<Arc<Hittable>>
    decreases n,
{
    if n == 0 || n > objects.len() {
        Seq::empty()
    } else {
        spec_insert(spec_sorted(objects, (n - 1) as nat, axis), objects[n - 1], axis)
    }
}

/// The keys of `s` never fall from one object to the next.
pub open spec fn spec_ascending(s: Seq<Arc<Hittable>>, axis: int) -> bool {
    forall|i: int, j: int| 0 <= i <= j < s.len() ==> spec_key(s[i], axis) <= spec_key(s[j], axis)
}

fn key(h: &Arc<Hittable>, axis: i32) -> (r: i64)
    ensures
        r == spec_key(*h, axis as int),
{
    h.bounding_box().axis_interval(axis).min.raw
}

/// Inserting keeps the length plus one and the ascending order.
pub proof fn lemma_insert_ascending(sorted: Seq<Arc<Hittable>>, x: Arc<Hittable>, axis: int)
    requires
        spec_ascending(sorted, axis),
    ensures
        spec_ascending(spec_insert(sorted, x, axis), axis),
        spec_insert(sorted, x, axis).len() == sorted.len() + 1,
        spec_insert(sorted, x, axis).to_multiset() == sorted.to_multiset().insert(x),
    decreases sorted.len(),
{
    broadcast use vstd::seq_lib::group_to_multiset_ensures;

    let result = spec_insert(sorted, x, axis);
    if sorted.len() == 0 {
        assert(seq![x] =~= Seq::<Arc<Hittable>>::empty().push(x));
        assert(sorted =~= Seq::<Arc<Hittable>>::empty());
    } else if spec_key(sorted.last(), axis) <= spec_key(x, axis) {
        assert forall|i: int, j: int| 0 <= i <= j < result.len() implies spec_key(result[i], axis)
            <= spec_key(result[j], axis) by {
            if j < sorted.len() {
                assert(result[i] == sorted[i] && result[j] == sorted[j]);
            } else if i < sorted.len() {
                assert(result[i] == sorted[i]);
                assert(spec_key(sorted[i], axis) <= spec_key(sorted.last(), axis));
            }
        }
    } else {
        let front = sorted.drop_last();
        assert forall|i: int, j: int| 0 <= i <= j < front.len() implies spec_key(front[i], axis)
            <= spec_key(front[j], axis) by {
            assert(front[i] == sorted[i] && front[j] == sorted[j]);
        }
        lemma_insert_ascending(front, x, axis);
        let inner = spec_insert(front, x, axis);
        lemma_insert_bounded(front, x, axis, spec_key(sorted.last(), axis));
        assert forall|i: int, j: int| 0 <= i <= j < result.len() implies spec_key(result[i], axis)
            <= spec_key(result[j], axis) by {
            if j < inner.len() {
                assert(result[i] == inner[i] && result[j] == inner[j]);
            } else if i < inner.len() {
                assert(result[i] == inner[i]);
            }
        }
        assert(sorted =~= front.push(sorted.last()));
        assert(front.push(sorted.last()).to_multiset() == front.to_multiset().insert(
            sorted.last(),
        ));
        assert(result.to_multiset() =~= sorted.to_multiset().insert(x));
    }
}

/// Where no key of `sorted` nor that of `x` is above `bound`, none is
/// after `x` was inserted.
pub proof fn lemma_insert_bounded(
    sorted: Seq<Arc<Hittable>>,
    x: Arc<Hittable>,
    axis: int,
    bound: int,
)
    requires
        forall|i: int| 0 <= i < sorted.len() ==> spec_key(sorted[i], axis) <= bound,
        spec_key(x, axis) <= bound,
    ensures
        forall|i: int|
            0 <= i < spec_insert(sorted, x, axis).len() ==> spec_key(
                spec_insert(sorted, x, axis)[i],
                axis,
            ) <= bound,
    decreases sorted.len(),
{
    let result = spec_insert(sorted, x, axis);
    if sorted.len() == 0 {
    } else if spec_key(sorted.last(), axis) <= spec_key(x, axis) {
        assert forall|i: int| 0 <= i < result.len() implies spec_key(result[i], axis) <= bound by {
            if i < sorted.len() {
                assert(result[i] == sorted[i]);
            }
        }
    } else {
        let front = sorted.drop_last();
        assert forall|i: int| 0 <= i < front.len() implies spec_key(front[i], axis) <= bound by {
            assert(front[i] == sorted[i]);
        }
        lemma_insert_bounded(front, x, axis, bound);
        let inner = spec_insert(front, x, axis);
        assert forall|i: int| 0 <= i < result.len() implies spec_key(result[i], axis) <= bound by {
            if i < inner.len() {
                assert(result[i] == inner[i]);
            } else {
                assert(result[i] == sorted.last());
            }
        }
    }
}

/// The sorted objects are in ascending order and are the objects that were
/// given, each as often as it was given.
pub proof fn lemma_sorted_ascending(objects: Seq<Arc<Hittable>>, n: nat, axis: int)
    requires
        n <= objects.len(),
    ensures
        spec_ascending(spec_sorted(objects, n, axis), axis),
        spec_sorted(objects, n, axis).len() == n,
        spec_sorted(objects, n, axis).to_multiset() == objects.subrange(0, n as int).to_multiset(),
    decreases n,
{
    broadcast use vstd::seq_lib::group_to_multiset_ensures;

    if n == 0 {
        assert(objects.subrange(0, 0) =~= Seq::<Arc<Hittable>>::empty());
    } else {
        lemma_sorted_ascending(objects, (n - 1) as nat, axis);
        lemma_insert_ascending(spec_sorted(objects, (n - 1) as nat, axis), objects[n - 1], axis);
        assert(objects.subrange(0, n as int) =~= objects.subrange(0, n - 1).push(objects[n - 1]));
    }
}

/// Puts `x` into `sorted` behind the last object whose key is not above its own.
fn insert(sorted: &mut Vec<Arc<Hittable>>, x: Arc<Hittable>, axis: i32)
    ensures
        final(sorted)@ == spec_insert(old(sorted)@, x, axis as int),
{
    let k: i64 = key(&x, axis);
    let mut pos: usize = sorted.len();
    let ghost mut tail: Seq<Arc<Hittable>> = Seq::empty();
    proof {
        assert(sorted@.subrange(0, sorted@.len() as int) =~= sorted@);
        assert(spec_insert(sorted@, x, axis as int) + tail =~= spec_insert(sorted@, x, axis as int));
    }
    while pos > 0 && key(&sorted[pos - 1], axis) > k
        invariant
            pos <= sorted@.len(),
            sorted@ == old(sorted)@,
            k == spec_key(x, axis as int),
            tail == sorted@.subrange(pos as int, sorted@.len() as int),
            spec_insert(sorted@, x, axis as int) == spec_insert(
                sorted@.subrange(0, pos as int),
                x,
                axis as int,
            ) + tail,
        decreases pos,
    {
        proof {
            let front = sorted@.subrange(0, pos as int);
            assert(front.last() == sorted@[pos - 1]);
            assert(front.drop_last() =~= sorted@.subrange(0, pos - 1));
            assert(spec_insert(front, x, axis as int) == spec_insert(
                front.drop_last(),
                x,
                axis as int,
            ).push(front.last()));
            tail = seq![sorted@[pos - 1]] + tail;
            assert(tail =~= sorted@.subrange(pos - 1, sorted@.len() as int));
            assert(spec_insert(front.drop_last(), x, axis as int).push(front.last()) + sorted@.subrange(
                pos as int,
                sorted@.len() as int,
            ) =~= spec_insert(front.drop_last(), x, axis as int) + tail);
        }
        pos = pos - 1;
    }
    proof {
        let front = sorted@.subrange(0, pos as int);
        if pos > 0 {
            assert(front.last() == sorted@[pos - 1]);
        }
        assert(spec_insert(front, x, axis as int) =~= front.push(x));
        assert(front.push(x) + tail =~= sorted@.insert(pos as int, x));
        assert(sorted@.subrange(0, sorted@.len() as int) =~= sorted@);
    }
    sorted.insert(pos, x);
}

/// The objects in the order of the near ends of their boxes on the axis.
fn sort(objects: &Vec<Arc<Hittable>>, axis: i32) -> (r: Vec<Arc<Hittable>>)
    ensures
        r@ == spec_sorted(objects@, objects@.len(), axis as int),
        r@.len() == objects@.len(),
{
    let mut sorted: Vec<Arc<Hittable>> = Vec::new();
    let mut i: usize = 0;
    while i < objects.len()
        invariant
            i <= objects@.len(),
            sorted@ == spec_sorted(objects@, i as nat, axis as int),
        decreases objects@.len() - i,
    {
        insert(&mut sorted, share(&objects[i]), axis);
        i = i + 1;
    }
    proof {
        lemma_sorted_ascending(objects@, objects@.len(), axis as int);
    }
    sorted
}

/// The objects from `from` up to `to`.
fn slice(objects: &Vec<Arc<Hittable>>, from: usize, to: usize) -> (r: Vec<Arc<Hittable>>)
    requires
        from <= to <= objects@.len(),
    ensures
        r@ == objects@.subrange(from as int, to as int),
{
    let mut part: Vec<Arc<Hittable>> = Vec::new();
    let mut i: usize = from;
    while i < to
        invariant
            from <= i <= to <= objects@.len(),
            part@ == objects@.subrange(from as int, i as int),
        decreases to - i,
    {
        part.push(share(&objects[i]));
        assert(part@ =~= objects@.subrange(from as int, i + 1));
        i = i + 1;
    }
    part
}

/// The box around all the objects.
fn union(objects: &Vec<Arc<Hittable>>) -> (r: AABB)
    ensures
        r == spec_union(objects@, objects@.len()),
{
    let mut bbox: AABB = AABB::empty();
    let mut i: usize = 0;
    while i < objects.len()
        invariant
            i <= objects@.len(),
            bbox == spec_union(objects@, i as nat),
        decreases objects@.len() - i,
    {
        bbox.concat(objects[i].bounding_box());
        i = i + 1;
    }
    bbox
}

/// The box of the object.
pub open spec fn spec_box(o: Arc<Hittable>) -> AABB {
    o.spec_bounding_box()
}

/// The tree that `o` is, where it is one.
pub open spec fn spec_subtree(o: Arc<Hittable>) -> BvhNode {
    o->Bvh_0
}

/// On the axis, `b` is the least range around the boxes of the objects:
/// it reaches as far as each of them, and no farther than one of them at
/// either end; around nothing it is empty.
pub open spec fn spec_bounds(objects: Seq<Arc<Hittable>>, b: AABB, axis: int) -> bool {
    let range = b.spec_axis_interval(axis);
    &&& forall|k: int|
        0 <= k < objects.len() ==> range.min.raw <= (#[trigger] spec_box(
            objects[k],
        )).spec_axis_interval(axis).min.raw && range.max.raw >= spec_box(
            objects[k],
        ).spec_axis_interval(axis).max.raw
    &&& objects.len() == 0 ==> range == Interval::spec_empty()
    &&& objects.len() > 0 ==> (exists|k: int|
        0 <= k < objects.len() && (#[trigger] spec_box(objects[k])).spec_axis_interval(axis).min
            == range.min) && (exists|k: int|
        0 <= k < objects.len() && (#[trigger] spec_box(objects[k])).spec_axis_interval(axis).max
            == range.max)
}

/// The union of the boxes of the first `n` objects is the least range
/// around them on every axis.
pub proof fn lemma_union_bounds(objects: Seq<Arc<Hittable>>, n: nat, axis: int)
    requires
        n <= objects.len(),
    ensures
        spec_bounds(objects.subrange(0, n as int), spec_union(objects, n), axis),
    decreases n,
{
    let part = objects.subrange(0, n as int);
    let b = spec_union(objects, n);
    let range = b.spec_axis_interval(axis);
    if n > 0 {
        lemma_union_bounds(objects, (n - 1) as nat, axis);
        let before = objects.subrange(0, n - 1);
        let prev = spec_union(objects, (n - 1) as nat).spec_axis_interval(axis);
        let last = spec_box(objects[n - 1]).spec_axis_interval(axis);
        assert(range == prev.spec_concat(last));
        assert(part[n - 1] == objects[n - 1]);
        assert forall|k: int| 0 <= k < part.len() implies range.min.raw <= (#[trigger] spec_box(
            part[k],
        )).spec_axis_interval(axis).min.raw && range.max.raw >= spec_box(
            part[k],
        ).spec_axis_interval(axis).max.raw by {
            if k < n - 1 {
                assert(part[k] == before[k]);
            }
        }
        if range.min == last.min {
            assert(spec_box(part[n - 1]).spec_axis_interval(axis).min == range.min);
        } else {
            let k = choose|k: int|
                0 <= k < before.len() && (#[trigger] spec_box(before[k])).spec_axis_interval(
                    axis,
                ).min == prev.min;
            assert(part[k] == before[k]);
            assert(spec_box(part[k]).spec_axis_interval(axis).min == range.min);
        }
        if range.max == last.max {
            assert(spec_box(part[n - 1]).spec_axis_interval(axis).max == range.max);
        } else {
            let k = choose|k: int|
                0 <= k < before.len() && (#[trigger] spec_box(before[k])).spec_axis_interval(
                    axis,
                ).max == prev.max;
            assert(part[k] == before[k]);
            assert(spec_box(part[k]).spec_axis_interval(axis).max == range.max);
        }
    }
}

/// There is but one least range around the boxes of the objects.
pub proof fn lemma_bounds_unique(objects: Seq<Arc<Hittable>>, a: AABB, b: AABB, axis: int)
    requires
        spec_bounds(objects, a, axis),
        spec_bounds(objects, b, axis),
    ensures
        a.spec_axis_interval(axis) == b.spec_axis_interval(axis),
{
    let ra = a.spec_axis_interval(axis);
    let rb = b.spec_axis_interval(axis);
    if objects.len() > 0 {
        let k = choose|k: int|
            0 <= k < objects.len() && (#[trigger] spec_box(objects[k])).spec_axis_interval(axis).min
                == ra.min;
        let l = choose|l: int|
            0 <= l < objects.len() && (#[trigger] spec_box(objects[l])).spec_axis_interval(axis).min
                == rb.min;
        assert(ra.min.raw == rb.min.raw);
        let m = choose|m: int|
            0 <= m < objects.len() && (#[trigger] spec_box(objects[m])).spec_axis_interval(axis).max
                == ra.max;
        let n = choose|n: int|
            0 <= n < objects.len() && (#[trigger] spec_box(objects[n])).spec_axis_interval(axis).max
                == rb.max;
        assert(ra.max.raw == rb.max.raw);
    }
}

/// The least range around all the objects is the union of the least ranges
/// around the two parts of any sequence of the same objects.
pub proof fn lemma_bounds_of_parts(
    whole: Seq<Arc<Hittable>>,
    sorted: Seq<Arc<Hittable>>,
    mid: int,
    lo: AABB,
    hi: AABB,
    axis: int,
)
    requires
        0 < mid < sorted.len(),
        sorted.to_multiset() == whole.to_multiset(),
        spec_bounds(sorted.subrange(0, mid), lo, axis),
        spec_bounds(sorted.subrange(mid, sorted.len() as int), hi, axis),
    ensures
        spec_bounds(whole, lo.spec_concat(hi), axis),
{
    broadcast use vstd::seq_lib::group_to_multiset_ensures;

    let left = sorted.subrange(0, mid);
    let right = sorted.subrange(mid, sorted.len() as int);
    let b = lo.spec_concat(hi);
    let range = b.spec_axis_interval(axis);
    let rl = lo.spec_axis_interval(axis);
    let rh = hi.spec_axis_interval(axis);
    assert(range == rl.spec_concat(rh));
    assert forall|k: int| 0 <= k < whole.len() implies range.min.raw <= (#[trigger] spec_box(
        whole[k],
    )).spec_axis_interval(axis).min.raw && range.max.raw >= spec_box(
        whole[k],
    ).spec_axis_interval(axis).max.raw by {
        assert(whole.contains(whole[k]));
        assert(whole.to_multiset().count(whole[k]) > 0);
        assert(sorted.contains(whole[k]));
        let j = choose|j: int| 0 <= j < sorted.len() && sorted[j] == whole[k];
        if j < mid {
            assert(left[j] == sorted[j]);
        } else {
            assert(right[j - mid] == sorted[j]);
        }
    }
    let jmin = if range.min == rl.min {
        let k = choose|k: int|
            0 <= k < left.len() && (#[trigger] spec_box(left[k])).spec_axis_interval(axis).min
                == rl.min;
        assert(left[k] == sorted[k]);
        k
    } else {
        let k = choose|k: int|
            0 <= k < right.len() && (#[trigger] spec_box(right[k])).spec_axis_interval(axis).min
                == rh.min;
        assert(right[k] == sorted[k + mid]);
        k + mid
    };
    assert(sorted.contains(sorted[jmin]));
    assert(sorted.to_multiset().count(sorted[jmin]) > 0);
    assert(whole.contains(sorted[jmin]));
    let imin = choose|i: int| 0 <= i < whole.len() && whole[i] == sorted[jmin];
    assert(spec_box(whole[imin]).spec_axis_interval(axis).min == range.min);
    let jmax = if range.max == rl.max {
        let k = choose|k: int|
            0 <= k < left.len() && (#[trigger] spec_box(left[k])).spec_axis_interval(axis).max
                == rl.max;
        assert(left[k] == sorted[k]);
        k
    } else {
        let k = choose|k: int|
            0 <= k < right.len() && (#[trigger] spec_box(right[k])).spec_axis_interval(axis).max
                == rh.max;
        assert(right[k] == sorted[k + mid]);
        k + mid
    };
    assert(sorted.contains(sorted[jmax]));
    assert(sorted.to_multiset().count(sorted[jmax]) > 0);
    assert(whole.contains(sorted[jmax]));
    let imax = choose|i: int| 0 <= i < whole.len() && whole[i] == sorted[jmax];
    assert(spec_box(whole[imax]).spec_axis_interval(axis).max == range.max);
}

/// The box of a node of the tree is the union of the boxes of its two children.
pub proof fn lemma_node_box(node: BvhNode, objects: Seq<Arc<Hittable>>)
    requires
        node.spec_built_from(objects),
    ensures
        node.bbox == spec_box(node.left).spec_concat(spec_box(node.right)),
{
    reveal_with_fuel(BvhNode::spec_built_from, 2);
    let n = objects.len();
    let children = spec_box(node.left).spec_concat(spec_box(node.right));
    if n == 1 {
        assert(spec_union(objects, 0) == AABB::spec_empty());
        assert(spec_union(objects, 1) == AABB::spec_empty().spec_concat(spec_box(objects[0])));
    } else if n == 2 {
        assert(spec_union(objects, 0) == AABB::spec_empty());
        assert(spec_union(objects, 1) == AABB::spec_empty().spec_concat(spec_box(objects[0])));
        assert(spec_union(objects, 2) == spec_union(objects, 1).spec_concat(spec_box(objects[1])));
    } else {
        let axis = spec_union(objects, n).spec_longest_axis();
        let sorted = spec_sorted(objects, n, axis);
        let mid = (n / 2) as int;
        lemma_sorted_ascending(objects, n, axis);
        assert(objects.subrange(0, n as int) =~= objects);
        let lo = sorted.subrange(0, mid);
        let hi = sorted.subrange(mid, n as int);
        let l = spec_subtree(node.left);
        let h = spec_subtree(node.right);
        assert(l.bbox == spec_union(lo, lo.len()));
        assert(h.bbox == spec_union(hi, hi.len()));
        assert(lo.subrange(0, lo.len() as int) =~= lo);
        assert(hi.subrange(0, hi.len() as int) =~= hi);
        assert forall|k: int| 0 <= k <= 2 implies node.bbox.spec_axis_interval(k)
            == children.spec_axis_interval(k) by {
            lemma_union_bounds(lo, lo.len(), k);
            lemma_union_bounds(hi, hi.len(), k);
            lemma_bounds_of_parts(objects, sorted, mid, l.bbox, h.bbox, k);
            lemma_union_bounds(objects, n, k);
            lemma_bounds_unique(objects, children, node.bbox, k);
        }
        assert(node.bbox.spec_axis_interval(0) == children.spec_axis_interval(0));
        assert(node.bbox.spec_axis_interval(1) == children.spec_axis_interval(1));
        assert(node.bbox.spec_axis_interval(2) == children.spec_axis_interval(2));
    }
}

impl BvhNode {
    /// The node is the tree over `objects`: its box is the union of their
    /// boxes; one object is both children, two are one child each; more are
    /// sorted along the longest axis of the box and halved, and each child
    /// is the tree over one half.
    pub open spec fn spec_built_from(self, objects: Seq<Arc<Hittable>>) -> bool
        decreases objects.len(),
    {
        let bbox = spec_union(objects, objects.len());
        &&& objects.len() >= 1
        &&& self.bbox == bbox
        &&& if objects.len() == 1 {
            *self.left == *objects[0] && *self.right == *objects[0]
        } else if objects.len() == 2 {
            *self.left == *objects[0] && *self.right == *objects[1]
        } else {
            let sorted = spec_sorted(objects, objects.len(), bbox.spec_longest_axis());
            let mid = (objects.len() / 2) as int;
            if sorted.len() == objects.len() {
                &&& *self.left is Bvh
                &&& (*self.left)->Bvh_0.spec_built_from(sorted.subrange(0, mid))
                &&& *self.right is Bvh
                &&& (*self.right)->Bvh_0.spec_built_from(
                    sorted.subrange(mid, objects.len() as int),
                )
            } else {
                false
            }
        }
    }

    /// Nothing is hit where the ray misses the box; else the left child is
    /// asked in `ray_t`, the right child in what the left one's hit leaves
    /// of it, and the right child's hit, where there is one, is the nearer.
    pub open spec fn spec_hit(self, r: Ray, ray_t: Interval, seed: u64) -> (Option<HitRecord>, u64)
        decreases self,
    {
        if !self.bbox.spec_hit(r, ray_t) {
            (None, seed)
        } else {
            let (hit_left, s1) = self.left.spec_hit(r, ray_t, seed);
            let (hit_right, s2) = self.right.spec_hit(r, spec_shrunk(hit_left, ray_t), s1);
            (spec_prefer(hit_right, hit_left), s2)
        }
    }

    /// The tree over the objects of a list, which must not be empty.
    pub fn from_hitlist(list: HitList) -> (r: BvhNode)
        requires
            list.list@.len() > 0,
        ensures
            r.spec_built_from(list.list@),
    {
        BvhNode::new(list.objects())
    }

    /// The tree over `objects`, which must not be empty.
    pub fn new(objects: Vec<Arc<Hittable>>) -> (r: BvhNode)
        requires
            objects@.len() > 0,
        ensures
            r.spec_built_from(objects@),
        decreases objects@.len(),
    {
        let bbox: AABB = union(&objects);
        let axis: i32 = bbox.longest_axis();
        if objects.len() == 1 {
            BvhNode { left: share(&objects[0]), right: share(&objects[0]), bbox }
        } else if objects.len() == 2 {
            BvhNode { left: share(&objects[0]), right: share(&objects[1]), bbox }
        } else {
            let sorted: Vec<Arc<Hittable>> = sort(&objects, axis);
            let mid: usize = objects.len() / 2;
            let left_vec: Vec<Arc<Hittable>> = slice(&sorted, 0, mid);
            let right_vec: Vec<Arc<Hittable>> = slice(&sorted, mid, sorted.len());
            let left: BvhNode = BvhNode::new(left_vec);
            let right: BvhNode = BvhNode::new(right_vec);
            BvhNode { left: Arc::new(Hittable::Bvh(left)), right: Arc::new(Hittable::Bvh(right)), bbox }
        }
    }

    /// How the boxes of `a` and `b` lie to each other along `axis`, by
    /// their near ends.
    pub fn box_compare(a: &Arc<Hittable>, b: &Arc<Hittable>, axis: i32) -> (r: AxisOrder)
        ensures
            r == (if spec_key(*a, axis as int) < spec_key(*b, axis as int) {
                AxisOrder::Less
            } else if spec_key(*a, axis as int) == spec_key(*b, axis as int) {
                AxisOrder::Equal
            } else {
                AxisOrder::Greater
            }),
    {
        let ka: i64 = key(a, axis);
        let kb: i64 = key(b, axis);
        if ka < kb {
            AxisOrder::Less
        } else if ka == kb {
            AxisOrder::Equal
        } else {
            AxisOrder::Greater
        }
    }

    pub fn hit(&self, r: &Ray, ray_t: Interval, rng: &mut Sampler) -> (res: Option<HitRecord>)
        ensures
            (res, final(rng).seed) == self.spec_hit(*r, ray_t, old(rng).seed),
        decreases self,
    {
        if !self.bbox.hit(r, ray_t) {
            return None;
        }
        let hit_left: Option<HitRecord> = self.left.hit(r, ray_t, rng);
        let end: Scalar = match &hit_left {
            Some(rec) => rec.t,
            None => ray_t.max,
        };
        let hit_right: Option<HitRecord> = self.right.hit(r, Interval::new(ray_t.min, end), rng);
        if hit_right.is_some() {
            hit_right
        } else {
            hit_left
        }
    }

    pub fn bounding_box(&self) -> (r: AABB)
        ensures
            r == self.bbox,
    {
        self.bbox
    }
}

} // verus!
