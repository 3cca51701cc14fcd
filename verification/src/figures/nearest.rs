//! What a list and a tree over the same objects have in common: the time
//! of the nearest hit.
use vstd::prelude::*;
use std::sync::Arc;
use crate::figures::bvh::{BvhNode, lemma_sorted_ascending, spec_sorted, spec_subtree};
use crate::figures::hittable::{HitRecord, Hittable};
use crate::figures::hittable_list::{spec_closest, spec_prefer, spec_scan, spec_shrunk, spec_union};
use crate::figures::quad::Quad;
use crate::figures::sphere::{Sphere, lemma_hit_inside, lemma_hit_narrowed};
use crate::utility::interval::Interval;
use crate::utility::ray::Ray;
use crate::utility::scalar::Scalar;

verus! {

/// The window from `a` to `b`.
pub open spec fn spec_window(a: Scalar, b: Scalar) -> Interval {
    Interval { min: a, max: b }
}

/// The first hit of `r` on `o` from `a` on, if there is one.
pub open spec fn spec_first(o: Arc<Hittable>, r: Ray, a: Scalar) -> Option<HitRecord> {
    o.spec_hit(r, spec_window(a, Scalar::spec_infinity()), 0).0
}

/// The raw parameter of the first hit of `r` on `o` from `a` on, if there
/// is one.
pub open spec fn spec_time(o: Arc<Hittable>, r: Ray, a: Scalar) -> Option<int> {
    match spec_first(o, r, a) {
        Some(h) => Some(h.t.raw as int),
        None => None,
    }
}

/// The earlier of two times.
pub open spec fn spec_earlier(s: Option<int>, t: Option<int>) -> Option<int> {
    match (s, t) {
        (Some(x), Some(y)) => if y < x {
            t
        } else {
            s
        },
        (None, _) => t,
        (_, None) => s,
    }
}

/// The earliest of the times of the first `n` objects.
pub open spec fn spec_earliest(objects: Seq<Arc<Hittable>>, n: nat, r: Ray, a: Scalar) -> Option<int>
    decreases n,
{
    if n == 0 || n > objects.len() {
        None
    } else {
        spec_earlier(spec_earliest(objects, (n - 1) as nat, r, a), spec_time(objects[n - 1], r, a))
    }
}

/// The result `res` of a search that started from `seed` in a window that
/// ends at `b` agrees with the time `time`: no random number was drawn; a
/// hit lies at `time`, which is not behind the window; and there is a hit
/// where `time` lies before the window's end.
pub open spec fn spec_agrees(
    res: (Option<HitRecord>, u64),
    seed: u64,
    b: Scalar,
    time: Option<int>,
) -> bool {
    &&& res.1 == seed
    &&& res.0 is Some ==> time is Some && res.0->0.t.raw == time->0 && time->0 <= b.raw
    &&& time is Some && time->0 < b.raw ==> res.0 is Some
}

/// The object answers a ray from `a` on by its first hit alone: what it
/// finds in any window from `a` agrees with `spec_time`, and a hit that it
/// finds is its first hit.
pub open spec fn spec_answers(o: Arc<Hittable>, r: Ray, a: Scalar) -> bool {
    forall|b: Scalar, seed: u64|
        {
            let res = #[trigger] o.spec_hit(r, spec_window(a, b), seed);
            &&& spec_agrees(res, seed, b, spec_time(o, r, a))
            &&& res.0 is Some ==> res.0 == spec_first(o, r, a)
        }
}

/// The record, if there is one, is the first hit of one of the objects.
pub open spec fn spec_from(objects: Seq<Arc<Hittable>>, rec: Option<HitRecord>, r: Ray, a: Scalar) -> bool {
    rec is Some ==> exists|i: int|
        0 <= i < objects.len() && spec_first(#[trigger] objects[i], r, a) == rec
}

/// Objects that are first hit at the same time are hit in the same way.
pub open spec fn spec_no_tie(objects: Seq<Arc<Hittable>>, r: Ray, a: Scalar) -> bool {
    forall|i: int, j: int|
        0 <= i < objects.len() && 0 <= j < objects.len() && spec_time(
            #[trigger] objects[i],
            r,
            a,
        ) is Some && spec_time(objects[i], r, a) == spec_time(#[trigger] objects[j], r, a)
            ==> spec_first(objects[i], r, a) == spec_first(objects[j], r, a)
}

/// Each of the objects answers by its time alone.
pub open spec fn spec_all_answer(objects: Seq<Arc<Hittable>>, r: Ray, a: Scalar) -> bool {
    forall|i: int| 0 <= i < objects.len() ==> spec_answers(#[trigger] objects[i], r, a)
}

/// The box of the node hides no hit: the ray passes through it in every
/// window in which one of the objects is hit before the window's end.
pub open spec fn spec_box_open(node: BvhNode, objects: Seq<Arc<Hittable>>, r: Ray, a: Scalar) -> bool {
    forall|b: Scalar|
        spec_earliest(objects, objects.len(), r, a) is Some && spec_earliest(
            objects,
            objects.len(),
            r,
            a,
        )->0 < b.raw ==> #[trigger] node.bbox.spec_hit(r, spec_window(a, b))
}

/// No box in the tree over `objects` hides a hit.
pub open spec fn spec_open(node: BvhNode, objects: Seq<Arc<Hittable>>, r: Ray, a: Scalar) -> bool
    decreases objects.len(),
{
    &&& spec_box_open(node, objects, r, a)
    &&& objects.len() >= 3 ==> {
        let sorted = spec_sorted(
            objects,
            objects.len(),
            spec_union(objects, objects.len()).spec_longest_axis(),
        );
        let mid = (objects.len() / 2) as int;
        if sorted.len() == objects.len() && *node.left is Bvh && *node.right is Bvh {
            &&& spec_open((*node.left)->Bvh_0, sorted.subrange(0, mid), r, a)
            &&& spec_open((*node.right)->Bvh_0, sorted.subrange(mid, objects.len() as int), r, a)
        } else {
            true
        }
    }
}

/// The sphere that `o` is, where it is one.
pub open spec fn spec_sphere_of(o: Arc<Hittable>) -> Sphere {
    o->Sphere_0
}

/// A sphere answers by its time alone.
pub proof fn lemma_sphere_answers(o: Arc<Hittable>, r: Ray, a: Scalar)
    requires
        *o is Sphere,
    ensures
        spec_answers(o, r, a),
{
    let s = spec_sphere_of(o);
    assert forall|b: Scalar, seed: u64|
        {
            let res = #[trigger] o.spec_hit(r, spec_window(a, b), seed);
            &&& spec_agrees(res, seed, b, spec_time(o, r, a))
            &&& res.0 is Some ==> res.0 == spec_first(o, r, a)
        } by {
        lemma_hit_narrowed(s, r, spec_window(a, Scalar::spec_infinity()), b);
        lemma_hit_inside(s, r, spec_window(a, b));
    }
}

/// What a flat primitive finds in a window is what it finds in the
/// unbounded window, if that lies in the window.
pub proof fn lemma_flat_narrowed(o: Arc<Hittable>, r: Ray, a: Scalar, b: Scalar)
    requires
        *o is Rect || *o is Tri || *o is Disk,
    ensures
        o.spec_hit(r, spec_window(a, b), 0).0 == (match o.spec_hit(
            r,
            spec_window(a, Scalar::spec_infinity()),
            0,
        ).0 {
            Some(h) => if h.t.raw <= b.raw {
                Some(h)
            } else {
                None
            },
            None => None,
        }),
{
    reveal(Quad::spec_hit);
}

/// A parallelogram, a triangle or an ellipse answers by its time alone.
pub proof fn lemma_flat_answers(o: Arc<Hittable>, r: Ray, a: Scalar)
    requires
        *o is Rect || *o is Tri || *o is Disk,
    ensures
        spec_answers(o, r, a),
{
    assert forall|b: Scalar, seed: u64|
        {
            let res = #[trigger] o.spec_hit(r, spec_window(a, b), seed);
            &&& spec_agrees(res, seed, b, spec_time(o, r, a))
            &&& res.0 is Some ==> res.0 == spec_first(o, r, a)
        } by {
        lemma_flat_narrowed(o, r, a, b);
    }
}

/// Spheres and flat primitives all answer by their times alone.
pub proof fn lemma_primitives_answer(objects: Seq<Arc<Hittable>>, r: Ray, a: Scalar)
    requires
        forall|i: int|
            0 <= i < objects.len() ==> *(#[trigger] objects[i]) is Sphere || *objects[i] is Rect
                || *objects[i] is Tri || *objects[i] is Disk,
    ensures
        spec_all_answer(objects, r, a),
{
    assert forall|i: int| 0 <= i < objects.len() implies spec_answers(
        #[trigger] objects[i],
        r,
        a,
    ) by {
        if *objects[i] is Sphere {
            lemma_sphere_answers(objects[i], r, a);
        } else {
            lemma_flat_answers(objects[i], r, a);
        }
    }
}

/// One more answer in a search: where what was found before agrees with
/// `before` and the next answer, given in the window that was left, agrees
/// with `next`, the preferred of both agrees with the earlier of the two.
pub proof fn lemma_step(
    best: (Option<HitRecord>, u64),
    found: (Option<HitRecord>, u64),
    seed: u64,
    ray_t: Interval,
    before: Option<int>,
    next: Option<int>,
)
    requires
        spec_agrees(best, seed, ray_t.max, before),
        spec_agrees(found, best.1, spec_closest(best.0, ray_t), next),
    ensures
        spec_agrees(
            (spec_prefer(found.0, best.0), found.1),
            seed,
            ray_t.max,
            spec_earlier(before, next),
        ),
{
}

/// A scan of objects that answer by their times finds the earliest of the times.
pub proof fn lemma_scan_agrees(
    objects: Seq<Arc<Hittable>>,
    n: nat,
    r: Ray,
    ray_t: Interval,
    seed: u64,
)
    requires
        n <= objects.len(),
        spec_all_answer(objects, r, ray_t.min),
    ensures
        spec_agrees(
            spec_scan(objects, n, r, ray_t, seed),
            seed,
            ray_t.max,
            spec_earliest(objects, n, r, ray_t.min),
        ),
    decreases n,
{
    if n > 0 {
        lemma_scan_agrees(objects, (n - 1) as nat, r, ray_t, seed);
        let best = spec_scan(objects, (n - 1) as nat, r, ray_t, seed);
        let o = objects[n - 1];
        let window = spec_shrunk(best.0, ray_t);
        let found = o.spec_hit(r, window, best.1);
        assert(window == spec_window(ray_t.min, spec_closest(best.0, ray_t)));
        assert(spec_answers(o, r, ray_t.min));
        lemma_step(
            best,
            found,
            seed,
            ray_t,
            spec_earliest(objects, (n - 1) as nat, r, ray_t.min),
            spec_time(o, r, ray_t.min),
        );
    }
}

/// `time` is the least of the times of the objects.
pub open spec fn spec_least(objects: Seq<Arc<Hittable>>, r: Ray, a: Scalar, time: Option<int>) -> bool {
    &&& forall|i: int|
        0 <= i < objects.len() && spec_time(#[trigger] objects[i], r, a) is Some ==> time is Some
            && time->0 <= spec_time(objects[i], r, a)->0
    &&& time is Some ==> exists|i: int|
        0 <= i < objects.len() && spec_time(#[trigger] objects[i], r, a) == time
}

/// The earliest time is the least.
pub proof fn lemma_earliest_least(objects: Seq<Arc<Hittable>>, n: nat, r: Ray, a: Scalar)
    requires
        n <= objects.len(),
    ensures
        spec_least(objects.subrange(0, n as int), r, a, spec_earliest(objects, n, r, a)),
    decreases n,
{
    let part = objects.subrange(0, n as int);
    let time = spec_earliest(objects, n, r, a);
    if n > 0 {
        lemma_earliest_least(objects, (n - 1) as nat, r, a);
        let before = objects.subrange(0, n - 1);
        let prev = spec_earliest(objects, (n - 1) as nat, r, a);
        assert forall|i: int|
            0 <= i < part.len() && spec_time(#[trigger] part[i], r, a) is Some implies time is Some
            && time->0 <= spec_time(part[i], r, a)->0 by {
            if i < n - 1 {
                assert(part[i] == before[i]);
            }
        }
        if time is Some {
            if time == spec_time(objects[n - 1], r, a) {
                assert(part[n - 1] == objects[n - 1]);
            } else {
                let i = choose|i: int|
                    0 <= i < before.len() && spec_time(#[trigger] before[i], r, a) == prev;
                assert(part[i] == before[i]);
            }
        }
    }
}

/// There is but one least time.
pub proof fn lemma_least_unique(
    objects: Seq<Arc<Hittable>>,
    r: Ray,
    a: Scalar,
    s: Option<int>,
    t: Option<int>,
)
    requires
        spec_least(objects, r, a, s),
        spec_least(objects, r, a, t),
    ensures
        s == t,
{
    if s is Some {
        let i = choose|i: int| 0 <= i < objects.len() && spec_time(#[trigger] objects[i], r, a) == s;
        assert(t is Some && t->0 <= s->0);
    }
    if t is Some {
        let j = choose|j: int| 0 <= j < objects.len() && spec_time(#[trigger] objects[j], r, a) == t;
        assert(s is Some && s->0 <= t->0);
    }
}

/// The least time of a sequence is the earlier of the least times of its
/// two parts, and so of any sequence of the same objects.
pub proof fn lemma_least_of_parts(
    whole: Seq<Arc<Hittable>>,
    sorted: Seq<Arc<Hittable>>,
    mid: int,
    r: Ray,
    a: Scalar,
    s: Option<int>,
    t: Option<int>,
)
    requires
        0 <= mid <= sorted.len(),
        sorted.to_multiset() == whole.to_multiset(),
        spec_least(sorted.subrange(0, mid), r, a, s),
        spec_least(sorted.subrange(mid, sorted.len() as int), r, a, t),
    ensures
        spec_least(whole, r, a, spec_earlier(s, t)),
{
    broadcast use vstd::seq_lib::group_to_multiset_ensures;

    let left = sorted.subrange(0, mid);
    let right = sorted.subrange(mid, sorted.len() as int);
    let time = spec_earlier(s, t);
    assert forall|i: int|
        0 <= i < whole.len() && spec_time(#[trigger] whole[i], r, a) is Some implies time is Some
        && time->0 <= spec_time(whole[i], r, a)->0 by {
        assert(whole.contains(whole[i]));
        assert(whole.to_multiset().count(whole[i]) > 0);
        assert(sorted.contains(whole[i]));
        let j = choose|j: int| 0 <= j < sorted.len() && sorted[j] == whole[i];
        if j < mid {
            assert(left[j] == sorted[j]);
        } else {
            assert(right[j - mid] == sorted[j]);
        }
    }
    if time is Some {
        let j = if time == s && s is Some {
            let k = choose|k: int| 0 <= k < left.len() && spec_time(#[trigger] left[k], r, a) == s;
            assert(left[k] == sorted[k]);
            k
        } else {
            let k = choose|k: int| 0 <= k < right.len() && spec_time(#[trigger] right[k], r, a) == t;
            assert(right[k] == sorted[k + mid]);
            k + mid
        };
        assert(sorted.contains(sorted[j]));
        assert(sorted.to_multiset().count(sorted[j]) > 0);
        assert(whole.contains(sorted[j]));
        let i = choose|i: int| 0 <= i < whole.len() && whole[i] == sorted[j];
        assert(spec_time(whole[i], r, a) == time);
    }
}

/// Objects that all answer by their times still do in any order and in any part.
pub proof fn lemma_part_answers(
    whole: Seq<Arc<Hittable>>,
    sorted: Seq<Arc<Hittable>>,
    from: int,
    to: int,
    r: Ray,
    a: Scalar,
)
    requires
        0 <= from <= to <= sorted.len(),
        sorted.to_multiset() == whole.to_multiset(),
        spec_all_answer(whole, r, a),
    ensures
        spec_all_answer(sorted.subrange(from, to), r, a),
{
    broadcast use vstd::seq_lib::group_to_multiset_ensures;

    let part = sorted.subrange(from, to);
    assert forall|i: int| 0 <= i < part.len() implies spec_answers(#[trigger] part[i], r, a) by {
        let x = sorted[i + from];
        assert(part[i] == x);
        assert(sorted.contains(x));
        assert(sorted.to_multiset().count(x) > 0);
        assert(whole.contains(x));
        let j = choose|j: int| 0 <= j < whole.len() && whole[j] == x;
        assert(spec_answers(whole[j], r, a));
    }
}

/// A tree whose boxes hide no hit finds the earliest of the times of its objects.
pub proof fn lemma_tree_agrees(
    node: BvhNode,
    objects: Seq<Arc<Hittable>>,
    r: Ray,
    ray_t: Interval,
    seed: u64,
)
    requires
        node.spec_built_from(objects),
        spec_all_answer(objects, r, ray_t.min),
        spec_open(node, objects, r, ray_t.min),
    ensures
        spec_agrees(
            node.spec_hit(r, ray_t, seed),
            seed,
            ray_t.max,
            spec_earliest(objects, objects.len(), r, ray_t.min),
        ),
    decreases objects.len(),
{
    let a = ray_t.min;
    let n = objects.len();
    let time = spec_earliest(objects, n, r, a);
    assert(ray_t == spec_window(a, ray_t.max));
    if !node.bbox.spec_hit(r, ray_t) {
        assert(spec_box_open(node, objects, r, a));
    } else {
        let left = node.left.spec_hit(r, ray_t, seed);
        let window = spec_shrunk(left.0, ray_t);
        let right = node.right.spec_hit(r, window, left.1);
        assert(window == spec_window(a, spec_closest(left.0, ray_t)));
        if n == 1 {
            let o = objects[0];
            assert(spec_answers(o, r, a));
            assert(left == o.spec_hit(r, ray_t, seed));
            assert(right == o.spec_hit(r, window, left.1));
            assert(spec_earliest(objects, 0, r, a) is None);
            lemma_step(left, right, seed, ray_t, spec_time(o, r, a), spec_time(o, r, a));
        } else if n == 2 {
            let o0 = objects[0];
            let o1 = objects[1];
            assert(spec_answers(o0, r, a));
            assert(spec_answers(o1, r, a));
            assert(left == o0.spec_hit(r, ray_t, seed));
            assert(right == o1.spec_hit(r, window, left.1));
            assert(spec_earliest(objects, 0, r, a) is None);
            assert(spec_earliest(objects, 1, r, a) == spec_time(o0, r, a));
            lemma_step(left, right, seed, ray_t, spec_time(o0, r, a), spec_time(o1, r, a));
        } else {
            let axis = spec_union(objects, n).spec_longest_axis();
            let sorted = spec_sorted(objects, n, axis);
            let mid = (n / 2) as int;
            lemma_sorted_ascending(objects, n, axis);
            assert(objects.subrange(0, n as int) =~= objects);
            let lo = sorted.subrange(0, mid);
            let hi = sorted.subrange(mid, n as int);
            let l = spec_subtree(node.left);
            let h = spec_subtree(node.right);
            lemma_part_answers(objects, sorted, 0, mid, r, a);
            lemma_part_answers(objects, sorted, mid, n as int, r, a);
            lemma_tree_agrees(l, lo, r, ray_t, seed);
            lemma_tree_agrees(h, hi, r, window, left.1);
            let tl = spec_earliest(lo, lo.len(), r, a);
            let th = spec_earliest(hi, hi.len(), r, a);
            assert(left == l.spec_hit(r, ray_t, seed));
            assert(right == h.spec_hit(r, window, left.1));
            lemma_step(left, right, seed, ray_t, tl, th);
            lemma_earliest_least(lo, lo.len(), r, a);
            lemma_earliest_least(hi, hi.len(), r, a);
            assert(lo.subrange(0, lo.len() as int) =~= lo);
            assert(hi.subrange(0, hi.len() as int) =~= hi);
            lemma_least_of_parts(objects, sorted, mid, r, a, tl, th);
            lemma_earliest_least(objects, n, r, a);
            lemma_least_unique(objects, r, a, spec_earlier(tl, th), time);
        }
    }
}

/// What a scan of objects that answer by their first hits finds is the
/// first hit of one of them.
pub proof fn lemma_scan_from(
    objects: Seq<Arc<Hittable>>,
    n: nat,
    r: Ray,
    ray_t: Interval,
    seed: u64,
)
    requires
        n <= objects.len(),
        spec_all_answer(objects, r, ray_t.min),
    ensures
        spec_from(objects, spec_scan(objects, n, r, ray_t, seed).0, r, ray_t.min),
    decreases n,
{
    if n > 0 {
        lemma_scan_from(objects, (n - 1) as nat, r, ray_t, seed);
        let best = spec_scan(objects, (n - 1) as nat, r, ray_t, seed);
        let o = objects[n - 1];
        let window = spec_shrunk(best.0, ray_t);
        let found = o.spec_hit(r, window, best.1);
        assert(window == spec_window(ray_t.min, spec_closest(best.0, ray_t)));
        assert(spec_answers(o, r, ray_t.min));
        if found.0 is Some {
            assert(spec_first(objects[n - 1], r, ray_t.min) == found.0);
        }
    }
}

/// The first hit of an object of a part of a sequence is the first hit of
/// an object of any sequence of the same objects.
pub proof fn lemma_part_from(
    whole: Seq<Arc<Hittable>>,
    sorted: Seq<Arc<Hittable>>,
    from: int,
    to: int,
    rec: Option<HitRecord>,
    r: Ray,
    a: Scalar,
)
    requires
        0 <= from <= to <= sorted.len(),
        sorted.to_multiset() == whole.to_multiset(),
        spec_from(sorted.subrange(from, to), rec, r, a),
    ensures
        spec_from(whole, rec, r, a),
{
    broadcast use vstd::seq_lib::group_to_multiset_ensures;

    if rec is Some {
        let part = sorted.subrange(from, to);
        let k = choose|k: int| 0 <= k < part.len() && spec_first(#[trigger] part[k], r, a) == rec;
        let x = sorted[k + from];
        assert(part[k] == x);
        assert(sorted.contains(x));
        assert(sorted.to_multiset().count(x) > 0);
        assert(whole.contains(x));
        let i = choose|i: int| 0 <= i < whole.len() && whole[i] == x;
        assert(spec_first(whole[i], r, a) == rec);
    }
}

/// What a tree over objects that answer by their first hits finds is the
/// first hit of one of them.
pub proof fn lemma_tree_from(
    node: BvhNode,
    objects: Seq<Arc<Hittable>>,
    r: Ray,
    ray_t: Interval,
    seed: u64,
)
    requires
        node.spec_built_from(objects),
        spec_all_answer(objects, r, ray_t.min),
    ensures
        spec_from(objects, node.spec_hit(r, ray_t, seed).0, r, ray_t.min),
    decreases objects.len(),
{
    let a = ray_t.min;
    let n = objects.len();
    assert(ray_t == spec_window(a, ray_t.max));
    if node.bbox.spec_hit(r, ray_t) {
        let left = node.left.spec_hit(r, ray_t, seed);
        let window = spec_shrunk(left.0, ray_t);
        let right = node.right.spec_hit(r, window, left.1);
        assert(window == spec_window(a, spec_closest(left.0, ray_t)));
        if n == 1 {
            let o = objects[0];
            assert(spec_answers(o, r, a));
            assert(left == o.spec_hit(r, ray_t, seed));
            assert(right == o.spec_hit(r, window, left.1));
            if right.0 is Some || left.0 is Some {
                assert(spec_first(objects[0], r, a) == spec_prefer(right.0, left.0));
            }
        } else if n == 2 {
            let o0 = objects[0];
            let o1 = objects[1];
            assert(spec_answers(o0, r, a));
            assert(spec_answers(o1, r, a));
            assert(left == o0.spec_hit(r, ray_t, seed));
            assert(right == o1.spec_hit(r, window, left.1));
            if right.0 is Some {
                assert(spec_first(objects[1], r, a) == right.0);
            } else if left.0 is Some {
                assert(spec_first(objects[0], r, a) == left.0);
            }
        } else {
            let axis = spec_union(objects, n).spec_longest_axis();
            let sorted = spec_sorted(objects, n, axis);
            let mid = (n / 2) as int;
            lemma_sorted_ascending(objects, n, axis);
            assert(objects.subrange(0, n as int) =~= objects);
            let lo = sorted.subrange(0, mid);
            let hi = sorted.subrange(mid, n as int);
            let l = spec_subtree(node.left);
            let h = spec_subtree(node.right);
            lemma_part_answers(objects, sorted, 0, mid, r, a);
            lemma_part_answers(objects, sorted, mid, n as int, r, a);
            lemma_tree_from(l, lo, r, ray_t, seed);
            lemma_tree_from(h, hi, r, window, left.1);
            assert(left == l.spec_hit(r, ray_t, seed));
            assert(right == h.spec_hit(r, window, left.1));
            lemma_part_from(objects, sorted, 0, mid, left.0, r, a);
            lemma_part_from(objects, sorted, mid, n as int, right.0, r, a);
        }
    }
}

/// A tree and a list over the same objects find hits at the same time.
///
/// This holds of objects that answer by their first hits alone, as spheres
/// and flat primitives do, and of rays for which no box of the tree hides a
/// hit. Where the earliest time lies before the end of the window, both
/// find a hit at that time; where it lies behind it, or there is none,
/// neither finds a hit; and neither draws a random number. Where no two
/// objects tie, the two hits are the same in every part: point, normal,
/// material and surface coordinates.
pub proof fn lemma_tree_and_list_agree(
    node: BvhNode,
    objects: Seq<Arc<Hittable>>,
    r: Ray,
    ray_t: Interval,
    seed: u64,
)
    requires
        node.spec_built_from(objects),
        spec_all_answer(objects, r, ray_t.min),
        spec_open(node, objects, r, ray_t.min),
    ensures
        ({
            let time = spec_earliest(objects, objects.len(), r, ray_t.min);
            let tree = node.spec_hit(r, ray_t, seed);
            let list = spec_scan(objects, objects.len(), r, ray_t, seed);
            &&& tree.1 == seed
            &&& list.1 == seed
            &&& time is Some && time->0 < ray_t.max.raw ==> tree.0 is Some && list.0 is Some
                && tree.0->0.t == list.0->0.t && tree.0->0.t.raw == time->0
            &&& time is None || time->0 > ray_t.max.raw ==> tree.0 is None && list.0 is None
            &&& tree.0 is Some && list.0 is Some ==> tree.0->0.t == list.0->0.t
            &&& tree.0 is Some && list.0 is Some && spec_no_tie(objects, r, ray_t.min) ==> tree.0
                == list.0
        }),
{
    lemma_tree_agrees(node, objects, r, ray_t, seed);
    lemma_scan_agrees(objects, objects.len(), r, ray_t, seed);
    lemma_tree_from(node, objects, r, ray_t, seed);
    lemma_scan_from(objects, objects.len(), r, ray_t, seed);
    let a = ray_t.min;
    let tree = node.spec_hit(r, ray_t, seed);
    let list = spec_scan(objects, objects.len(), r, ray_t, seed);
    if tree.0 is Some && list.0 is Some && spec_no_tie(objects, r, a) {
        let i = choose|i: int| 0 <= i < objects.len() && spec_first(#[trigger] objects[i], r, a) == tree.0;
        let j = choose|j: int| 0 <= j < objects.len() && spec_first(#[trigger] objects[j], r, a) == list.0;
        assert(spec_time(objects[i], r, a) == spec_time(objects[j], r, a));
    }
}

} // verus!
