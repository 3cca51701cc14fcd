//! Axis-aligned bounding boxes.
use vstd::prelude::*;
use crate::utility::scalar::{Scalar, RAW_MAX, RAW_MIN};
use crate::utility::interval::Interval;
use crate::utility::ray::Ray;
use crate::utility::vec3::{Point3, Vec3};

verus! {

/// Least extent, in raw units, of a box built from points or ranges.
pub const MIN_THICKNESS: i64 = 100;

/// A box, as one range on each axis.
#[derive(Clone, Copy, Debug, PartialEq, Eq, Structural)]
pub struct AABB {
    pub x: Interval,
    pub y: Interval,
    pub z: Interval,
}

/// The range, widened by `MIN_THICKNESS` if it is thinner than that.
pub open spec fn spec_pad(i: Interval) -> Interval {
    if i.spec_size().raw < MIN_THICKNESS {
        i.spec_expand(Scalar { raw: MIN_THICKNESS })
    } else {
        i
    }
}

/// The range between two scalars, in either order.
pub open spec fn spec_span(p: Scalar, q: Scalar) -> Interval {
    Interval { min: p.spec_min(q), max: p.spec_max(q) }
}

/// The ray parameters at which a ray is inside the slab `ax` of one axis,
/// cut down to `ray_t`.
pub open spec fn spec_slab(ax: Interval, orig: Scalar, dir: Scalar, ray_t: Interval) -> Interval {
    let t0 = ax.min.spec_sub(orig).spec_div(dir);
    let t1 = ax.max.spec_sub(orig).spec_div(dir);
    Interval {
        min: ray_t.min.spec_max(t0.spec_min(t1)),
        max: ray_t.max.spec_min(t0.spec_max(t1)),
    }
}

/// Padding can widen the range between `p` and `q`: neither end is closer
/// than half of `MIN_THICKNESS` to the infinity beyond it.
pub open spec fn spec_paddable(p: Scalar, q: Scalar) -> bool {
    p.spec_min(q).raw <= RAW_MAX - MIN_THICKNESS / 2 && p.spec_max(q).raw >= RAW_MIN
        + MIN_THICKNESS / 2
}

fn pad(i: Interval) -> (r: Interval)
    ensures
        r == spec_pad(i),
{
    if i.size().raw < MIN_THICKNESS {
        i.expand(Scalar { raw: MIN_THICKNESS })
    } else {
        i
    }
}

fn span(p: Scalar, q: Scalar) -> (r: Interval)
    ensures
        r == spec_span(p, q),
{
    Interval { min: p.min(q), max: p.max(q) }
}

fn slab(ax: Interval, orig: Scalar, dir: Scalar, ray_t: Interval) -> (r: Interval)
    ensures
        r == spec_slab(ax, orig, dir, ray_t),
{
    let t0: Scalar = ax.min.sub(orig).div(dir);
    let t1: Scalar = ax.max.sub(orig).div(dir);
    Interval { min: ray_t.min.max(t0.min(t1)), max: ray_t.max.min(t0.max(t1)) }
}

impl AABB {
    pub open spec fn spec_new(x: Interval, y: Interval, z: Interval) -> AABB {
        AABB { x: spec_pad(x), y: spec_pad(y), z: spec_pad(z) }
    }

    /// The padded box with `a` and `b` at opposite corners.
    pub open spec fn spec_from_points(a: Point3, b: Point3) -> AABB {
        AABB::spec_new(spec_span(a.x, b.x), spec_span(a.y, b.y), spec_span(a.z, b.z))
    }

    pub open spec fn spec_empty() -> AABB {
        AABB { x: Interval::spec_empty(), y: Interval::spec_empty(), z: Interval::spec_empty() }
    }

    pub open spec fn spec_universe() -> AABB {
        AABB {
            x: Interval::spec_universe(),
            y: Interval::spec_universe(),
            z: Interval::spec_universe(),
        }
    }

    /// The smallest box that holds both.
    pub open spec fn spec_concat(self, rhs: AABB) -> AABB {
        AABB {
            x: self.x.spec_concat(rhs.x),
            y: self.y.spec_concat(rhs.y),
            z: self.z.spec_concat(rhs.z),
        }
    }

    /// The range on axis `n`: 1 is y, 2 is z, anything else is x.
    pub open spec fn spec_axis_interval(self, n: int) -> Interval {
        if n == 1 {
            self.y
        } else if n == 2 {
            self.z
        } else {
            self.x
        }
    }

    /// The slab test: the window `ray_t` is cut down by the slab of each
    /// axis in turn, and the ray misses once the window has no inside left.
    #[verifier::opaque]
    pub open spec fn spec_hit(self, r: Ray, ray_t: Interval) -> bool {
        let wx = spec_slab(self.x, r.orig.x, r.dir.x, ray_t);
        let wy = spec_slab(self.y, r.orig.y, r.dir.y, wx);
        let wz = spec_slab(self.z, r.orig.z, r.dir.z, wy);
        wx.min.raw < wx.max.raw && wy.min.raw < wy.max.raw && wz.min.raw < wz.max.raw
    }

    /// The axis of greatest extent; x only if it beats both others, y only
    /// if it beats z and is not beaten by x.
    pub open spec fn spec_longest_axis(self) -> int {
        let sx = self.x.spec_size().raw;
        let sy = self.y.spec_size().raw;
        let sz = self.z.spec_size().raw;
        if sx > sy {
            if sx > sz {
                0
            } else {
                2
            }
        } else if sy > sz {
            1
        } else {
            2
        }
    }

    /// The box moved by `offset`.
    pub open spec fn spec_add(self, offset: Vec3) -> AABB {
        AABB {
            x: self.x.spec_add(offset.x),
            y: self.y.spec_add(offset.y),
            z: self.z.spec_add(offset.z),
        }
    }

    /// A box from three ranges, each padded to `MIN_THICKNESS`.
    pub fn new(x: Interval, y: Interval, z: Interval) -> (r: AABB)
        ensures
            r == AABB::spec_new(x, y, z),
    {
        AABB { x: pad(x), y: pad(y), z: pad(z) }
    }

    /// The padded box with `a` and `b` at opposite corners, in any order.
    pub fn from_points(a: Point3, b: Point3) -> (r: AABB)
        ensures
            r == AABB::spec_from_points(a, b),
    {
        AABB::new(span(a.x, b.x), span(a.y, b.y), span(a.z, b.z))
    }

    pub fn empty() -> (r: AABB)
        ensures
            r == AABB::spec_empty(),
    {
        AABB { x: Interval::empty(), y: Interval::empty(), z: Interval::empty() }
    }

    pub fn universe() -> (r: AABB)
        ensures
            r == AABB::spec_universe(),
    {
        AABB { x: Interval::universe(), y: Interval::universe(), z: Interval::universe() }
    }

    /// Grows the box to hold `rhs` too.
    pub fn concat(&mut self, rhs: AABB)
        ensures
            *final(self) == old(self).spec_concat(rhs),
    {
        self.x.concat(rhs.x);
        self.y.concat(rhs.y);
        self.z.concat(rhs.z);
    }

    pub fn axis_interval(&self, n: i32) -> (r: Interval)
        ensures
            r == self.spec_axis_interval(n as int),
    {
        if n == 1 {
            self.y
        } else if n == 2 {
            self.z
        } else {
            self.x
        }
    }

    pub fn x(&self) -> (r: Interval)
        ensures
            r == self.x,
    {
        self.x
    }

    pub fn y(&self) -> (r: Interval)
        ensures
            r == self.y,
    {
        self.y
    }

    pub fn z(&self) -> (r: Interval)
        ensures
            r == self.z,
    {
        self.z
    }

    /// Whether the ray passes through the box at a parameter inside `ray_t`.
    pub fn hit(&self, r: &Ray, ray_t: Interval) -> (res: bool)
        ensures
            res == self.spec_hit(*r, ray_t),
    {
        proof {
            reveal(AABB::spec_hit);
        }
        let wx: Interval = slab(self.x, r.orig.x, r.dir.x, ray_t);
        if wx.max.raw <= wx.min.raw {
            return false;
        }
        let wy: Interval = slab(self.y, r.orig.y, r.dir.y, wx);
        if wy.max.raw <= wy.min.raw {
            return false;
        }
        let wz: Interval = slab(self.z, r.orig.z, r.dir.z, wy);
        wz.min.raw < wz.max.raw
    }

    pub fn longest_axis(&self) -> (r: i32)
        ensures
            r == self.spec_longest_axis(),
            0 <= r <= 2,
    {
        let sx: i64 = self.x.size().raw;
        let sy: i64 = self.y.size().raw;
        let sz: i64 = self.z.size().raw;
        if sx > sy {
            if sx > sz {
                0
            } else {
                2
            }
        } else if sy > sz {
            1
        } else {
            2
        }
    }

    pub fn add(self, offset: Vec3) -> (r: AABB)
        ensures
            r == self.spec_add(offset),
    {
        AABB { x: self.x.add(offset.x), y: self.y.add(offset.y), z: self.z.add(offset.z) }
    }
}

impl Default for AABB {
    fn default() -> (r: AABB)
        ensures
            r == AABB::spec_empty(),
    {
        AABB::empty()
    }
}

/// The union of two boxes does not depend on their order.
pub proof fn lemma_concat_commutative(a: AABB, b: AABB)
    ensures
        a.spec_concat(b) == b.spec_concat(a),
{
}

/// The empty box changes no union.
pub proof fn lemma_concat_empty(a: AABB)
    ensures
        a.spec_concat(AABB::spec_empty()) == a,
        AABB::spec_empty().spec_concat(a) == a,
{
}

/// The union of boxes may be taken in any grouping.
pub proof fn lemma_concat_associative(a: AABB, b: AABB, c: AABB)
    ensures
        a.spec_concat(b).spec_concat(c) == a.spec_concat(b.spec_concat(c)),
{
}

/// A padded range is at least `MIN_THICKNESS` wide, where padding can widen it.
pub proof fn lemma_pad_thick(p: Scalar, q: Scalar)
    requires
        spec_paddable(p, q),
    ensures
        spec_pad(spec_span(p, q)).spec_size().raw >= MIN_THICKNESS,
        spec_pad(spec_span(p, q)).min.raw <= spec_pad(spec_span(p, q)).max.raw,
{
}

/// A box built from two points is at least `MIN_THICKNESS` wide on every
/// axis, where on each axis padding can widen the range between the points.
pub proof fn lemma_from_points_thick(a: Point3, b: Point3, n: int)
    requires
        spec_paddable(a.x, b.x),
        spec_paddable(a.y, b.y),
        spec_paddable(a.z, b.z),
    ensures
        AABB::spec_from_points(a, b).spec_axis_interval(n).spec_size().raw >= MIN_THICKNESS,
{
    lemma_pad_thick(a.x, b.x);
    lemma_pad_thick(a.y, b.y);
    lemma_pad_thick(a.z, b.z);
}

/// A union is on every axis at least as wide as its first part, so boxes
/// merged from padded boxes stay padded.
pub proof fn lemma_concat_keeps_thickness(a: AABB, b: AABB, n: int)
    requires
        a.spec_axis_interval(n).min.raw <= a.spec_axis_interval(n).max.raw,
    ensures
        a.spec_concat(b).spec_axis_interval(n).spec_size().raw >= a.spec_axis_interval(
            n,
        ).spec_size().raw,
{
}

} // verus!
