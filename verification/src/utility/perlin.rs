//! Gradient noise on the integer lattice.
use vstd::prelude::*;
use crate::utility::scalar::Scalar;
use crate::utility::vec3::{Point3, Vec3};
use crate::utility::utils::{Sampler, random_i32, rng_pick, rng_pick_successor};

verus! {

/// Number of gradients, and length of each permutation table.
pub const POINT_COUNT: usize = 256;

/// Gradient noise: a table of unit gradients and one permutation of its
/// indices for each axis.
#[derive(Debug)]
pub struct PerlinNoise {
    pub randvec: Vec<Vec3>,
    pub perm_x: Vec<i32>,
    pub perm_y: Vec<i32>,
    pub perm_z: Vec<i32>,
}

/// `s` holds each of `0 .. s.len()` exactly once.
pub open spec fn spec_is_permutation(s: Seq<i32>) -> bool {
    &&& forall|i: int| 0 <= i < s.len() ==> 0 <= #[trigger] s[i] < s.len()
    &&& forall|i: int, j: int| 0 <= i < j < s.len() ==> s[i] != s[j]
}

/// The sequence `0, 1, .., n - 1`.
pub open spec fn spec_identity(n: nat) -> Seq<i32> {
    Seq::new(n, |i: int| i as i32)
}

/// `s` with the entries at `i` and `j` exchanged.
pub open spec fn spec_swap(s: Seq<i32>, i: int, j: int) -> Seq<i32> {
    s.update(i, s[j]).update(j, s[i])
}

/// The place drawn from `seed` for the entry at `i` to change with: the
/// generator's pick from `0 ..= i`.
pub open spec fn spec_target(seed: u64, i: i32) -> int {
    let t = rng_pick(seed, 0, i);
    if 0 <= t <= i {
        t as int
    } else {
        i as int
    }
}

/// The shuffle of the first `n` entries of `s` that starts from `seed`:
/// from the last of them down, each entry changes places with one drawn
/// uniformly from those at or before it. Gives the seed left behind too.
pub open spec fn spec_permute(s: Seq<i32>, n: nat, seed: u64) -> (Seq<i32>, u64)
    decreases n,
{
    if n == 0 || n > s.len() || n > i32::MAX {
        (s, seed)
    } else {
        let i = (n - 1) as i32;
        spec_permute(
            spec_swap(s, i as int, spec_target(seed, i)),
            (n - 1) as nat,
            rng_pick_successor(seed, 0, i),
        )
    }
}

/// The entry of a table, zero beyond its end.
pub open spec fn spec_entry(table: Seq<i32>, i: int) -> i32 {
    if 0 <= i < table.len() && i < 0x7fff_ffff {
        table[i]
    } else {
        0
    }
}

/// The gradient at index `i`, zero beyond the table's end.
pub open spec fn spec_gradient(table: Seq<Vec3>, i: int) -> Vec3 {
    if 0 <= i < table.len() {
        table[i]
    } else {
        Vec3::spec_zero()
    }
}

/// The smooth step `t^2 (3 - 2t)`.
pub open spec fn spec_smooth(t: Scalar) -> Scalar {
    t.spec_mul(t).spec_mul(Scalar::spec_from_int(3).spec_sub(Scalar::spec_from_int(2).spec_mul(t)))
}

/// The share of the far (`far`) or near end along one axis.
pub open spec fn spec_share(far: bool, smooth: Scalar) -> Scalar {
    if far {
        smooth
    } else {
        Scalar::spec_one().spec_sub(smooth)
    }
}

/// Zero or one as a scalar.
pub open spec fn spec_bit(far: bool) -> Scalar {
    if far {
        Scalar::spec_one()
    } else {
        Scalar::spec_zero()
    }
}

fn entry(table: &Vec<i32>, i: i64) -> (r: i32)
    ensures
        r == spec_entry(table@, i as int),
{
    if 0 <= i && i < 0x7fff_ffff && (i as usize) < table.len() {
        table[i as usize]
    } else {
        0
    }
}

fn gradient(table: &Vec<Vec3>, i: i32) -> (r: Vec3)
    ensures
        r == spec_gradient(table@, i as int),
{
    if 0 <= i && (i as usize) < table.len() {
        table[i as usize]
    } else {
        Vec3::zero()
    }
}

fn smooth(t: Scalar) -> (r: Scalar)
    ensures
        r == spec_smooth(t),
{
    t.mul(t).mul(Scalar::from_int(3).sub(Scalar::from_int(2).mul(t)))
}

fn share(far: bool, smooth: Scalar) -> (r: Scalar)
    ensures
        r == spec_share(far, smooth),
{
    if far {
        smooth
    } else {
        Scalar::one().sub(smooth)
    }
}

fn bit(far: bool) -> (r: Scalar)
    ensures
        r == spec_bit(far),
{
    if far {
        Scalar::one()
    } else {
        Scalar::zero()
    }
}

/// The remainder of `i` by 256, within `0 .. 256`.
fn wrap(i: i64) -> (r: i64)
    ensures
        r == i as int % 256,
{
    let m: i64 = i % 256;
    if m < 0 {
        m + 256
    } else {
        m
    }
}

/// Exchanging two entries of a permutation leaves a permutation.
pub proof fn lemma_swap_permutation(s: Seq<i32>, i: int, j: int)
    requires
        spec_is_permutation(s),
        0 <= i < s.len(),
        0 <= j < s.len(),
    ensures
        spec_is_permutation(spec_swap(s, i, j)),
        spec_swap(s, i, j).len() == s.len(),
{
    let t = spec_swap(s, i, j);
    assert forall|a: int| 0 <= a < t.len() implies 0 <= #[trigger] t[a] < t.len() by {
        if a == i {
            assert(t[a] == s[j] || t[a] == s[i]);
        } else if a == j {
            assert(t[a] == s[i]);
        } else {
            assert(t[a] == s[a]);
        }
    }
    assert forall|a: int, b: int| 0 <= a < b < t.len() implies t[a] != t[b] by {
        let sa = if a == i {
            j
        } else if a == j {
            i
        } else {
            a
        };
        let sb = if b == i {
            j
        } else if b == j {
            i
        } else {
            b
        };
        assert(t[a] == s[sa]);
        assert(t[b] == s[sb]);
        assert(sa != sb);
        if sa < sb {
            assert(s[sa] != s[sb]);
        } else {
            assert(s[sb] != s[sa]);
        }
    }
}

/// A shuffle of a permutation is a permutation of the same length.
pub proof fn lemma_permute_permutation(s: Seq<i32>, n: nat, seed: u64)
    requires
        spec_is_permutation(s),
    ensures
        spec_is_permutation(spec_permute(s, n, seed).0),
        spec_permute(s, n, seed).0.len() == s.len(),
    decreases n,
{
    if n == 0 || n > s.len() || n > i32::MAX {
    } else {
        let i = (n - 1) as i32;
        let target = spec_target(seed, i);
        lemma_swap_permutation(s, i as int, target);
        lemma_permute_permutation(
            spec_swap(s, i as int, target),
            (n - 1) as nat,
            rng_pick_successor(seed, 0, i),
        );
    }
}

/// The identity sequence is a permutation.
pub proof fn lemma_identity_permutation(n: nat)
    requires
        n <= i32::MAX,
    ensures
        spec_is_permutation(spec_identity(n)),
        spec_identity(n).len() == n,
{
}

/// Shuffles `p` in place.
pub fn permute(p: &mut Vec<i32>, rng: &mut Sampler)
    requires
        old(p).len() <= i32::MAX,
    ensures
        (final(p)@, final(rng).seed) == spec_permute(old(p)@, old(p)@.len(), old(rng).seed),
        final(p)@.len() == old(p)@.len(),
{
    let mut n: usize = p.len();
    while n > 0
        invariant
            n <= p.len() <= i32::MAX,
            p@.len() == old(p)@.len(),
            spec_permute(old(p)@, old(p)@.len(), old(rng).seed) == spec_permute(
                p@,
                n as nat,
                rng.seed,
            ),
        decreases n,
    {
        let i: usize = n - 1;
        let target: i32 = random_i32(rng, 0, i as i32);
        let a: i32 = p[i];
        let b: i32 = p[target as usize];
        p[i] = b;
        p[target as usize] = a;
        n = i;
    }
}

/// Fills `perm` with a shuffle of `0 .. POINT_COUNT`.
pub fn generate_perm(perm: &mut Vec<i32>, rng: &mut Sampler)
    ensures
        (final(perm)@, final(rng).seed) == spec_permute(
            spec_identity(POINT_COUNT as nat),
            POINT_COUNT as nat,
            old(rng).seed,
        ),
        spec_is_permutation(final(perm)@),
        final(perm)@.len() == POINT_COUNT,
{
    perm.clear();
    let mut i: usize = 0;
    while i < POINT_COUNT
        invariant
            i <= POINT_COUNT,
            perm@ == spec_identity(i as nat),
        decreases POINT_COUNT - i,
    {
        perm.push(i as i32);
        assert(perm@ =~= spec_identity((i + 1) as nat));
        i = i + 1;
    }
    proof {
        lemma_identity_permutation(POINT_COUNT as nat);
        lemma_permute_permutation(perm@, POINT_COUNT as nat, rng.seed);
    }
    permute(perm, rng);
}

/// `n` gradients drawn from `seed`, each a point of the cube `-1 .. 1`
/// scaled to unit length, and the seed left behind.
pub open spec fn spec_random_gradients(seed: u64, n: nat) -> (Seq<Vec3>, u64)
    decreases n,
{
    if n == 0 {
        (Seq::empty(), seed)
    } else {
        let (before, s) = spec_random_gradients(seed, (n - 1) as nat);
        let (v, next) = Vec3::spec_random_bounded(
            s,
            Scalar::spec_one().spec_neg(),
            Scalar::spec_one(),
        );
        (before.push(v.spec_unit_vec()), next)
    }
}

/// The tables of the noise drawn from `seed`: the gradients and the three
/// permutations, in this order, and the seed left behind.
pub open spec fn spec_tables(seed: u64) -> (Seq<Vec3>, Seq<i32>, Seq<i32>, Seq<i32>, u64) {
    let (gradients, s0) = spec_random_gradients(seed, POINT_COUNT as nat);
    let (px, s1) = spec_permute(spec_identity(POINT_COUNT as nat), POINT_COUNT as nat, s0);
    let (py, s2) = spec_permute(spec_identity(POINT_COUNT as nat), POINT_COUNT as nat, s1);
    let (pz, s3) = spec_permute(spec_identity(POINT_COUNT as nat), POINT_COUNT as nat, s2);
    (gradients, px, py, pz, s3)
}

/// One as an integer for the far end of a cell, zero for the near end.
pub open spec fn spec_step(far: bool) -> int {
    if far {
        1
    } else {
        0
    }
}

impl PerlinNoise {
    /// The tables have `POINT_COUNT` entries each, and the three index
    /// tables are permutations.
    pub open spec fn spec_wf(&self) -> bool {
        &&& self.randvec@.len() == POINT_COUNT
        &&& self.perm_x@.len() == POINT_COUNT
        &&& self.perm_y@.len() == POINT_COUNT
        &&& self.perm_z@.len() == POINT_COUNT
        &&& spec_is_permutation(self.perm_x@)
        &&& spec_is_permutation(self.perm_y@)
        &&& spec_is_permutation(self.perm_z@)
    }

    /// The gradient at the lattice point `(i, j, k)`.
    pub open spec fn spec_lattice(self, i: int, j: int, k: int) -> Vec3 {
        spec_gradient(
            self.randvec@,
            (spec_entry(self.perm_x@, i % 256) ^ spec_entry(self.perm_y@, j % 256) ^ spec_entry(
                self.perm_z@,
                k % 256,
            )) as int,
        )
    }

    /// What one corner of the cell around `p` adds to the noise there: the
    /// corner's gradient times the offset of `p` from it, weighted by the
    /// smoothed nearness of `p` to the corner on each axis.
    pub open spec fn spec_corner(self, p: Point3, a: bool, b: bool, c: bool) -> Scalar {
        let u = p.x.spec_fract();
        let v = p.y.spec_fract();
        let w = p.z.spec_fract();
        let offset = Vec3 {
            x: u.spec_sub(spec_bit(a)),
            y: v.spec_sub(spec_bit(b)),
            z: w.spec_sub(spec_bit(c)),
        };
        let g = self.spec_lattice(
            p.x.spec_floor() + spec_step(a),
            p.y.spec_floor() + spec_step(b),
            p.z.spec_floor() + spec_step(c),
        );
        spec_share(a, spec_smooth(u)).spec_mul(spec_share(b, spec_smooth(v))).spec_mul(
            spec_share(c, spec_smooth(w)),
        ).spec_mul(g.spec_dot(offset))
    }

    /// The noise at `p`: the sum over the eight corners of its cell.
    pub open spec fn spec_noise(self, p: Point3) -> Scalar {
        self.spec_corner(p, false, false, false).spec_add(
            self.spec_corner(p, false, false, true),
        ).spec_add(self.spec_corner(p, false, true, false)).spec_add(
            self.spec_corner(p, false, true, true),
        ).spec_add(self.spec_corner(p, true, false, false)).spec_add(
            self.spec_corner(p, true, false, true),
        ).spec_add(self.spec_corner(p, true, true, false)).spec_add(
            self.spec_corner(p, true, true, true),
        )
    }

    /// `accum` plus `depth` octaves of noise: each octave doubles the
    /// frequency and halves the weight of the one before.
    pub open spec fn spec_octaves(
        self,
        accum: Scalar,
        p: Point3,
        weight: Scalar,
        depth: nat,
    ) -> Scalar
        decreases depth,
    {
        if depth == 0 {
            accum
        } else {
            self.spec_octaves(
                accum.spec_add(weight.spec_mul(self.spec_noise(p))),
                p.spec_scale(Scalar::spec_from_int(2)),
                weight.spec_mul(Scalar::spec_from_ratio(1, 2)),
                (depth - 1) as nat,
            )
        }
    }

    /// The magnitude of `depth` octaves of noise at `p`.
    pub open spec fn spec_turbulence(self, p: Point3, depth: i32) -> Scalar {
        if depth <= 0 {
            Scalar::spec_zero()
        } else {
            self.spec_octaves(Scalar::spec_zero(), p, Scalar::spec_one(), depth as nat).spec_abs()
        }
    }

    /// Draws the gradients, then the three permutations, from `rng`.
    pub fn new(rng: &mut Sampler) -> (r: PerlinNoise)
        ensures
            r.spec_wf(),
            (r.randvec@, r.perm_x@, r.perm_y@, r.perm_z@, final(rng).seed) == spec_tables(
                old(rng).seed,
            ),
    {
        let mut randvec: Vec<Vec3> = Vec::new();
        let mut i: usize = 0;
        while i < POINT_COUNT
            invariant
                i <= POINT_COUNT,
                (randvec@, rng.seed) == spec_random_gradients(old(rng).seed, i as nat),
                randvec@.len() == i,
            decreases POINT_COUNT - i,
        {
            let v: Vec3 = Vec3::random_bounded(rng, Scalar::one().neg(), Scalar::one());
            randvec.push(v.unit_vec());
            i = i + 1;
        }
        let mut perm_x: Vec<i32> = Vec::new();
        let mut perm_y: Vec<i32> = Vec::new();
        let mut perm_z: Vec<i32> = Vec::new();
        generate_perm(&mut perm_x, rng);
        generate_perm(&mut perm_y, rng);
        generate_perm(&mut perm_z, rng);
        PerlinNoise { randvec, perm_x, perm_y, perm_z }
    }

    fn lattice(&self, i: i64, j: i64, k: i64) -> (r: Vec3)
        ensures
            r == self.spec_lattice(i as int, j as int, k as int),
    {
        let a: i32 = entry(&self.perm_x, wrap(i));
        let b: i32 = entry(&self.perm_y, wrap(j));
        let c: i32 = entry(&self.perm_z, wrap(k));
        gradient(&self.randvec, a ^ b ^ c)
    }

    fn corner(&self, p: &Point3, a: bool, b: bool, c: bool) -> (r: Scalar)
        ensures
            r == self.spec_corner(*p, a, b, c),
    {
        let u: Scalar = p.x.fract();
        let v: Scalar = p.y.fract();
        let w: Scalar = p.z.fract();
        let offset: Vec3 = Vec3 { x: u.sub(bit(a)), y: v.sub(bit(b)), z: w.sub(bit(c)) };
        let i: i64 = p.x.floor() + if a { 1 } else { 0 };
        let j: i64 = p.y.floor() + if b { 1 } else { 0 };
        let k: i64 = p.z.floor() + if c { 1 } else { 0 };
        let g: Vec3 = self.lattice(i, j, k);
        share(a, smooth(u)).mul(share(b, smooth(v))).mul(share(c, smooth(w))).mul(g.dot(&offset))
    }

    /// The noise at `p`, between about -1 and 1.
    pub fn noise(&self, p: Point3) -> (r: Scalar)
        ensures
            r == self.spec_noise(p),
    {
        self.corner(&p, false, false, false).add(self.corner(&p, false, false, true)).add(
            self.corner(&p, false, true, false),
        ).add(self.corner(&p, false, true, true)).add(self.corner(&p, true, false, false)).add(
            self.corner(&p, true, false, true),
        ).add(self.corner(&p, true, true, false)).add(self.corner(&p, true, true, true))
    }

    /// The magnitude of `depth` octaves of noise at `p`.
    pub fn turbulence(&self, p: Point3, depth: i32) -> (r: Scalar)
        ensures
            r == self.spec_turbulence(p, depth),
    {
        if depth <= 0 {
            return Scalar::zero();
        }
        let mut accum: Scalar = Scalar::zero();
        let mut temp_p: Point3 = p;
        let mut weight: Scalar = Scalar::one();
        let mut left: i32 = depth;
        while left > 0
            invariant
                0 <= left <= depth,
                self.spec_octaves(Scalar::spec_zero(), p, Scalar::spec_one(), depth as nat)
                    == self.spec_octaves(accum, temp_p, weight, left as nat),
            decreases left,
        {
            accum = accum.add(weight.mul(self.noise(temp_p)));
            weight = weight.mul(Scalar::from_ratio(1, 2));
            temp_p = temp_p.scale(Scalar::from_int(2));
            left = left - 1;
        }
        accum.abs()
    }
}

} // verus!
