//! Perlin gradient noise in two, three and four dimensions.
use crate::gradient::{gradient2, gradient3, gradient4, vector2, vector3, vector4};
use crate::noise_fns::{
    evaluate_serial, sample_parallel, sample_serial, NoiseFieldFn, NoiseFn, Seedable,
};
use crate::noisefield::{NoiseField, NoiseField2D, NoiseField3D};
use crate::permutationtable::{hash2, hash3, hash4, permutation_of, PermutationTable};
use crate::scalar::{
    clamp_spec, clamp_to_unit, constant, constant_spec, floor_of, fourth_power,
    fourth_power_spec, from_number, in_unit_range, is_rounding, lemma_clamp_in_unit_range, max,
    max_spec, number, total_arithmetic, unit_range_in_order, Scalar,
};
use core::ops::Neg;
use vstd::prelude::*;
use vstd::std_specs::ops::{AddSpec, MulSpec, NegSpec, SubSpec};

verus! {

/// Seed of a noise function that was given none.
pub const DEFAULT_SEED: u32 = 0;

/// The factor that brings the sum of the four surflets of a cell into the
/// range from -1 to 1: 256/81, one over the largest value that the sum takes
/// (at the centre of a cell whose four gradients all point at it).
pub open spec fn surflet_scale_2d() -> [u16; 5] {
    [3u16, 10518u16, 8090u16, 56636u16, 0u16]
}

/// The factor for the eight surflets of a three-dimensional cell, found by
/// sampling as the reciprocal of the largest sum met.
pub open spec fn surflet_scale_3d() -> [u16; 5] {
    [3u16, 58317u16, 36609u16, 27658u16, 8192u16]
}

/// The factor for the sixteen surflets of a four-dimensional cell, found by
/// sampling as the reciprocal of the largest sum met.
pub open spec fn surflet_scale_4d() -> [u16; 5] {
    [4u16, 27811u16, 30312u16, 10142u16, 32768u16]
}

/// The square root of two: interpolated gradients in `n` dimensions range
/// over plus and minus the square root of `n/4`, and this is its reciprocal
/// for two dimensions.
pub open spec fn lerp_scale_2d() -> [u16; 5] {
    [1u16, 27145u16, 58983u16, 62396u16, 53248u16]
}

/// Two over the square root of three, the same reciprocal for three
/// dimensions.
pub open spec fn lerp_scale_3d() -> [u16; 5] {
    [1u16, 10138u16, 29785u16, 817u16, 53248u16]
}

/// What a lattice vertex adds to the noise at a point: the fourth power of
/// the attenuation times the projection of the offset on the gradient. The
/// attenuation is the larger of zero and `radius - distance`, so that a
/// vertex out of reach adds zero times the projection: nothing for a
/// number, and no number for what is none. `radius` is the square of the
/// reach, `distance` the squared distance from the vertex to the point.
pub open spec fn surflet_spec<T: Scalar>(radius: T, distance: T, projection: T) -> T {
    let attenuation = max_spec(number::<T>(0), radius.sub_spec(distance));
    fourth_power_spec(attenuation).mul_spec(projection)
}

/// Computes what a lattice vertex adds to the noise at a point.
pub fn surflet<T: Scalar>(radius: T, distance: T, projection: T) -> (r: T)
    requires
        total_arithmetic::<T>(),
    ensures
        r == surflet_spec(radius, distance, projection),
{
    let attenuation: T = max(from_number(0u16), radius - distance);
    fourth_power(attenuation) * projection
}

/// Offset along one axis from a corner of the cell to the point: from the
/// near corner the fraction itself, from the far one the fraction less one.
pub open spec fn corner_offset<T: Scalar>(near: T, far: int) -> T {
    if far == 0 {
        near
    } else {
        near.sub_spec(number::<T>(1))
    }
}

fn offset_from<T: Scalar>(near: T, far: i8) -> (r: T)
    requires
        total_arithmetic::<T>(),
    ensures
        r == corner_offset(near, far as int),
{
    if far == 0 {
        near
    } else {
        near - from_number(1u16)
    }
}

/// The quintic curve `6t^5 - 15t^4 + 10t^3`, which eases from zero at zero
/// to one at one with no change of slope or curvature at either end.
pub open spec fn s_curve5_spec<T: Scalar>(t: T) -> T {
    t.mul_spec(t).mul_spec(t).mul_spec(
        t.mul_spec(t.mul_spec(number::<T>(6)).sub_spec(number::<T>(15))).add_spec(number::<T>(10)),
    )
}

pub fn s_curve5<T: Scalar>(t: T) -> (r: T)
    requires
        total_arithmetic::<T>(),
    ensures
        r == s_curve5_spec(t),
{
    t * t * t * (t * (t * from_number(6u16) - from_number(15u16)) + from_number(10u16))
}

/// Inner product of two vectors of 2 components.
pub open spec fn dot2_spec<T: Scalar>(a: [T; 2], b: [T; 2]) -> T {
    a[0].mul_spec(b[0]).add_spec(a[1].mul_spec(b[1]))
}

pub fn dot2<T: Scalar>(a: [T; 2], b: [T; 2]) -> (r: T)
    requires
        total_arithmetic::<T>(),
    ensures
        r == dot2_spec(a, b),
{
    a[0] * b[0] + a[1] * b[1]
}

/// Inner product of two vectors of 3 components.
pub open spec fn dot3_spec<T: Scalar>(a: [T; 3], b: [T; 3]) -> T {
    a[0].mul_spec(b[0]).add_spec(a[1].mul_spec(b[1])).add_spec(a[2].mul_spec(b[2]))
}

pub fn dot3<T: Scalar>(a: [T; 3], b: [T; 3]) -> (r: T)
    requires
        total_arithmetic::<T>(),
    ensures
        r == dot3_spec(a, b),
{
    a[0] * b[0] + a[1] * b[1] + a[2] * b[2]
}

/// Inner product of two vectors of 4 components.
pub open spec fn dot4_spec<T: Scalar>(a: [T; 4], b: [T; 4]) -> T {
    a[0].mul_spec(b[0]).add_spec(a[1].mul_spec(b[1])).add_spec(a[2].mul_spec(b[2])).add_spec(a[3].mul_spec(b[3]))
}

pub fn dot4<T: Scalar>(a: [T; 4], b: [T; 4]) -> (r: T)
    requires
        total_arithmetic::<T>(),
    ensures
        r == dot4_spec(a, b),
{
    a[0] * b[0] + a[1] * b[1] + a[2] * b[2] + a[3] * b[3]
}

/// What the corner `k` of the cell adds in 2 dimensions: bit `i` of `k`
/// says whether the corner is the far one along axis `i`.
pub open spec fn corner_surflet2<T: Scalar>(
    table: Seq<u8>,
    c0: int,
    c1: int,
    n0: T,
    n1: T,
    k: int,
) -> T {
    let d = [corner_offset(n0, k % 2), corner_offset(n1, (k / 2) % 2)];
    let h = hash2(table, c0 + k % 2, c1 + (k / 2) % 2);
    let g = [vector2::<T>(h, 0), vector2::<T>(h, 1)];
    surflet_spec(number::<T>(1), dot2_spec(d, d), dot2_spec(d, g))
}

/// Sum of what the corners `0..=k` of the cell add, taken in that order.
pub open spec fn corner_sum2<T: Scalar>(table: Seq<u8>, c0: int, c1: int, n0: T, n1: T, k: int) -> T
    decreases k,
{
    if k <= 0 {
        corner_surflet2(table, c0, c1, n0, n1, 0)
    } else {
        corner_sum2(table, c0, c1, n0, n1, k - 1).add_spec(
            corner_surflet2(table, c0, c1, n0, n1, k),
        )
    }
}

/// Surflet Perlin noise in 2 dimensions: the sum over the 4 corners of
/// the cell that holds the point, scaled and limited to the range from -1 to
/// 1.
pub open spec fn surflet_noise2<T: Scalar, L: Fn(T) -> (T, isize)>(
    table: Seq<u8>,
    floor: L,
    point: [T; 2],
) -> T {
    let f0 = floor_of(floor, point[0]);
    let f1 = floor_of(floor, point[1]);
    clamp_spec(
        corner_sum2(
            table,
            f0.1 as int,
            f1.1 as int,
            point[0].sub_spec(f0.0),
            point[1].sub_spec(f1.0),
            3,
        ).mul_spec(constant_spec::<T>(surflet_scale_2d(), 4)),
        number::<T>(1).neg_spec(),
        number::<T>(1),
    )
}

/// What the corner `k` of the cell adds in 3 dimensions: bit `i` of `k`
/// says whether the corner is the far one along axis `i`.
pub open spec fn corner_surflet3<T: Scalar>(
    table: Seq<u8>,
    c0: int,
    c1: int,
    c2: int,
    n0: T,
    n1: T,
    n2: T,
    k: int,
) -> T {
    let d = [
        corner_offset(n0, k % 2),
        corner_offset(n1, (k / 2) % 2),
        corner_offset(n2, (k / 4) % 2),
    ];
    let h = hash3(table, c0 + k % 2, c1 + (k / 2) % 2, c2 + (k / 4) % 2);
    let g = [vector3::<T>(h, 0), vector3::<T>(h, 1), vector3::<T>(h, 2)];
    surflet_spec(number::<T>(1), dot3_spec(d, d), dot3_spec(d, g))
}

/// Sum of what the corners `0..=k` of the cell add, taken in that order.
pub open spec fn corner_sum3<T: Scalar>(
    table: Seq<u8>,
    c0: int,
    c1: int,
    c2: int,
    n0: T,
    n1: T,
    n2: T,
    k: int,
) -> T
    decreases k,
{
    if k <= 0 {
        corner_surflet3(table, c0, c1, c2, n0, n1, n2, 0)
    } else {
        corner_sum3(table, c0, c1, c2, n0, n1, n2, k - 1).add_spec(
            corner_surflet3(table, c0, c1, c2, n0, n1, n2, k),
        )
    }
}

/// Surflet Perlin noise in 3 dimensions: the sum over the 8 corners of
/// the cell that holds the point, scaled and limited to the range from -1 to
/// 1.
pub open spec fn surflet_noise3<T: Scalar, L: Fn(T) -> (T, isize)>(
    table: Seq<u8>,
    floor: L,
    point: [T; 3],
) -> T {
    let f0 = floor_of(floor, point[0]);
    let f1 = floor_of(floor, point[1]);
    let f2 = floor_of(floor, point[2]);
    clamp_spec(
        corner_sum3(
            table,
            f0.1 as int,
            f1.1 as int,
            f2.1 as int,
            point[0].sub_spec(f0.0),
            point[1].sub_spec(f1.0),
            point[2].sub_spec(f2.0),
            7,
        ).mul_spec(constant_spec::<T>(surflet_scale_3d(), 4)),
        number::<T>(1).neg_spec(),
        number::<T>(1),
    )
}

/// What the corner `k` of the cell adds in 4 dimensions: bit `i` of `k`
/// says whether the corner is the far one along axis `i`.
pub open spec fn corner_surflet4<T: Scalar>(
    table: Seq<u8>,
    c0: int,
    c1: int,
    c2: int,
    c3: int,
    n0: T,
    n1: T,
    n2: T,
    n3: T,
    k: int,
) -> T {
    let d = [
        corner_offset(n0, k % 2),
        corner_offset(n1, (k / 2) % 2),
        corner_offset(n2, (k / 4) % 2),
        corner_offset(n3, (k / 8) % 2),
    ];
    let h = hash4(table, c0 + k % 2, c1 + (k / 2) % 2, c2 + (k / 4) % 2, c3 + (k / 8) % 2);
    let g = [vector4::<T>(h, 0), vector4::<T>(h, 1), vector4::<T>(h, 2), vector4::<T>(h, 3)];
    surflet_spec(number::<T>(1), dot4_spec(d, d), dot4_spec(d, g))
}

/// Sum of what the corners `0..=k` of the cell add, taken in that order.
pub open spec fn corner_sum4<T: Scalar>(
    table: Seq<u8>,
    c0: int,
    c1: int,
    c2: int,
    c3: int,
    n0: T,
    n1: T,
    n2: T,
    n3: T,
    k: int,
) -> T
    decreases k,
{
    if k <= 0 {
        corner_surflet4(table, c0, c1, c2, c3, n0, n1, n2, n3, 0)
    } else {
        corner_sum4(table, c0, c1, c2, c3, n0, n1, n2, n3, k - 1).add_spec(
            corner_surflet4(table, c0, c1, c2, c3, n0, n1, n2, n3, k),
        )
    }
}

/// Surflet Perlin noise in 4 dimensions: the sum over the 16 corners of
/// the cell that holds the point, scaled and limited to the range from -1 to
/// 1.
pub open spec fn surflet_noise4<T: Scalar, L: Fn(T) -> (T, isize)>(
    table: Seq<u8>,
    floor: L,
    point: [T; 4],
) -> T {
    let f0 = floor_of(floor, point[0]);
    let f1 = floor_of(floor, point[1]);
    let f2 = floor_of(floor, point[2]);
    let f3 = floor_of(floor, point[3]);
    clamp_spec(
        corner_sum4(
            table,
            f0.1 as int,
            f1.1 as int,
            f2.1 as int,
            f3.1 as int,
            point[0].sub_spec(f0.0),
            point[1].sub_spec(f1.0),
            point[2].sub_spec(f2.0),
            point[3].sub_spec(f3.0),
            15,
        ).mul_spec(constant_spec::<T>(surflet_scale_4d(), 4)),
        number::<T>(1).neg_spec(),
        number::<T>(1),
    )
}

/// Inner product of the offset `(x, y)` with the corner gradient that the
/// two low bits of `perm` select: one of the four diagonals.
pub open spec fn corner_dot2<T: Scalar>(perm: int, x: T, y: T) -> T {
    let k = perm % 4;
    if k == 0 {
        x.add_spec(y)
    } else if k == 1 {
        x.neg_spec().add_spec(y)
    } else if k == 2 {
        x.sub_spec(y)
    } else {
        x.neg_spec().sub_spec(y)
    }
}

fn gradient_dot_v2<T: Scalar>(perm: usize, x: T, y: T) -> (r: T)
    requires
        total_arithmetic::<T>(),
    ensures
        r == corner_dot2(perm as int, x, y),
{
    let k: usize = perm % 4;
    if k == 0 {
        x + y
    } else if k == 1 {
        x.neg() + y
    } else if k == 2 {
        x - y
    } else {
        x.neg() - y
    }
}

/// Inner product of the offset `(x, y, z)` with the corner gradient that the
/// four low bits of `perm` select: the twelve edge directions of a cube,
/// four of them twice.
pub open spec fn corner_dot3<T: Scalar>(perm: int, x: T, y: T, z: T) -> T {
    let k = perm % 16;
    if k == 0 || k == 12 {
        x.add_spec(y)
    } else if k == 1 || k == 13 {
        x.neg_spec().add_spec(y)
    } else if k == 2 {
        x.sub_spec(y)
    } else if k == 3 {
        x.neg_spec().sub_spec(y)
    } else if k == 4 {
        x.add_spec(z)
    } else if k == 5 {
        x.neg_spec().add_spec(z)
    } else if k == 6 {
        x.sub_spec(z)
    } else if k == 7 {
        x.neg_spec().sub_spec(z)
    } else if k == 8 {
        y.add_spec(z)
    } else if k == 9 || k == 14 {
        y.neg_spec().add_spec(z)
    } else if k == 10 {
        y.sub_spec(z)
    } else {
        y.neg_spec().sub_spec(z)
    }
}

fn gradient_dot_v3<T: Scalar>(perm: usize, x: T, y: T, z: T) -> (r: T)
    requires
        total_arithmetic::<T>(),
    ensures
        r == corner_dot3(perm as int, x, y, z),
{
    let k: usize = perm % 16;
    if k == 0 || k == 12 {
        x + y
    } else if k == 1 || k == 13 {
        x.neg() + y
    } else if k == 2 {
        x - y
    } else if k == 3 {
        x.neg() - y
    } else if k == 4 {
        x + z
    } else if k == 5 {
        x.neg() + z
    } else if k == 6 {
        x - z
    } else if k == 7 {
        x.neg() - z
    } else if k == 8 {
        y + z
    } else if k == 9 || k == 14 {
        y.neg() + z
    } else if k == 10 {
        y - z
    } else {
        y.neg() - z
    }
}

/// The gradient value at the corner `(bx, by)` of a two-dimensional cell.
pub open spec fn corner_value2<T: Scalar>(
    table: Seq<u8>,
    c0: int,
    c1: int,
    n0: T,
    n1: T,
    bx: int,
    by: int,
) -> T {
    corner_dot2(hash2(table, c0 + bx, c1 + by), corner_offset(n0, bx), corner_offset(n1, by))
}

/// Bilinear blend of the four corner values with the weights `u` and `v`,
/// written as a polynomial in the weights.
pub open spec fn blend2<T: Scalar>(g00: T, g10: T, g01: T, g11: T, u: T, v: T) -> T {
    let k0 = g00;
    let k1 = g10.sub_spec(g00);
    let k2 = g01.sub_spec(g00);
    let k3 = g00.add_spec(g11).sub_spec(g10).sub_spec(g01);
    k0.add_spec(k1.mul_spec(u)).add_spec(k2.mul_spec(v)).add_spec(k3.mul_spec(u).mul_spec(v))
}

/// Interpolated Perlin noise in two dimensions at a point given by its cell
/// and its fractions in the cell.
pub open spec fn lerp_noise2_in<T: Scalar>(table: Seq<u8>, c0: int, c1: int, n0: T, n1: T) -> T {
    let unscaled = blend2(
        corner_value2(table, c0, c1, n0, n1, 0, 0),
        corner_value2(table, c0, c1, n0, n1, 1, 0),
        corner_value2(table, c0, c1, n0, n1, 0, 1),
        corner_value2(table, c0, c1, n0, n1, 1, 1),
        s_curve5_spec(n0),
        s_curve5_spec(n1),
    );
    clamp_spec(
        unscaled.mul_spec(constant_spec::<T>(lerp_scale_2d(), 4)),
        number::<T>(1).neg_spec(),
        number::<T>(1),
    )
}

/// Interpolated Perlin noise in two dimensions: the gradients at the four
/// corners of the cell, blended along the quintic curve, scaled and limited
/// to the range from -1 to 1.
pub open spec fn lerp_noise2<T: Scalar, L: Fn(T) -> (T, isize)>(
    table: Seq<u8>,
    floor: L,
    x: T,
    y: T,
) -> T {
    let f0 = floor_of(floor, x);
    let f1 = floor_of(floor, y);
    lerp_noise2_in(table, f0.1 as int, f1.1 as int, x.sub_spec(f0.0), y.sub_spec(f1.0))
}

/// The gradient value at the corner `(bx, by, bz)` of a three-dimensional
/// cell.
pub open spec fn corner_value3<T: Scalar>(
    table: Seq<u8>,
    c0: int,
    c1: int,
    c2: int,
    n0: T,
    n1: T,
    n2: T,
    bx: int,
    by: int,
    bz: int,
) -> T {
    corner_dot3(
        hash3(table, c0 + bx, c1 + by, c2 + bz),
        corner_offset(n0, bx),
        corner_offset(n1, by),
        corner_offset(n2, bz),
    )
}

/// Trilinear blend of the eight corner values `g[bx + 2 by + 4 bz]` with
/// the weights `u`, `v` and `w`, written as a polynomial in the weights.
pub open spec fn blend3<T: Scalar>(g: Seq<T>, u: T, v: T, w: T) -> T {
    let g000 = g[0];
    let g100 = g[1];
    let g010 = g[2];
    let g110 = g[3];
    let g001 = g[4];
    let g101 = g[5];
    let g011 = g[6];
    let g111 = g[7];
    let k0 = g000;
    let k1 = g100.sub_spec(g000);
    let k2 = g010.sub_spec(g000);
    let k3 = g001.sub_spec(g000);
    let k4 = g000.add_spec(g110).sub_spec(g100).sub_spec(g010);
    let k5 = g000.add_spec(g101).sub_spec(g100).sub_spec(g001);
    let k6 = g000.add_spec(g011).sub_spec(g010).sub_spec(g001);
    let k7 = g100.add_spec(g010).add_spec(g001).add_spec(g111).sub_spec(g000).sub_spec(
        g110,
    ).sub_spec(g101).sub_spec(g011);
    k0.add_spec(k1.mul_spec(u)).add_spec(k2.mul_spec(v)).add_spec(k3.mul_spec(w)).add_spec(
        k4.mul_spec(u).mul_spec(v),
    ).add_spec(k5.mul_spec(u).mul_spec(w)).add_spec(k6.mul_spec(v).mul_spec(w)).add_spec(
        k7.mul_spec(u).mul_spec(v).mul_spec(w),
    )
}

/// The eight corner values of a three-dimensional cell, the corner `(bx,
/// by, bz)` at `bx + 2 by + 4 bz`.
pub open spec fn corner_values3<T: Scalar>(
    table: Seq<u8>,
    c0: int,
    c1: int,
    c2: int,
    n0: T,
    n1: T,
    n2: T,
) -> Seq<T> {
    Seq::new(
        8,
        |k: int| corner_value3(table, c0, c1, c2, n0, n1, n2, k % 2, (k / 2) % 2, (k / 4) % 2),
    )
}

/// Interpolated Perlin noise in three dimensions at a point given by its
/// cell and its fractions in the cell.
pub open spec fn lerp_noise3_in<T: Scalar>(
    table: Seq<u8>,
    c0: int,
    c1: int,
    c2: int,
    n0: T,
    n1: T,
    n2: T,
) -> T {
    let unscaled = blend3(
        corner_values3(table, c0, c1, c2, n0, n1, n2),
        s_curve5_spec(n0),
        s_curve5_spec(n1),
        s_curve5_spec(n2),
    );
    clamp_spec(
        unscaled.mul_spec(constant_spec::<T>(lerp_scale_3d(), 4)),
        number::<T>(1).neg_spec(),
        number::<T>(1),
    )
}

/// Interpolated Perlin noise in three dimensions.
pub open spec fn lerp_noise3<T: Scalar, L: Fn(T) -> (T, isize)>(
    table: Seq<u8>,
    floor: L,
    x: T,
    y: T,
    z: T,
) -> T {
    let f0 = floor_of(floor, x);
    let f1 = floor_of(floor, y);
    let f2 = floor_of(floor, z);
    lerp_noise3_in(
        table,
        f0.1 as int,
        f1.1 as int,
        f2.1 as int,
        x.sub_spec(f0.0),
        y.sub_spec(f1.0),
        z.sub_spec(f2.0),
    )
}

/// Noise function that outputs 2/3/4-dimensional Perlin noise.
///
/// The scalar type brings its arithmetic; the rounding to the lattice is
/// handed in: for a scalar it returns the largest whole scalar that is not
/// above it, and the same number as an integer.
pub struct Perlin<L> {
    seed: u32,
    perm_table: PermutationTable,
    floor: L,
}

impl<L: Copy> Clone for Perlin<L> {
    fn clone(&self) -> (r: Self)
        ensures
            r == *self,
    {
        proof {
            use_type_invariant(self);
        }
        Perlin { seed: self.seed, perm_table: self.perm_table, floor: self.floor }
    }
}

impl<L: Copy> Copy for Perlin<L> {

}

impl<L> Perlin<L> {
    #[verifier::type_invariant]
    spec fn table_belongs_to_seed(self) -> bool {
        self.perm_table@ == permutation_of(self.seed)
    }

    /// The seed that the permutation table was made from.
    pub closed spec fn seed_of(&self) -> u32 {
        self.seed
    }

    /// The permutation table.
    pub closed spec fn table(&self) -> Seq<u8> {
        self.perm_table@
    }

    /// The rounding to the lattice.
    pub closed spec fn rounding(&self) -> L {
        self.floor
    }

    /// The noise function with the default seed.
    pub fn new(floor: L) -> (r: Self)
        ensures
            r.seed_of() == DEFAULT_SEED,
            r.table() == permutation_of(DEFAULT_SEED),
            r.rounding() == floor,
    {
        Perlin { seed: DEFAULT_SEED, perm_table: PermutationTable::new(DEFAULT_SEED), floor }
    }
}

impl<L> Seedable for Perlin<L> {
    open spec fn seedable(&self) -> bool {
        true
    }

    open spec fn seed_value(&self) -> u32 {
        self.seed_of()
    }

    /// Sets the seed value for Perlin noise: the table is made anew, the
    /// rounding stays.
    fn set_seed(self, seed: u32) -> (r: Self)
        ensures
            r.seed_of() == seed,
            r.table() == permutation_of(seed),
            r.rounding() == self.rounding(),
            self.table() == permutation_of(self.seed_of()),
            seed == self.seed_of() ==> r.table() == self.table(),
    {
        proof {
            use_type_invariant(&self);
        }
        if self.seed == seed {
            return self;
        }
        Perlin { seed, perm_table: PermutationTable::new(seed), floor: self.floor }
    }

    /// The seed; the table of the noise function is the one that belongs
    /// to it.
    fn seed(&self) -> (r: u32)
        ensures
            self.table() == permutation_of(r),
    {
        proof {
            use_type_invariant(self);
        }
        self.seed
    }
}

/// A noise function can be evaluated on the scalar `T`: the arithmetic of
/// `T` and the rounding are functions defined everywhere.
pub open spec fn evaluable<T: Scalar, L: Fn(T) -> (T, isize)>(floor: L) -> bool {
    total_arithmetic::<T>() && is_rounding::<T, L>(floor)
}

impl<L> Perlin<L> {
    fn split<T: Scalar>(&self, x: T) -> (r: (T, isize)) where L: Fn(T) -> (T, isize)
        requires
            evaluable::<T, L>(self.rounding()),
        ensures
            r == floor_of(self.rounding(), x),
    {
        (self.floor)(x)
    }

    /// Surflet Perlin noise in 2 dimensions.
    pub fn perlin_2d_surflet<T: Scalar>(&self, point: [T; 2]) -> (r: T) where L: Fn(T) -> (T, isize)
        requires
            evaluable::<T, L>(self.rounding()),
        ensures
            r == surflet_noise2(self.table(), self.rounding(), point),
            unit_range_in_order::<T>() ==> in_unit_range(r),
    {
        let f0: (T, isize) = self.split(point[0]);
        let f1: (T, isize) = self.split(point[1]);
        let cell: [isize; 2] = [f0.1, f1.1];
        let n0: T = point[0] - f0.0;
        let n1: T = point[1] - f1.0;
        let one: T = from_number(1u16);
        let mut total: T = from_number(0u16);
        let mut k: u8 = 0;
        while k < 4
            invariant
                total_arithmetic::<T>(),
                k <= 4,
                one == number::<T>(1),
                cell == [f0.1, f1.1],
                k > 0 ==> total == corner_sum2(
                    self.table(),
                    f0.1 as int,
                    f1.1 as int,
                    n0,
                    n1,
                    k - 1,
                ),
            decreases 4 - k,
        {
            let b0: i8 = (k % 2) as i8;
            let b1: i8 = ((k / 2) % 2) as i8;
            let d: [T; 2] = [offset_from(n0, b0), offset_from(n1, b1)];
            let h: usize = self.perm_table.at2(cell, [b0, b1]);
            let g: [T; 2] = gradient2(h);
            let f: T = surflet(one, dot2(d, d), dot2(d, g));
            assert(f == corner_surflet2(self.table(), f0.1 as int, f1.1 as int, n0, n1, k as int));
            if k == 0 {
                total = f;
            } else {
                total = total + f;
            }
            k += 1;
        }
        clamp_to_unit(total * constant::<T>([3u16, 10518u16, 8090u16, 56636u16, 0u16], 4))
    }

    /// Surflet Perlin noise in 3 dimensions.
    pub fn perlin_3d_surflet<T: Scalar>(&self, point: [T; 3]) -> (r: T) where L: Fn(T) -> (T, isize)
        requires
            evaluable::<T, L>(self.rounding()),
        ensures
            r == surflet_noise3(self.table(), self.rounding(), point),
            unit_range_in_order::<T>() ==> in_unit_range(r),
    {
        let f0: (T, isize) = self.split(point[0]);
        let f1: (T, isize) = self.split(point[1]);
        let f2: (T, isize) = self.split(point[2]);
        let cell: [isize; 3] = [f0.1, f1.1, f2.1];
        let n0: T = point[0] - f0.0;
        let n1: T = point[1] - f1.0;
        let n2: T = point[2] - f2.0;
        let one: T = from_number(1u16);
        let mut total: T = from_number(0u16);
        let mut k: u8 = 0;
        while k < 8
            invariant
                total_arithmetic::<T>(),
                k <= 8,
                one == number::<T>(1),
                cell == [f0.1, f1.1, f2.1],
                k > 0 ==> total == corner_sum3(
                    self.table(),
                    f0.1 as int,
                    f1.1 as int,
                    f2.1 as int,
                    n0,
                    n1,
                    n2,
                    k - 1,
                ),
            decreases 8 - k,
        {
            let b0: i8 = (k % 2) as i8;
            let b1: i8 = ((k / 2) % 2) as i8;
            let b2: i8 = ((k / 4) % 2) as i8;
            let d: [T; 3] = [offset_from(n0, b0), offset_from(n1, b1), offset_from(n2, b2)];
            let h: usize = self.perm_table.at3(cell, [b0, b1, b2]);
            let g: [T; 3] = gradient3(h);
            let f: T = surflet(one, dot3(d, d), dot3(d, g));
            assert(f == corner_surflet3(
                self.table(),
                f0.1 as int,
                f1.1 as int,
                f2.1 as int,
                n0,
                n1,
                n2,
                k as int,
            ));
            if k == 0 {
                total = f;
            } else {
                total = total + f;
            }
            k += 1;
        }
        clamp_to_unit(
            total * constant::<T>([3u16, 58317u16, 36609u16, 27658u16, 8192u16], 4))
    }

    /// Surflet Perlin noise in 4 dimensions.
    pub fn perlin_4d<T: Scalar>(&self, point: [T; 4]) -> (r: T) where L: Fn(T) -> (T, isize)
        requires
            evaluable::<T, L>(self.rounding()),
        ensures
            r == surflet_noise4(self.table(), self.rounding(), point),
            unit_range_in_order::<T>() ==> in_unit_range(r),
    {
        let f0: (T, isize) = self.split(point[0]);
        let f1: (T, isize) = self.split(point[1]);
        let f2: (T, isize) = self.split(point[2]);
        let f3: (T, isize) = self.split(point[3]);
        let cell: [isize; 4] = [f0.1, f1.1, f2.1, f3.1];
        let n0: T = point[0] - f0.0;
        let n1: T = point[1] - f1.0;
        let n2: T = point[2] - f2.0;
        let n3: T = point[3] - f3.0;
        let one: T = from_number(1u16);
        let mut total: T = from_number(0u16);
        let mut k: u8 = 0;
        while k < 16
            invariant
                total_arithmetic::<T>(),
                k <= 16,
                one == number::<T>(1),
                cell == [f0.1, f1.1, f2.1, f3.1],
                k > 0 ==> total == corner_sum4(
                    self.table(),
                    f0.1 as int,
                    f1.1 as int,
                    f2.1 as int,
                    f3.1 as int,
                    n0,
                    n1,
                    n2,
                    n3,
                    k - 1,
                ),
            decreases 16 - k,
        {
            let b0: i8 = (k % 2) as i8;
            let b1: i8 = ((k / 2) % 2) as i8;
            let b2: i8 = ((k / 4) % 2) as i8;
            let b3: i8 = ((k / 8) % 2) as i8;
            let d: [T; 4] = [
                offset_from(n0, b0),
                offset_from(n1, b1),
                offset_from(n2, b2),
                offset_from(n3, b3),
            ];
            let h: usize = self.perm_table.at4(cell, [b0, b1, b2, b3]);
            let g: [T; 4] = gradient4(h);
            let f: T = surflet(one, dot4(d, d), dot4(d, g));
            assert(f == corner_surflet4(
                self.table(),
                f0.1 as int,
                f1.1 as int,
                f2.1 as int,
                f3.1 as int,
                n0,
                n1,
                n2,
                n3,
                k as int,
            ));
            if k == 0 {
                total = f;
            } else {
                total = total + f;
            }
            k += 1;
        }
        clamp_to_unit(
            total * constant::<T>([4u16, 27811u16, 30312u16, 10142u16, 32768u16], 4))
    }

    fn corner2<T: Scalar>(&self, cell: [isize; 2], n0: T, n1: T, bx: i8, by: i8) -> (r: T)
        requires
            total_arithmetic::<T>(),
            0 <= bx <= 1,
            0 <= by <= 1,
        ensures
            r == corner_value2(
                self.table(),
                cell[0] as int,
                cell[1] as int,
                n0,
                n1,
                bx as int,
                by as int,
            ),
    {
        gradient_dot_v2(
            self.perm_table.at2(cell, [bx, by]),
            offset_from(n0, bx),
            offset_from(n1, by),
        )
    }

    /// Interpolated Perlin noise in two dimensions.
    pub fn perlin_2d<T: Scalar>(&self, x: T, y: T) -> (r: T) where L: Fn(T) -> (T, isize)
        requires
            evaluable::<T, L>(self.rounding()),
        ensures
            r == lerp_noise2(self.table(), self.rounding(), x, y),
            unit_range_in_order::<T>() ==> in_unit_range(r),
    {
        let f0: (T, isize) = self.split(x);
        let f1: (T, isize) = self.split(y);
        let near_corner: [isize; 2] = [f0.1, f1.1];
        let n0: T = x - f0.0;
        let n1: T = y - f1.0;
        let u: T = s_curve5(n0);
        let v: T = s_curve5(n1);
        let g00: T = self.corner2(near_corner, n0, n1, 0, 0);
        let g10: T = self.corner2(near_corner, n0, n1, 1, 0);
        let g01: T = self.corner2(near_corner, n0, n1, 0, 1);
        let g11: T = self.corner2(near_corner, n0, n1, 1, 1);
        let k0: T = g00;
        let k1: T = g10 - g00;
        let k2: T = g01 - g00;
        let k3: T = g00 + g11 - g10 - g01;
        let unscaled_result: T = k0 + k1 * u + k2 * v + k3 * u * v;
        let scaled_result: T = unscaled_result * constant::<T>(
            [1u16, 27145u16, 58983u16, 62396u16, 53248u16],
            4,
        );
        clamp_to_unit(scaled_result)
    }

    fn corner3<T: Scalar>(
        &self,
        cell: [isize; 3],
        n0: T,
        n1: T,
        n2: T,
        bx: i8,
        by: i8,
        bz: i8,
    ) -> (r: T)
        requires
            total_arithmetic::<T>(),
            0 <= bx <= 1,
            0 <= by <= 1,
            0 <= bz <= 1,
        ensures
            r == corner_value3(
                self.table(),
                cell[0] as int,
                cell[1] as int,
                cell[2] as int,
                n0,
                n1,
                n2,
                bx as int,
                by as int,
                bz as int,
            ),
    {
        gradient_dot_v3(
            self.perm_table.at3(cell, [bx, by, bz]),
            offset_from(n0, bx),
            offset_from(n1, by),
            offset_from(n2, bz),
        )
    }

    /// Interpolated Perlin noise in three dimensions.
    pub fn perlin_3d<T: Scalar>(&self, x: T, y: T, z: T) -> (r: T) where L: Fn(T) -> (T, isize)
        requires
            evaluable::<T, L>(self.rounding()),
        ensures
            r == lerp_noise3(self.table(), self.rounding(), x, y, z),
            unit_range_in_order::<T>() ==> in_unit_range(r),
    {
        let f0: (T, isize) = self.split(x);
        let f1: (T, isize) = self.split(y);
        let f2: (T, isize) = self.split(z);
        let near_corner: [isize; 3] = [f0.1, f1.1, f2.1];
        let n0: T = x - f0.0;
        let n1: T = y - f1.0;
        let n2: T = z - f2.0;
        let u: T = s_curve5(n0);
        let v: T = s_curve5(n1);
        let w: T = s_curve5(n2);
        let g000: T = self.corner3(near_corner, n0, n1, n2, 0, 0, 0);
        let g100: T = self.corner3(near_corner, n0, n1, n2, 1, 0, 0);
        let g010: T = self.corner3(near_corner, n0, n1, n2, 0, 1, 0);
        let g110: T = self.corner3(near_corner, n0, n1, n2, 1, 1, 0);
        let g001: T = self.corner3(near_corner, n0, n1, n2, 0, 0, 1);
        let g101: T = self.corner3(near_corner, n0, n1, n2, 1, 0, 1);
        let g011: T = self.corner3(near_corner, n0, n1, n2, 0, 1, 1);
        let g111: T = self.corner3(near_corner, n0, n1, n2, 1, 1, 1);
        let k0: T = g000;
        let k1: T = g100 - g000;
        let k2: T = g010 - g000;
        let k3: T = g001 - g000;
        let k4: T = g000 + g110 - g100 - g010;
        let k5: T = g000 + g101 - g100 - g001;
        let k6: T = g000 + g011 - g010 - g001;
        let k7: T = g100 + g010 + g001 + g111 - g000 - g110 - g101 - g011;
        let unscaled_result: T = k0 + k1 * u + k2 * v + k3 * w + k4 * u * v + k5 * u * w + k6 * v
            * w + k7 * u * v * w;
        let scaled_result: T = unscaled_result * constant::<T>(
            [1u16, 10138u16, 29785u16, 817u16, 53248u16],
            4,
        );
        clamp_to_unit(scaled_result)
    }
}

/// 2-dimensional perlin noise, in its surflet form.
impl<T: Scalar, L: Fn(T) -> (T, isize)> NoiseFn<[T; 2], T> for Perlin<L> {
    open spec fn usable(&self) -> bool {
        evaluable::<T, L>(self.rounding())
    }

    open spec fn value_at(&self, point: [T; 2]) -> T {
        surflet_noise2(self.table(), self.rounding(), point)
    }

    fn get(&self, point: [T; 2]) -> (r: T) {
        self.perlin_2d_surflet(point)
    }
}

/// 3-dimensional perlin noise, interpolated.
impl<T: Scalar, L: Fn(T) -> (T, isize)> NoiseFn<[T; 3], T> for Perlin<L> {
    open spec fn usable(&self) -> bool {
        evaluable::<T, L>(self.rounding())
    }

    open spec fn value_at(&self, point: [T; 3]) -> T {
        lerp_noise3(self.table(), self.rounding(), point[0], point[1], point[2])
    }

    fn get(&self, point: [T; 3]) -> (r: T) {
        self.perlin_3d(point[0], point[1], point[2])
    }
}

/// 4-dimensional perlin noise, in its surflet form.
impl<T: Scalar, L: Fn(T) -> (T, isize)> NoiseFn<[T; 4], T> for Perlin<L> {
    open spec fn usable(&self) -> bool {
        evaluable::<T, L>(self.rounding())
    }

    open spec fn value_at(&self, point: [T; 4]) -> T {
        surflet_noise4(self.table(), self.rounding(), point)
    }

    fn get(&self, point: [T; 4]) -> (r: T) {
        self.perlin_4d(point)
    }
}

/// The interpolated form of a Perlin noise function, as a function of
/// points.
struct Interpolated<'a, L> {
    noise: &'a Perlin<L>,
}

impl<'a, T: Scalar, L: Fn(T) -> (T, isize)> NoiseFn<[T; 2], T> for Interpolated<'a, L> {
    closed spec fn usable(&self) -> bool {
        evaluable::<T, L>(self.noise.rounding())
    }

    closed spec fn value_at(&self, point: [T; 2]) -> T {
        lerp_noise2(self.noise.table(), self.noise.rounding(), point[0], point[1])
    }

    fn get(&self, point: [T; 2]) -> (r: T) {
        self.noise.perlin_2d(point[0], point[1])
    }
}

/// The points whose coordinates stand at one index of each slice, as far as
/// the shortest slice goes.
fn zipped2<T: Copy>(x: &[T], y: &[T]) -> (r: Vec<[T; 2]>)
    ensures
        r@.len() == if x@.len() <= y@.len() { x@.len() } else { y@.len() },
        forall|i: int| 0 <= i < r@.len() ==> (#[trigger] r@[i])[0] == x@[i] && r@[i][1] == y@[i],
{
    let n: usize = if x.len() <= y.len() { x.len() } else { y.len() };
    let mut out: Vec<[T; 2]> = Vec::new();
    let mut i: usize = 0;
    while i < n
        invariant
            i <= n,
            n <= x@.len(),
            n <= y@.len(),
            out@.len() == i,
            forall|k: int| 0 <= k < i ==> (#[trigger] out@[k])[0] == x@[k] && out@[k][1] == y@[k],
        decreases n - i,
    {
        out.push([x[i], y[i]]);
        i += 1;
    }
    out
}

fn zipped3<T: Copy>(x: &[T], y: &[T], z: &[T]) -> (r: Vec<[T; 3]>)
    ensures
        r@.len() <= x@.len(),
        r@.len() <= y@.len(),
        r@.len() <= z@.len(),
        r@.len() == x@.len() || r@.len() == y@.len() || r@.len() == z@.len(),
        forall|i: int|
            0 <= i < r@.len() ==> (#[trigger] r@[i])[0] == x@[i] && r@[i][1] == y@[i] && r@[i][2]
                == z@[i],
{
    let m: usize = if x.len() <= y.len() { x.len() } else { y.len() };
    let n: usize = if m <= z.len() { m } else { z.len() };
    let mut out: Vec<[T; 3]> = Vec::new();
    let mut i: usize = 0;
    while i < n
        invariant
            i <= n,
            n <= x@.len(),
            n <= y@.len(),
            n <= z@.len(),
            out@.len() == i,
            forall|k: int|
                0 <= k < i ==> (#[trigger] out@[k])[0] == x@[k] && out@[k][1] == y@[k] && out@[k][2]
                    == z@[k],
        decreases n - i,
    {
        out.push([x[i], y[i], z[i]]);
        i += 1;
    }
    out
}

/// What the batch forms return for coordinates given axis by axis: as many
/// values as the shortest slice is long, each the interpolated noise at the
/// point whose coordinates stand at its index.
pub open spec fn batch2<T: Scalar, L: Fn(T) -> (T, isize)>(
    table: Seq<u8>,
    floor: L,
    x: Seq<T>,
    y: Seq<T>,
) -> Seq<T> {
    Seq::new(
        if x.len() <= y.len() { x.len() } else { y.len() },
        |i: int| lerp_noise2(table, floor, x[i], y[i]),
    )
}

pub open spec fn batch3<T: Scalar, L: Fn(T) -> (T, isize)>(
    table: Seq<u8>,
    floor: L,
    x: Seq<T>,
    y: Seq<T>,
    z: Seq<T>,
) -> Seq<T> {
    Seq::new(
        if x.len() <= y.len() && x.len() <= z.len() {
            x.len()
        } else if y.len() <= z.len() {
            y.len()
        } else {
            z.len()
        },
        |i: int| lerp_noise3(table, floor, x[i], y[i], z[i]),
    )
}

impl<L> Perlin<L> {
    /// Interpolated noise at each point of a batch, one after the other.
    pub fn perlin_2d_autovec<T: Scalar>(&self, x: &[T], y: &[T]) -> (r: Vec<T>) where
        L: Fn(T) -> (T, isize),

        requires
            evaluable::<T, L>(self.rounding()),
        ensures
            r@ == batch2(self.table(), self.rounding(), x@, y@),
    {
        let points: Vec<[T; 2]> = zipped2(x, y);
        let kernel = Interpolated { noise: self };
        let out: Vec<T> = sample_serial(&kernel, &points);
        assert(out@ =~= batch2(self.table(), self.rounding(), x@, y@));
        out
    }

    /// Interpolated noise at each point of a batch, the points spread over
    /// rayon's threads.
    pub fn perlin_2d_autovec_pariter<T: Scalar + Send + Sync>(&self, x: &[T], y: &[T]) -> (r: Vec<
        T,
    >) where L: Fn(T) -> (T, isize) + Sync
        requires
            evaluable::<T, L>(self.rounding()),
        ensures
            r@ == batch2(self.table(), self.rounding(), x@, y@),
    {
        let points: Vec<[T; 2]> = zipped2(x, y);
        let kernel = Interpolated { noise: self };
        let out: Vec<T> = sample_parallel(&kernel, &points);
        assert(out@ =~= batch2(self.table(), self.rounding(), x@, y@));
        out
    }

    /// Interpolated noise at each point of a batch, one after the other.
    pub fn perlin_3d_autovec<T: Scalar>(&self, x: &[T], y: &[T], z: &[T]) -> (r: Vec<T>) where
        L: Fn(T) -> (T, isize),

        requires
            evaluable::<T, L>(self.rounding()),
        ensures
            r@ == batch3(self.table(), self.rounding(), x@, y@, z@),
    {
        let points: Vec<[T; 3]> = zipped3(x, y, z);
        let out: Vec<T> = sample_serial(self, &points);
        assert(out@ =~= batch3(self.table(), self.rounding(), x@, y@, z@));
        out
    }

    /// Interpolated noise at each point of a batch, the points spread over
    /// rayon's threads.
    pub fn perlin_3d_autovec_pariter<T: Scalar + Send + Sync>(
        &self,
        x: &[T],
        y: &[T],
        z: &[T],
    ) -> (r: Vec<T>) where L: Fn(T) -> (T, isize) + Sync
        requires
            evaluable::<T, L>(self.rounding()),
        ensures
            r@ == batch3(self.table(), self.rounding(), x@, y@, z@),
    {
        let points: Vec<[T; 3]> = zipped3(x, y, z);
        let out: Vec<T> = sample_parallel(self, &points);
        assert(out@ =~= batch3(self.table(), self.rounding(), x@, y@, z@));
        out
    }
}

/// Serial and parallel batches agree, value by value.
pub proof fn lemma_batches_agree<T: Scalar, L: Fn(T) -> (T, isize)>(
    table: Seq<u8>,
    floor: L,
    x: Seq<T>,
    y: Seq<T>,
    serial: Seq<T>,
    parallel: Seq<T>,
)
    requires
        serial == batch2(table, floor, x, y),
        parallel == batch2(table, floor, x, y),
    ensures
        serial == parallel,
{
}

impl<T: Scalar, L: Fn(T) -> (T, isize)> NoiseFieldFn<NoiseField2D<T>> for Perlin<L> {
    open spec fn accepts(&self, field: &NoiseField2D<T>) -> bool {
        evaluable::<T, L>(self.rounding())
    }

    /// Every sample gets the value of the noise function at its
    /// coordinate.
    open spec fn output(&self, field: &NoiseField2D<T>) -> Seq<T> {
        Seq::new(
            field.coordinates@.len(),
            |i: int| surflet_noise2(self.table(), self.rounding(), field.coordinates@[i]),
        )
    }

    fn process_field(&self, field: &NoiseField2D<T>) -> (out: NoiseField2D<T>) {
        let out = evaluate_serial(self, field);
        assert(out.value_seq() =~= self.output(field));
        out
    }
}

impl<T: Scalar, L: Fn(T) -> (T, isize)> NoiseFieldFn<NoiseField3D<T>> for Perlin<L> {
    open spec fn accepts(&self, field: &NoiseField3D<T>) -> bool {
        evaluable::<T, L>(self.rounding())
    }

    open spec fn output(&self, field: &NoiseField3D<T>) -> Seq<T> {
        Seq::new(
            field.coordinates@.len(),
            |i: int|
                lerp_noise3(
                    self.table(),
                    self.rounding(),
                    field.coordinates@[i][0],
                    field.coordinates@[i][1],
                    field.coordinates@[i][2],
                ),
        )
    }

    fn process_field(&self, field: &NoiseField3D<T>) -> (out: NoiseField3D<T>) {
        let out = evaluate_serial(self, field);
        assert(out.value_seq() =~= self.output(field));
        out
    }
}

/// Perlin noise lies in the range from -1 to 1, in each of its forms and
/// dimensions, at every point, for every table and rounding, where the
/// order of the scalars is that of numbers.
pub proof fn lemma_perlin_in_range<T: Scalar, L: Fn(T) -> (T, isize)>(
    table: Seq<u8>,
    floor: L,
    flat: [T; 2],
    solid: [T; 3],
    hyper: [T; 4],
)
    requires
        unit_range_in_order::<T>(),
    ensures
        in_unit_range(surflet_noise2(table, floor, flat)),
        in_unit_range(surflet_noise3(table, floor, solid)),
        in_unit_range(surflet_noise4(table, floor, hyper)),
        in_unit_range(lerp_noise2(table, floor, flat[0], flat[1])),
        in_unit_range(lerp_noise3(table, floor, solid[0], solid[1], solid[2])),
{
    let f0 = floor_of(floor, flat[0]);
    let f1 = floor_of(floor, flat[1]);
    lemma_clamp_in_unit_range(
        corner_sum2(
            table,
            f0.1 as int,
            f1.1 as int,
            flat[0].sub_spec(f0.0),
            flat[1].sub_spec(f1.0),
            3,
        ).mul_spec(constant_spec::<T>(surflet_scale_2d(), 4)),
    );
    assert forall|v: T| #[trigger] in_unit_range(clamp_spec(
        v,
        number::<T>(1).neg_spec(),
        number::<T>(1),
    )) by {
        lemma_clamp_in_unit_range(v);
    }
}

/// Two noise functions made from one seed with one rounding are the same
/// function of the point, in each form and dimension.
pub proof fn lemma_same_seed_same_noise<T: Scalar, L: Fn(T) -> (T, isize)>(
    a: Perlin<L>,
    b: Perlin<L>,
    seed: u32,
    flat: [T; 2],
    solid: [T; 3],
    hyper: [T; 4],
)
    requires
        a.table() == permutation_of(seed),
        b.table() == permutation_of(seed),
        a.rounding() == b.rounding(),
    ensures
        surflet_noise2(a.table(), a.rounding(), flat) == surflet_noise2(
            b.table(),
            b.rounding(),
            flat,
        ),
        surflet_noise3(a.table(), a.rounding(), solid) == surflet_noise3(
            b.table(),
            b.rounding(),
            solid,
        ),
        surflet_noise4(a.table(), a.rounding(), hyper) == surflet_noise4(
            b.table(),
            b.rounding(),
            hyper,
        ),
        lerp_noise2(a.table(), a.rounding(), flat[0], flat[1]) == lerp_noise2(
            b.table(),
            b.rounding(),
            flat[0],
            flat[1],
        ),
        lerp_noise3(a.table(), a.rounding(), solid[0], solid[1], solid[2]) == lerp_noise3(
            b.table(),
            b.rounding(),
            solid[0],
            solid[1],
            solid[2],
        ),
{
}

/// Over a field the noise function gives every sample the value that it
/// has at the sample's coordinate, in two dimensions and in three.
pub proof fn lemma_field_values_are_point_values<T: Scalar, L: Fn(T) -> (T, isize)>(
    noise: Perlin<L>,
    flat: &NoiseField2D<T>,
    solid: &NoiseField3D<T>,
)
    ensures
        NoiseFieldFn::<NoiseField2D<T>>::output(&noise, flat).len() == flat.coordinates@.len(),
        forall|i: int|
            0 <= i < flat.coordinates@.len() ==> #[trigger] NoiseFieldFn::<
                NoiseField2D<T>,
            >::output(&noise, flat)[i] == NoiseFn::<[T; 2], T>::value_at(
                &noise,
                flat.coordinates@[i],
            ),
        NoiseFieldFn::<NoiseField3D<T>>::output(&noise, solid).len() == solid.coordinates@.len(),
        forall|i: int|
            0 <= i < solid.coordinates@.len() ==> #[trigger] NoiseFieldFn::<
                NoiseField3D<T>,
            >::output(&noise, solid)[i] == NoiseFn::<[T; 3], T>::value_at(
                &noise,
                solid.coordinates@[i],
            ),
{
}

} // verus!
