//! Gradient directions of the lattice: every gradient is a vector with
//! components in `{-1, 0, 1}`, to be scaled to unit length by whoever does
//! the arithmetic.
use crate::scalar::{constant, constant_spec, from_number, number, total_arithmetic, Scalar};
use core::ops::Neg;
use vstd::prelude::*;
use vstd::std_specs::ops::{DivSpec, NegSpec};

verus! {

/// `1` where the bit `bit` of `k` is clear, `-1` where it is set.
pub open spec fn sign_of_bit(k: int, bit: int) -> int {
    if (k / bit) % 2 == 0 {
        1
    } else {
        -1
    }
}

/// Component `axis` of the two-dimensional direction `k`, for `k` in `0..8`:
/// the four axis directions, then the four diagonals.
pub open spec fn direction2(k: int, axis: int) -> int {
    if k < 4 {
        if axis == k / 2 {
            sign_of_bit(k, 1)
        } else {
            0
        }
    } else {
        sign_of_bit(k, if axis == 0 { 1 } else { 2 })
    }
}

/// Component `axis` of the three-dimensional direction `k`, for `k` in
/// `0..32`: the twelve edge directions of a cube, written twice, then its
/// eight corner directions.
pub open spec fn direction3(k: int, axis: int) -> int {
    if k < 24 {
        let e = k % 12;
        let zero_axis = 2 - e / 4;
        if axis == zero_axis {
            0
        } else if axis < zero_axis && axis == 0 || axis > zero_axis && axis == 1 {
            sign_of_bit(e, 1)
        } else {
            sign_of_bit(e, 2)
        }
    } else {
        sign_of_bit(k, if axis == 0 { 1 } else if axis == 1 { 2 } else { 4 })
    }
}

/// Component `axis` of the four-dimensional direction `k`, for `k` in
/// `0..64`: for each axis in turn the eight directions that are zero along
/// it, then the sixteen corner directions of a hypercube, written twice.
pub open spec fn direction4(k: int, axis: int) -> int {
    if k < 32 {
        let zero_axis = k / 8;
        if axis == zero_axis {
            0
        } else {
            let place = if axis < zero_axis { axis } else { axis - 1 };
            sign_of_bit(k, if place == 0 { 1 } else if place == 1 { 2 } else { 4 })
        }
    } else {
        sign_of_bit(
            k,
            if axis == 0 { 1 } else if axis == 1 { 2 } else if axis == 2 { 4 } else { 8 },
        )
    }
}

/// One for a component that is not zero, zero for one that is.
pub open spec fn counts(d: int) -> int {
    if d == 0 {
        0
    } else {
        1
    }
}

/// Number of components of the direction that are not zero: each of them is
/// one or minus one, so this is the squared length of the direction.
pub open spec fn squared_length2(k: int) -> int {
    counts(direction2(k, 0)) + counts(direction2(k, 1))
}

pub open spec fn squared_length3(k: int) -> int {
    counts(direction3(k, 0)) + counts(direction3(k, 1)) + counts(direction3(k, 2))
}

pub open spec fn squared_length4(k: int) -> int {
    counts(direction4(k, 0)) + counts(direction4(k, 1)) + counts(direction4(k, 2)) + counts(
        direction4(k, 3),
    )
}

fn sign(set: bool) -> (r: i8)
    ensures
        r == if set { -1i8 } else { 1i8 },
{
    if set {
        -1
    } else {
        1
    }
}

/// Direction of the two-dimensional gradient selected by `index`.
pub fn get2(index: usize) -> (r: [i8; 2])
    ensures
        r[0] == direction2(index as int % 8, 0),
        r[1] == direction2(index as int % 8, 1),
{
    let k: usize = index % 8;
    let s: i8 = sign(k % 2 == 1);
    if k < 2 {
        [s, 0]
    } else if k < 4 {
        [0, s]
    } else {
        [s, sign((k / 2) % 2 == 1)]
    }
}

/// Direction of the three-dimensional gradient selected by `index`.
pub fn get3(index: usize) -> (r: [i8; 3])
    ensures
        r[0] == direction3(index as int % 32, 0),
        r[1] == direction3(index as int % 32, 1),
        r[2] == direction3(index as int % 32, 2),
{
    let k: usize = index % 32;
    if k < 24 {
        let e: usize = k % 12;
        let a: i8 = sign(e % 2 == 1);
        let b: i8 = sign((e / 2) % 2 == 1);
        if e < 4 {
            [a, b, 0]
        } else if e < 8 {
            [a, 0, b]
        } else {
            [0, a, b]
        }
    } else {
        [sign(k % 2 == 1), sign((k / 2) % 2 == 1), sign((k / 4) % 2 == 1)]
    }
}

/// Direction of the four-dimensional gradient selected by `index`.
pub fn get4(index: usize) -> (r: [i8; 4])
    ensures
        r[0] == direction4(index as int % 64, 0),
        r[1] == direction4(index as int % 64, 1),
        r[2] == direction4(index as int % 64, 2),
        r[3] == direction4(index as int % 64, 3),
{
    let k: usize = index % 64;
    let a: i8 = sign(k % 2 == 1);
    let b: i8 = sign((k / 2) % 2 == 1);
    let c: i8 = sign((k / 4) % 2 == 1);
    if k < 8 {
        [0, a, b, c]
    } else if k < 16 {
        [a, 0, b, c]
    } else if k < 24 {
        [a, b, 0, c]
    } else if k < 32 {
        [a, b, c, 0]
    } else {
        [a, b, c, sign((k / 8) % 2 == 1)]
    }
}

/// Index of the direction opposite to the two-dimensional direction `k`.
pub open spec fn opposite2(k: int) -> int {
    if k < 4 {
        if k % 2 == 0 { k + 1 } else { k - 1 }
    } else {
        11 - k
    }
}

/// No two-dimensional direction is the zero vector: an axis direction has
/// squared length 1, a diagonal 2; every component is zero, one or minus
/// one; and with each direction the table holds its opposite.
pub proof fn lemma_directions2(k: int)
    requires
        0 <= k < 8,
    ensures
        squared_length2(k) == if k < 4 { 1int } else { 2int },
        0 <= opposite2(k) < 8,
        direction2(opposite2(k), 0) == -direction2(k, 0),
        direction2(opposite2(k), 1) == -direction2(k, 1),
{
}

/// Index of the direction opposite to the three-dimensional direction `k`.
pub open spec fn opposite3(k: int) -> int {
    if k < 24 {
        k - k % 4 + (3 - k % 4)
    } else {
        55 - k
    }
}

/// An edge direction has squared length 2, a corner direction 3; and with
/// each direction the table holds its opposite.
#[verifier::rlimit(40)]
pub proof fn lemma_directions3(k: int)
    requires
        0 <= k < 32,
    ensures
        squared_length3(k) == if k < 24 { 2int } else { 3int },
        0 <= opposite3(k) < 32,
        direction3(opposite3(k), 0) == -direction3(k, 0),
        direction3(opposite3(k), 1) == -direction3(k, 1),
        direction3(opposite3(k), 2) == -direction3(k, 2),
{
    if k < 24 {
        let e = k % 12;
        assert(0 <= e < 12);
        assert(e / 4 == 0 || e / 4 == 1 || e / 4 == 2);
        assert(opposite3(k) % 12 == e - e % 4 + (3 - e % 4));
    } else {
        assert(24 <= opposite3(k) < 32);
    }
}

/// Index of the direction opposite to the four-dimensional direction `k`.
pub open spec fn opposite4(k: int) -> int {
    if k < 32 {
        k - k % 8 + (7 - k % 8)
    } else {
        k - k % 16 + (15 - k % 16)
    }
}

/// A direction with one zero component has squared length 3, a corner
/// direction 4; and with each direction the table holds its opposite.
#[verifier::rlimit(40)]
pub proof fn lemma_directions4(k: int)
    requires
        0 <= k < 64,
    ensures
        squared_length4(k) == if k < 32 { 3int } else { 4int },
        0 <= opposite4(k) < 64,
        direction4(opposite4(k), 0) == -direction4(k, 0),
        direction4(opposite4(k), 1) == -direction4(k, 1),
        direction4(opposite4(k), 2) == -direction4(k, 2),
        direction4(opposite4(k), 3) == -direction4(k, 3),
{
    let o = opposite4(k);
    if k < 32 {
        let q = k / 8;
        let r = k % 8;
        assert(k == 8 * q + r && 0 <= r < 8 && 0 <= q < 4);
        assert(o == 8 * q + (7 - r));
        assert(o / 8 == q);
        lemma_flipped_bits(r, 8 * q);
    } else {
        let q = k / 16;
        let r = k % 16;
        assert(k == 16 * q + r && 0 <= r < 16 && 2 <= q < 4);
        assert(o == 16 * q + (15 - r));
        lemma_flipped_bits(r % 8, 16 * q + 8 * (r / 8));
        assert(sign_of_bit(o, 8) == -sign_of_bit(k, 8)) by {
            assert(o / 8 == 2 * q + (15 - r) / 8);
            assert(k / 8 == 2 * q + r / 8);
            assert((15 - r) / 8 == 1 - r / 8);
        }
        assert(o == 16 * q + 8 * (1 - r / 8) + (7 - r % 8));
        lemma_low_bits(7 - r % 8, 16 * q + 8 * (1 - r / 8));
    }
}

/// The three low bits of `r + base` are those of `r`, where `base` is a
/// multiple of eight.
proof fn lemma_low_bits(r: int, base: int)
    requires
        0 <= r < 8,
        base % 8 == 0,
        base >= 0,
    ensures
        sign_of_bit(base + r, 1) == sign_of_bit(r, 1),
        sign_of_bit(base + r, 2) == sign_of_bit(r, 2),
        sign_of_bit(base + r, 4) == sign_of_bit(r, 4),
{
    let m = base / 8;
    assert(base == 8 * m);
    assert((8 * m + r) % 2 == r % 2);
    assert((8 * m + r) / 2 == 4 * m + r / 2);
    assert((8 * m + r) / 4 == 2 * m + r / 4);
}

/// Counting down from seven flips the three low bits.
proof fn lemma_flipped_bits(r: int, base: int)
    requires
        0 <= r < 8,
        base % 8 == 0,
        base >= 0,
    ensures
        sign_of_bit(base + (7 - r), 1) == -sign_of_bit(base + r, 1),
        sign_of_bit(base + (7 - r), 2) == -sign_of_bit(base + r, 2),
        sign_of_bit(base + (7 - r), 4) == -sign_of_bit(base + r, 4),
{
    lemma_low_bits(r, base);
    lemma_low_bits(7 - r, base);
    assert((7 - r) % 2 == 1 - r % 2);
    assert(((7 - r) / 2) % 2 == 1 - (r / 2) % 2);
    assert(((7 - r) / 4) % 2 == 1 - (r / 4) % 2);
}

/// The base-65536 digits of one over the square root of two: the units,
/// then four places behind the point.
pub open spec fn frac_1_sqrt_2_digits() -> [u16; 5] {
    [0u16, 46340u16, 62259u16, 63966u16, 26624u16]
}

/// The base-65536 digits of one over the square root of three.
pub open spec fn frac_1_sqrt_3_digits() -> [u16; 5] {
    [0u16, 37837u16, 14892u16, 33176u16, 59392u16]
}

/// The length that scales a direction of `nonzero` components, each of
/// them one or minus one, to unit length: one over the square root of
/// `nonzero`.
pub open spec fn unit_scale<T: Scalar>(nonzero: int) -> T {
    if nonzero == 1 {
        number::<T>(1)
    } else if nonzero == 2 {
        constant_spec::<T>(frac_1_sqrt_2_digits(), 4)
    } else if nonzero == 3 {
        constant_spec::<T>(frac_1_sqrt_3_digits(), 4)
    } else {
        number::<T>(1).div_spec(number::<T>(2))
    }
}

/// The component of a gradient whose direction has the component `d`.
pub open spec fn scaled<T: Scalar>(d: int, unit: T) -> T {
    if d == 0 {
        number::<T>(0)
    } else if d > 0 {
        unit
    } else {
        unit.neg_spec()
    }
}

/// Component `axis` of the two-dimensional unit gradient selected by
/// `index`.
pub open spec fn vector2<T: Scalar>(index: int, axis: int) -> T {
    let k = index % 8;
    scaled(direction2(k, axis), unit_scale::<T>(squared_length2(k)))
}

/// Component `axis` of the three-dimensional unit gradient selected by
/// `index`.
pub open spec fn vector3<T: Scalar>(index: int, axis: int) -> T {
    let k = index % 32;
    scaled(direction3(k, axis), unit_scale::<T>(squared_length3(k)))
}

/// Component `axis` of the four-dimensional unit gradient selected by
/// `index`.
pub open spec fn vector4<T: Scalar>(index: int, axis: int) -> T {
    let k = index % 64;
    scaled(direction4(k, axis), unit_scale::<T>(squared_length4(k)))
}

fn unit<T: Scalar>(nonzero: u8) -> (r: T)
    requires
        total_arithmetic::<T>(),
        1 <= nonzero <= 4,
    ensures
        r == unit_scale::<T>(nonzero as int),
{
    if nonzero == 1 {
        from_number(1u16)
    } else if nonzero == 2 {
        constant([0u16, 46340u16, 62259u16, 63966u16, 26624u16], 4)
    } else if nonzero == 3 {
        constant([0u16, 37837u16, 14892u16, 33176u16, 59392u16], 4)
    } else {
        from_number::<T>(1u16) / from_number::<T>(2u16)
    }
}

fn scale<T: Scalar>(d: i8, unit: T) -> (r: T)
    requires
        total_arithmetic::<T>(),
    ensures
        r == scaled(d as int, unit),
{
    if d == 0 {
        from_number(0u16)
    } else if d > 0 {
        unit
    } else {
        unit.neg()
    }
}

/// The two-dimensional unit gradient selected by `index`.
pub fn gradient2<T: Scalar>(index: usize) -> (r: [T; 2])
    requires
        total_arithmetic::<T>(),
    ensures
        r[0] == vector2::<T>(index as int, 0),
        r[1] == vector2::<T>(index as int, 1),
{
    let d: [i8; 2] = get2(index);
    proof {
        lemma_directions2(index as int % 8);
    }
    let u: T = unit(if index % 8 < 4 { 1u8 } else { 2u8 });
    [scale(d[0], u), scale(d[1], u)]
}

/// The three-dimensional unit gradient selected by `index`.
pub fn gradient3<T: Scalar>(index: usize) -> (r: [T; 3])
    requires
        total_arithmetic::<T>(),
    ensures
        r[0] == vector3::<T>(index as int, 0),
        r[1] == vector3::<T>(index as int, 1),
        r[2] == vector3::<T>(index as int, 2),
{
    let d: [i8; 3] = get3(index);
    proof {
        lemma_directions3(index as int % 32);
    }
    let u: T = unit(if index % 32 < 24 { 2u8 } else { 3u8 });
    [scale(d[0], u), scale(d[1], u), scale(d[2], u)]
}

/// The four-dimensional unit gradient selected by `index`.
pub fn gradient4<T: Scalar>(index: usize) -> (r: [T; 4])
    requires
        total_arithmetic::<T>(),
    ensures
        r[0] == vector4::<T>(index as int, 0),
        r[1] == vector4::<T>(index as int, 1),
        r[2] == vector4::<T>(index as int, 2),
        r[3] == vector4::<T>(index as int, 3),
{
    let d: [i8; 4] = get4(index);
    proof {
        lemma_directions4(index as int % 64);
    }
    let u: T = unit(if index % 64 < 32 { 3u8 } else { 4u8 });
    [scale(d[0], u), scale(d[1], u), scale(d[2], u), scale(d[3], u)]
}

} // verus!
