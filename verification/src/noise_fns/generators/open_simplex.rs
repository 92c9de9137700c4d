//! OpenSimplex noise in two, three and four dimensions.
//!
//! The point is moved onto a lattice of simplices by a stretch along the
//! main diagonal; the vertices near it are picked by comparing its
//! coordinates in the lattice cell; each picked vertex adds a surflet of
//! radius two.
use crate::gradient::{gradient2, gradient3, gradient4, vector2, vector3, vector4};
use crate::noise_fns::generators::perlin::{
    dot2, dot2_spec, dot3, dot3_spec, dot4, dot4_spec, evaluable, surflet, surflet_spec,
    DEFAULT_SEED,
};
use crate::noise_fns::{NoiseFn, Seedable};
use crate::permutationtable::{hash2, hash3, hash4, permutation_of, PermutationTable};
use crate::scalar::{
    at_most, below, constant, constant_spec, floor_of, from_number, is_at_most, is_below, number,
    total_arithmetic, Scalar,
};
use core::ops::Neg;
use vstd::prelude::*;
use vstd::std_specs::ops::{AddSpec, DivSpec, MulSpec, NegSpec, SubSpec};

verus! {

/// The base-65536 digits of the two-dimensional stretch, taken off the
/// coordinates: `(1 - 1 / sqrt(3)) / 2`.
pub open spec fn stretch_2d() -> [u16; 5] {
    [0u16, 13849u16, 25321u16, 48947u16, 34304u16]
}

/// The base-65536 digits of the two-dimensional squish, `(sqrt(3) - 1) / 2`.
pub open spec fn squish_2d() -> [u16; 5] {
    [0u16, 23987u16, 55106u16, 49765u16, 27648u16]
}

/// The base-65536 digits of the four-dimensional stretch, taken off the
/// coordinates: `(1 - 1 / sqrt(5)) / 4`.
pub open spec fn stretch_4d() -> [u16; 5] {
    [0u16, 9056u16, 55866u16, 16402u16, 18944u16]
}

/// The base-65536 digits of the four-dimensional squish, `(sqrt(5) - 1) / 4`.
pub open spec fn squish_4d() -> [u16; 5] {
    [0u16, 20251u16, 48348u16, 49061u16, 8192u16]
}

/// The base-65536 digits of the divisor that brings four-dimensional sums
/// into the range of about -1 to 1.
pub open spec fn norm_divisor_4d() -> [u16; 5] {
    [6u16, 57010u16, 23375u16, 63681u16, 32768u16]
}

/// How far the stretch moves each coordinate per unit of the sum of the
/// coordinates, as a number to take off: `(1 - 1 / sqrt(n + 1)) / n`.
pub open spec fn stretch_of<T: Scalar>(n: int) -> T {
    if n == 2 {
        constant_spec::<T>(stretch_2d(), 4)
    } else if n == 3 {
        number::<T>(1).div_spec(number::<T>(6))
    } else {
        constant_spec::<T>(stretch_4d(), 4)
    }
}

/// How far the squish moves each coordinate per unit of the sum of the
/// lattice coordinates: `(sqrt(n + 1) - 1) / n`.
pub open spec fn squish_of<T: Scalar>(n: int) -> T {
    if n == 2 {
        constant_spec::<T>(squish_2d(), 4)
    } else if n == 3 {
        number::<T>(1).div_spec(number::<T>(3))
    } else {
        constant_spec::<T>(squish_4d(), 4)
    }
}

/// The factor that brings the sum of the surflets into the range of about
/// -1 to 1.
pub open spec fn norm_of<T: Scalar>(n: int) -> T {
    if n == 4 {
        number::<T>(1).div_spec(constant_spec::<T>(norm_divisor_4d(), 4))
    } else {
        number::<T>(1).div_spec(number::<T>(14))
    }
}

fn stretch<T: Scalar>(n: u8) -> (r: T)
    requires
        total_arithmetic::<T>(),
    ensures
        r == stretch_of::<T>(n as int),
{
    if n == 2 {
        constant([0u16, 13849u16, 25321u16, 48947u16, 34304u16], 4)
    } else if n == 3 {
        from_number::<T>(1u16) / from_number::<T>(6u16)
    } else {
        constant([0u16, 9056u16, 55866u16, 16402u16, 18944u16], 4)
    }
}

fn squish<T: Scalar>(n: u8) -> (r: T)
    requires
        total_arithmetic::<T>(),
    ensures
        r == squish_of::<T>(n as int),
{
    if n == 2 {
        constant([0u16, 23987u16, 55106u16, 49765u16, 27648u16], 4)
    } else if n == 3 {
        from_number::<T>(1u16) / from_number::<T>(3u16)
    } else {
        constant([0u16, 20251u16, 48348u16, 49061u16, 8192u16], 4)
    }
}

fn norm<T: Scalar>(n: u8) -> (r: T)
    requires
        total_arithmetic::<T>(),
    ensures
        r == norm_of::<T>(n as int),
{
    if n == 4 {
        from_number::<T>(1u16) / constant::<T>([6u16, 57010u16, 23375u16, 63681u16, 32768u16], 4)
    } else {
        from_number::<T>(1u16) / from_number::<T>(14u16)
    }
}

/// The scalar that stands for a small integer of either sign.
pub open spec fn signed_number<T: Scalar>(n: int) -> T {
    if n < 0 {
        number::<T>((-n) as u16).neg_spec()
    } else {
        number::<T>(n as u16)
    }
}

fn from_signed<T: Scalar>(n: i16) -> (r: T)
    requires
        total_arithmetic::<T>(),
        -1024 <= n <= 1024,
    ensures
        r == signed_number::<T>(n as int),
{
    if n < 0 {
        from_number::<T>((-n) as u16).neg()
    } else {
        from_number::<T>(n as u16)
    }
}

/// Where the lattice vertex sits along one axis, seen from the origin of
/// the cell: its lattice offset along the axis, and the squish for each
/// unit of the sum of its lattice offsets.
pub open spec fn vertex_position<T: Scalar>(offset: int, sum: int, squish: T) -> T {
    signed_number::<T>(offset).add_spec(squish.mul_spec(signed_number::<T>(sum)))
}

fn position<T: Scalar>(offset: i8, sum: i16, squish: T) -> (r: T)
    requires
        total_arithmetic::<T>(),
        -1024 <= sum <= 1024,
    ensures
        r == vertex_position(offset as int, sum as int, squish),
{
    from_signed::<T>(offset as i16) + squish * from_signed::<T>(sum)
}

/// The point in the lattice of simplices: each coordinate less the
/// stretch times the sum of all 2.
pub open spec fn stretched2<T: Scalar>(point: [T; 2]) -> [T; 2] {
    let offset = (point[0].add_spec(point[1])).mul_spec(stretch_of::<T>(2));
    [point[0].sub_spec(offset), point[1].sub_spec(offset)]
}

/// Where the point lies in its lattice cell: along each axis the lattice
/// coordinate less its floor.
pub open spec fn cell_fraction2<T: Scalar, L: Fn(T) -> (T, isize)>(
    floor: L,
    point: [T; 2],
) -> [T; 2] {
    let s = stretched2(point);
    [s[0].sub_spec(floor_of(floor, s[0]).0), s[1].sub_spec(floor_of(floor, s[1]).0)]
}

/// The lattice cell that holds the point.
pub open spec fn cell_of2<T: Scalar, L: Fn(T) -> (T, isize)>(
    floor: L,
    point: [T; 2],
) -> [isize; 2] {
    let s = stretched2(point);
    [floor_of(floor, s[0]).1, floor_of(floor, s[1]).1]
}

/// The point seen from the origin of its lattice cell, in the space of the
/// point: the origin is the floor of the lattice coordinates, moved by the
/// squish times their sum.
pub open spec fn from_origin2<T: Scalar, L: Fn(T) -> (T, isize)>(
    floor: L,
    point: [T; 2],
) -> [T; 2] {
    let s = stretched2(point);
    let f = [floor_of(floor, s[0]).0, floor_of(floor, s[1]).0];
    let offset = (f[0].add_spec(f[1])).mul_spec(squish_of::<T>(2));
    [point[0].sub_spec(f[0].add_spec(offset)), point[1].sub_spec(f[1].add_spec(offset))]
}

/// What the lattice vertex that lies `o` away from the origin of the cell
/// adds to the noise: a surflet of radius two around the vertex.
pub open spec fn vertex_value2<T: Scalar>(
    table: Seq<u8>,
    cell: [isize; 2],
    from_origin: [T; 2],
    o: [i8; 2],
) -> T {
    let sum = o[0] + o[1];
    let d = [
        from_origin[0].sub_spec(vertex_position(o[0] as int, sum, squish_of::<T>(2))),
        from_origin[1].sub_spec(vertex_position(o[1] as int, sum, squish_of::<T>(2))),
    ];
    let h = hash2(table, cell[0] + o[0], cell[1] + o[1]);
    let g = [vector2::<T>(h, 0), vector2::<T>(h, 1)];
    surflet_spec(number::<T>(2), dot2_spec(d, d), dot2_spec(d, g))
}

/// Sum of what the first `k` of the vertices add, taken in their order,
/// starting from zero.
pub open spec fn vertex_sum2<T: Scalar>(
    table: Seq<u8>,
    cell: [isize; 2],
    from_origin: [T; 2],
    vertices: Seq<[i8; 2]>,
    k: int,
) -> T
    decreases k,
{
    if k <= 0 {
        number::<T>(0)
    } else {
        vertex_sum2(table, cell, from_origin, vertices, k - 1).add_spec(
            vertex_value2(table, cell, from_origin, vertices[k - 1]),
        )
    }
}

fn skew2<T: Scalar, L: Fn(T) -> (T, isize)>(
    floor: &L,
    point: [T; 2],
) -> (r: ([isize; 2], [T; 2], [T; 2]))
    requires
        evaluable::<T, L>(*floor),
    ensures
        r.0 == cell_of2(*floor, point),
        r.1 == cell_fraction2(*floor, point),
        r.2 == from_origin2(*floor, point),
{
    let stretch_offset: T = (point[0] + point[1]) * stretch::<T>(2);
    let stretched: [T; 2] = [point[0] - stretch_offset, point[1] - stretch_offset];
    assert(stretched == stretched2(point));
    let f0: (T, isize) = floor(stretched[0]);
    let f1: (T, isize) = floor(stretched[1]);
    let stretched_floor: [T; 2] = [f0.0, f1.0];
    let squish_offset: T = (stretched_floor[0] + stretched_floor[1]) * squish::<T>(2);
    let rel_coords: [T; 2] = [stretched[0] - stretched_floor[0], stretched[1] - stretched_floor[1]];
    let pos0: [T; 2] = [
        point[0] - (stretched_floor[0] + squish_offset),
        point[1] - (stretched_floor[1] + squish_offset),
    ];
    ([f0.1, f1.1], rel_coords, pos0)
}

fn contribution2<T: Scalar>(
    table: &PermutationTable,
    cell: [isize; 2],
    pos0: [T; 2],
    o: [i8; 2],
) -> (r: T)
    requires
        total_arithmetic::<T>(),
    ensures
        r == vertex_value2(table@, cell, pos0, o),
{
    let sum: i16 = o[0] as i16 + o[1] as i16;
    let s: T = squish::<T>(2);
    let d: [T; 2] = [pos0[0] - position(o[0], sum, s), pos0[1] - position(o[1], sum, s)];
    let h: usize = table.at2(cell, o);
    let g: [T; 2] = gradient2(h);
    surflet(from_number(2u16), dot2(d, d), dot2(d, g))
}

fn contributions2<T: Scalar>(
    table: &PermutationTable,
    cell: [isize; 2],
    pos0: [T; 2],
    vertices: &Vec<[i8; 2]>,
) -> (r: T)
    requires
        total_arithmetic::<T>(),
    ensures
        r == vertex_sum2(table@, cell, pos0, vertices@, vertices@.len() as int),
{
    let mut value: T = from_number(0u16);
    let mut k: usize = 0;
    while k < vertices.len()
        invariant
            total_arithmetic::<T>(),
            k <= vertices@.len(),
            value == vertex_sum2(table@, cell, pos0, vertices@, k as int),
        decreases vertices@.len() - k,
    {
        value = value + contribution2(table, cell, pos0, vertices[k]);
        k += 1;
    }
    value
}

/// The point in the lattice of simplices: each coordinate less the
/// stretch times the sum of all 3.
pub open spec fn stretched3<T: Scalar>(point: [T; 3]) -> [T; 3] {
    let offset = (point[0].add_spec(point[1]).add_spec(point[2])).mul_spec(stretch_of::<T>(3));
    [point[0].sub_spec(offset), point[1].sub_spec(offset), point[2].sub_spec(offset)]
}

/// Where the point lies in its lattice cell: along each axis the lattice
/// coordinate less its floor.
pub open spec fn cell_fraction3<T: Scalar, L: Fn(T) -> (T, isize)>(
    floor: L,
    point: [T; 3],
) -> [T; 3] {
    let s = stretched3(point);
    [
        s[0].sub_spec(floor_of(floor, s[0]).0),
        s[1].sub_spec(floor_of(floor, s[1]).0),
        s[2].sub_spec(floor_of(floor, s[2]).0),
    ]
}

/// The lattice cell that holds the point.
pub open spec fn cell_of3<T: Scalar, L: Fn(T) -> (T, isize)>(
    floor: L,
    point: [T; 3],
) -> [isize; 3] {
    let s = stretched3(point);
    [floor_of(floor, s[0]).1, floor_of(floor, s[1]).1, floor_of(floor, s[2]).1]
}

/// The point seen from the origin of its lattice cell, in the space of the
/// point: the origin is the floor of the lattice coordinates, moved by the
/// squish times their sum.
pub open spec fn from_origin3<T: Scalar, L: Fn(T) -> (T, isize)>(
    floor: L,
    point: [T; 3],
) -> [T; 3] {
    let s = stretched3(point);
    let f = [floor_of(floor, s[0]).0, floor_of(floor, s[1]).0, floor_of(floor, s[2]).0];
    let offset = (f[0].add_spec(f[1]).add_spec(f[2])).mul_spec(squish_of::<T>(3));
    [
        point[0].sub_spec(f[0].add_spec(offset)),
        point[1].sub_spec(f[1].add_spec(offset)),
        point[2].sub_spec(f[2].add_spec(offset)),
    ]
}

/// What the lattice vertex that lies `o` away from the origin of the cell
/// adds to the noise: a surflet of radius two around the vertex.
pub open spec fn vertex_value3<T: Scalar>(
    table: Seq<u8>,
    cell: [isize; 3],
    from_origin: [T; 3],
    o: [i8; 3],
) -> T {
    let sum = o[0] + o[1] + o[2];
    let d = [
        from_origin[0].sub_spec(vertex_position(o[0] as int, sum, squish_of::<T>(3))),
        from_origin[1].sub_spec(vertex_position(o[1] as int, sum, squish_of::<T>(3))),
        from_origin[2].sub_spec(vertex_position(o[2] as int, sum, squish_of::<T>(3))),
    ];
    let h = hash3(table, cell[0] + o[0], cell[1] + o[1], cell[2] + o[2]);
    let g = [vector3::<T>(h, 0), vector3::<T>(h, 1), vector3::<T>(h, 2)];
    surflet_spec(number::<T>(2), dot3_spec(d, d), dot3_spec(d, g))
}

/// Sum of what the first `k` of the vertices add, taken in their order,
/// starting from zero.
pub open spec fn vertex_sum3<T: Scalar>(
    table: Seq<u8>,
    cell: [isize; 3],
    from_origin: [T; 3],
    vertices: Seq<[i8; 3]>,
    k: int,
) -> T
    decreases k,
{
    if k <= 0 {
        number::<T>(0)
    } else {
        vertex_sum3(table, cell, from_origin, vertices, k - 1).add_spec(
            vertex_value3(table, cell, from_origin, vertices[k - 1]),
        )
    }
}

fn skew3<T: Scalar, L: Fn(T) -> (T, isize)>(
    floor: &L,
    point: [T; 3],
) -> (r: ([isize; 3], [T; 3], [T; 3]))
    requires
        evaluable::<T, L>(*floor),
    ensures
        r.0 == cell_of3(*floor, point),
        r.1 == cell_fraction3(*floor, point),
        r.2 == from_origin3(*floor, point),
{
    let stretch_offset: T = (point[0] + point[1] + point[2]) * stretch::<T>(3);
    let stretched: [T; 3] = [
        point[0] - stretch_offset,
        point[1] - stretch_offset,
        point[2] - stretch_offset,
    ];
    assert(stretched == stretched3(point));
    let f0: (T, isize) = floor(stretched[0]);
    let f1: (T, isize) = floor(stretched[1]);
    let f2: (T, isize) = floor(stretched[2]);
    let stretched_floor: [T; 3] = [f0.0, f1.0, f2.0];
    let squish_offset: T = (stretched_floor[0] + stretched_floor[1] + stretched_floor[2]) * squish::<T>(3);
    let rel_coords: [T; 3] = [
        stretched[0] - stretched_floor[0],
        stretched[1] - stretched_floor[1],
        stretched[2] - stretched_floor[2],
    ];
    let pos0: [T; 3] = [
        point[0] - (stretched_floor[0] + squish_offset),
        point[1] - (stretched_floor[1] + squish_offset),
        point[2] - (stretched_floor[2] + squish_offset),
    ];
    ([f0.1, f1.1, f2.1], rel_coords, pos0)
}

fn contribution3<T: Scalar>(
    table: &PermutationTable,
    cell: [isize; 3],
    pos0: [T; 3],
    o: [i8; 3],
) -> (r: T)
    requires
        total_arithmetic::<T>(),
    ensures
        r == vertex_value3(table@, cell, pos0, o),
{
    let sum: i16 = o[0] as i16 + o[1] as i16 + o[2] as i16;
    let s: T = squish::<T>(3);
    let d: [T; 3] = [
        pos0[0] - position(o[0], sum, s),
        pos0[1] - position(o[1], sum, s),
        pos0[2] - position(o[2], sum, s),
    ];
    let h: usize = table.at3(cell, o);
    let g: [T; 3] = gradient3(h);
    surflet(from_number(2u16), dot3(d, d), dot3(d, g))
}

fn contributions3<T: Scalar>(
    table: &PermutationTable,
    cell: [isize; 3],
    pos0: [T; 3],
    vertices: &Vec<[i8; 3]>,
) -> (r: T)
    requires
        total_arithmetic::<T>(),
    ensures
        r == vertex_sum3(table@, cell, pos0, vertices@, vertices@.len() as int),
{
    let mut value: T = from_number(0u16);
    let mut k: usize = 0;
    while k < vertices.len()
        invariant
            total_arithmetic::<T>(),
            k <= vertices@.len(),
            value == vertex_sum3(table@, cell, pos0, vertices@, k as int),
        decreases vertices@.len() - k,
    {
        value = value + contribution3(table, cell, pos0, vertices[k]);
        k += 1;
    }
    value
}

/// The point in the lattice of simplices: each coordinate less the
/// stretch times the sum of all 4.
pub open spec fn stretched4<T: Scalar>(point: [T; 4]) -> [T; 4] {
    let offset = (point[0].add_spec(point[1]).add_spec(point[2]).add_spec(point[3])).mul_spec(stretch_of::<T>(4));
    [
        point[0].sub_spec(offset),
        point[1].sub_spec(offset),
        point[2].sub_spec(offset),
        point[3].sub_spec(offset),
    ]
}

/// Where the point lies in its lattice cell: along each axis the lattice
/// coordinate less its floor.
pub open spec fn cell_fraction4<T: Scalar, L: Fn(T) -> (T, isize)>(
    floor: L,
    point: [T; 4],
) -> [T; 4] {
    let s = stretched4(point);
    [
        s[0].sub_spec(floor_of(floor, s[0]).0),
        s[1].sub_spec(floor_of(floor, s[1]).0),
        s[2].sub_spec(floor_of(floor, s[2]).0),
        s[3].sub_spec(floor_of(floor, s[3]).0),
    ]
}

/// The lattice cell that holds the point.
pub open spec fn cell_of4<T: Scalar, L: Fn(T) -> (T, isize)>(
    floor: L,
    point: [T; 4],
) -> [isize; 4] {
    let s = stretched4(point);
    [
        floor_of(floor, s[0]).1,
        floor_of(floor, s[1]).1,
        floor_of(floor, s[2]).1,
        floor_of(floor, s[3]).1,
    ]
}

/// The point seen from the origin of its lattice cell, in the space of the
/// point: the origin is the floor of the lattice coordinates, moved by the
/// squish times their sum.
pub open spec fn from_origin4<T: Scalar, L: Fn(T) -> (T, isize)>(
    floor: L,
    point: [T; 4],
) -> [T; 4] {
    let s = stretched4(point);
    let f = [
        floor_of(floor, s[0]).0,
        floor_of(floor, s[1]).0,
        floor_of(floor, s[2]).0,
        floor_of(floor, s[3]).0,
    ];
    let offset = (f[0].add_spec(f[1]).add_spec(f[2]).add_spec(f[3])).mul_spec(squish_of::<T>(4));
    [
        point[0].sub_spec(f[0].add_spec(offset)),
        point[1].sub_spec(f[1].add_spec(offset)),
        point[2].sub_spec(f[2].add_spec(offset)),
        point[3].sub_spec(f[3].add_spec(offset)),
    ]
}

/// What the lattice vertex that lies `o` away from the origin of the cell
/// adds to the noise: a surflet of radius two around the vertex.
pub open spec fn vertex_value4<T: Scalar>(
    table: Seq<u8>,
    cell: [isize; 4],
    from_origin: [T; 4],
    o: [i8; 4],
) -> T {
    let sum = o[0] + o[1] + o[2] + o[3];
    let d = [
        from_origin[0].sub_spec(vertex_position(o[0] as int, sum, squish_of::<T>(4))),
        from_origin[1].sub_spec(vertex_position(o[1] as int, sum, squish_of::<T>(4))),
        from_origin[2].sub_spec(vertex_position(o[2] as int, sum, squish_of::<T>(4))),
        from_origin[3].sub_spec(vertex_position(o[3] as int, sum, squish_of::<T>(4))),
    ];
    let h = hash4(table, cell[0] + o[0], cell[1] + o[1], cell[2] + o[2], cell[3] + o[3]);
    let g = [vector4::<T>(h, 0), vector4::<T>(h, 1), vector4::<T>(h, 2), vector4::<T>(h, 3)];
    surflet_spec(number::<T>(2), dot4_spec(d, d), dot4_spec(d, g))
}

/// Sum of what the first `k` of the vertices add, taken in their order,
/// starting from zero.
pub open spec fn vertex_sum4<T: Scalar>(
    table: Seq<u8>,
    cell: [isize; 4],
    from_origin: [T; 4],
    vertices: Seq<[i8; 4]>,
    k: int,
) -> T
    decreases k,
{
    if k <= 0 {
        number::<T>(0)
    } else {
        vertex_sum4(table, cell, from_origin, vertices, k - 1).add_spec(
            vertex_value4(table, cell, from_origin, vertices[k - 1]),
        )
    }
}

fn skew4<T: Scalar, L: Fn(T) -> (T, isize)>(
    floor: &L,
    point: [T; 4],
) -> (r: ([isize; 4], [T; 4], [T; 4]))
    requires
        evaluable::<T, L>(*floor),
    ensures
        r.0 == cell_of4(*floor, point),
        r.1 == cell_fraction4(*floor, point),
        r.2 == from_origin4(*floor, point),
{
    let stretch_offset: T = (point[0] + point[1] + point[2] + point[3]) * stretch::<T>(4);
    let stretched: [T; 4] = [
        point[0] - stretch_offset,
        point[1] - stretch_offset,
        point[2] - stretch_offset,
        point[3] - stretch_offset,
    ];
    assert(stretched == stretched4(point));
    let f0: (T, isize) = floor(stretched[0]);
    let f1: (T, isize) = floor(stretched[1]);
    let f2: (T, isize) = floor(stretched[2]);
    let f3: (T, isize) = floor(stretched[3]);
    let stretched_floor: [T; 4] = [f0.0, f1.0, f2.0, f3.0];
    let squish_offset: T = (stretched_floor[0] + stretched_floor[1] + stretched_floor[2] + stretched_floor[3]) * squish::<T>(4);
    let rel_coords: [T; 4] = [
        stretched[0] - stretched_floor[0],
        stretched[1] - stretched_floor[1],
        stretched[2] - stretched_floor[2],
        stretched[3] - stretched_floor[3],
    ];
    let pos0: [T; 4] = [
        point[0] - (stretched_floor[0] + squish_offset),
        point[1] - (stretched_floor[1] + squish_offset),
        point[2] - (stretched_floor[2] + squish_offset),
        point[3] - (stretched_floor[3] + squish_offset),
    ];
    ([f0.1, f1.1, f2.1, f3.1], rel_coords, pos0)
}

fn contribution4<T: Scalar>(
    table: &PermutationTable,
    cell: [isize; 4],
    pos0: [T; 4],
    o: [i8; 4],
) -> (r: T)
    requires
        total_arithmetic::<T>(),
    ensures
        r == vertex_value4(table@, cell, pos0, o),
{
    let sum: i16 = o[0] as i16 + o[1] as i16 + o[2] as i16 + o[3] as i16;
    let s: T = squish::<T>(4);
    let d: [T; 4] = [
        pos0[0] - position(o[0], sum, s),
        pos0[1] - position(o[1], sum, s),
        pos0[2] - position(o[2], sum, s),
        pos0[3] - position(o[3], sum, s),
    ];
    let h: usize = table.at4(cell, o);
    let g: [T; 4] = gradient4(h);
    surflet(from_number(2u16), dot4(d, d), dot4(d, g))
}

fn contributions4<T: Scalar>(
    table: &PermutationTable,
    cell: [isize; 4],
    pos0: [T; 4],
    vertices: &Vec<[i8; 4]>,
) -> (r: T)
    requires
        total_arithmetic::<T>(),
    ensures
        r == vertex_sum4(table@, cell, pos0, vertices@, vertices@.len() as int),
{
    let mut value: T = from_number(0u16);
    let mut k: usize = 0;
    while k < vertices.len()
        invariant
            total_arithmetic::<T>(),
            k <= vertices@.len(),
            value == vertex_sum4(table@, cell, pos0, vertices@, k as int),
        decreases vertices@.len() - k,
    {
        value = value + contribution4(table, cell, pos0, vertices[k]);
        k += 1;
    }
    value
}

/// The vertex beyond the triangle that holds the point, in two dimensions.
///
/// `lower` says that the point lies in the triangle at the origin of the
/// cell, `outer` that it is nearer to one of the two edges that the
/// triangles of the cell do not share than to the shared one, `x_major`
/// that its first lattice coordinate is the larger.
pub open spec fn extra_vertex2(lower: bool, outer: bool, x_major: bool) -> [i8; 2] {
    if lower {
        if outer {
            if x_major {
                [1i8, -1i8]
            } else {
                [-1i8, 1i8]
            }
        } else {
            [1i8, 1i8]
        }
    } else {
        if outer {
            if x_major {
                [2i8, 0i8]
            } else {
                [0i8, 2i8]
            }
        } else {
            [0i8, 0i8]
        }
    }
}

/// The vertices of the triangle that holds the point: the two that both
/// triangles of the cell share, then the third.
pub open spec fn triangle2(lower: bool) -> Seq<[i8; 2]> {
    seq![[1i8, 0i8], [0i8, 1i8], if lower { [0i8, 0i8] } else { [1i8, 1i8] }]
}

/// The four lattice vertices that add to the noise at a point of a
/// two-dimensional cell.
pub fn vertices_2d(lower: bool, outer: bool, x_major: bool) -> (r: Vec<[i8; 2]>)
    ensures
        r@ == triangle2(lower).push(extra_vertex2(lower, outer, x_major)),
{
    let mut out: Vec<[i8; 2]> = Vec::new();
    out.push([1, 0]);
    out.push([0, 1]);
    if lower {
        out.push([0, 0]);
        if !outer {
            out.push([1, 1]);
        } else if x_major {
            out.push([1, -1]);
        } else {
            out.push([-1, 1]);
        }
    } else {
        out.push([1, 1]);
        if !outer {
            out.push([0, 0]);
        } else if x_major {
            out.push([2, 0]);
        } else {
            out.push([0, 2]);
        }
    }
    assert(out@ =~= triangle2(lower).push(extra_vertex2(lower, outer, x_major)));
    out
}

/// No vertex is counted twice in two dimensions, whatever the comparisons
/// gave: the extra vertex is none of the triangle's; and every vertex lies
/// at most one step outside the cell.
pub proof fn lemma_vertices2_distinct(lower: bool, outer: bool, x_major: bool)
    ensures
        forall|i: int|
            0 <= i < 3 ==> #[trigger] triangle2(lower)[i] != extra_vertex2(lower, outer, x_major),
        -1 <= extra_vertex2(lower, outer, x_major)[0] <= 2,
        -1 <= extra_vertex2(lower, outer, x_major)[1] <= 2,
        0 <= extra_vertex2(lower, outer, x_major)[0] + extra_vertex2(lower, outer, x_major)[1] <= 2,
{
    let e = extra_vertex2(lower, outer, x_major);
    assert forall|i: int| 0 <= i < 3 implies #[trigger] triangle2(lower)[i] != e by {
        let t = triangle2(lower)[i];
        if t == e {
            assert(t[0] == e[0] && t[1] == e[1]);
        }
    }
}

/// The vertices that add to the noise at the point with the cell fraction
/// `rel`, in two dimensions.
pub open spec fn vertices2<T: Scalar>(rel: [T; 2]) -> Seq<[i8; 2]> {
    let region_sum = rel[0].add_spec(rel[1]);
    let x_major = below(rel[1], rel[0]);
    if below(region_sum, number::<T>(1)) {
        let center_dist = number::<T>(1).sub_spec(region_sum);
        let outer = below(rel[0], center_dist) || below(rel[1], center_dist);
        triangle2(true).push(extra_vertex2(true, outer, x_major))
    } else {
        let center_dist = number::<T>(2).sub_spec(region_sum);
        let outer = below(center_dist, rel[0]) || below(center_dist, rel[1]);
        triangle2(false).push(extra_vertex2(false, outer, x_major))
    }
}

fn select2<T: Scalar>(rel: [T; 2]) -> (r: Vec<[i8; 2]>)
    requires
        total_arithmetic::<T>(),
    ensures
        r@ == vertices2(rel),
{
    let region_sum: T = rel[0] + rel[1];
    let x_major: bool = is_below(rel[1], rel[0]);
    if is_below(region_sum, from_number(1u16)) {
        let center_dist: T = from_number::<T>(1u16) - region_sum;
        let outer: bool = is_below(rel[0], center_dist) || is_below(rel[1], center_dist);
        vertices_2d(true, outer, x_major)
    } else {
        let center_dist: T = from_number::<T>(2u16) - region_sum;
        let outer: bool = is_below(center_dist, rel[0]) || is_below(center_dist, rel[1]);
        vertices_2d(false, outer, x_major)
    }
}

/// OpenSimplex noise in two dimensions.
pub open spec fn open_simplex2<T: Scalar, L: Fn(T) -> (T, isize)>(
    table: Seq<u8>,
    floor: L,
    point: [T; 2],
) -> T {
    let vertices = vertices2(cell_fraction2(floor, point));
    vertex_sum2(
        table,
        cell_of2(floor, point),
        from_origin2(floor, point),
        vertices,
        vertices.len() as int,
    ).mul_spec(norm_of::<T>(2))
}

/// A vertex of the unit cube, from the bits of its code: bit 0 is the first
/// axis.
pub open spec fn cube_vertex(code: int) -> [i8; 3] {
    [(code % 2) as i8, ((code / 2) % 2) as i8, ((code / 4) % 2) as i8]
}

fn cube_corner(code: u8) -> (r: [i8; 3])
    requires
        code < 8,
    ensures
        r == cube_vertex(code as int),
{
    [(code % 2) as i8, ((code / 2) % 2) as i8, ((code / 4) % 2) as i8]
}

/// The vertex two steps from the origin along the axis whose bit is `axis`
/// (1, 2 or 4).
pub open spec fn double_step(axis: int) -> [i8; 3] {
    if axis == 1 {
        [2i8, 0i8, 0i8]
    } else if axis == 2 {
        [0i8, 2i8, 0i8]
    } else {
        [0i8, 0i8, 2i8]
    }
}

/// The vertex one step back along the axis whose bit is `axis` and one step
/// on along the two others.
pub open spec fn back_step(axis: int) -> [i8; 3] {
    if axis == 1 {
        [-1i8, 1i8, 1i8]
    } else if axis == 2 {
        [1i8, -1i8, 1i8]
    } else {
        [1i8, 1i8, -1i8]
    }
}

/// The two extra vertices of a point in the tetrahedron at the origin of
/// the cell.
///
/// Where the origin is one of the two vertices nearest to the point,
/// `code` is the other one of them, a vertex on an axis (1, 2 or 4): the
/// extras go one step on along it and one step back along either of the
/// others. Else `code` is the sum of the two nearest vertices (3, 5 or 6):
/// the extras are that vertex and the one a step back from it along the
/// third axis.
pub open spec fn low_extras3(origin_near: bool, code: int) -> ([i8; 3], [i8; 3]) {
    if origin_near {
        if code == 1 {
            ([1i8, -1i8, 0i8], [1i8, 0i8, -1i8])
        } else if code == 2 {
            ([-1i8, 1i8, 0i8], [0i8, 1i8, -1i8])
        } else {
            ([-1i8, 0i8, 1i8], [0i8, -1i8, 1i8])
        }
    } else {
        (cube_vertex(code), back_step(7 - code))
    }
}

/// The two extra vertices of a point in the tetrahedron at the far corner
/// of the cell.
///
/// Where the far corner is one of the two vertices nearest to the point,
/// `code` is the other one of them (3, 5 or 6): the extras go one step on
/// from it along either of its two axes. Else `code` is the axis that the
/// two nearest vertices share (1, 2 or 4): the extras lie one and two steps
/// along it.
pub open spec fn high_extras3(corner_near: bool, code: int) -> ([i8; 3], [i8; 3]) {
    if corner_near {
        if code == 3 {
            ([2i8, 1i8, 0i8], [1i8, 2i8, 0i8])
        } else if code == 5 {
            ([2i8, 0i8, 1i8], [1i8, 0i8, 2i8])
        } else {
            ([0i8, 2i8, 1i8], [0i8, 1i8, 2i8])
        }
    } else {
        (cube_vertex(code), double_step(code))
    }
}

/// The lowest axis bit that `code` holds, or 4.
pub open spec fn first_axis(code: int) -> int {
    if code % 2 == 1 {
        1
    } else if (code / 2) % 2 == 1 {
        2
    } else {
        4
    }
}

/// The codes `a` and `b` with their bits joined; for two codes of one bit
/// or of two, what they share is `a + b` less this.
pub open spec fn joined(a: int, b: int) -> int {
    let x = if a % 2 == 1 || b % 2 == 1 { 1int } else { 0int };
    let y = if (a / 2) % 2 == 1 || (b / 2) % 2 == 1 { 2int } else { 0int };
    let z = if (a / 4) % 2 == 1 || (b / 4) % 2 == 1 { 4int } else { 0int };
    x + y + z
}

/// The two extra vertices of a point in the octahedron between the two
/// tetrahedra. `a` and `b` are the two nearest vertices of the octahedron;
/// a vertex is far when it lies on the side of the far corner of the cell
/// (3, 5 or 6) and near when it lies on the side of the origin (1, 2 or 4).
pub open spec fn mid_extras3(a: int, a_far: bool, b: int, b_far: bool) -> ([i8; 3], [i8; 3]) {
    if a_far == b_far {
        if a_far {
            ([1i8, 1i8, 1i8], double_step(first_axis(a + b - joined(a, b))))
        } else {
            ([0i8, 0i8, 0i8], back_step(first_axis(7 - joined(a, b))))
        }
    } else {
        let far = if a_far { a } else { b };
        let near = if a_far { b } else { a };
        (back_step(first_axis(7 - far)), double_step(first_axis(near)))
    }
}

fn two_steps(axis: u8) -> (r: [i8; 3])
    ensures
        r == double_step(axis as int),
{
    if axis == 1 {
        [2, 0, 0]
    } else if axis == 2 {
        [0, 2, 0]
    } else {
        [0, 0, 2]
    }
}

fn step_back(axis: u8) -> (r: [i8; 3])
    ensures
        r == back_step(axis as int),
{
    if axis == 1 {
        [-1, 1, 1]
    } else if axis == 2 {
        [1, -1, 1]
    } else {
        [1, 1, -1]
    }
}

fn lowest_axis(code: u8) -> (r: u8)
    ensures
        r == first_axis(code as int),
{
    if code % 2 == 1 {
        1
    } else if (code / 2) % 2 == 1 {
        2
    } else {
        4
    }
}

fn join(a: u8, b: u8) -> (r: u8)
    ensures
        r == joined(a as int, b as int),
        r <= 7,
{
    let x: u8 = if a % 2 == 1 || b % 2 == 1 { 1 } else { 0 };
    let y: u8 = if (a / 2) % 2 == 1 || (b / 2) % 2 == 1 { 2 } else { 0 };
    let z: u8 = if (a / 4) % 2 == 1 || (b / 4) % 2 == 1 { 4 } else { 0 };
    x + y + z
}

/// The vertices of the tetrahedron at the origin of the cell.
pub open spec fn low_tetrahedron3() -> Seq<[i8; 3]> {
    seq![[0i8, 0i8, 0i8], [1i8, 0i8, 0i8], [0i8, 1i8, 0i8], [0i8, 0i8, 1i8]]
}

/// The vertices of the tetrahedron at the far corner of the cell.
pub open spec fn high_tetrahedron3() -> Seq<[i8; 3]> {
    seq![[1i8, 1i8, 0i8], [1i8, 0i8, 1i8], [0i8, 1i8, 1i8], [1i8, 1i8, 1i8]]
}

/// The vertices of the octahedron between the two tetrahedra.
pub open spec fn octahedron3() -> Seq<[i8; 3]> {
    seq![
        [1i8, 0i8, 0i8],
        [0i8, 1i8, 0i8],
        [0i8, 0i8, 1i8],
        [1i8, 1i8, 0i8],
        [1i8, 0i8, 1i8],
        [0i8, 1i8, 1i8],
    ]
}

/// The lattice vertices that add to the noise at a point of the
/// tetrahedron at the origin of a three-dimensional cell: the
/// tetrahedron's, then the two extras.
pub fn vertices_3d_low(origin_near: bool, code: u8) -> (r: Vec<[i8; 3]>)
    requires
        origin_near ==> code == 1 || code == 2 || code == 4,
        !origin_near ==> code == 3 || code == 5 || code == 6,
    ensures
        r@ == low_tetrahedron3().push(low_extras3(origin_near, code as int).0).push(
            low_extras3(origin_near, code as int).1,
        ),
{
    let mut out: Vec<[i8; 3]> = Vec::new();
    out.push([0, 0, 0]);
    out.push([1, 0, 0]);
    out.push([0, 1, 0]);
    out.push([0, 0, 1]);
    if origin_near {
        if code == 1 {
            out.push([1, -1, 0]);
            out.push([1, 0, -1]);
        } else if code == 2 {
            out.push([-1, 1, 0]);
            out.push([0, 1, -1]);
        } else {
            out.push([-1, 0, 1]);
            out.push([0, -1, 1]);
        }
    } else {
        out.push(cube_corner(code));
        out.push(step_back(7 - code));
    }
    assert(out@ =~= low_tetrahedron3().push(low_extras3(origin_near, code as int).0).push(
        low_extras3(origin_near, code as int).1,
    ));
    out
}

/// The lattice vertices that add to the noise at a point of the
/// tetrahedron at the far corner of a three-dimensional cell.
pub fn vertices_3d_high(corner_near: bool, code: u8) -> (r: Vec<[i8; 3]>)
    requires
        corner_near ==> code == 3 || code == 5 || code == 6,
        !corner_near ==> code == 1 || code == 2 || code == 4,
    ensures
        r@ == high_tetrahedron3().push(high_extras3(corner_near, code as int).0).push(
            high_extras3(corner_near, code as int).1,
        ),
{
    let mut out: Vec<[i8; 3]> = Vec::new();
    out.push([1, 1, 0]);
    out.push([1, 0, 1]);
    out.push([0, 1, 1]);
    out.push([1, 1, 1]);
    if corner_near {
        if code == 3 {
            out.push([2, 1, 0]);
            out.push([1, 2, 0]);
        } else if code == 5 {
            out.push([2, 0, 1]);
            out.push([1, 0, 2]);
        } else {
            out.push([0, 2, 1]);
            out.push([0, 1, 2]);
        }
    } else {
        out.push(cube_corner(code));
        out.push(two_steps(code));
    }
    assert(out@ =~= high_tetrahedron3().push(high_extras3(corner_near, code as int).0).push(
        high_extras3(corner_near, code as int).1,
    ));
    out
}

/// `code` is a vertex of the octahedron on the side that `far` names.
pub open spec fn on_side(code: int, far: bool) -> bool {
    if far {
        code == 3 || code == 5 || code == 6
    } else {
        code == 1 || code == 2 || code == 4
    }
}

/// The lattice vertices that add to the noise at a point of the octahedron
/// of a three-dimensional cell.
pub fn vertices_3d_mid(a: u8, a_far: bool, b: u8, b_far: bool) -> (r: Vec<[i8; 3]>)
    requires
        on_side(a as int, a_far),
        on_side(b as int, b_far),
    ensures
        r@ == octahedron3().push(mid_extras3(a as int, a_far, b as int, b_far).0).push(
            mid_extras3(a as int, a_far, b as int, b_far).1,
        ),
{
    let mut out: Vec<[i8; 3]> = Vec::new();
    out.push([1, 0, 0]);
    out.push([0, 1, 0]);
    out.push([0, 0, 1]);
    out.push([1, 1, 0]);
    out.push([1, 0, 1]);
    out.push([0, 1, 1]);
    if a_far == b_far {
        let both: u8 = join(a, b);
        if a_far {
            out.push([1, 1, 1]);
            out.push(two_steps(lowest_axis(a + b - both)));
        } else {
            out.push([0, 0, 0]);
            out.push(step_back(lowest_axis(7 - both)));
        }
    } else {
        let far: u8 = if a_far { a } else { b };
        let near: u8 = if a_far { b } else { a };
        out.push(step_back(lowest_axis(7 - far)));
        out.push(two_steps(lowest_axis(near)));
    }
    assert(out@ =~= octahedron3().push(mid_extras3(a as int, a_far, b as int, b_far).0).push(
        mid_extras3(a as int, a_far, b as int, b_far).1,
    ));
    out
}

/// `v` is none of the first `n` of `vertices`.
pub open spec fn apart_from(v: [i8; 3], vertices: Seq<[i8; 3]>, n: int) -> bool {
    forall|i: int| 0 <= i < n ==> #[trigger] vertices[i] != v
}

proof fn lemma_apart(v: [i8; 3], vertices: Seq<[i8; 3]>, n: int)
    requires
        forall|i: int|
            0 <= i < n ==> (#[trigger] vertices[i])[0] != v[0] || vertices[i][1] != v[1]
                || vertices[i][2] != v[2],
    ensures
        apart_from(v, vertices, n),
{
    assert forall|i: int| 0 <= i < n implies #[trigger] vertices[i] != v by {
        let t = vertices[i];
        if t == v {
            assert(t[0] == v[0] && t[1] == v[1] && t[2] == v[2]);
        }
    }
}

/// No vertex is counted twice in the tetrahedron at the origin: the two
/// extras differ from each other and from the tetrahedron's vertices.
pub proof fn lemma_low_extras3_distinct(origin_near: bool, code: int)
    requires
        origin_near ==> code == 1 || code == 2 || code == 4,
        !origin_near ==> code == 3 || code == 5 || code == 6,
    ensures
        apart_from(low_extras3(origin_near, code).0, low_tetrahedron3(), 4),
        apart_from(low_extras3(origin_near, code).1, low_tetrahedron3(), 4),
        low_extras3(origin_near, code).0 != low_extras3(origin_near, code).1,
{
    let e = low_extras3(origin_near, code);
    lemma_apart(e.0, low_tetrahedron3(), 4);
    lemma_apart(e.1, low_tetrahedron3(), 4);
    if e.0 == e.1 {
        assert(e.0[0] == e.1[0] && e.0[1] == e.1[1] && e.0[2] == e.1[2]);
    }
}

/// No vertex is counted twice in the tetrahedron at the far corner.
pub proof fn lemma_high_extras3_distinct(corner_near: bool, code: int)
    requires
        corner_near ==> code == 3 || code == 5 || code == 6,
        !corner_near ==> code == 1 || code == 2 || code == 4,
    ensures
        apart_from(high_extras3(corner_near, code).0, high_tetrahedron3(), 4),
        apart_from(high_extras3(corner_near, code).1, high_tetrahedron3(), 4),
        high_extras3(corner_near, code).0 != high_extras3(corner_near, code).1,
{
    let e = high_extras3(corner_near, code);
    lemma_apart(e.0, high_tetrahedron3(), 4);
    lemma_apart(e.1, high_tetrahedron3(), 4);
    if e.0 == e.1 {
        assert(e.0[0] == e.1[0] && e.0[1] == e.1[1] && e.0[2] == e.1[2]);
    }
}

/// No vertex is counted twice in the octahedron, as long as the two nearest
/// vertices are two.
pub proof fn lemma_mid_extras3_distinct(a: int, a_far: bool, b: int, b_far: bool)
    requires
        on_side(a, a_far),
        on_side(b, b_far),
        a != b,
    ensures
        apart_from(mid_extras3(a, a_far, b, b_far).0, octahedron3(), 6),
        apart_from(mid_extras3(a, a_far, b, b_far).1, octahedron3(), 6),
        mid_extras3(a, a_far, b, b_far).0 != mid_extras3(a, a_far, b, b_far).1,
{
    let e = mid_extras3(a, a_far, b, b_far);
    lemma_apart(e.0, octahedron3(), 6);
    lemma_apart(e.1, octahedron3(), 6);
    if e.0 == e.1 {
        assert(e.0[0] == e.1[0] && e.0[1] == e.1[1] && e.0[2] == e.1[2]);
    }
}

/// The two vertices of the tetrahedron at the origin, other than the origin,
/// that lie nearest to the point, each with the lattice coordinate that
/// measures how near.
pub open spec fn nearest_low3<T: Scalar>(rel: [T; 3]) -> (int, T, int, T) {
    if at_most(rel[1], rel[0]) && below(rel[1], rel[2]) {
        (1, rel[0], 4, rel[2])
    } else if below(rel[0], rel[1]) && below(rel[0], rel[2]) {
        (4, rel[2], 2, rel[1])
    } else {
        (1, rel[0], 2, rel[1])
    }
}

/// The two vertices of the tetrahedron at the far corner, other than the
/// corner, that lie nearest to the point, each with the lattice coordinate
/// that measures how far.
pub open spec fn nearest_high3<T: Scalar>(rel: [T; 3]) -> (int, T, int, T) {
    if at_most(rel[0], rel[1]) && below(rel[2], rel[1]) {
        (6, rel[0], 3, rel[2])
    } else if below(rel[1], rel[0]) && below(rel[2], rel[0]) {
        (3, rel[2], 5, rel[1])
    } else {
        (6, rel[0], 5, rel[1])
    }
}

/// One of the two nearest vertices of the octahedron: its code, its
/// distance, and whether it lies on the side of the far corner.
pub struct Nearest<T> {
    pub code: u8,
    pub distance: T,
    pub far: bool,
}

/// The nearer of the two opposite vertices of the octahedron that the sum
/// `sum` of two lattice coordinates decides between: `far_code` where the
/// sum is above one, else `near_code`.
pub open spec fn nearer_of<T: Scalar>(sum: T, far_code: u8, near_code: u8) -> Nearest<T> {
    if below(number::<T>(1), sum) {
        Nearest { code: far_code, distance: sum.sub_spec(number::<T>(1)), far: true }
    } else {
        Nearest { code: near_code, distance: number::<T>(1).sub_spec(sum), far: false }
    }
}

/// The two nearest vertices of the octahedron to the point.
pub open spec fn nearest_mid3<T: Scalar>(rel: [T; 3]) -> (Nearest<T>, Nearest<T>) {
    let a = nearer_of(rel[0].add_spec(rel[1]), 3, 4);
    let b = nearer_of(rel[0].add_spec(rel[2]), 5, 2);
    let c = nearer_of(rel[1].add_spec(rel[2]), 6, 1);
    if at_most(a.distance, b.distance) && below(a.distance, c.distance) {
        (c, b)
    } else if below(b.distance, a.distance) && below(b.distance, c.distance) {
        (a, c)
    } else {
        (a, b)
    }
}

/// The vertices that add to the noise at the point with the cell fraction
/// `rel`, in three dimensions.
pub open spec fn vertices3<T: Scalar>(rel: [T; 3]) -> Seq<[i8; 3]> {
    let region_sum = rel[0].add_spec(rel[1]).add_spec(rel[2]);
    if at_most(region_sum, number::<T>(1)) {
        let n = nearest_low3(rel);
        let center_dist = number::<T>(1).sub_spec(region_sum);
        let origin_near = below(n.1, center_dist) || below(n.3, center_dist);
        let code = if origin_near {
            if below(n.1, n.3) {
                n.2
            } else {
                n.0
            }
        } else {
            n.0 + n.2
        };
        low_tetrahedron3().push(low_extras3(origin_near, code).0).push(
            low_extras3(origin_near, code).1,
        )
    } else if at_most(number::<T>(2), region_sum) {
        let n = nearest_high3(rel);
        let center_dist = number::<T>(3).sub_spec(region_sum);
        let corner_near = below(center_dist, n.1) || below(center_dist, n.3);
        let code = if corner_near {
            if below(n.3, n.1) {
                n.2
            } else {
                n.0
            }
        } else {
            n.0 + n.2 - joined(n.0, n.2)
        };
        high_tetrahedron3().push(high_extras3(corner_near, code).0).push(
            high_extras3(corner_near, code).1,
        )
    } else {
        let n = nearest_mid3(rel);
        octahedron3().push(
            mid_extras3(n.0.code as int, n.0.far, n.1.code as int, n.1.far).0,
        ).push(mid_extras3(n.0.code as int, n.0.far, n.1.code as int, n.1.far).1)
    }
}

fn nearer<T: Scalar>(sum: T, far_code: u8, near_code: u8) -> (r: Nearest<T>)
    requires
        total_arithmetic::<T>(),
    ensures
        r == nearer_of(sum, far_code, near_code),
{
    let one: T = from_number(1u16);
    if is_below(one, sum) {
        Nearest { code: far_code, distance: sum - one, far: true }
    } else {
        Nearest { code: near_code, distance: one - sum, far: false }
    }
}

fn select3<T: Scalar>(rel: [T; 3]) -> (r: Vec<[i8; 3]>)
    requires
        total_arithmetic::<T>(),
    ensures
        r@ == vertices3(rel),
{
    let region_sum: T = rel[0] + rel[1] + rel[2];
    if is_at_most(region_sum, from_number(1u16)) {
        let (a_point, a_dist, b_point, b_dist): (u8, T, u8, T) = if is_at_most(rel[1], rel[0])
            && is_below(rel[1], rel[2]) {
            (1, rel[0], 4, rel[2])
        } else if is_below(rel[0], rel[1]) && is_below(rel[0], rel[2]) {
            (4, rel[2], 2, rel[1])
        } else {
            (1, rel[0], 2, rel[1])
        };
        let center_dist: T = from_number::<T>(1u16) - region_sum;
        if is_below(a_dist, center_dist) || is_below(b_dist, center_dist) {
            let c_point: u8 = if is_below(a_dist, b_dist) {
                b_point
            } else {
                a_point
            };
            vertices_3d_low(true, c_point)
        } else {
            vertices_3d_low(false, a_point + b_point)
        }
    } else if is_at_most(from_number(2u16), region_sum) {
        let (a_point, a_dist, b_point, b_dist): (u8, T, u8, T) = if is_at_most(rel[0], rel[1])
            && is_below(rel[2], rel[1]) {
            (6, rel[0], 3, rel[2])
        } else if is_below(rel[1], rel[0]) && is_below(rel[2], rel[0]) {
            (3, rel[2], 5, rel[1])
        } else {
            (6, rel[0], 5, rel[1])
        };
        let center_dist: T = from_number::<T>(3u16) - region_sum;
        if is_below(center_dist, a_dist) || is_below(center_dist, b_dist) {
            let c_point: u8 = if is_below(b_dist, a_dist) {
                b_point
            } else {
                a_point
            };
            vertices_3d_high(true, c_point)
        } else {
            vertices_3d_high(false, a_point + b_point - join(a_point, b_point))
        }
    } else {
        let a: Nearest<T> = nearer(rel[0] + rel[1], 3, 4);
        let b: Nearest<T> = nearer(rel[0] + rel[2], 5, 2);
        let c: Nearest<T> = nearer(rel[1] + rel[2], 6, 1);
        if is_at_most(a.distance, b.distance) && is_below(a.distance, c.distance) {
            vertices_3d_mid(c.code, c.far, b.code, b.far)
        } else if is_below(b.distance, a.distance) && is_below(b.distance, c.distance) {
            vertices_3d_mid(a.code, a.far, c.code, c.far)
        } else {
            vertices_3d_mid(a.code, a.far, b.code, b.far)
        }
    }
}

/// OpenSimplex noise in three dimensions.
pub open spec fn open_simplex3<T: Scalar, L: Fn(T) -> (T, isize)>(
    table: Seq<u8>,
    floor: L,
    point: [T; 3],
) -> T {
    let vertices = vertices3(cell_fraction3(floor, point));
    vertex_sum3(
        table,
        cell_of3(floor, point),
        from_origin3(floor, point),
        vertices,
        vertices.len() as int,
    ).mul_spec(norm_of::<T>(3))
}

/// The vertices of the pentachoron at the origin of a four-dimensional
/// cell.
pub open spec fn low_pentachoron4() -> Seq<[i8; 4]> {
    seq![
        [0i8, 0i8, 0i8, 0i8],
        [1i8, 0i8, 0i8, 0i8],
        [0i8, 1i8, 0i8, 0i8],
        [0i8, 0i8, 1i8, 0i8],
        [0i8, 0i8, 0i8, 1i8],
    ]
}

/// The vertices of the pentachoron at the far corner of the cell.
pub open spec fn high_pentachoron4() -> Seq<[i8; 4]> {
    seq![
        [1i8, 1i8, 1i8, 0i8],
        [1i8, 1i8, 0i8, 1i8],
        [1i8, 0i8, 1i8, 1i8],
        [0i8, 1i8, 1i8, 1i8],
        [1i8, 1i8, 1i8, 1i8],
    ]
}

/// The six vertices of the cell with two lattice coordinates of one.
pub open spec fn middle4() -> Seq<[i8; 4]> {
    seq![
        [1i8, 1i8, 0i8, 0i8],
        [1i8, 0i8, 1i8, 0i8],
        [1i8, 0i8, 0i8, 1i8],
        [0i8, 1i8, 1i8, 0i8],
        [0i8, 1i8, 0i8, 1i8],
        [0i8, 0i8, 1i8, 1i8],
    ]
}

/// The vertices that add to the noise in the region `region` of a
/// four-dimensional cell: 0 for the pentachoron at the origin, 1 for the
/// one at the far corner, 2 for the half between them that lies nearer to
/// the origin and 3 for the other half. A half has the four vertices
/// nearest to its pentachoron, then the six in the middle.
pub open spec fn region_vertices4(region: int) -> Seq<[i8; 4]> {
    if region == 0 {
        low_pentachoron4()
    } else if region == 1 {
        high_pentachoron4()
    } else if region == 2 {
        low_pentachoron4().subrange(1, 5) + middle4()
    } else {
        high_pentachoron4().subrange(0, 4) + middle4()
    }
}

fn push_middle(out: &mut Vec<[i8; 4]>)
    ensures
        final(out)@ == old(out)@ + middle4(),
{
    out.push([1, 1, 0, 0]);
    out.push([1, 0, 1, 0]);
    out.push([1, 0, 0, 1]);
    out.push([0, 1, 1, 0]);
    out.push([0, 1, 0, 1]);
    out.push([0, 0, 1, 1]);
    assert(out@ =~= old(out)@ + middle4());
}

/// The lattice vertices that add to the noise in a region of a
/// four-dimensional cell.
pub fn vertices_4d(region: u8) -> (r: Vec<[i8; 4]>)
    ensures
        r@ == region_vertices4(region as int),
{
    let mut out: Vec<[i8; 4]> = Vec::new();
    if region == 0 {
        out.push([0, 0, 0, 0]);
    }
    if region == 0 || region == 2 {
        out.push([1, 0, 0, 0]);
        out.push([0, 1, 0, 0]);
        out.push([0, 0, 1, 0]);
        out.push([0, 0, 0, 1]);
    } else {
        out.push([1, 1, 1, 0]);
        out.push([1, 1, 0, 1]);
        out.push([1, 0, 1, 1]);
        out.push([0, 1, 1, 1]);
    }
    if region == 1 {
        out.push([1, 1, 1, 1]);
    }
    if region == 0 {
        assert(out@ =~= region_vertices4(0));
    } else if region == 1 {
        assert(out@ =~= region_vertices4(1));
    } else if region == 2 {
        assert(out@ =~= low_pentachoron4().subrange(1, 5));
        push_middle(&mut out);
    } else {
        assert(out@ =~= high_pentachoron4().subrange(0, 4));
        push_middle(&mut out);
    }
    out
}

/// No vertex is counted twice in four dimensions, and every vertex is a
/// corner of the cell.
pub proof fn lemma_region_vertices4_distinct(region: int)
    requires
        0 <= region <= 3,
    ensures
        forall|i: int, j: int|
            0 <= i < j < region_vertices4(region).len() ==> region_vertices4(region)[i]
                != region_vertices4(region)[j],
        forall|i: int, axis: int|
            0 <= i < region_vertices4(region).len() && 0 <= axis < 4 ==> 0 <= (
            #[trigger] region_vertices4(region)[i][axis]) <= 1,
{
    let v = region_vertices4(region);
    assert(v.len() == if region < 2 { 5int } else { 10int });
    assert forall|i: int, j: int| 0 <= i < j < v.len() implies v[i] != v[j] by {
        if v[i] == v[j] {
            assert(v[i][0] == v[j][0] && v[i][1] == v[j][1] && v[i][2] == v[j][2] && v[i][3]
                == v[j][3]);
        }
    }
}

/// The region of the cell that holds the point with the cell fraction
/// `rel`, by the sum of its lattice coordinates.
pub open spec fn region4<T: Scalar>(rel: [T; 4]) -> int {
    let region_sum = rel[0].add_spec(rel[1]).add_spec(rel[2]).add_spec(rel[3]);
    if at_most(region_sum, number::<T>(1)) {
        0
    } else if at_most(number::<T>(3), region_sum) {
        1
    } else if at_most(region_sum, number::<T>(2)) {
        2
    } else {
        3
    }
}

fn select4<T: Scalar>(rel: [T; 4]) -> (r: Vec<[i8; 4]>)
    requires
        total_arithmetic::<T>(),
    ensures
        r@ == region_vertices4(region4(rel)),
{
    let region_sum: T = rel[0] + rel[1] + rel[2] + rel[3];
    if is_at_most(region_sum, from_number(1u16)) {
        vertices_4d(0)
    } else if is_at_most(from_number(3u16), region_sum) {
        vertices_4d(1)
    } else if is_at_most(region_sum, from_number(2u16)) {
        vertices_4d(2)
    } else {
        vertices_4d(3)
    }
}

/// OpenSimplex noise in four dimensions.
pub open spec fn open_simplex4<T: Scalar, L: Fn(T) -> (T, isize)>(
    table: Seq<u8>,
    floor: L,
    point: [T; 4],
) -> T {
    let vertices = region_vertices4(region4(cell_fraction4(floor, point)));
    vertex_sum4(
        table,
        cell_of4(floor, point),
        from_origin4(floor, point),
        vertices,
        vertices.len() as int,
    ).mul_spec(norm_of::<T>(4))
}

/// Noise function that outputs 2/3/4-dimensional Open Simplex noise.
///
/// The values lie in the range of about -1 to 1 and are not limited to it.
/// The rounding to the lattice is handed in, as for Perlin noise.
pub struct OpenSimplex<L> {
    seed: u32,
    perm_table: PermutationTable,
    floor: L,
}

impl<L: Copy> Clone for OpenSimplex<L> {
    fn clone(&self) -> (r: Self)
        ensures
            r == *self,
    {
        proof {
            use_type_invariant(self);
        }
        OpenSimplex { seed: self.seed, perm_table: self.perm_table, floor: self.floor }
    }
}

impl<L: Copy> Copy for OpenSimplex<L> {

}

impl<L> OpenSimplex<L> {
    #[verifier::type_invariant]
    spec fn table_belongs_to_seed(self) -> bool {
        self.perm_table@ == permutation_of(self.seed)
    }

    /// The seed that the permutation table was made from.
    pub closed spec fn seed_of(&self) -> u32 {
        self.seed
    }

    /// The permutation table.
    pub closed spec fn table(&self) -> Seq<u8> {
        self.perm_table@
    }

    /// The rounding to the lattice.
    pub closed spec fn rounding(&self) -> L {
        self.floor
    }

    /// The noise function with the default seed.
    pub fn new(floor: L) -> (r: Self)
        ensures
            r.seed_of() == DEFAULT_SEED,
            r.table() == permutation_of(DEFAULT_SEED),
            r.rounding() == floor,
    {
        OpenSimplex { seed: DEFAULT_SEED, perm_table: PermutationTable::new(DEFAULT_SEED), floor }
    }
}

impl<L> Seedable for OpenSimplex<L> {
    open spec fn seedable(&self) -> bool {
        true
    }

    open spec fn seed_value(&self) -> u32 {
        self.seed_of()
    }

    /// Sets the seed value for Open Simplex noise: the table is made anew,
    /// the rounding stays.
    fn set_seed(self, seed: u32) -> (r: Self)
        ensures
            r.seed_of() == seed,
            r.table() == permutation_of(seed),
            r.rounding() == self.rounding(),
            self.table() == permutation_of(self.seed_of()),
            seed == self.seed_of() ==> r.table() == self.table(),
    {
        proof {
            use_type_invariant(&self);
        }
        if self.seed == seed {
            return self;
        }
        OpenSimplex { seed, perm_table: PermutationTable::new(seed), floor: self.floor }
    }

    /// The seed; the table of the noise function is the one that belongs
    /// to it.
    fn seed(&self) -> (r: u32)
        ensures
            self.table() == permutation_of(r),
    {
        proof {
            use_type_invariant(self);
        }
        self.seed
    }
}

/// 2-dimensional OpenSimplex noise.
impl<T: Scalar, L: Fn(T) -> (T, isize)> NoiseFn<[T; 2], T> for OpenSimplex<L> {
    open spec fn usable(&self) -> bool {
        evaluable::<T, L>(self.rounding())
    }

    open spec fn value_at(&self, point: [T; 2]) -> T {
        open_simplex2(self.table(), self.rounding(), point)
    }

    fn get(&self, point: [T; 2]) -> (r: T) {
        let (cell, rel_coords, pos0) = skew2(&self.floor, point);
        let vertices: Vec<[i8; 2]> = select2(rel_coords);
        contributions2(&self.perm_table, cell, pos0, &vertices) * norm::<T>(2)
    }
}

/// 3-dimensional OpenSimplex noise.
impl<T: Scalar, L: Fn(T) -> (T, isize)> NoiseFn<[T; 3], T> for OpenSimplex<L> {
    open spec fn usable(&self) -> bool {
        evaluable::<T, L>(self.rounding())
    }

    open spec fn value_at(&self, point: [T; 3]) -> T {
        open_simplex3(self.table(), self.rounding(), point)
    }

    fn get(&self, point: [T; 3]) -> (r: T) {
        let (cell, rel_coords, pos0) = skew3(&self.floor, point);
        let vertices: Vec<[i8; 3]> = select3(rel_coords);
        contributions3(&self.perm_table, cell, pos0, &vertices) * norm::<T>(3)
    }
}

/// 4-dimensional OpenSimplex noise.
impl<T: Scalar, L: Fn(T) -> (T, isize)> NoiseFn<[T; 4], T> for OpenSimplex<L> {
    open spec fn usable(&self) -> bool {
        evaluable::<T, L>(self.rounding())
    }

    open spec fn value_at(&self, point: [T; 4]) -> T {
        open_simplex4(self.table(), self.rounding(), point)
    }

    fn get(&self, point: [T; 4]) -> (r: T) {
        let (cell, rel_coords, pos0) = skew4(&self.floor, point);
        let vertices: Vec<[i8; 4]> = select4(rel_coords);
        contributions4(&self.perm_table, cell, pos0, &vertices) * norm::<T>(4)
    }
}

/// Two noise functions made from one seed with one rounding are the same
/// function of the point, in each dimension.
pub proof fn lemma_same_seed_same_noise<T: Scalar, L: Fn(T) -> (T, isize)>(
    a: OpenSimplex<L>,
    b: OpenSimplex<L>,
    seed: u32,
    flat: [T; 2],
    solid: [T; 3],
    hyper: [T; 4],
)
    requires
        a.table() == permutation_of(seed),
        b.table() == permutation_of(seed),
        a.rounding() == b.rounding(),
    ensures
        open_simplex2(a.table(), a.rounding(), flat) == open_simplex2(
            b.table(),
            b.rounding(),
            flat,
        ),
        open_simplex3(a.table(), a.rounding(), solid) == open_simplex3(
            b.table(),
            b.rounding(),
            solid,
        ),
        open_simplex4(a.table(), a.rounding(), hyper) == open_simplex4(
            b.table(),
            b.rounding(),
            hyper,
        ),
{
}

} // verus!
