//! What the library asks of the scalar type that coordinates and values
//! are made of, and the few pointwise formulas built from it.
use core::cmp::Ordering;
use core::ops::{Add, Div, Mul, Neg, Sub};
use vstd::prelude::*;
use vstd::std_specs::cmp::PartialOrdSpec;
use vstd::std_specs::convert::FromSpec;
use vstd::std_specs::ops::{AddSpec, DivSpec, MulSpec, NegSpec, SubSpec};

verus! {

/// A scalar: copied freely, with the four arithmetic operations, negation,
/// an order, a default (its zero) and a value for every small integer.
pub trait Scalar: Copy + Default + PartialOrd + From<u16> + Add<Output = Self> + Sub<
    Output = Self,
> + Mul<Output = Self> + Div<Output = Self> + Neg<Output = Self> {

}

impl<T> Scalar for T where
    T: Copy + Default + PartialOrd + From<u16> + Add<Output = T> + Sub<Output = T> + Mul<
        Output = T,
    > + Div<Output = T> + Neg<Output = T>,
 {

}

/// The operations of `T` are functions of their operands, defined on all
/// of them: what holds of real or floating-point arithmetic, and not of
/// integers that overflow.
pub open spec fn total_arithmetic<T: Scalar>() -> bool {
    &&& T::obeys_add_spec()
    &&& T::obeys_sub_spec()
    &&& T::obeys_mul_spec()
    &&& T::obeys_div_spec()
    &&& T::obeys_neg_spec()
    &&& lawful_order::<T>()
    &&& T::obeys_from_spec()
    &&& forall|a: T, b: T| #[trigger] a.add_req(b)
    &&& forall|a: T, b: T| #[trigger] a.sub_req(b)
    &&& forall|a: T, b: T| #[trigger] a.mul_req(b)
    &&& forall|a: T, b: T| #[trigger] a.div_req(b)
    &&& forall|a: T| #[trigger] a.neg_req()
    &&& forall|n: u16| call_requires(T::from, (n,))
}

/// The comparisons of `T` are functions of their operands.
pub open spec fn lawful_order<T: Scalar>() -> bool {
    T::obeys_partial_cmp_spec()
}

/// `a` is strictly below `b`.
pub open spec fn below<T: Scalar>(a: T, b: T) -> bool {
    a.partial_cmp_spec(&b) == Some(Ordering::Less)
}

/// `a` is below `b` or equal to it.
pub open spec fn at_most<T: Scalar>(a: T, b: T) -> bool {
    a.partial_cmp_spec(&b) matches Some(Ordering::Less | Ordering::Equal)
}

/// The scalar that stands for the integer `n`.
pub open spec fn number<T: Scalar>(n: u16) -> T {
    T::from_spec(n)
}

/// `v` limited to the range from `lo` to `hi`.
pub open spec fn clamp_spec<T: Scalar>(v: T, lo: T, hi: T) -> T {
    if below(v, lo) {
        lo
    } else if below(hi, v) {
        hi
    } else {
        v
    }
}

pub fn clamp<T: Scalar>(v: T, lo: T, hi: T) -> (r: T)
    requires
        total_arithmetic::<T>(),
    ensures
        r == clamp_spec(v, lo, hi),
{
    if v < lo {
        lo
    } else if hi < v {
        hi
    } else {
        v
    }
}

/// `a` does not compare with itself: it is no number.
pub open spec fn unordered<T: Scalar>(a: T) -> bool {
    a.partial_cmp_spec(&a) is None
}

fn is_unordered<T: Scalar>(a: T) -> (r: bool)
    requires
        total_arithmetic::<T>(),
    ensures
        r == unordered(a),
{
    a.partial_cmp(&a).is_none()
}

/// The larger of two scalars; where one of them is no number, the other.
pub open spec fn max_spec<T: Scalar>(a: T, b: T) -> T {
    if below(b, a) || unordered(b) {
        a
    } else {
        b
    }
}

pub fn max<T: Scalar>(a: T, b: T) -> (r: T)
    requires
        total_arithmetic::<T>(),
    ensures
        r == max_spec(a, b),
{
    if b < a || is_unordered(b) {
        a
    } else {
        b
    }
}

/// The smaller of two scalars; where one of them is no number, the other.
pub open spec fn min_spec<T: Scalar>(a: T, b: T) -> T {
    if below(a, b) || unordered(b) {
        a
    } else {
        b
    }
}

pub fn min<T: Scalar>(a: T, b: T) -> (r: T)
    requires
        total_arithmetic::<T>(),
    ensures
        r == min_spec(a, b),
{
    if a < b || is_unordered(b) {
        a
    } else {
        b
    }
}

/// Linear interpolation from `a` to `b`, not limited to the weights
/// between zero and one.
pub open spec fn lerp_spec<T: Scalar>(a: T, b: T, weight: T) -> T {
    a.add_spec(b.sub_spec(a).mul_spec(weight))
}

pub fn lerp<T: Scalar>(a: T, b: T, weight: T) -> (r: T)
    requires
        total_arithmetic::<T>(),
    ensures
        r == lerp_spec(a, b, weight),
{
    a + (b - a) * weight
}

/// The distance of `v` from zero: `v` where it is above zero, else zero
/// less `v`.
pub open spec fn abs_spec<T: Scalar>(v: T) -> T {
    if below(number::<T>(0), v) {
        v
    } else {
        number::<T>(0).sub_spec(v)
    }
}

/// The distance of `v` from zero.
pub fn abs<T: Scalar>(v: T) -> (r: T)
    requires
        total_arithmetic::<T>(),
    ensures
        r == abs_spec(v),
{
    let zero: T = T::from(0u16);
    if zero < v {
        v
    } else {
        zero - v
    }
}

/// The cubic curve `x * x * (3 - 2 * x)`, which eases from zero at zero to
/// one at one.
pub open spec fn s_curve3_spec<T: Scalar>(x: T) -> T {
    x.mul_spec(x).mul_spec(number::<T>(3).sub_spec(x.mul_spec(number::<T>(2))))
}

pub fn s_curve3<T: Scalar>(x: T) -> (r: T)
    requires
        total_arithmetic::<T>(),
    ensures
        r == s_curve3_spec(x),
{
    x * x * (T::from(3u16) - x * T::from(2u16))
}

/// The scalar that stands for the integer `n`.
pub fn from_number<T: Scalar>(n: u16) -> (r: T)
    requires
        total_arithmetic::<T>(),
    ensures
        r == number::<T>(n),
{
    T::from(n)
}

/// `a` is strictly below `b`.
pub fn is_below<T: Scalar>(a: T, b: T) -> (r: bool)
    requires
        total_arithmetic::<T>(),
    ensures
        r == below(a, b),
{
    a < b
}

/// The value of the digits `parts`, most significant first, in base 65536.
pub open spec fn digits_spec<T: Scalar>(parts: Seq<u16>) -> T
    decreases parts.len(),
{
    if parts.len() == 0 {
        number::<T>(0)
    } else {
        digits_spec::<T>(parts.drop_last()).mul_spec(
            number::<T>(256).mul_spec(number::<T>(256)),
        ).add_spec(number::<T>(parts.last()))
    }
}

/// `x` divided `n` times by 65536.
pub open spec fn shifted_down<T: Scalar>(x: T, n: nat) -> T
    decreases n,
{
    if n == 0 {
        x
    } else {
        shifted_down(x, (n - 1) as nat).div_spec(number::<T>(256).mul_spec(number::<T>(256)))
    }
}

/// The constant with the base-65536 digits `parts`, the last `places` of
/// them behind the point.
pub open spec fn constant_spec<T: Scalar>(parts: [u16; 5], places: u16) -> T {
    shifted_down(digits_spec::<T>(parts@), places as nat)
}

/// Computes a constant from its digits in base 65536: whatever the scalar
/// type, the library's constants are these fractions.
pub fn constant<T: Scalar>(parts: [u16; 5], places: u16) -> (r: T)
    requires
        total_arithmetic::<T>(),
    ensures
        r == constant_spec::<T>(parts, places),
{
    let base: T = T::from(256u16) * T::from(256u16);
    let mut value: T = T::from(0u16);
    let mut i: usize = 0;
    while i < 5
        invariant
            total_arithmetic::<T>(),
            i <= 5,
            base == number::<T>(256).mul_spec(number::<T>(256)),
            value == digits_spec::<T>(parts@.subrange(0, i as int)),
        decreases 5 - i,
    {
        assert(parts@.subrange(0, i + 1).drop_last() =~= parts@.subrange(0, i as int));
        value = value * base + T::from(parts[i]);
        i += 1;
    }
    assert(parts@.subrange(0, 5) =~= parts@);
    let mut k: u16 = 0;
    while k < places
        invariant
            total_arithmetic::<T>(),
            k <= places,
            base == number::<T>(256).mul_spec(number::<T>(256)),
            value == shifted_down(digits_spec::<T>(parts@), k as nat),
        decreases places - k,
    {
        value = value / base;
        k += 1;
    }
    value
}

/// `x` raised to the fourth power: the square of its square.
pub open spec fn fourth_power_spec<T: Scalar>(x: T) -> T {
    x.mul_spec(x).mul_spec(x.mul_spec(x))
}

pub fn fourth_power<T: Scalar>(x: T) -> (r: T)
    requires
        total_arithmetic::<T>(),
    ensures
        r == fourth_power_spec(x),
{
    let square: T = x * x;
    square * square
}

/// What the library asks of a function that the caller hands in: it takes
/// every argument and returns one value for each.
pub open spec fn is_mapping<A, B, G: Fn(A) -> B>(g: G) -> bool {
    &&& forall|a: A| call_requires(g, (a,))
    &&& forall|a: A, r1: B, r2: B|
        call_ensures(g, (a,), r1) && call_ensures(g, (a,), r2) ==> r1 == r2
}

/// What a function that the caller hands in returns for `a`.
pub open spec fn image<A, B, G: Fn(A) -> B>(g: G, a: A) -> B {
    choose|r: B| call_ensures(g, (a,), r)
}

/// What the library asks of the rounding that the caller hands in: it takes
/// every scalar and returns one pair for each.
pub open spec fn is_rounding<T, L: Fn(T) -> (T, isize)>(floor: L) -> bool {
    &&& forall|x: T| call_requires(floor, (x,))
    &&& forall|x: T, r1: (T, isize), r2: (T, isize)|
        call_ensures(floor, (x,), r1) && call_ensures(floor, (x,), r2) ==> r1 == r2
}

/// What the rounding returns for `x`: the largest whole scalar that is not
/// above `x`, as a scalar and as an integer.
pub open spec fn floor_of<T, L: Fn(T) -> (T, isize)>(floor: L, x: T) -> (T, isize) {
    choose|r: (T, isize)| call_ensures(floor, (x,), r)
}

/// The order of the scalars is that of numbers: every two of them
/// compare, and none lies below itself. It does not hold of a scalar type
/// that has values which are no numbers.
pub open spec fn linear_order<T: Scalar>() -> bool {
    &&& forall|a: T, b: T| #[trigger] below(a, b) || at_most(b, a)
    &&& forall|a: T| !(#[trigger] below(a, a))
}

/// The order of the scalars is that of numbers, and it puts minus one at
/// most at one.
pub open spec fn unit_range_in_order<T: Scalar>() -> bool {
    &&& linear_order::<T>()
    &&& at_most(number::<T>(1).neg_spec(), number::<T>(1))
}

/// `v` lies in the range from minus one to one: minus one is at most `v`,
/// and `v` is at most one.
pub open spec fn in_unit_range<T: Scalar>(v: T) -> bool {
    at_most(number::<T>(1).neg_spec(), v) && at_most(v, number::<T>(1))
}

/// After a value was limited to a range whose bounds are in order, it lies
/// in the range: the lower bound is at most the value and the value at
/// most the upper bound. What is asked of the order is that each bound is
/// at most itself and that the value compares with either bound.
pub proof fn lemma_clamp_in_range<T: Scalar>(v: T, lo: T, hi: T)
    requires
        at_most(lo, hi),
        at_most(lo, lo),
        at_most(hi, hi),
        below(v, lo) || at_most(lo, v),
        below(hi, v) || at_most(v, hi),
    ensures
        at_most(lo, clamp_spec(v, lo, hi)),
        at_most(clamp_spec(v, lo, hi), hi),
{
}

/// Under the order of numbers a value limited to the range from minus one
/// to one lies in it.
pub proof fn lemma_clamp_in_unit_range<T: Scalar>(v: T)
    requires
        unit_range_in_order::<T>(),
    ensures
        in_unit_range(clamp_spec(v, number::<T>(1).neg_spec(), number::<T>(1))),
{
    let lo = number::<T>(1).neg_spec();
    let hi = number::<T>(1);
    assert(below(lo, lo) || at_most(lo, lo));
    assert(below(hi, hi) || at_most(hi, hi));
    assert(below(v, lo) || at_most(lo, v));
    assert(below(hi, v) || at_most(v, hi));
    lemma_clamp_in_range(v, lo, hi);
}

/// Limits a value to the range from minus one to one.
pub fn clamp_to_unit<T: Scalar>(v: T) -> (r: T)
    requires
        total_arithmetic::<T>(),
    ensures
        r == clamp_spec(v, number::<T>(1).neg_spec(), number::<T>(1)),
        unit_range_in_order::<T>() ==> in_unit_range(r),
{
    proof {
        if unit_range_in_order::<T>() {
            lemma_clamp_in_unit_range(v);
        }
    }
    let one: T = T::from(1u16);
    clamp(v, one.neg(), one)
}

/// `a` is below `b` or equal to it.
pub fn is_at_most<T: Scalar>(a: T, b: T) -> (r: bool)
    requires
        total_arithmetic::<T>(),
    ensures
        r == at_most(a, b),
{
    a <= b
}

} // verus!
