//! Whole numbers as scalars: arithmetic that is exact, defined everywhere
//! and stops at the ends of its range.
use crate::scalar::{linear_order, total_arithmetic, unit_range_in_order, Scalar};
use core::cmp::Ordering;
use core::ops::{Add, Div, Mul, Neg, Sub};
use vstd::prelude::*;
use vstd::std_specs::cmp::{PartialEqSpecImpl, PartialOrdSpecImpl};
use vstd::std_specs::convert::FromSpecImpl;
use vstd::std_specs::ops::{AddSpecImpl, DivSpecImpl, MulSpecImpl, NegSpecImpl, SubSpecImpl};

verus! {

/// A whole number between `i64::MIN` and `i64::MAX`. Sums, differences and
/// products that leave this range stop at its nearer end; a quotient is
/// rounded towards zero, and by zero it is zero.
#[derive(Clone, Copy, Debug)]
pub struct Whole {
    pub value: i64,
}

/// `n` moved to the nearer end of the range where it lies outside.
pub open spec fn saturated(n: int) -> i64 {
    if n < i64::MIN {
        i64::MIN
    } else if n > i64::MAX {
        i64::MAX
    } else {
        n as i64
    }
}

/// The quotient of two whole numbers, rounded towards zero; zero where the
/// divisor is zero.
pub open spec fn quotient(a: int, b: int) -> int {
    if b == 0 {
        0
    } else if (a >= 0) == (b > 0) {
        if a >= 0 {
            a / b
        } else {
            (-a) / (-b)
        }
    } else {
        if a >= 0 {
            -(a / (-b))
        } else {
            -((-a) / b)
        }
    }
}

fn saturate(n: i128) -> (r: i64)
    ensures
        r == saturated(n as int),
{
    if n < i64::MIN as i128 {
        i64::MIN
    } else if n > i64::MAX as i128 {
        i64::MAX
    } else {
        n as i64
    }
}

impl Whole {
    pub fn new(value: i64) -> (r: Self)
        ensures
            r.value == value,
    {
        Whole { value }
    }
}

impl Default for Whole {
    fn default() -> (r: Self)
        ensures
            r.value == 0,
    {
        Whole { value: 0 }
    }
}

impl PartialEq for Whole {
    fn eq(&self, other: &Self) -> (r: bool) {
        self.value == other.value
    }
}

impl PartialEqSpecImpl for Whole {
    open spec fn obeys_eq_spec() -> bool {
        true
    }

    open spec fn eq_spec(&self, other: &Self) -> bool {
        self.value == other.value
    }
}

impl From<u16> for Whole {
    fn from(n: u16) -> (r: Self) {
        Whole { value: n as i64 }
    }
}

impl FromSpecImpl<u16> for Whole {
    open spec fn obeys_from_spec() -> bool {
        true
    }

    open spec fn from_spec(n: u16) -> Self {
        Whole { value: n as i64 }
    }
}

impl Add for Whole {
    type Output = Whole;

    fn add(self, rhs: Whole) -> (r: Whole) {
        Whole { value: saturate(self.value as i128 + rhs.value as i128) }
    }
}

impl AddSpecImpl for Whole {
    open spec fn obeys_add_spec() -> bool {
        true
    }

    open spec fn add_req(self, rhs: Whole) -> bool {
        true
    }

    open spec fn add_spec(self, rhs: Whole) -> Whole {
        Whole { value: saturated(self.value + rhs.value) }
    }
}

impl Sub for Whole {
    type Output = Whole;

    fn sub(self, rhs: Whole) -> (r: Whole) {
        Whole { value: saturate(self.value as i128 - rhs.value as i128) }
    }
}

impl SubSpecImpl for Whole {
    open spec fn obeys_sub_spec() -> bool {
        true
    }

    open spec fn sub_req(self, rhs: Whole) -> bool {
        true
    }

    open spec fn sub_spec(self, rhs: Whole) -> Whole {
        Whole { value: saturated(self.value - rhs.value) }
    }
}

impl Mul for Whole {
    type Output = Whole;

    fn mul(self, rhs: Whole) -> (r: Whole) {
        assert(-0x4000_0000_0000_0000_0000_0000_0000_0000 <= self.value * rhs.value
            <= 0x4000_0000_0000_0000_0000_0000_0000_0000) by (nonlinear_arith)
            requires
                -0x8000_0000_0000_0000 <= self.value <= 0x8000_0000_0000_0000,
                -0x8000_0000_0000_0000 <= rhs.value <= 0x8000_0000_0000_0000,
        ;
        Whole { value: saturate(self.value as i128 * rhs.value as i128) }
    }
}

impl MulSpecImpl for Whole {
    open spec fn obeys_mul_spec() -> bool {
        true
    }

    open spec fn mul_req(self, rhs: Whole) -> bool {
        true
    }

    open spec fn mul_spec(self, rhs: Whole) -> Whole {
        Whole { value: saturated(self.value * rhs.value) }
    }
}

impl Div for Whole {
    type Output = Whole;

    fn div(self, rhs: Whole) -> (r: Whole) {
        let a: i128 = self.value as i128;
        let b: i128 = rhs.value as i128;
        if b == 0 {
            Whole { value: 0 }
        } else if a >= 0 && b > 0 {
            Whole { value: saturate(a / b) }
        } else if a < 0 && b < 0 {
            Whole { value: saturate((-a) / (-b)) }
        } else if a >= 0 {
            Whole { value: saturate(-(a / (-b))) }
        } else {
            Whole { value: saturate(-((-a) / b)) }
        }
    }
}

impl DivSpecImpl for Whole {
    open spec fn obeys_div_spec() -> bool {
        true
    }

    open spec fn div_req(self, rhs: Whole) -> bool {
        true
    }

    open spec fn div_spec(self, rhs: Whole) -> Whole {
        Whole { value: saturated(quotient(self.value as int, rhs.value as int)) }
    }
}

impl Neg for Whole {
    type Output = Whole;

    fn neg(self) -> (r: Whole) {
        Whole { value: saturate(-(self.value as i128)) }
    }
}

impl NegSpecImpl for Whole {
    open spec fn obeys_neg_spec() -> bool {
        true
    }

    open spec fn neg_req(self) -> bool {
        true
    }

    open spec fn neg_spec(self) -> Whole {
        Whole { value: saturated(-self.value) }
    }
}

impl PartialOrd for Whole {
    fn partial_cmp(&self, other: &Self) -> (r: Option<Ordering>) {
        if self.value < other.value {
            Some(Ordering::Less)
        } else if self.value > other.value {
            Some(Ordering::Greater)
        } else {
            Some(Ordering::Equal)
        }
    }
}

impl PartialOrdSpecImpl for Whole {
    open spec fn obeys_partial_cmp_spec() -> bool {
        true
    }

    open spec fn partial_cmp_spec(&self, other: &Self) -> Option<Ordering> {
        if self.value < other.value {
            Some(Ordering::Less)
        } else if self.value > other.value {
            Some(Ordering::Greater)
        } else {
            Some(Ordering::Equal)
        }
    }
}

/// Whole numbers meet what the library asks of a scalar type.
pub proof fn lemma_whole_is_total()
    ensures
        total_arithmetic::<Whole>(),
{
}

/// The order of the whole numbers is that of numbers, with minus one below
/// one.
pub proof fn lemma_whole_is_ordered()
    ensures
        linear_order::<Whole>(),
        unit_range_in_order::<Whole>(),
{
}

/// The lattice cell of a whole number: the number itself, as far as every
/// machine's lattice coordinates reach.
pub open spec fn cell_of(value: i64) -> isize {
    if value > 0x7fff_ffff {
        0x7fff_ffffisize
    } else if value < -0x7fff_ffff {
        (-0x7fff_ffffisize) as isize
    } else {
        value as isize
    }
}

/// The rounding of whole numbers to the lattice: a whole number is its own
/// floor.
pub fn whole_floor(x: Whole) -> (r: (Whole, isize))
    ensures
        r.0 == x,
        r.1 == cell_of(x.value),
{
    let clipped: i64 = if x.value > 0x7fff_ffff {
        0x7fff_ffff
    } else if x.value < -0x7fff_ffff {
        -0x7fff_ffff
    } else {
        x.value
    };
    (x, clipped as isize)
}

} // verus!
