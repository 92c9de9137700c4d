//! Noise functions that change the values of one source, sample by sample.
use crate::noise_fns::combiners::{is_function, result_of};
use crate::noise_fns::generators::constant::Constant;
use crate::noise_fns::{map_with, sample_parallel, NoiseFieldFn, NoiseFn};
use crate::noisefield::NoiseField;
use crate::scalar::{
    abs, abs_spec, clamp, clamp_spec, from_number, number, total_arithmetic, Scalar,
};
use core::ops::Neg;
use vstd::prelude::*;
use vstd::std_specs::ops::{AddSpec, DivSpec, MulSpec, NegSpec, SubSpec};

verus! {

/// Noise function that outputs the absolute value of the output value from
/// the source function.
pub struct Abs<'a, A: ?Sized> {
    /// Outputs a value.
    pub source: &'a A,
}

impl<'a, A: ?Sized> Abs<'a, A> {
    pub fn new(source: &'a A) -> (r: Self)
        ensures
            r.source == source,
    {
        Abs { source }
    }
}

/// The distance from zero, as a function of values.
struct Magnitude {}

impl<T: Scalar> NoiseFn<T, T> for Magnitude {
    closed spec fn usable(&self) -> bool {
        total_arithmetic::<T>()
    }

    closed spec fn value_at(&self, point: T) -> T {
        abs_spec(point)
    }

    fn get(&self, point: T) -> (r: T) {
        abs(point)
    }
}

/// The values are worked out on rayon's threads.
impl<'a, F: NoiseField, A: ?Sized + NoiseFieldFn<F>> NoiseFieldFn<F> for Abs<'a, A> where
    F::Scalar: Scalar + Send + Sync,
 {
    open spec fn accepts(&self, field: &F) -> bool {
        &&& total_arithmetic::<F::Scalar>()
        &&& self.source.accepts(field)
    }

    open spec fn output(&self, field: &F) -> Seq<F::Scalar> {
        Seq::new(self.source.output(field).len(), |i: int| abs_spec(self.source.output(field)[i]))
    }

    fn process_field(&self, field: &F) -> (out: F) {
        let mut out: F = self.source.process_field(field);
        let values: Vec<F::Scalar> = sample_parallel(&Magnitude {  }, out.values());
        out.set_values(values.as_slice());
        assert(out.value_seq() =~= self.output(field));
        out
    }
}

/// Noise function that negates the output value from the source function.
pub struct Negate<'a, A: ?Sized> {
    /// Outputs a value.
    pub source: &'a A,
}

impl<'a, A: ?Sized> Negate<'a, A> {
    pub fn new(source: &'a A) -> (r: Self)
        ensures
            r.source == source,
    {
        Negate { source }
    }
}

/// The opposite, as a function of values.
struct Opposite {}

impl<T: Scalar> NoiseFn<T, T> for Opposite {
    closed spec fn usable(&self) -> bool {
        total_arithmetic::<T>()
    }

    closed spec fn value_at(&self, point: T) -> T {
        point.neg_spec()
    }

    fn get(&self, point: T) -> (r: T) {
        point.neg()
    }
}

/// The values are worked out on rayon's threads.
impl<'a, F: NoiseField, A: ?Sized + NoiseFieldFn<F>> NoiseFieldFn<F> for Negate<'a, A> where
    F::Scalar: Scalar + Send + Sync,
 {
    open spec fn accepts(&self, field: &F) -> bool {
        &&& total_arithmetic::<F::Scalar>()
        &&& self.source.accepts(field)
    }

    open spec fn output(&self, field: &F) -> Seq<F::Scalar> {
        Seq::new(self.source.output(field).len(), |i: int| self.source.output(field)[i].neg_spec())
    }

    fn process_field(&self, field: &F) -> (out: F) {
        let mut out: F = self.source.process_field(field);
        let values: Vec<F::Scalar> = sample_parallel(&Opposite {  }, out.values());
        out.set_values(values.as_slice());
        assert(out.value_seq() =~= self.output(field));
        out
    }
}

/// Noise function that clamps the output value from the source function to
/// a range of values.
pub struct Clamp<'a, A: ?Sized, T> {
    /// Outputs a value.
    pub source: &'a A,
    /// Bound of the clamping range. Default is -1 to 1.
    pub bounds: (T, T),
}

impl<'a, A: ?Sized, T: Scalar> Clamp<'a, A, T> {
    pub fn new(source: &'a A) -> (r: Self)
        requires
            total_arithmetic::<T>(),
        ensures
            r == (Clamp { source, bounds: (number::<T>(1).neg_spec(), number::<T>(1)) }),
    {
        let one: T = from_number(1u16);
        Clamp { source, bounds: (one.neg(), one) }
    }

    pub fn set_lower_bound(self, lower_bound: T) -> (r: Self)
        ensures
            r == (Clamp { source: self.source, bounds: (lower_bound, self.bounds.1) }),
    {
        Clamp { source: self.source, bounds: (lower_bound, self.bounds.1) }
    }

    pub fn set_upper_bound(self, upper_bound: T) -> (r: Self)
        ensures
            r == (Clamp { source: self.source, bounds: (self.bounds.0, upper_bound) }),
    {
        Clamp { source: self.source, bounds: (self.bounds.0, upper_bound) }
    }

    pub fn set_bounds(self, lower_bound: T, upper_bound: T) -> (r: Self)
        ensures
            r == (Clamp { source: self.source, bounds: (lower_bound, upper_bound) }),
    {
        Clamp { source: self.source, bounds: (lower_bound, upper_bound) }
    }
}

impl<'a, F: NoiseField, A: ?Sized + NoiseFieldFn<F>> NoiseFieldFn<F> for Clamp<
    'a,
    A,
    F::Scalar,
> where F::Scalar: Scalar {
    open spec fn accepts(&self, field: &F) -> bool {
        &&& total_arithmetic::<F::Scalar>()
        &&& self.source.accepts(field)
    }

    open spec fn output(&self, field: &F) -> Seq<F::Scalar> {
        Seq::new(
            self.source.output(field).len(),
            |i: int| clamp_spec(self.source.output(field)[i], self.bounds.0, self.bounds.1),
        )
    }

    fn process_field(&self, field: &F) -> (out: F) {
        let mut out: F = self.source.process_field(field);
        let lo: F::Scalar = self.bounds.0;
        let hi: F::Scalar = self.bounds.1;
        let op = |value: F::Scalar| -> (r: F::Scalar)
            requires
                total_arithmetic::<F::Scalar>(),
            ensures
                r == clamp_spec(value, lo, hi),
            {
                clamp(value, lo, hi)
            };
        let values: Vec<F::Scalar> = map_with(out.values(), op);
        out.set_values(values.as_slice());
        assert(out.value_seq() =~= self.output(field));
        out
    }
}

/// Noise function that applies a scaling factor and a bias to the output
/// value from the source function: the value times the scale, plus the
/// bias.
pub struct ScaleBias<'a, A: ?Sized, T> {
    /// Outputs a value.
    pub source: &'a A,
    /// Scaling factor to apply to the output value from the source function.
    /// The default value is 1.
    pub scale: T,
    /// Bias to apply to the scaled output value from the source function.
    /// The default value is 0.
    pub bias: T,
}

impl<'a, A: ?Sized, T: Scalar> ScaleBias<'a, A, T> {
    pub fn new(source: &'a A) -> (r: Self)
        requires
            total_arithmetic::<T>(),
        ensures
            r == (ScaleBias { source, scale: number::<T>(1), bias: number::<T>(0) }),
    {
        ScaleBias { source, scale: from_number(1u16), bias: from_number(0u16) }
    }

    pub fn set_scale(self, scale: T) -> (r: Self)
        ensures
            r == (ScaleBias { source: self.source, scale, bias: self.bias }),
    {
        ScaleBias { source: self.source, scale, bias: self.bias }
    }

    pub fn set_bias(self, bias: T) -> (r: Self)
        ensures
            r == (ScaleBias { source: self.source, scale: self.scale, bias }),
    {
        ScaleBias { source: self.source, scale: self.scale, bias }
    }
}

impl<'a, F: NoiseField, A: ?Sized + NoiseFieldFn<F>> NoiseFieldFn<F> for ScaleBias<
    'a,
    A,
    F::Scalar,
> where F::Scalar: Scalar {
    open spec fn accepts(&self, field: &F) -> bool {
        &&& total_arithmetic::<F::Scalar>()
        &&& self.source.accepts(field)
    }

    open spec fn output(&self, field: &F) -> Seq<F::Scalar> {
        Seq::new(
            self.source.output(field).len(),
            |i: int| self.source.output(field)[i].mul_spec(self.scale).add_spec(self.bias),
        )
    }

    fn process_field(&self, field: &F) -> (out: F) {
        let mut out: F = self.source.process_field(field);
        let scale: F::Scalar = self.scale;
        let bias: F::Scalar = self.bias;
        let op = |value: F::Scalar| -> (r: F::Scalar)
            requires
                total_arithmetic::<F::Scalar>(),
            ensures
                r == value.mul_spec(scale).add_spec(bias),
            {
                value * scale + bias
            };
        let values: Vec<F::Scalar> = map_with(out.values(), op);
        out.set_values(values.as_slice());
        assert(out.value_seq() =~= self.output(field));
        out
    }
}

/// The value that the exponent curve gives for `value`: the value is moved
/// from the range -1 to 1 into the range 0 to 1, its distance from zero is
/// raised to `exponent`, and the result is moved back: twice it, less one.
pub open spec fn exponent_curve<T: Scalar, P: Fn(T, T) -> T>(pow: P, exponent: T, value: T) -> T {
    let normalized = abs_spec(value.add_spec(number::<T>(1)).div_spec(number::<T>(2)));
    result_of(pow, normalized, exponent).mul_spec(number::<T>(2)).sub_spec(number::<T>(1))
}

/// Noise function that maps the output value from the source function onto
/// an exponential curve.
///
/// Because most noise functions will output values that range from -1 to 1,
/// this noise function first normalizes the output value (the range becomes
/// 0 to 1), maps that value onto an exponential curve, then rescales that
/// value back to the range it came from. The power function is the
/// caller's.
pub struct Exponent<'a, A: ?Sized, T, P> {
    /// Outputs a value.
    pub source: &'a A,
    /// Exponent to apply to the output value from the source function.
    /// Default is 1.
    pub exponent: T,
    /// Raises a base to an exponent.
    pub pow: P,
}

impl<'a, A: ?Sized, T: Scalar, P: Fn(T, T) -> T> Exponent<'a, A, T, P> {
    pub fn new(source: &'a A, pow: P) -> (r: Self)
        requires
            total_arithmetic::<T>(),
        ensures
            r == (Exponent { source, exponent: number::<T>(1), pow }),
    {
        Exponent { source, exponent: from_number(1u16), pow }
    }

    pub fn set_exponent(self, exponent: T) -> (r: Self)
        ensures
            r == (Exponent { source: self.source, exponent, pow: self.pow }),
    {
        Exponent { source: self.source, exponent, pow: self.pow }
    }
}

impl<
    'a,
    F: NoiseField,
    A: ?Sized + NoiseFieldFn<F>,
    P: Fn(F::Scalar, F::Scalar) -> F::Scalar,
> NoiseFieldFn<F> for Exponent<'a, A, F::Scalar, P> where F::Scalar: Scalar {
    open spec fn accepts(&self, field: &F) -> bool {
        &&& total_arithmetic::<F::Scalar>()
        &&& is_function(self.pow)
        &&& self.source.accepts(field)
    }

    open spec fn output(&self, field: &F) -> Seq<F::Scalar> {
        Seq::new(
            self.source.output(field).len(),
            |i: int| exponent_curve(self.pow, self.exponent, self.source.output(field)[i]),
        )
    }

    fn process_field(&self, field: &F) -> (out: F) {
        let mut out: F = self.source.process_field(field);
        let exponent: F::Scalar = self.exponent;
        let pow = &self.pow;
        let op = |value: F::Scalar| -> (r: F::Scalar)
            requires
                total_arithmetic::<F::Scalar>(),
                is_function(pow),
            ensures
                r == exponent_curve(pow, exponent, value),
            {
                let one: F::Scalar = from_number(1u16);
                let two: F::Scalar = from_number(2u16);
                let normalized: F::Scalar = abs((value + one) / two);
                pow(normalized, exponent) * two - one
            };
        let values: Vec<F::Scalar> = map_with(out.values(), op);
        out.set_values(values.as_slice());
        assert(out.value_seq() =~= self.output(field));
        out
    }
}

/// A constant limited to a range is the constant of the limited value,
/// over every field.
pub proof fn lemma_clamp_of_constant<F: NoiseField>(
    clamped: Clamp<'_, Constant<F::Scalar>, F::Scalar>,
    field: &F,
) where F::Scalar: Scalar
    ensures
        NoiseFieldFn::<F>::output(&clamped, field) == NoiseFieldFn::<F>::output(
            &(Constant {
                value: clamp_spec(clamped.source.value, clamped.bounds.0, clamped.bounds.1),
            }),
            field,
        ),
{
    assert(NoiseFieldFn::<F>::output(&clamped, field) =~= NoiseFieldFn::<F>::output(
        &(Constant { value: clamp_spec(clamped.source.value, clamped.bounds.0, clamped.bounds.1) }),
        field,
    ));
}

/// A negated constant is the constant of the negated value, over every
/// field.
pub proof fn lemma_negate_of_constant<F: NoiseField>(
    negated: Negate<'_, Constant<F::Scalar>>,
    field: &F,
) where F::Scalar: Scalar + Send + Sync
    ensures
        NoiseFieldFn::<F>::output(&negated, field) == NoiseFieldFn::<F>::output(
            &(Constant { value: negated.source.value.neg_spec() }),
            field,
        ),
{
    assert(NoiseFieldFn::<F>::output(&negated, field) =~= NoiseFieldFn::<F>::output(
        &(Constant { value: negated.source.value.neg_spec() }),
        field,
    ));
}

} // verus!
