//! Noise functions that combine the values of two sources, sample by
//! sample.
use crate::noise_fns::generators::constant::Constant;
use crate::noise_fns::{zip_with, NoiseFieldFn};
use crate::noisefield::NoiseField;
use crate::scalar::{max, max_spec, min, min_spec, total_arithmetic, Scalar};
use vstd::prelude::*;
use vstd::std_specs::ops::{AddSpec, MulSpec};

verus! {

/// Noise function that outputs the sum of the two output values from two
/// source functions.
pub struct Add<'a, A: ?Sized, B: ?Sized> {
    /// Outputs a value.
    pub source1: &'a A,
    /// Outputs a value.
    pub source2: &'a B,
}

impl<'a, A: ?Sized, B: ?Sized> Add<'a, A, B> {
    pub fn new(source1: &'a A, source2: &'a B) -> (r: Self)
        ensures
            r.source1 == source1,
            r.source2 == source2,
    {
        Add { source1, source2 }
    }
}

impl<'a, F: NoiseField, A: ?Sized + NoiseFieldFn<F>, B: ?Sized + NoiseFieldFn<F>> NoiseFieldFn<
    F,
> for Add<'a, A, B> where F::Scalar: Scalar {
    open spec fn accepts(&self, field: &F) -> bool {
        &&& total_arithmetic::<F::Scalar>()
        &&& self.source1.accepts(field)
        &&& self.source2.accepts(field)
    }

    open spec fn output(&self, field: &F) -> Seq<F::Scalar> {
        Seq::new(
            self.source1.output(field).len(),
            |i: int| self.source1.output(field)[i].add_spec(self.source2.output(field)[i]),
        )
    }

    fn process_field(&self, field: &F) -> (out: F) {
        let mut out: F = self.source1.process_field(field);
        let field2: F = self.source2.process_field(field);
        proof {
            out.lemma_one_value_per_point();
            field2.lemma_one_value_per_point();
        }
        let op = |value1: F::Scalar, value2: F::Scalar| -> (r: F::Scalar)
            requires
                total_arithmetic::<F::Scalar>(),
            ensures
                r == value1.add_spec(value2),
            {
                value1 + value2
            };
        let values: Vec<F::Scalar> = zip_with(out.values(), field2.values(), op);
        out.set_values(values.as_slice());
        assert(out.value_seq() =~= self.output(field));
        out
    }
}

/// Noise function that outputs the product of the two output values from
/// two source functions.
pub struct Multiply<'a, A: ?Sized, B: ?Sized> {
    /// Outputs a value.
    pub source1: &'a A,
    /// Outputs a value.
    pub source2: &'a B,
}

impl<'a, A: ?Sized, B: ?Sized> Multiply<'a, A, B> {
    pub fn new(source1: &'a A, source2: &'a B) -> (r: Self)
        ensures
            r.source1 == source1,
            r.source2 == source2,
    {
        Multiply { source1, source2 }
    }
}

impl<'a, F: NoiseField, A: ?Sized + NoiseFieldFn<F>, B: ?Sized + NoiseFieldFn<F>> NoiseFieldFn<
    F,
> for Multiply<'a, A, B> where F::Scalar: Scalar {
    open spec fn accepts(&self, field: &F) -> bool {
        &&& total_arithmetic::<F::Scalar>()
        &&& self.source1.accepts(field)
        &&& self.source2.accepts(field)
    }

    open spec fn output(&self, field: &F) -> Seq<F::Scalar> {
        Seq::new(
            self.source1.output(field).len(),
            |i: int| self.source1.output(field)[i].mul_spec(self.source2.output(field)[i]),
        )
    }

    fn process_field(&self, field: &F) -> (out: F) {
        let mut out: F = self.source1.process_field(field);
        let field2: F = self.source2.process_field(field);
        proof {
            out.lemma_one_value_per_point();
            field2.lemma_one_value_per_point();
        }
        let op = |value1: F::Scalar, value2: F::Scalar| -> (r: F::Scalar)
            requires
                total_arithmetic::<F::Scalar>(),
            ensures
                r == value1.mul_spec(value2),
            {
                value1 * value2
            };
        let values: Vec<F::Scalar> = zip_with(out.values(), field2.values(), op);
        out.set_values(values.as_slice());
        assert(out.value_seq() =~= self.output(field));
        out
    }
}

/// Noise function that outputs the larger of the two output values from two
/// source functions.
pub struct Max<'a, A: ?Sized, B: ?Sized> {
    /// Outputs a value.
    pub source1: &'a A,
    /// Outputs a value.
    pub source2: &'a B,
}

impl<'a, A: ?Sized, B: ?Sized> Max<'a, A, B> {
    pub fn new(source1: &'a A, source2: &'a B) -> (r: Self)
        ensures
            r.source1 == source1,
            r.source2 == source2,
    {
        Max { source1, source2 }
    }
}

impl<'a, F: NoiseField, A: ?Sized + NoiseFieldFn<F>, B: ?Sized + NoiseFieldFn<F>> NoiseFieldFn<
    F,
> for Max<'a, A, B> where F::Scalar: Scalar {
    open spec fn accepts(&self, field: &F) -> bool {
        &&& total_arithmetic::<F::Scalar>()
        &&& self.source1.accepts(field)
        &&& self.source2.accepts(field)
    }

    open spec fn output(&self, field: &F) -> Seq<F::Scalar> {
        Seq::new(
            self.source1.output(field).len(),
            |i: int| max_spec(self.source1.output(field)[i], self.source2.output(field)[i]),
        )
    }

    fn process_field(&self, field: &F) -> (out: F) {
        let mut out: F = self.source1.process_field(field);
        let field2: F = self.source2.process_field(field);
        proof {
            out.lemma_one_value_per_point();
            field2.lemma_one_value_per_point();
        }
        let op = |value1: F::Scalar, value2: F::Scalar| -> (r: F::Scalar)
            requires
                total_arithmetic::<F::Scalar>(),
            ensures
                r == max_spec(value1, value2),
            {
                max(value1, value2)
            };
        let values: Vec<F::Scalar> = zip_with(out.values(), field2.values(), op);
        out.set_values(values.as_slice());
        assert(out.value_seq() =~= self.output(field));
        out
    }
}

/// Noise function that outputs the smaller of the two output values from
/// two source functions.
pub struct Min<'a, A: ?Sized, B: ?Sized> {
    /// Outputs a value.
    pub source1: &'a A,
    /// Outputs a value.
    pub source2: &'a B,
}

impl<'a, A: ?Sized, B: ?Sized> Min<'a, A, B> {
    pub fn new(source1: &'a A, source2: &'a B) -> (r: Self)
        ensures
            r.source1 == source1,
            r.source2 == source2,
    {
        Min { source1, source2 }
    }
}

impl<'a, F: NoiseField, A: ?Sized + NoiseFieldFn<F>, B: ?Sized + NoiseFieldFn<F>> NoiseFieldFn<
    F,
> for Min<'a, A, B> where F::Scalar: Scalar {
    open spec fn accepts(&self, field: &F) -> bool {
        &&& total_arithmetic::<F::Scalar>()
        &&& self.source1.accepts(field)
        &&& self.source2.accepts(field)
    }

    open spec fn output(&self, field: &F) -> Seq<F::Scalar> {
        Seq::new(
            self.source1.output(field).len(),
            |i: int| min_spec(self.source1.output(field)[i], self.source2.output(field)[i]),
        )
    }

    fn process_field(&self, field: &F) -> (out: F) {
        let mut out: F = self.source1.process_field(field);
        let field2: F = self.source2.process_field(field);
        proof {
            out.lemma_one_value_per_point();
            field2.lemma_one_value_per_point();
        }
        let op = |value1: F::Scalar, value2: F::Scalar| -> (r: F::Scalar)
            requires
                total_arithmetic::<F::Scalar>(),
            ensures
                r == min_spec(value1, value2),
            {
                min(value1, value2)
            };
        let values: Vec<F::Scalar> = zip_with(out.values(), field2.values(), op);
        out.set_values(values.as_slice());
        assert(out.value_seq() =~= self.output(field));
        out
    }
}

/// `pow` returns one value for each pair of operands, and takes every pair.
pub open spec fn is_function<T, P: Fn(T, T) -> T>(pow: P) -> bool {
    &&& forall|base: T, exponent: T| call_requires(pow, (base, exponent))
    &&& forall|base: T, exponent: T, r1: T, r2: T|
        call_ensures(pow, (base, exponent), r1) && call_ensures(pow, (base, exponent), r2) ==> r1
            == r2
}

/// What `pow` returns for a pair of operands.
pub open spec fn result_of<T, P: Fn(T, T) -> T>(pow: P, base: T, exponent: T) -> T {
    choose|r: T| call_ensures(pow, (base, exponent), r)
}

/// Noise function that raises the output value from the first source
/// function to the power of the output value of the second source function.
///
/// The library has no power function of its own for a scalar: the caller
/// hands in the one of the scalar type, and what it returns for a base and
/// an exponent is passed on as it is.
pub struct Power<'a, A: ?Sized, B: ?Sized, P> {
    /// Outputs a value.
    pub source1: &'a A,
    /// Outputs a value.
    pub source2: &'a B,
    /// Raises a base to an exponent.
    pub pow: P,
}

impl<'a, A: ?Sized, B: ?Sized, P> Power<'a, A, B, P> {
    pub fn new(source1: &'a A, source2: &'a B, pow: P) -> (r: Self)
        ensures
            r.source1 == source1,
            r.source2 == source2,
            r.pow == pow,
    {
        Power { source1, source2, pow }
    }
}

impl<
    'a,
    F: NoiseField,
    A: ?Sized + NoiseFieldFn<F>,
    B: ?Sized + NoiseFieldFn<F>,
    P: Fn(F::Scalar, F::Scalar) -> F::Scalar,
> NoiseFieldFn<F> for Power<'a, A, B, P> {
    open spec fn accepts(&self, field: &F) -> bool {
        &&& is_function(self.pow)
        &&& self.source1.accepts(field)
        &&& self.source2.accepts(field)
    }

    open spec fn output(&self, field: &F) -> Seq<F::Scalar> {
        Seq::new(
            self.source1.output(field).len(),
            |i: int|
                result_of(self.pow, self.source1.output(field)[i], self.source2.output(field)[i]),
        )
    }

    fn process_field(&self, field: &F) -> (out: F) {
        let mut out: F = self.source1.process_field(field);
        let field2: F = self.source2.process_field(field);
        proof {
            out.lemma_one_value_per_point();
            field2.lemma_one_value_per_point();
        }
        let values: Vec<F::Scalar> = zip_with(out.values(), field2.values(), &self.pow);
        out.set_values(values.as_slice());
        assert(out.value_seq() =~= self.output(field));
        out
    }
}

/// The sum of two constants is the constant of their sum, over every
/// field.
pub proof fn lemma_add_of_constants<F: NoiseField>(
    sum: Add<'_, Constant<F::Scalar>, Constant<F::Scalar>>,
    field: &F,
) where F::Scalar: Scalar
    ensures
        NoiseFieldFn::<F>::output(&sum, field) == NoiseFieldFn::<F>::output(
            &(Constant { value: sum.source1.value.add_spec(sum.source2.value) }),
            field,
        ),
{
    assert(NoiseFieldFn::<F>::output(&sum, field) =~= NoiseFieldFn::<F>::output(
        &(Constant { value: sum.source1.value.add_spec(sum.source2.value) }),
        field,
    ));
}

} // verus!
