//! Noise functions that choose between, or mix, the values of two sources
//! by the value of a third.
use crate::noise_fns::generators::constant::Constant;
use crate::noise_fns::{zip3_with, NoiseFieldFn};
use crate::noisefield::NoiseField;
use crate::scalar::{
    below, from_number, is_below, lerp, lerp_spec, number, s_curve3, s_curve3_spec,
    total_arithmetic, Scalar,
};
use vstd::prelude::*;
use vstd::std_specs::ops::{AddSpec, DivSpec, SubSpec};

verus! {

/// Noise function that outputs a weighted blend of the output values from
/// two source functions given the output value supplied by a control
/// function.
///
/// The blend is a linear interpolation from the first source to the second
/// with the control value as its weight. The weight is used as it comes:
/// outside the range from zero to one it extrapolates.
pub struct Blend<'a, A: ?Sized, B: ?Sized, C: ?Sized> {
    /// Outputs one of the values to blend.
    pub source1: &'a A,
    /// Outputs one of the values to blend.
    pub source2: &'a B,
    /// Determines the weight of the blending operation.
    pub control: &'a C,
}

impl<'a, A: ?Sized, B: ?Sized, C: ?Sized> Blend<'a, A, B, C> {
    pub fn new(
        source1: &'a A,
        source2: &'a B,
        control: &'a C,
    ) -> (r: Self)
        ensures
            r.source1 == source1,
            r.source2 == source2,
            r.control == control,
    {
        Blend { source1, source2, control }
    }
}

impl<
    'a,
    F: NoiseField,
    A: ?Sized + NoiseFieldFn<F>,
    B: ?Sized + NoiseFieldFn<F>,
    C: ?Sized + NoiseFieldFn<F>,
> NoiseFieldFn<F> for Blend<'a, A, B, C> where F::Scalar: Scalar {
    open spec fn accepts(&self, field: &F) -> bool {
        &&& total_arithmetic::<F::Scalar>()
        &&& self.source1.accepts(field)
        &&& self.source2.accepts(field)
        &&& self.control.accepts(field)
    }

    open spec fn output(&self, field: &F) -> Seq<F::Scalar> {
        Seq::new(
            self.control.output(field).len(),
            |i: int|
                lerp_spec(
                    self.source1.output(field)[i],
                    self.source2.output(field)[i],
                    self.control.output(field)[i],
                ),
        )
    }

    fn process_field(&self, field: &F) -> (out: F) {
        let control: F = self.control.process_field(field);
        let lower: F = self.source1.process_field(field);
        let upper: F = self.source2.process_field(field);
        let mut out: F = field.duplicate();
        proof {
            control.lemma_one_value_per_point();
            lower.lemma_one_value_per_point();
            upper.lemma_one_value_per_point();
            out.lemma_one_value_per_point();
        }
        let op = |weight: F::Scalar, a: F::Scalar, b: F::Scalar| -> (r: F::Scalar)
            requires
                total_arithmetic::<F::Scalar>(),
            ensures
                r == lerp_spec(a, b, weight),
            {
                lerp(a, b, weight)
            };
        let values: Vec<F::Scalar> = zip3_with(
            control.values(),
            lower.values(),
            upper.values(),
            op,
        );
        out.set_values(values.as_slice());
        assert(out.value_seq() =~= self.output(field));
        out
    }
}

/// The weight of the far side at `control` inside the band from `edge -
/// falloff` to `edge + falloff`: the cubic curve of the position of
/// `control` in the band.
pub open spec fn edge_weight<T: Scalar>(control: T, edge: T, falloff: T) -> T {
    let lower_curve = edge.sub_spec(falloff);
    let upper_curve = edge.add_spec(falloff);
    s_curve3_spec(control.sub_spec(lower_curve).div_spec(upper_curve.sub_spec(lower_curve)))
}

/// The value that a selection gives for one sample. `outside` is the value
/// of the first source, `inside` that of the second.
///
/// Without a falloff above zero the choice is hard: `inside` where the
/// control value lies strictly between the bounds, else `outside`. With one,
/// each bound has a band of the falloff's width to either side, in which the
/// two values are blended along the cubic curve.
pub open spec fn select_spec<T: Scalar>(
    control: T,
    outside: T,
    inside: T,
    bounds: (T, T),
    falloff: T,
) -> T {
    if below(number::<T>(0), falloff) {
        if below(control, bounds.0.sub_spec(falloff)) {
            outside
        } else if below(control, bounds.0.add_spec(falloff)) {
            lerp_spec(outside, inside, edge_weight(control, bounds.0, falloff))
        } else if below(control, bounds.1.sub_spec(falloff)) {
            inside
        } else if below(control, bounds.1.add_spec(falloff)) {
            lerp_spec(inside, outside, edge_weight(control, bounds.1, falloff))
        } else {
            outside
        }
    } else if below(bounds.0, control) && below(control, bounds.1) {
        inside
    } else {
        outside
    }
}

fn edge_blend<T: Scalar>(control: T, edge: T, falloff: T) -> (r: T)
    requires
        total_arithmetic::<T>(),
    ensures
        r == edge_weight(control, edge, falloff),
{
    let lower_curve: T = edge - falloff;
    let upper_curve: T = edge + falloff;
    s_curve3((control - lower_curve) / (upper_curve - lower_curve))
}

/// Computes the value that a selection gives for one sample.
pub fn select_value<T: Scalar>(control: T, outside: T, inside: T, bounds: (T, T), falloff: T) -> (r:
    T)
    requires
        total_arithmetic::<T>(),
    ensures
        r == select_spec(control, outside, inside, bounds, falloff),
{
    let zero: T = from_number(0u16);
    if is_below(zero, falloff) {
        if is_below(control, bounds.0 - falloff) {
            outside
        } else if is_below(control, bounds.0 + falloff) {
            lerp(outside, inside, edge_blend(control, bounds.0, falloff))
        } else if is_below(control, bounds.1 - falloff) {
            inside
        } else if is_below(control, bounds.1 + falloff) {
            lerp(inside, outside, edge_blend(control, bounds.1, falloff))
        } else {
            outside
        }
    } else if is_below(bounds.0, control) && is_below(control, bounds.1) {
        inside
    } else {
        outside
    }
}

/// Noise function that outputs the value selected from one of two source
/// functions chosen by the output value from a control function.
pub struct Select<'a, A: ?Sized, B: ?Sized, C: ?Sized, T> {
    /// Outputs a value.
    pub source1: &'a A,
    /// Outputs a value.
    pub source2: &'a B,
    /// Determines the value to select. If the output value from the control
    /// function is within a range of values known as the selection range,
    /// this noise function outputs the value from `source2`. Otherwise,
    /// this noise function outputs the value from `source1`.
    pub control: &'a C,
    /// Bounds of the selection range. Default is 0 to 1.
    pub bounds: (T, T),
    /// Edge falloff value. Default is 0.
    pub falloff: T,
}

impl<'a, A: ?Sized, B: ?Sized, C: ?Sized, T: Scalar> Select<'a, A, B, C, T> {
    pub fn new(
        source1: &'a A,
        source2: &'a B,
        control: &'a C,
    ) -> (r: Self)
        requires
            total_arithmetic::<T>(),
        ensures
            r == (Select {
                source1,
                source2,
                control,
                bounds: (number::<T>(0), number::<T>(1)),
                falloff: number::<T>(0),
            }),
    {
        Select {
            source1,
            source2,
            control,
            bounds: (from_number(0u16), from_number(1u16)),
            falloff: from_number(0u16),
        }
    }

    pub fn set_bounds(self, lower_bound: T, upper_bound: T) -> (r: Self)
        ensures
            r == (Select {
                source1: self.source1,
                source2: self.source2,
                control: self.control,
                bounds: (lower_bound, upper_bound),
                falloff: self.falloff,
            }),
    {
        Select {
            source1: self.source1,
            source2: self.source2,
            control: self.control,
            bounds: (lower_bound, upper_bound),
            falloff: self.falloff,
        }
    }

    pub fn set_falloff(self, falloff: T) -> (r: Self)
        ensures
            r == (Select {
                source1: self.source1,
                source2: self.source2,
                control: self.control,
                bounds: self.bounds,
                falloff,
            }),
    {
        Select {
            source1: self.source1,
            source2: self.source2,
            control: self.control,
            bounds: self.bounds,
            falloff,
        }
    }
}

impl<
    'a,
    F: NoiseField,
    A: ?Sized + NoiseFieldFn<F>,
    B: ?Sized + NoiseFieldFn<F>,
    C: ?Sized + NoiseFieldFn<F>,
> NoiseFieldFn<F> for Select<'a, A, B, C, F::Scalar> where F::Scalar: Scalar {
    open spec fn accepts(&self, field: &F) -> bool {
        &&& total_arithmetic::<F::Scalar>()
        &&& self.source1.accepts(field)
        &&& self.source2.accepts(field)
        &&& self.control.accepts(field)
    }

    open spec fn output(&self, field: &F) -> Seq<F::Scalar> {
        Seq::new(
            self.control.output(field).len(),
            |i: int|
                select_spec(
                    self.control.output(field)[i],
                    self.source1.output(field)[i],
                    self.source2.output(field)[i],
                    self.bounds,
                    self.falloff,
                ),
        )
    }

    fn process_field(&self, field: &F) -> (out: F) {
        let control: F = self.control.process_field(field);
        let source1: F = self.source1.process_field(field);
        let source2: F = self.source2.process_field(field);
        let mut out: F = field.duplicate();
        proof {
            control.lemma_one_value_per_point();
            source1.lemma_one_value_per_point();
            source2.lemma_one_value_per_point();
            out.lemma_one_value_per_point();
        }
        let bounds: (F::Scalar, F::Scalar) = self.bounds;
        let falloff: F::Scalar = self.falloff;
        let op = |control_value: F::Scalar, lower: F::Scalar, upper: F::Scalar| -> (r: F::Scalar)
            requires
                total_arithmetic::<F::Scalar>(),
            ensures
                r == select_spec(control_value, lower, upper, bounds, falloff),
            {
                select_value(control_value, lower, upper, bounds, falloff)
            };
        let values: Vec<F::Scalar> = zip3_with(
            control.values(),
            source1.values(),
            source2.values(),
            op,
        );
        out.set_values(values.as_slice());
        assert(out.value_seq() =~= self.output(field));
        out
    }
}

/// A selection without falloff between constant sources is constant on
/// either side of the bounds: `inside` where the control value lies strictly
/// between them.
pub proof fn lemma_hard_select<T: Scalar>(
    control: T,
    outside: T,
    inside: T,
    bounds: (T, T),
    falloff: T,
)
    requires
        !below(number::<T>(0), falloff),
    ensures
        below(bounds.0, control) && below(control, bounds.1) ==> select_spec(
            control,
            outside,
            inside,
            bounds,
            falloff,
        ) == inside,
        !(below(bounds.0, control) && below(control, bounds.1)) ==> select_spec(
            control,
            outside,
            inside,
            bounds,
            falloff,
        ) == outside,
{
}

/// A selection without falloff between constants by a constant control is
/// a constant over every field: the second source where the control lies
/// strictly between the bounds, else the first.
pub proof fn lemma_select_of_constants<F: NoiseField>(
    select: Select<'_, Constant<F::Scalar>, Constant<F::Scalar>, Constant<F::Scalar>, F::Scalar>,
    field: &F,
) where F::Scalar: Scalar
    requires
        !below(number::<F::Scalar>(0), select.falloff),
    ensures
        NoiseFieldFn::<F>::output(&select, field) == NoiseFieldFn::<F>::output(
            &(Constant {
                value: if below(select.bounds.0, select.control.value) && below(
                    select.control.value,
                    select.bounds.1,
                ) {
                    select.source2.value
                } else {
                    select.source1.value
                },
            }),
            field,
        ),
{
    assert(NoiseFieldFn::<F>::output(&select, field) =~= NoiseFieldFn::<F>::output(
        &(Constant {
            value: if below(select.bounds.0, select.control.value) && below(
                select.control.value,
                select.bounds.1,
            ) {
                select.source2.value
            } else {
                select.source1.value
            },
        }),
        field,
    ));
}

} // verus!
