//! Concentric cylinders around the second axis.
use crate::noise_fns::{evaluate_parallel, evaluate_serial, NoiseFieldFn, NoiseFn};
use crate::noisefield::{NoiseField, NoiseField2D, NoiseField3D};
use crate::scalar::{
    floor_of, from_number, image, is_mapping, is_rounding, min, min_spec, number,
    total_arithmetic, Scalar,
};
use vstd::prelude::*;
use vstd::std_specs::ops::{AddSpec, MulSpec, SubSpec};

verus! {

/// Noise function that outputs concentric cylinders.
///
/// This noise function outputs concentric cylinders centered on the origin.
/// The cylinders are oriented along the y axis similar to the concentric
/// rings of a tree. Each cylinder extends infinitely along the y axis.
///
/// The square root and the rounding are the caller's.
pub struct Cylinders<T, Sq, Fl> {
    /// Frequency of the concentric objects.
    pub frequency: T,
    /// The square root.
    pub sqrt: Sq,
    /// The rounding: the largest whole scalar that is not above a scalar,
    /// as a scalar and as an integer.
    pub floor: Fl,
}

/// The value at the distance `sqrt(x^2 + y^2)` from the axis, where `x` and
/// `y` are the first two coordinates times the frequency: one on a cylinder,
/// which there is at every whole distance, minus one half-way between two
/// cylinders, and in a straight line between.
pub open spec fn cylinders_spec<T: Scalar, Sq: Fn(T) -> T, Fl: Fn(T) -> (T, isize)>(
    sqrt: Sq,
    floor: Fl,
    frequency: T,
    first: T,
    second: T,
) -> T {
    let x = first.mul_spec(frequency);
    let y = second.mul_spec(frequency);
    let dist_from_center = image(sqrt, x.mul_spec(x).add_spec(y.mul_spec(y)));
    let dist_from_smaller = dist_from_center.sub_spec(floor_of(floor, dist_from_center).0);
    let dist_from_larger = number::<T>(1).sub_spec(dist_from_smaller);
    let nearest_dist = min_spec(dist_from_smaller, dist_from_larger);
    number::<T>(1).sub_spec(nearest_dist.mul_spec(number::<T>(4)))
}

impl<T: Scalar, Sq: Fn(T) -> T, Fl: Fn(T) -> (T, isize)> Cylinders<T, Sq, Fl> {
    /// The cylinders at the frequency one.
    pub fn new(sqrt: Sq, floor: Fl) -> (r: Self)
        requires
            total_arithmetic::<T>(),
        ensures
            r.frequency == number::<T>(1),
            r.sqrt == sqrt,
            r.floor == floor,
    {
        Cylinders { frequency: from_number(1u16), sqrt, floor }
    }

    pub fn set_frequency(self, frequency: T) -> (r: Self)
        ensures
            r.frequency == frequency,
            r.sqrt == self.sqrt,
            r.floor == self.floor,
    {
        Cylinders { frequency, sqrt: self.sqrt, floor: self.floor }
    }

    /// The scalar type can be computed with, and the functions handed in
    /// are functions.
    pub open spec fn ready(&self) -> bool {
        &&& total_arithmetic::<T>()
        &&& is_mapping(self.sqrt)
        &&& is_rounding(self.floor)
    }

    fn calculate_cylinders(&self, first: T, second: T) -> (r: T)
        requires
            self.ready(),
        ensures
            r == cylinders_spec(self.sqrt, self.floor, self.frequency, first, second),
    {
        // Scale the inputs by the frequency.
        let x: T = first * self.frequency;
        let y: T = second * self.frequency;

        // Calculate the distance of the point from the origin.
        let dist_from_center: T = (self.sqrt)(x * x + y * y);

        let floored: (T, isize) = (self.floor)(dist_from_center);
        let dist_from_smaller_sphere: T = dist_from_center - floored.0;
        let dist_from_larger_sphere: T = from_number::<T>(1u16) - dist_from_smaller_sphere;
        let nearest_dist: T = min(dist_from_smaller_sphere, dist_from_larger_sphere);

        // Shift the result to be in the -1 to +1 range.
        from_number::<T>(1u16) - nearest_dist * from_number::<T>(4u16)
    }
}

impl<T: Scalar, Sq: Fn(T) -> T, Fl: Fn(T) -> (T, isize)> NoiseFn<
    [T; 2],
    T,
> for Cylinders<T, Sq, Fl> {
    open spec fn usable(&self) -> bool {
        self.ready()
    }

    open spec fn value_at(&self, point: [T; 2]) -> T {
        cylinders_spec(self.sqrt, self.floor, self.frequency, point[0], point[1])
    }

    fn get(&self, point: [T; 2]) -> (r: T) {
        self.calculate_cylinders(point[0], point[1])
    }
}

impl<T: Scalar, Sq: Fn(T) -> T, Fl: Fn(T) -> (T, isize)> NoiseFn<
    [T; 3],
    T,
> for Cylinders<T, Sq, Fl> {
    open spec fn usable(&self) -> bool {
        self.ready()
    }

    open spec fn value_at(&self, point: [T; 3]) -> T {
        cylinders_spec(self.sqrt, self.floor, self.frequency, point[0], point[1])
    }

    fn get(&self, point: [T; 3]) -> (r: T) {
        self.calculate_cylinders(point[0], point[1])
    }
}

impl<T: Scalar, Sq: Fn(T) -> T, Fl: Fn(T) -> (T, isize)> NoiseFn<
    [T; 4],
    T,
> for Cylinders<T, Sq, Fl> {
    open spec fn usable(&self) -> bool {
        self.ready()
    }

    open spec fn value_at(&self, point: [T; 4]) -> T {
        cylinders_spec(self.sqrt, self.floor, self.frequency, point[0], point[1])
    }

    fn get(&self, point: [T; 4]) -> (r: T) {
        self.calculate_cylinders(point[0], point[1])
    }
}

/// Over a flat field every sample gets the value at its coordinate; the
/// samples are spread over rayon's threads.
impl<T: Scalar + Send + Sync, Sq: Fn(T) -> T + Sync, Fl: Fn(T) -> (T, isize) + Sync> NoiseFieldFn<
    NoiseField2D<T>,
> for Cylinders<T, Sq, Fl> {
    open spec fn accepts(&self, field: &NoiseField2D<T>) -> bool {
        self.ready()
    }

    open spec fn output(&self, field: &NoiseField2D<T>) -> Seq<T> {
        Seq::new(
            field.coordinates@.len(),
            |i: int|
                cylinders_spec(
                    self.sqrt,
                    self.floor,
                    self.frequency,
                    field.coordinates@[i][0],
                    field.coordinates@[i][1],
                ),
        )
    }

    fn process_field(&self, field: &NoiseField2D<T>) -> (out: NoiseField2D<T>) {
        let out = evaluate_parallel(self, field);
        assert(out.value_seq() =~= self.output(field));
        out
    }
}

impl<T: Scalar, Sq: Fn(T) -> T, Fl: Fn(T) -> (T, isize)> NoiseFieldFn<
    NoiseField3D<T>,
> for Cylinders<T, Sq, Fl> {
    open spec fn accepts(&self, field: &NoiseField3D<T>) -> bool {
        self.ready()
    }

    open spec fn output(&self, field: &NoiseField3D<T>) -> Seq<T> {
        Seq::new(
            field.coordinates@.len(),
            |i: int|
                cylinders_spec(
                    self.sqrt,
                    self.floor,
                    self.frequency,
                    field.coordinates@[i][0],
                    field.coordinates@[i][1],
                ),
        )
    }

    fn process_field(&self, field: &NoiseField3D<T>) -> (out: NoiseField3D<T>) {
        let out = evaluate_serial(self, field);
        assert(out.value_seq() =~= self.output(field));
        out
    }
}

} // verus!
