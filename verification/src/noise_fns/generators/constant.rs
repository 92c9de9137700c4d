use crate::noise_fns::{NoiseFieldFn, NoiseFn};
use crate::noisefield::{filled, NoiseField};
use vstd::prelude::*;

verus! {

/// Noise function that outputs one value at every point.
///
/// Of little use by itself, it stands in as a source for other noise
/// functions.
#[derive(Clone, Copy, Debug)]
pub struct Constant<T> {
    /// Constant value.
    pub value: T,
}

impl<T> Constant<T> {
    pub fn new(value: T) -> (r: Self)
        ensures
            r.value == value,
    {
        Constant { value }
    }
}

impl<P, T: Copy> NoiseFn<P, T> for Constant<T> {
    open spec fn usable(&self) -> bool {
        true
    }

    open spec fn value_at(&self, point: P) -> T {
        self.value
    }

    fn get(&self, _point: P) -> (r: T) {
        self.value
    }
}

impl<F: NoiseField> NoiseFieldFn<F> for Constant<F::Scalar> {
    open spec fn accepts(&self, field: &F) -> bool {
        true
    }

    open spec fn output(&self, field: &F) -> Seq<F::Scalar> {
        Seq::new(field.value_seq().len(), |i: int| self.value)
    }

    fn process_field(&self, field: &F) -> (out: F) {
        let n: usize = field.values().len();
        let values: Vec<F::Scalar> = filled(self.value, n);
        let mut out: F = field.duplicate();
        out.set_values(values.as_slice());
        out
    }
}

} // verus!
