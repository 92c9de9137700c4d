//! What a noise function is, pointwise and over a whole field, and the two
//! ways of running a pointwise function over the samples of a field.
use crate::noisefield::NoiseField;
use rayon::iter::{IntoParallelRefIterator, ParallelIterator};
use vstd::prelude::*;

pub mod combiners;
pub mod generators;
pub mod modifiers;
pub mod selectors;

verus! {

/// A function from points to values. What it returns depends on the point
/// and on the function alone: `value_at` names it.
pub trait NoiseFn<P, V> {
    /// The function can be evaluated: what it needs of its scalar type
    /// holds.
    spec fn usable(&self) -> bool;

    spec fn value_at(&self, point: P) -> V;

    fn get(&self, point: P) -> (r: V)
        requires
            self.usable(),
        ensures
            r == self.value_at(point),
    ;
}

/// A function from fields to fields that keeps the grid and the coordinates
/// and gives every sample a value.
pub trait NoiseFieldFn<F: NoiseField> {
    /// The fields that the function can be run on.
    spec fn accepts(&self, field: &F) -> bool;

    /// The values that the function gives to the samples of `field`.
    spec fn output(&self, field: &F) -> Seq<F::Scalar>;

    fn process_field(&self, field: &F) -> (out: F)
        requires
            field.well_formed(),
            self.accepts(field),
        ensures
            out.well_formed(),
            out.extents() == field.extents(),
            out.points() == field.points(),
            out.value_seq() == self.output(field),
    ;
}

/// A noise function that is made from a seed.
pub trait Seedable: Sized {
    /// The function is whole: what it keeps beside the seed fits the seed.
    spec fn seedable(&self) -> bool;

    spec fn seed_value(&self) -> u32;

    /// The function of the same kind and settings for another seed.
    fn set_seed(self, seed: u32) -> (r: Self)
        requires
            self.seedable(),
        ensures
            r.seedable(),
            r.seed_value() == seed,
    ;

    fn seed(&self) -> (r: u32)
        ensures
            r == self.seed_value(),
    ;
}

/// The values of a pointwise function at each of `points`.
pub open spec fn sampled<P, V, K: NoiseFn<P, V>>(kernel: &K, points: Seq<P>) -> Seq<V> {
    Seq::new(points.len(), |i: int| kernel.value_at(points[i]))
}

/// Applies `op` to each element.
pub fn map_with<A: Copy, B, Op: Fn(A) -> B>(a: &Vec<A>, op: Op) -> (r: Vec<B>)
    requires
        forall|i: int| 0 <= i < a@.len() ==> call_requires(op, (#[trigger] a@[i],)),
    ensures
        r@.len() == a@.len(),
        forall|i: int| 0 <= i < a@.len() ==> call_ensures(op, (a@[i],), #[trigger] r@[i]),
{
    let mut out: Vec<B> = Vec::new();
    let mut i: usize = 0;
    while i < a.len()
        invariant
            i <= a@.len(),
            out@.len() == i,
            forall|k: int| 0 <= k < a@.len() ==> call_requires(op, (#[trigger] a@[k],)),
            forall|k: int| 0 <= k < i ==> call_ensures(op, (a@[k],), #[trigger] out@[k]),
        decreases a@.len() - i,
    {
        out.push(op(a[i]));
        i += 1;
    }
    out
}

/// Applies `op` to each pair of elements at one index.
pub fn zip_with<A: Copy, B, Op: Fn(A, A) -> B>(a: &Vec<A>, b: &Vec<A>, op: Op) -> (r: Vec<B>)
    requires
        a@.len() == b@.len(),
        forall|i: int| 0 <= i < a@.len() ==> call_requires(op, (#[trigger] a@[i], b@[i])),
    ensures
        r@.len() == a@.len(),
        forall|i: int| 0 <= i < a@.len() ==> call_ensures(op, (a@[i], b@[i]), #[trigger] r@[i]),
{
    let mut out: Vec<B> = Vec::new();
    let mut i: usize = 0;
    while i < a.len()
        invariant
            i <= a@.len(),
            a@.len() == b@.len(),
            out@.len() == i,
            forall|k: int| 0 <= k < a@.len() ==> call_requires(op, (#[trigger] a@[k], b@[k])),
            forall|k: int| 0 <= k < i ==> call_ensures(op, (a@[k], b@[k]), #[trigger] out@[k]),
        decreases a@.len() - i,
    {
        out.push(op(a[i], b[i]));
        i += 1;
    }
    out
}

/// Applies `op` to each triple of elements at one index.
pub fn zip3_with<A: Copy, B, Op: Fn(A, A, A) -> B>(
    a: &Vec<A>,
    b: &Vec<A>,
    c: &Vec<A>,
    op: Op,
) -> (r: Vec<B>)
    requires
        a@.len() == b@.len(),
        a@.len() == c@.len(),
        forall|i: int| 0 <= i < a@.len() ==> call_requires(op, (#[trigger] a@[i], b@[i], c@[i])),
    ensures
        r@.len() == a@.len(),
        forall|i: int|
            0 <= i < a@.len() ==> call_ensures(op, (a@[i], b@[i], c@[i]), #[trigger] r@[i]),
{
    let mut out: Vec<B> = Vec::new();
    let mut i: usize = 0;
    while i < a.len()
        invariant
            i <= a@.len(),
            a@.len() == b@.len(),
            a@.len() == c@.len(),
            out@.len() == i,
            forall|k: int|
                0 <= k < a@.len() ==> call_requires(op, (#[trigger] a@[k], b@[k], c@[k])),
            forall|k: int|
                0 <= k < i ==> call_ensures(op, (a@[k], b@[k], c@[k]), #[trigger] out@[k]),
        decreases a@.len() - i,
    {
        out.push(op(a[i], b[i], c[i]));
        i += 1;
    }
    out
}

/// The values of `kernel` at each of `points`, computed one after the other.
pub fn sample_serial<P: Copy, V, K: NoiseFn<P, V>>(kernel: &K, points: &Vec<P>) -> (r: Vec<V>)
    requires
        kernel.usable(),
    ensures
        r@ == sampled(kernel, points@),
{
    let mut out: Vec<V> = Vec::new();
    let mut i: usize = 0;
    while i < points.len()
        invariant
            kernel.usable(),
            i <= points@.len(),
            out@.len() == i,
            forall|k: int| 0 <= k < i ==> #[trigger] out@[k] == kernel.value_at(points@[k]),
        decreases points@.len() - i,
    {
        out.push(kernel.get(points[i]));
        i += 1;
    }
    assert(out@ =~= sampled(kernel, points@));
    out
}

/// Hands the points out to rayon's worker threads: `par_iter` on the
/// vector, `map` with the kernel, `collect` into a vector. The contract
/// claims what rayon documents of an indexed parallel iterator collected
/// into a vector: the result holds, at each index, what the closure
/// returned for the item at that index, as a sequential `map` and `collect`
/// would; and the closure returns what `NoiseFn::get` promises.
#[verifier::external_body]
fn par_sample<P: Copy + Sync, V: Send, K: NoiseFn<P, V> + Sync>(kernel: &K, points: &Vec<P>) -> (r:
    Vec<V>)
    requires
        kernel.usable(),
    ensures
        r@.len() == points@.len(),
        forall|i: int| 0 <= i < points@.len() ==> #[trigger] r@[i] == kernel.value_at(points@[i]),
{
    points.par_iter().map(|p| kernel.get(*p)).collect()
}

/// The values of `kernel` at each of `points`, computed by as many threads
/// as rayon runs, each value at the index of its point.
pub fn sample_parallel<P: Copy + Sync, V: Send, K: NoiseFn<P, V> + Sync>(
    kernel: &K,
    points: &Vec<P>,
) -> (r: Vec<V>)
    requires
        kernel.usable(),
    ensures
        r@ == sampled(kernel, points@),
{
    let out: Vec<V> = par_sample(kernel, points);
    assert(out@ =~= sampled(kernel, points@));
    out
}

/// The field with the values of `kernel` at its coordinates, computed one
/// sample after the other.
pub fn evaluate_serial<F: NoiseField, K: NoiseFn<F::Point, F::Scalar>>(
    kernel: &K,
    field: &F,
) -> (out:
    F) where F::Point: Copy
    requires
        field.well_formed(),
        kernel.usable(),
    ensures
        out.well_formed(),
        out.extents() == field.extents(),
        out.points() == field.points(),
        out.value_seq() == sampled(kernel, field.points()),
{
    let values: Vec<F::Scalar> = sample_serial(kernel, field.sample_points());
    let mut out: F = field.duplicate();
    proof {
        field.lemma_one_value_per_point();
    }
    out.set_values(values.as_slice());
    out
}

/// The field with the values of `kernel` at its coordinates, the samples
/// spread over rayon's threads.
pub fn evaluate_parallel<F: NoiseField, K: NoiseFn<F::Point, F::Scalar> + Sync>(
    kernel: &K,
    field: &F,
) -> (out: F) where F::Point: Copy + Sync, F::Scalar: Send
    requires
        field.well_formed(),
        kernel.usable(),
    ensures
        out.well_formed(),
        out.extents() == field.extents(),
        out.points() == field.points(),
        out.value_seq() == sampled(kernel, field.points()),
{
    let values: Vec<F::Scalar> = sample_parallel(kernel, field.sample_points());
    let mut out: F = field.duplicate();
    proof {
        field.lemma_one_value_per_point();
    }
    out.set_values(values.as_slice());
    out
}

/// Whatever the strategy, serial or parallel, the values of a kernel over a
/// field are the same, index by index: two fields that each hold the
/// sampled values of one kernel at the coordinates of one field hold equal
/// values.
pub proof fn lemma_strategies_agree<F: NoiseField, K: NoiseFn<F::Point, F::Scalar>>(
    kernel: &K,
    field: &F,
    serial: &F,
    parallel: &F,
)
    requires
        serial.value_seq() == sampled(kernel, field.points()),
        parallel.value_seq() == sampled(kernel, field.points()),
    ensures
        serial.value_seq() == parallel.value_seq(),
        forall|i: int|
            0 <= i < field.points().len() ==> #[trigger] serial.value_seq()[i] == kernel.value_at(
                field.points()[i],
            ),
{
}

/// A function of points as a function of fields: every sample gets the
/// value at its coordinate, one sample after the other.
pub struct Serial<'a, K> {
    pub kernel: &'a K,
}

impl<'a, K> Serial<'a, K> {
    pub fn new(kernel: &'a K) -> (r: Self)
        ensures
            r.kernel == kernel,
    {
        Serial { kernel }
    }
}

impl<'a, F: NoiseField, K: NoiseFn<F::Point, F::Scalar>> NoiseFieldFn<F> for Serial<'a, K> where
    F::Point: Copy,
 {
    open spec fn accepts(&self, field: &F) -> bool {
        self.kernel.usable()
    }

    open spec fn output(&self, field: &F) -> Seq<F::Scalar> {
        sampled(self.kernel, field.points())
    }

    fn process_field(&self, field: &F) -> (out: F) {
        evaluate_serial(self.kernel, field)
    }
}

/// A function of points as a function of fields: every sample gets the
/// value at its coordinate, the samples spread over rayon's threads.
pub struct Parallel<'a, K> {
    pub kernel: &'a K,
}

impl<'a, K> Parallel<'a, K> {
    pub fn new(kernel: &'a K) -> (r: Self)
        ensures
            r.kernel == kernel,
    {
        Parallel { kernel }
    }
}

impl<'a, F: NoiseField, K: NoiseFn<F::Point, F::Scalar> + Sync> NoiseFieldFn<F> for Parallel<
    'a,
    K,
> where F::Point: Copy + Sync, F::Scalar: Send {
    open spec fn accepts(&self, field: &F) -> bool {
        self.kernel.usable()
    }

    open spec fn output(&self, field: &F) -> Seq<F::Scalar> {
        sampled(self.kernel, field.points())
    }

    fn process_field(&self, field: &F) -> (out: F) {
        evaluate_parallel(self.kernel, field)
    }
}

/// The two strategies are one function of fields: a kernel gives a field the
/// same values whether it runs serially or in parallel.
pub proof fn lemma_serial_is_parallel<F: NoiseField, K: NoiseFn<F::Point, F::Scalar> + Sync>(
    serial: Serial<'_, K>,
    parallel: Parallel<'_, K>,
    field: &F,
) where F::Point: Copy + Sync, F::Scalar: Send
    requires
        serial.kernel == parallel.kernel,
    ensures
        serial.accepts(field) == parallel.accepts(field),
        serial.output(field) == parallel.output(field),
{
}

} // verus!
