//! Ridged multifractal noise: octaves of Perlin noise, each folded into
//! ridges and weighted by the octave before it.
use crate::noise_fns::generators::perlin::{evaluable, lerp_noise3, surflet_noise2, Perlin};
use crate::noise_fns::{sample_parallel, NoiseFieldFn, NoiseFn, Seedable};
use crate::noisefield::{NoiseField, NoiseField2D, NoiseField3D};
use crate::permutationtable::permutation_of;
use crate::scalar::{
    abs, abs_spec, clamp, clamp_spec, constant, constant_spec, from_number, number,
    total_arithmetic, Scalar,
};
use vstd::prelude::*;
use vstd::std_specs::ops::{AddSpec, DivSpec, MulSpec, SubSpec};

verus! {

pub const DEFAULT_SEED: u32 = 0;

pub const DEFAULT_OCTAVES: usize = 6;

/// The most octaves that a fractal has.
pub const MAX_OCTAVES: usize = 32;

/// The base-65536 digits of the default lacunarity, 2.17.
pub open spec fn default_lacunarity() -> [u16; 5] {
    [2u16, 11141u16, 7864u16, 20971u16, 32768u16]
}

/// A noise function made of octaves.
pub trait MultiFractal: Sized {
    type Scalar;

    /// The fractal is whole, and its scalar type can be computed with.
    spec fn ready(&self) -> bool;

    spec fn octave_count(&self) -> nat;

    /// Sets the number of octaves, limited to the range from one to
    /// `MAX_OCTAVES`.
    fn set_octaves(self, octaves: usize) -> (r: Self)
        requires
            self.ready(),
        ensures
            r.ready(),
            r.octave_count() == if octaves < 1 {
                1
            } else if octaves > MAX_OCTAVES {
                MAX_OCTAVES as nat
            } else {
                octaves as nat
            },
    ;

    fn set_frequency(self, frequency: Self::Scalar) -> (r: Self)
        requires
            self.ready(),
        ensures
            r.ready(),
            r.octave_count() == self.octave_count(),
    ;

    fn set_lacunarity(self, lacunarity: Self::Scalar) -> (r: Self)
        requires
            self.ready(),
        ensures
            r.ready(),
            r.octave_count() == self.octave_count(),
    ;
}

/// The seed of the source of the octave `k`: the seed of the fractal plus
/// `k`, turning over at the largest seed.
pub open spec fn octave_seed(seed: u32, k: int) -> u32 {
    ((seed + k) % 0x1_0000_0000) as u32
}

/// One Perlin source for each octave, seeded one after the other from
/// `seed`.
pub fn build_sources<L: Copy>(seed: u32, octaves: usize, floor: L) -> (r: Vec<Perlin<L>>)
    requires
        octaves <= MAX_OCTAVES,
    ensures
        r@.len() == octaves,
        forall|k: int|
            0 <= k < octaves ==> {
                &&& (#[trigger] r@[k]).seed_of() == octave_seed(seed, k)
                &&& r@[k].table() == permutation_of(octave_seed(seed, k))
                &&& r@[k].rounding() == floor
            },
{
    let mut sources: Vec<Perlin<L>> = Vec::new();
    let mut x: usize = 0;
    while x < octaves
        invariant
            x <= octaves,
            octaves <= MAX_OCTAVES,
            sources@.len() == x,
            forall|k: int|
                0 <= k < x ==> {
                    &&& (#[trigger] sources@[k]).seed_of() == octave_seed(seed, k)
                    &&& sources@[k].table() == permutation_of(octave_seed(seed, k))
                    &&& sources@[k].rounding() == floor
                },
        decreases octaves - x,
    {
        let s: u32 = ((seed as u64 + x as u64) % 0x1_0000_0000) as u32;
        sources.push(Perlin::new(floor).set_seed(s));
        x += 1;
    }
    sources
}

/// `base` raised to the power `k`, by `k` multiplications from one.
pub open spec fn power_spec<T: Scalar>(base: T, k: nat) -> T
    decreases k,
{
    if k == 0 {
        number::<T>(1)
    } else {
        power_spec(base, (k - 1) as nat).mul_spec(base)
    }
}

pub fn power<T: Scalar>(base: T, k: usize) -> (r: T)
    requires
        total_arithmetic::<T>(),
    ensures
        r == power_spec(base, k as nat),
{
    let mut out: T = from_number(1u16);
    let mut i: usize = 0;
    while i < k
        invariant
            total_arithmetic::<T>(),
            i <= k,
            out == power_spec(base, i as nat),
        decreases k - i,
    {
        out = out * base;
        i += 1;
    }
    out
}

/// The spectral weight of the octave `k`: one over its frequency, the
/// frequency of the fractal times the lacunarity to the power `k`. The
/// fractal keeps the weights of its octaves; its values do not depend on
/// them.
pub open spec fn spectral_weight<T: Scalar>(frequency: T, lacunarity: T, k: nat) -> T
{
    number::<T>(1).div_spec(octave_frequency(frequency, lacunarity, k))
}

/// The frequency of the octave `k`.
pub open spec fn octave_frequency<T: Scalar>(frequency: T, lacunarity: T, k: nat) -> T
    decreases k,
{
    if k == 0 {
        frequency
    } else {
        octave_frequency(frequency, lacunarity, (k - 1) as nat).mul_spec(lacunarity)
    }
}

/// The weights of the octaves `0..octaves`.
pub fn calc_spectral_weights<T: Scalar>(frequency: T, lacunarity: T, octaves: usize) -> (r: Vec<T>)
    requires
        total_arithmetic::<T>(),
    ensures
        r@.len() == octaves,
        forall|k: int|
            0 <= k < octaves ==> #[trigger] r@[k] == spectral_weight(
                frequency,
                lacunarity,
                k as nat,
            ),
{
    let mut weights: Vec<T> = Vec::new();
    let mut f: T = frequency;
    let mut i: usize = 0;
    while i < octaves
        invariant
            total_arithmetic::<T>(),
            i <= octaves,
            weights@.len() == i,
            f == octave_frequency(frequency, lacunarity, i as nat),
            forall|k: int|
                0 <= k < i ==> #[trigger] weights@[k] == spectral_weight(
                    frequency,
                    lacunarity,
                    k as nat,
                ),
        decreases octaves - i,
    {
        weights.push(from_number::<T>(1u16) / f);
        f = f * lacunarity;
        i += 1;
    }
    weights
}

/// A value of a source folded into a ridge: its distance from zero taken
/// off one, squared.
pub open spec fn ridge_spec<T: Scalar>(value: T) -> T {
    let inverted = number::<T>(1).sub_spec(abs_spec(value));
    inverted.mul_spec(inverted)
}

pub fn ridge<T: Scalar>(value: T) -> (r: T)
    requires
        total_arithmetic::<T>(),
    ensures
        r == ridge_spec(value),
{
    let inverted: T = from_number::<T>(1u16) - abs(value);
    inverted * inverted
}

/// The weight that an octave hands to the next: its signal times the gain,
/// limited to the range from zero to one.
pub open spec fn next_weight<T: Scalar>(signal: T, gain: T) -> T {
    clamp_spec(signal.mul_spec(gain), number::<T>(0), number::<T>(1))
}

/// The signal of the octave `k`, from the values of the sources: the ridge
/// of its value, weighted by the signal of the octave before it. The first
/// octave has the weight one.
pub open spec fn octave_signal<T: Scalar>(values: Seq<T>, gain: T, k: int) -> T
    decreases k,
{
    if k <= 0 {
        ridge_spec(values[0]).mul_spec(number::<T>(1))
    } else {
        ridge_spec(values[k]).mul_spec(next_weight(octave_signal(values, gain, k - 1), gain))
    }
}

/// Sum of the signals of the first `k` octaves, each times its share. The
/// noise function gives every octave the share one, at a point and over a
/// field.
pub open spec fn ridged_sum<T: Scalar>(values: Seq<T>, gain: T, shares: Seq<T>, k: int) -> T
    decreases k,
{
    if k <= 0 {
        number::<T>(0)
    } else {
        ridged_sum(values, gain, shares, k - 1).add_spec(
            octave_signal(values, gain, k - 1).mul_spec(shares[k - 1]),
        )
    }
}

/// The sum of `octaves` octaves moved into the range of about -1 to 1: the
/// octaves add up to at most `2 - (1/2)^(octaves - 1)`, and the distance of
/// the sum from zero is scaled by two over that and moved down by one.
pub open spec fn rescaled<T: Scalar>(sum: T, octaves: nat) -> T {
    let half = number::<T>(1).div_spec(number::<T>(2));
    let scale = number::<T>(2).sub_spec(power_spec(half, (octaves - 1) as nat));
    abs_spec(sum).mul_spec(number::<T>(2).div_spec(scale)).sub_spec(number::<T>(1))
}

fn rescale<T: Scalar>(sum: T, octaves: usize) -> (r: T)
    requires
        total_arithmetic::<T>(),
        octaves >= 1,
    ensures
        r == rescaled(sum, octaves as nat),
{
    let half: T = from_number::<T>(1u16) / from_number::<T>(2u16);
    let scale: T = from_number::<T>(2u16) - power(half, octaves - 1);
    abs(sum) * (from_number::<T>(2u16) / scale) - from_number::<T>(1u16)
}

/// The ridged combination of the values of the sources.
pub open spec fn ridged_spec<T: Scalar>(values: Seq<T>, gain: T, shares: Seq<T>) -> T {
    rescaled(ridged_sum(values, gain, shares, values.len() as int), values.len())
}

/// Combines the values of the sources, one for each octave, into the
/// ridged value.
pub fn ridged<T: Scalar>(values: &Vec<T>, gain: T, shares: &Vec<T>) -> (r: T)
    requires
        total_arithmetic::<T>(),
        values@.len() >= 1,
        shares@.len() == values@.len(),
    ensures
        r == ridged_spec(values@, gain, shares@),
{
    let one: T = from_number(1u16);
    let mut result: T = from_number(0u16);
    let mut weight: T = one;
    let mut signal: T = one;
    let mut k: usize = 0;
    while k < values.len()
        invariant
            total_arithmetic::<T>(),
            k <= values@.len(),
            shares@.len() == values@.len(),
            one == number::<T>(1),
            result == ridged_sum(values@, gain, shares@, k as int),
            k == 0 ==> weight == one,
            k > 0 ==> signal == octave_signal(values@, gain, k - 1),
            k > 0 ==> weight == next_weight(signal, gain),
        decreases values@.len() - k,
    {
        signal = ridge(values[k]) * weight;
        weight = clamp(signal * gain, from_number(0u16), one);
        result = result + signal * shares[k];
        k += 1;
    }
    rescale(result, values.len())
}

/// Noise function that outputs ridged-multifractal noise.
///
/// The output of each octave is folded by an absolute value, which makes
/// ridges. The values usually range from -1 to 1 with the default
/// parameters; there is no guarantee that all of them do.
pub struct RidgedMulti<T, L> {
    /// Total number of frequency octaves to generate the noise with.
    pub octaves: usize,
    /// The number of cycles per unit length that the noise function
    /// outputs.
    pub frequency: T,
    /// A multiplier that determines how quickly the frequency increases for
    /// each successive octave in the noise function.
    pub lacunarity: T,
    /// The attenuation to apply to the weight on each octave.
    pub gain: T,
    pub seed: u32,
    /// One source for each octave, seeded in turn from the seed.
    pub sources: Vec<Perlin<L>>,
    /// The spectral weight of each octave.
    pub spectral_weights: Vec<T>,
    /// The rounding to the lattice that the sources are made with.
    pub floor: L,
}

impl<T: Scalar, L: Copy> RidgedMulti<T, L> {
    /// The octaves are between one and `MAX_OCTAVES`, each has its source,
    /// seeded in turn, and its weight.
    pub open spec fn well_formed(&self) -> bool {
        &&& 1 <= self.octaves <= MAX_OCTAVES
        &&& self.sources@.len() == self.octaves
        &&& self.spectral_weights@.len() == self.octaves
        &&& forall|k: int|
            0 <= k < self.octaves ==> {
                &&& (#[trigger] self.sources@[k]).table() == permutation_of(
                    octave_seed(self.seed, k),
                )
                &&& self.sources@[k].rounding() == self.floor
            }
        &&& forall|k: int|
            0 <= k < self.octaves ==> #[trigger] self.spectral_weights@[k] == spectral_weight(
                self.frequency,
                self.lacunarity,
                k as nat,
            )
    }

    /// The fractal with the default seed, six octaves, the frequency one,
    /// the lacunarity 2.17 and the gain two.
    pub fn new(floor: L) -> (r: Self)
        requires
            total_arithmetic::<T>(),
        ensures
            r.well_formed(),
            r.octaves == DEFAULT_OCTAVES,
            r.seed == DEFAULT_SEED,
            r.frequency == number::<T>(1),
            r.lacunarity == constant_spec::<T>(default_lacunarity(), 4),
            r.gain == number::<T>(2),
            r.floor == floor,
    {
        let frequency: T = from_number(1u16);
        let lacunarity: T = constant([2u16, 11141u16, 7864u16, 20971u16, 32768u16], 4);
        RidgedMulti {
            octaves: DEFAULT_OCTAVES,
            frequency,
            lacunarity,
            gain: from_number(2u16),
            seed: DEFAULT_SEED,
            sources: build_sources(DEFAULT_SEED, DEFAULT_OCTAVES, floor),
            spectral_weights: calc_spectral_weights(frequency, lacunarity, DEFAULT_OCTAVES),
            floor,
        }
    }

    pub fn set_gain(self, gain: T) -> (r: Self)
        requires
            self.well_formed(),
        ensures
            r.well_formed(),
            r.gain == gain,
            r.octaves == self.octaves,
            r.frequency == self.frequency,
            r.lacunarity == self.lacunarity,
            r.seed == self.seed,
            r.floor == self.floor,
    {
        RidgedMulti {
            octaves: self.octaves,
            frequency: self.frequency,
            lacunarity: self.lacunarity,
            gain,
            seed: self.seed,
            sources: self.sources,
            spectral_weights: self.spectral_weights,
            floor: self.floor,
        }
    }
}

impl<T: Scalar, L: Copy> MultiFractal for RidgedMulti<T, L> {
    type Scalar = T;

    open spec fn ready(&self) -> bool {
        self.well_formed() && total_arithmetic::<T>()
    }

    open spec fn octave_count(&self) -> nat {
        self.octaves as nat
    }

    /// Sets the number of octaves, limited to the range from one to
    /// `MAX_OCTAVES`; the sources and the weights are made anew.
    fn set_octaves(self, octaves: usize) -> (r: Self)
        ensures
            r.octaves == if octaves < 1 {
                1
            } else if octaves > MAX_OCTAVES {
                MAX_OCTAVES
            } else {
                octaves
            },
            r.gain == self.gain,
            r.frequency == self.frequency,
            r.lacunarity == self.lacunarity,
            r.seed == self.seed,
            r.floor == self.floor,
    {
        if self.octaves == octaves {
            return self;
        }
        let octaves: usize = if octaves < 1 {
            1
        } else if octaves > MAX_OCTAVES {
            MAX_OCTAVES
        } else {
            octaves
        };
        RidgedMulti {
            octaves,
            frequency: self.frequency,
            lacunarity: self.lacunarity,
            gain: self.gain,
            seed: self.seed,
            sources: build_sources(self.seed, octaves, self.floor),
            spectral_weights: calc_spectral_weights(self.frequency, self.lacunarity, octaves),
            floor: self.floor,
        }
    }

    /// Sets the frequency; the weights are made anew.
    fn set_frequency(self, frequency: T) -> (r: Self)
        ensures
            r.frequency == frequency,
            r.octaves == self.octaves,
            r.gain == self.gain,
            r.lacunarity == self.lacunarity,
            r.seed == self.seed,
            r.floor == self.floor,
    {
        RidgedMulti {
            octaves: self.octaves,
            frequency,
            lacunarity: self.lacunarity,
            gain: self.gain,
            seed: self.seed,
            sources: self.sources,
            spectral_weights: calc_spectral_weights(frequency, self.lacunarity, self.octaves),
            floor: self.floor,
        }
    }

    /// Sets the lacunarity; the weights are made anew.
    fn set_lacunarity(self, lacunarity: T) -> (r: Self)
        ensures
            r.lacunarity == lacunarity,
            r.octaves == self.octaves,
            r.gain == self.gain,
            r.frequency == self.frequency,
            r.seed == self.seed,
            r.floor == self.floor,
    {
        RidgedMulti {
            octaves: self.octaves,
            frequency: self.frequency,
            lacunarity,
            gain: self.gain,
            seed: self.seed,
            sources: self.sources,
            spectral_weights: calc_spectral_weights(self.frequency, lacunarity, self.octaves),
            floor: self.floor,
        }
    }
}

impl<T: Scalar, L: Copy> Seedable for RidgedMulti<T, L> {
    open spec fn seedable(&self) -> bool {
        self.well_formed()
    }

    open spec fn seed_value(&self) -> u32 {
        self.seed
    }

    /// Sets the seed; the sources are made anew.
    fn set_seed(self, seed: u32) -> (r: Self)
        ensures
            r.octaves == self.octaves,
            r.gain == self.gain,
            r.frequency == self.frequency,
            r.lacunarity == self.lacunarity,
            r.floor == self.floor,
    {
        if self.seed == seed {
            return self;
        }
        RidgedMulti {
            octaves: self.octaves,
            frequency: self.frequency,
            lacunarity: self.lacunarity,
            gain: self.gain,
            seed,
            sources: build_sources(seed, self.octaves, self.floor),
            spectral_weights: self.spectral_weights,
            floor: self.floor,
        }
    }

    fn seed(&self) -> (r: u32) {
        self.seed
    }
}

/// Every share is one.
pub open spec fn even_shares<T: Scalar>(n: nat) -> Seq<T> {
    Seq::new(n, |k: int| number::<T>(1))
}

fn ones<T: Scalar>(n: usize) -> (r: Vec<T>)
    requires
        total_arithmetic::<T>(),
    ensures
        r@ == even_shares::<T>(n as nat),
{
    let one: T = from_number(1u16);
    let out: Vec<T> = crate::noisefield::filled(one, n);
    assert(out@ =~= even_shares::<T>(n as nat));
    out
}

/// The point at which the octave `k` samples its source, in 2
/// dimensions: the point times the frequency of the octave.
pub open spec fn octave_point2<T: Scalar>(
    point: [T; 2],
    frequency: T,
    lacunarity: T,
    k: nat,
) -> [T; 2]
    decreases k,
{
    if k == 0 {
        let p = point;
        let f = frequency;
        [p[0].mul_spec(f), p[1].mul_spec(f)]
    } else {
        let p = octave_point2(point, frequency, lacunarity, (k - 1) as nat);
        let f = lacunarity;
        [p[0].mul_spec(f), p[1].mul_spec(f)]
    }
}

/// The values of the sources at their points, one for each octave.
pub open spec fn octave_values2<T: Scalar, L: Fn(T) -> (T, isize)>(
    sources: Seq<Perlin<L>>,
    point: [T; 2],
    frequency: T,
    lacunarity: T,
) -> Seq<T> {
    Seq::new(
        sources.len(),
        |k: int| sources[k].value_at(octave_point2(point, frequency, lacunarity, k as nat)),
    )
}

/// 2-dimensional `RidgedMulti` noise
impl<T: Scalar, L: Fn(T) -> (T, isize) + Copy> NoiseFn<[T; 2], T> for RidgedMulti<T, L> {
    open spec fn usable(&self) -> bool {
        self.well_formed() && evaluable::<T, L>(self.floor)
    }

    open spec fn value_at(&self, point: [T; 2]) -> T {
        ridged_spec(
            octave_values2(self.sources@, point, self.frequency, self.lacunarity),
            self.gain,
            even_shares::<T>(self.octaves as nat),
        )
    }

    fn get(&self, point: [T; 2]) -> (r: T) {
        let ghost start = point;
        let lacunarity: T = self.lacunarity;
        let mut point: [T; 2] = [point[0] * self.frequency, point[1] * self.frequency];
        let mut values: Vec<T> = Vec::new();
        let mut x: usize = 0;
        while x < self.octaves
            invariant
                self.well_formed(),
                evaluable::<T, L>(self.floor),
                x <= self.octaves,
                lacunarity == self.lacunarity,
                values@.len() == x,
                point == octave_point2(start, self.frequency, self.lacunarity, x as nat),
                forall|k: int|
                    0 <= k < x ==> #[trigger] values@[k] == octave_values2(
                        self.sources@,
                        start,
                        self.frequency,
                        self.lacunarity,
                    )[k],
            decreases self.octaves - x,
        {
            values.push(self.sources[x].get(point));
            point = [point[0] * lacunarity, point[1] * lacunarity];
            x += 1;
        }
        assert(values@ =~= octave_values2(
            self.sources@,
            start,
            self.frequency,
            self.lacunarity,
        ));
        let shares: Vec<T> = ones(self.octaves);
        ridged(&values, self.gain, &shares)
    }
}

/// The point at which the octave `k` samples its source, in 3
/// dimensions: the point times the frequency of the octave.
pub open spec fn octave_point3<T: Scalar>(
    point: [T; 3],
    frequency: T,
    lacunarity: T,
    k: nat,
) -> [T; 3]
    decreases k,
{
    if k == 0 {
        let p = point;
        let f = frequency;
        [p[0].mul_spec(f), p[1].mul_spec(f), p[2].mul_spec(f)]
    } else {
        let p = octave_point3(point, frequency, lacunarity, (k - 1) as nat);
        let f = lacunarity;
        [p[0].mul_spec(f), p[1].mul_spec(f), p[2].mul_spec(f)]
    }
}

/// The values of the sources at their points, one for each octave.
pub open spec fn octave_values3<T: Scalar, L: Fn(T) -> (T, isize)>(
    sources: Seq<Perlin<L>>,
    point: [T; 3],
    frequency: T,
    lacunarity: T,
) -> Seq<T> {
    Seq::new(
        sources.len(),
        |k: int| sources[k].value_at(octave_point3(point, frequency, lacunarity, k as nat)),
    )
}

/// 3-dimensional `RidgedMulti` noise
impl<T: Scalar, L: Fn(T) -> (T, isize) + Copy> NoiseFn<[T; 3], T> for RidgedMulti<T, L> {
    open spec fn usable(&self) -> bool {
        self.well_formed() && evaluable::<T, L>(self.floor)
    }

    open spec fn value_at(&self, point: [T; 3]) -> T {
        ridged_spec(
            octave_values3(self.sources@, point, self.frequency, self.lacunarity),
            self.gain,
            even_shares::<T>(self.octaves as nat),
        )
    }

    fn get(&self, point: [T; 3]) -> (r: T) {
        let ghost start = point;
        let lacunarity: T = self.lacunarity;
        let mut point: [T; 3] = [
            point[0] * self.frequency,
            point[1] * self.frequency,
            point[2] * self.frequency,
        ];
        let mut values: Vec<T> = Vec::new();
        let mut x: usize = 0;
        while x < self.octaves
            invariant
                self.well_formed(),
                evaluable::<T, L>(self.floor),
                x <= self.octaves,
                lacunarity == self.lacunarity,
                values@.len() == x,
                point == octave_point3(start, self.frequency, self.lacunarity, x as nat),
                forall|k: int|
                    0 <= k < x ==> #[trigger] values@[k] == octave_values3(
                        self.sources@,
                        start,
                        self.frequency,
                        self.lacunarity,
                    )[k],
            decreases self.octaves - x,
        {
            values.push(self.sources[x].get(point));
            point = [point[0] * lacunarity, point[1] * lacunarity, point[2] * lacunarity];
            x += 1;
        }
        assert(values@ =~= octave_values3(
            self.sources@,
            start,
            self.frequency,
            self.lacunarity,
        ));
        let shares: Vec<T> = ones(self.octaves);
        ridged(&values, self.gain, &shares)
    }
}

/// The point at which the octave `k` samples its source, in 4
/// dimensions: the point times the frequency of the octave.
pub open spec fn octave_point4<T: Scalar>(
    point: [T; 4],
    frequency: T,
    lacunarity: T,
    k: nat,
) -> [T; 4]
    decreases k,
{
    if k == 0 {
        let p = point;
        let f = frequency;
        [p[0].mul_spec(f), p[1].mul_spec(f), p[2].mul_spec(f), p[3].mul_spec(f)]
    } else {
        let p = octave_point4(point, frequency, lacunarity, (k - 1) as nat);
        let f = lacunarity;
        [p[0].mul_spec(f), p[1].mul_spec(f), p[2].mul_spec(f), p[3].mul_spec(f)]
    }
}

/// The values of the sources at their points, one for each octave.
pub open spec fn octave_values4<T: Scalar, L: Fn(T) -> (T, isize)>(
    sources: Seq<Perlin<L>>,
    point: [T; 4],
    frequency: T,
    lacunarity: T,
) -> Seq<T> {
    Seq::new(
        sources.len(),
        |k: int| sources[k].value_at(octave_point4(point, frequency, lacunarity, k as nat)),
    )
}

/// 4-dimensional `RidgedMulti` noise
impl<T: Scalar, L: Fn(T) -> (T, isize) + Copy> NoiseFn<[T; 4], T> for RidgedMulti<T, L> {
    open spec fn usable(&self) -> bool {
        self.well_formed() && evaluable::<T, L>(self.floor)
    }

    open spec fn value_at(&self, point: [T; 4]) -> T {
        ridged_spec(
            octave_values4(self.sources@, point, self.frequency, self.lacunarity),
            self.gain,
            even_shares::<T>(self.octaves as nat),
        )
    }

    fn get(&self, point: [T; 4]) -> (r: T) {
        let ghost start = point;
        let lacunarity: T = self.lacunarity;
        let mut point: [T; 4] = [
            point[0] * self.frequency,
            point[1] * self.frequency,
            point[2] * self.frequency,
            point[3] * self.frequency,
        ];
        let mut values: Vec<T> = Vec::new();
        let mut x: usize = 0;
        while x < self.octaves
            invariant
                self.well_formed(),
                evaluable::<T, L>(self.floor),
                x <= self.octaves,
                lacunarity == self.lacunarity,
                values@.len() == x,
                point == octave_point4(start, self.frequency, self.lacunarity, x as nat),
                forall|k: int|
                    0 <= k < x ==> #[trigger] values@[k] == octave_values4(
                        self.sources@,
                        start,
                        self.frequency,
                        self.lacunarity,
                    )[k],
            decreases self.octaves - x,
        {
            values.push(self.sources[x].get(point));
            point = [
                point[0] * lacunarity,
                point[1] * lacunarity,
                point[2] * lacunarity,
                point[3] * lacunarity,
            ];
            x += 1;
        }
        assert(values@ =~= octave_values4(
            self.sources@,
            start,
            self.frequency,
            self.lacunarity,
        ));
        let shares: Vec<T> = ones(self.octaves);
        ridged(&values, self.gain, &shares)
    }
}

/// The values that the fields of the octaves hold for the sample `i`, one
/// for each octave.
pub open spec fn octave_column<F: NoiseField>(fields: Seq<F>, i: int) -> Seq<F::Scalar> {
    Seq::new(fields.len(), |k: int| fields[k].value_seq()[i])
}

/// The ridged value of a sample, from the fields of the octaves, as a
/// function of the sample's index.
struct Ridges<'a, F: NoiseField> {
    fields: &'a Vec<F>,
    gain: F::Scalar,
    samples: usize,
}

impl<'a, F: NoiseField> NoiseFn<usize, F::Scalar> for Ridges<'a, F> where F::Scalar: Scalar {
    closed spec fn usable(&self) -> bool {
        &&& total_arithmetic::<F::Scalar>()
        &&& self.fields@.len() >= 1
        &&& forall|j: int|
            0 <= j < self.fields@.len() ==> (#[trigger] self.fields@[j]).value_seq().len()
                == self.samples
    }

    closed spec fn value_at(&self, point: usize) -> F::Scalar {
        if point < self.samples {
            ridged_spec(
                octave_column(self.fields@, point as int),
                self.gain,
                even_shares::<F::Scalar>(self.fields@.len()),
            )
        } else {
            number::<F::Scalar>(0)
        }
    }

    fn get(&self, point: usize) -> (r: F::Scalar) {
        if point >= self.samples {
            return from_number(0u16);
        }
        let mut signals: Vec<F::Scalar> = Vec::new();
        let mut j: usize = 0;
        while j < self.fields.len()
            invariant
                self.usable(),
                point < self.samples,
                j <= self.fields@.len(),
                signals@.len() == j,
                forall|m: int|
                    0 <= m < j ==> #[trigger] signals@[m] == self.fields@[m].value_seq()[
                        point as int
                    ],
            decreases self.fields@.len() - j,
        {
            let values: &Vec<F::Scalar> = self.fields[j].values();
            signals.push(values[point]);
            j += 1;
        }
        assert(signals@ =~= octave_column(self.fields@, point as int));
        let shares: Vec<F::Scalar> = ones(self.fields.len());
        ridged(&signals, self.gain, &shares)
    }
}

/// The indices `0..n`.
fn indices(n: usize) -> (r: Vec<usize>)
    ensures
        r@.len() == n,
        forall|i: int| 0 <= i < n ==> #[trigger] r@[i] == i,
{
    let mut out: Vec<usize> = Vec::new();
    let mut i: usize = 0;
    while i < n
        invariant
            i <= n,
            out@.len() == i,
            forall|k: int| 0 <= k < i ==> #[trigger] out@[k] == k,
        decreases n - i,
    {
        out.push(i);
        i += 1;
    }
    out
}

/// The values of the sources at the sample `i` of a 2-dimensional field,
/// one for each octave: the octave `k` samples the coordinate times the
/// lacunarity to the power `k`.
pub open spec fn sample_values2<T: Scalar, L: Fn(T) -> (T, isize)>(
    sources: Seq<Perlin<L>>,
    field: &NoiseField2D<T>,
    lacunarity: T,
    i: int,
) -> Seq<T> {
    Seq::new(
        sources.len(),
        |k: int|
            surflet_noise2(
                sources[k].table(),
                sources[k].rounding(),
                [
                    field.coordinates@[i][0].mul_spec(power_spec(lacunarity, k as nat)),
                    field.coordinates@[i][1].mul_spec(power_spec(lacunarity, k as nat)),
                ],
            ),
    )
}

/// The octaves are evaluated one after the other; the samples are then
/// combined on rayon's threads.
impl<T: Scalar + Send + Sync, L: Fn(T) -> (T, isize) + Copy> NoiseFieldFn<
    NoiseField2D<T>,
> for RidgedMulti<T, L> {
    open spec fn accepts(&self, field: &NoiseField2D<T>) -> bool {
        self.well_formed() && evaluable::<T, L>(self.floor)
    }

    open spec fn output(&self, field: &NoiseField2D<T>) -> Seq<T> {
        Seq::new(
            field.coordinates@.len(),
            |i: int|
                ridged_spec(
                    sample_values2(self.sources@, field, self.lacunarity, i),
                    self.gain,
                    even_shares::<T>(self.octaves as nat),
                ),
        )
    }

    fn process_field(&self, field: &NoiseField2D<T>) -> (out: NoiseField2D<T>) {
        let mut out: NoiseField2D<T> = field.clone();
        let n: usize = field.coordinates.len();
        let mut fields: Vec<NoiseField2D<T>> = Vec::new();
        let mut factor: T = from_number(1u16);
        let mut k: usize = 0;
        while k < self.octaves
            invariant
                self.accepts(field),
                field.well_formed(),
                k <= self.octaves,
                fields@.len() == k,
                n == field.coordinates@.len(),
                factor == power_spec(self.lacunarity, k as nat),
                forall|j: int|
                    0 <= j < k ==> (#[trigger] fields@[j]).values@.len() == n,
                forall|j: int, i: int|
                    0 <= j < k && 0 <= i < n ==> #[trigger] fields@[j].values@[i]
                        == sample_values2(self.sources@, field, self.lacunarity, i)[j],
            decreases self.octaves - k,
        {
            let scaled: NoiseField2D<T> = field.scale_coordinates(factor);
            let octave: NoiseField2D<T> = self.sources[k].process_field(&scaled);
            assert(octave.values@.len() == n) by {
                octave.lemma_one_value_per_point();
            }
            assert forall|i: int| 0 <= i < n implies #[trigger] octave.values@[i] == sample_values2(
                self.sources@,
                field,
                self.lacunarity,
                i,
            )[k as int] by {
                assert(octave.values@[i] == self.sources@[k as int].output(&scaled)[i]);
            }
            fields.push(octave);
            factor = factor * self.lacunarity;
            k += 1;
        }
        let kernel = Ridges { fields: &fields, gain: self.gain, samples: n };
        let points: Vec<usize> = indices(n);
        let values: Vec<T> = sample_parallel(&kernel, &points);
        assert forall|m: int| 0 <= m < n implies #[trigger] values@[m] == self.output(field)[m] by {
            assert(octave_column(fields@, m) =~= sample_values2(
                self.sources@,
                field,
                self.lacunarity,
                m,
            ));
        }
        assert(values@ =~= self.output(field));
        out.set_values(values.as_slice());
        out
    }
}

/// The values of the sources at the sample `i` of a 3-dimensional field,
/// one for each octave: the octave `k` samples the coordinate times the
/// lacunarity to the power `k`.
pub open spec fn sample_values3<T: Scalar, L: Fn(T) -> (T, isize)>(
    sources: Seq<Perlin<L>>,
    field: &NoiseField3D<T>,
    lacunarity: T,
    i: int,
) -> Seq<T> {
    Seq::new(
        sources.len(),
        |k: int|
            lerp_noise3(
                sources[k].table(),
                sources[k].rounding(),
                field.coordinates@[i][0].mul_spec(power_spec(lacunarity, k as nat)),
                field.coordinates@[i][1].mul_spec(power_spec(lacunarity, k as nat)),
                field.coordinates@[i][2].mul_spec(power_spec(lacunarity, k as nat)),
            ),
    )
}

/// The octaves are evaluated one after the other; the samples are then
/// combined on rayon's threads.
impl<T: Scalar + Send + Sync, L: Fn(T) -> (T, isize) + Copy> NoiseFieldFn<
    NoiseField3D<T>,
> for RidgedMulti<T, L> {
    open spec fn accepts(&self, field: &NoiseField3D<T>) -> bool {
        self.well_formed() && evaluable::<T, L>(self.floor)
    }

    open spec fn output(&self, field: &NoiseField3D<T>) -> Seq<T> {
        Seq::new(
            field.coordinates@.len(),
            |i: int|
                ridged_spec(
                    sample_values3(self.sources@, field, self.lacunarity, i),
                    self.gain,
                    even_shares::<T>(self.octaves as nat),
                ),
        )
    }

    fn process_field(&self, field: &NoiseField3D<T>) -> (out: NoiseField3D<T>) {
        let mut out: NoiseField3D<T> = field.clone();
        let n: usize = field.coordinates.len();
        let mut fields: Vec<NoiseField3D<T>> = Vec::new();
        let mut factor: T = from_number(1u16);
        let mut k: usize = 0;
        while k < self.octaves
            invariant
                self.accepts(field),
                field.well_formed(),
                k <= self.octaves,
                fields@.len() == k,
                n == field.coordinates@.len(),
                factor == power_spec(self.lacunarity, k as nat),
                forall|j: int|
                    0 <= j < k ==> (#[trigger] fields@[j]).values@.len() == n,
                forall|j: int, i: int|
                    0 <= j < k && 0 <= i < n ==> #[trigger] fields@[j].values@[i]
                        == sample_values3(self.sources@, field, self.lacunarity, i)[j],
            decreases self.octaves - k,
        {
            let scaled: NoiseField3D<T> = field.scale_coordinates(factor);
            let octave: NoiseField3D<T> = self.sources[k].process_field(&scaled);
            assert(octave.values@.len() == n) by {
                octave.lemma_one_value_per_point();
            }
            assert forall|i: int| 0 <= i < n implies #[trigger] octave.values@[i] == sample_values3(
                self.sources@,
                field,
                self.lacunarity,
                i,
            )[k as int] by {
                assert(octave.values@[i] == self.sources@[k as int].output(&scaled)[i]);
            }
            fields.push(octave);
            factor = factor * self.lacunarity;
            k += 1;
        }
        let kernel = Ridges { fields: &fields, gain: self.gain, samples: n };
        let points: Vec<usize> = indices(n);
        let values: Vec<T> = sample_parallel(&kernel, &points);
        assert forall|m: int| 0 <= m < n implies #[trigger] values@[m] == self.output(field)[m] by {
            assert(octave_column(fields@, m) =~= sample_values3(
                self.sources@,
                field,
                self.lacunarity,
                m,
            ));
        }
        assert(values@ =~= self.output(field));
        out.set_values(values.as_slice());
        out
    }
}

} // verus!
