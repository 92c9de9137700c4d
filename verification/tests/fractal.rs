use noise::noise_fns::generators::fractals::ridgedmulti::{
    build_sources, calc_spectral_weights, power, ridge, ridged, MultiFractal, RidgedMulti,
};
use noise::noise_fns::generators::perlin::Perlin;
use noise::noise_fns::{NoiseFieldFn, NoiseFn, Seedable};
use noise::noisefield::{NoiseField, NoiseField2D};

fn floor(x: f64) -> (f64, isize) {
    let f = x.floor();
    (f, f as isize)
}

#[test]
fn octaves_are_limited() {
    let fractal = RidgedMulti::<f64, _>::new(floor);
    assert_eq!(fractal.octaves, 6);
    assert_eq!(fractal.lacunarity, 2.17);
    assert_eq!(fractal.gain, 2.0);
    assert_eq!(fractal.frequency, 1.0);
    assert_eq!(fractal.seed(), 0);
    let fractal = fractal.set_octaves(0);
    assert_eq!(fractal.octaves, 1);
    assert_eq!(fractal.sources.len(), 1);
    let fractal = fractal.set_octaves(40);
    assert_eq!(fractal.octaves, 32);
    assert_eq!(fractal.sources.len(), 32);
    assert_eq!(fractal.spectral_weights.len(), 32);
    let fractal = fractal.set_octaves(3).set_seed(u32::MAX);
    assert_eq!(fractal.sources[0].seed(), u32::MAX);
    assert_eq!(fractal.sources[1].seed(), 0);
    assert_eq!(fractal.sources[2].seed(), 1);
}

#[test]
fn weights_follow_the_frequency() {
    assert_eq!(calc_spectral_weights(1.0, 2.0, 4), vec![1.0, 0.5, 0.25, 0.125]);
    let fractal = RidgedMulti::<f64, _>::new(floor).set_octaves(2).set_frequency(4.0).set_lacunarity(2.0);
    assert_eq!(fractal.spectral_weights, vec![0.25, 0.125]);
    let fractal = fractal.set_gain(3.0);
    assert_eq!(fractal.gain, 3.0);
    assert_eq!(power(2.0, 10), 1024.0);
    assert_eq!(power(3.0, 0), 1.0);
    let sources = build_sources(5, 3, floor);
    assert_eq!(sources.iter().map(|s| s.seed()).collect::<Vec<_>>(), vec![5, 6, 7]);
}

#[test]
fn ridged_formula() {
    assert_eq!(ridge(-0.25), 0.5625);
    assert_eq!(ridge(0.0), 1.0);
    // One octave: the scale is 2 - (1/2)^0 = 1, so the value is 2 * signal - 1.
    assert_eq!(ridged(&vec![0.5], 2.0, &vec![1.0]), -0.5);
    // Two octaves: signals 0.25 and 1 * clamp(0.5) = 0.5; scale 1.5.
    assert_eq!(ridged(&vec![0.5, 0.0], 2.0, &vec![1.0, 1.0]), 0.75 * (2.0 / 1.5) - 1.0);
    // The share scales the second signal only.
    assert_eq!(ridged(&vec![0.5, 0.0], 2.0, &vec![1.0, 0.5]), 0.5 * (2.0 / 1.5) - 1.0);
    // The weight is limited to one.
    assert_eq!(ridged(&vec![0.0, 0.0], 5.0, &vec![1.0, 1.0]), 2.0 * (2.0 / 1.5) - 1.0);
}

#[test]
fn fractal_at_a_point_is_the_ridged_sum_of_its_octaves() {
    let fractal = RidgedMulti::<f64, _>::new(floor).set_octaves(3).set_seed(11);
    let p = [0.3, 0.7, -1.2];
    let mut values = Vec::new();
    let mut q = p;
    for k in 0..3 {
        let source = Perlin::new(floor).set_seed(11 + k);
        let v: f64 = source.get(q);
        values.push(v);
        q = [q[0] * 2.17, q[1] * 2.17, q[2] * 2.17];
    }
    let expected = ridged(&values, 2.0, &vec![1.0; 3]);
    let got: f64 = fractal.get(p);
    assert_eq!(got, expected);
    let got2: f64 = fractal.get([0.3, 0.7]);
    assert!(got2.is_finite());
    let got4: f64 = fractal.get([0.3, 0.7, 0.1, 0.9]);
    assert!(got4.is_finite());
}

#[test]
fn fractal_over_a_field() {
    let mut field = NoiseField2D::<f64>::new(6, 4).unwrap();
    field.build_field((-1.0, 1.0), (-1.0, 1.0));
    let fractal = RidgedMulti::<f64, _>::new(floor).set_octaves(2);
    let out = fractal.process_field(&field);
    assert_eq!(out.coordinates, field.coordinates);
    assert_eq!(out.values().len(), 24);
    for i in 0..24 {
        let p = field.coordinates[i];
        let v0: f64 = Perlin::new(floor).get(p);
        let v1: f64 = Perlin::new(floor).set_seed(1).get([p[0] * 2.17, p[1] * 2.17]);
        let s0 = (1.0 - v0.abs()) * (1.0 - v0.abs());
        let s1 = (1.0 - v1.abs()) * (1.0 - v1.abs()) * (s0 * 2.0).clamp(0.0, 1.0);
        let expected = (s0 + s1).abs() * (2.0 / (2.0 - 0.5)) - 1.0;
        assert!((out.values()[i] - expected).abs() < 1e-15);
        assert_eq!(out.values()[i], ridged(&vec![v0, v1], 2.0, &vec![1.0, 1.0]));
    }
    assert!(out.values().iter().any(|v| *v != out.values()[0]));
}
