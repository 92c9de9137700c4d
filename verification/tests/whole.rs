use noise::noise_fns::combiners;
use noise::noise_fns::combiners::Multiply;
use noise::noise_fns::generators::constant::Constant;
use noise::noise_fns::generators::fractals::ridgedmulti::{MultiFractal, RidgedMulti};
use noise::noise_fns::generators::perlin::Perlin;
use noise::noise_fns::modifiers::{Clamp, Negate};
use noise::noise_fns::{NoiseFieldFn, NoiseFn};
use noise::noisefield::{NoiseField, NoiseField2D};
use noise::whole::{whole_floor, Whole};

fn w(value: i64) -> Whole {
    Whole::new(value)
}

#[test]
fn whole_arithmetic_is_exact_and_stops_at_the_ends() {
    assert_eq!((w(2) + w(3)).value, 5);
    assert_eq!((w(i64::MAX) + w(1)).value, i64::MAX);
    assert_eq!((w(i64::MIN) - w(1)).value, i64::MIN);
    assert_eq!((w(i64::MAX) * w(-2)).value, i64::MIN);
    assert_eq!((w(-7) * w(6)).value, -42);
    assert_eq!((-w(i64::MIN)).value, i64::MAX);
    assert_eq!((-w(5)).value, -5);
}

#[test]
fn whole_division_rounds_towards_zero() {
    assert_eq!((w(7) / w(2)).value, 3);
    assert_eq!((w(-7) / w(2)).value, -3);
    assert_eq!((w(7) / w(-2)).value, -3);
    assert_eq!((w(-7) / w(-2)).value, 3);
    assert_eq!((w(7) / w(0)).value, 0);
    assert_eq!((w(i64::MIN) / w(-1)).value, i64::MAX);
}

#[test]
fn whole_order_and_conversions() {
    assert!(w(1) < w(2));
    assert!(w(2) <= w(2));
    assert!(w(3) > w(2));
    assert!(w(2) == w(2));
    assert_eq!(Whole::from(7u16).value, 7);
    assert_eq!(Whole::default().value, 0);
    assert_eq!(whole_floor(w(-9)).1, -9);
    assert_eq!(whole_floor(w(i64::MAX)).1, 0x7fff_ffff);
    assert_eq!(whole_floor(w(i64::MIN)).1, -0x7fff_ffff);
    assert_eq!(whole_floor(w(12)).0.value, 12);
}

#[test]
fn whole_fields_are_exact() {
    let mut field = NoiseField2D::<Whole>::new(8, 2).unwrap();
    field.build_field((w(-4), w(4)), (w(0), w(2)));
    for i in 0..8 {
        assert_eq!(field.coord_at_point([i, 1])[0].value, -4 + i as i64);
        assert_eq!(field.coord_at_point([i, 1])[1].value, 1);
    }
    let two = Constant::new(w(2));
    let three = Constant::new(w(3));
    let sum = combiners::Add::new(&two, &three);
    assert!(sum.process_field(&field).values().iter().all(|v| v.value == 5));
    let product = Multiply::new(&sum, &three);
    assert!(Negate::new(&product).process_field(&field).values().iter().all(|v| v.value == -15));
    assert!(Clamp::new(&sum).process_field(&field).values().iter().all(|v| v.value == 1));
}

#[test]
fn perlin_over_whole_numbers_is_zero() {
    let perlin = Perlin::new(whole_floor);
    let v: Whole = perlin.get([w(3), w(-8)]);
    assert_eq!(v.value, 0);
    assert_eq!(perlin.perlin_3d(w(1), w(2), w(3)).value, 0);
}

#[test]
fn ridged_field_over_whole_numbers_sums_the_octaves_unweighted() {
    // Two octaves at the origin: both sources are zero there, both ridges
    // one, the weight of the second octave is one, the sum two; the scale is
    // two less a half, which is two in whole numbers.
    let fractal = RidgedMulti::<Whole, _>::new(whole_floor).set_octaves(2).set_lacunarity(w(2));
    let field = NoiseField2D::<Whole>::initialize();
    let out = fractal.process_field(&field);
    assert_eq!(out.values().len(), 1);
    assert_eq!(out.values()[0].value, 1);
    let at_origin: Whole = fractal.get([w(0), w(0)]);
    assert_eq!(at_origin.value, 1);
}

#[test]
fn perlin_over_whole_numbers_stays_in_range() {
    let perlin = Perlin::new(whole_floor);
    for x in -5..5 {
        let v: Whole = perlin.get([w(x), w(3 * x), w(1), w(-x)]);
        assert!(w(-1) <= v && v <= w(1));
    }
}
