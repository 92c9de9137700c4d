use noise::noise_fns::combiners;
use noise::noise_fns::combiners::{Max, Min, Multiply, Power};
use noise::noise_fns::generators::constant::Constant;
use noise::noise_fns::modifiers::{Abs, Clamp, Exponent, Negate, ScaleBias};
use noise::noise_fns::selectors::{select_value, Blend, Select};
use noise::noise_fns::{NoiseFieldFn, NoiseFn};
use noise::noisefield::{NoiseField, NoiseField2D, NoiseField3D};

fn field() -> NoiseField2D<f64> {
    let mut f = NoiseField2D::new(4, 3).unwrap();
    f.build_field((-1.0, 1.0), (0.0, 3.0));
    f
}

fn all(values: &[f64], expected: f64) -> bool {
    values.len() == 12 && values.iter().all(|v| *v == expected)
}

#[test]
fn constant_fills_the_field() {
    let f = field();
    let out = Constant::new(0.25).process_field(&f);
    assert!(all(out.values(), 0.25));
    assert_eq!(out.coordinates, f.coordinates);
    assert_eq!(out.size(), [4, 3]);
    let v: f64 = Constant::new(0.25).get([1.0, 2.0]);
    assert_eq!(v, 0.25);
}

#[test]
fn add_of_constants() {
    let f = field();
    let a = Constant::new(2.0);
    let b = Constant::new(3.0);
    let out = combiners::Add::new(&a, &b).process_field(&f);
    assert!(all(out.values(), 5.0));
    assert_eq!(out.coordinates, f.coordinates);
}

#[test]
fn clamp_of_constant() {
    let f = field();
    let a = Constant::new(5.0);
    let out = Clamp::new(&a).set_bounds(-1.0, 1.0).process_field(&f);
    assert!(all(out.values(), 1.0));
    let out = Clamp::new(&a).process_field(&f);
    assert!(all(out.values(), 1.0));
    let b = Constant::new(-7.5);
    let out = Clamp::new(&b).process_field(&f);
    assert!(all(out.values(), -1.0));
    let out = Clamp::new(&b).set_lower_bound(-8.0).process_field(&f);
    assert!(all(out.values(), -7.5));
    let out = Clamp::new(&a).set_upper_bound(3.0).process_field(&f);
    assert!(all(out.values(), 3.0));
}

#[test]
fn negate_of_constant() {
    let f = field();
    let a = Constant::new(0.5);
    let out = Negate::new(&a).process_field(&f);
    assert!(all(out.values(), -0.5));
}

#[test]
fn select_without_falloff() {
    let f = field();
    let a = Constant::new(10.0);
    let b = Constant::new(20.0);
    let inside = Constant::new(0.5);
    let outside = Constant::new(2.0);
    let out = Select::new(&a, &b, &inside).set_bounds(0.0, 1.0).set_falloff(0.0).process_field(&f);
    assert!(all(out.values(), 20.0));
    let out = Select::new(&a, &b, &outside).set_bounds(0.0, 1.0).set_falloff(0.0).process_field(&f);
    assert!(all(out.values(), 10.0));
    let edge = Constant::new(1.0);
    let out = Select::new(&a, &b, &edge).process_field(&f);
    assert!(all(out.values(), 10.0));
}

#[test]
fn select_with_falloff() {
    assert_eq!(select_value(-1.0, 10.0, 20.0, (0.0, 1.0), 0.25), 10.0);
    assert_eq!(select_value(0.0, 10.0, 20.0, (0.0, 1.0), 0.25), 15.0);
    assert_eq!(select_value(0.5, 10.0, 20.0, (0.0, 1.0), 0.25), 20.0);
    assert_eq!(select_value(1.0, 10.0, 20.0, (0.0, 1.0), 0.25), 15.0);
    assert_eq!(select_value(1.25, 10.0, 20.0, (0.0, 1.0), 0.25), 10.0);
    assert_eq!(select_value(-0.125, 10.0, 20.0, (0.0, 1.0), 0.25), 10.0 + 10.0 * 0.15625);
}

#[test]
fn arithmetic_combiners() {
    let f = field();
    let a = Constant::new(2.0);
    let b = Constant::new(-3.0);
    assert!(all(Multiply::new(&a, &b).process_field(&f).values(), -6.0));
    assert!(all(Max::new(&a, &b).process_field(&f).values(), 2.0));
    assert!(all(Min::new(&a, &b).process_field(&f).values(), -3.0));
    assert!(all(Max::new(&b, &a).process_field(&f).values(), 2.0));
    assert!(all(Min::new(&b, &a).process_field(&f).values(), -3.0));
    assert!(all(Abs::new(&b).process_field(&f).values(), 3.0));
    assert!(all(Abs::new(&a).process_field(&f).values(), 2.0));
    assert!(all(ScaleBias::new(&a).process_field(&f).values(), 2.0));
    assert!(all(ScaleBias::new(&a).set_scale(4.0).set_bias(0.5).process_field(&f).values(), 8.5));
    let c = Constant::new(0.25);
    assert!(all(Blend::new(&a, &b, &c).process_field(&f).values(), 0.75));
    let two = Constant::new(2.0);
    assert!(all(Blend::new(&a, &b, &two).process_field(&f).values(), -8.0));
}

#[test]
fn max_and_min_pass_numbers_over_nan() {
    let f = field();
    let a = Constant::new(f64::NAN);
    let b = Constant::new(1.0);
    assert!(all(Max::new(&a, &b).process_field(&f).values(), 1.0));
    assert!(all(Max::new(&b, &a).process_field(&f).values(), 1.0));
    assert!(all(Min::new(&a, &b).process_field(&f).values(), 1.0));
    assert!(all(Min::new(&b, &a).process_field(&f).values(), 1.0));
}

#[test]
fn power_uses_the_power_function() {
    let f = field();
    let a = Constant::new(2.0);
    let b = Constant::new(10.0);
    let out = Power::new(&a, &b, f64::powf).process_field(&f);
    assert!(all(out.values(), 1024.0));
    let n = Constant::new(-8.0);
    let third = Constant::new(0.5);
    let out = Power::new(&n, &third, f64::powf).process_field(&f);
    assert!(out.values().iter().all(|v| v.is_nan()));
}

#[test]
fn exponent_curve() {
    let f = field();
    let a = Constant::new(0.0);
    let out = Exponent::new(&a, f64::powf).set_exponent(2.0).process_field(&f);
    assert!(all(out.values(), -0.5));
    let out = Exponent::new(&a, f64::powf).process_field(&f);
    assert!(all(out.values(), 0.0));
    let b = Constant::new(-3.0);
    let out = Exponent::new(&b, f64::powf).process_field(&f);
    assert!(all(out.values(), 1.0));
}

#[test]
fn combinators_nest_and_work_in_three_dimensions() {
    let mut f = NoiseField3D::<f64>::new(2, 3, 2).unwrap();
    f.build_field((0.0, 1.0), (0.0, 1.0), (0.0, 1.0));
    let a = Constant::new(2.0);
    let b = Constant::new(3.0);
    let sum = combiners::Add::new(&a, &b);
    let product = Multiply::new(&sum, &b);
    let out = Negate::new(&product).process_field(&f);
    assert_eq!(out.values().len(), 12);
    assert!(out.values().iter().all(|v| *v == -15.0));
    assert_eq!(out.coordinates, f.coordinates);
    let boxed: &dyn NoiseFieldFn<NoiseField3D<f64>> = &sum;
    let out = Abs::new(boxed).process_field(&f);
    assert!(out.values().iter().all(|v| *v == 5.0));
}
