use noise::noise_fns::generators::cylinders::Cylinders;
use noise::noise_fns::{NoiseFieldFn, NoiseFn};
use noise::noisefield::{NoiseField, NoiseField2D, NoiseField3D};

fn floor(x: f64) -> (f64, isize) {
    let f = x.floor();
    (f, f as isize)
}

#[test]
fn cylinders_at_whole_and_half_distances() {
    let cylinders = Cylinders::new(f64::sqrt, floor);
    assert_eq!(cylinders.frequency, 1.0);
    let v: f64 = cylinders.get([3.0, 4.0]);
    assert_eq!(v, 1.0);
    let v: f64 = cylinders.get([0.0, 0.5, 9.0]);
    assert_eq!(v, -1.0);
    let v: f64 = cylinders.get([0.25, 0.0, 1.0, 2.0]);
    assert_eq!(v, 0.0);
    let cylinders = cylinders.set_frequency(2.0);
    assert_eq!(cylinders.frequency, 2.0);
    let v: f64 = cylinders.get([0.0, 0.25]);
    assert_eq!(v, -1.0);
}

#[test]
fn cylinders_over_fields() {
    let cylinders = Cylinders::new(f64::sqrt, floor).set_frequency(0.5);
    let mut flat = NoiseField2D::<f64>::new(4, 2).unwrap();
    flat.build_field((0.0, 8.0), (0.0, 1.0));
    let out = cylinders.process_field(&flat);
    assert_eq!(out.coordinates, flat.coordinates);
    for i in 0..8 {
        let expected: f64 = cylinders.get(flat.coordinates[i]);
        assert_eq!(out.values()[i], expected);
    }
    assert_eq!(out.values()[0], 1.0);
    assert_eq!(out.values()[1], 1.0);
    assert!(out.values().iter().any(|v| *v != 1.0));
    let mut solid = NoiseField3D::<f64>::new(2, 2, 2).unwrap();
    solid.build_field((0.0, 4.0), (0.0, 4.0), (0.0, 1.0));
    let out = cylinders.process_field(&solid);
    for i in 0..8 {
        let p = solid.coordinates[i];
        let expected: f64 = cylinders.get(p);
        assert_eq!(out.values()[i], expected);
    }
    assert_eq!(out.values()[0], 1.0);
    assert_eq!(out.values()[1], 1.0);
}
