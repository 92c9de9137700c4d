use noise::noise_fns::generators::constant::Constant;
use noise::noise_fns::generators::perlin::Perlin;
use noise::noise_fns::{evaluate_parallel, evaluate_serial, sample_parallel, sample_serial, NoiseFieldFn, NoiseFn};
use noise::noisefield::{axis_samples, copy_of, filled, NoiseField, NoiseField2D, NoiseField3D};

fn floor(x: f64) -> (f64, isize) {
    let f = x.floor();
    (f, f as isize)
}

struct First;

impl NoiseFn<[f64; 2], f64> for First {
    fn usable(&self) -> bool {
        true
    }

    fn value_at(&self, point: [f64; 2]) -> f64 {
        point[0] * 2.0
    }

    fn get(&self, point: [f64; 2]) -> f64 {
        point[0] * 2.0
    }
}

#[test]
fn index_is_row_major() {
    let field = NoiseField2D::<f64>::new(7, 5).unwrap();
    for y in 0..5 {
        for x in 0..7 {
            assert_eq!(field.index([x, y]), x + 7 * y);
        }
    }
    let field = NoiseField3D::<f64>::new(3, 4, 5).unwrap();
    for z in 0..5 {
        for y in 0..4 {
            for x in 0..3 {
                assert_eq!(field.index([x, y, z]), x + 3 * y + 12 * z);
            }
        }
    }
    assert_eq!(field.size(), [3, 4, 5]);
}

#[test]
fn build_field_is_linear() {
    let mut field = NoiseField2D::<f64>::new(8, 4).unwrap();
    field.build_field((-4.0, 4.0), (0.0, 2.0));
    assert_eq!(field.coordinates[0][0], -4.0);
    for i in 0..8 {
        assert_eq!(field.coordinates[i][0], -4.0 + i as f64 * 1.0);
        assert_eq!(field.coord_at_point([i, 3]), [-4.0 + i as f64, 1.5]);
    }
    assert!(field.coordinates().iter().all(|p| p[0] < 4.0 && p[1] < 2.0));
    assert!(field.values().iter().all(|v| *v == 0.0));
}

#[test]
fn build_field_uses_each_axis_for_itself() {
    let mut field = NoiseField3D::<f64>::new(2, 4, 5).unwrap();
    field.build_field((0.0, 2.0), (10.0, 14.0), (-5.0, 5.0));
    assert_eq!(field.coord_at_point([0, 0, 0]), [0.0, 10.0, -5.0]);
    assert_eq!(field.coord_at_point([1, 3, 4]), [1.0, 13.0, 3.0]);
    assert_eq!(field.coord_at_point([1, 0, 2]), [1.0, 10.0, -1.0]);
}

#[test]
fn axis_samples_stop_short_of_the_upper_bound() {
    assert_eq!(axis_samples((0.0, 1.0), 4), vec![0.0, 0.25, 0.5, 0.75]);
    assert_eq!(axis_samples((2.0, -2.0), 2), vec![2.0, 0.0]);
    assert_eq!(axis_samples((2.0, 3.0), 0), Vec::<f64>::new());
}

#[test]
fn scale_coordinates_multiplies_every_coordinate() {
    let mut field = NoiseField2D::<f64>::new(3, 2).unwrap();
    field.build_field((1.0, 4.0), (-2.0, 0.0));
    field.set_values(&[1.0, 2.0, 3.0, 4.0, 5.0, 6.0]);
    let scaled = field.scale_coordinates(2.5);
    for i in 0..6 {
        assert_eq!(scaled.coordinates[i][0], field.coordinates[i][0] * 2.5);
        assert_eq!(scaled.coordinates[i][1], field.coordinates[i][1] * 2.5);
    }
    assert_eq!(scaled.coordinates[4], [5.0, -2.5]);
    assert_eq!(scaled.values, field.values);
    assert_eq!(scaled.size(), [3, 2]);
    let mut field = NoiseField3D::<f64>::new(1, 1, 2).unwrap();
    field.set_coord_at_point([0, 0, 1], [1.0, 2.0, 3.0]);
    assert_eq!(field.scale_coordinates(2.0).coordinates[1], [2.0, 4.0, 6.0]);
}

#[test]
fn values_are_read_and_written() {
    let mut field = NoiseField2D::<f64>::new(2, 2).unwrap();
    field.set_values(&[1.0, 2.0, 3.0, 4.0]);
    assert_eq!(field.values(), &vec![1.0, 2.0, 3.0, 4.0]);
    assert_eq!(field.value_at_point([1, 1]), 4.0);
    assert_eq!(field.value_at_point([1, 0]), 2.0);
    assert_eq!(field.value_at_index(2), 3.0);
    let copy = field.clone();
    assert_eq!(copy.values, field.values);
    assert_eq!(copy.size(), [2, 2]);
    let mut field = NoiseField3D::<f64>::new(2, 2, 2).unwrap();
    field.set_values(&[0.0, 1.0, 2.0, 3.0, 4.0, 5.0, 6.0, 7.0]);
    assert_eq!(field.value_at_point([1, 0, 1]), 5.0);
    assert_eq!(field.value_at_index(7), 7.0);
}

#[test]
fn initialize_gives_the_smallest_field() {
    let field = NoiseField2D::<f64>::initialize();
    assert_eq!(field.size(), [1, 1]);
    assert_eq!(field.coordinates, vec![[0.0, 0.0]]);
    assert_eq!(field.values, vec![0.0]);
    assert_eq!(field.coordinates.len(), field.size()[0] * field.size()[1]);
    let field = NoiseField3D::<f64>::initialize();
    assert_eq!(field.size(), [1, 1, 1]);
    assert_eq!(field.coordinates, vec![[0.0, 0.0, 0.0]]);
    assert_eq!(field.values, vec![0.0]);
}

#[test]
fn helpers_copy_and_fill() {
    assert_eq!(copy_of(&[1, 2, 3]), vec![1, 2, 3]);
    assert_eq!(filled(7u8, 3), vec![7, 7, 7]);
}

#[test]
fn a_one_by_one_field_evaluates_one_point() {
    let mut field = NoiseField2D::<f64>::new(1, 1).unwrap();
    field.build_field((0.25, 1.0), (0.75, 2.0));
    let perlin = Perlin::new(floor);
    let out = evaluate_serial(&perlin, &field);
    assert_eq!(out.values().len(), 1);
    let expected: f64 = perlin.get([0.25, 0.75]);
    assert_eq!(out.values()[0], expected);
    assert_ne!(expected, 0.0);
}

#[test]
fn serial_and_parallel_evaluation_agree() {
    let mut field = NoiseField2D::<f64>::new(64, 48).unwrap();
    field.build_field((-3.0, 5.0), (-2.0, 2.0));
    let perlin = Perlin::new(floor);
    let serial = evaluate_serial(&perlin, &field);
    let parallel = evaluate_parallel(&perlin, &field);
    assert_eq!(serial.values().len(), 64 * 48);
    let a: Vec<u64> = serial.values().iter().map(|v| v.to_bits()).collect();
    let b: Vec<u64> = parallel.values().iter().map(|v| v.to_bits()).collect();
    assert_eq!(a, b);
    assert_eq!(serial.coordinates, field.coordinates);
    assert_eq!(parallel.coordinates, field.coordinates);
    assert_eq!(parallel.size(), [64, 48]);
    for i in [0usize, 77, 3071] {
        let expected: f64 = perlin.get(field.coordinates[i]);
        assert_eq!(parallel.values()[i], expected);
    }
    assert!(parallel.values().iter().any(|v| *v != parallel.values()[0]));
    let mut field = NoiseField3D::<f64>::new(9, 8, 7).unwrap();
    field.build_field((-3.0, 5.0), (-2.0, 2.0), (0.0, 1.0));
    assert_eq!(evaluate_serial(&perlin, &field).values, evaluate_parallel(&perlin, &field).values);
}

#[test]
fn sampling_keeps_the_order_of_the_points() {
    let points: Vec<[f64; 2]> = (0..1000).map(|i| [i as f64, 0.0]).collect();
    let expected: Vec<f64> = (0..1000).map(|i| i as f64 * 2.0).collect();
    assert_eq!(sample_serial(&First, &points), expected);
    assert_eq!(sample_parallel(&First, &points), expected);
}

#[test]
fn perlin_gives_a_field_its_values_at_the_coordinates() {
    let mut field = NoiseField2D::<f64>::new(5, 5).unwrap();
    field.build_field((0.0, 2.0), (0.0, 2.0));
    let perlin = Perlin::new(floor);
    let out = perlin.process_field(&field);
    for i in 0..25 {
        let expected: f64 = perlin.get(field.coordinates[i]);
        assert_eq!(out.values()[i].to_bits(), expected.to_bits());
    }
    assert!(out.values().iter().any(|v| *v != 0.0));
    let mut solid = NoiseField3D::<f64>::new(3, 3, 3).unwrap();
    solid.build_field((0.0, 2.0), (0.0, 2.0), (0.25, 2.0));
    let out = perlin.process_field(&solid);
    for i in 0..27 {
        let expected: f64 = perlin.get(solid.coordinates[i]);
        assert_eq!(out.values()[i].to_bits(), expected.to_bits());
    }
    assert!(out.values().iter().any(|v| *v != 0.0));
    let c = Constant::new(1.5).process_field(&field);
    assert!(c.values().iter().all(|v| *v == 1.5));
}
