use noise::noise_fns::generators::constant::Constant;
use noise::noise_fns::generators::perlin::Perlin;
use noise::noise_fns::{NoiseFieldFn, Parallel, Serial};
use noise::noisefield::{GridError, NoiseField, NoiseField2D, NoiseField3D};
use noise::utils::noise_map::NoiseMap;
use noise::utils::noise_map_builder::{
    build_layer, lat_lon_to_xyz, layer, ordered_bounds, CylinderMapBuilder, NoiseMapBuilder,
    PlaneMapBuilder, SphereMapBuilder,
};

fn floor(x: f64) -> (f64, isize) {
    let f = x.floor();
    (f, f as isize)
}

#[test]
fn noise_map_places_values_row_by_row() {
    let mut map = NoiseMap::from_values(3, 2, vec![0.0, 1.0, 2.0, 3.0, 4.0, 5.0]);
    assert_eq!(map.size(), (3, 2));
    assert_eq!(map.get_value(2, 0), 2.0);
    assert_eq!(map.get_value(0, 1), 3.0);
    map.set_value(1, 1, 9.0);
    assert_eq!(map.map, vec![0.0, 1.0, 2.0, 3.0, 9.0, 5.0]);
}

#[test]
fn plane_builder_defaults_and_setters() {
    let source = Constant::new(0.5);
    let builder = PlaneMapBuilder::<_, f64>::new(&source);
    assert_eq!(builder.size(), (1000, 1000));
    assert_eq!(builder.x_bounds(), (-4.0, 4.0));
    assert_eq!(builder.y_bounds(), (-4.0, 4.0));
    assert!(!builder.is_seamless);
    let builder = builder
        .set_size(4, 2)
        .set_x_bounds(0.0, 1.0)
        .set_y_bounds(-1.0, 1.0)
        .set_is_seamless(true);
    assert_eq!(builder.size(), (4, 2));
    assert_eq!(builder.x_bounds(), (0.0, 1.0));
    assert_eq!(builder.y_bounds(), (-1.0, 1.0));
    assert!(builder.is_seamless);
    let other = Constant::new(0.25);
    let map = builder.set_source_module(&other).build();
    assert_eq!(map.size(), (4, 2));
    assert_eq!(map.map, vec![0.25; 8]);
}

#[test]
fn plane_builder_samples_its_rectangle() {
    let perlin = Perlin::new(floor);
    let source = Serial::new(&perlin);
    let map = PlaneMapBuilder::new(&source)
        .set_size(8, 4)
        .set_x_bounds(-4.0, 4.0)
        .set_y_bounds(0.0, 2.0)
        .build();
    let mut field = NoiseField2D::<f64>::new(8, 4).unwrap();
    field.build_field((-4.0, 4.0), (0.0, 2.0));
    let expected = source.process_field(&field);
    assert_eq!(&map.map, expected.values());
    assert_eq!(map.get_value(3, 2), expected.value_at_point([3, 2]));
    let parallel = Parallel::new(&perlin).process_field(&field);
    assert_eq!(parallel.values(), expected.values());
    assert!(map.map.iter().any(|v| *v != 0.0));
}

#[test]
fn bounds_are_put_in_order() {
    assert_eq!(ordered_bounds(1.0, 2.0), ((1.0, 2.0), false));
    assert_eq!(ordered_bounds(2.0, 1.0), ((1.0, 2.0), true));
    assert_eq!(ordered_bounds(2.0, 2.0), ((2.0, 2.0), true));
}

#[test]
fn layer_is_placed_point_by_point() {
    let perlin = Perlin::new(floor);
    let source = Serial::new(&perlin);
    let place = |x: usize, y: usize| [x as f64 * 0.5, y as f64 * 0.25, 0.125];
    let map = build_layer((3, 4), &source, place).unwrap();
    assert_eq!(map.size(), (3, 4));
    let mut field = NoiseField3D::<f64>::new(3, 4, 1).unwrap();
    for y in 0..4 {
        for x in 0..3 {
            field.set_coord_at_point([x, y, 0], place(x, y));
        }
    }
    let expected = source.process_field(&field);
    assert_eq!(&map.map, expected.values());
    assert_eq!(map.get_value(2, 3), perlin.perlin_3d(1.0, 0.75, 0.125));
    assert!(map.map.iter().any(|v| *v != 0.0));
}

#[test]
fn layer_of_a_bad_size_fails() {
    let source = Constant::new(1.0);
    let place = |_x: usize, _y: usize| [0.0, 0.0, 0.0];
    assert_eq!(build_layer((0, 4), &source, place).err(), Some(GridError::Empty));
    assert_eq!(build_layer((4, 0), &source, place).err(), Some(GridError::Empty));
    assert_eq!(build_layer((4, 32_767), &source, place).err(), Some(GridError::TooLarge));
    assert_eq!(build_layer((2, 2), &source, place).unwrap().map, vec![1.0; 4]);
}

fn trig(angle: f64) -> (f64, f64) {
    let radians = angle.to_radians();
    (radians.cos(), radians.sin())
}

#[test]
fn cylinder_builder_wraps_the_grid_round_the_axis() {
    let perlin = Perlin::new(floor);
    let source = Serial::new(&perlin);
    let builder = CylinderMapBuilder::new(&source, trig);
    assert_eq!(builder.angle_bounds(), (-180.0, 180.0));
    assert_eq!(builder.height_bounds(), (-10.0, 10.0));
    assert_eq!(builder.size(), (1000, 1000));
    let builder = builder.set_size(4, 2).set_angle_bounds(90.0, 0.0).set_height_bounds(1.0, 3.0);
    assert_eq!(builder.angle_bounds(), (0.0, 90.0));
    assert_eq!(builder.height_bounds(), (1.0, 3.0));
    let map = builder.build();
    assert_eq!(map.size(), (4, 2));
    for y in 0..2 {
        for x in 0..4 {
            let (c, s) = trig(22.5 * x as f64);
            let expected = perlin.perlin_3d(c, 1.0 + y as f64, s);
            assert_eq!(map.get_value(x, y), expected);
        }
    }
    assert!(map.map.iter().any(|v| *v != 0.0));
}

#[test]
fn sphere_builder_lays_the_grid_over_the_sphere() {
    let perlin = Perlin::new(floor);
    let source = Serial::new(&perlin);
    let builder = SphereMapBuilder::new(&source, trig);
    assert_eq!(builder.latitude_bounds(), (-90.0, 90.0));
    assert_eq!(builder.longitude_bounds(), (-180.0, 180.0));
    assert_eq!(builder.radius, 10.0);
    let builder = builder
        .set_latitude_bounds(-1.0, 1.0)
        .set_longitude_bounds(-2.0, 2.0)
        .set_bounds(-60.0, 60.0, 0.0, 90.0)
        .set_radius(2.5)
        .set_size(3, 4);
    assert_eq!(builder.latitude_bounds(), (-60.0, 60.0));
    assert_eq!(builder.longitude_bounds(), (0.0, 90.0));
    let map = builder.build();
    assert_eq!(map.size(), (3, 4));
    for y in 0..4 {
        for x in 0..3 {
            let p = lat_lon_to_xyz(&trig, -60.0 + 30.0 * y as f64, 30.0 * x as f64, 2.5);
            assert_eq!(map.get_value(x, y), perlin.perlin_3d(p[0], p[1], p[2]));
        }
    }
    let p = lat_lon_to_xyz(&trig, 0.0, 90.0, 2.0);
    assert!((p[0]).abs() < 1e-15 && p[1] == 0.0 && p[2] == 2.0);
    let p = lat_lon_to_xyz(&trig, 90.0, 0.0, 2.0);
    assert!(p[0].abs() < 1e-15 && p[1] == 2.0 && p[2] == 0.0);
}

#[test]
fn layer_of_a_known_size() {
    let source = Constant::new(2.0);
    let map = layer((2, 3), &source, |x: usize, y: usize| [x as f64, y as f64, 0.0]);
    assert_eq!(map.size(), (2, 3));
    assert_eq!(map.map, vec![2.0; 6]);
}
