use noise::noisefield::{GridError, NoiseField, NoiseField2D, NoiseField3D};

#[test]
fn create_noisefield2d() {
    let noisefield = NoiseField2D::<f64>::new(1, 1).unwrap();

    assert_eq!(noisefield.size.width, 1);
    assert_eq!(noisefield.size.height, 1);
}

#[test]
#[should_panic]
fn create_too_small_noisefield2d_x() {
    let _noisefield = NoiseField2D::<f64>::new(0, 1).unwrap();
}

#[test]
#[should_panic]
fn create_too_small_noisefield2d_y() {
    let _noisefield = NoiseField2D::<f64>::new(1, 0).unwrap();
}

#[test]
fn get_index() {
    let index = NoiseField2D::<f64>::new(3, 3).unwrap().index([1, 1]);

    assert_eq!(index, 4);
}

#[test]
fn set_coord() {
    let grid_point = [1, 1];
    let coordinate = [0.1, 1.5];
    let mut noisefield = NoiseField2D::<f64>::new(3, 3).unwrap();
    noisefield.set_coord_at_point(grid_point, coordinate);
    let index = noisefield.index(grid_point);

    assert_eq!(coordinate, noisefield.coordinates[index]);
}

#[test]
fn new_rejects_zero_and_large_extents() {
    assert_eq!(NoiseField2D::<f64>::new(0, 5).err(), Some(GridError::Empty));
    assert_eq!(NoiseField2D::<f64>::new(5, 0).err(), Some(GridError::Empty));
    assert_eq!(NoiseField2D::<f64>::new(0, 40_000).err(), Some(GridError::Empty));
    assert_eq!(NoiseField2D::<f64>::new(32_767, 5).err(), Some(GridError::TooLarge));
    assert_eq!(NoiseField2D::<f64>::new(5, 32_767).err(), Some(GridError::TooLarge));
    assert!(NoiseField2D::<f64>::new(32_766, 1).is_ok());
    assert_eq!(NoiseField3D::<f64>::new(1, 1, 0).err(), Some(GridError::Empty));
    assert_eq!(NoiseField3D::<f64>::new(1, 32_767, 1).err(), Some(GridError::TooLarge));
}

#[test]
fn new_field_is_zeroed() {
    let field = NoiseField2D::<f64>::new(5, 5).unwrap();
    assert_eq!(field.coordinates.len(), 25);
    assert_eq!(field.values.len(), 25);
    assert!(field.coordinates.iter().all(|p| p[0] == 0.0 && p[1] == 0.0));
    assert!(field.values().iter().all(|v| *v == 0.0));
}
