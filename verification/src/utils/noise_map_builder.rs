use crate::noise_fns::NoiseFieldFn;
use crate::noisefield::{
    axis_sample, axis_samples, copy_of, index2, index3, lemma_index3_in_range,
    lemma_index3_injective, valid_extent, GridError, NoiseField, NoiseField2D, NoiseField3D,
    MAX_GRID_SIZE,
};
use crate::scalar::{
    at_most, from_number, image, is_at_most, is_mapping, number, total_arithmetic, Scalar,
};
use crate::utils::noise_map::NoiseMap;
use core::ops::Neg;
use vstd::prelude::*;
use vstd::std_specs::ops::{MulSpec, NegSpec};

verus! {

/// A builder that lays a grid of samples over some region of space, runs a
/// source over it and hands out the values as a map.
pub trait NoiseMapBuilder<'a, S: ?Sized>: Sized {
    type Scalar: Copy;

    /// Width and height of the map to build.
    spec fn extent(&self) -> (usize, usize);

    /// The source that gives the values.
    spec fn source(&self) -> &'a S;

    /// A map can be built: the size is one that a field can have, and the
    /// source takes the field.
    spec fn buildable(&self) -> bool;

    fn set_size(self, width: usize, height: usize) -> (r: Self)
        ensures
            r.extent() == (width, height),
            r.source() == self.source(),
    ;

    fn set_source_module(self, source_module: &'a S) -> (r: Self)
        ensures
            r.source() == source_module,
            r.extent() == self.extent(),
    ;

    fn size(&self) -> (r: (usize, usize))
        ensures
            r == self.extent(),
    ;

    fn build(&self) -> (r: NoiseMap<Self::Scalar>)
        requires
            self.buildable(),
        ensures
            r.well_formed(),
            r.size == self.extent(),
    ;
}

/// A builder for a flat region: a rectangle of the plane, given by its
/// bounds along either axis.
pub struct PlaneMapBuilder<'a, S: ?Sized, T> {
    pub is_seamless: bool,
    pub x_bounds: (T, T),
    pub y_bounds: (T, T),
    pub size: (usize, usize),
    pub source_module: &'a S,
}

impl<'a, S: ?Sized, T: Scalar> PlaneMapBuilder<'a, S, T> {
    /// A builder for the square from -4 to 4 along either axis, a thousand
    /// samples wide and high.
    pub fn new(source_module: &'a S) -> (r: Self)
        requires
            total_arithmetic::<T>(),
        ensures
            r.is_seamless == false,
            r.x_bounds == (number::<T>(4).neg_spec(), number::<T>(4)),
            r.y_bounds == (number::<T>(4).neg_spec(), number::<T>(4)),
            r.size == (1000usize, 1000usize),
            r.source_module == source_module,
    {
        let four: T = from_number(4u16);
        PlaneMapBuilder {
            is_seamless: false,
            x_bounds: (four.neg(), four),
            y_bounds: (four.neg(), four),
            size: (1000, 1000),
            source_module,
        }
    }

    pub fn set_is_seamless(self, is_seamless: bool) -> (r: Self)
        ensures
            r.is_seamless == is_seamless,
            r.x_bounds == self.x_bounds,
            r.y_bounds == self.y_bounds,
            r.size == self.size,
            r.source_module == self.source_module,
    {
        PlaneMapBuilder {
            is_seamless,
            x_bounds: self.x_bounds,
            y_bounds: self.y_bounds,
            size: self.size,
            source_module: self.source_module,
        }
    }

    pub fn set_x_bounds(self, lower_x_bound: T, upper_x_bound: T) -> (r: Self)
        ensures
            r.x_bounds == (lower_x_bound, upper_x_bound),
            r.is_seamless == self.is_seamless,
            r.y_bounds == self.y_bounds,
            r.size == self.size,
            r.source_module == self.source_module,
    {
        PlaneMapBuilder {
            is_seamless: self.is_seamless,
            x_bounds: (lower_x_bound, upper_x_bound),
            y_bounds: self.y_bounds,
            size: self.size,
            source_module: self.source_module,
        }
    }

    pub fn set_y_bounds(self, lower_y_bound: T, upper_y_bound: T) -> (r: Self)
        ensures
            r.y_bounds == (lower_y_bound, upper_y_bound),
            r.is_seamless == self.is_seamless,
            r.x_bounds == self.x_bounds,
            r.size == self.size,
            r.source_module == self.source_module,
    {
        PlaneMapBuilder {
            is_seamless: self.is_seamless,
            x_bounds: self.x_bounds,
            y_bounds: (lower_y_bound, upper_y_bound),
            size: self.size,
            source_module: self.source_module,
        }
    }

    pub fn x_bounds(&self) -> (r: (T, T))
        ensures
            r == self.x_bounds,
    {
        self.x_bounds
    }

    pub fn y_bounds(&self) -> (r: (T, T))
        ensures
            r == self.y_bounds,
    {
        self.y_bounds
    }

    /// `field` is the grid that the builder lays over its rectangle: of the
    /// builder's size, the sample of the grid point `(x, y)` at the sample
    /// `x` of the first axis and the sample `y` of the second.
    pub open spec fn lays_out(&self, field: &NoiseField2D<T>) -> bool {
        &&& field.well_formed()
        &&& field.size.width == self.size.0
        &&& field.size.height == self.size.1
        &&& forall|x: nat, y: nat|
            x < self.size.0 && y < self.size.1 ==> {
                &&& (#[trigger] field.coordinates@[index2(self.size.0 as nat, x, y) as int])[0]
                    == axis_sample(self.x_bounds.0, self.x_bounds.1, self.size.0 as u16, x as u16)
                &&& field.coordinates@[index2(self.size.0 as nat, x, y) as int][1] == axis_sample(
                    self.y_bounds.0,
                    self.y_bounds.1,
                    self.size.1 as u16,
                    y as u16,
                )
            }
    }
}

impl<'a, S: ?Sized + NoiseFieldFn<NoiseField2D<T>>, T: Scalar> NoiseMapBuilder<
    'a,
    S,
> for PlaneMapBuilder<'a, S, T> {
    type Scalar = T;

    open spec fn extent(&self) -> (usize, usize) {
        self.size
    }

    open spec fn source(&self) -> &'a S {
        self.source_module
    }

    open spec fn buildable(&self) -> bool {
        &&& total_arithmetic::<T>()
        &&& valid_extent(self.size.0 as nat)
        &&& valid_extent(self.size.1 as nat)
        &&& forall|field: &NoiseField2D<T>|
            self.lays_out(field) ==> self.source_module.accepts(field)
    }

    fn set_size(self, width: usize, height: usize) -> (r: Self) {
        PlaneMapBuilder {
            is_seamless: self.is_seamless,
            x_bounds: self.x_bounds,
            y_bounds: self.y_bounds,
            size: (width, height),
            source_module: self.source_module,
        }
    }

    fn set_source_module(self, source_module: &'a S) -> (r: Self) {
        PlaneMapBuilder {
            is_seamless: self.is_seamless,
            x_bounds: self.x_bounds,
            y_bounds: self.y_bounds,
            size: self.size,
            source_module,
        }
    }

    fn size(&self) -> (r: (usize, usize)) {
        self.size
    }

    /// Builds the map: the value at `(x, y)` is the one that the source
    /// gives to the sample of the grid point `(x, y)` of the grid laid over
    /// the rectangle.
    fn build(&self) -> (r: NoiseMap<T>)
        ensures
            exists|field: &NoiseField2D<T>|
                self.lays_out(field) && r.map@ == #[trigger] self.source_module.output(field),
    {
        let (width, height) = self.size;
        let mut field: NoiseField2D<T> = NoiseField2D::zeroed(width, height);
        field.build_field(self.x_bounds, self.y_bounds);
        assert(self.lays_out(&field));
        let out: NoiseField2D<T> = self.source_module.process_field(&field);
        NoiseMap::from_values(width, height, copy_of(out.values.as_slice()))
    }
}

/// The bounds in order: as they come where the lower one is below the
/// upper one, else exchanged.
pub open spec fn ordered_spec<T: Scalar>(lower_bound: T, upper_bound: T) -> (T, T) {
    if at_most(upper_bound, lower_bound) {
        (upper_bound, lower_bound)
    } else {
        (lower_bound, upper_bound)
    }
}

/// Puts two bounds in order, and says whether it had to exchange them.
pub fn ordered_bounds<T: Scalar>(lower_bound: T, upper_bound: T) -> (r: ((T, T), bool))
    requires
        total_arithmetic::<T>(),
    ensures
        r.0 == ordered_spec(lower_bound, upper_bound),
        r.1 == at_most(upper_bound, lower_bound),
{
    if is_at_most(upper_bound, lower_bound) {
        ((upper_bound, lower_bound), true)
    } else {
        ((lower_bound, upper_bound), false)
    }
}

/// `field` is the one-layer grid of the size `size` whose sample at the
/// grid point `(x, y)` has a coordinate that `place` gives for `(x, y)`.
pub open spec fn placed<T: Copy, P: Fn(usize, usize) -> [T; 3]>(
    field: &NoiseField3D<T>,
    size: (usize, usize),
    place: P,
) -> bool {
    &&& field.well_formed()
    &&& field.size.width == size.0
    &&& field.size.height == size.1
    &&& field.size.depth == 1
    &&& forall|x: usize, y: usize|
        x < size.0 && y < size.1 ==> call_ensures(
            place,
            (x, y),
            #[trigger] field.coordinates@[index3(
                size.0 as nat,
                size.1 as nat,
                x as nat,
                y as nat,
                0,
            ) as int],
        )
}

/// Lays a one-layer grid of the size `size` over a surface in space, runs
/// the source over it and hands the values out as a map. `place` says where
/// on the surface the grid point `(x, y)` lies.
///
/// Fails as a field of that size would: on an extent of zero, and on one
/// that is too large.
pub fn build_layer<T, S, P>(size: (usize, usize), source_module: &S, place: P) -> (r: Result<
    NoiseMap<T>,
    GridError,
>) where
    T: Copy + Default,
    S: ?Sized + NoiseFieldFn<NoiseField3D<T>>,
    P: Fn(usize, usize) -> [T; 3],

    requires
        forall|x: usize, y: usize| x < size.0 && y < size.1 ==> call_requires(place, (x, y)),
        forall|field: &NoiseField3D<T>| placed(field, size, place) ==> source_module.accepts(field),
    ensures
        r is Ok <==> valid_extent(size.0 as nat) && valid_extent(size.1 as nat),
        (size.0 == 0 || size.1 == 0) ==> r == Err::<NoiseMap<T>, GridError>(GridError::Empty),
        size.0 > 0 && size.1 > 0 && !(valid_extent(size.0 as nat) && valid_extent(size.1 as nat))
            ==> r == Err::<NoiseMap<T>, GridError>(GridError::TooLarge),
        r matches Ok(map) ==> {
            &&& map.well_formed()
            &&& map.size == size
            &&& exists|field: &NoiseField3D<T>|
                placed(field, size, place) && map.map@ == #[trigger] source_module.output(field)
        },
{
    if size.0 == 0 || size.1 == 0 {
        return Err(GridError::Empty);
    }
    if size.0 >= MAX_GRID_SIZE as usize || size.1 >= MAX_GRID_SIZE as usize {
        return Err(GridError::TooLarge);
    }
    Ok(layer(size, source_module, place))
}

/// Lays a one-layer grid of a size that a field can have over a surface in
/// space, runs the source over it and hands the values out as a map.
pub fn layer<T, S, P>(size: (usize, usize), source_module: &S, place: P) -> (map: NoiseMap<
    T,
>) where
    T: Copy + Default,
    S: ?Sized + NoiseFieldFn<NoiseField3D<T>>,
    P: Fn(usize, usize) -> [T; 3],

    requires
        valid_extent(size.0 as nat),
        valid_extent(size.1 as nat),
        forall|x: usize, y: usize| x < size.0 && y < size.1 ==> call_requires(place, (x, y)),
        forall|field: &NoiseField3D<T>| placed(field, size, place) ==> source_module.accepts(field),
    ensures
        map.well_formed(),
        map.size == size,
        exists|field: &NoiseField3D<T>|
            placed(field, size, place) && map.map@ == #[trigger] source_module.output(field),
{
    let (width, height) = size;
    assert(width * height * 1 <= 32_766 * 32_766) by (nonlinear_arith)
        requires
            width <= 32_766,
            height <= 32_766,
    ;
    let mut field: NoiseField3D<T> = NoiseField3D::zeroed(width, height, 1);
    let ghost w = width as nat;
    let ghost h = height as nat;
    let mut y: usize = 0;
    while y < height
        invariant
            y <= height,
            w == width,
            h == height,
            field.well_formed(),
            field.size.width == width,
            field.size.height == height,
            field.size.depth == 1,
            forall|x: usize, y: usize| x < width && y < height ==> call_requires(place, (x, y)),
            forall|a: usize, b: usize|
                a < width && b < y ==> call_ensures(
                    place,
                    (a, b),
                    #[trigger] field.coordinates@[index3(w, h, a as nat, b as nat, 0) as int],
                ),
        decreases height - y,
    {
        let mut x: usize = 0;
        while x < width
            invariant
                x <= width,
                y < height,
                w == width,
                h == height,
                field.well_formed(),
                field.size.width == width,
                field.size.height == height,
                field.size.depth == 1,
                forall|x: usize, y: usize| x < width && y < height ==> call_requires(place, (x, y)),
                forall|a: usize, b: usize|
                    a < width && (b < y || (b == y && a < x)) ==> call_ensures(
                        place,
                        (a, b),
                        #[trigger] field.coordinates@[index3(w, h, a as nat, b as nat, 0) as int],
                    ),
            decreases width - x,
        {
            let ghost before = field.coordinates@;
            let point: [T; 3] = place(x, y);
            field.set_coord_at_point([x, y, 0], point);
            assert forall|a: usize, b: usize|
                a < width && (b < y || (b == y && a < x + 1)) implies call_ensures(
                place,
                (a, b),
                #[trigger] field.coordinates@[index3(w, h, a as nat, b as nat, 0) as int],
            ) by {
                lemma_index3_in_range(w, h, 1, a as nat, b as nat, 0);
                lemma_index3_in_range(w, h, 1, x as nat, y as nat, 0);
                if a == x && b == y {
                } else {
                    if index3(w, h, a as nat, b as nat, 0) == index3(w, h, x as nat, y as nat, 0) {
                        lemma_index3_injective(
                            w,
                            h,
                            1,
                            a as nat,
                            b as nat,
                            0,
                            x as nat,
                            y as nat,
                            0,
                        );
                    }
                    assert(field.coordinates@[index3(w, h, a as nat, b as nat, 0) as int]
                        == before[index3(w, h, a as nat, b as nat, 0) as int]);
                }
            }
            x += 1;
        }
        y += 1;
    }
    assert(placed(&field, size, place));
    let out: NoiseField3D<T> = source_module.process_field(&field);
    assert(out.values@.len() == width * height) by {
        out.lemma_one_value_per_point();
        assert(w * h * 1 == w * h) by (nonlinear_arith);
    }
    NoiseMap::from_values(width, height, copy_of(out.values.as_slice()))
}

/// A builder for the side of a cylinder of radius one around the second
/// axis: the first axis of the map runs round the cylinder, by the angle in
/// degrees, the second runs along it.
///
/// The cosine and the sine are the caller's: `trig` returns both for an
/// angle in degrees.
pub struct CylinderMapBuilder<'a, S: ?Sized, T, G> {
    pub angle_bounds: (T, T),
    pub height_bounds: (T, T),
    pub size: (usize, usize),
    pub source_module: &'a S,
    pub trig: G,
}

/// The point of the cylinder at an angle and a height.
pub open spec fn cylinder_point<T: Scalar, G: Fn(T) -> (T, T)>(trig: G, angle: T, height: T) -> [
    T;
    3
] {
    [image(trig, angle).0, height, image(trig, angle).1]
}

impl<'a, S: ?Sized, T: Scalar, G: Fn(T) -> (T, T)> CylinderMapBuilder<'a, S, T, G> {
    /// A builder for the whole way round, from -180 to 180 degrees, and the
    /// heights from -10 to 10, a thousand samples wide and high.
    pub fn new(source_module: &'a S, trig: G) -> (r: Self)
        requires
            total_arithmetic::<T>(),
        ensures
            r.angle_bounds == (number::<T>(180).neg_spec(), number::<T>(180)),
            r.height_bounds == (number::<T>(10).neg_spec(), number::<T>(10)),
            r.size == (1000usize, 1000usize),
            r.source_module == source_module,
            r.trig == trig,
    {
        let half_turn: T = from_number(180u16);
        let ten: T = from_number(10u16);
        CylinderMapBuilder {
            angle_bounds: (half_turn.neg(), half_turn),
            height_bounds: (ten.neg(), ten),
            size: (1000, 1000),
            source_module,
            trig,
        }
    }

    /// Sets the bounds of the angle, in order: bounds that come the wrong
    /// way round are exchanged.
    pub fn set_angle_bounds(self, lower_bound: T, upper_bound: T) -> (r: Self)
        requires
            total_arithmetic::<T>(),
        ensures
            r.angle_bounds == ordered_spec(lower_bound, upper_bound),
            r.height_bounds == self.height_bounds,
            r.size == self.size,
            r.source_module == self.source_module,
            r.trig == self.trig,
    {
        let (angle_bounds, _) = ordered_bounds(lower_bound, upper_bound);
        CylinderMapBuilder {
            angle_bounds,
            height_bounds: self.height_bounds,
            size: self.size,
            source_module: self.source_module,
            trig: self.trig,
        }
    }

    /// Sets the bounds of the height, in order: bounds that come the wrong
    /// way round are exchanged.
    pub fn set_height_bounds(self, lower_bound: T, upper_bound: T) -> (r: Self)
        requires
            total_arithmetic::<T>(),
        ensures
            r.height_bounds == ordered_spec(lower_bound, upper_bound),
            r.angle_bounds == self.angle_bounds,
            r.size == self.size,
            r.source_module == self.source_module,
            r.trig == self.trig,
    {
        let (height_bounds, _) = ordered_bounds(lower_bound, upper_bound);
        CylinderMapBuilder {
            angle_bounds: self.angle_bounds,
            height_bounds,
            size: self.size,
            source_module: self.source_module,
            trig: self.trig,
        }
    }

    pub fn angle_bounds(&self) -> (r: (T, T))
        ensures
            r == self.angle_bounds,
    {
        self.angle_bounds
    }

    pub fn height_bounds(&self) -> (r: (T, T))
        ensures
            r == self.height_bounds,
    {
        self.height_bounds
    }

    /// `field` is the one-layer grid that the builder lays round the
    /// cylinder: the sample of the grid point `(x, y)` at the sample `x` of
    /// the angles and the sample `y` of the heights.
    pub open spec fn lays_out(&self, field: &NoiseField3D<T>) -> bool {
        &&& field.well_formed()
        &&& field.size.width == self.size.0
        &&& field.size.height == self.size.1
        &&& field.size.depth == 1
        &&& forall|x: usize, y: usize|
            x < self.size.0 && y < self.size.1 ==> #[trigger] field.coordinates@[index3(
                self.size.0 as nat,
                self.size.1 as nat,
                x as nat,
                y as nat,
                0,
            ) as int] == cylinder_point(
                self.trig,
                axis_sample(self.angle_bounds.0, self.angle_bounds.1, self.size.0 as u16, x as u16),
                axis_sample(
                    self.height_bounds.0,
                    self.height_bounds.1,
                    self.size.1 as u16,
                    y as u16,
                ),
            )
    }
}

impl<
    'a,
    S: ?Sized + NoiseFieldFn<NoiseField3D<T>>,
    T: Scalar,
    G: Fn(T) -> (T, T),
> NoiseMapBuilder<'a, S> for CylinderMapBuilder<'a, S, T, G> {
    type Scalar = T;

    open spec fn extent(&self) -> (usize, usize) {
        self.size
    }

    open spec fn source(&self) -> &'a S {
        self.source_module
    }

    open spec fn buildable(&self) -> bool {
        &&& total_arithmetic::<T>()
        &&& is_mapping(self.trig)
        &&& valid_extent(self.size.0 as nat)
        &&& valid_extent(self.size.1 as nat)
        &&& forall|field: &NoiseField3D<T>|
            self.lays_out(field) ==> self.source_module.accepts(field)
    }

    fn set_size(self, width: usize, height: usize) -> (r: Self) {
        CylinderMapBuilder {
            angle_bounds: self.angle_bounds,
            height_bounds: self.height_bounds,
            size: (width, height),
            source_module: self.source_module,
            trig: self.trig,
        }
    }

    fn set_source_module(self, source_module: &'a S) -> (r: Self) {
        CylinderMapBuilder {
            angle_bounds: self.angle_bounds,
            height_bounds: self.height_bounds,
            size: self.size,
            source_module,
            trig: self.trig,
        }
    }

    fn size(&self) -> (r: (usize, usize)) {
        self.size
    }

    /// Builds the map: the value at `(x, y)` is the one that the source
    /// gives to the sample of the grid point `(x, y)` of the grid laid round
    /// the cylinder.
    fn build(&self) -> (r: NoiseMap<T>)
        ensures
            exists|field: &NoiseField3D<T>|
                self.lays_out(field) && r.map@ == #[trigger] self.source_module.output(field),
    {
        let (width, height) = self.size;
        let angles: Vec<T> = axis_samples(self.angle_bounds, width as u16);
        let heights: Vec<T> = axis_samples(self.height_bounds, height as u16);
        let trig = &self.trig;
        let place = |x: usize, y: usize| -> (p: [T; 3])
            requires
                x < angles@.len(),
                y < heights@.len(),
                is_mapping(trig),
            ensures
                p == cylinder_point(trig, angles@[x as int], heights@[y as int]),
            {
                let (cosine, sine) = trig(angles[x]);
                [cosine, heights[y], sine]
            };
        assert forall|field: &NoiseField3D<T>| placed(field, self.size, place) implies self.lays_out(
            field,
        ) by {
            assert forall|x: usize, y: usize|
                x < self.size.0 && y < self.size.1 implies #[trigger] field.coordinates@[index3(
                self.size.0 as nat,
                self.size.1 as nat,
                x as nat,
                y as nat,
                0,
            ) as int] == cylinder_point(
                self.trig,
                axis_sample(self.angle_bounds.0, self.angle_bounds.1, self.size.0 as u16, x as u16),
                axis_sample(
                    self.height_bounds.0,
                    self.height_bounds.1,
                    self.size.1 as u16,
                    y as u16,
                ),
            ) by {
                assert(call_ensures(
                    place,
                    (x, y),
                    field.coordinates@[index3(
                        self.size.0 as nat,
                        self.size.1 as nat,
                        x as nat,
                        y as nat,
                        0,
                    ) as int],
                ));
            }
        }
        layer(self.size, self.source_module, place)
    }
}

/// The point of the sphere of the radius `radius` around the origin at a
/// latitude and a longitude, both in degrees: the second axis runs through
/// the poles.
pub open spec fn sphere_point<T: Scalar, G: Fn(T) -> (T, T)>(
    trig: G,
    lat: T,
    lon: T,
    radius: T,
) -> [T; 3] {
    let r = image(trig, lat).0.mul_spec(radius);
    [
        r.mul_spec(image(trig, lon).0),
        image(trig, lat).1.mul_spec(radius),
        r.mul_spec(image(trig, lon).1),
    ]
}

/// Computes the point of a sphere at a latitude and a longitude.
pub fn lat_lon_to_xyz<T: Scalar, G: Fn(T) -> (T, T)>(trig: &G, lat: T, lon: T, radius: T) -> (p: [
    T;
    3
])
    requires
        total_arithmetic::<T>(),
        is_mapping(*trig),
    ensures
        p == sphere_point(*trig, lat, lon, radius),
{
    let (lat_cos, lat_sin) = trig(lat);
    let (lon_cos, lon_sin) = trig(lon);
    let r: T = lat_cos * radius;
    let x: T = r * lon_cos;
    let y: T = lat_sin * radius;
    let z: T = r * lon_sin;
    [x, y, z]
}

/// A builder for the surface of a sphere around the origin: the first axis
/// of the map runs along the longitude, the second along the latitude, both
/// in degrees.
///
/// The cosine and the sine are the caller's: `trig` returns both for an
/// angle in degrees.
pub struct SphereMapBuilder<'a, S: ?Sized, T, G> {
    pub latitude_bounds: (T, T),
    pub longitude_bounds: (T, T),
    pub radius: T,
    pub size: (usize, usize),
    pub source_module: &'a S,
    pub trig: G,
}

impl<'a, S: ?Sized, T: Scalar, G: Fn(T) -> (T, T)> SphereMapBuilder<'a, S, T, G> {
    /// A builder for the whole sphere of the radius ten, from -90 to 90
    /// degrees of latitude and from -180 to 180 degrees of longitude, a
    /// thousand samples wide and high.
    pub fn new(source_module: &'a S, trig: G) -> (r: Self)
        requires
            total_arithmetic::<T>(),
        ensures
            r.latitude_bounds == (number::<T>(90).neg_spec(), number::<T>(90)),
            r.longitude_bounds == (number::<T>(180).neg_spec(), number::<T>(180)),
            r.radius == number::<T>(10),
            r.size == (1000usize, 1000usize),
            r.source_module == source_module,
            r.trig == trig,
    {
        let quarter_turn: T = from_number(90u16);
        let half_turn: T = from_number(180u16);
        SphereMapBuilder {
            latitude_bounds: (quarter_turn.neg(), quarter_turn),
            longitude_bounds: (half_turn.neg(), half_turn),
            radius: from_number(10u16),
            size: (1000, 1000),
            source_module,
            trig,
        }
    }

    pub fn set_latitude_bounds(self, min_lat_bound: T, max_lat_bound: T) -> (r: Self)
        ensures
            r.latitude_bounds == (min_lat_bound, max_lat_bound),
            r.longitude_bounds == self.longitude_bounds,
            r.radius == self.radius,
            r.size == self.size,
            r.source_module == self.source_module,
            r.trig == self.trig,
    {
        SphereMapBuilder {
            latitude_bounds: (min_lat_bound, max_lat_bound),
            longitude_bounds: self.longitude_bounds,
            radius: self.radius,
            size: self.size,
            source_module: self.source_module,
            trig: self.trig,
        }
    }

    pub fn set_longitude_bounds(self, min_lon_bound: T, max_lon_bound: T) -> (r: Self)
        ensures
            r.longitude_bounds == (min_lon_bound, max_lon_bound),
            r.latitude_bounds == self.latitude_bounds,
            r.radius == self.radius,
            r.size == self.size,
            r.source_module == self.source_module,
            r.trig == self.trig,
    {
        SphereMapBuilder {
            latitude_bounds: self.latitude_bounds,
            longitude_bounds: (min_lon_bound, max_lon_bound),
            radius: self.radius,
            size: self.size,
            source_module: self.source_module,
            trig: self.trig,
        }
    }

    pub fn set_bounds(
        self,
        min_lat_bound: T,
        max_lat_bound: T,
        min_lon_bound: T,
        max_lon_bound: T,
    ) -> (r: Self)
        ensures
            r.latitude_bounds == (min_lat_bound, max_lat_bound),
            r.longitude_bounds == (min_lon_bound, max_lon_bound),
            r.radius == self.radius,
            r.size == self.size,
            r.source_module == self.source_module,
            r.trig == self.trig,
    {
        SphereMapBuilder {
            latitude_bounds: (min_lat_bound, max_lat_bound),
            longitude_bounds: (min_lon_bound, max_lon_bound),
            radius: self.radius,
            size: self.size,
            source_module: self.source_module,
            trig: self.trig,
        }
    }

    pub fn set_radius(self, radius: T) -> (r: Self)
        ensures
            r.radius == radius,
            r.latitude_bounds == self.latitude_bounds,
            r.longitude_bounds == self.longitude_bounds,
            r.size == self.size,
            r.source_module == self.source_module,
            r.trig == self.trig,
    {
        SphereMapBuilder {
            latitude_bounds: self.latitude_bounds,
            longitude_bounds: self.longitude_bounds,
            radius,
            size: self.size,
            source_module: self.source_module,
            trig: self.trig,
        }
    }

    pub fn latitude_bounds(&self) -> (r: (T, T))
        ensures
            r == self.latitude_bounds,
    {
        self.latitude_bounds
    }

    pub fn longitude_bounds(&self) -> (r: (T, T))
        ensures
            r == self.longitude_bounds,
    {
        self.longitude_bounds
    }

    /// `field` is the one-layer grid that the builder lays over the sphere:
    /// the sample of the grid point `(x, y)` at the sample `x` of the
    /// longitudes and the sample `y` of the latitudes.
    pub open spec fn lays_out(&self, field: &NoiseField3D<T>) -> bool {
        &&& field.well_formed()
        &&& field.size.width == self.size.0
        &&& field.size.height == self.size.1
        &&& field.size.depth == 1
        &&& forall|x: usize, y: usize|
            x < self.size.0 && y < self.size.1 ==> #[trigger] field.coordinates@[index3(
                self.size.0 as nat,
                self.size.1 as nat,
                x as nat,
                y as nat,
                0,
            ) as int] == sphere_point(
                self.trig,
                axis_sample(
                    self.latitude_bounds.0,
                    self.latitude_bounds.1,
                    self.size.1 as u16,
                    y as u16,
                ),
                axis_sample(
                    self.longitude_bounds.0,
                    self.longitude_bounds.1,
                    self.size.0 as u16,
                    x as u16,
                ),
                self.radius,
            )
    }
}

impl<
    'a,
    S: ?Sized + NoiseFieldFn<NoiseField3D<T>>,
    T: Scalar,
    G: Fn(T) -> (T, T),
> NoiseMapBuilder<'a, S> for SphereMapBuilder<'a, S, T, G> {
    type Scalar = T;

    open spec fn extent(&self) -> (usize, usize) {
        self.size
    }

    open spec fn source(&self) -> &'a S {
        self.source_module
    }

    open spec fn buildable(&self) -> bool {
        &&& total_arithmetic::<T>()
        &&& is_mapping(self.trig)
        &&& valid_extent(self.size.0 as nat)
        &&& valid_extent(self.size.1 as nat)
        &&& forall|field: &NoiseField3D<T>|
            self.lays_out(field) ==> self.source_module.accepts(field)
    }

    fn set_size(self, width: usize, height: usize) -> (r: Self) {
        SphereMapBuilder {
            latitude_bounds: self.latitude_bounds,
            longitude_bounds: self.longitude_bounds,
            radius: self.radius,
            size: (width, height),
            source_module: self.source_module,
            trig: self.trig,
        }
    }

    fn set_source_module(self, source_module: &'a S) -> (r: Self) {
        SphereMapBuilder {
            latitude_bounds: self.latitude_bounds,
            longitude_bounds: self.longitude_bounds,
            radius: self.radius,
            size: self.size,
            source_module,
            trig: self.trig,
        }
    }

    fn size(&self) -> (r: (usize, usize)) {
        self.size
    }

    /// Builds the map: the value at `(x, y)` is the one that the source
    /// gives to the sample of the grid point `(x, y)` of the grid laid over
    /// the sphere.
    fn build(&self) -> (r: NoiseMap<T>)
        ensures
            exists|field: &NoiseField3D<T>|
                self.lays_out(field) && r.map@ == #[trigger] self.source_module.output(field),
    {
        let (width, height) = self.size;
        let longitudes: Vec<T> = axis_samples(self.longitude_bounds, width as u16);
        let latitudes: Vec<T> = axis_samples(self.latitude_bounds, height as u16);
        let trig = &self.trig;
        let radius: T = self.radius;
        let place = |x: usize, y: usize| -> (p: [T; 3])
            requires
                x < longitudes@.len(),
                y < latitudes@.len(),
                total_arithmetic::<T>(),
                is_mapping(trig),
            ensures
                p == sphere_point(trig, latitudes@[y as int], longitudes@[x as int], radius),
            {
                lat_lon_to_xyz(&trig, latitudes[y], longitudes[x], radius)
            };
        assert forall|field: &NoiseField3D<T>| placed(field, self.size, place) implies self.lays_out(
            field,
        ) by {
            assert forall|x: usize, y: usize|
                x < self.size.0 && y < self.size.1 implies #[trigger] field.coordinates@[index3(
                self.size.0 as nat,
                self.size.1 as nat,
                x as nat,
                y as nat,
                0,
            ) as int] == sphere_point(
                self.trig,
                axis_sample(
                    self.latitude_bounds.0,
                    self.latitude_bounds.1,
                    self.size.1 as u16,
                    y as u16,
                ),
                axis_sample(
                    self.longitude_bounds.0,
                    self.longitude_bounds.1,
                    self.size.0 as u16,
                    x as u16,
                ),
                self.radius,
            ) by {
                assert(call_ensures(
                    place,
                    (x, y),
                    field.coordinates@[index3(
                        self.size.0 as nat,
                        self.size.1 as nat,
                        x as nat,
                        y as nat,
                        0,
                    ) as int],
                ));
            }
        }
        layer(self.size, self.source_module, place)
    }
}

} // verus!
