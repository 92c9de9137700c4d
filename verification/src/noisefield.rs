//! Rectangular and volumetric grids of sample coordinates with one value per
//! sample, laid out row by row.
use crate::scalar::{number, total_arithmetic, Scalar};
use vstd::prelude::*;
use vstd::std_specs::ops::{AddSpec, DivSpec, MulSpec, SubSpec};

verus! {

/// Every extent of a grid is above zero and below this.
pub const MAX_GRID_SIZE: u16 = 32_767;

/// Why a grid of the extents asked for cannot be made.
#[derive(Clone, Copy, Debug, PartialEq, Eq, Structural)]
pub enum GridError {
    /// An extent is zero.
    Empty,
    /// No extent is zero, and one is `MAX_GRID_SIZE` or more.
    TooLarge,
}

/// `n` can be the extent of a grid along one axis.
pub open spec fn valid_extent(n: nat) -> bool {
    0 < n < MAX_GRID_SIZE
}

/// What a field holds, whatever its dimension: samples, and one value for
/// each.
pub trait NoiseField: Sized {
    type Scalar: Copy;

    type Point;

    /// The buffers are as long as the grid has samples.
    spec fn well_formed(&self) -> bool;

    /// Extent of the grid along each axis.
    spec fn extents(&self) -> Seq<nat>;

    /// Coordinates of the samples, in row-major order.
    spec fn points(&self) -> Seq<Self::Point>;

    /// Values of the samples, in the order of `points`.
    spec fn value_seq(&self) -> Seq<Self::Scalar>;

    proof fn lemma_one_value_per_point(&self)
        requires
            self.well_formed(),
        ensures
            self.value_seq().len() == self.points().len(),
    ;

    fn values(&self) -> (r: &Vec<Self::Scalar>)
        ensures
            r@ == self.value_seq(),
    ;

    /// The coordinates of the samples, in row-major order.
    fn sample_points(&self) -> (r: &Vec<Self::Point>)
        ensures
            r@ == self.points(),
    ;

    /// A field of its own with the same grid, coordinates and values.
    fn duplicate(&self) -> (r: Self)
        ensures
            r.extents() == self.extents(),
            r.points() == self.points(),
            r.value_seq() == self.value_seq(),
            self.well_formed() ==> r.well_formed(),
    ;

    /// Replaces the values, one for each sample, and nothing else.
    fn set_values(&mut self, values: &[Self::Scalar])
        requires
            old(self).well_formed(),
            values@.len() == old(self).value_seq().len(),
        ensures
            final(self).well_formed(),
            final(self).extents() == old(self).extents(),
            final(self).points() == old(self).points(),
            final(self).value_seq() == values@,
    ;
}

/// A copy of a slice as a vector.
pub fn copy_of<T: Copy>(values: &[T]) -> (r: Vec<T>)
    ensures
        r@ == values@,
{
    let mut out: Vec<T> = Vec::new();
    let mut i: usize = 0;
    while i < values.len()
        invariant
            i <= values@.len(),
            out@ == values@.subrange(0, i as int),
        decreases values@.len() - i,
    {
        out.push(values[i]);
        assert(out@ =~= values@.subrange(0, i + 1));
        i += 1;
    }
    assert(values@.subrange(0, values@.len() as int) =~= values@);
    out
}

/// A vector of `n` copies of `value`.
pub fn filled<T: Copy>(value: T, n: usize) -> (r: Vec<T>)
    ensures
        r@ == Seq::new(n as nat, |i: int| value),
{
    let mut out: Vec<T> = Vec::new();
    let mut i: usize = 0;
    while i < n
        invariant
            i <= n,
            out@ == Seq::new(i as nat, |k: int| value),
        decreases n - i,
    {
        out.push(value);
        assert(out@ =~= Seq::new((i + 1) as nat, |k: int| value));
        i += 1;
    }
    out
}

/// Extents of a two-dimensional grid.
#[derive(Copy, Clone, Debug)]
pub struct GridSize2D {
    pub width: usize,
    pub height: usize,
}

/// Row-major index of the grid point `(x, y)` in a grid `width` wide.
pub open spec fn index2(width: nat, x: nat, y: nat) -> nat {
    x + width * y
}

/// The sample `i` of an axis of `n` samples between the bounds `lo` and
/// `hi`: the samples start at `lo`, lie `(hi - lo) / n` apart, and stop one
/// step short of `hi`.
pub open spec fn axis_sample<T: Scalar>(lo: T, hi: T, n: u16, i: u16) -> T {
    lo.add_spec(hi.sub_spec(lo).div_spec(number::<T>(n)).mul_spec(number::<T>(i)))
}

/// Computes the `n` samples of an axis between two bounds.
pub fn axis_samples<T: Scalar>(bounds: (T, T), n: u16) -> (r: Vec<T>)
    requires
        total_arithmetic::<T>(),
    ensures
        r@.len() == n,
        forall|i: int| 0 <= i < n ==> #[trigger] r@[i] == axis_sample(
            bounds.0,
            bounds.1,
            n,
            i as u16,
        ),
{
    let extent: T = bounds.1 - bounds.0;
    let step: T = extent / T::from(n);
    let mut out: Vec<T> = Vec::new();
    let mut i: u16 = 0;
    while i < n
        invariant
            total_arithmetic::<T>(),
            i <= n,
            out@.len() == i,
            step == bounds.1.sub_spec(bounds.0).div_spec(number::<T>(n)),
            forall|k: int| 0 <= k < i ==> #[trigger] out@[k] == axis_sample(
                bounds.0,
                bounds.1,
                n,
                k as u16,
            ),
        decreases n - i,
    {
        out.push(bounds.0 + step * T::from(i));
        i += 1;
    }
    out
}

/// A two-dimensional field: `width * height` samples, the sample of the grid
/// point `(x, y)` at the index `x + width * y`.
#[derive(Debug)]
pub struct NoiseField2D<T> {
    pub size: GridSize2D,
    pub coordinates: Vec<[T; 2]>,
    pub values: Vec<T>,
}

impl<T: Copy> NoiseField for NoiseField2D<T> {
    type Scalar = T;

    type Point = [T; 2];

    open spec fn well_formed(&self) -> bool {
        &&& valid_extent(self.grid_width())
        &&& valid_extent(self.grid_height())
        &&& self.coordinates@.len() == self.grid_width() * self.grid_height()
        &&& self.values@.len() == self.grid_width() * self.grid_height()
    }

    open spec fn extents(&self) -> Seq<nat> {
        seq![self.grid_width(), self.grid_height()]
    }

    open spec fn points(&self) -> Seq<[T; 2]> {
        self.coordinates@
    }

    open spec fn value_seq(&self) -> Seq<T> {
        self.values@
    }

    proof fn lemma_one_value_per_point(&self) {
    }

    fn values(&self) -> (r: &Vec<T>) {
        &self.values
    }

    fn sample_points(&self) -> (r: &Vec<Self::Point>) {
        &self.coordinates
    }

    fn duplicate(&self) -> (r: Self) {
        self.clone()
    }

    fn set_values(&mut self, values: &[T]) {
        self.values = copy_of(values);
    }
}

impl<T: Copy> Clone for NoiseField2D<T> {
    fn clone(&self) -> (r: Self)
        ensures
            r.grid_width() == self.grid_width(),
            r.grid_height() == self.grid_height(),
            r.coordinates@ == self.coordinates@,
            r.values@ == self.values@,
    {
        NoiseField2D {
            size: self.size,
            coordinates: copy_of(self.coordinates.as_slice()),
            values: copy_of(self.values.as_slice()),
        }
    }
}

impl<T: Copy> NoiseField2D<T> {
    /// Number of samples in a row.
    pub open spec fn grid_width(&self) -> nat {
        self.size.width as nat
    }

    /// Number of rows.
    pub open spec fn grid_height(&self) -> nat {
        self.size.height as nat
    }

    /// The grid point `(x, y)` lies in the grid.
    pub open spec fn contains(&self, point: [usize; 2]) -> bool {
        point[0] < self.grid_width() && point[1] < self.grid_height()
    }

    /// Makes a field of `grid_width * grid_height` samples, every coordinate
    /// and every value the default of the scalar type, or says which rule
    /// the extents break.
    pub fn new(grid_width: usize, grid_height: usize) -> (r: Result<Self, GridError>) where
        T: Default,

        ensures
            r is Ok <==> valid_extent(grid_width as nat) && valid_extent(grid_height as nat),
            (grid_width == 0 || grid_height == 0) ==> r == Err::<Self, GridError>(
                GridError::Empty,
            ),
            (grid_width > 0 && grid_height > 0 && (grid_width >= MAX_GRID_SIZE || grid_height
                >= MAX_GRID_SIZE)) ==> r == Err::<Self, GridError>(GridError::TooLarge),
            r matches Ok(field) ==> {
                &&& field.well_formed()
                &&& field.grid_width() == grid_width
                &&& field.grid_height() == grid_height
                &&& exists|zero: T|
                    {
                        &&& call_ensures(T::default, (), zero)
                        &&& forall|i: int|
                            0 <= i < field.values@.len() ==> #[trigger] field.values@[i] == zero
                        &&& forall|i: int|
                            0 <= i < field.coordinates@.len() ==> {
                                &&& (#[trigger] field.coordinates@[i])[0] == zero
                                &&& field.coordinates@[i][1] == zero
                            }
                    }
            },
    {
        if grid_width == 0 || grid_height == 0 {
            return Err(GridError::Empty);
        }
        if grid_width >= MAX_GRID_SIZE as usize || grid_height >= MAX_GRID_SIZE as usize {
            return Err(GridError::TooLarge);
        }
        Ok(Self::zeroed(grid_width, grid_height))
    }

    /// The field of `grid_width * grid_height` samples with every
    /// coordinate and every value the default of the scalar type, for
    /// extents that are known to be in range.
    pub fn zeroed(grid_width: usize, grid_height: usize) -> (field: Self) where T: Default
        requires
            valid_extent(grid_width as nat),
            valid_extent(grid_height as nat),
        ensures
            field.well_formed(),
            field.grid_width() == grid_width,
            field.grid_height() == grid_height,
            exists|zero: T|
                {
                    &&& call_ensures(T::default, (), zero)
                    &&& forall|i: int|
                        0 <= i < field.values@.len() ==> #[trigger] field.values@[i] == zero
                    &&& forall|i: int|
                        0 <= i < field.coordinates@.len() ==> {
                            &&& (#[trigger] field.coordinates@[i])[0] == zero
                            &&& field.coordinates@[i][1] == zero
                        }
                },
    {
        assert(grid_width * grid_height <= 32_766 * 32_766) by (nonlinear_arith)
            requires
                grid_width <= 32_766,
                grid_height <= 32_766,
        ;
        let grid_size: usize = grid_width * grid_height;
        let zero: T = T::default();
        NoiseField2D {
            size: GridSize2D { width: grid_width, height: grid_height },
            coordinates: filled([zero, zero], grid_size),
            values: filled(zero, grid_size),
        }
    }

    /// The extents of the grid: width, then height.
    pub fn size(&self) -> (r: [usize; 2])
        ensures
            r[0] == self.grid_width(),
            r[1] == self.grid_height(),
    {
        [self.size.width, self.size.height]
    }

    pub fn coordinates(&self) -> (r: &Vec<[T; 2]>)
        ensures
            r@ == self.coordinates@,
    {
        &self.coordinates
    }

    /// Row-major index of a grid point.
    pub fn index(&self, point: [usize; 2]) -> (r: usize)
        requires
            self.well_formed(),
            self.contains(point),
        ensures
            r == index2(self.grid_width(), point[0] as nat, point[1] as nat),
            r < self.grid_width() * self.grid_height(),
    {
        proof {
            lemma_index2_in_range(
                self.grid_width(),
                self.grid_height(),
                point[0] as nat,
                point[1] as nat,
            );
            assert(self.size.width * point[1] <= 32_766 * 32_766) by (nonlinear_arith)
                requires
                    self.size.width <= 32_766,
                    point[1] <= 32_766,
            ;
        }
        point[0] + self.size.width * point[1]
    }

    /// Coordinate of the sample at a grid point.
    pub fn coord_at_point(&self, point: [usize; 2]) -> (r: [T; 2])
        requires
            self.well_formed(),
            self.contains(point),
        ensures
            r == self.coordinates@[index2(
                self.grid_width(),
                point[0] as nat,
                point[1] as nat,
            ) as int],
    {
        let index: usize = self.index(point);
        self.coordinates[index]
    }

    /// Sets the coordinate of the sample at a grid point, and nothing else.
    pub fn set_coord_at_point(&mut self, point: [usize; 2], coordinate: [T; 2])
        requires
            old(self).well_formed(),
            old(self).contains(point),
        ensures
            final(self).well_formed(),
            final(self).grid_width() == old(self).grid_width(),
            final(self).grid_height() == old(self).grid_height(),
            final(self).values@ == old(self).values@,
            final(self).coordinates@ == old(self).coordinates@.update(
                index2(old(self).grid_width(), point[0] as nat, point[1] as nat) as int,
                coordinate,
            ),
    {
        let index: usize = self.index(point);
        self.coordinates[index] = coordinate;
    }

    /// Value of the sample at a grid point.
    pub fn value_at_point(&self, point: [usize; 2]) -> (r: T)
        requires
            self.well_formed(),
            self.contains(point),
        ensures
            r == self.values@[index2(self.grid_width(), point[0] as nat, point[1] as nat) as int],
    {
        let index: usize = self.index(point);
        self.values[index]
    }

    /// Value of the sample at a row-major index.
    pub fn value_at_index(&self, index: usize) -> (r: T)
        requires
            index < self.values@.len(),
        ensures
            r == self.values@[index as int],
    {
        self.values[index]
    }

    /// A copy of the field with every coordinate multiplied by `scale`.
    pub fn scale_coordinates(&self, scale: T) -> (r: Self) where T: Scalar
        requires
            self.well_formed(),
            total_arithmetic::<T>(),
        ensures
            r.well_formed(),
            r.size == self.size,
            r.values@ == self.values@,
            r.coordinates@.len() == self.coordinates@.len(),
            forall|i: int|
                0 <= i < self.coordinates@.len() ==> {
                    &&& (#[trigger] r.coordinates@[i])[0] == self.coordinates@[i][0].mul_spec(scale)
                    &&& r.coordinates@[i][1] == self.coordinates@[i][1].mul_spec(scale)
                },
    {
        let mut scaled: Vec<[T; 2]> = Vec::new();
        let mut i: usize = 0;
        while i < self.coordinates.len()
            invariant
                total_arithmetic::<T>(),
                i <= self.coordinates@.len(),
                scaled@.len() == i,
                forall|k: int|
                    0 <= k < i ==> {
                        &&& (#[trigger] scaled@[k])[0] == self.coordinates@[k][0].mul_spec(scale)
                        &&& scaled@[k][1] == self.coordinates@[k][1].mul_spec(scale)
                    },
            decreases self.coordinates@.len() - i,
        {
            let p: [T; 2] = self.coordinates[i];
            scaled.push([p[0] * scale, p[1] * scale]);
            i += 1;
        }
        NoiseField2D {
            size: self.size,
            coordinates: scaled,
            values: copy_of(self.values.as_slice()),
        }
    }

    /// Lays the samples out evenly between the bounds of each axis: the
    /// sample of the grid point `(x, y)` gets the coordinate made of sample
    /// `x` of the first axis and sample `y` of the second. The values stay.
    pub fn build_field(&mut self, x_bounds: (T, T), y_bounds: (T, T)) where T: Scalar
        requires
            old(self).well_formed(),
            total_arithmetic::<T>(),
        ensures
            final(self).well_formed(),
            final(self).size == old(self).size,
            final(self).values@ == old(self).values@,
            forall|x: nat, y: nat|
                x < old(self).grid_width() && y < old(self).grid_height() ==> {
                    &&& (#[trigger] final(self).coordinates@[index2(
                        old(self).grid_width(),
                        x,
                        y,
                    ) as int])[0] == axis_sample(
                        x_bounds.0,
                        x_bounds.1,
                        old(self).grid_width() as u16,
                        x as u16,
                    )
                    &&& final(self).coordinates@[index2(old(self).grid_width(), x, y) as int][1]
                        == axis_sample(
                        y_bounds.0,
                        y_bounds.1,
                        old(self).grid_height() as u16,
                        y as u16,
                    )
                },
    {
        let width: usize = self.size.width;
        let height: usize = self.size.height;
        let xs: Vec<T> = axis_samples(x_bounds, width as u16);
        let ys: Vec<T> = axis_samples(y_bounds, height as u16);
        let mut y: usize = 0;
        while y < height
            invariant
                y <= height,
                width == self.size.width,
                height == self.size.height,
                self.size == old(self).size,
                self.values@ == old(self).values@,
                self.well_formed(),
                xs@.len() == width,
                ys@.len() == height,
                forall|a: nat, b: nat|
                    a < width && b < y ==> {
                        &&& (#[trigger] self.coordinates@[index2(width as nat, a, b) as int])[0]
                            == xs@[a as int]
                        &&& self.coordinates@[index2(width as nat, a, b) as int][1] == ys@[b as int]
                    },
            decreases height - y,
        {
            let mut x: usize = 0;
            while x < width
                invariant
                    x <= width,
                    y < height,
                    width == self.size.width,
                    height == self.size.height,
                    self.size == old(self).size,
                    self.values@ == old(self).values@,
                    self.well_formed(),
                    xs@.len() == width,
                    ys@.len() == height,
                    forall|a: nat, b: nat|
                        a < width && (b < y || (b == y && a < x)) ==> {
                            &&& (#[trigger] self.coordinates@[index2(width as nat, a, b) as int])[0]
                                == xs@[a as int]
                            &&& self.coordinates@[index2(width as nat, a, b) as int][1]
                                == ys@[b as int]
                        },
                decreases width - x,
            {
                let ghost before = self.coordinates@;
                self.set_coord_at_point([x, y], [xs[x], ys[y]]);
                assert forall|a: nat, b: nat|
                    a < width && (b < y || (b == y && a < x + 1)) implies {
                    &&& (#[trigger] self.coordinates@[index2(width as nat, a, b) as int])[0]
                        == xs@[a as int]
                    &&& self.coordinates@[index2(width as nat, a, b) as int][1] == ys@[b as int]
                } by {
                    lemma_index2_in_range(width as nat, height as nat, a, b);
                    if a == x && b == y {
                    } else {
                        if index2(width as nat, a, b) == index2(width as nat, x as nat, y as nat) {
                            lemma_index2_injective(
                                width as nat,
                                height as nat,
                                a,
                                b,
                                x as nat,
                                y as nat,
                            );
                        }
                        lemma_index2_in_range(width as nat, height as nat, x as nat, y as nat);
                        assert(self.coordinates@[index2(width as nat, a, b) as int]
                            == before[index2(width as nat, a, b) as int]);
                    }
                }
                x += 1;
            }
            y += 1;
        }
    }

    /// The smallest field: one sample, its coordinate and its value the
    /// default of the scalar type.
    pub fn initialize() -> (r: Self) where T: Default
        ensures
            r.well_formed(),
            r.grid_width() == 1,
            r.grid_height() == 1,
            r.coordinates@.len() == 1,
            r.values@.len() == 1,
            exists|zero: T|
                {
                    &&& call_ensures(T::default, (), zero)
                    &&& r.values@[0] == zero
                    &&& r.coordinates@[0][0] == zero
                    &&& r.coordinates@[0][1] == zero
                },
    {
        Self::zeroed(1, 1)
    }
}

/// Inside a grid the row-major index stays below the number of samples, and
/// no two grid points share one.
pub proof fn lemma_index2_in_range(width: nat, height: nat, x: nat, y: nat)
    requires
        x < width,
        y < height,
    ensures
        index2(width, x, y) < width * height,
        index2(width, x, y) % width == x,
        index2(width, x, y) / width == y,
{
    assert(width * y + width <= width * height) by (nonlinear_arith)
        requires
            y + 1 <= height,
    ;
    vstd::arithmetic::div_mod::lemma_fundamental_div_mod_converse(
        index2(width, x, y) as int,
        width as int,
        y as int,
        x as int,
    );
}

/// Two grid points of one grid with the same row-major index are the same
/// point.
pub proof fn lemma_index2_injective(width: nat, height: nat, x1: nat, y1: nat, x2: nat, y2: nat)
    requires
        x1 < width,
        y1 < height,
        x2 < width,
        y2 < height,
        index2(width, x1, y1) == index2(width, x2, y2),
    ensures
        x1 == x2,
        y1 == y2,
{
    lemma_index2_in_range(width, height, x1, y1);
    lemma_index2_in_range(width, height, x2, y2);
}

/// Extents of a three-dimensional grid.
#[derive(Copy, Clone, Debug)]
pub struct GridSize3D {
    pub width: usize,
    pub height: usize,
    pub depth: usize,
}

/// Row-major index of the grid point `(x, y, z)` in a grid `width` wide and
/// `height` high.
pub open spec fn index3(width: nat, height: nat, x: nat, y: nat, z: nat) -> nat {
    x + width * y + width * height * z
}

/// Inside a grid the row-major index stays below the number of samples, and
/// the grid point can be read back from it.
pub proof fn lemma_index3_in_range(width: nat, height: nat, depth: nat, x: nat, y: nat, z: nat)
    requires
        x < width,
        y < height,
        z < depth,
    ensures
        index3(width, height, x, y, z) < width * height * depth,
        index3(width, height, x, y, z) == index2(width * height, index2(width, x, y), z),
        index3(width, height, x, y, z) / (width * height) == z,
        index3(width, height, x, y, z) % (width * height) == index2(width, x, y),
{
    lemma_index2_in_range(width, height, x, y);
    lemma_index2_in_range(width * height, depth, index2(width, x, y), z);
}

/// Two grid points of one grid with the same row-major index are the same
/// point.
pub proof fn lemma_index3_injective(
    width: nat,
    height: nat,
    depth: nat,
    x1: nat,
    y1: nat,
    z1: nat,
    x2: nat,
    y2: nat,
    z2: nat,
)
    requires
        x1 < width,
        y1 < height,
        z1 < depth,
        x2 < width,
        y2 < height,
        z2 < depth,
        index3(width, height, x1, y1, z1) == index3(width, height, x2, y2, z2),
    ensures
        x1 == x2,
        y1 == y2,
        z1 == z2,
{
    lemma_index3_in_range(width, height, depth, x1, y1, z1);
    lemma_index3_in_range(width, height, depth, x2, y2, z2);
    lemma_index2_injective(width, height, x1, y1, x2, y2);
}

/// A three-dimensional field: `width * height * depth` samples, the sample
/// of the grid point `(x, y, z)` at the index
/// `x + width * y + width * height * z`.
#[derive(Debug)]
pub struct NoiseField3D<T> {
    pub size: GridSize3D,
    pub coordinates: Vec<[T; 3]>,
    pub values: Vec<T>,
}

impl<T: Copy> NoiseField for NoiseField3D<T> {
    type Scalar = T;

    type Point = [T; 3];

    open spec fn well_formed(&self) -> bool {
        &&& valid_extent(self.grid_width())
        &&& valid_extent(self.grid_height())
        &&& valid_extent(self.grid_depth())
        &&& self.grid_width() * self.grid_height() * self.grid_depth() <= usize::MAX
        &&& self.coordinates@.len() == self.grid_width() * self.grid_height() * self.grid_depth()
        &&& self.values@.len() == self.grid_width() * self.grid_height() * self.grid_depth()
    }

    open spec fn extents(&self) -> Seq<nat> {
        seq![self.grid_width(), self.grid_height(), self.grid_depth()]
    }

    open spec fn points(&self) -> Seq<[T; 3]> {
        self.coordinates@
    }

    open spec fn value_seq(&self) -> Seq<T> {
        self.values@
    }

    proof fn lemma_one_value_per_point(&self) {
    }

    fn values(&self) -> (r: &Vec<T>) {
        &self.values
    }

    fn sample_points(&self) -> (r: &Vec<Self::Point>) {
        &self.coordinates
    }

    fn duplicate(&self) -> (r: Self) {
        self.clone()
    }

    fn set_values(&mut self, values: &[T]) {
        self.values = copy_of(values);
    }
}

impl<T: Copy> Clone for NoiseField3D<T> {
    fn clone(&self) -> (r: Self)
        ensures
            r.size == self.size,
            r.coordinates@ == self.coordinates@,
            r.values@ == self.values@,
    {
        NoiseField3D {
            size: self.size,
            coordinates: copy_of(self.coordinates.as_slice()),
            values: copy_of(self.values.as_slice()),
        }
    }
}

impl<T: Copy> NoiseField3D<T> {
    /// Number of samples in a row.
    pub open spec fn grid_width(&self) -> nat {
        self.size.width as nat
    }

    /// Number of rows in a layer.
    pub open spec fn grid_height(&self) -> nat {
        self.size.height as nat
    }

    /// Number of layers.
    pub open spec fn grid_depth(&self) -> nat {
        self.size.depth as nat
    }

    /// The grid point `(x, y, z)` lies in the grid.
    pub open spec fn contains(&self, point: [usize; 3]) -> bool {
        point[0] < self.grid_width() && point[1] < self.grid_height() && point[2]
            < self.grid_depth()
    }

    /// Makes a field of `width * height * depth` samples, every coordinate
    /// and every value the default of the scalar type, or says which rule
    /// the extents break. Extents that are each in range and whose product
    /// no index of this machine can hold count as too large.
    pub fn new(width: usize, height: usize, depth: usize) -> (r: Result<Self, GridError>) where
        T: Default,

        ensures
            r is Ok <==> valid_extent(width as nat) && valid_extent(height as nat) && valid_extent(
                depth as nat,
            ) && width * height * depth <= usize::MAX,
            (width == 0 || height == 0 || depth == 0) ==> r == Err::<Self, GridError>(
                GridError::Empty,
            ),
            (width > 0 && height > 0 && depth > 0 && (width >= MAX_GRID_SIZE || height
                >= MAX_GRID_SIZE || depth >= MAX_GRID_SIZE || width * height * depth > usize::MAX))
                ==> r == Err::<Self, GridError>(GridError::TooLarge),
            r matches Ok(field) ==> {
                &&& field.well_formed()
                &&& field.grid_width() == width
                &&& field.grid_height() == height
                &&& field.grid_depth() == depth
                &&& exists|zero: T|
                    {
                        &&& call_ensures(T::default, (), zero)
                        &&& forall|i: int|
                            0 <= i < field.values@.len() ==> #[trigger] field.values@[i] == zero
                        &&& forall|i: int|
                            0 <= i < field.coordinates@.len() ==> {
                                &&& (#[trigger] field.coordinates@[i])[0] == zero
                                &&& field.coordinates@[i][1] == zero
                                &&& field.coordinates@[i][2] == zero
                            }
                    }
            },
    {
        if width == 0 || height == 0 || depth == 0 {
            return Err(GridError::Empty);
        }
        if width >= MAX_GRID_SIZE as usize || height >= MAX_GRID_SIZE as usize || depth
            >= MAX_GRID_SIZE as usize {
            return Err(GridError::TooLarge);
        }
        assert(width * height <= 32_766 * 32_766) by (nonlinear_arith)
            requires
                width <= 32_766,
                height <= 32_766,
        ;
        let layer: usize = width * height;
        match layer.checked_mul(depth) {
            Some(_) => Ok(Self::zeroed(width, height, depth)),
            None => Err(GridError::TooLarge),
        }
    }

    /// The field of `width * height * depth` samples with every coordinate
    /// and every value the default of the scalar type, for extents that are
    /// known to be in range.
    pub fn zeroed(width: usize, height: usize, depth: usize) -> (field: Self) where T: Default
        requires
            valid_extent(width as nat),
            valid_extent(height as nat),
            valid_extent(depth as nat),
            width * height * depth <= usize::MAX,
        ensures
            field.well_formed(),
            field.grid_width() == width,
            field.grid_height() == height,
            field.grid_depth() == depth,
            exists|zero: T|
                {
                    &&& call_ensures(T::default, (), zero)
                    &&& forall|i: int|
                        0 <= i < field.values@.len() ==> #[trigger] field.values@[i] == zero
                    &&& forall|i: int|
                        0 <= i < field.coordinates@.len() ==> {
                            &&& (#[trigger] field.coordinates@[i])[0] == zero
                            &&& field.coordinates@[i][1] == zero
                            &&& field.coordinates@[i][2] == zero
                        }
                },
    {
        assert(width * height <= 32_766 * 32_766) by (nonlinear_arith)
            requires
                width <= 32_766,
                height <= 32_766,
        ;
        let grid_size: usize = width * height * depth;
        let zero: T = T::default();
        NoiseField3D {
            size: GridSize3D { width, height, depth },
            coordinates: filled([zero, zero, zero], grid_size),
            values: filled(zero, grid_size),
        }
    }

    /// The extents of the grid: width, height, depth.
    pub fn size(&self) -> (r: [usize; 3])
        ensures
            r[0] == self.grid_width(),
            r[1] == self.grid_height(),
            r[2] == self.grid_depth(),
    {
        [self.size.width, self.size.height, self.size.depth]
    }

    pub fn coordinates(&self) -> (r: &Vec<[T; 3]>)
        ensures
            r@ == self.coordinates@,
    {
        &self.coordinates
    }

    /// Row-major index of a grid point.
    pub fn index(&self, point: [usize; 3]) -> (r: usize)
        requires
            self.well_formed(),
            self.contains(point),
        ensures
            r == index3(
                self.grid_width(),
                self.grid_height(),
                point[0] as nat,
                point[1] as nat,
                point[2] as nat,
            ),
            r < self.grid_width() * self.grid_height() * self.grid_depth(),
    {
        proof {
            lemma_index3_in_range(
                self.grid_width(),
                self.grid_height(),
                self.grid_depth(),
                point[0] as nat,
                point[1] as nat,
                point[2] as nat,
            );
            let x = point[0] as int;
            let y = point[1] as int;
            let z = point[2] as int;
            let w = self.size.width as int;
            let h = self.size.height as int;
            let d = self.size.depth as int;
            assert(y * w == w * y) by (nonlinear_arith);
            assert(w * y <= 32_766 * 32_766) by (nonlinear_arith)
                requires
                    0 <= w <= 32_766,
                    0 <= y <= 32_766,
            ;
            assert(z * w <= 32_766 * 32_766 && 0 <= z * w) by (nonlinear_arith)
                requires
                    0 <= w <= 32_766,
                    0 <= z <= 32_766,
            ;
            assert(z * w * h == w * h * z) by (nonlinear_arith);
            assert(0 <= w * h * z) by (nonlinear_arith)
                requires
                    0 <= w,
                    0 <= h,
                    0 <= z,
            ;
            assert(0 <= w * y) by (nonlinear_arith)
                requires
                    0 <= w,
                    0 <= y,
            ;
        }
        point[0] + (point[1] * self.size.width) + (point[2] * self.size.width * self.size.height)
    }

    /// Coordinate of the sample at a grid point.
    pub fn coord_at_point(&self, point: [usize; 3]) -> (r: [T; 3])
        requires
            self.well_formed(),
            self.contains(point),
        ensures
            r == self.coordinates@[index3(
                self.grid_width(),
                self.grid_height(),
                point[0] as nat,
                point[1] as nat,
                point[2] as nat,
            ) as int],
    {
        let index: usize = self.index(point);
        self.coordinates[index]
    }

    /// Sets the coordinate of the sample at a grid point, and nothing else.
    pub fn set_coord_at_point(&mut self, point: [usize; 3], coordinate: [T; 3])
        requires
            old(self).well_formed(),
            old(self).contains(point),
        ensures
            final(self).well_formed(),
            final(self).size == old(self).size,
            final(self).values@ == old(self).values@,
            final(self).coordinates@ == old(self).coordinates@.update(
                index3(
                    old(self).grid_width(),
                    old(self).grid_height(),
                    point[0] as nat,
                    point[1] as nat,
                    point[2] as nat,
                ) as int,
                coordinate,
            ),
    {
        let index: usize = self.index(point);
        self.coordinates[index] = coordinate;
    }

    /// Value of the sample at a grid point.
    pub fn value_at_point(&self, grid_point: [usize; 3]) -> (r: T)
        requires
            self.well_formed(),
            self.contains(grid_point),
        ensures
            r == self.values@[index3(
                self.grid_width(),
                self.grid_height(),
                grid_point[0] as nat,
                grid_point[1] as nat,
                grid_point[2] as nat,
            ) as int],
    {
        let index: usize = self.index(grid_point);
        self.values[index]
    }

    /// Value of the sample at a row-major index.
    pub fn value_at_index(&self, index: usize) -> (r: T)
        requires
            index < self.values@.len(),
        ensures
            r == self.values@[index as int],
    {
        self.values[index]
    }

    /// A copy of the field with every coordinate multiplied by `scale`.
    pub fn scale_coordinates(&self, scale: T) -> (r: Self) where T: Scalar
        requires
            self.well_formed(),
            total_arithmetic::<T>(),
        ensures
            r.well_formed(),
            r.size == self.size,
            r.values@ == self.values@,
            r.coordinates@.len() == self.coordinates@.len(),
            forall|i: int|
                0 <= i < self.coordinates@.len() ==> {
                    &&& (#[trigger] r.coordinates@[i])[0] == self.coordinates@[i][0].mul_spec(scale)
                    &&& r.coordinates@[i][1] == self.coordinates@[i][1].mul_spec(scale)
                    &&& r.coordinates@[i][2] == self.coordinates@[i][2].mul_spec(scale)
                },
    {
        let mut scaled: Vec<[T; 3]> = Vec::new();
        let mut i: usize = 0;
        while i < self.coordinates.len()
            invariant
                total_arithmetic::<T>(),
                i <= self.coordinates@.len(),
                scaled@.len() == i,
                forall|k: int|
                    0 <= k < i ==> {
                        &&& (#[trigger] scaled@[k])[0] == self.coordinates@[k][0].mul_spec(scale)
                        &&& scaled@[k][1] == self.coordinates@[k][1].mul_spec(scale)
                        &&& scaled@[k][2] == self.coordinates@[k][2].mul_spec(scale)
                    },
            decreases self.coordinates@.len() - i,
        {
            let p: [T; 3] = self.coordinates[i];
            scaled.push([p[0] * scale, p[1] * scale, p[2] * scale]);
            i += 1;
        }
        NoiseField3D {
            size: self.size,
            coordinates: scaled,
            values: copy_of(self.values.as_slice()),
        }
    }

    /// The coordinate that `build_field` gives the sample of a grid point.
    pub open spec fn built_point(
        &self,
        x_bounds: (T, T),
        y_bounds: (T, T),
        z_bounds: (T, T),
        x: nat,
        y: nat,
        z: nat,
        p: [T; 3],
    ) -> bool where T: Scalar {
        &&& p[0] == axis_sample(x_bounds.0, x_bounds.1, self.grid_width() as u16, x as u16)
        &&& p[1] == axis_sample(y_bounds.0, y_bounds.1, self.grid_height() as u16, y as u16)
        &&& p[2] == axis_sample(z_bounds.0, z_bounds.1, self.grid_depth() as u16, z as u16)
    }

    /// Lays the samples out evenly between the bounds of each axis: the
    /// sample of the grid point `(x, y, z)` gets the coordinate made of
    /// sample `x` of the first axis, sample `y` of the second and sample `z`
    /// of the third. The values stay.
    pub fn build_field(&mut self, x_bounds: (T, T), y_bounds: (T, T), z_bounds: (T, T)) where
        T: Scalar,

        requires
            old(self).well_formed(),
            total_arithmetic::<T>(),
        ensures
            final(self).well_formed(),
            final(self).size == old(self).size,
            final(self).values@ == old(self).values@,
            forall|x: nat, y: nat, z: nat|
                x < old(self).grid_width() && y < old(self).grid_height() && z < old(
                    self,
                ).grid_depth() ==> old(self).built_point(
                    x_bounds,
                    y_bounds,
                    z_bounds,
                    x,
                    y,
                    z,
                    #[trigger] final(self).coordinates@[index3(
                        old(self).grid_width(),
                        old(self).grid_height(),
                        x,
                        y,
                        z,
                    ) as int],
                ),
    {
        let width: usize = self.size.width;
        let height: usize = self.size.height;
        let depth: usize = self.size.depth;
        let xs: Vec<T> = axis_samples(x_bounds, width as u16);
        let ys: Vec<T> = axis_samples(y_bounds, height as u16);
        let zs: Vec<T> = axis_samples(z_bounds, depth as u16);
        let ghost w = width as nat;
        let ghost h = height as nat;
        let mut z: usize = 0;
        while z < depth
            invariant
                z <= depth,
                w == width,
                h == height,
                self.size == old(self).size,
                self.size == (GridSize3D { width, height, depth }),
                self.values@ == old(self).values@,
                self.well_formed(),
                xs@.len() == width,
                ys@.len() == height,
                zs@.len() == depth,
                forall|a: nat, b: nat, c: nat|
                    a < width && b < height && c < z ==> {
                        &&& (#[trigger] self.coordinates@[index3(w, h, a, b, c) as int])[0]
                            == xs@[a as int]
                        &&& self.coordinates@[index3(w, h, a, b, c) as int][1] == ys@[b as int]
                        &&& self.coordinates@[index3(w, h, a, b, c) as int][2] == zs@[c as int]
                    },
            decreases depth - z,
        {
            let mut y: usize = 0;
            while y < height
                invariant
                    y <= height,
                    z < depth,
                    w == width,
                    h == height,
                    self.size == old(self).size,
                    self.size == (GridSize3D { width, height, depth }),
                    self.values@ == old(self).values@,
                    self.well_formed(),
                    xs@.len() == width,
                    ys@.len() == height,
                    zs@.len() == depth,
                    forall|a: nat, b: nat, c: nat|
                        a < width && b < height && (c < z || (c == z && b < y)) ==> {
                            &&& (#[trigger] self.coordinates@[index3(w, h, a, b, c) as int])[0]
                                == xs@[a as int]
                            &&& self.coordinates@[index3(w, h, a, b, c) as int][1] == ys@[b as int]
                            &&& self.coordinates@[index3(w, h, a, b, c) as int][2] == zs@[c as int]
                        },
                decreases height - y,
            {
                let mut x: usize = 0;
                while x < width
                    invariant
                        x <= width,
                        y < height,
                        z < depth,
                        w == width,
                        h == height,
                        self.size == old(self).size,
                        self.size == (GridSize3D { width, height, depth }),
                        self.values@ == old(self).values@,
                        self.well_formed(),
                        xs@.len() == width,
                        ys@.len() == height,
                        zs@.len() == depth,
                        forall|a: nat, b: nat, c: nat|
                            a < width && b < height && (c < z || (c == z && (b < y || (b == y && a
                                < x)))) ==> {
                                &&& (#[trigger] self.coordinates@[index3(w, h, a, b, c) as int])[0]
                                    == xs@[a as int]
                                &&& self.coordinates@[index3(w, h, a, b, c) as int][1]
                                    == ys@[b as int]
                                &&& self.coordinates@[index3(w, h, a, b, c) as int][2]
                                    == zs@[c as int]
                            },
                    decreases width - x,
                {
                    let ghost before = self.coordinates@;
                    self.set_coord_at_point([x, y, z], [xs[x], ys[y], zs[z]]);
                    assert forall|a: nat, b: nat, c: nat|
                        a < width && b < height && (c < z || (c == z && (b < y || (b == y && a < x
                            + 1)))) implies {
                        &&& (#[trigger] self.coordinates@[index3(w, h, a, b, c) as int])[0]
                            == xs@[a as int]
                        &&& self.coordinates@[index3(w, h, a, b, c) as int][1] == ys@[b as int]
                        &&& self.coordinates@[index3(w, h, a, b, c) as int][2] == zs@[c as int]
                    } by {
                        lemma_index3_in_range(w, h, depth as nat, a, b, c);
                        lemma_index3_in_range(w, h, depth as nat, x as nat, y as nat, z as nat);
                        if a == x && b == y && c == z {
                        } else {
                            if index3(w, h, a, b, c) == index3(w, h, x as nat, y as nat, z as nat) {
                                lemma_index3_injective(
                                    w,
                                    h,
                                    depth as nat,
                                    a,
                                    b,
                                    c,
                                    x as nat,
                                    y as nat,
                                    z as nat,
                                );
                            }
                            assert(self.coordinates@[index3(w, h, a, b, c) as int]
                                == before[index3(w, h, a, b, c) as int]);
                        }
                    }
                    x += 1;
                }
                y += 1;
            }
            z += 1;
        }
    }

    /// The smallest field: one sample, its coordinate and its value the
    /// default of the scalar type.
    pub fn initialize() -> (r: Self) where T: Default
        ensures
            r.well_formed(),
            r.grid_width() == 1,
            r.grid_height() == 1,
            r.grid_depth() == 1,
            r.coordinates@.len() == 1,
            r.values@.len() == 1,
            exists|zero: T|
                {
                    &&& call_ensures(T::default, (), zero)
                    &&& r.values@[0] == zero
                    &&& r.coordinates@[0][0] == zero
                    &&& r.coordinates@[0][1] == zero
                    &&& r.coordinates@[0][2] == zero
                },
    {
        Self::zeroed(1, 1, 1)
    }
}

} // verus!
