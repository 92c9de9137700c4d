use vstd::prelude::*;

verus! {

/// A rectangle of values, row by row: the value of `(x, y)` stands at
/// `x + width * y`.
#[derive(Debug)]
pub struct NoiseMap<T> {
    pub size: (usize, usize),
    pub map: Vec<T>,
}

impl<T: Copy> NoiseMap<T> {
    /// The map holds one value for each of its `width * height` places.
    pub open spec fn well_formed(&self) -> bool {
        self.map@.len() == self.size.0 * self.size.1
    }

    /// The place `(x, y)` lies in the map.
    pub open spec fn contains(&self, x: usize, y: usize) -> bool {
        x < self.size.0 && y < self.size.1
    }

    /// A map of the size of `values`, row by row, where `values` has one
    /// for each place.
    pub fn from_values(width: usize, height: usize, values: Vec<T>) -> (r: Self)
        requires
            values@.len() == width * height,
        ensures
            r.well_formed(),
            r.size == (width, height),
            r.map@ == values@,
    {
        NoiseMap { size: (width, height), map: values }
    }

    pub fn size(&self) -> (r: (usize, usize))
        ensures
            r == self.size,
    {
        self.size
    }

    fn place(&self, x: usize, y: usize) -> (r: usize)
        requires
            self.well_formed(),
            self.contains(x, y),
        ensures
            r == x + self.size.0 * y,
            r < self.map@.len(),
    {
        proof {
            crate::noisefield::lemma_index2_in_range(
                self.size.0 as nat,
                self.size.1 as nat,
                x as nat,
                y as nat,
            );
            assert(0 <= self.size.0 * y <= self.size.0 * self.size.1) by (nonlinear_arith)
                requires
                    0 <= y <= self.size.1,
                    0 <= self.size.0,
            ;
            assert(self.map@.len() == self.map.len());
        }
        x + self.size.0 * y
    }

    /// Sets the value at a place, and nothing else.
    pub fn set_value(&mut self, x: usize, y: usize, value: T)
        requires
            old(self).well_formed(),
            old(self).contains(x, y),
        ensures
            final(self).well_formed(),
            final(self).size == old(self).size,
            final(self).map@ == old(self).map@.update(x + old(self).size.0 * y, value),
    {
        let at: usize = self.place(x, y);
        self.map[at] = value;
    }

    /// The value at a place.
    pub fn get_value(&self, x: usize, y: usize) -> (r: T)
        requires
            self.well_formed(),
            self.contains(x, y),
        ensures
            r == self.map@[x + self.size.0 * y],
    {
        let at: usize = self.place(x, y);
        self.map[at]
    }
}

} // verus!
