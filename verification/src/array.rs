//! A two dimensional, statically sized array stored in row-major order.

use vstd::prelude::*;

verus! {

/// A two dimensional array of copyable values.
pub struct Array2D<T> {
    width: usize,
    height: usize,
    values: Vec<T>,
}

impl<T: Copy> View for Array2D<T> {
    type V = Seq<T>;

    /// The cells in row-major order: the cell at `(x, y)` is at `x + y * width`.
    closed spec fn view(&self) -> Seq<T> {
        self.values@
    }
}

impl<T: Copy> Array2D<T> {
    /// The backing storage covers the whole grid.
    pub closed spec fn wf(&self) -> bool {
        &&& self.values@.len() == self.width * self.height
        &&& self.width * self.height <= usize::MAX
    }

    /// The number of columns.
    pub closed spec fn spec_width(&self) -> int {
        self.width as int
    }

    /// The number of rows.
    pub closed spec fn spec_height(&self) -> int {
        self.height as int
    }

    /// The cell at the given position.
    pub open spec fn at(&self, x: int, y: int) -> T {
        self@[x + y * self.spec_width()]
    }

    /// Creates an array of the given dimensions with every cell set to
    /// `value`.
    pub fn new(width: usize, height: usize, value: T) -> (a: Array2D<T>)
        requires
            width * height <= usize::MAX,
        ensures
            a.wf(),
            a.spec_width() == width,
            a.spec_height() == height,
            a@ == Seq::new((width * height) as nat, |i: int| value),
    {
        proof {
            assert((width as int) * (height as int) >= 0) by (nonlinear_arith)
                requires
                    width as int >= 0,
                    height as int >= 0,
            ;
        }
        let total: usize = width * height;
        let mut values: Vec<T> = Vec::new();
        let mut i: usize = 0;
        while i < total
            invariant
                i <= total,
                values@ =~= Seq::new(i as nat, |j: int| value),
            decreases total - i,
        {
            values.push(value);
            proof {
                assert(values@ =~= Seq::new((i + 1) as nat, |j: int| value));
            }
            i += 1;
        }
        Array2D { width, height, values }
    }

    /// A well-formed array's storage length is the product of its
    /// dimensions.
    pub proof fn lemma_dims(&self)
        requires
            self.wf(),
        ensures
            self@.len() == self.spec_width() * self.spec_height(),
            self@.len() <= usize::MAX,
            0 <= self.spec_width(),
            0 <= self.spec_height(),
    {
    }

    /// The number of columns.
    pub fn width(&self) -> (w: usize)
        ensures
            w == self.spec_width(),
    {
        self.width
    }

    /// The number of rows.
    pub fn height(&self) -> (h: usize)
        ensures
            h == self.spec_height(),
    {
        self.height
    }

    /// Calculates the physical index of the given position.
    fn index_of(&self, pos: (usize, usize)) -> (i: usize)
        requires
            self.wf(),
            pos.0 < self.spec_width(),
            pos.1 < self.spec_height(),
        ensures
            i == pos.0 + pos.1 * self.spec_width(),
            i < self@.len(),
    {
        proof {
            assert(0 <= (pos.1 as int) * (self.width as int) && (pos.1 as int) * (self.width
                as int) + (pos.0 as int) < (self.width as int) * (self.height as int))
                by (nonlinear_arith)
                requires
                    (pos.0 as int) < (self.width as int),
                    (pos.1 as int) < (self.height as int),
                    0 <= (pos.0 as int),
                    0 <= (pos.1 as int),
            ;
        }
        pos.0 + pos.1 * self.width
    }

    /// Reads the cell at the given position.
    pub fn get(&self, pos: (usize, usize)) -> (v: T)
        requires
            self.wf(),
            pos.0 < self.spec_width(),
            pos.1 < self.spec_height(),
        ensures
            v == self.at(pos.0 as int, pos.1 as int),
    {
        let i = self.index_of(pos);
        self.values[i]
    }

    /// Overwrites the cell at the given position.
    pub fn set(&mut self, pos: (usize, usize), value: T)
        requires
            old(self).wf(),
            pos.0 < old(self).spec_width(),
            pos.1 < old(self).spec_height(),
        ensures
            final(self).wf(),
            final(self).spec_width() == old(self).spec_width(),
            final(self).spec_height() == old(self).spec_height(),
            final(self)@ == old(self)@.update(pos.0 + pos.1 * old(self).spec_width(), value),
    {
        let i = self.index_of(pos);
        self.values[i] = value;
    }

    /// Overwrites every cell.
    pub fn fill(&mut self, value: T)
        requires
            old(self).wf(),
        ensures
            final(self).wf(),
            final(self).spec_width() == old(self).spec_width(),
            final(self).spec_height() == old(self).spec_height(),
            final(self)@ == Seq::new(old(self)@.len(), |i: int| value),
    {
        let total: usize = self.values.len();
        let mut i: usize = 0;
        while i < total
            invariant
                i <= total,
                total == self.values@.len(),
                self.width == old(self).width,
                self.height == old(self).height,
                self.values@.len() == old(self).values@.len(),
                forall|j: int| 0 <= j < i ==> self.values@[j] == value,
                forall|j: int| i <= j < total ==> self.values@[j] == old(self).values@[j],
            decreases total - i,
        {
            self.values[i] = value;
            i += 1;
        }
        proof {
            assert(self.values@ =~= Seq::new(old(self).values@.len(), |i: int| value));
        }
    }
}

} // verus!
