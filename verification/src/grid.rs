//! A dense two-dimensional grid stored in row-major order.

use vstd::prelude::*;

verus! {

/// A `width` by `height` grid of cells.
///
/// The abstract view of a grid is the sequence of its cells in row-major
/// order: cell `(x, y)` is element `y * width + x`.
pub struct Grid<T> {
    // Row-major representation of the grid.
    raw: Vec<T>,
    width: usize,
    height: usize,
}

impl<T> View for Grid<T> {
    type V = Seq<T>;

    closed spec fn view(&self) -> Seq<T> {
        self.raw@
    }
}

/// The row-major index of cell `(x, y)` lies inside a `width` by `height` grid.
pub proof fn lemma_index_in_bounds(x: int, y: int, width: int, height: int)
    by (nonlinear_arith)
    requires
        0 <= x < width,
        0 <= y < height,
    ensures
        0 <= y * width <= y * width + x < (y + 1) * width <= width * height,
        (y + 1) * width == y * width + width,
{
}

/// Row `y` of a `width` by `height` grid occupies a range of row-major indices
/// that lies inside the grid.
pub proof fn lemma_row_in_bounds(y: int, width: int, height: int)
    by (nonlinear_arith)
    requires
        0 <= width,
        0 <= y < height,
    ensures
        0 <= y * width <= (y + 1) * width <= width * height,
        (y + 1) * width == y * width + width,
{
}

impl<T> Grid<T> {
    /// The number of columns.
    pub closed spec fn spec_width(&self) -> usize {
        self.width
    }

    /// The number of rows.
    pub closed spec fn spec_height(&self) -> usize {
        self.height
    }

    /// The grid holds exactly `width * height` cells.
    pub open spec fn wf(&self) -> bool {
        self@.len() == self.spec_width() * self.spec_height()
    }

    /// The cell in column `x` of row `y`.
    pub open spec fn spec_get(&self, x: int, y: int) -> T
        recommends
            0 <= x < self.spec_width(),
            0 <= y < self.spec_height(),
    {
        self@[y * self.spec_width() + x]
    }

    /// The cells of row `y`, left to right.
    pub open spec fn spec_row(&self, y: int) -> Seq<T>
        recommends
            0 <= y < self.spec_height(),
    {
        self@.subrange(y * self.spec_width(), (y + 1) * self.spec_width())
    }

    /// Creates a new `Grid` from a `Vec` of values in row-major order.
    pub fn from_row_major(values: Vec<T>, width: usize, height: usize) -> (grid: Self)
        requires
            values@.len() == width * height,
        ensures
            grid.wf(),
            grid@ == values@,
            grid.spec_width() == width,
            grid.spec_height() == height,
    {
        Self { raw: values, width, height }
    }

    /// Returns the height of the grid.
    #[verifier::when_used_as_spec(spec_height)]
    pub fn height(&self) -> (h: usize)
        ensures
            h == self.spec_height(),
    {
        self.height
    }

    /// Returns the width of the grid.
    #[verifier::when_used_as_spec(spec_width)]
    pub fn width(&self) -> (w: usize)
        ensures
            w == self.spec_width(),
    {
        self.width
    }

    /// Converts `x` and `y` indices into an index into the underlying `Vec`.
    fn index_of(&self, x: usize, y: usize) -> (index: usize)
        requires
            self.wf(),
            x < self.width(),
            y < self.height(),
        ensures
            index == y * self.width() + x,
            index < self@.len(),
    {
        proof {
            lemma_index_in_bounds(x as int, y as int, self.width as int, self.height as int);
            assert(self.raw@.len() == self.raw.len());
        }
        y * self.width + x
    }

    /// Returns the value at the specified position.
    pub fn get(&self, x: usize, y: usize) -> (cell: Option<&T>)
        requires
            self.wf(),
        ensures
            x < self.width() && y < self.height() ==> cell == Some(&self.spec_get(x as int, y as int)),
            !(x < self.width() && y < self.height()) ==> cell is None,
    {
        if y >= self.height || x >= self.width {
            return None;
        }
        Some(&self.raw[self.index_of(x, y)])
    }

    /// Creates a new `Grid` of size `width` by `height` filled with copies of
    /// `value`.
    pub fn filled_with(value: T, width: usize, height: usize) -> (grid: Self) where T: Clone
        requires
            width * height <= usize::MAX,
        ensures
            grid.wf(),
            grid.spec_width() == width,
            grid.spec_height() == height,
            grid@.len() == width * height,
            forall|i: int| 0 <= i < grid@.len() ==> cloned(value, #[trigger] grid@[i]),
    {
        Self { raw: vec![value; width * height], width, height }
    }

    /// Sets the value at the specified position.
    pub fn set(&mut self, x: usize, y: usize, value: T)
        requires
            old(self).wf(),
            x < old(self).width(),
            y < old(self).height(),
        ensures
            final(self).wf(),
            final(self).width() == old(self).width(),
            final(self).height() == old(self).height(),
            final(self)@ == old(self)@.update(y * old(self).width() + x, value),
    {
        let index = self.index_of(x, y);
        self.raw[index] = value;
    }

    /// Returns all values in row-major order.
    pub fn as_row_major(&self) -> (cells: &[T])
        ensures
            cells@ == self@,
    {
        self.raw.as_slice()
    }

    /// Returns a slice over row `y`.
    pub fn row_slice(&self, y: usize) -> (row: &[T])
        requires
            self.wf(),
            y < self.height(),
        ensures
            row@ == self.spec_row(y as int),
            row@.len() == self.width(),
    {
        proof {
            lemma_row_in_bounds(y as int, self.width as int, self.height as int);
            assert(self.raw@.len() == self.raw.len());
        }
        &self.raw[y * self.width..(y + 1) * self.width]
    }

    /// Returns a mutable slice over row `y`.
    pub fn row_slice_mut(&mut self, y: usize) -> (row: &mut [T])
        requires
            old(self).wf(),
            y < old(self).height(),
        ensures
            row@ == old(self).spec_row(y as int),
            row@.len() == old(self).width(),
            final(self).width() == old(self).width(),
            final(self).height() == old(self).height(),
            final(self)@ == old(self)@.subrange(0, y * old(self).width()) + final(row)@
                + old(self)@.subrange((y + 1) * old(self).width(), old(self)@.len() as int),
    {
        proof {
            lemma_row_in_bounds(y as int, self.width as int, self.height as int);
            assert(self.raw@.len() == self.raw.len());
        }
        let start = y * self.width;
        let width = self.width;
        let (_, rest) = self.raw.as_mut_slice().split_at_mut(start);
        let (row, _) = rest.split_at_mut(width);
        row
    }

    /// Returns an iterator over all values with `x` and `y` indices, in
    /// row-major order.
    pub fn iter_with_indices(&self) -> (iter: IterWithIndices<'_, T>)
        requires
            self.wf(),
        ensures
            iter.wf(),
            *iter.grid() == *self,
            iter.position() == 0,
    {
        IterWithIndices { grid: self, index: 0 }
    }
}

/// Iterator over all [`Grid`] values with `x` and `y` indices.
pub struct IterWithIndices<'a, T> {
    grid: &'a Grid<T>,
    index: usize,
}

impl<'a, T> IterWithIndices<'a, T> {
    /// The grid that is walked.
    pub closed spec fn grid(&self) -> &'a Grid<T> {
        self.grid
    }

    /// The number of cells already handed out.
    pub closed spec fn position(&self) -> nat {
        self.index as nat
    }

    /// The grid is well-formed and the position does not run past its end.
    pub open spec fn wf(&self) -> bool {
        &&& self.grid().wf()
        &&& self.position() <= self.grid()@.len()
    }

    /// Hands out the next cell as `(x, y, value)`, or `None` once every cell
    /// has been visited.
    pub fn next(&mut self) -> (item: Option<(usize, usize, &'a T)>)
        requires
            old(self).wf(),
        ensures
            final(self).wf(),
            final(self).grid() == old(self).grid(),
            old(self).position() < old(self).grid()@.len() ==> {
                let i = old(self).position() as int;
                let width = old(self).grid().spec_width() as int;
                &&& width > 0
                &&& item == Some(((i % width) as usize, (i / width) as usize, &old(self).grid()@[i]))
                &&& final(self).position() == i + 1
            },
            old(self).position() >= old(self).grid()@.len() ==> {
                &&& item is None
                &&& final(self).position() == old(self).position()
            },
            item matches Some((x, y, value)) ==> {
                &&& x < old(self).grid().spec_width()
                &&& y < old(self).grid().spec_height()
                &&& *value == old(self).grid().spec_get(x as int, y as int)
            },
    {
        let grid: &'a Grid<T> = self.grid;
        let i = self.index;
        if i < grid.raw.len() {
            assert(grid.width > 0 && i / grid.width < grid.height && i == (i / grid.width)
                * grid.width + i % grid.width) by (nonlinear_arith)
                requires
                    i < grid.width * grid.height,
            {
            }
            self.index = i + 1;
            Some((i % grid.width, i / grid.width, &grid.raw[i]))
        } else {
            None
        }
    }
}

} // verus!
