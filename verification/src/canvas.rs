//! The canvas container: a single `Vec` abstracted to a two-dimensional
//! array of pixels.

use vstd::prelude::*;
use vstd::std_specs::iter::IteratorSpec;

use crate::indexing::flat_index;
use crate::indexing::lemma_index_in_range;
use crate::indexing::lemma_index_injective;
use crate::indexing::lemma_row_beyond_grid;

verus! {

/// A struct containing a single vector abstracted to a two-dimensional array.
///
/// The canvas is represented by a single vector of type `T`, laid out in
/// row-major order: the scan starts at the top-left corner and goes from left
/// to right, up to down. The functions provided allow access to each element
/// by row and column, as well as whole-buffer scans. If you prefer the raw
/// data, you can access the `data` field directly.
#[derive(Clone)]
pub struct Canvas<T> {
    pub data: Vec<T>,
    pub width: usize,
    pub height: usize,
}

impl<T> Canvas<T> {
    /// Position in the linear buffer of the pixel at `row`, `col`.
    pub open spec fn cell_index(self, row: int, col: int) -> int {
        flat_index(self.width as int, row, col)
    }

    /// The buffer holds exactly one pixel per cell of the grid.
    pub open spec fn well_formed(self) -> bool {
        self.data@.len() == self.width * self.height
    }
}

impl<T: Clone> Canvas<T> {
    /// Creates a new canvas of the specified size. The background data is the
    /// default data that will fill the canvas at initialization: every cell
    /// receives its own duplicate of `background_data`, never a shared one.
    ///
    /// Background data type must implement the `Clone` trait.
    pub fn new(width: usize, height: usize, background_data: T) -> (canvas: Canvas<T>)
        requires
            width * height <= usize::MAX,
        ensures
            canvas.width == width,
            canvas.height == height,
            canvas.well_formed(),
            forall|i: int|
                0 <= i < canvas.data@.len() ==> cloned::<T>(
                    background_data,
                    #[trigger] canvas.data@[i],
                ),
    {
        let size = width * height;
        let mut canvas: Canvas<T> = Canvas { width, height, data: Vec::with_capacity(size) };
        let mut filled: usize = 0;
        while filled < size
            invariant
                filled <= size,
                canvas.width == width,
                canvas.height == height,
                canvas.data@.len() == filled,
                forall|i: int|
                    0 <= i < filled ==> cloned::<T>(background_data, #[trigger] canvas.data@[i]),
            decreases size - filled,
        {
            canvas.data.push(background_data.clone());
            filled = filled + 1;
        }
        canvas
    }

    /// Return the pixel value at the specified row and column, or nothing
    /// when the flattened position falls past the end of the buffer.
    ///
    /// The combined linear bound is the only check, as the `ensures` states:
    /// a `col` at or past the width is caught only where `row * width + col`
    /// reaches the end of the buffer; short of that it lands in a later row.
    pub fn get(&self, row: usize, col: usize) -> (cell: Option<&T>)
        ensures
            self.cell_index(row as int, col as int) < self.data@.len() ==> cell is Some
                && cell.unwrap() == self.data@[self.cell_index(row as int, col as int)],
            self.cell_index(row as int, col as int) >= self.data@.len() ==> cell is None,
    {
        let size = self.data.len();
        match row.checked_mul(self.width) {
            Some(base) => match base.checked_add(col) {
                Some(index) => {
                    if index < size {
                        Some(&self.data[index])
                    } else {
                        None
                    }
                },
                None => None,
            },
            None => None,
        }
    }

    /// Return a mutable reference to the pixel at the specified row and
    /// column, or nothing when the flattened position falls past the end of
    /// the buffer. Writing through the reference changes that one pixel and
    /// no other; the dimensions never change.
    pub fn get_mut(&mut self, row: usize, col: usize) -> (cell: Option<&mut T>)
        ensures
            old(self).cell_index(row as int, col as int) < old(self).data@.len() ==> cell is Some
                && *cell.unwrap() == old(self).data@[old(self).cell_index(row as int, col as int)]
                && final(self).data@ == old(self).data@.update(
                old(self).cell_index(row as int, col as int),
                *final(cell.unwrap()),
            ),
            old(self).cell_index(row as int, col as int) >= old(self).data@.len() ==> cell is None
                && *final(self) == *old(self),
            final(self).width == old(self).width,
            final(self).height == old(self).height,
            final(self).data@.len() == old(self).data@.len(),
    {
        let size = self.data.len();
        match row.checked_mul(self.width) {
            Some(base) => match base.checked_add(col) {
                Some(index) => {
                    if index < size {
                        Some(&mut self.data[index])
                    } else {
                        None
                    }
                },
                None => None,
            },
            None => None,
        }
    }

    /// Returns an iterator over all the pixels in the canvas, starting from
    /// the top left, scanning left to right, top to bottom. The sequence it
    /// yields is determined by the canvas alone, so a second call yields the
    /// same scan again.
    pub fn iter(&self) -> (it: core::slice::Iter<'_, T>)
        ensures
            it.remaining() == self.data@.as_ref(),
            it.remaining().len() == self.data@.len(),
            forall|i: int|
                0 <= i < self.data@.len() ==> #[trigger] it.remaining()[i] == &self.data@[i],
            IteratorSpec::decrease(&it) is Some,
            IteratorSpec::initial_value_relation(&it, &it),
    {
        self.data.as_slice().iter()
    }

    /// Grants mutable access to every pixel for one in-place pass, starting
    /// from the top left, scanning left to right, top to bottom: the whole
    /// row-major buffer is handed back as one mutable slice. Whatever the
    /// caller writes through it is exactly what the canvas holds afterwards;
    /// the dimensions never change.
    pub fn iter_mut(&mut self) -> (pixels: &mut [T])
        ensures
            pixels@ == old(self).data@,
            final(self).data@ == final(pixels)@,
            final(self).width == old(self).width,
            final(self).height == old(self).height,
    {
        self.data.as_mut_slice()
    }
}

/// Law: in a freshly filled canvas, every cell whose row and column are in
/// range lies inside the buffer and holds a duplicate of the fill value, so
/// `get` returns it. The premises are exactly what [`Canvas::new`] ensures.
pub proof fn lemma_fill_reaches_every_cell<T: Clone>(c: Canvas<T>, v: T, row: int, col: int)
    requires
        c.well_formed(),
        forall|i: int| 0 <= i < c.data@.len() ==> cloned::<T>(v, #[trigger] c.data@[i]),
        0 <= row < c.height,
        0 <= col < c.width,
    ensures
        0 <= c.cell_index(row, col) < c.data@.len(),
        cloned::<T>(v, c.data@[c.cell_index(row, col)]),
{
    lemma_index_in_range(c.width as int, c.height as int, row, col);
}

/// Law: writing one in-range cell changes that cell alone. The written buffer
/// is the one [`Canvas::get_mut`] ensures after a write of `v` at `row`,
/// `col`; every other in-range cell keeps its prior value.
pub proof fn lemma_cell_write_is_local<T>(
    c: Canvas<T>,
    v: T,
    row: int,
    col: int,
    row2: int,
    col2: int,
)
    requires
        c.well_formed(),
        0 <= row < c.height,
        0 <= col < c.width,
        0 <= row2 < c.height,
        0 <= col2 < c.width,
    ensures
        c.data@.update(c.cell_index(row, col), v)[c.cell_index(row, col)] == v,
        row != row2 || col != col2 ==> c.data@.update(c.cell_index(row, col), v)[c.cell_index(
            row2,
            col2,
        )] == c.data@[c.cell_index(row2, col2)],
{
    lemma_index_in_range(c.width as int, c.height as int, row, col);
    lemma_index_in_range(c.width as int, c.height as int, row2, col2);
    if c.cell_index(row, col) == c.cell_index(row2, col2) {
        lemma_index_injective(c.width as int, c.height as int, row, col, row2, col2);
    }
}

/// Law: a row at or past the canvas's height scans past the end of the
/// buffer whenever the column is within the width, so [`Canvas::get`]
/// returns absence for it.
pub proof fn lemma_row_out_of_range_misses<T>(c: Canvas<T>, row: int, col: int)
    requires
        c.well_formed(),
        row >= c.height,
        0 <= col < c.width,
    ensures
        c.cell_index(row, col) >= c.data@.len(),
{
    lemma_row_beyond_grid(c.width as int, c.height as int, row, col);
}

/// Law: the scan [`Canvas::iter`] yields is a function of the canvas alone.
/// Any two scans of one canvas are the same sequence; it has one element per
/// cell and follows the buffer in row-major order.
pub proof fn lemma_scan_restartable<T>(c: Canvas<T>, first: Seq<&T>, second: Seq<&T>)
    requires
        first == c.data@.as_ref(),
        second == c.data@.as_ref(),
    ensures
        first == second,
        first.len() == c.data@.len(),
        forall|i: int| 0 <= i < first.len() ==> #[trigger] first[i] == &c.data@[i],
        c.well_formed() ==> first.len() == c.width * c.height,
{
}

/// Law: once every pixel holds one value `k` — as after a whole-buffer write
/// through [`Canvas::iter_mut`] — a scan yields `k` at every position.
pub proof fn lemma_constant_fill_scans_constant<T>(c: Canvas<T>, k: T)
    requires
        forall|i: int| 0 <= i < c.data@.len() ==> #[trigger] c.data@[i] == k,
    ensures
        forall|i: int| 0 <= i < c.data@.as_ref().len() ==> *(#[trigger] c.data@.as_ref()[i]) == k,
{
}

} // verus!
