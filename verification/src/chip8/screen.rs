//! The display memory: a grid of bytes, eight pixels to the byte, kept in
//! an `ndarray` array.
use super::machine::row_collides;
use super::machine::row_drawn;
use super::machine::scrolled;
use super::machine::scrolled_cell;
use super::machine::Scroll;
use ndarray::Array2;
use vstd::prelude::*;

verus! {

/// The display memory. Row `y`, byte `x` holds the pixels `8 * x` to
/// `8 * x + 7` of line `y`, leftmost pixel in the highest bit.
///
/// The array is `ndarray`'s; the verifier does not look into it and
/// reasons about it through [`screen_cells`].
#[verifier::external_body]
pub struct Screen {
    cells: Array2<u8>,
}

/// The bytes that a screen holds, row by row.
pub uninterp spec fn screen_cells(screen: Screen) -> Seq<Seq<u8>>;

/// A grid of `rows` by `cols` bytes that all hold `value`.
pub open spec fn uniform(rows: nat, cols: nat, value: u8) -> Seq<Seq<u8>> {
    Seq::new(rows, |y: int| Seq::new(cols, |x: int| value))
}

/// Every row of `cells` is `cols` bytes long.
pub open spec fn rectangular(cells: Seq<Seq<u8>>, cols: nat) -> bool {
    forall|y: int| 0 <= y < cells.len() ==> #[trigger] cells[y].len() == cols
}

impl View for Screen {
    type V = Seq<Seq<u8>>;

    open spec fn view(&self) -> Seq<Seq<u8>> {
        screen_cells(*self)
    }
}

impl Screen {
    /// `Array2::zeros`: a grid of `rows` by `cols` zero bytes. `ndarray`
    /// panics if the product of the lengths that are not zero overflows
    /// `isize`, so also for a grid without bytes that has one length above
    /// `isize::MAX`; `requires` rules both out.
    #[verifier::external_body]
    pub(crate) fn zeros(rows: usize, cols: usize) -> (screen: Screen)
        requires
            rows <= isize::MAX,
            cols <= isize::MAX,
            rows * cols <= isize::MAX,
        ensures
            screen_cells(screen) == uniform(rows as nat, cols as nat, 0),
    {
        Screen { cells: Array2::zeros((rows, cols)) }
    }

    /// `Default::default` of `Array2`: the array of shape 0 by 0, which has
    /// no row.
    #[verifier::external_body]
    pub(crate) fn empty() -> (screen: Screen)
        ensures
            screen_cells(screen) == Seq::<Seq<u8>>::empty(),
    {
        Screen { cells: Default::default() }
    }

    /// `ArrayBase::dim`: the shape of the array, rows first. Every row has
    /// the second number of bytes.
    #[verifier::external_body]
    pub(crate) fn dim(&self) -> (shape: (usize, usize))
        ensures
            shape.0 == screen_cells(*self).len(),
            rectangular(screen_cells(*self), shape.1 as nat),
    {
        self.cells.dim()
    }

    /// Indexing with `(y, x)`: the byte in row `y` at place `x`. `ndarray`
    /// panics outside the shape, which `requires` rules out.
    #[verifier::external_body]
    pub(crate) fn cell(&self, y: usize, x: usize) -> (value: u8)
        requires
            y < screen_cells(*self).len(),
            x < screen_cells(*self)[y as int].len(),
        ensures
            value == screen_cells(*self)[y as int][x as int],
    {
        self.cells[(y, x)]
    }

    /// Assigning through the index `(y, x)`: the byte in row `y` at place
    /// `x` becomes `value` and no other byte changes. `ndarray` panics
    /// outside the shape, which `requires` rules out.
    #[verifier::external_body]
    pub(crate) fn put(&mut self, y: usize, x: usize, value: u8)
        requires
            y < screen_cells(*old(self)).len(),
            x < screen_cells(*old(self))[y as int].len(),
        ensures
            screen_cells(*final(self)) == screen_cells(*old(self)).update(y as int, screen_cells(*old(self))[y as int].update(x as int, value)),
    {
        self.cells[(y, x)] = value;
    }

    /// `ArrayBase::fill`: every byte becomes `value`; the shape stays.
    #[verifier::external_body]
    pub(crate) fn fill(&mut self, value: u8)
        ensures
            screen_cells(*final(self)).len() == screen_cells(*old(self)).len(),
            forall|y: int|
                0 <= y < screen_cells(*old(self)).len() ==> #[trigger] screen_cells(*final(self))[y] == Seq::new(
                    screen_cells(*old(self))[y].len(),
                    |x: int| value,
                ),
    {
        self.cells.fill(value);
    }

    /// `Clone::clone` of the array: a screen with the same bytes.
    #[verifier::external_body]
    pub(crate) fn copy(&self) -> (screen: Screen)
        ensures
            screen_cells(screen) == screen_cells(*self),
    {
        Screen { cells: self.cells.clone() }
    }

    /// The number of rows.
    pub fn rows(&self) -> (rows: usize)
        ensures
            rows == self@.len(),
    {
        self.dim().0
    }

    /// The number of bytes in a row.
    pub fn cols(&self) -> (cols: usize)
        ensures
            rectangular(self@, cols as nat),
    {
        self.dim().1
    }

    /// The byte in row `y` at place `x`, if the screen has one there.
    pub fn get(&self, y: usize, x: usize) -> (value: Option<u8>)
        ensures
            value == if y < self@.len() && x < self@[y as int].len() {
                Some(self@[y as int][x as int])
            } else {
                None
            },
    {
        let (rows, cols) = self.dim();
        if y < rows && x < cols {
            Some(self.cell(y, x))
        } else {
            None
        }
    }

    /// Stores `value` in row `y` at place `x` and says whether the screen
    /// has a byte there; if not, nothing changes.
    pub fn set(&mut self, y: usize, x: usize, value: u8) -> (stored: bool)
        ensures
            stored == (y < old(self)@.len() && x < old(self)@[y as int].len()),
            final(self)@ == if stored {
                old(self)@.update(y as int, old(self)@[y as int].update(x as int, value))
            } else {
                old(self)@
            },
    {
        let (rows, cols) = self.dim();
        if y < rows && x < cols {
            self.put(y, x, value);
            true
        } else {
            false
        }
    }

    /// Blanks the screen.
    pub fn clear(&mut self)
        ensures
            final(self)@ == Seq::new(
                old(self)@.len(),
                |y: int| Seq::new(old(self)@[y].len(), |x: int| 0u8),
            ),
    {
        self.fill(0);
        assert(self@ =~= Seq::new(
            old(self)@.len(),
            |y: int| Seq::new(old(self)@[y].len(), |x: int| 0u8),
        ));
    }

    /// Moves the picture; what moves in from outside is blank.
    pub fn scroll(&mut self, scroll: Scroll)
        ensures
            final(self)@ == scrolled(old(self)@, scroll),
    {
        let source = self.copy();
        let (rows, cols) = self.dim();
        let mut y: usize = 0;
        while y < rows
            invariant
                y <= rows,
                source@ == old(self)@,
                source@.len() == rows,
                self@.len() == rows,
                rectangular(self@, cols as nat),
                rectangular(source@, cols as nat),
                forall|r: int|
                    0 <= r < y ==> #[trigger] self@[r] == Seq::new(
                        cols as nat,
                        |x: int| scrolled_cell(source@, scroll, r, x),
                    ),
            decreases rows - y,
        {
            let mut x: usize = 0;
            while x < cols
                invariant
                    x <= cols,
                    y < rows,
                    source@ == old(self)@,
                    source@.len() == rows,
                    self@.len() == rows,
                    rectangular(self@, cols as nat),
                    rectangular(source@, cols as nat),
                    forall|r: int|
                        0 <= r < y ==> #[trigger] self@[r] == Seq::new(
                            cols as nat,
                            |x: int| scrolled_cell(source@, scroll, r, x),
                        ),
                    forall|c: int|
                        0 <= c < x ==> #[trigger] self@[y as int][c] == scrolled_cell(
                            source@,
                            scroll,
                            y as int,
                            c,
                        ),
                decreases cols - x,
            {
                let value = match scroll {
                    Scroll::Down(n) => if y >= n as usize {
                        source.cell(y - n as usize, x)
                    } else {
                        0
                    },
                    Scroll::Up(n) => if rows - y > n as usize {
                        source.cell(y + n as usize, x)
                    } else {
                        0
                    },
                    Scroll::Right => {
                        let here = source.cell(y, x) >> 4;
                        if x > 0 {
                            here | (source.cell(y, x - 1) << 4)
                        } else {
                            assert(here | 0 == here) by (bit_vector);
                            here
                        }
                    },
                    Scroll::Left => {
                        let here = source.cell(y, x) << 4;
                        if x < cols - 1 {
                            here | (source.cell(y, x + 1) >> 4)
                        } else {
                            assert(here | 0 == here) by (bit_vector);
                            here
                        }
                    },
                };
                self.put(y, x, value);
                x = x + 1;
            }
            assert(self@[y as int] =~= Seq::new(
                cols as nat,
                |x: int| scrolled_cell(source@, scroll, y as int, x),
            ));
            y = y + 1;
        }
        assert(self@ =~= scrolled(old(self)@, scroll));
    }

    /// Draws one sprite row, `hi` over byte `x0` and then `lo` over byte
    /// `x1` of row `y`, and says whether that turned a lit pixel off.
    pub fn draw_row(&mut self, y: usize, x0: usize, x1: usize, hi: u8, lo: u8) -> (collision: bool)
        requires
            y < old(self)@.len(),
            x0 < old(self)@[y as int].len(),
            x1 < old(self)@[y as int].len(),
        ensures
            final(self)@ == row_drawn(old(self)@, y as int, x0 as int, x1 as int, hi, lo),
            collision == row_collides(old(self)@, y as int, x0 as int, x1 as int, hi, lo),
    {
        let before0 = self.cell(y, x0);
        let before1 = self.cell(y, x1);
        self.put(y, x0, before0 ^ hi);
        let now1 = self.cell(y, x1);
        self.put(y, x1, now1 ^ lo);
        (before0 & hi != 0) || (before1 & lo != 0)
    }
}

impl Clone for Screen {
    fn clone(&self) -> (screen: Screen)
        ensures
            screen@ == self@,
    {
        self.copy()
    }
}

} // verus!
