//! The escape grid, filled one cell at a time in row-major order.
//!
//! The caller asks which cell comes next, computes its escape count and
//! records it; once every cell is recorded the grid hands out its rows.
use vstd::prelude::*;

verus! {

/// A grid of escape counts under construction: `height` rows of `width`
/// cells, each count at most `max_iters`.
pub struct EscapeGrid {
    width: usize,
    height: usize,
    max_iters: usize,
    rows: Vec<Vec<usize>>,
    current: Vec<usize>,
}

/// The rows of a grid as sequences.
pub open spec fn rows_of(rows: Seq<Vec<usize>>) -> Seq<Seq<usize>> {
    rows.map_values(|row: Vec<usize>| row@)
}

/// A grid of exactly `height` rows of `width` cells, each in `[0, max_iters]`.
pub open spec fn is_escape_grid(rows: Seq<Seq<usize>>, width: nat, height: nat, max_iters: nat) -> bool {
    &&& rows.len() == height
    &&& forall|r: int| 0 <= r < rows.len() ==> (#[trigger] rows[r]).len() == width
    &&& forall|r: int, c: int|
        0 <= r < rows.len() && 0 <= c < rows[r].len() ==> rows[r][c] <= max_iters
}

impl EscapeGrid {
    pub closed spec fn width(&self) -> nat {
        self.width as nat
    }

    pub closed spec fn height(&self) -> nat {
        self.height as nat
    }

    pub closed spec fn max_iters(&self) -> nat {
        self.max_iters as nat
    }

    /// The rows completed so far.
    pub closed spec fn done_rows(&self) -> Seq<Seq<usize>> {
        rows_of(self.rows@)
    }

    /// The cells recorded so far in the row under construction.
    pub closed spec fn partial_row(&self) -> Seq<usize> {
        self.current@
    }

    /// Every cell has been recorded.
    pub open spec fn is_complete(&self) -> bool {
        self.done_rows().len() == self.height()
    }

    /// The number of cells recorded so far.
    pub open spec fn recorded(&self) -> nat {
        self.done_rows().len() * self.width() + self.partial_row().len()
    }

    pub closed spec fn wf(&self) -> bool {
        &&& self.width > 0
        &&& self.height > 0
        &&& self.rows@.len() <= self.height
        &&& forall|r: int| 0 <= r < self.rows@.len() ==> (#[trigger] self.rows@[r])@.len() == self.width
        &&& forall|r: int, c: int|
            0 <= r < self.rows@.len() && 0 <= c < self.rows@[r]@.len() ==> self.rows@[r]@[c]
                <= self.max_iters
        &&& self.current@.len() < self.width
        &&& forall|c: int| 0 <= c < self.current@.len() ==> self.current@[c] <= self.max_iters
        &&& self.rows@.len() == self.height ==> self.current@.len() == 0
    }

    /// An empty grid of `height` rows of `width` cells.
    pub fn new(width: usize, height: usize, max_iters: usize) -> (g: EscapeGrid)
        requires
            width > 0,
            height > 0,
        ensures
            g.wf(),
            g.width() == width,
            g.height() == height,
            g.max_iters() == max_iters,
            g.done_rows() == Seq::<Seq<usize>>::empty(),
            g.partial_row() == Seq::<usize>::empty(),
            g.recorded() == 0,
    {
        let g = EscapeGrid { width, height, max_iters, rows: Vec::new(), current: Vec::new() };
        assert(g.done_rows() =~= Seq::<Seq<usize>>::empty());
        g
    }

    /// The cell, as (row, column), whose count is to be recorded next, or
    /// `None` once the grid is complete.
    pub fn next_cell(&self) -> (r: Option<(usize, usize)>)
        requires
            self.wf(),
        ensures
            self.is_complete() ==> r is None,
            !self.is_complete() ==> r == Some(
                (self.done_rows().len() as usize, self.partial_row().len() as usize),
            ),
            r matches Some((row, col)) ==> row < self.height() && col < self.width(),
    {
        if self.rows.len() == self.height {
            None
        } else {
            Some((self.rows.len(), self.current.len()))
        }
    }

    /// Records the count of the next cell; a row that becomes full joins
    /// the completed rows.
    pub fn record(&mut self, count: usize)
        requires
            old(self).wf(),
            !old(self).is_complete(),
            count <= old(self).max_iters(),
        ensures
            final(self).wf(),
            final(self).width() == old(self).width(),
            final(self).height() == old(self).height(),
            final(self).max_iters() == old(self).max_iters(),
            final(self).recorded() == old(self).recorded() + 1,
            old(self).partial_row().len() + 1 == old(self).width() ==> final(self).done_rows()
                == old(self).done_rows().push(old(self).partial_row().push(count))
                && final(self).partial_row() == Seq::<usize>::empty(),
            old(self).partial_row().len() + 1 < old(self).width() ==> final(self).done_rows()
                == old(self).done_rows() && final(self).partial_row()
                == old(self).partial_row().push(count),
    {
        self.current.push(count);
        if self.current.len() == self.width {
            let mut row: Vec<usize> = Vec::new();
            std::mem::swap(&mut row, &mut self.current);
            self.rows.push(row);
            assert(self.done_rows() =~= old(self).done_rows().push(old(self).partial_row().push(count)));
            let ghost d = old(self).done_rows().len();
            let ghost w = self.width();
            assert((d + 1) * w == d * w + w) by (nonlinear_arith);
        }
    }

    /// Each cell is recorded once: a grid holds at most `width * height`
    /// counts, and it is complete exactly when it holds that many.
    pub proof fn lemma_recorded_cells(&self)
        requires
            self.wf(),
        ensures
            self.recorded() <= self.width() * self.height(),
            self.is_complete() <==> self.recorded() == self.width() * self.height(),
    {
        let d = self.done_rows().len();
        let p = self.partial_row().len();
        let w = self.width();
        let h = self.height();
        assert(d <= h && p < w);
        assert(d == h ==> p == 0);
        if d < h {
            assert(d * w + p < w * h) by (nonlinear_arith)
                requires
                    d < h,
                    p < w,
            ;
        } else {
            assert(d * w == w * h) by (nonlinear_arith)
                requires
                    d == h,
            ;
        }
    }

    /// The rows of a complete grid: `height` rows of `width` counts, each
    /// at most `max_iters`, in the order they were recorded.
    pub fn into_rows(self) -> (rows: Vec<Vec<usize>>)
        requires
            self.wf(),
            self.is_complete(),
        ensures
            rows_of(rows@) == self.done_rows(),
            is_escape_grid(rows_of(rows@), self.width(), self.height(), self.max_iters()),
    {
        self.rows
    }
}

} // verus!
