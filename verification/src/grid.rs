//! A rectangular placement grid: `width * height` cells stored row-major
//! in one vector. The grid can be filled with sequential cell numbers,
//! split into its rows, and rendered as a console table through
//! `cli_table`.

use cli_table::Table;
use vstd::prelude::*;

verus! {

/// The text that `cli_table` renders for a grid of cells, row by row.
/// The rendering depends on the cell values alone.
pub uninterp spec fn table_text(cells: Seq<Seq<usize>>) -> Seq<char>;

/// Relies on cli_table's `Table::table` and `TableStruct::display`: with the
/// colour choice pinned to `Never` the table is rendered into an in-memory
/// buffer as plain text, a pure function of the cell values. Every write in
/// that rendering goes to such a buffer, so it cannot fail.
#[verifier::external_body]
fn render_cells(cells: Vec<Vec<usize>>) -> (r: String)
    ensures
        r@ == table_text(cells.deep_view()),
{
    let table = cells.table().color_choice(cli_table::ColorChoice::Never);
    let display = table.display().expect("the renderer writes to an in-memory buffer");
    format!("{}", display)
}

#[derive(Debug)]
pub struct PlacementGrid {
    pub spaces: Vec<usize>,
    pub width: usize,
    pub height: usize,
}

impl PlacementGrid {
    /// Well-formedness: the cell vector holds exactly one value per grid
    /// position.
    pub open spec fn wf(&self) -> bool {
        self.spaces@.len() == self.width * self.height
    }

    /// The grid's rows: row `r` is the slice of cells from `r * width` up
    /// to but not including `(r + 1) * width`.
    pub open spec fn spec_rows(&self) -> Seq<Seq<usize>> {
        Seq::new(
            self.height as nat,
            |r: int| self.spaces@.subrange(r * self.width, r * self.width + self.width),
        )
    }

    /// A fresh grid of the given size with every cell zero.
    pub fn of_size(width: usize, height: usize) -> (g: Self)
        requires
            width * height <= usize::MAX,
        ensures
            g.wf(),
            g.width == width,
            g.height == height,
            forall|i: int| 0 <= i < g.spaces@.len() ==> g.spaces@[i] == 0,
    {
        let n = width * height;
        let mut spaces: Vec<usize> = Vec::new();
        let mut i: usize = 0;
        while i < n
            invariant
                i <= n,
                spaces@.len() == i,
                forall|j: int| 0 <= j < i ==> spaces@[j] == 0,
            decreases n - i,
        {
            spaces.push(0);
            i = i + 1;
        }
        PlacementGrid { spaces, width, height }
    }

    /// Numbers the cells in storage order: cell `i` holds `i` afterwards.
    /// The dimensions are untouched.
    pub fn fill_sequential(&mut self)
        ensures
            final(self).width == old(self).width,
            final(self).height == old(self).height,
            final(self).spaces@.len() == old(self).spaces@.len(),
            forall|i: int| 0 <= i < final(self).spaces@.len() ==> final(self).spaces@[i] == i,
    {
        let mut count: usize = 0;
        while count < self.spaces.len()
            invariant
                count <= self.spaces@.len(),
                self.width == old(self).width,
                self.height == old(self).height,
                self.spaces@.len() == old(self).spaces@.len(),
                forall|j: int| 0 <= j < count ==> self.spaces@[j] == j,
            decreases self.spaces@.len() - count,
        {
            self.spaces.set(count, count);
            count = count + 1;
        }
    }

    /// The grid's rows as vectors, row-major, matching `spec_rows`.
    pub fn rows(&self) -> (out: Vec<Vec<usize>>)
        requires
            self.wf(),
        ensures
            out.deep_view() == self.spec_rows(),
    {
        let mut out: Vec<Vec<usize>> = Vec::new();
        let mut row: usize = 0;
        while row < self.height
            invariant
                self.wf(),
                row <= self.height,
                out@.len() == row,
                forall|r: int| 0 <= r < row ==> out.deep_view()[r] == self.spec_rows()[r],
            decreases self.height - row,
        {
            let _len: usize = self.spaces.len();
            proof {
                assert((row as int) * (self.width as int) + (self.width as int) <= (
                self.width as int) * (self.height as int)) by (nonlinear_arith)
                    requires
                        0 <= (row as int) && (row as int) < (self.height as int),
                        (self.width as int) >= 0,
                ;
            }
            let mut cells: Vec<usize> = Vec::new();
            let start = row * self.width;
            let mut col: usize = 0;
            while col < self.width
                invariant
                    self.wf(),
                    row < self.height,
                    col <= self.width,
                    start == row * self.width,
                    start + self.width <= self.spaces@.len(),
                    self.spaces@.len() <= usize::MAX,
                    cells@.len() == col,
                    forall|c: int| 0 <= c < col ==> cells@[c] == self.spaces@[start + c],
                decreases self.width - col,
            {
                cells.push(self.spaces[start + col]);
                col = col + 1;
            }
            proof {
                assert(cells.deep_view() =~= cells@);
                assert(cells@ =~= self.spec_rows()[row as int]);
            }
            out.push(cells);
            proof {
                assert(forall|r: int|
                    0 <= r < row + 1 ==> out.deep_view()[r] == self.spec_rows()[r]);
            }
            row = row + 1;
        }
        proof {
            assert(out.deep_view() =~= self.spec_rows());
        }
        out
    }

    /// Renders the grid as a console table: the text is `cli_table`'s
    /// rendering of the grid's rows, and of nothing else.
    pub fn render(&self) -> (r: String)
        requires
            self.wf(),
        ensures
            r@ == table_text(self.spec_rows()),
    {
        let cells = self.rows();
        render_cells(cells)
    }
}

impl Default for PlacementGrid {
    /// The default grid is the zeroed eight-by-eight grid.
    fn default() -> (g: Self)
        ensures
            g.wf(),
            g.width == 8,
            g.height == 8,
            forall|i: int| 0 <= i < g.spaces@.len() ==> g.spaces@[i] == 0,
    {
        PlacementGrid::of_size(8, 8)
    }
}

} // verus!
