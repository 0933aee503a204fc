//! Rendering an escape grid as lines of glyphs.
use vstd::prelude::*;

use crate::glyph::{glyph_for, glyph_of};

verus! {

/// The line for one row: the glyph of each count, left to right.
pub open spec fn line_of(row: Seq<usize>) -> Seq<char> {
    row.map_values(|count: usize| glyph_of(count as nat))
}

/// The text of a grid: one line per row, top to bottom.
pub open spec fn render_of(grid: Seq<Seq<usize>>) -> Seq<Seq<char>> {
    grid.map_values(|row: Seq<usize>| line_of(row))
}

/// The lines as sequences of characters.
pub open spec fn lines_of(lines: Seq<String>) -> Seq<Seq<char>> {
    lines.map_values(|line: String| line@)
}

/// Relies on String::push: the character is appended at the end.
#[verifier::external_body]
fn push_char(s: &mut String, c: char)
    ensures
        final(s)@ == old(s)@.push(c),
{
    s.push(c);
}

/// The line of glyphs for one row of escape counts.
pub fn render_line(row: &Vec<usize>) -> (line: String)
    ensures
        line@ == line_of(row@),
{
    let mut line = String::new();
    let mut c: usize = 0;
    while c < row.len()
        invariant
            c <= row@.len(),
            line@ == line_of(row@.subrange(0, c as int)),
        decreases row@.len() - c,
    {
        push_char(&mut line, glyph_for(row[c]));
        assert(row@.subrange(0, c + 1) =~= row@.subrange(0, c as int).push(row@[c as int]));
        c = c + 1;
    }
    assert(row@.subrange(0, c as int) =~= row@);
    line
}

/// Renders a grid of escape counts as text: one line per row, in row
/// order, each holding the glyphs of its row's counts in column order.
pub fn render_mandelbrot(escape_vals: &Vec<Vec<usize>>) -> (lines: Vec<String>)
    ensures
        lines_of(lines@) == render_of(escape_vals@.map_values(|row: Vec<usize>| row@)),
{
    let ghost grid = escape_vals@.map_values(|row: Vec<usize>| row@);
    let mut lines: Vec<String> = Vec::new();
    let mut r: usize = 0;
    while r < escape_vals.len()
        invariant
            r <= escape_vals@.len(),
            grid == escape_vals@.map_values(|row: Vec<usize>| row@),
            lines_of(lines@) == render_of(grid.subrange(0, r as int)),
        decreases escape_vals@.len() - r,
    {
        let line = render_line(&escape_vals[r]);
        let ghost before = lines@;
        lines.push(line);
        assert(grid[r as int] == escape_vals@[r as int]@);
        assert(lines_of(lines@) =~= lines_of(before).push(line_of(grid[r as int])));
        assert(grid.subrange(0, r + 1) =~= grid.subrange(0, r as int).push(grid[r as int]));
        assert(lines_of(lines@) =~= render_of(grid.subrange(0, r + 1)));
        r = r + 1;
    }
    assert(grid.subrange(0, r as int) =~= grid);
    lines
}

/// The text keeps the grid's layout: as many lines as rows, each as long
/// as its row, and the character at line `r`, position `c` is the glyph of
/// the count at row `r`, column `c`.
pub proof fn lemma_render_keeps_layout(grid: Seq<Seq<usize>>)
    ensures
        render_of(grid).len() == grid.len(),
        forall|r: int| 0 <= r < grid.len() ==> (#[trigger] render_of(grid)[r]).len() == grid[r].len(),
        forall|r: int, c: int|
            0 <= r < grid.len() && 0 <= c < grid[r].len() ==> (#[trigger] render_of(grid)[r][c])
                == glyph_of(grid[r][c] as nat),
{
}

/// The text depends on the counts alone: two grids with the same rows of
/// counts render to the same lines, so rendering again gives the same text.
pub proof fn lemma_render_deterministic(a: Seq<Seq<usize>>, b: Seq<Seq<usize>>)
    requires
        a.len() == b.len(),
        forall|r: int| 0 <= r < a.len() ==> #[trigger] a[r] =~= b[r],
    ensures
        render_of(a) == render_of(b),
{
    assert(a =~= b);
}

} // verus!
