use mandelbrot::escape::{escape_step, EscapeStep};
use mandelbrot::glyph::glyph_for;
use mandelbrot::grid::EscapeGrid;
use mandelbrot::render::{render_line, render_mandelbrot};
use num::complex::Complex;

/// Runs the escape loop over given outside-the-disk checks.
fn count_from_checks(outside: &[bool], max_iters: usize) -> usize {
    let mut i: usize = 0;
    loop {
        let flag = i < outside.len() && outside[i];
        match escape_step(i, max_iters, flag) {
            EscapeStep::Done(n) => return n,
            EscapeStep::Iterate(next) => i = next,
        }
    }
}

/// Runs the escape loop on the orbit of cx + cy i.
fn escape_count(cx: f64, cy: f64, max_iters: usize) -> usize {
    let mut z = Complex::new(0.0, 0.0);
    let c = Complex::new(cx, cy);
    let mut i: usize = 0;
    loop {
        match escape_step(i, max_iters, z.norm() > 2.0) {
            EscapeStep::Done(n) => return n,
            EscapeStep::Iterate(next) => {
                z = z * z + c;
                i = next;
            }
        }
    }
}

fn compute_grid(
    max_iters: usize,
    x_min: f64,
    x_max: f64,
    y_min: f64,
    y_max: f64,
    width: usize,
    height: usize,
) -> Vec<Vec<usize>> {
    let mut grid = EscapeGrid::new(width, height, max_iters);
    while let Some((row, col)) = grid.next_cell() {
        let cx = x_min + (x_max - x_min) * (col as f64 / width as f64);
        let cy = y_min + (y_max - y_min) * (row as f64 / height as f64);
        grid.record(escape_count(cx, cy, max_iters));
    }
    grid.into_rows()
}

#[test]
fn glyph_boundaries() {
    let cases: [(usize, char); 18] = [
        (0, ' '),
        (2, ' '),
        (3, '.'),
        (5, '.'),
        (6, '\u{2022}'),
        (10, '\u{2022}'),
        (11, '*'),
        (30, '*'),
        (31, '+'),
        (100, '+'),
        (101, 'x'),
        (200, 'x'),
        (201, '$'),
        (400, '$'),
        (401, '#'),
        (700, '#'),
        (701, '%'),
        (usize::MAX, '%'),
    ];
    for (count, glyph) in cases {
        assert_eq!(glyph_for(count), glyph, "count {}", count);
    }
}

#[test]
fn step_at_cap_settles_on_cap() {
    assert_eq!(escape_step(7, 7, true), EscapeStep::Done(7));
    assert_eq!(escape_step(7, 7, false), EscapeStep::Done(7));
    assert_eq!(escape_step(0, 0, true), EscapeStep::Done(0));
}

#[test]
fn step_below_cap() {
    assert_eq!(escape_step(3, 7, true), EscapeStep::Done(3));
    assert_eq!(escape_step(3, 7, false), EscapeStep::Iterate(4));
    assert_eq!(escape_step(0, 1, false), EscapeStep::Iterate(1));
}

#[test]
fn checks_give_first_outside_index() {
    assert_eq!(count_from_checks(&[false, false, true, true], 10), 2);
    assert_eq!(count_from_checks(&[false, false, true], 2), 2);
    assert_eq!(count_from_checks(&[false; 5], 5), 5);
}

#[test]
fn origin_reaches_cap() {
    for n in [1usize, 2, 50, 1000] {
        assert_eq!(escape_count(0.0, 0.0, n), n);
    }
}

#[test]
fn first_update_escapes_counts_one() {
    // z = 0 passes the check at index 0; after one update z = 2 + 2i is out.
    for n in [1usize, 2, 3, 50] {
        assert_eq!(escape_count(2.0, 2.0, n), 1);
    }
    assert_eq!(count_from_checks(&[false, true], 50), 1);
}

#[test]
fn escape_count_is_deterministic() {
    for (cx, cy) in [(0.3, 0.5), (-0.75, 0.1), (0.7, -0.3)] {
        assert_eq!(escape_count(cx, cy, 200), escape_count(cx, cy, 200));
    }
}

#[test]
fn known_escape_counts() {
    // 0.7 - 0.3i: z1 = c, z2 = 1.1 - 0.72i, z3 = 1.3916 - 1.884i leaves the disk.
    assert_eq!(escape_count(0.7, -0.3, 50), 3);
    // -0.5 - 0.3i lies in the main cardioid.
    assert_eq!(escape_count(-0.5, -0.3, 50), 50);
    assert_eq!(escape_count(-1.0, 0.0, 20), 20);
}

#[test]
fn grid_cells_come_in_row_major_order() {
    let mut grid = EscapeGrid::new(3, 2, 9);
    let mut order = Vec::new();
    let mut k: usize = 0;
    while let Some(cell) = grid.next_cell() {
        order.push(cell);
        grid.record(k);
        k += 1;
    }
    assert_eq!(order, vec![(0, 0), (0, 1), (0, 2), (1, 0), (1, 1), (1, 2)]);
    assert_eq!(grid.into_rows(), vec![vec![0, 1, 2], vec![3, 4, 5]]);
}

#[test]
fn single_cell_grid() {
    let mut grid = EscapeGrid::new(1, 1, 4);
    assert_eq!(grid.next_cell(), Some((0, 0)));
    grid.record(4);
    assert_eq!(grid.next_cell(), None);
    assert_eq!(grid.into_rows(), vec![vec![4]]);
}

#[test]
fn grid_shape_and_range() {
    let rows = compute_grid(30, -2.0, 1.0, -1.5, 1.5, 7, 4);
    assert_eq!(rows.len(), 4);
    for row in &rows {
        assert_eq!(row.len(), 7);
        for &v in row {
            assert!(v <= 30);
        }
    }
}

#[test]
fn render_line_maps_each_count() {
    assert_eq!(render_line(&vec![50, 0, 4]), "+ .");
    assert_eq!(render_line(&vec![]), "");
}

#[test]
fn render_keeps_row_and_column_order() {
    let grid = vec![vec![0, 3, 6], vec![11, 31, 101], vec![201, 401, 701]];
    let lines = render_mandelbrot(&grid);
    assert_eq!(lines, vec![" .\u{2022}".to_string(), "*+x".to_string(), "$#%".to_string()]);
}

#[test]
fn render_empty_grid() {
    assert!(render_mandelbrot(&vec![]).is_empty());
}

#[test]
fn classic_viewport_end_to_end() {
    let lines = render_mandelbrot(&compute_grid(50, -2.0, 1.0, -1.5, 1.5, 10, 5));
    assert_eq!(lines.len(), 5);
    for line in &lines {
        assert_eq!(line.chars().count(), 10);
    }
    let middle: Vec<char> = lines[2].chars().collect();
    // Column 5 samples -0.5 - 0.3i, inside the set: count 50.
    assert_eq!(middle[5], '+');
    // Column 9 samples 0.7 - 0.3i, which leaves after three updates.
    assert_eq!(middle[9], '.');
}

#[test]
fn pipeline_is_idempotent() {
    let first = render_mandelbrot(&compute_grid(100, -2.0, 1.0, -1.5, 1.5, 30, 12));
    let second = render_mandelbrot(&compute_grid(100, -2.0, 1.0, -1.5, 1.5, 30, 12));
    assert_eq!(first, second);
}
