use lifegrid::grid::{Grid, GridError};
use lifegrid::stepper::update;

fn rows_from(pattern: &[&[bool]]) -> Vec<Vec<bool>> {
    pattern.iter().map(|r| r.to_vec()).collect()
}

fn grid_from(pattern: &[&[bool]]) -> Grid {
    Grid::from_rows(rows_from(pattern)).unwrap()
}

/// An independent stepper, written directly from the stated rule: count the
/// live neighbours in the untouched input, then apply the thresholds.
fn reference_step(g: &Vec<Vec<bool>>) -> Vec<Vec<bool>> {
    let height = g.len() as i64;
    let mut out = Vec::new();
    for y in 0..g.len() {
        let mut row = Vec::new();
        for x in 0..g[y].len() {
            let mut n: i32 = 0;
            for dy in [-1i64, 0, 1] {
                for dx in [-1i64, 0, 1] {
                    if dx == 0 && dy == 0 {
                        continue;
                    }
                    let nx = x as i64 + dx;
                    let ny = y as i64 + dy;
                    if ny >= 0
                        && ny < height
                        && nx >= 0
                        && nx < g[ny as usize].len() as i64
                        && g[ny as usize][nx as usize]
                    {
                        n += 1;
                    }
                }
            }
            row.push(if g[y][x] {
                n == 2 || n == 3
            } else {
                n == 3 || n == 6
            });
        }
        out.push(row);
    }
    out
}

const T: bool = true;
const F: bool = false;

#[test]
fn unit_grid_cell_dies_every_step() {
    let mut g = grid_from(&[&[T]]);
    for _ in 0..4 {
        g.step();
        assert_eq!(g.get(0, 0), Ok(false));
        assert_eq!(g.width, 1);
        assert_eq!(g.height, 1);
    }
}

#[test]
fn blinker_steps_to_expected_state() {
    let mut g = grid_from(&[
        &[F, F, F],
        &[T, T, T],
        &[F, F, F],
    ]);
    g.step();
    let expected = rows_from(&[
        &[F, T, F],
        &[F, T, F],
        &[F, T, F],
    ]);
    assert_eq!(g.cells, expected);
    g.step();
    let back = rows_from(&[
        &[F, F, F],
        &[T, T, T],
        &[F, F, F],
    ]);
    assert_eq!(g.cells, back);
}

#[test]
fn step_is_deterministic() {
    let pattern: &[&[bool]] = &[
        &[F, F, F],
        &[T, T, T],
        &[F, F, F],
    ];
    let mut a = grid_from(pattern);
    let mut b = grid_from(pattern);
    for _ in 0..3 {
        a.step();
        b.step();
        assert_eq!(a.cells, b.cells);
    }
}

#[test]
fn crowded_cell_dies() {
    let mut g = grid_from(&[
        &[T, T, T],
        &[T, T, T],
        &[T, T, T],
    ]);
    g.step();
    // The centre had 8 live neighbours and dies; each edge cell had 5 and
    // dies; each corner had 3 and survives.
    let expected = rows_from(&[
        &[T, F, T],
        &[F, F, F],
        &[T, F, T],
    ]);
    assert_eq!(g.cells, expected);
}

#[test]
fn dead_cell_is_born_on_six_neighbours() {
    // The centre is dead with exactly 6 live neighbours: under the variant
    // rule it is born (classical Life would leave it dead).
    let mut g = grid_from(&[
        &[T, T, T],
        &[T, F, T],
        &[F, T, F],
    ]);
    assert_eq!(g.get(1, 1), Ok(false));
    g.step();
    assert_eq!(g.get(1, 1), Ok(true));
}

#[test]
fn step_matches_reference_step() {
    let pattern: &[&[bool]] = &[
        &[T, F, F, T, T],
        &[F, T, T, F, F],
        &[T, T, F, T, F],
        &[F, F, T, T, T],
    ];
    let mut g = grid_from(pattern);
    let mut model = rows_from(pattern);
    for _ in 0..5 {
        let before = g.snapshot();
        g.step();
        assert_eq!(g.cells, reference_step(&before));
        model = reference_step(&model);
        assert_eq!(g.cells, model);
    }
}

#[test]
fn update_matches_reference_step() {
    let mut stage = rows_from(&[
        &[T, T, F],
        &[F, T, F],
        &[T, F, T],
        &[F, T, T],
    ]);
    let expected = reference_step(&stage);
    update(&mut stage);
    assert_eq!(stage, expected);
}

#[test]
fn step_preserves_dimensions() {
    let mut g = Grid::new(7, 4);
    for _ in 0..6 {
        g.step();
        assert_eq!(g.width, 7);
        assert_eq!(g.height, 4);
        assert_eq!(g.cells.len(), 4);
        for row in &g.cells {
            assert_eq!(row.len(), 7);
        }
    }
}

#[test]
fn dead_grid_stays_dead() {
    let mut g = grid_from(&[
        &[F, F, F, F],
        &[F, F, F, F],
        &[F, F, F, F],
    ]);
    for _ in 0..5 {
        g.step();
        for y in 0..3 {
            for x in 0..4 {
                assert_eq!(g.get(x, y), Ok(false));
            }
        }
    }
}

#[test]
fn random_fill_is_roughly_half_alive() {
    let mut alive = 0u64;
    let mut total = 0u64;
    for _ in 0..40 {
        let g = Grid::new(50, 30);
        for row in &g.cells {
            for &c in row {
                total += 1;
                if c {
                    alive += 1;
                }
            }
        }
    }
    let fraction = alive as f64 / total as f64;
    assert!(
        fraction > 0.45 && fraction < 0.55,
        "alive fraction {} strays too far from one half",
        fraction
    );
}

#[test]
fn new_has_requested_dimensions() {
    let g = Grid::new(50, 30);
    assert_eq!(g.width, 50);
    assert_eq!(g.height, 30);
    assert_eq!(g.cells.len(), 30);
    for row in &g.cells {
        assert_eq!(row.len(), 50);
    }
    let empty = Grid::new(0, 0);
    assert_eq!(empty.width, 0);
    assert_eq!(empty.height, 0);
    assert_eq!(empty.cells.len(), 0);
}

#[test]
fn zero_width_grid_steps_without_harm() {
    let mut g = Grid::new(0, 3);
    g.step();
    assert_eq!(g.height, 3);
    assert_eq!(g.cells, vec![Vec::<bool>::new(), Vec::new(), Vec::new()]);
}

#[test]
fn get_and_set_check_bounds() {
    let mut g = grid_from(&[
        &[F, F],
        &[F, F],
    ]);
    assert_eq!(g.get(2, 0), Err(GridError::OutOfBounds));
    assert_eq!(g.get(0, 2), Err(GridError::OutOfBounds));
    assert_eq!(g.set(2, 0, true), Err(GridError::OutOfBounds));
    assert_eq!(g.set(0, 2, true), Err(GridError::OutOfBounds));
    assert_eq!(g.get(1, 1), Ok(false));
    assert_eq!(g.set(1, 1, true), Ok(()));
    assert_eq!(g.get(1, 1), Ok(true));
    assert_eq!(g.get(0, 0), Ok(false));
}

#[test]
fn ragged_rows_are_rejected() {
    let rows = vec![vec![T, F], vec![T], vec![F, F]];
    assert_eq!(Grid::from_rows(rows).unwrap_err(), GridError::InvalidGrid);
    let fine = vec![vec![T, F], vec![F, T]];
    let g = Grid::from_rows(fine).unwrap();
    assert_eq!(g.width, 2);
    assert_eq!(g.height, 2);
    assert_eq!(g.get(0, 0), Ok(true));
    assert_eq!(g.get(1, 0), Ok(false));
}

#[test]
fn snapshot_is_a_decoupled_copy() {
    let mut g = grid_from(&[
        &[T, F],
        &[F, T],
    ]);
    let snap = g.snapshot();
    assert_eq!(snap, g.cells);
    g.set(0, 0, false).unwrap();
    assert!(snap[0][0]);
    assert!(!g.cells[0][0]);
}
