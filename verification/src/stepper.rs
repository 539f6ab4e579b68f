//! The rule engine: advance a stored generation to the next one, reading
//! every neighbour count from an immutable snapshot of the old generation.

use vstd::prelude::*;
use crate::rules::{alive_at, grid_view, neighbor_count, next_state, step_view};

verus! {

/// Bounds-checked read: positions outside the stored rows are dead.
fn cell_alive(snap: &Vec<Vec<bool>>, x: usize, y: usize) -> (r: bool)
    ensures
        r == alive_at(grid_view(snap@), x as int, y as int),
{
    y < snap.len() && x < snap[y].len() && snap[y][x]
}

/// Count the live cells among the eight neighbours of (x, y) in the
/// snapshot, the positions beyond an edge counting as dead.
fn count_live_neighbors(snap: &Vec<Vec<bool>>, x: usize, y: usize) -> (n: u8)
    requires
        y < snap@.len(),
        x < snap@[y as int]@.len(),
    ensures
        n as int == neighbor_count(grid_view(snap@), x as int, y as int),
{
    let h: usize = snap.len();
    let w: usize = snap[y].len();
    let mut n: u8 = 0;
    if y > 0 {
        if x > 0 && cell_alive(snap, x - 1, y - 1) {
            n = n + 1;
        }
        if cell_alive(snap, x, y - 1) {
            n = n + 1;
        }
        if cell_alive(snap, x + 1, y - 1) {
            n = n + 1;
        }
    }
    if x > 0 && cell_alive(snap, x - 1, y) {
        n = n + 1;
    }
    if cell_alive(snap, x + 1, y) {
        n = n + 1;
    }
    if x > 0 && cell_alive(snap, x - 1, y + 1) {
        n = n + 1;
    }
    if cell_alive(snap, x, y + 1) {
        n = n + 1;
    }
    if cell_alive(snap, x + 1, y + 1) {
        n = n + 1;
    }
    n
}

/// Whether the cell lives in the next generation, by the fixed rule.
fn next_cell(alive: bool, n: u8) -> (r: bool)
    ensures
        r == next_state(alive, n as int),
{
    if alive {
        n == 2 || n == 3
    } else {
        n == 3 || n == 6
    }
}

/// A deep copy of the stored generation: the immutable read source for one
/// step.
pub fn snapshot_of(stage: &Vec<Vec<bool>>) -> (s: Vec<Vec<bool>>)
    ensures
        grid_view(s@) == grid_view(stage@),
{
    let mut s: Vec<Vec<bool>> = Vec::new();
    let mut y: usize = 0;
    while y < stage.len()
        invariant
            y <= stage@.len(),
            s@.len() == y,
            forall|i: int| 0 <= i < y ==> grid_view(s@)[i] == grid_view(stage@)[i],
        decreases stage@.len() - y,
    {
        let mut row: Vec<bool> = Vec::new();
        let mut x: usize = 0;
        while x < stage[y].len()
            invariant
                y < stage@.len(),
                x <= stage@[y as int]@.len(),
                row@.len() == x,
                forall|j: int| 0 <= j < x ==> row@[j] == stage@[y as int]@[j],
            decreases stage@[y as int]@.len() - x,
        {
            row.push(stage[y][x]);
            x = x + 1;
        }
        assert(row@ =~= stage@[y as int]@);
        s.push(row);
        y = y + 1;
    }
    assert(grid_view(s@) =~= grid_view(stage@));
    s
}

/// Advance the stored generation by one step of the rule. The new value of
/// every cell is a function of the old generation alone.
pub fn update(stage: &mut Vec<Vec<bool>>)
    ensures
        grid_view(final(stage)@) == step_view(grid_view(old(stage)@)),
{
    let ghost g0: Seq<Seq<bool>> = grid_view(stage@);
    let snap = snapshot_of(stage);
    let mut next: Vec<Vec<bool>> = Vec::new();
    let mut y: usize = 0;
    while y < snap.len()
        invariant
            grid_view(snap@) == g0,
            y <= snap@.len(),
            next@.len() == y,
            forall|i: int| 0 <= i < y ==> grid_view(next@)[i] == step_view(g0)[i],
        decreases snap@.len() - y,
    {
        let mut row: Vec<bool> = Vec::new();
        let mut x: usize = 0;
        while x < snap[y].len()
            invariant
                grid_view(snap@) == g0,
                y < snap@.len(),
                x <= snap@[y as int]@.len(),
                row@.len() == x,
                forall|j: int| 0 <= j < x ==> row@[j] == step_view(g0)[y as int][j],
            decreases snap@[y as int]@.len() - x,
        {
            let n = count_live_neighbors(&snap, x, y);
            let cur = snap[y][x];
            row.push(next_cell(cur, n));
            x = x + 1;
        }
        assert(row@ =~= step_view(g0)[y as int]);
        next.push(row);
        y = y + 1;
    }
    assert(grid_view(next@) =~= step_view(g0));
    *stage = next;
}

} // verus!
