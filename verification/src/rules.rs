//! The mathematical model of the automaton: a generation as a sequence of
//! rows of alive flags, the neighbour count, and the survival/birth rule.

use vstd::prelude::*;

verus! {

/// The alive flags of a stored generation, row by row.
pub open spec fn grid_view(rows: Seq<Vec<bool>>) -> Seq<Seq<bool>> {
    Seq::new(rows.len(), |y: int| rows[y]@)
}

/// Whether position (x, y) holds a live cell; any position outside the grid
/// is dead (the implicit border of dead cells).
pub open spec fn alive_at(g: Seq<Seq<bool>>, x: int, y: int) -> bool {
    0 <= y < g.len() && 0 <= x < g[y].len() && g[y][x]
}

/// 1 for a live cell, 0 for a dead one.
pub open spec fn alive_as_int(b: bool) -> int {
    if b {
        1
    } else {
        0
    }
}

/// Live cells among the eight neighbours of (x, y) at Chebyshev distance 1,
/// evaluated against generation g alone.
pub open spec fn neighbor_count(g: Seq<Seq<bool>>, x: int, y: int) -> int {
    alive_as_int(alive_at(g, x - 1, y - 1)) + alive_as_int(alive_at(g, x, y - 1)) + alive_as_int(
        alive_at(g, x + 1, y - 1),
    ) + alive_as_int(alive_at(g, x - 1, y)) + alive_as_int(alive_at(g, x + 1, y)) + alive_as_int(
        alive_at(g, x - 1, y + 1),
    ) + alive_as_int(alive_at(g, x, y + 1)) + alive_as_int(alive_at(g, x + 1, y + 1))
}

/// The fixed rule: a live cell survives on exactly 2 or 3 live neighbours;
/// a dead cell is born on exactly 3 or exactly 6 (a deliberate variant of
/// the classical rule, which births on 3 alone).
pub open spec fn next_state(alive: bool, n: int) -> bool {
    if alive {
        n == 2 || n == 3
    } else {
        n == 3 || n == 6
    }
}

/// The next generation: every cell derived from the previous generation
/// alone, so no partially updated value can influence a neighbour count.
pub open spec fn step_view(g: Seq<Seq<bool>>) -> Seq<Seq<bool>> {
    Seq::new(
        g.len(),
        |y: int| Seq::new(g[y].len(), |x: int| next_state(g[y][x], neighbor_count(g, x, y))),
    )
}

/// Every row has the length of the first: the grid is rectangular.
pub open spec fn rectangular(g: Seq<Seq<bool>>) -> bool {
    forall|y: int| 0 <= y < g.len() ==> (#[trigger] g[y]).len() == g[0].len()
}

/// No live cell anywhere.
pub open spec fn all_dead(g: Seq<Seq<bool>>) -> bool {
    forall|y: int, x: int| 0 <= y < g.len() && 0 <= x < g[y].len() ==> !(#[trigger] g[y][x])
}

/// The generation reached after n steps.
pub open spec fn step_iter(g: Seq<Seq<bool>>, n: nat) -> Seq<Seq<bool>>
    decreases n,
{
    if n == 0 {
        g
    } else {
        step_view(step_iter(g, (n - 1) as nat))
    }
}

} // verus!
