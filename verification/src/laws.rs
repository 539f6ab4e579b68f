//! General properties of the rule engine, stated over the mathematical
//! model and proved once for every grid.

use vstd::prelude::*;
use crate::rules::{
    all_dead,
    alive_at,
    neighbor_count,
    next_state,
    step_iter,
    step_view,
};

verus! {

/// In a 1 x 1 grid the sole cell has no neighbours, so it can never reach
/// the survival or birth thresholds: every step leaves it dead, whatever it
/// held before.
pub proof fn lemma_unit_grid_steps_to_dead(g: Seq<Seq<bool>>)
    requires
        g.len() == 1,
        g[0].len() == 1,
    ensures
        step_view(g).len() == 1,
        step_view(g)[0].len() == 1,
        !step_view(g)[0][0],
{
    assert(neighbor_count(g, 0, 0) == 0);
    assert(step_view(g)[0][0] == next_state(g[0][0], 0));
}

/// The next generation is a function of the current one alone, with no
/// hidden randomness: equal generations step to equal generations.
pub proof fn lemma_step_deterministic(g1: Seq<Seq<bool>>, g2: Seq<Seq<bool>>)
    requires
        g1 == g2,
    ensures
        step_view(g1) == step_view(g2),
{
}

/// A neighbour count always lies between 0 and 8.
pub proof fn lemma_neighbor_count_bounds(g: Seq<Seq<bool>>, x: int, y: int)
    ensures
        0 <= neighbor_count(g, x, y) <= 8,
{
}

/// A live cell with all eight neighbours alive dies, since 8 is neither 2
/// nor 3.
pub proof fn lemma_crowded_cell_dies(g: Seq<Seq<bool>>, x: int, y: int)
    requires
        0 <= y < g.len(),
        0 <= x < g[y].len(),
        g[y][x],
        neighbor_count(g, x, y) == 8,
    ensures
        !step_view(g)[y][x],
{
    assert(step_view(g)[y][x] == next_state(g[y][x], 8));
}

/// A step keeps the row count and every row length.
pub proof fn lemma_step_preserves_dimensions(g: Seq<Seq<bool>>)
    ensures
        step_view(g).len() == g.len(),
        forall|y: int| 0 <= y < g.len() ==> #[trigger] step_view(g)[y].len() == g[y].len(),
{
}

/// An all-dead grid has a neighbour count of 0 everywhere.
pub proof fn lemma_all_dead_count_zero(g: Seq<Seq<bool>>, x: int, y: int)
    requires
        all_dead(g),
    ensures
        neighbor_count(g, x, y) == 0,
{
    assert forall|xx: int, yy: int| !alive_at(g, xx, yy) by {
        if 0 <= yy < g.len() && 0 <= xx < g[yy].len() {
            assert(!g[yy][xx]);
        }
    }
}

/// An all-dead grid steps to itself, since no dead cell can reach the
/// birth thresholds 3 or 6.
pub proof fn lemma_dead_grid_stays_dead(g: Seq<Seq<bool>>)
    requires
        all_dead(g),
    ensures
        step_view(g) == g,
        all_dead(step_view(g)),
{
    assert forall|y: int| 0 <= y < g.len() implies #[trigger] step_view(g)[y] =~= g[y] by {
        assert forall|x: int| 0 <= x < g[y].len() implies #[trigger] step_view(g)[y][x] == g[y][x] by {
            lemma_all_dead_count_zero(g, x, y);
            assert(!g[y][x]);
            assert(step_view(g)[y][x] == next_state(false, 0));
        }
    }
    assert(step_view(g) =~= g);
}

/// An all-dead grid is still that same grid after any number of steps.
pub proof fn lemma_dead_grid_stays_dead_forever(g: Seq<Seq<bool>>, n: nat)
    requires
        all_dead(g),
    ensures
        step_iter(g, n) == g,
    decreases n,
{
    if n > 0 {
        lemma_dead_grid_stays_dead_forever(g, (n - 1) as nat);
        lemma_dead_grid_stays_dead(g);
    }
}

} // verus!
