//! The mathematical model of the simulation: a grid state is a
//! `Seq<Seq<bool>>` (rows of life states), and the step algorithm is the
//! standard Conway rule with a clipped, non-wrapping boundary. The laws at
//! the end state the global properties of the rule.

use vstd::prelude::*;

verus! {

/// `g` has exactly `h` rows of exactly `w` cells each.
pub open spec fn grid_dims(g: Seq<Seq<bool>>, w: int, h: int) -> bool {
    &&& g.len() == h
    &&& forall|y: int| 0 <= y < g.len() ==> (#[trigger] g[y]).len() == w
}

/// The coordinate `(x, y)` names an existing cell of `g`.
pub open spec fn in_bounds(g: Seq<Seq<bool>>, x: int, y: int) -> bool {
    0 <= y < g.len() && 0 <= x < g[y].len()
}

/// The cell at `(x, y)` exists and is alive. Coordinates beyond the border
/// name no cell and never count as alive.
pub open spec fn alive_at(g: Seq<Seq<bool>>, x: int, y: int) -> bool {
    in_bounds(g, x, y) && g[y][x]
}

/// `1` for an alive cell, `0` for a dead or missing one.
pub open spec fn live(b: bool) -> int {
    if b {
        1
    } else {
        0
    }
}

/// The number of alive cells among the up-to-8 Moore neighbors of `(x, y)`
/// that fall inside the grid.
pub open spec fn neighbor_count(g: Seq<Seq<bool>>, x: int, y: int) -> int {
    live(alive_at(g, x + 1, y - 1)) + live(alive_at(g, x + 1, y)) + live(
        alive_at(g, x + 1, y + 1),
    ) + live(alive_at(g, x - 1, y - 1)) + live(alive_at(g, x - 1, y)) + live(
        alive_at(g, x - 1, y + 1),
    ) + live(alive_at(g, x, y - 1)) + live(alive_at(g, x, y + 1))
}

/// Conway's rule for one cell: an alive cell survives with 2 or 3 alive
/// neighbors and otherwise dies; a dead cell becomes alive with exactly 3
/// alive neighbors and otherwise stays dead.
pub open spec fn next_state(alive: bool, neighbors: int) -> bool {
    if alive {
        2 <= neighbors <= 3
    } else {
        neighbors == 3
    }
}

/// One generation: the rule applied to every cell, all neighbor counts
/// taken from the pre-step grid.
pub open spec fn step(g: Seq<Seq<bool>>) -> Seq<Seq<bool>> {
    Seq::new(
        g.len(),
        |y: int| Seq::new(g[y].len(), |x: int| next_state(g[y][x], neighbor_count(g, x, y))),
    )
}

/// `n` generations.
pub open spec fn step_n(g: Seq<Seq<bool>>, n: nat) -> Seq<Seq<bool>>
    decreases n,
{
    if n == 0 {
        g
    } else {
        step(step_n(g, (n - 1) as nat))
    }
}

/// A grid of `h` rows of `w` dead cells.
pub open spec fn dead_grid(w: int, h: int) -> Seq<Seq<bool>> {
    Seq::new(h as nat, |y: int| Seq::new(w as nat, |x: int| false))
}

/// Every cell of `g` is dead.
pub open spec fn all_dead(g: Seq<Seq<bool>>) -> bool {
    forall|x: int, y: int| !#[trigger] alive_at(g, x, y)
}

/// The singleton sequence of the cell at `(x, y)` when it exists, else the
/// empty sequence. Building block of `neighbor_cells`.
pub open spec fn maybe_cell(g: Seq<Seq<bool>>, x: int, y: int) -> Seq<bool> {
    if in_bounds(g, x, y) {
        seq![g[y][x]]
    } else {
        Seq::empty()
    }
}

/// The life states of the existing Moore neighbors of `(x, y)`, in the
/// fixed order the grid enumerates them: the column to the right top to
/// bottom, the column to the left top to bottom, then above and below.
pub open spec fn neighbor_cells(g: Seq<Seq<bool>>, x: int, y: int) -> Seq<bool> {
    maybe_cell(g, x + 1, y - 1) + maybe_cell(g, x + 1, y) + maybe_cell(g, x + 1, y + 1)
        + maybe_cell(g, x - 1, y - 1) + maybe_cell(g, x - 1, y) + maybe_cell(g, x - 1, y + 1)
        + maybe_cell(g, x, y - 1) + maybe_cell(g, x, y + 1)
}

/// A grid of `h` rows of `w` cells, dead everywhere but for an alive
/// 2-by-2 block whose top-left corner is `(bx, by)`.
pub open spec fn block_grid(w: int, h: int, bx: int, by: int) -> Seq<Seq<bool>> {
    Seq::new(
        h as nat,
        |y: int| Seq::new(w as nat, |x: int| bx <= x <= bx + 1 && by <= y <= by + 1),
    )
}

/// Law: with both dimensions at least 3, a corner cell has exactly 3
/// existing neighbors, a non-corner edge cell exactly 5, and an interior
/// cell exactly 8.
pub proof fn lemma_neighbor_boundary_counts(g: Seq<Seq<bool>>, w: int, h: int, x: int, y: int)
    requires
        grid_dims(g, w, h),
        3 <= w,
        3 <= h,
        0 <= x < w,
        0 <= y < h,
    ensures
        (x == 0 || x == w - 1) && (y == 0 || y == h - 1) ==> neighbor_cells(g, x, y).len() == 3,
        (x == 0 || x == w - 1) != (y == 0 || y == h - 1) ==> neighbor_cells(g, x, y).len() == 5,
        0 < x < w - 1 && 0 < y < h - 1 ==> neighbor_cells(g, x, y).len() == 8,
{
    assert forall|xx: int, yy: int| #[trigger]
        in_bounds(g, xx, yy) <==> 0 <= xx < w && 0 <= yy < h by {
        if 0 <= yy < h {
            assert(g[yy].len() == w);
        }
    }
}

/// Law: a 2-by-2 alive block inside an otherwise dead grid of width and
/// height at least 4 is a still life: one step leaves the grid unchanged.
/// Each block cell has exactly 3 alive neighbors; every dead cell adjacent
/// to the block has at most 2.
pub proof fn lemma_block_still_life(w: int, h: int, bx: int, by: int)
    requires
        4 <= w,
        4 <= h,
        0 <= bx,
        bx + 1 < w,
        0 <= by,
        by + 1 < h,
    ensures
        step(block_grid(w, h, bx, by)) == block_grid(w, h, bx, by),
{
    let g = block_grid(w, h, bx, by);
    assert forall|xx: int, yy: int| #[trigger]
        alive_at(g, xx, yy) <==> (bx <= xx <= bx + 1 && by <= yy <= by + 1) by {
        if 0 <= yy < h {
            assert(g[yy].len() == w);
        }
    }
    assert forall|y: int, x: int| 0 <= y < h && 0 <= x < w implies step(g)[y][x] == g[y][x] by {
        assert(alive_at(g, x + 1, y - 1) <==> (bx <= x + 1 <= bx + 1 && by <= y - 1 <= by + 1));
        assert(alive_at(g, x + 1, y) <==> (bx <= x + 1 <= bx + 1 && by <= y <= by + 1));
        assert(alive_at(g, x + 1, y + 1) <==> (bx <= x + 1 <= bx + 1 && by <= y + 1 <= by + 1));
        assert(alive_at(g, x - 1, y - 1) <==> (bx <= x - 1 <= bx + 1 && by <= y - 1 <= by + 1));
        assert(alive_at(g, x - 1, y) <==> (bx <= x - 1 <= bx + 1 && by <= y <= by + 1));
        assert(alive_at(g, x - 1, y + 1) <==> (bx <= x - 1 <= bx + 1 && by <= y + 1 <= by + 1));
        assert(alive_at(g, x, y - 1) <==> (bx <= x <= bx + 1 && by <= y - 1 <= by + 1));
        assert(alive_at(g, x, y + 1) <==> (bx <= x <= bx + 1 && by <= y + 1 <= by + 1));
    }
    assert(step(g) =~~= g);
}

/// Law: the step rule creates no life in a fully dead grid; after any
/// number of generations every cell is still dead (no cell can ever reach
/// exactly 3 alive neighbors).
pub proof fn lemma_all_dead_stays_dead(g: Seq<Seq<bool>>, n: nat)
    requires
        all_dead(g),
    ensures
        all_dead(step_n(g, n)),
    decreases n,
{
    if n > 0 {
        lemma_all_dead_stays_dead(g, (n - 1) as nat);
        let prev = step_n(g, (n - 1) as nat);
        assert forall|x: int, y: int| !alive_at(step(prev), x, y) by {
            assert(!alive_at(prev, x + 1, y - 1));
            assert(!alive_at(prev, x + 1, y));
            assert(!alive_at(prev, x + 1, y + 1));
            assert(!alive_at(prev, x - 1, y - 1));
            assert(!alive_at(prev, x - 1, y));
            assert(!alive_at(prev, x - 1, y + 1));
            assert(!alive_at(prev, x, y - 1));
            assert(!alive_at(prev, x, y + 1));
            assert(!alive_at(prev, x, y));
        }
    }
}

} // verus!
