//! The mathematical model of the automaton: a grid is a sequence of rows of
//! liveness flags, and every operation of the library is stated over it.

use vstd::prelude::*;

verus! {

/// The cells of a grid, row by row.
pub type Cells = Seq<Seq<bool>>;

/// Every row is as long as the grid has rows.
pub open spec fn is_square(g: Cells) -> bool {
    forall|r: int| 0 <= r < g.len() ==> (#[trigger] g[r]).len() == g.len()
}

/// Whether `(r, c)` is a cell of `g`.
pub open spec fn in_grid(g: Cells, r: int, c: int) -> bool {
    0 <= r < g.len() && 0 <= c < g[r].len()
}

/// Liveness of `(r, c)`, where every position outside the grid is dead.
pub open spec fn live_at(g: Cells, r: int, c: int) -> bool {
    in_grid(g, r, c) && g[r][c]
}

/// One for a live position, zero for a dead one or one outside the grid.
pub open spec fn population(g: Cells, r: int, c: int) -> nat {
    if live_at(g, r, c) {
        1
    } else {
        0
    }
}

/// The number of live cells among the up to eight cells that touch `(r, c)`.
/// The cell itself is not counted, and the grid does not wrap around.
pub open spec fn live_neighbours(g: Cells, r: int, c: int) -> nat {
    population(g, r - 1, c - 1) + population(g, r - 1, c) + population(g, r - 1, c + 1)
        + population(g, r, c - 1) + population(g, r, c + 1)
        + population(g, r + 1, c - 1) + population(g, r + 1, c) + population(g, r + 1, c + 1)
}

/// The all-dead square grid of dimension `n`.
pub open spec fn dead_grid(n: nat) -> Cells {
    Seq::new(n, |r: int| Seq::new(n, |c: int| false))
}

/// No cell of `g` is alive.
pub open spec fn all_dead(g: Cells) -> bool {
    forall|r: int, c: int| !live_at(g, r, c)
}

/// `g` with the cell `(r, c)` overwritten by `alive`.
pub open spec fn with_cell(g: Cells, r: int, c: int, alive: bool) -> Cells {
    g.update(r, g[r].update(c, alive))
}

/// The square grid of dimension `n` that agrees with `g` wherever both have a
/// cell and is dead elsewhere.
pub open spec fn resized(g: Cells, n: nat) -> Cells {
    Seq::new(n, |r: int| Seq::new(n, |c: int| live_at(g, r, c)))
}

/// The fate of one cell, given its liveness and its number of live neighbours.
pub open spec fn next_alive(alive: bool, neighbours: nat) -> bool {
    if neighbours < 2 || neighbours > 3 {
        false
    } else if neighbours == 3 {
        true
    } else {
        alive
    }
}

/// One generation: every cell with both coordinates below `size` meets its
/// fate, judged by the neighbours it has in `g`; the others stay as they are.
pub open spec fn step_cells(g: Cells, size: int) -> Cells {
    Seq::new(
        g.len(),
        |r: int|
            Seq::new(
                g[r].len(),
                |c: int|
                    if r < size && c < size {
                        next_alive(g[r][c], live_neighbours(g, r, c))
                    } else {
                        g[r][c]
                    },
            ),
    )
}

/// `count` generations in a row.
pub open spec fn step_many(g: Cells, size: int, count: nat) -> Cells
    decreases count,
{
    if count == 0 {
        g
    } else {
        step_cells(step_many(g, size, (count - 1) as nat), size)
    }
}

/// The live cells of `g` are exactly the four of the two by two block whose
/// top left cell is `(r, c)`.
pub open spec fn is_block(g: Cells, r: int, c: int) -> bool {
    forall|i: int, j: int| #[trigger] live_at(g, i, j) <==> r <= i <= r + 1 && c <= j <= c + 1
}

/// The live cells of `g` are exactly the three that lie in row `r`, in the
/// columns `c - 1`, `c` and `c + 1`.
pub open spec fn is_row_of_three(g: Cells, r: int, c: int) -> bool {
    forall|i: int, j: int| #[trigger] live_at(g, i, j) <==> i == r && c - 1 <= j <= c + 1
}

/// The live cells of `g` are exactly the three that lie in column `c`, in the
/// rows `r - 1`, `r` and `r + 1`.
pub open spec fn is_column_of_three(g: Cells, r: int, c: int) -> bool {
    forall|i: int, j: int| #[trigger] live_at(g, i, j) <==> j == c && r - 1 <= i <= r + 1
}

/// An all-dead grid of dimension `n` is square, has `n` rows, and no cell of
/// it is alive.
pub proof fn law_dead_grid(n: nat)
    ensures
        dead_grid(n).len() == n,
        is_square(dead_grid(n)),
        all_dead(dead_grid(n)),
{
}

/// A cell reads as what was last written to it, and writing one cell leaves
/// the shape of the grid and every other cell as they were.
pub proof fn law_write_then_read(g: Cells, r: int, c: int, alive: bool)
    requires
        in_grid(g, r, c),
    ensures
        with_cell(g, r, c, alive)[r][c] == alive,
        with_cell(g, r, c, alive).len() == g.len(),
        forall|i: int|
            0 <= i < g.len() ==> (#[trigger] with_cell(g, r, c, alive)[i]).len() == g[i].len(),
        forall|i: int, j: int|
            in_grid(g, i, j) && (i != r || j != c) ==> #[trigger] with_cell(g, r, c, alive)[i][j]
                == g[i][j],
        is_square(g) ==> is_square(with_cell(g, r, c, alive)),
{
    let h = with_cell(g, r, c, alive);
    if is_square(g) {
        assert forall|i: int| 0 <= i < h.len() implies (#[trigger] h[i]).len() == h.len() by {
            assert(g[i].len() == g.len());
        }
    }
}

/// The count of live neighbours leaves the cell itself out: it is the same
/// whether the cell is alive or dead. It never exceeds eight.
pub proof fn law_neighbours_exclude_self(g: Cells, r: int, c: int, alive: bool)
    requires
        in_grid(g, r, c),
    ensures
        live_neighbours(with_cell(g, r, c, alive), r, c) == live_neighbours(g, r, c),
        live_neighbours(g, r, c) <= 8,
{
    let h = with_cell(g, r, c, alive);
    assert forall|i: int, j: int| i != r || j != c implies live_at(h, i, j) == live_at(
        g,
        i,
        j,
    ) by {}
}

/// The grid does not wrap around: a cell in a corner of a square grid has at
/// most three neighbours, and one on an edge at most five.
pub proof fn law_border_neighbours(g: Cells, r: int, c: int)
    requires
        is_square(g),
        in_grid(g, r, c),
    ensures
        (r == 0 || r == g.len() - 1) && (c == 0 || c == g.len() - 1) ==> live_neighbours(g, r, c)
            <= 3,
        r == 0 || r == g.len() - 1 || c == 0 || c == g.len() - 1 ==> live_neighbours(g, r, c)
            <= 5,
{
    assert(g[r].len() == g.len());
    if r > 0 {
        assert(g[r - 1].len() == g.len());
    }
    if r + 1 < g.len() {
        assert(g[r + 1].len() == g.len());
    }
}

/// A resized grid is square and has the dimension asked for.
pub proof fn law_resize_shape(g: Cells, n: nat)
    ensures
        resized(g, n).len() == n,
        is_square(resized(g, n)),
{
}

/// A square grid resized to the dimension it has is the grid itself.
pub proof fn law_resize_to_own_dimension(g: Cells)
    requires
        is_square(g),
    ensures
        resized(g, g.len()) == g,
{
    let h = resized(g, g.len());
    assert(h =~= g) by {
        assert forall|r: int| 0 <= r < g.len() implies #[trigger] h[r] =~= g[r] by {
            assert(g[r].len() == g.len());
        }
    }
}

/// A square grid that grows keeps the liveness of every cell it had, and
/// every cell it gains is dead.
pub proof fn law_resize_grow(g: Cells, n: nat)
    requires
        is_square(g),
        n > g.len(),
    ensures
        forall|r: int, c: int|
            0 <= r < g.len() && 0 <= c < g.len() ==> #[trigger] resized(g, n)[r][c] == g[r][c],
        forall|r: int, c: int|
            0 <= r < n && 0 <= c < n && (r >= g.len() || c >= g.len()) ==> !#[trigger] resized(
                g,
                n,
            )[r][c],
{
    assert forall|r: int, c: int| 0 <= r < g.len() && 0 <= c < g.len() implies #[trigger] resized(
        g,
        n,
    )[r][c] == g[r][c] by {
        assert(g[r].len() == g.len());
    }
    assert forall|r: int, c: int|
        0 <= r < n && 0 <= c < n && (r >= g.len() || c >= g.len()) implies !#[trigger] resized(
        g,
        n,
    )[r][c] by {
        if r < g.len() {
            assert(g[r].len() == g.len());
        }
    }
}

/// A square grid that shrinks keeps the liveness of every cell that is left,
/// and has no other cell.
pub proof fn law_resize_shrink(g: Cells, n: nat)
    requires
        is_square(g),
        n < g.len(),
    ensures
        forall|r: int, c: int|
            0 <= r < n && 0 <= c < n ==> #[trigger] resized(g, n)[r][c] == g[r][c],
        forall|r: int, c: int| in_grid(resized(g, n), r, c) <==> 0 <= r < n && 0 <= c < n,
{
    assert forall|r: int, c: int| 0 <= r < n && 0 <= c < n implies #[trigger] resized(
        g,
        n,
    )[r][c] == g[r][c] by {
        assert(g[r].len() == g.len());
    }
}

/// The rule is Conway's: a dead cell is born with exactly three live
/// neighbours, a live cell survives with two or three, and every other cell is
/// dead in the next generation.
pub proof fn law_birth_and_survival(alive: bool, neighbours: nat)
    ensures
        next_alive(alive, neighbours) == (neighbours == 3 || (alive && neighbours == 2)),
{
}

/// A generation keeps the shape of the grid.
pub proof fn law_step_shape(g: Cells, size: int)
    ensures
        step_cells(g, size).len() == g.len(),
        forall|r: int| 0 <= r < g.len() ==> (#[trigger] step_cells(g, size)[r]).len() == g[r].len(),
        is_square(g) ==> is_square(step_cells(g, size)),
{
    if is_square(g) {
        let h = step_cells(g, size);
        assert forall|r: int| 0 <= r < h.len() implies (#[trigger] h[r]).len() == h.len() by {
            assert(g[r].len() == g.len());
        }
    }
}

/// Generations add up: none leave the grid as it is, one is the step itself,
/// and `first` generations followed by `second` more are `first + second`
/// generations.
pub proof fn law_generations_add(g: Cells, size: int, first: nat, second: nat)
    ensures
        step_many(g, size, 0) == g,
        step_many(g, size, 1) == step_cells(g, size),
        step_many(step_many(g, size, first), size, second) == step_many(g, size, first + second),
    decreases second,
{
    reveal_with_fuel(step_many, 2);
    if second > 0 {
        law_generations_add(g, size, first, (second - 1) as nat);
    }
}

/// A grid with no live cell stays as it is, however many generations pass.
pub proof fn law_dead_stays_dead(g: Cells, size: int, count: nat)
    requires
        all_dead(g),
    ensures
        step_many(g, size, count) == g,
    decreases count,
{
    if count > 0 {
        law_dead_stays_dead(g, size, (count - 1) as nat);
        let h = step_cells(g, size);
        assert(h =~= g) by {
            assert forall|r: int| 0 <= r < g.len() implies #[trigger] h[r] =~= g[r] by {
                assert forall|c: int| 0 <= c < g[r].len() implies h[r][c] == g[r][c] by {
                    lemma_no_life_around(g, r, c);
                    assert(!live_at(g, r, c));
                }
            }
        }
    }
}

/// A two by two block of live cells in an otherwise dead grid is still: a
/// generation leaves the grid as it is.
pub proof fn law_block_is_still(g: Cells, r: int, c: int, size: int)
    requires
        is_block(g, r, c),
    ensures
        step_cells(g, size) == g,
{
    let h = step_cells(g, size);
    assert(h =~= g) by {
        assert forall|i: int| 0 <= i < g.len() implies #[trigger] h[i] =~= g[i] by {
            assert forall|j: int| 0 <= j < g[i].len() implies h[i][j] == g[i][j] by {
                assert(g[i][j] == live_at(g, i, j));
            }
        }
    }
}

/// Two grids of one shape with the same live cells are the same grid.
proof fn lemma_same_life(g: Cells, h: Cells)
    requires
        g.len() == h.len(),
        forall|r: int| 0 <= r < g.len() ==> (#[trigger] g[r]).len() == h[r].len(),
        forall|r: int, c: int| live_at(g, r, c) == live_at(h, r, c),
    ensures
        g == h,
{
    assert(g =~= h) by {
        assert forall|r: int| 0 <= r < g.len() implies #[trigger] g[r] =~= h[r] by {
            assert(g[r].len() == h[r].len());
            assert forall|c: int| 0 <= c < g[r].len() implies g[r][c] == h[r][c] by {
                assert(live_at(g, r, c) == live_at(h, r, c));
            }
        }
    }
}

/// Three live cells in a row, in an otherwise dead square grid with a row
/// above and a row below them, become three in a column through the middle
/// cell after one generation.
pub proof fn law_row_of_three_turns(g: Cells, r: int, c: int)
    requires
        is_square(g),
        is_row_of_three(g, r, c),
        1 <= r < g.len() - 1,
    ensures
        is_column_of_three(step_cells(g, g.len() as int), r, c),
{
    let n = g.len() as int;
    let h = step_cells(g, n);
    assert(live_at(g, r, c - 1) && live_at(g, r, c + 1));
    assert forall|i: int, j: int| #[trigger] live_at(h, i, j) <==> j == c && r - 1 <= i <= r
        + 1 by {
        if 0 <= i < n {
            assert(g[i].len() == n);
            if 0 <= j < n {
                assert(g[i][j] == live_at(g, i, j));
            }
        }
    }
}

/// Three live cells in a column, in an otherwise dead square grid with a
/// column to the left and a column to the right of them, become three in a row
/// through the middle cell after one generation.
pub proof fn law_column_of_three_turns(g: Cells, r: int, c: int)
    requires
        is_square(g),
        is_column_of_three(g, r, c),
        1 <= c < g.len() - 1,
    ensures
        is_row_of_three(step_cells(g, g.len() as int), r, c),
{
    let n = g.len() as int;
    let h = step_cells(g, n);
    assert(live_at(g, r - 1, c) && live_at(g, r + 1, c));
    assert forall|i: int, j: int| #[trigger] live_at(h, i, j) <==> i == r && c - 1 <= j <= c
        + 1 by {
        if 0 <= i < n {
            assert(g[i].len() == n);
            if 0 <= j < n {
                assert(g[i][j] == live_at(g, i, j));
            }
        }
    }
}

/// A row of three with room to turn is back where it was after two
/// generations.
pub proof fn law_row_of_three_has_period_two(g: Cells, r: int, c: int)
    requires
        is_square(g),
        is_row_of_three(g, r, c),
        1 <= r < g.len() - 1,
    ensures
        step_many(g, g.len() as int, 2) == g,
{
    let n = g.len() as int;
    let once = step_cells(g, n);
    let twice = step_cells(once, n);
    reveal_with_fuel(step_many, 3);
    assert(step_many(g, n, 2) == twice);
    assert(live_at(g, r, c - 1) && live_at(g, r, c + 1));
    law_row_of_three_turns(g, r, c);
    law_step_shape(g, n);
    law_column_of_three_turns(once, r, c);
    law_step_shape(once, n);
    assert forall|i: int| 0 <= i < twice.len() implies (#[trigger] twice[i]).len()
        == g[i].len() by {
        assert(once[i].len() == g[i].len());
    }
    lemma_same_life(twice, g);
}

/// In a grid with no live cell, no cell has a live neighbour.
proof fn lemma_no_life_around(g: Cells, r: int, c: int)
    requires
        all_dead(g),
    ensures
        live_neighbours(g, r, c) == 0,
{
    assert(!live_at(g, r - 1, c - 1));
    assert(!live_at(g, r - 1, c));
    assert(!live_at(g, r - 1, c + 1));
    assert(!live_at(g, r, c - 1));
    assert(!live_at(g, r, c + 1));
    assert(!live_at(g, r + 1, c - 1));
    assert(!live_at(g, r + 1, c));
    assert(!live_at(g, r + 1, c + 1));
}

} // verus!
