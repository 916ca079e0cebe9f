//! The automaton: the birth and survival rule applied to a double-buffered
//! grid of cells, under the bounded or the toroidal topology.

use crate::grid::{neighbour_offset, Game, Grid, GridView};
use vstd::arithmetic::div_mod::{lemma_fundamental_div_mod_converse, lemma_mod_bound};
use vstd::prelude::*;

verus! {

/// The sum of a sequence of cell values.
pub open spec fn sum(values: Seq<u8>) -> nat
    decreases values.len(),
{
    if values.len() == 0 {
        0
    } else {
        sum(values.drop_last()) + values.last() as nat
    }
}

/// The sum of the values of the neighbours of `(x, y)` in `grid`, under the
/// toroidal topology if `wrapped`, else under the bounded one.
pub open spec fn neighbour_sum(grid: GridView<u8>, wrapped: bool, x: int, y: int) -> nat {
    if wrapped {
        sum(grid.neighbours_wrapped(x, y))
    } else {
        sum(grid.neighbours(x, y))
    }
}

/// The rule of the automaton. A cell is alive when its value is 1. A live
/// cell stays alive with a neighbour sum of 2 or 3 and dies otherwise; a
/// dead cell becomes alive with a neighbour sum of exactly 3.
pub open spec fn rule(cell: u8, around: nat) -> u8 {
    if cell == 1 {
        if around == 2 || around == 3 {
            1
        } else {
            0
        }
    } else if around == 3 {
        1
    } else {
        0
    }
}

/// The value of the cell `(x, y)` in the generation after `grid`.
pub open spec fn next_cell(grid: GridView<u8>, wrapped: bool, x: int, y: int) -> u8 {
    rule(grid.at(x, y), neighbour_sum(grid, wrapped, x, y))
}

/// The generation after `grid`: a grid of the same dimensions in which
/// every cell is the rule applied to that cell of `grid` and its
/// neighbours.
pub open spec fn next_generation(grid: GridView<u8>, wrapped: bool) -> GridView<u8> {
    GridView {
        width: grid.width,
        height: grid.height,
        cells: Seq::new(
            grid.cells.len(),
            |i: int| next_cell(grid, wrapped, i % (grid.width as int), i / (grid.width as int)),
        ),
    }
}

/// `grid` with each of the listed cells made alive, one after the other.
pub open spec fn revived(grid: GridView<u8>, cells: Seq<(usize, usize)>) -> GridView<u8>
    decreases cells.len(),
{
    if cells.len() == 0 {
        grid
    } else {
        revived(grid, cells.drop_last()).put(cells.last().0 as int, cells.last().1 as int, 1)
    }
}

/// The number of live cells, those of value 1, among `values`.
pub open spec fn live_count(values: Seq<u8>) -> nat
    decreases values.len(),
{
    if values.len() == 0 {
        0
    } else {
        live_count(values.drop_last()) + if values.last() == 1 {
            1nat
        } else {
            0nat
        }
    }
}

/// The number of live neighbours of `(x, y)` in `grid`.
pub open spec fn live_neighbours(grid: GridView<u8>, wrapped: bool, x: int, y: int) -> nat {
    if wrapped {
        live_count(grid.neighbours_wrapped(x, y))
    } else {
        live_count(grid.neighbours(x, y))
    }
}

/// Every cell of `grid` is dead (0) or alive (1).
pub open spec fn is_binary(grid: GridView<u8>) -> bool {
    forall|x: int, y: int| grid.in_bounds(x, y) ==> #[trigger] grid.at(x, y) <= 1
}

/// Each cell of the next generation is the rule applied to that cell and
/// its neighbours.
pub proof fn lemma_next_generation_cell(grid: GridView<u8>, wrapped: bool, x: int, y: int)
    requires
        grid.wf(),
        grid.in_bounds(x, y),
    ensures
        next_generation(grid, wrapped).wf(),
        next_generation(grid, wrapped).at(x, y) == next_cell(grid, wrapped, x, y),
{
    let w = grid.width as int;
    crate::grid::lemma_index_in_range(x, y, w, grid.height as int);
    assert(w * y + x == y * w + x) by (nonlinear_arith);
    lemma_fundamental_div_mod_converse(y * w + x, w, y, x);
}

/// Among cells that are all 0 or 1, the sum of the values is the number of
/// live cells.
pub proof fn lemma_sum_counts_live(values: Seq<u8>)
    requires
        forall|i: int| 0 <= i < values.len() ==> values[i] <= 1,
    ensures
        sum(values) == live_count(values),
    decreases values.len(),
{
    if values.len() > 0 {
        lemma_sum_counts_live(values.drop_last());
    }
}

/// The bounded neighbours of a cell of a grid of 0s and 1s are 0s and 1s.
proof fn lemma_bounded_neighbours_binary(grid: GridView<u8>, x: int, y: int, k: nat)
    requires
        is_binary(grid),
    ensures
        forall|i: int|
            0 <= i < grid.neighbours_upto(x, y, k).len() ==> grid.neighbours_upto(x, y, k)[i] <= 1,
    decreases k,
{
    if k > 0 {
        lemma_bounded_neighbours_binary(grid, x, y, (k - 1) as nat);
        let rest = grid.neighbours_upto(x, y, (k - 1) as nat);
        let all = grid.neighbours_upto(x, y, k);
        let d = neighbour_offset(k - 1);
        assert forall|i: int| 0 <= i < all.len() implies all[i] <= 1 by {
            if i < rest.len() {
                assert(all[i] == rest[i]);
            } else {
                assert(all[i] == grid.at(x + d.0, y + d.1));
            }
        }
    }
}

/// In a grid of cells that are all 0 or 1, the neighbour sum of a cell is
/// the number of its live neighbours.
pub proof fn lemma_neighbour_sum_counts_live(grid: GridView<u8>, wrapped: bool, x: int, y: int)
    requires
        grid.in_bounds(x, y),
        is_binary(grid),
    ensures
        neighbour_sum(grid, wrapped, x, y) == live_neighbours(grid, wrapped, x, y),
{
    if wrapped {
        let around = grid.neighbours_wrapped(x, y);
        let w = grid.width as int;
        let h = grid.height as int;
        assert forall|k: int| 0 <= k < around.len() implies around[k] <= 1 by {
            let d = neighbour_offset(k);
            lemma_mod_bound(x + d.0, w);
            lemma_mod_bound(y + d.1, h);
            assert(grid.in_bounds((x + d.0) % w, (y + d.1) % h));
        }
        lemma_sum_counts_live(around);
    } else {
        lemma_bounded_neighbours_binary(grid, x, y, 8);
        lemma_sum_counts_live(grid.neighbours(x, y));
    }
}

/// A cell without live neighbours is dead in the next generation, whether
/// it was alive or not.
pub proof fn lemma_no_live_neighbours_dead(grid: GridView<u8>, wrapped: bool, x: int, y: int)
    requires
        grid.wf(),
        grid.in_bounds(x, y),
        is_binary(grid),
        live_neighbours(grid, wrapped, x, y) == 0,
    ensures
        next_generation(grid, wrapped).at(x, y) == 0,
{
    lemma_neighbour_sum_counts_live(grid, wrapped, x, y);
    lemma_next_generation_cell(grid, wrapped, x, y);
}

/// A cell with exactly three live neighbours is alive in the next
/// generation, whether it was alive or not.
pub proof fn lemma_three_live_neighbours_alive(grid: GridView<u8>, wrapped: bool, x: int, y: int)
    requires
        grid.wf(),
        grid.in_bounds(x, y),
        is_binary(grid),
        live_neighbours(grid, wrapped, x, y) == 3,
    ensures
        next_generation(grid, wrapped).at(x, y) == 1,
{
    lemma_neighbour_sum_counts_live(grid, wrapped, x, y);
    lemma_next_generation_cell(grid, wrapped, x, y);
}

/// Whatever the cells of a grid hold, those of its next generation are all
/// 0 or 1.
pub proof fn lemma_next_generation_binary(grid: GridView<u8>, wrapped: bool)
    requires
        grid.wf(),
    ensures
        is_binary(next_generation(grid, wrapped)),
{
    assert forall|x: int, y: int| next_generation(grid, wrapped).in_bounds(x, y) implies (
    #[trigger] next_generation(grid, wrapped).at(x, y)) <= 1 by {
        lemma_next_generation_cell(grid, wrapped, x, y);
    }
}

/// The rule on machine integers.
pub fn apply_rule(cell: u8, around: u16) -> (next: u8)
    ensures
        next == rule(cell, around as nat),
{
    if cell == 1 {
        if around < 2 || around > 3 {
            0
        } else {
            1
        }
    } else if around == 3 {
        1
    } else {
        0
    }
}

/// Adds up the first `count` entries of `values`.
fn sum_of(values: &[u8], count: usize) -> (total: u16)
    requires
        count <= values@.len(),
        count <= 8,
    ensures
        total == sum(values@.take(count as int)),
{
    let mut total: u16 = 0;
    let mut i: usize = 0;
    while i < count
        invariant
            i <= count,
            count <= values@.len(),
            count <= 8,
            total == sum(values@.take(i as int)),
            total <= 255 * i,
        decreases count - i,
    {
        assert(values@.take(i + 1).drop_last() == values@.take(i as int));
        total = total + values[i] as u16;
        i = i + 1;
    }
    total
}

/// The automaton: a double-buffered grid of one-byte cells and the topology
/// that its generations are computed under.
#[derive(Debug)]
pub struct Gol {
    grid: Game<u8>,
    wrapped: bool,
}

impl Gol {
    /// The current generation.
    pub closed spec fn spec_grid(&self) -> &Grid<u8> {
        self.grid.grid()
    }

    /// The buffer that holds the generation before the current one.
    pub closed spec fn previous(&self) -> &Grid<u8> {
        self.grid.old_grid()
    }

    /// Whether generations are computed under the toroidal topology.
    pub closed spec fn is_wrapped(&self) -> bool {
        self.wrapped
    }

    /// Both buffers are well formed and have the same dimensions.
    pub open spec fn wf(&self) -> bool {
        &&& self.grid()@.wf()
        &&& self.previous()@.wf()
        &&& self.grid()@.width == self.previous()@.width
        &&& self.grid()@.height == self.previous()@.height
    }

    /// An automaton of the given dimensions with every cell dead.
    pub fn new(width: usize, height: usize, wrapped: bool) -> (gol: Gol)
        requires
            width * height <= usize::MAX,
        ensures
            gol.wf(),
            gol.is_wrapped() == wrapped,
            gol.grid()@.width == width,
            gol.grid()@.height == height,
            gol.grid()@.cells == Seq::new((width * height) as nat, |i: int| 0u8),
            gol.previous()@ == gol.grid()@,
    {
        let gol = Gol { grid: Game::new(width, height), wrapped };
        assert(gol.grid()@.cells =~= Seq::new((width * height) as nat, |i: int| 0u8));
        assert(gol.previous()@.cells =~= gol.grid()@.cells);
        gol
    }

    /// An automaton whose current generation is `grid`; the other buffer
    /// starts as a copy of it.
    pub fn new_from_grid(grid: Grid<u8>, wrapped: bool) -> (gol: Gol)
        ensures
            gol.wf(),
            gol.is_wrapped() == wrapped,
            *gol.grid() == grid,
            gol.previous()@ == grid@,
    {
        let ghost model = grid@;
        let gol = Gol { grid: Game::from(grid), wrapped };
        assert(gol.previous()@.cells =~= model.cells);
        gol
    }

    /// Makes each of the listed cells of the current generation alive and
    /// leaves every other cell as it was.
    pub fn init(&mut self, cells: &[(usize, usize)])
        requires
            forall|k: int|
                0 <= k < cells@.len() ==> old(self).grid()@.in_bounds(
                    (#[trigger] cells@[k]).0 as int,
                    cells@[k].1 as int,
                ),
        ensures
            final(self).grid()@ == revived(old(self).grid()@, cells@),
            *final(self).previous() == *old(self).previous(),
            final(self).is_wrapped() == old(self).is_wrapped(),
    {
        let ghost before = old(self).grid()@;
        let mut k: usize = 0;
        while k < cells.len()
            invariant
                k <= cells@.len(),
                forall|k: int|
                    0 <= k < cells@.len() ==> before.in_bounds(
                        (#[trigger] cells@[k]).0 as int,
                        cells@[k].1 as int,
                    ),
                self.grid.grid()@ == revived(before, cells@.take(k as int)),
                self.grid.grid()@.width == before.width,
                self.grid.grid()@.height == before.height,
                *self.grid.old_grid() == *old(self).grid.old_grid(),
                self.wrapped == old(self).wrapped,
            decreases cells@.len() - k,
        {
            let (x, y) = cells[k];
            assert(cells@.take(k + 1).drop_last() == cells@.take(k as int));
            self.grid.grid_mut().set(x, y, 1);
            k = k + 1;
        }
        assert(cells@.take(k as int) == cells@);
    }

    /// The current generation.
    #[verifier::when_used_as_spec(spec_grid)]
    pub fn grid(&self) -> (g: &Grid<u8>)
        ensures
            g == self.grid(),
            g@.wf(),
    {
        self.grid.grid()
    }

    /// A mutable borrow of the current generation. The other buffer and the
    /// topology are not touched.
    pub fn grid_mut(&mut self) -> (g: &mut Grid<u8>)
        ensures
            *g == *old(self).grid(),
            g@.wf(),
            *final(self).grid() == *final(g),
            *final(self).previous() == *old(self).previous(),
            final(self).is_wrapped() == old(self).is_wrapped(),
    {
        self.grid.grid_mut()
    }

    /// Whether both buffers have the same dimensions, as every operation of
    /// this type leaves them.
    pub fn is_consistent(&self) -> (ok: bool)
        ensures
            ok == self.wf(),
    {
        let grid = self.grid.grid();
        let old_grid = self.grid.old_grid();
        grid.width() == old_grid.width() && grid.height() == old_grid.height()
    }

    /// Computes the next generation. The buffers exchange roles, then every
    /// cell of the new current buffer is written from the rule applied to
    /// the generation that was current.
    pub fn next_turn(&mut self)
        requires
            old(self).wf(),
        ensures
            final(self).wf(),
            final(self).is_wrapped() == old(self).is_wrapped(),
            *final(self).previous() == *old(self).grid(),
            final(self).grid()@ == next_generation(old(self).grid()@, old(self).is_wrapped()),
            is_binary(final(self).grid()@),
    {
        self.grid.next_turn();

        let width = self.grid.grid().width();
        let height = self.grid.grid().height();
        let ghost before = old(self).grid()@;

        let mut x: usize = 0;
        while x < width
            invariant
                x <= width,
                self.wrapped == old(self).wrapped,
                *self.grid.old_grid() == *old(self).grid(),
                before == old(self).grid()@,
                before.wf(),
                self.grid.grid()@.wf(),
                self.grid.grid()@.width == width == before.width,
                self.grid.grid()@.height == height == before.height,
                forall|i: int, j: int|
                    0 <= i < x && 0 <= j < height ==> #[trigger] self.grid.grid()@.at(i, j)
                        == next_cell(before, self.wrapped, i, j),
            decreases width - x,
        {
            let mut y: usize = 0;
            while y < height
                invariant
                    x < width,
                    y <= height,
                    self.wrapped == old(self).wrapped,
                    *self.grid.old_grid() == *old(self).grid(),
                    before == old(self).grid()@,
                    before.wf(),
                    self.grid.grid()@.wf(),
                    self.grid.grid()@.width == width == before.width,
                    self.grid.grid()@.height == height == before.height,
                    forall|i: int, j: int|
                        0 <= i < x && 0 <= j < height ==> #[trigger] self.grid.grid()@.at(i, j)
                            == next_cell(before, self.wrapped, i, j),
                    forall|j: int|
                        0 <= j < y ==> #[trigger] self.grid.grid()@.at(x as int, j) == next_cell(
                            before,
                            self.wrapped,
                            x as int,
                            j,
                        ),
                decreases height - y,
            {
                let mut around = [0u8; 8];
                let prev = self.grid.old_grid();
                let count = if self.wrapped {
                    prev.get_neighbours_wrapped(x, y, &mut around);
                    assert(around@.take(8) == before.neighbours_wrapped(x as int, y as int));
                    8
                } else {
                    proof {
                        before.lemma_at_most_eight(x as int, y as int);
                    }
                    let count = prev.get_neighbours(x, y, &mut around);
                    assert(around@.take(count as int) == before.neighbours(x as int, y as int));
                    count
                };
                let total = sum_of(&around, count);
                let next = apply_rule(prev.get(x, y), total);
                proof {
                    self.grid.grid()@.lemma_put(x as int, y as int, next);
                }
                self.grid.grid_mut().set(x, y, next);
                y = y + 1;
            }
            x = x + 1;
        }
        proof {
            let after = self.grid.grid()@;
            let target = next_generation(before, self.wrapped);
            assert forall|i: int, j: int| after.in_bounds(i, j) implies after.at(i, j)
                == target.at(i, j) by {
                lemma_next_generation_cell(before, self.wrapped, i, j);
            }
            after.lemma_same_cells(target);
            lemma_next_generation_binary(before, self.wrapped);
        }
    }
}

} // verus!
