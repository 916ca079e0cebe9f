//! A dense two-dimensional cell buffer stored row by row, its two neighbour
//! topologies, and the pair of buffers that a double-buffered simulation
//! swaps between.

use vstd::prelude::*;
use vstd::std_specs::convert::FromSpecImpl;

verus! {

/// A `width` by `height` buffer of cells, stored row-major. The dimensions
/// are fixed when the grid is made; every accessor takes coordinates inside
/// `[0, width) x [0, height)`.
#[derive(Debug)]
pub struct Grid<T> {
    width: usize,
    height: usize,
    data: Vec<T>,
}

/// The mathematical model of a grid: its dimensions and its cells in
/// storage order, row `y` at positions `y * width .. (y + 1) * width`.
#[verifier::ext_equal]
pub struct GridView<T> {
    pub width: nat,
    pub height: nat,
    pub cells: Seq<T>,
}

impl<T> View for Grid<T> {
    type V = GridView<T>;

    closed spec fn view(&self) -> GridView<T> {
        GridView { width: self.width as nat, height: self.height as nat, cells: self.data@ }
    }
}

/// The offset of the `k`-th of the eight neighbours of a cell, as
/// `(dx, dy)`: the left column first, then the cells above and below, then
/// the right column, each column from top to bottom.
pub open spec fn neighbour_offset(k: int) -> (int, int) {
    if k == 0 {
        (-1, -1)
    } else if k == 1 {
        (-1, 0)
    } else if k == 2 {
        (-1, 1)
    } else if k == 3 {
        (0, -1)
    } else if k == 4 {
        (0, 1)
    } else if k == 5 {
        (1, -1)
    } else if k == 6 {
        (1, 0)
    } else {
        (1, 1)
    }
}

/// A cell's storage position lies inside the buffer.
pub proof fn lemma_index_in_range(x: int, y: int, w: int, h: int)
    requires
        0 <= x < w,
        0 <= y < h,
    ensures
        0 <= y * w,
        0 <= y * w + x < w * h,
{
    assert(y * w <= (h - 1) * w) by (nonlinear_arith)
        requires
            0 <= y <= h - 1,
            0 <= w,
    ;
    assert(0 <= y * w) by (nonlinear_arith)
        requires
            0 <= y,
            0 <= w,
    ;
    assert((h - 1) * w + w == w * h) by (nonlinear_arith);
}

/// Two cells of one grid share a storage position only if they are the
/// same cell.
pub proof fn lemma_index_injective(x1: int, y1: int, x2: int, y2: int, w: int)
    requires
        0 <= x1 < w,
        0 <= x2 < w,
        y1 * w + x1 == y2 * w + x2,
    ensures
        x1 == x2,
        y1 == y2,
{
    if y1 < y2 {
        assert(y1 * w + w <= y2 * w) by (nonlinear_arith)
            requires
                y1 + 1 <= y2,
                0 <= w,
        ;
    } else if y2 < y1 {
        assert(y2 * w + w <= y1 * w) by (nonlinear_arith)
            requires
                y2 + 1 <= y1,
                0 <= w,
        ;
    }
}

/// The coordinate one step from `v` in direction `d`, if it lies in
/// `[0, limit)`.
fn shifted(v: usize, d: i8, limit: usize) -> (r: Option<usize>)
    requires
        v < limit,
        -1 <= d <= 1,
    ensures
        r == if 0 <= v + d < limit {
            Some((v + d) as usize)
        } else {
            None
        },
{
    if d < 0 {
        if v > 0 {
            Some(v - 1)
        } else {
            None
        }
    } else if d == 0 {
        Some(v)
    } else if v + 1 < limit {
        Some(v + 1)
    } else {
        None
    }
}

/// The coordinate one step from `v` in direction `d` on a ring of `limit`
/// positions.
fn shifted_wrapped(v: usize, d: i8, limit: usize) -> (r: usize)
    requires
        v < limit,
        -1 <= d <= 1,
    ensures
        r == (v + d) % (limit as int),
        r < limit,
{
    if d < 0 {
        if v > 0 {
            assert((v - 1) % (limit as int) == v - 1) by (nonlinear_arith)
                requires
                    0 <= v - 1 < limit,
            ;
            v - 1
        } else {
            assert((-1int) % (limit as int) == limit - 1) by (nonlinear_arith)
                requires
                    0 < limit,
            ;
            limit - 1
        }
    } else if d == 0 {
        assert((v as int) % (limit as int) == v) by (nonlinear_arith)
            requires
                0 <= v < limit,
        ;
        v
    } else if v + 1 < limit {
        assert((v + 1) % (limit as int) == v + 1) by (nonlinear_arith)
            requires
                0 <= v + 1 < limit,
        ;
        v + 1
    } else {
        assert((limit as int) % (limit as int) == 0) by (nonlinear_arith)
            requires
                0 < limit,
        ;
        0
    }
}

/// The `k`-th neighbour offset as machine integers.
fn offset_of(k: usize) -> (d: (i8, i8))
    requires
        k < 8,
    ensures
        (d.0 as int, d.1 as int) == neighbour_offset(k as int),
{
    if k == 0 {
        (-1, -1)
    } else if k == 1 {
        (-1, 0)
    } else if k == 2 {
        (-1, 1)
    } else if k == 3 {
        (0, -1)
    } else if k == 4 {
        (0, 1)
    } else if k == 5 {
        (1, -1)
    } else if k == 6 {
        (1, 0)
    } else {
        (1, 1)
    }
}

impl<T> GridView<T> {
    /// Storage and dimensions agree.
    pub open spec fn wf(self) -> bool {
        self.cells.len() == self.width * self.height
    }

    pub open spec fn in_bounds(self, x: int, y: int) -> bool {
        0 <= x < self.width && 0 <= y < self.height
    }

    /// The cell in column `x` of row `y`.
    pub open spec fn at(self, x: int, y: int) -> T {
        self.cells[y * self.width + x]
    }

    /// The grid with the cell `(x, y)` replaced by `value`.
    pub open spec fn put(self, x: int, y: int, value: T) -> GridView<T> {
        GridView { cells: self.cells.update(y * self.width + x, value), ..self }
    }

    /// The in-bounds neighbours of `(x, y)` among the first `k` neighbour
    /// offsets, in offset order.
    pub open spec fn neighbours_upto(self, x: int, y: int, k: nat) -> Seq<T>
        decreases k,
    {
        if k == 0 {
            Seq::empty()
        } else {
            let rest = self.neighbours_upto(x, y, (k - 1) as nat);
            let d = neighbour_offset(k - 1);
            if self.in_bounds(x + d.0, y + d.1) {
                rest.push(self.at(x + d.0, y + d.1))
            } else {
                rest
            }
        }
    }

    /// The neighbours of `(x, y)` under the bounded topology: positions off
    /// the grid are left out.
    pub open spec fn neighbours(self, x: int, y: int) -> Seq<T> {
        self.neighbours_upto(x, y, 8)
    }

    /// The neighbours of `(x, y)` under the toroidal topology: coordinates
    /// wrap modulo the width and the height, so there are always eight.
    pub open spec fn neighbours_wrapped(self, x: int, y: int) -> Seq<T> {
        Seq::new(
            8,
            |k: int|
                self.at(
                    (x + neighbour_offset(k).0) % (self.width as int),
                    (y + neighbour_offset(k).1) % (self.height as int),
                ),
        )
    }

    /// Holds when every cell is a clone of `value`.
    pub open spec fn filled_with(self, value: T) -> bool where T: Clone {
        forall|i: int| 0 <= i < self.cells.len() ==> cloned(value, #[trigger] self.cells[i])
    }

    /// Holds when every cell is a clone of a default value.
    pub open spec fn filled_with_default(self) -> bool where T: Default + Clone {
        exists|d: T| call_ensures(T::default, (), d) && #[trigger] self.filled_with(d)
    }

    /// Holds when the two grids have the same dimensions and each cell of
    /// `other` is a clone of the cell of `self` in the same place.
    pub open spec fn cloned_as(self, other: GridView<T>) -> bool where T: Clone {
        &&& other.width == self.width
        &&& other.height == self.height
        &&& other.cells.len() == self.cells.len()
        &&& forall|i: int|
            0 <= i < self.cells.len() ==> cloned(#[trigger] self.cells[i], other.cells[i])
    }

    /// Replacing a cell changes that cell and no other.
    pub proof fn lemma_put(self, x: int, y: int, value: T)
        requires
            self.wf(),
            self.in_bounds(x, y),
        ensures
            self.put(x, y, value).wf(),
            self.put(x, y, value).width == self.width,
            self.put(x, y, value).height == self.height,
            self.put(x, y, value).at(x, y) == value,
            forall|i: int, j: int|
                self.in_bounds(i, j) && (i != x || j != y) ==> #[trigger] self.put(x, y, value).at(
                    i,
                    j,
                ) == self.at(i, j),
    {
        let w = self.width as int;
        lemma_index_in_range(x, y, w, self.height as int);
        assert forall|i: int, j: int|
            self.in_bounds(i, j) && (i != x || j != y) implies #[trigger] self.put(x, y, value).at(
            i,
            j,
        ) == self.at(i, j) by {
            lemma_index_in_range(i, j, w, self.height as int);
            if j * w + i == y * w + x {
                lemma_index_injective(i, j, x, y, w);
            }
        }
    }

    /// Two well-formed grids of the same dimensions that agree on every
    /// cell are the same grid.
    pub proof fn lemma_same_cells(self, other: GridView<T>)
        requires
            self.wf(),
            other.wf(),
            self.width == other.width,
            self.height == other.height,
            forall|x: int, y: int| self.in_bounds(x, y) ==> self.at(x, y) == other.at(x, y),
        ensures
            self == other,
    {
        let w = self.width as int;
        assert forall|i: int| 0 <= i < self.cells.len() implies self.cells[i] == other.cells[i] by {
            assert(w > 0) by (nonlinear_arith)
                requires
                    0 <= i < w * self.height,
                    0 <= w,
            ;
            let x = i % w;
            let y = i / w;
            vstd::arithmetic::div_mod::lemma_fundamental_div_mod(i, w);
            vstd::arithmetic::div_mod::lemma_mod_bound(i, w);
            assert(w * y == y * w) by (nonlinear_arith);
            assert(0 <= y < self.height) by (nonlinear_arith)
                requires
                    0 <= i < w * self.height,
                    i == y * w + x,
                    0 <= x < w,
            ;
            assert(self.at(x, y) == other.at(x, y));
        }
        assert(self.cells =~= other.cells);
    }

    /// Under the toroidal topology every cell has exactly eight neighbours.
    pub proof fn lemma_wrapped_has_eight(self, x: int, y: int)
        ensures
            self.neighbours_wrapped(x, y).len() == 8,
    {
    }

    /// Under the bounded topology a corner of a grid that is at least two
    /// cells wide and two cells high has exactly three neighbours.
    pub proof fn lemma_corner_has_three(self, x: int, y: int)
        requires
            self.width >= 2,
            self.height >= 2,
            x == 0 || x == self.width - 1,
            y == 0 || y == self.height - 1,
        ensures
            self.neighbours(x, y).len() == 3,
    {
        reveal_with_fuel(GridView::neighbours_upto, 9);
    }

    /// Under the bounded topology a cell has at most eight neighbours.
    pub proof fn lemma_at_most_eight(self, x: int, y: int)
        ensures
            self.neighbours(x, y).len() <= 8,
    {
        self.lemma_neighbours_upto_grows(x, y, 8, 8);
    }

    /// Taking more neighbour offsets into account never loses a neighbour.
    pub proof fn lemma_neighbours_upto_grows(self, x: int, y: int, k: nat, n: nat)
        requires
            k <= n,
        ensures
            self.neighbours_upto(x, y, k).len() <= self.neighbours_upto(x, y, n).len(),
            self.neighbours_upto(x, y, n).len() <= n,
        decreases n,
    {
        if n > 0 {
            if k < n {
                self.lemma_neighbours_upto_grows(x, y, k, (n - 1) as nat);
            } else {
                self.lemma_neighbours_upto_grows(x, y, (k - 1) as nat, (n - 1) as nat);
            }
        }
    }
}

impl<T> Grid<T> {
    #[verifier::type_invariant]
    spec fn inv(self) -> bool {
        self.data@.len() == self.width * self.height
    }

    pub open spec fn spec_width(&self) -> usize {
        self@.width as usize
    }

    pub open spec fn spec_height(&self) -> usize {
        self@.height as usize
    }

    /// A grid of the given dimensions whose cells are all the default
    /// value.
    pub fn new(width: usize, height: usize) -> (g: Grid<T>) where T: Default + Clone
        requires
            width * height <= usize::MAX,
        ensures
            g@.wf(),
            g@.width == width,
            g@.height == height,
            g@.filled_with_default(),
    {
        let d = T::default();
        let ghost d0 = d;
        let data = vec![d; width * height];
        let g = Grid { width, height, data };
        assert(g@.filled_with(d0));
        g
    }

    /// A grid over the given cells, taken row by row.
    pub fn with_data(width: usize, height: usize, data: Vec<T>) -> (g: Grid<T>)
        requires
            data@.len() == width * height,
        ensures
            g@ == (GridView { width: width as nat, height: height as nat, cells: data@ }),
    {
        Grid { width, height, data }
    }

    /// The number of columns.
    #[verifier::when_used_as_spec(spec_width)]
    pub fn width(&self) -> (w: usize)
        ensures
            w == self@.width,
            self@.wf(),
    {
        proof {
            use_type_invariant(self);
        }
        self.width
    }

    /// The number of rows.
    #[verifier::when_used_as_spec(spec_height)]
    pub fn height(&self) -> (h: usize)
        ensures
            h == self@.height,
            self@.wf(),
    {
        proof {
            use_type_invariant(self);
        }
        self.height
    }

    /// The storage position of `(x, y)`.
    fn index_of(&self, x: usize, y: usize) -> (i: usize)
        requires
            self@.in_bounds(x as int, y as int),
        ensures
            i == y * self@.width + x,
            i < self@.cells.len(),
            self@.wf(),
    {
        proof {
            use_type_invariant(self);
            lemma_index_in_range(x as int, y as int, self.width as int, self.height as int);
            assert(self.data.len() == self.data@.len());
        }
        y * self.width + x
    }

    /// The cell in column `x` of row `y`.
    pub fn get(&self, x: usize, y: usize) -> (value: T) where T: Copy
        requires
            self@.in_bounds(x as int, y as int),
        ensures
            value == self@.at(x as int, y as int),
            self@.wf(),
    {
        let i = self.index_of(x, y);
        self.data[i]
    }

    /// A borrow of the cell in column `x` of row `y`.
    pub fn get_ref(&self, x: usize, y: usize) -> (value: &T)
        requires
            self@.in_bounds(x as int, y as int),
        ensures
            *value == self@.at(x as int, y as int),
            self@.wf(),
    {
        let i = self.index_of(x, y);
        &self.data[i]
    }

    /// A mutable borrow of one cell: the grid ends up as it was, but for
    /// whatever the borrower leaves in that cell.
    pub fn get_mut(&mut self, x: usize, y: usize) -> (cell: &mut T)
        requires
            old(self)@.in_bounds(x as int, y as int),
        ensures
            old(self)@.wf(),
            *cell == old(self)@.at(x as int, y as int),
            final(self)@ == old(self)@.put(x as int, y as int, *final(cell)),
    {
        let i = self.index_of(x, y);
        &mut self.data[i]
    }

    /// Overwrites one cell and leaves every other cell as it was.
    pub fn set(&mut self, x: usize, y: usize, value: T)
        requires
            old(self)@.in_bounds(x as int, y as int),
        ensures
            old(self)@.wf(),
            final(self)@ == old(self)@.put(x as int, y as int, value),
    {
        let i = self.index_of(x, y);
        self.data[i] = value;
    }

    /// Overwrites every cell with a clone of `value`.
    pub fn set_all(&mut self, value: T) where T: Clone
        ensures
            old(self)@.wf(),
            final(self)@.wf(),
            final(self)@.width == old(self)@.width,
            final(self)@.height == old(self)@.height,
            final(self)@.filled_with(value),
    {
        proof {
            use_type_invariant(&*self);
        }
        let n = self.data.len();
        let mut i: usize = 0;
        while i < n
            invariant
                i <= n,
                n == self.data@.len(),
                self.width == old(self).width,
                self.height == old(self).height,
                self.data@.len() == self.width * self.height,
                forall|k: int| 0 <= k < i ==> cloned(value, #[trigger] self.data@[k]),
            decreases n - i,
        {
            self.data[i] = value.clone();
            i = i + 1;
        }
    }

    /// Writes the neighbours of `(x, y)` under the bounded topology to the
    /// front of `res`, in offset order, and returns how many there are. The
    /// rest of `res` is left as it was.
    pub fn get_neighbours(&self, x: usize, y: usize, res: &mut [T]) -> (count: usize) where T: Copy
        requires
            self@.in_bounds(x as int, y as int),
            old(res)@.len() >= self@.neighbours(x as int, y as int).len(),
        ensures
            self@.wf(),
            count == self@.neighbours(x as int, y as int).len(),
            final(res)@ == self@.neighbours(x as int, y as int) + old(res)@.skip(count as int),
    {
        let w = self.width();
        let h = self.height();
        let mut count: usize = 0;
        let mut k: usize = 0;
        while k < 8
            invariant
                k <= 8,
                w == self@.width,
                h == self@.height,
                self@.in_bounds(x as int, y as int),
                count == self@.neighbours_upto(x as int, y as int, k as nat).len(),
                count <= k,
                old(res)@.len() >= self@.neighbours(x as int, y as int).len(),
                res@ == self@.neighbours_upto(x as int, y as int, k as nat) + old(res)@.skip(
                    count as int,
                ),
            decreases 8 - k,
        {
            let d = offset_of(k);
            proof {
                self@.lemma_neighbours_upto_grows(x as int, y as int, (k + 1) as nat, 8);
            }
            match (shifted(x, d.0, w), shifted(y, d.1, h)) {
                (Some(nx), Some(ny)) => {
                    res[count] = self.get(nx, ny);
                    count = count + 1;
                },
                _ => {},
            }
            k = k + 1;
        }
        count
    }

    /// Writes the eight neighbours of `(x, y)` under the toroidal topology
    /// to the front of `res`, in offset order. The rest of `res` is left as
    /// it was.
    pub fn get_neighbours_wrapped(&self, x: usize, y: usize, res: &mut [T]) where T: Copy
        requires
            self@.in_bounds(x as int, y as int),
            old(res)@.len() >= 8,
        ensures
            self@.wf(),
            final(res)@ == self@.neighbours_wrapped(x as int, y as int) + old(res)@.skip(8),
    {
        let w = self.width();
        let h = self.height();
        let mut k: usize = 0;
        while k < 8
            invariant
                k <= 8,
                w == self@.width,
                h == self@.height,
                self@.in_bounds(x as int, y as int),
                res@.len() == old(res)@.len(),
                res@.len() >= 8,
                forall|j: int|
                    0 <= j < k ==> res@[j] == self@.neighbours_wrapped(x as int, y as int)[j],
                forall|j: int| k <= j < res@.len() ==> res@[j] == old(res)@[j],
            decreases 8 - k,
        {
            let d = offset_of(k);
            let nx = shifted_wrapped(x, d.0, w);
            let ny = shifted_wrapped(y, d.1, h);
            res[k] = self.get(nx, ny);
            k = k + 1;
        }
    }
}

impl<T: Clone> Clone for Grid<T> {
    /// A grid of the same dimensions whose cells are clones of this one's.
    fn clone(&self) -> (g: Self)
        ensures
            self@.wf(),
            g@.wf(),
            self@.cloned_as(g@),
    {
        proof {
            use_type_invariant(self);
        }
        Grid { width: self.width, height: self.height, data: self.data.clone() }
    }
}

/// Two grids of the same dimensions, one in the role of the current
/// generation and one in the role of the previous one. Advancing a turn
/// exchanges the roles; no cell is copied.
#[derive(Debug)]
pub struct Game<T> {
    old_grid: Grid<T>,
    grid: Grid<T>,
}

impl<T> Game<T> {
    /// The grid in the role of the current generation.
    pub closed spec fn spec_grid(&self) -> &Grid<T> {
        &self.grid
    }

    /// The grid in the role of the previous generation.
    pub closed spec fn spec_old_grid(&self) -> &Grid<T> {
        &self.old_grid
    }

    /// Both grids are well formed and have the same dimensions.
    pub open spec fn wf(&self) -> bool {
        &&& self.grid()@.wf()
        &&& self.old_grid()@.wf()
        &&& self.grid()@.width == self.old_grid()@.width
        &&& self.grid()@.height == self.old_grid()@.height
    }

    /// The same two grids with their roles exchanged.
    pub closed spec fn swapped(self) -> Game<T> {
        Game { old_grid: self.grid, grid: self.old_grid }
    }

    /// Two buffers of the given dimensions, all cells the default value.
    pub fn new(width: usize, height: usize) -> (game: Game<T>) where T: Default + Clone
        requires
            width * height <= usize::MAX,
        ensures
            game.wf(),
            game.grid()@.width == width,
            game.grid()@.height == height,
            game.grid()@.filled_with_default(),
            game.old_grid()@.filled_with_default(),
    {
        let grid = Grid::new(width, height);
        let old_grid = Grid::new(width, height);
        Game { old_grid, grid }
    }

    /// The grid in the role of the current generation.
    #[verifier::when_used_as_spec(spec_grid)]
    pub fn grid(&self) -> (g: &Grid<T>)
        ensures
            g == self.grid(),
            g@.wf(),
    {
        proof {
            use_type_invariant(&self.grid);
        }
        &self.grid
    }

    /// A mutable borrow of the current grid. The previous grid is not
    /// touched; the current one ends up as the borrower leaves it.
    pub fn grid_mut(&mut self) -> (g: &mut Grid<T>)
        ensures
            *g == *old(self).grid(),
            g@.wf(),
            *final(self).grid() == *final(g),
            *final(self).old_grid() == *old(self).old_grid(),
    {
        proof {
            use_type_invariant(&self.grid);
        }
        &mut self.grid
    }

    /// The grid in the role of the previous generation.
    #[verifier::when_used_as_spec(spec_old_grid)]
    pub fn old_grid(&self) -> (g: &Grid<T>)
        ensures
            g == self.old_grid(),
            g@.wf(),
    {
        proof {
            use_type_invariant(&self.old_grid);
        }
        &self.old_grid
    }

    /// Exchanges the roles of the two grids.
    pub fn next_turn(&mut self)
        ensures
            *final(self) == old(self).swapped(),
            *final(self).grid() == *old(self).old_grid(),
            *final(self).old_grid() == *old(self).grid(),
    {
        core::mem::swap(&mut self.grid, &mut self.old_grid);
    }

    /// Exchanging the roles puts each grid in the other's place.
    pub proof fn lemma_swapped_roles(self)
        ensures
            *self.swapped().grid() == *self.old_grid(),
            *self.swapped().old_grid() == *self.grid(),
            self.wf() ==> self.swapped().wf(),
    {
    }

    /// Exchanging the roles twice puts each grid back in the role it had.
    pub proof fn lemma_swapped_twice(self)
        ensures
            self.swapped().swapped() == self,
    {
    }
}

impl<T: Clone> From<Grid<T>> for Game<T> {
    /// A double buffer whose current grid is `grid` and whose previous grid
    /// is a clone of it.
    fn from(grid: Grid<T>) -> (game: Game<T>)
        ensures
            game.wf(),
            *game.grid() == grid,
            grid@.cloned_as(game.old_grid()@),
    {
        Game { old_grid: grid.clone(), grid }
    }
}

impl<T: Clone> FromSpecImpl<Grid<T>> for Game<T> {
    /// Cloning a cell need not be a function of the cell, so the conversion
    /// has no functional description; its `ensures` says what holds.
    open spec fn obeys_from_spec() -> bool {
        false
    }

    open spec fn from_spec(grid: Grid<T>) -> Game<T> {
        arbitrary()
    }
}

} // verus!
