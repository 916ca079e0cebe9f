//! The editor: a cursor and the operations that change a grid at or around
//! it. Relative cursor moves and preset shapes wrap around the grid's
//! edges.

use crate::grid::{Grid, GridView};
use crate::presets::{get_preset, preset_cells};
use vstd::arithmetic::div_mod::{
    lemma_fundamental_div_mod,
    lemma_fundamental_div_mod_converse,
    lemma_mod_bound,
};
use vstd::prelude::*;

verus! {

/// One edit of the grid or move of the cursor.
#[derive(Copy, Clone, Debug, PartialEq, Eq, Structural)]
#[allow(inconsistent_fields)]
pub enum EditAction {
    MoveCursorBy { x: isize, y: isize },
    MoveCursorTo { x: usize, y: usize },
    ToggleCell,
    ToggleCellAt { x: usize, y: usize },
    KillCellAt { x: usize, y: usize },
    AddCellAt { x: usize, y: usize },
    Clear,
    AddPreset { index: u8 },
}

/// The value that toggling turns `value` into: a dead cell becomes alive,
/// any other cell becomes dead.
pub open spec fn toggled(value: u8) -> u8 {
    if value == 0 {
        1
    } else {
        0
    }
}

/// The value that stands for a live cell if `alive`, else for a dead one.
pub open spec fn cell_value(alive: bool) -> u8 {
    if alive {
        1
    } else {
        0
    }
}

/// `grid` with the cell `(x, y)` toggled.
pub open spec fn toggled_at(grid: GridView<u8>, x: int, y: int) -> GridView<u8> {
    grid.put(x, y, toggled(grid.at(x, y)))
}

/// `grid` with every cell dead.
pub open spec fn cleared(grid: GridView<u8>) -> GridView<u8> {
    GridView { cells: Seq::new(grid.cells.len(), |i: int| 0u8), ..grid }
}

/// `grid` with a shape painted on it: for each offset `(i, j)` of `cells`
/// in turn, the cell `((x + i) mod width, (y + j) mod height)` made alive.
pub open spec fn stamped(grid: GridView<u8>, x: int, y: int, cells: Seq<(usize, usize)>) -> GridView<
    u8,
>
    decreases cells.len(),
{
    if cells.len() == 0 {
        grid
    } else {
        stamped(grid, x, y, cells.drop_last()).put(
            (x + cells.last().0) % (grid.width as int),
            (y + cells.last().1) % (grid.height as int),
            1,
        )
    }
}

/// The cursor `cursor` moved by `(dx, dy)` on a `width` by `height` torus.
pub open spec fn moved(cursor: (usize, usize), dx: int, dy: int, width: int, height: int) -> (
    usize,
    usize,
) {
    (((cursor.0 + dx) % width) as usize, ((cursor.1 + dy) % height) as usize)
}

/// Whether `action` can be applied with the cursor at `cursor` on `grid`:
/// cells that it names lie on the grid, and what it wraps around is not
/// empty.
pub open spec fn applicable(cursor: (usize, usize), grid: GridView<u8>, action: EditAction) -> bool {
    match action {
        EditAction::Clear => true,
        EditAction::MoveCursorTo { .. } => true,
        EditAction::ToggleCell => grid.in_bounds(cursor.0 as int, cursor.1 as int),
        EditAction::ToggleCellAt { x, y } => grid.in_bounds(x as int, y as int),
        EditAction::KillCellAt { x, y } => grid.in_bounds(x as int, y as int),
        EditAction::AddCellAt { x, y } => grid.in_bounds(x as int, y as int),
        EditAction::MoveCursorBy { .. } => grid.width > 0 && grid.height > 0,
        EditAction::AddPreset { index } => preset_cells(index).len() > 0 ==> grid.width > 0
            && grid.height > 0,
    }
}

/// The grid that `action` leaves, applied with the cursor at `cursor`.
pub open spec fn grid_after(cursor: (usize, usize), grid: GridView<u8>, action: EditAction)
    -> GridView<u8> {
    match action {
        EditAction::Clear => cleared(grid),
        EditAction::ToggleCell => toggled_at(grid, cursor.0 as int, cursor.1 as int),
        EditAction::ToggleCellAt { x, y } => toggled_at(grid, x as int, y as int),
        EditAction::KillCellAt { x, y } => grid.put(x as int, y as int, 0),
        EditAction::AddCellAt { x, y } => grid.put(x as int, y as int, 1),
        EditAction::MoveCursorBy { .. } => grid,
        EditAction::MoveCursorTo { .. } => grid,
        EditAction::AddPreset { index } => stamped(
            grid,
            cursor.0 as int,
            cursor.1 as int,
            preset_cells(index),
        ),
    }
}

/// The cursor that `action` leaves, applied with the cursor at `cursor`.
pub open spec fn cursor_after(cursor: (usize, usize), grid: GridView<u8>, action: EditAction) -> (
    usize,
    usize,
) {
    match action {
        EditAction::MoveCursorBy { x, y } => moved(
            cursor,
            x as int,
            y as int,
            grid.width as int,
            grid.height as int,
        ),
        EditAction::MoveCursorTo { x, y } => (x, y),
        _ => cursor,
    }
}

/// Toggling a cell that is dead or alive twice restores the grid.
pub proof fn lemma_toggle_twice(grid: GridView<u8>, x: int, y: int)
    requires
        grid.wf(),
        grid.in_bounds(x, y),
        grid.at(x, y) <= 1,
    ensures
        toggled_at(toggled_at(grid, x, y), x, y) == grid,
{
    crate::grid::lemma_index_in_range(x, y, grid.width as int, grid.height as int);
    assert(toggled_at(toggled_at(grid, x, y), x, y).cells =~= grid.cells);
}

/// Painting a shape keeps the grid's dimensions and well-formedness.
pub proof fn lemma_stamped_wf(grid: GridView<u8>, x: int, y: int, cells: Seq<(usize, usize)>)
    requires
        grid.wf(),
        cells.len() > 0 ==> grid.width > 0 && grid.height > 0,
    ensures
        stamped(grid, x, y, cells).wf(),
        stamped(grid, x, y, cells).width == grid.width,
        stamped(grid, x, y, cells).height == grid.height,
    decreases cells.len(),
{
    if cells.len() > 0 {
        lemma_stamped_wf(grid, x, y, cells.drop_last());
        let nx = (x + cells.last().0) % (grid.width as int);
        let ny = (y + cells.last().1) % (grid.height as int);
        lemma_mod_bound(x + cells.last().0, grid.width as int);
        lemma_mod_bound(y + cells.last().1, grid.height as int);
        stamped(grid, x, y, cells.drop_last()).lemma_put(nx, ny, 1);
    }
}

/// `(v + step) mod limit`, computed without overflow.
fn wrap_forward(v: usize, step: usize, limit: usize) -> (r: usize)
    requires
        limit > 0,
    ensures
        r == (v + step) % (limit as int),
        r < limit,
{
    let a = v % limit;
    let b = step % limit;
    proof {
        let d = limit as int;
        lemma_fundamental_div_mod(v as int, d);
        lemma_fundamental_div_mod(step as int, d);
        let q = (v as int) / d + (step as int) / d;
        if a + b < d {
            assert(v + step == d * q + (a + b)) by (nonlinear_arith)
                requires
                    v == d * ((v as int) / d) + a,
                    step == d * ((step as int) / d) + b,
                    q == (v as int) / d + (step as int) / d,
            ;
            lemma_fundamental_div_mod_converse(v + step, d, q, a + b);
        } else {
            assert(v + step == d * (q + 1) + (a + b - d)) by (nonlinear_arith)
                requires
                    v == d * ((v as int) / d) + a,
                    step == d * ((step as int) / d) + b,
                    q == (v as int) / d + (step as int) / d,
            ;
            lemma_fundamental_div_mod_converse(v + step, d, q + 1, a + b - d);
        }
    }
    if a >= limit - b {
        a - (limit - b)
    } else {
        a + b
    }
}

/// `(v - step) mod limit`, computed without overflow.
fn wrap_backward(v: usize, step: usize, limit: usize) -> (r: usize)
    requires
        limit > 0,
    ensures
        r == (v - step) % (limit as int),
        r < limit,
{
    let a = v % limit;
    let b = step % limit;
    proof {
        let d = limit as int;
        lemma_fundamental_div_mod(v as int, d);
        lemma_fundamental_div_mod(step as int, d);
        let q = (v as int) / d - (step as int) / d;
        if a >= b {
            assert(v - step == d * q + (a - b)) by (nonlinear_arith)
                requires
                    v == d * ((v as int) / d) + a,
                    step == d * ((step as int) / d) + b,
                    q == (v as int) / d - (step as int) / d,
            ;
            lemma_fundamental_div_mod_converse(v - step, d, q, a - b);
        } else {
            assert(v - step == d * (q - 1) + (a - b + d)) by (nonlinear_arith)
                requires
                    v == d * ((v as int) / d) + a,
                    step == d * ((step as int) / d) + b,
                    q == (v as int) / d - (step as int) / d,
            ;
            lemma_fundamental_div_mod_converse(v - step, d, q - 1, a - b + d);
        }
    }
    if a >= b {
        a - b
    } else {
        a + (limit - b)
    }
}

/// `(v + delta) mod limit` for a signed `delta`.
fn wrap_by(v: usize, delta: isize, limit: usize) -> (r: usize)
    requires
        limit > 0,
    ensures
        r == (v + delta) % (limit as int),
        r < limit,
{
    if delta >= 0 {
        wrap_forward(v, delta as usize, limit)
    } else {
        let magnitude = (-(delta + 1)) as usize + 1;
        wrap_backward(v, magnitude, limit)
    }
}

/// The editor's state: where its cursor is.
#[derive(Debug)]
pub struct Editor {
    cursor: (usize, usize),
}

/// One editing session: an editor and the grid that it edits, both
/// borrowed for as long as the session lasts.
pub struct EditSteps<'a> {
    pub editor: &'a mut Editor,
    pub grid: &'a mut Grid<u8>,
}

impl Editor {
    /// The cursor's position, as `(x, y)`.
    pub closed spec fn spec_get_cursor(&self) -> (usize, usize) {
        self.cursor
    }

    /// An editor with its cursor in the top left corner.
    pub fn new() -> (editor: Editor)
        ensures
            editor.get_cursor() == (0usize, 0usize),
    {
        Editor { cursor: (0, 0) }
    }

    /// Puts the cursor at `(x, y)`.
    pub fn set_cursor(&mut self, x: usize, y: usize)
        ensures
            final(self).get_cursor() == (x, y),
    {
        self.cursor = (x, y);
    }

    /// The cursor's position, as `(x, y)`.
    #[verifier::when_used_as_spec(spec_get_cursor)]
    pub fn get_cursor(&self) -> (cursor: (usize, usize))
        ensures
            cursor == self.get_cursor(),
    {
        self.cursor
    }

    /// Opens a session on `grid`. What the session leaves in the editor and
    /// in the grid is what they hold afterwards.
    pub fn edit<'a>(&'a mut self, grid: &'a mut Grid<u8>) -> (steps: EditSteps<'a>)
        ensures
            *steps.editor == *old(self),
            *steps.grid == *old(grid),
            *final(self) == *final(steps.editor),
            *final(grid) == *final(steps.grid),
    {
        EditSteps { editor: self, grid }
    }

    /// Whether `action` can be applied to `grid` with the cursor where it
    /// is.
    pub fn accepts(&self, action: EditAction, grid: &Grid<u8>) -> (ok: bool)
        ensures
            ok == applicable(self.get_cursor(), grid@, action),
    {
        let w = grid.width();
        let h = grid.height();
        match action {
            EditAction::Clear => true,
            EditAction::MoveCursorTo { x, y } => true,
            EditAction::ToggleCell => self.cursor.0 < w && self.cursor.1 < h,
            EditAction::ToggleCellAt { x, y } => x < w && y < h,
            EditAction::KillCellAt { x, y } => x < w && y < h,
            EditAction::AddCellAt { x, y } => x < w && y < h,
            EditAction::MoveCursorBy { x, y } => w > 0 && h > 0,
            EditAction::AddPreset { index } => get_preset(index).len() == 0 || (w > 0 && h > 0),
        }
    }

    /// Applies one action to the cursor and to `grid`.
    pub fn apply_action(&mut self, action: EditAction, grid: &mut Grid<u8>)
        requires
            applicable(old(self).get_cursor(), old(grid)@, action),
        ensures
            final(grid)@ == grid_after(old(self).get_cursor(), old(grid)@, action),
            final(self).get_cursor() == cursor_after(old(self).get_cursor(), old(grid)@, action),
    {
        let mut edit_steps = self.edit(grid);
        match action {
            EditAction::Clear => edit_steps.clear_all(),
            EditAction::ToggleCell => edit_steps.toggle_current(),
            EditAction::ToggleCellAt { x, y } => edit_steps.toggle_at(x, y),
            EditAction::KillCellAt { x, y } => edit_steps.set_cell_at(false, x, y),
            EditAction::AddCellAt { x, y } => edit_steps.set_cell_at(true, x, y),
            EditAction::MoveCursorBy { x, y } => edit_steps.move_cursor_by(x, y),
            EditAction::MoveCursorTo { x, y } => edit_steps.move_cursor_to(x, y),
            EditAction::AddPreset { index } => {
                let cells = get_preset(index);
                edit_steps.add_preset(cells.as_slice())
            },
        }
    }
}

impl<'a> EditSteps<'a> {
    /// Makes the cell `(x, y)` alive if `value`, dead if not.
    pub fn set_cell_at(&mut self, value: bool, x: usize, y: usize)
        requires
            old(self).grid@.in_bounds(x as int, y as int),
        ensures
            final(self).grid@ == old(self).grid@.put(x as int, y as int, cell_value(value)),
            final(self).editor.get_cursor() == old(self).editor.get_cursor(),
            *final(final(self).editor) == *final(old(self).editor),
            *final(final(self).grid) == *final(old(self).grid),
    {
        self.grid.set(
            x,
            y,
            if value {
                1
            } else {
                0
            },
        );
    }

    /// Toggles the cell `(x, y)`.
    pub fn toggle_at(&mut self, x: usize, y: usize)
        requires
            old(self).grid@.in_bounds(x as int, y as int),
        ensures
            final(self).grid@ == toggled_at(old(self).grid@, x as int, y as int),
            final(self).editor.get_cursor() == old(self).editor.get_cursor(),
            *final(final(self).editor) == *final(old(self).editor),
            *final(final(self).grid) == *final(old(self).grid),
    {
        let val = if self.grid.get(x, y) == 0 {
            1
        } else {
            0
        };
        self.grid.set(x, y, val);
    }

    /// Toggles the cell under the cursor.
    pub fn toggle_current(&mut self)
        requires
            old(self).grid@.in_bounds(
                old(self).editor.get_cursor().0 as int,
                old(self).editor.get_cursor().1 as int,
            ),
        ensures
            final(self).grid@ == toggled_at(
                old(self).grid@,
                old(self).editor.get_cursor().0 as int,
                old(self).editor.get_cursor().1 as int,
            ),
            final(self).editor.get_cursor() == old(self).editor.get_cursor(),
            *final(final(self).editor) == *final(old(self).editor),
            *final(final(self).grid) == *final(old(self).grid),
    {
        let (x, y) = self.editor.get_cursor();
        self.toggle_at(x, y);
    }

    /// Paints a shape anchored at the cursor: each offset of `cells` names
    /// one cell to make alive, wrapping around the grid's edges.
    pub fn add_preset(&mut self, cells: &[(usize, usize)])
        requires
            cells@.len() > 0 ==> old(self).grid@.width > 0 && old(self).grid@.height > 0,
        ensures
            final(self).grid@ == stamped(
                old(self).grid@,
                old(self).editor.get_cursor().0 as int,
                old(self).editor.get_cursor().1 as int,
                cells@,
            ),
            final(self).editor.get_cursor() == old(self).editor.get_cursor(),
            *final(final(self).editor) == *final(old(self).editor),
            *final(final(self).grid) == *final(old(self).grid),
    {
        let (x, y) = self.editor.get_cursor();
        let (w, h) = (self.grid.width(), self.grid.height());
        let ghost before = old(self).grid@;
        let mut k: usize = 0;
        while k < cells.len()
            invariant
                k <= cells@.len(),
                cells@.len() > 0 ==> w > 0 && h > 0,
                before.wf(),
                before.width == w,
                before.height == h,
                self.grid@ == stamped(before, x as int, y as int, cells@.take(k as int)),
                (x, y) == old(self).editor.get_cursor(),
                *self.editor == *old(self).editor,
                *final(self.editor) == *final(old(self).editor),
                *final(self.grid) == *final(old(self).grid),
            decreases cells@.len() - k,
        {
            let (i, j) = cells[k];
            let nx = wrap_forward(x, i, w);
            let ny = wrap_forward(y, j, h);
            proof {
                assert(cells@.take(k + 1).drop_last() == cells@.take(k as int));
                lemma_stamped_wf(before, x as int, y as int, cells@.take(k as int));
            }
            self.grid.set(nx, ny, 1);
            k = k + 1;
        }
        assert(cells@.take(k as int) == cells@);
    }

    /// Makes every cell dead.
    pub fn clear_all(&mut self)
        ensures
            final(self).grid@ == cleared(old(self).grid@),
            final(self).editor.get_cursor() == old(self).editor.get_cursor(),
            *final(final(self).editor) == *final(old(self).editor),
            *final(final(self).grid) == *final(old(self).grid),
    {
        self.grid.set_all(0);
        assert(self.grid@.filled_with(0));
        assert forall|i: int| 0 <= i < self.grid@.cells.len() implies self.grid@.cells[i]
            == 0 by {
            assert(cloned(0u8, self.grid@.cells[i]));
        }
        assert(self.grid@.cells =~= cleared(old(self).grid@).cells);
    }

    /// Moves the cursor by `(by_x, by_y)`, wrapping around the grid's
    /// edges.
    pub fn move_cursor_by(&mut self, by_x: isize, by_y: isize)
        requires
            old(self).grid@.width > 0,
            old(self).grid@.height > 0,
        ensures
            final(self).editor.get_cursor() == moved(
                old(self).editor.get_cursor(),
                by_x as int,
                by_y as int,
                old(self).grid@.width as int,
                old(self).grid@.height as int,
            ),
            final(self).grid@.in_bounds(
                final(self).editor.get_cursor().0 as int,
                final(self).editor.get_cursor().1 as int,
            ),
            *final(self).grid == *old(self).grid,
            *final(final(self).editor) == *final(old(self).editor),
            *final(final(self).grid) == *final(old(self).grid),
    {
        let (x, y) = self.editor.get_cursor();
        let (w, h) = (self.grid.width(), self.grid.height());
        let nx = wrap_by(x, by_x, w);
        let ny = wrap_by(y, by_y, h);
        self.editor.set_cursor(nx, ny);
    }

    /// Puts the cursor at `(x, y)`.
    pub fn move_cursor_to(&mut self, x: usize, y: usize)
        ensures
            final(self).editor.get_cursor() == (x, y),
            *final(self).grid == *old(self).grid,
            *final(final(self).editor) == *final(old(self).editor),
            *final(final(self).grid) == *final(old(self).grid),
    {
        self.editor.set_cursor(x, y);
    }
}

} // verus!
