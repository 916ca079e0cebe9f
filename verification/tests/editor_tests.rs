use game_of_life::editor::{EditAction, Editor};
use game_of_life::grid::Grid;

fn cells(grid: &Grid<u8>) -> Vec<u8> {
    let mut out = Vec::new();
    for y in 0..grid.height() {
        for x in 0..grid.width() {
            out.push(grid.get(x, y));
        }
    }
    out
}

fn live_cells(grid: &Grid<u8>) -> Vec<(usize, usize)> {
    let mut out = Vec::new();
    for y in 0..grid.height() {
        for x in 0..grid.width() {
            if grid.get(x, y) == 1 {
                out.push((x, y));
            }
        }
    }
    out
}

#[test]
fn new_editor_starts_in_the_corner() {
    assert_eq!(Editor::new().get_cursor(), (0, 0));
}

#[test]
fn set_cursor_moves_the_cursor() {
    let mut editor = Editor::new();
    editor.set_cursor(7, 3);
    assert_eq!(editor.get_cursor(), (7, 3));
}

#[test]
fn toggle_at_flips_a_cell() {
    let mut grid: Grid<u8> = Grid::new(3, 2);
    let mut editor = Editor::new();
    editor.edit(&mut grid).toggle_at(2, 1);
    assert_eq!(cells(&grid), vec![0, 0, 0, 0, 0, 1]);
    editor.edit(&mut grid).toggle_at(2, 1);
    assert_eq!(cells(&grid), vec![0, 0, 0, 0, 0, 0]);
}

#[test]
fn toggle_twice_restores_every_cell() {
    let start = vec![1u8, 0, 0, 1, 1, 0];
    for y in 0..2 {
        for x in 0..3 {
            let mut grid = Grid::with_data(3, 2, start.clone());
            let mut editor = Editor::new();
            editor.apply_action(EditAction::ToggleCellAt { x, y }, &mut grid);
            assert_ne!(cells(&grid), start);
            editor.apply_action(EditAction::ToggleCellAt { x, y }, &mut grid);
            assert_eq!(cells(&grid), start);
        }
    }
}

#[test]
fn toggle_kills_a_cell_of_any_other_value() {
    let mut grid = Grid::with_data(1, 1, vec![2u8]);
    let mut editor = Editor::new();
    editor.edit(&mut grid).toggle_at(0, 0);
    assert_eq!(grid.get(0, 0), 0);
    editor.edit(&mut grid).toggle_at(0, 0);
    assert_eq!(grid.get(0, 0), 1);
}

#[test]
fn toggle_current_flips_the_cell_under_the_cursor() {
    let mut grid: Grid<u8> = Grid::new(3, 3);
    let mut editor = Editor::new();
    editor.set_cursor(1, 2);
    editor.edit(&mut grid).toggle_current();
    assert_eq!(live_cells(&grid), vec![(1, 2)]);
    assert_eq!(editor.get_cursor(), (1, 2));
    editor.apply_action(EditAction::ToggleCell, &mut grid);
    assert_eq!(live_cells(&grid), vec![]);
}

#[test]
fn set_cell_at_sets_alive_or_dead() {
    let mut grid: Grid<u8> = Grid::new(2, 2);
    let mut editor = Editor::new();
    editor.edit(&mut grid).set_cell_at(true, 1, 0);
    assert_eq!(cells(&grid), vec![0, 1, 0, 0]);
    editor.edit(&mut grid).set_cell_at(true, 1, 0);
    assert_eq!(cells(&grid), vec![0, 1, 0, 0]);
    editor.edit(&mut grid).set_cell_at(false, 1, 0);
    assert_eq!(cells(&grid), vec![0, 0, 0, 0]);
}

#[test]
fn add_and_kill_actions_set_cells() {
    let mut grid: Grid<u8> = Grid::new(2, 2);
    let mut editor = Editor::new();
    editor.apply_action(EditAction::AddCellAt { x: 0, y: 1 }, &mut grid);
    editor.apply_action(EditAction::AddCellAt { x: 1, y: 1 }, &mut grid);
    assert_eq!(cells(&grid), vec![0, 0, 1, 1]);
    editor.apply_action(EditAction::KillCellAt { x: 0, y: 1 }, &mut grid);
    assert_eq!(cells(&grid), vec![0, 0, 0, 1]);
    assert_eq!(editor.get_cursor(), (0, 0));
}

#[test]
fn clear_all_kills_every_cell() {
    let mut grid = Grid::with_data(2, 2, vec![1u8, 1, 0, 1]);
    let mut editor = Editor::new();
    editor.set_cursor(1, 1);
    editor.apply_action(EditAction::Clear, &mut grid);
    assert_eq!(cells(&grid), vec![0u8; 4]);
    assert_eq!(editor.get_cursor(), (1, 1));
    assert_eq!(grid.width(), 2);
    assert_eq!(grid.height(), 2);
}

#[test]
fn cursor_wraps_through_zero() {
    let mut grid: Grid<u8> = Grid::new(10, 10);
    let mut editor = Editor::new();
    editor.set_cursor(5, 5);
    let mut seen = Vec::new();
    for _ in 0..6 {
        editor.apply_action(EditAction::MoveCursorBy { x: -1, y: 0 }, &mut grid);
        seen.push(editor.get_cursor());
    }
    assert_eq!(seen, vec![(4, 5), (3, 5), (2, 5), (1, 5), (0, 5), (9, 5)]);
    assert_eq!(editor.get_cursor(), (9, 5));
    assert_eq!(cells(&grid), vec![0u8; 100]);
}

#[test]
fn cursor_wraps_past_the_far_edge() {
    let mut grid: Grid<u8> = Grid::new(4, 3);
    let mut editor = Editor::new();
    editor.set_cursor(3, 2);
    editor.edit(&mut grid).move_cursor_by(1, 1);
    assert_eq!(editor.get_cursor(), (0, 0));
    editor.edit(&mut grid).move_cursor_by(-1, -1);
    assert_eq!(editor.get_cursor(), (3, 2));
}

#[test]
fn cursor_moves_by_more_than_the_grid_is_wide() {
    let mut grid: Grid<u8> = Grid::new(10, 10);
    let mut editor = Editor::new();
    editor.set_cursor(5, 5);
    editor.edit(&mut grid).move_cursor_by(25, -13);
    assert_eq!(editor.get_cursor(), (0, 2));
    editor.set_cursor(5, 5);
    editor.edit(&mut grid).move_cursor_by(-25, 0);
    assert_eq!(editor.get_cursor(), (0, 5));
}

#[test]
fn cursor_moves_by_the_largest_steps() {
    let mut grid: Grid<u8> = Grid::new(10, 7);
    let mut editor = Editor::new();
    editor.edit(&mut grid).move_cursor_by(isize::MIN, isize::MIN);
    // 2^63 is 8 modulo 10 and 1 modulo 7.
    assert_eq!(editor.get_cursor(), (2, 6));
    editor.set_cursor(0, 0);
    editor.edit(&mut grid).move_cursor_by(isize::MAX, isize::MAX);
    assert_eq!(editor.get_cursor(), (7, 0));
}

#[test]
fn cursor_outside_the_grid_wraps_back_in() {
    let mut grid: Grid<u8> = Grid::new(4, 4);
    let mut editor = Editor::new();
    editor.set_cursor(usize::MAX, 9);
    editor.edit(&mut grid).move_cursor_by(1, 0);
    // usize::MAX + 1 is a multiple of 4.
    assert_eq!(editor.get_cursor(), (0, 1));
}

#[test]
fn move_cursor_to_is_absolute() {
    let mut grid: Grid<u8> = Grid::new(4, 4);
    let mut editor = Editor::new();
    editor.apply_action(EditAction::MoveCursorTo { x: 3, y: 1 }, &mut grid);
    assert_eq!(editor.get_cursor(), (3, 1));
    editor.edit(&mut grid).move_cursor_to(0, 2);
    assert_eq!(editor.get_cursor(), (0, 2));
    assert_eq!(cells(&grid), vec![0u8; 16]);
}

#[test]
fn add_preset_paints_at_the_cursor() {
    let mut grid: Grid<u8> = Grid::new(5, 5);
    let mut editor = Editor::new();
    editor.set_cursor(1, 2);
    editor.edit(&mut grid).add_preset(&[(0, 0), (2, 0), (1, 1)]);
    assert_eq!(live_cells(&grid), vec![(1, 2), (3, 2), (2, 3)]);
    assert_eq!(editor.get_cursor(), (1, 2));
}

#[test]
fn add_preset_wraps_around_the_edges() {
    let mut grid: Grid<u8> = Grid::new(4, 4);
    let mut editor = Editor::new();
    editor.set_cursor(3, 3);
    editor.apply_action(EditAction::AddPreset { index: 1 }, &mut grid);
    assert_eq!(live_cells(&grid), vec![(1, 0), (0, 1), (1, 1), (3, 1), (0, 3)]);
}

#[test]
fn add_preset_wraps_large_offsets() {
    let mut grid: Grid<u8> = Grid::new(3, 3);
    let mut editor = Editor::new();
    editor.set_cursor(2, 1);
    editor.edit(&mut grid).add_preset(&[(usize::MAX, 7)]);
    // usize::MAX is 0 modulo 3, so the column is 2; the row is 8 modulo 3.
    assert_eq!(live_cells(&grid), vec![(2, 2)]);
}

#[test]
fn add_preset_keeps_live_cells_alive() {
    let mut grid = Grid::with_data(2, 2, vec![1u8, 0, 0, 1]);
    let mut editor = Editor::new();
    editor.edit(&mut grid).add_preset(&[(0, 0), (1, 0)]);
    assert_eq!(cells(&grid), vec![1, 1, 0, 1]);
}

#[test]
fn unknown_preset_paints_nothing() {
    let mut grid: Grid<u8> = Grid::new(3, 3);
    let mut editor = Editor::new();
    editor.apply_action(EditAction::AddPreset { index: 9 }, &mut grid);
    assert_eq!(cells(&grid), vec![0u8; 9]);
}

#[test]
fn empty_preset_is_accepted_on_an_empty_grid() {
    let mut grid: Grid<u8> = Grid::new(0, 0);
    let mut editor = Editor::new();
    assert!(editor.accepts(EditAction::AddPreset { index: 9 }, &grid));
    editor.apply_action(EditAction::AddPreset { index: 9 }, &mut grid);
    assert_eq!(grid.width(), 0);
}

#[test]
fn accepts_tells_which_actions_fit_the_grid() {
    let grid: Grid<u8> = Grid::new(3, 2);
    let empty: Grid<u8> = Grid::new(0, 4);
    let mut editor = Editor::new();
    assert!(editor.accepts(EditAction::Clear, &grid));
    assert!(editor.accepts(EditAction::Clear, &empty));
    assert!(editor.accepts(EditAction::MoveCursorTo { x: 50, y: 50 }, &grid));
    assert!(editor.accepts(EditAction::ToggleCell, &grid));
    assert!(!editor.accepts(EditAction::ToggleCell, &empty));
    assert!(editor.accepts(EditAction::ToggleCellAt { x: 2, y: 1 }, &grid));
    assert!(!editor.accepts(EditAction::ToggleCellAt { x: 3, y: 1 }, &grid));
    assert!(!editor.accepts(EditAction::ToggleCellAt { x: 2, y: 2 }, &grid));
    assert!(editor.accepts(EditAction::KillCellAt { x: 0, y: 0 }, &grid));
    assert!(!editor.accepts(EditAction::KillCellAt { x: 0, y: 2 }, &grid));
    assert!(editor.accepts(EditAction::AddCellAt { x: 2, y: 0 }, &grid));
    assert!(!editor.accepts(EditAction::AddCellAt { x: 3, y: 0 }, &grid));
    assert!(editor.accepts(EditAction::MoveCursorBy { x: -1, y: 0 }, &grid));
    assert!(!editor.accepts(EditAction::MoveCursorBy { x: -1, y: 0 }, &empty));
    assert!(editor.accepts(EditAction::AddPreset { index: 1 }, &grid));
    assert!(!editor.accepts(EditAction::AddPreset { index: 1 }, &empty));
    editor.set_cursor(2, 2);
    assert!(!editor.accepts(EditAction::ToggleCell, &grid));
}
