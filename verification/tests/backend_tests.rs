use game_of_life::backend::key_map::{
    map_key_to_edit_action, map_key_to_global_action, take_edit_actions, take_global_actions,
};
use game_of_life::backend::{cell_paint, draw_current_state, Error, GameBackend, Paint};
use game_of_life::control::{AppAction, GameState};
use game_of_life::editor::{EditAction, Editor};
use game_of_life::game::Gol;
use game_of_life::grid::Grid;
use std::cell::Cell;

struct Screen {
    games: Cell<usize>,
    editors: Cell<usize>,
    fails: bool,
}

impl Screen {
    fn new(fails: bool) -> Screen {
        Screen { games: Cell::new(0), editors: Cell::new(0), fails }
    }

    fn outcome(&self, failure: Error) -> Result<(), Error> {
        if self.fails {
            Err(failure)
        } else {
            Ok(())
        }
    }
}

impl GameBackend for Screen {
    fn num_cols(&self) -> usize {
        3
    }

    fn num_rows(&self) -> usize {
        2
    }

    fn app_actions(&self, _game_state: GameState) -> Vec<AppAction> {
        Vec::new()
    }

    fn edit_actions(&self) -> Vec<EditAction> {
        Vec::new()
    }

    fn draw_game(&self, _grid: &Grid<u8>) -> Result<(), Error> {
        self.games.set(self.games.get() + 1);
        self.outcome(Error::drawing_game("no screen".to_string()))
    }

    fn draw_editor(&self, _editor: &Editor, _grid: &Grid<u8>) -> Result<(), Error> {
        self.editors.set(self.editors.get() + 1);
        self.outcome(Error::drawing_editor("no screen".to_string()))
    }
}

#[test]
fn global_keys() {
    for state in [GameState::Paused, GameState::Running, GameState::Editing] {
        assert_eq!(map_key_to_global_action(state, 'q'), Some(AppAction::Quit));
        assert_eq!(map_key_to_global_action(state, 'x'), None);
        assert_eq!(map_key_to_global_action(state, 'Q'), None);
        assert_eq!(map_key_to_global_action(state, '\n'), None);
    }
    assert_eq!(map_key_to_global_action(GameState::Paused, '\r'), Some(AppAction::TogglePause));
    assert_eq!(map_key_to_global_action(GameState::Running, '\r'), Some(AppAction::TogglePause));
    assert_eq!(map_key_to_global_action(GameState::Editing, '\r'), Some(AppAction::EditDone));
    assert_eq!(map_key_to_global_action(GameState::Paused, 'e'), Some(AppAction::EditMode));
    assert_eq!(map_key_to_global_action(GameState::Running, 'e'), Some(AppAction::EditMode));
    assert_eq!(map_key_to_global_action(GameState::Editing, 'e'), None);
}

#[test]
fn edit_keys() {
    assert_eq!(map_key_to_edit_action('c'), Some(EditAction::Clear));
    assert_eq!(map_key_to_edit_action('i'), Some(EditAction::MoveCursorBy { x: 0, y: -1 }));
    assert_eq!(map_key_to_edit_action('k'), Some(EditAction::MoveCursorBy { x: 0, y: 1 }));
    assert_eq!(map_key_to_edit_action('j'), Some(EditAction::MoveCursorBy { x: -1, y: 0 }));
    assert_eq!(map_key_to_edit_action('l'), Some(EditAction::MoveCursorBy { x: 1, y: 0 }));
    assert_eq!(map_key_to_edit_action(' '), Some(EditAction::ToggleCell));
    assert_eq!(map_key_to_edit_action('q'), None);
    assert_eq!(map_key_to_edit_action('\r'), None);
}

#[test]
fn digit_keys_name_presets() {
    for (index, key) in "0123456789".chars().enumerate() {
        assert_eq!(
            map_key_to_edit_action(key),
            Some(EditAction::AddPreset { index: index as u8 })
        );
    }
    assert_eq!(map_key_to_edit_action('/'), None);
    assert_eq!(map_key_to_edit_action(':'), None);
    // A digit of another script is no preset key.
    assert_eq!(map_key_to_edit_action('\u{0663}'), None);
}

#[test]
fn global_actions_are_taken_out_of_the_pressed_keys() {
    let mut presses = vec!['x', 'q', 'e', 'c', '\r'];
    let actions = take_global_actions(GameState::Paused, &mut presses);
    assert_eq!(actions, vec![AppAction::Quit, AppAction::EditMode, AppAction::TogglePause]);
    assert_eq!(presses, vec!['x', 'c']);
}

#[test]
fn global_actions_depend_on_the_state() {
    let mut presses = vec!['e', '\r', 'e'];
    let actions = take_global_actions(GameState::Editing, &mut presses);
    assert_eq!(actions, vec![AppAction::EditDone]);
    assert_eq!(presses, vec!['e', 'e']);
}

#[test]
fn edit_actions_are_taken_out_of_the_pressed_keys() {
    let mut presses = vec!['q', ' ', '3', 'z', 'j'];
    let actions = take_edit_actions(&mut presses);
    assert_eq!(
        actions,
        vec![
            EditAction::ToggleCell,
            EditAction::AddPreset { index: 3 },
            EditAction::MoveCursorBy { x: -1, y: 0 },
        ]
    );
    assert_eq!(presses, vec!['q', 'z']);
}

#[test]
fn no_keys_no_actions() {
    let mut presses = Vec::new();
    assert_eq!(take_global_actions(GameState::Running, &mut presses), vec![]);
    assert_eq!(take_edit_actions(&mut presses), vec![]);
    assert_eq!(presses, vec![]);
}

#[test]
fn cells_are_painted_by_state_and_cursor() {
    let grid = Grid::with_data(2, 2, vec![1u8, 0, 0, 1]);
    assert_eq!(cell_paint(&grid, None, 0, 0), Paint::Red);
    assert_eq!(cell_paint(&grid, None, 1, 0), Paint::Black);
    assert_eq!(cell_paint(&grid, Some((0, 0)), 0, 0), Paint::Green);
    assert_eq!(cell_paint(&grid, Some((1, 0)), 1, 0), Paint::White);
    assert_eq!(cell_paint(&grid, Some((1, 0)), 1, 1), Paint::Red);
    assert_eq!(cell_paint(&grid, Some((1, 0)), 0, 1), Paint::Black);
}

#[test]
fn only_the_value_one_is_painted_alive() {
    let grid = Grid::with_data(1, 1, vec![2u8]);
    assert_eq!(cell_paint(&grid, None, 0, 0), Paint::Black);
    assert_eq!(cell_paint(&grid, Some((0, 0)), 0, 0), Paint::White);
}

#[test]
fn running_draws_the_game() {
    let mut screen = Screen::new(false);
    let drawn = draw_current_state(GameState::Running, &Gol::new(3, 2, true), &Editor::new(), &mut screen);
    assert!(drawn.is_ok());
    assert_eq!((screen.games.get(), screen.editors.get()), (1, 0));
}

#[test]
fn editing_draws_the_editor() {
    let mut screen = Screen::new(false);
    let drawn = draw_current_state(GameState::Editing, &Gol::new(3, 2, true), &Editor::new(), &mut screen);
    assert!(drawn.is_ok());
    assert_eq!((screen.games.get(), screen.editors.get()), (0, 1));
}

#[test]
fn paused_draws_nothing() {
    let mut screen = Screen::new(true);
    let drawn = draw_current_state(GameState::Paused, &Gol::new(3, 2, true), &Editor::new(), &mut screen);
    assert!(drawn.is_ok());
    assert_eq!((screen.games.get(), screen.editors.get()), (0, 0));
}

#[test]
fn drawing_failures_are_handed_on() {
    let mut screen = Screen::new(true);
    let game = Gol::new(3, 2, true);
    let drawn = draw_current_state(GameState::Running, &game, &Editor::new(), &mut screen);
    assert_eq!(drawn.unwrap_err().describe(), "Error: failed to draw game");
    let drawn = draw_current_state(GameState::Editing, &game, &Editor::new(), &mut screen);
    assert_eq!(drawn.unwrap_err().describe(), "Error: failed to draw editor");
}

#[test]
fn drawing_failures_name_what_was_drawn() {
    assert_eq!(
        Error::drawing_game("broken pipe".to_string()).describe(),
        "Error: failed to draw game"
    );
    assert_eq!(
        Error::drawing_editor("broken pipe".to_string()).describe(),
        "Error: failed to draw editor"
    );
}

#[test]
fn error_is_described_by_its_message() {
    assert_eq!(Error::new("no terminal".to_string()).describe(), "Error: no terminal");
    assert_eq!(
        Error::caused_by("no terminal".to_string(), "not a tty".to_string()).describe(),
        "Error: no terminal"
    );
    assert_eq!(Error::new(String::new()).describe(), "Error: ");
}
