//! What the control loop needs from a user interface, and the decisions
//! that every interface shares: which key means what, how a cell is
//! painted, and what is drawn in which state.

use crate::control::{AppAction, GameState};
use crate::editor::{EditAction, Editor};
use crate::game::Gol;
use crate::grid::{Grid, GridView};
use vstd::prelude::*;
use vstd::string::StringExecFns;

pub mod key_map;

verus! {

/// A failure of the user interface: what went wrong and, where known, the
/// description of the failure underneath.
#[derive(Debug)]
pub struct Error {
    msg: String,
    cause: Option<String>,
}

/// How a cell is painted.
#[derive(Copy, Clone, Debug, PartialEq, Eq, Structural)]
pub enum Paint {
    /// A dead cell.
    Black,
    /// A live cell.
    Red,
    /// A dead cell under the cursor.
    White,
    /// A live cell under the cursor.
    Green,
}

/// The user interface that the control loop draws on and reads actions
/// from.
pub trait GameBackend {
    fn num_cols(&self) -> usize;

    fn num_rows(&self) -> usize;

    /// The actions on the application that the user took since the last
    /// call, in order.
    fn app_actions(&self, game_state: GameState) -> Vec<AppAction>;

    /// The edits that the user asked for since the last call, in order.
    fn edit_actions(&self) -> Vec<EditAction>;

    fn draw_game(&self, grid: &Grid<u8>) -> Result<(), Error>;

    fn draw_editor(&self, editor: &Editor, grid: &Grid<u8>) -> Result<(), Error>;
}

/// How the cell `(x, y)` of `grid` is painted, with the cursor at `cursor`
/// if there is one: a live cell red, or green under the cursor; a dead
/// cell black, or white under the cursor.
pub open spec fn paint_of(grid: GridView<u8>, cursor: Option<(usize, usize)>, x: int, y: int)
    -> Paint {
    let alive = grid.at(x, y) == 1;
    if cursor == Some((x as usize, y as usize)) {
        if alive {
            Paint::Green
        } else {
            Paint::White
        }
    } else if alive {
        Paint::Red
    } else {
        Paint::Black
    }
}

/// How the cell `(x, y)` of `grid` is painted.
pub fn cell_paint(grid: &Grid<u8>, cursor: Option<(usize, usize)>, x: usize, y: usize) -> (paint:
    Paint)
    requires
        grid@.in_bounds(x as int, y as int),
    ensures
        paint == paint_of(grid@, cursor, x as int, y as int),
{
    let alive = grid.get(x, y) == 1;
    let under_cursor = match cursor {
        Some((cx, cy)) => cx == x && cy == y,
        None => false,
    };
    if under_cursor {
        if alive {
            Paint::Green
        } else {
            Paint::White
        }
    } else if alive {
        Paint::Red
    } else {
        Paint::Black
    }
}

/// Draws what `state` shows: the game while running, the editor while
/// editing, nothing while paused. Fails only if the interface does.
pub fn draw_current_state<Ui: GameBackend>(
    state: GameState,
    game: &Gol,
    editor: &Editor,
    ui: &mut Ui,
) -> (drawn: Result<(), Error>)
    ensures
        match state {
            GameState::Running => call_ensures(Ui::draw_game, (&*old(ui), game.grid()), drawn),
            GameState::Editing => call_ensures(
                Ui::draw_editor,
                (&*old(ui), editor, game.grid()),
                drawn,
            ),
            GameState::Paused => drawn is Ok,
        },
        *final(ui) == *old(ui),
{
    match state {
        GameState::Running => ui.draw_game(game.grid()),
        GameState::Editing => ui.draw_editor(editor, game.grid()),
        GameState::Paused => Ok(()),
    }
}

impl Error {
    /// What went wrong.
    pub closed spec fn spec_message(&self) -> Seq<char> {
        self.msg@
    }

    /// The description of the failure underneath, where known.
    pub closed spec fn spec_cause(&self) -> Option<Seq<char>> {
        match self.cause {
            Some(cause) => Some(cause@),
            None => None,
        }
    }

    /// A failure without a known cause.
    pub fn new(msg: String) -> (error: Error)
        ensures
            error.spec_message() == msg@,
            error.spec_cause() is None,
    {
        Error { msg, cause: None }
    }

    /// A failure with the description of what caused it.
    pub fn caused_by(msg: String, cause: String) -> (error: Error)
        ensures
            error.spec_message() == msg@,
            error.spec_cause() == Some(cause@),
    {
        Error { msg, cause: Some(cause) }
    }

    /// The failure to draw the game, with the description of what caused
    /// it.
    pub fn drawing_game(cause: String) -> (error: Error)
        ensures
            error.spec_message() == "failed to draw game"@,
            error.spec_cause() == Some(cause@),
    {
        Error::caused_by(String::from_str("failed to draw game"), cause)
    }

    /// The failure to draw the editor, with the description of what caused
    /// it.
    pub fn drawing_editor(cause: String) -> (error: Error)
        ensures
            error.spec_message() == "failed to draw editor"@,
            error.spec_cause() == Some(cause@),
    {
        Error::caused_by(String::from_str("failed to draw editor"), cause)
    }

    /// The failure in words: `Error: ` and the message.
    pub fn describe(&self) -> (text: String)
        ensures
            text@ == "Error: "@ + self.spec_message(),
    {
        String::from_str("Error: ").concat(self.msg.as_str())
    }
}

} // verus!
