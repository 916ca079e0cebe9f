//! The key bindings: which key asks for which action.

use crate::control::{AppAction, GameState};
use crate::editor::EditAction;
use vstd::prelude::*;

verus! {

/// The number that a decimal digit stands for; nothing for another key.
pub open spec fn digit_value(key: char) -> Option<u8> {
    if '0' <= key <= '9' {
        Some((key as u32 - '0' as u32) as u8)
    } else {
        None
    }
}

/// The action on the application that `key` asks for in `game_state`:
/// `q` quits; Return ends editing while editing, and pauses or resumes
/// otherwise; `e` starts editing unless already editing.
pub open spec fn global_action(game_state: GameState, key: char) -> Option<AppAction> {
    if key == 'q' {
        Some(AppAction::Quit)
    } else if key == '\r' {
        if game_state == GameState::Editing {
            Some(AppAction::EditDone)
        } else {
            Some(AppAction::TogglePause)
        }
    } else if key == 'e' && game_state != GameState::Editing {
        Some(AppAction::EditMode)
    } else {
        None
    }
}

/// The edit that `key` asks for: `c` clears; `i`, `k`, `j`, `l` move the
/// cursor up, down, left, right; Space toggles the cell under the cursor;
/// a digit paints the preset of that number.
pub open spec fn edit_action(key: char) -> Option<EditAction> {
    if key == 'c' {
        Some(EditAction::Clear)
    } else if key == 'i' {
        Some(EditAction::MoveCursorBy { x: 0, y: -1isize })
    } else if key == 'k' {
        Some(EditAction::MoveCursorBy { x: 0, y: 1 })
    } else if key == 'j' {
        Some(EditAction::MoveCursorBy { x: -1isize, y: 0 })
    } else if key == 'l' {
        Some(EditAction::MoveCursorBy { x: 1, y: 0 })
    } else if key == ' ' {
        Some(EditAction::ToggleCell)
    } else {
        match digit_value(key) {
            Some(index) => Some(EditAction::AddPreset { index }),
            None => None,
        }
    }
}

/// The actions on the application that `keys` ask for in `game_state`, in
/// the order of the keys; keys that ask for none are passed over.
pub open spec fn global_actions(game_state: GameState, keys: Seq<char>) -> Seq<AppAction>
    decreases keys.len(),
{
    if keys.len() == 0 {
        seq![]
    } else {
        match global_action(game_state, keys.last()) {
            Some(action) => global_actions(game_state, keys.drop_last()).push(action),
            None => global_actions(game_state, keys.drop_last()),
        }
    }
}

/// The keys among `keys` that ask for no action on the application in
/// `game_state`, in their order.
pub open spec fn without_global(game_state: GameState, keys: Seq<char>) -> Seq<char>
    decreases keys.len(),
{
    if keys.len() == 0 {
        seq![]
    } else if global_action(game_state, keys.last()) is None {
        without_global(game_state, keys.drop_last()).push(keys.last())
    } else {
        without_global(game_state, keys.drop_last())
    }
}

/// The edits that `keys` ask for, in the order of the keys; keys that ask
/// for none are passed over.
pub open spec fn edit_actions(keys: Seq<char>) -> Seq<EditAction>
    decreases keys.len(),
{
    if keys.len() == 0 {
        seq![]
    } else {
        match edit_action(keys.last()) {
            Some(action) => edit_actions(keys.drop_last()).push(action),
            None => edit_actions(keys.drop_last()),
        }
    }
}

/// The keys among `keys` that ask for no edit, in their order.
pub open spec fn without_edits(keys: Seq<char>) -> Seq<char>
    decreases keys.len(),
{
    if keys.len() == 0 {
        seq![]
    } else if edit_action(keys.last()) is None {
        without_edits(keys.drop_last()).push(keys.last())
    } else {
        without_edits(keys.drop_last())
    }
}

/// The action on the application that `key` asks for in `game_state`.
pub fn map_key_to_global_action(game_state: GameState, key: char) -> (action: Option<AppAction>)
    ensures
        action == global_action(game_state, key),
{
    if key == 'q' {
        Some(AppAction::Quit)
    } else if key == '\r' {
        if game_state == GameState::Editing {
            Some(AppAction::EditDone)
        } else {
            Some(AppAction::TogglePause)
        }
    } else if key == 'e' && game_state != GameState::Editing {
        Some(AppAction::EditMode)
    } else {
        None
    }
}

/// The edit that `key` asks for.
pub fn map_key_to_edit_action(key: char) -> (action: Option<EditAction>)
    ensures
        action == edit_action(key),
{
    if key == 'c' {
        Some(EditAction::Clear)
    } else if key == 'i' {
        Some(EditAction::MoveCursorBy { x: 0, y: -1 })
    } else if key == 'k' {
        Some(EditAction::MoveCursorBy { x: 0, y: 1 })
    } else if key == 'j' {
        Some(EditAction::MoveCursorBy { x: -1, y: 0 })
    } else if key == 'l' {
        Some(EditAction::MoveCursorBy { x: 1, y: 0 })
    } else if key == ' ' {
        Some(EditAction::ToggleCell)
    } else if '0' <= key && key <= '9' {
        Some(EditAction::AddPreset { index: (key as u32 - '0' as u32) as u8 })
    } else {
        None
    }
}

/// Takes out of `presses` the keys that ask for an action on the
/// application in `game_state` and returns those actions; the other keys
/// stay, in their order.
pub fn take_global_actions(game_state: GameState, presses: &mut Vec<char>) -> (actions: Vec<
    AppAction,
>)
    ensures
        actions@ == global_actions(game_state, old(presses)@),
        final(presses)@ == without_global(game_state, old(presses)@),
{
    let mut actions: Vec<AppAction> = Vec::new();
    let mut rest: Vec<char> = Vec::new();
    let mut i: usize = 0;
    while i < presses.len()
        invariant
            i <= presses@.len(),
            presses@ == old(presses)@,
            actions@ == global_actions(game_state, presses@.take(i as int)),
            rest@ == without_global(game_state, presses@.take(i as int)),
        decreases presses@.len() - i,
    {
        let key = presses[i];
        assert(presses@.take(i + 1).drop_last() == presses@.take(i as int));
        match map_key_to_global_action(game_state, key) {
            Some(action) => actions.push(action),
            None => rest.push(key),
        }
        i = i + 1;
    }
    assert(presses@.take(i as int) == presses@);
    *presses = rest;
    actions
}

/// Takes out of `presses` the keys that ask for an edit and returns those
/// edits; the other keys stay, in their order.
pub fn take_edit_actions(presses: &mut Vec<char>) -> (actions: Vec<EditAction>)
    ensures
        actions@ == edit_actions(old(presses)@),
        final(presses)@ == without_edits(old(presses)@),
{
    let mut actions: Vec<EditAction> = Vec::new();
    let mut rest: Vec<char> = Vec::new();
    let mut i: usize = 0;
    while i < presses.len()
        invariant
            i <= presses@.len(),
            presses@ == old(presses)@,
            actions@ == edit_actions(presses@.take(i as int)),
            rest@ == without_edits(presses@.take(i as int)),
        decreases presses@.len() - i,
    {
        let key = presses[i];
        assert(presses@.take(i + 1).drop_last() == presses@.take(i as int));
        match map_key_to_edit_action(key) {
            Some(action) => actions.push(action),
            None => rest.push(key),
        }
        i = i + 1;
    }
    assert(presses@.take(i as int) == presses@);
    *presses = rest;
    actions
}

} // verus!
