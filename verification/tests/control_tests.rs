use game_of_life::control::{
    commands_between, frame, plan, AppAction, Command, Frame, GameState, Worker,
};
use game_of_life::runner::Control;

fn command(worker: Worker, control: Control) -> Command {
    Command { worker, control }
}

#[test]
fn toggle_paused_flips_running_and_paused() {
    assert_eq!(GameState::Paused.toggle_paused(), GameState::Running);
    assert_eq!(GameState::Running.toggle_paused(), GameState::Paused);
    assert_eq!(GameState::Editing.toggle_paused(), GameState::Editing);
}

#[test]
fn no_action_changes_nothing() {
    for state in [GameState::Paused, GameState::Running, GameState::Editing] {
        let pass = plan(state, &[]);
        assert!(!pass.quit);
        assert_eq!(pass.next, state);
        assert_eq!(pass.commands, vec![]);
        assert_eq!(pass.forward_edits, state == GameState::Editing);
        assert_eq!(pass.frame, frame(state));
    }
}

#[test]
fn toggle_pause_starts_the_game_worker() {
    let pass = plan(GameState::Paused, &[AppAction::TogglePause]);
    assert!(!pass.quit);
    assert_eq!(pass.next, GameState::Running);
    assert_eq!(pass.commands, vec![command(Worker::Game, Control::Play)]);
    assert!(!pass.forward_edits);
    assert_eq!(pass.frame, Frame::Game);
}

#[test]
fn toggle_pause_pauses_the_game_worker() {
    let pass = plan(GameState::Running, &[AppAction::TogglePause]);
    assert_eq!(pass.next, GameState::Paused);
    assert_eq!(pass.commands, vec![command(Worker::Game, Control::Pause)]);
    assert_eq!(pass.frame, Frame::Nothing);
}

#[test]
fn edit_mode_from_paused_starts_the_edit_worker() {
    let pass = plan(GameState::Paused, &[AppAction::EditMode]);
    assert_eq!(pass.next, GameState::Editing);
    assert_eq!(pass.commands, vec![command(Worker::Editor, Control::Play)]);
    // The pass started outside editing: its edit actions are not forwarded.
    assert!(!pass.forward_edits);
    assert_eq!(pass.frame, Frame::Editor);
}

#[test]
fn edit_mode_from_running_pauses_the_game_worker_first() {
    let pass = plan(GameState::Running, &[AppAction::EditMode]);
    assert_eq!(pass.next, GameState::Editing);
    assert_eq!(
        pass.commands,
        vec![command(Worker::Game, Control::Pause), command(Worker::Editor, Control::Play)]
    );
}

#[test]
fn edit_done_pauses_the_edit_worker() {
    let pass = plan(GameState::Editing, &[AppAction::EditDone]);
    assert_eq!(pass.next, GameState::Paused);
    assert_eq!(pass.commands, vec![command(Worker::Editor, Control::Pause)]);
    assert!(pass.forward_edits);
    assert_eq!(pass.frame, Frame::Nothing);
}

#[test]
fn entering_and_leaving_edit_mode_signals_the_edit_worker_once_each() {
    let mut state = GameState::Paused;
    let mut starts = 0;
    let mut pauses = 0;
    let mut others = 0;
    for action in [AppAction::EditMode, AppAction::EditDone] {
        let pass = plan(state, &[action]);
        assert!(!pass.quit);
        for sent in &pass.commands {
            match (sent.worker, sent.control) {
                (Worker::Editor, Control::Play) => starts += 1,
                (Worker::Editor, Control::Pause) => pauses += 1,
                _ => others += 1,
            }
        }
        state = pass.next;
    }
    assert_eq!(state, GameState::Paused);
    assert_eq!(starts, 1);
    assert_eq!(pauses, 1);
    assert_eq!(others, 0);
}

#[test]
fn toggle_pause_while_editing_changes_nothing() {
    let pass = plan(GameState::Editing, &[AppAction::TogglePause]);
    assert_eq!(pass.next, GameState::Editing);
    assert_eq!(pass.commands, vec![]);
    assert!(pass.forward_edits);
    assert_eq!(pass.frame, Frame::Editor);
}

#[test]
fn edit_done_while_running_pauses_the_game() {
    let pass = plan(GameState::Running, &[AppAction::EditDone]);
    assert_eq!(pass.next, GameState::Paused);
    assert_eq!(pass.commands, vec![command(Worker::Game, Control::Pause)]);
}

#[test]
fn quit_finishes_both_workers() {
    for state in [GameState::Paused, GameState::Running, GameState::Editing] {
        let pass = plan(state, &[AppAction::Quit]);
        assert!(pass.quit);
        assert_eq!(pass.next, state);
        assert_eq!(
            pass.commands,
            vec![command(Worker::Editor, Control::Finish), command(Worker::Game, Control::Finish)]
        );
        assert!(!pass.forward_edits);
        assert_eq!(pass.frame, Frame::Nothing);
    }
}

#[test]
fn quit_overrides_the_other_actions_of_its_pass() {
    let pass = plan(
        GameState::Paused,
        &[AppAction::TogglePause, AppAction::Quit, AppAction::EditMode],
    );
    assert!(pass.quit);
    assert_eq!(pass.next, GameState::Paused);
    assert_eq!(
        pass.commands,
        vec![command(Worker::Editor, Control::Finish), command(Worker::Game, Control::Finish)]
    );
}

#[test]
fn last_action_of_a_pass_wins() {
    let pass = plan(GameState::Paused, &[AppAction::EditMode, AppAction::TogglePause]);
    assert_eq!(pass.next, GameState::Running);
    assert_eq!(pass.commands, vec![command(Worker::Game, Control::Play)]);
    let pass = plan(GameState::Paused, &[AppAction::TogglePause, AppAction::TogglePause]);
    // Each action is judged against the state at the start of the pass.
    assert_eq!(pass.next, GameState::Running);
}

#[test]
fn commands_between_equal_states_are_none() {
    for state in [GameState::Paused, GameState::Running, GameState::Editing] {
        assert_eq!(commands_between(state, state), vec![]);
    }
}

#[test]
fn commands_between_editing_and_running_swap_the_workers() {
    assert_eq!(
        commands_between(GameState::Editing, GameState::Running),
        vec![command(Worker::Editor, Control::Pause), command(Worker::Game, Control::Play)]
    );
}

#[test]
fn frame_follows_the_state() {
    assert_eq!(frame(GameState::Running), Frame::Game);
    assert_eq!(frame(GameState::Editing), Frame::Editor);
    assert_eq!(frame(GameState::Paused), Frame::Nothing);
}
