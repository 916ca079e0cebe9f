//! The decisions of the foreground control loop: how the application's
//! state follows from the actions that the user took, which signals the
//! two background workers are sent on the way, and what is drawn.

use crate::runner::Control;
use vstd::prelude::*;

verus! {

/// What the user can ask of the application as a whole.
#[derive(Copy, Clone, Debug, PartialEq, Eq, Structural)]
pub enum AppAction {
    Quit,
    TogglePause,
    EditMode,
    EditDone,
}

/// The application's state. In `Running` the simulation worker plays, in
/// `Editing` the edit worker plays, in `Paused` neither does.
#[derive(Copy, Clone, Debug, PartialEq, Eq, Structural)]
pub enum GameState {
    Running,
    Paused,
    Editing,
}

/// One of the two background workers.
#[derive(Copy, Clone, Debug, PartialEq, Eq, Structural)]
pub enum Worker {
    /// The worker that computes generations.
    Game,
    /// The worker that applies edits.
    Editor,
}

/// A signal for one of the workers.
#[derive(Copy, Clone, Debug, PartialEq, Eq, Structural)]
pub struct Command {
    pub worker: Worker,
    pub control: Control,
}

/// What the control loop draws at the end of a pass.
#[derive(Copy, Clone, Debug, PartialEq, Eq, Structural)]
pub enum Frame {
    Nothing,
    Game,
    Editor,
}

/// What one pass of the control loop does.
#[derive(Debug)]
pub struct Plan {
    /// Whether the application terminates with this pass.
    pub quit: bool,
    /// The state after the pass.
    pub next: GameState,
    /// Whether the edit actions of this pass go to the edit worker.
    pub forward_edits: bool,
    /// The signals to send, in order; the first that cannot be delivered
    /// ends the application with that failure.
    pub commands: Vec<Command>,
    /// What to draw once the signals are sent.
    pub frame: Frame,
}

/// The state that one action asks for. `Quit` asks for no state.
pub open spec fn target(state: GameState, action: AppAction) -> GameState {
    match action {
        AppAction::EditDone => GameState::Paused,
        AppAction::TogglePause => state.toggle_paused(),
        AppAction::EditMode => GameState::Editing,
        AppAction::Quit => state,
    }
}

/// The state that the actions of one pass ask for: each action is judged
/// against the state at the start of the pass, and the last one wins.
pub open spec fn requested(state: GameState, actions: Seq<AppAction>) -> GameState {
    if actions.len() == 0 {
        state
    } else {
        target(state, actions.last())
    }
}

/// The signals sent when `state` is left.
pub open spec fn leaving(state: GameState) -> Seq<Command> {
    match state {
        GameState::Editing => seq![Command { worker: Worker::Editor, control: Control::Pause }],
        GameState::Running => seq![Command { worker: Worker::Game, control: Control::Pause }],
        GameState::Paused => seq![],
    }
}

/// The signals sent when `state` is entered.
pub open spec fn entering(state: GameState) -> Seq<Command> {
    match state {
        GameState::Editing => seq![Command { worker: Worker::Editor, control: Control::Play }],
        GameState::Running => seq![Command { worker: Worker::Game, control: Control::Play }],
        GameState::Paused => seq![],
    }
}

/// The signals sent on the way from `from` to `to`: none if the state
/// stays; else the worker of the old state is paused before the worker of
/// the new one is started.
pub open spec fn transition_commands(from: GameState, to: GameState) -> Seq<Command> {
    if from == to {
        seq![]
    } else {
        leaving(from) + entering(to)
    }
}

/// The signals sent on `Quit`: both workers are finished, the edit worker
/// first.
pub open spec fn shutdown_commands() -> Seq<Command> {
    seq![
        Command { worker: Worker::Editor, control: Control::Finish },
        Command { worker: Worker::Game, control: Control::Finish },
    ]
}

/// What is drawn in `state`.
pub open spec fn frame_for(state: GameState) -> Frame {
    match state {
        GameState::Running => Frame::Game,
        GameState::Editing => Frame::Editor,
        GameState::Paused => Frame::Nothing,
    }
}

/// Whether `worker` plays while the application is in `state`.
pub open spec fn plays(worker: Worker, state: GameState) -> bool {
    match worker {
        Worker::Game => state == GameState::Running,
        Worker::Editor => state == GameState::Editing,
    }
}

/// Whether `worker` plays after the signals `commands`, given whether it
/// played before: the last `Play` or `Pause` addressed to it decides.
pub open spec fn plays_after(worker: Worker, playing: bool, commands: Seq<Command>) -> bool
    decreases commands.len(),
{
    if commands.len() == 0 {
        playing
    } else if commands.last().worker == worker {
        commands.last().control == Control::Play
    } else {
        plays_after(worker, playing, commands.drop_last())
    }
}

/// The signals of a transition keep each worker in step with the state:
/// a worker that plays exactly in its own state before the transition
/// plays exactly in its own state after it. So at most one worker plays at
/// any time.
pub proof fn lemma_transition_keeps_workers_in_step(worker: Worker, from: GameState, to: GameState)
    ensures
        plays_after(worker, plays(worker, from), transition_commands(from, to)) == plays(
            worker,
            to,
        ),
{
    let commands = transition_commands(from, to);
    if from != to {
        reveal_with_fuel(plays_after, 3);
        if leaving(from).len() == 0 {
            assert(commands =~= entering(to));
        } else if entering(to).len() == 0 {
            assert(commands =~= leaving(from));
        } else {
            assert(commands.len() == 2);
            assert(commands.last() == entering(to)[0]);
            assert(commands.drop_last() =~= leaving(from));
        }
    }
}

impl GameState {
    /// `Paused` for `Running` and `Running` for `Paused`; `Editing` stays.
    pub open spec fn spec_toggle_paused(self) -> GameState {
        match self {
            GameState::Paused => GameState::Running,
            GameState::Running => GameState::Paused,
            GameState::Editing => GameState::Editing,
        }
    }

    #[verifier::when_used_as_spec(spec_toggle_paused)]
    pub fn toggle_paused(self) -> (state: GameState)
        ensures
            state == self.toggle_paused(),
    {
        match self {
            GameState::Paused => GameState::Running,
            GameState::Running => GameState::Paused,
            s => s,
        }
    }
}

/// The state that one action asks for.
fn target_of(state: GameState, action: AppAction) -> (next: GameState)
    ensures
        next == target(state, action),
{
    match action {
        AppAction::EditDone => GameState::Paused,
        AppAction::TogglePause => state.toggle_paused(),
        AppAction::EditMode => GameState::Editing,
        AppAction::Quit => state,
    }
}

/// What is drawn in `state`.
pub fn frame(state: GameState) -> (frame: Frame)
    ensures
        frame == frame_for(state),
{
    match state {
        GameState::Running => Frame::Game,
        GameState::Editing => Frame::Editor,
        GameState::Paused => Frame::Nothing,
    }
}

/// The signals sent on the way from `from` to `to`.
pub fn commands_between(from: GameState, to: GameState) -> (commands: Vec<Command>)
    ensures
        commands@ == transition_commands(from, to),
{
    let mut commands: Vec<Command> = Vec::new();
    if from != to {
        match from {
            GameState::Editing => commands.push(
                Command { worker: Worker::Editor, control: Control::Pause },
            ),
            GameState::Running => commands.push(
                Command { worker: Worker::Game, control: Control::Pause },
            ),
            GameState::Paused => {},
        }
        match to {
            GameState::Editing => commands.push(
                Command { worker: Worker::Editor, control: Control::Play },
            ),
            GameState::Running => commands.push(
                Command { worker: Worker::Game, control: Control::Play },
            ),
            GameState::Paused => {},
        }
    }
    commands
}

/// Decides one pass of the control loop from the state at its start and
/// the actions that the user took, in the order in which they were taken.
///
/// With a `Quit` among the actions the application terminates: both
/// workers are finished and nothing else happens. Otherwise the last
/// action decides the next state, the workers are signalled on the way
/// there, edit actions are forwarded if the pass started in `Editing`, and
/// the next state is drawn.
pub fn plan(state: GameState, actions: &[AppAction]) -> (plan: Plan)
    ensures
        plan.quit == actions@.contains(AppAction::Quit),
        plan.quit ==> plan.next == state && plan.commands@ == shutdown_commands()
            && !plan.forward_edits && plan.frame == Frame::Nothing,
        !plan.quit ==> plan.next == requested(state, actions@) && plan.commands@
            == transition_commands(state, plan.next) && plan.forward_edits == (state
            == GameState::Editing) && plan.frame == frame_for(plan.next),
{
    let mut next = state;
    let mut i: usize = 0;
    while i < actions.len()
        invariant
            i <= actions@.len(),
            !actions@.take(i as int).contains(AppAction::Quit),
            next == requested(state, actions@.take(i as int)),
        decreases actions@.len() - i,
    {
        let action = actions[i];
        if action == AppAction::Quit {
            let mut commands: Vec<Command> = Vec::new();
            commands.push(Command { worker: Worker::Editor, control: Control::Finish });
            commands.push(Command { worker: Worker::Game, control: Control::Finish });
            assert(actions@[i as int] == AppAction::Quit);
            return Plan {
                quit: true,
                next: state,
                forward_edits: false,
                commands,
                frame: Frame::Nothing,
            };
        }
        next = target_of(state, action);
        proof {
            let longer = actions@.take(i + 1);
            assert(longer.last() == action);
            assert forall|k: int| 0 <= k < longer.len() implies longer[k] != AppAction::Quit by {
                if k < i {
                    assert(actions@.take(i as int)[k] == longer[k]);
                }
            }
        }
        i = i + 1;
    }
    assert(actions@.take(i as int) == actions@);
    Plan {
        quit: false,
        next,
        forward_edits: state == GameState::Editing,
        commands: commands_between(state, next),
        frame: frame(next),
    }
}

} // verus!
