//! The control side of a background worker: the signals that start, pause
//! and finish it, the channel that carries them, and the worker's decision
//! of what to do after each look at that channel.

use std::sync::mpsc::{Receiver, Sender};
use vstd::prelude::*;

verus! {

/// A signal to a worker.
#[derive(Copy, Clone, Debug, PartialEq, Eq, Structural)]
pub enum Control {
    Finish,
    Play,
    Pause,
}

/// The other end of a control channel is gone: a signal could not be
/// delivered, or none will arrive any more.
#[derive(Copy, Clone, Debug, PartialEq, Eq, Structural)]
pub struct Error;

/// What one look at a channel found.
#[derive(Debug, PartialEq, Eq, Structural)]
pub enum Polled<T> {
    /// A message was waiting.
    Message(T),
    /// No message was waiting; the sender is still there.
    Empty,
    /// No message was waiting and none will come: every sender is gone.
    Disconnected,
}

/// What a worker is doing between two looks at its control channel.
#[derive(Copy, Clone, Debug, PartialEq, Eq, Structural)]
pub enum Mode {
    /// Waiting for a signal; the unit of work is not run.
    Paused,
    /// Running the unit of work again and again.
    Playing,
    /// Stopped for good.
    Finished,
}

/// `std::sync::mpsc::Sender`, the sending end of a channel. The verifier
/// sees nothing inside it.
#[verifier::external_type_specification]
#[verifier::external_body]
#[verifier::reject_recursive_types(T)]
pub struct ExSender<T>(Sender<T>);

/// `std::sync::mpsc::Receiver`, the receiving end of a channel. The
/// verifier sees nothing inside it.
#[verifier::external_type_specification]
#[verifier::external_body]
#[verifier::reject_recursive_types(T)]
pub struct ExReceiver<T>(Receiver<T>);

/// `Sender::send`: queues `message` on the channel and reports whether the
/// receiver was still there to take it. Nothing is claimed of the outcome.
#[verifier::external_body]
fn channel_send<T>(sender: &Sender<T>, message: T) -> (delivered: bool) {
    sender.send(message).is_ok()
}

/// `Receiver::recv`: blocks until a message arrives or every sender is
/// gone. The outcome is never `Empty`.
#[verifier::external_body]
fn channel_recv<T>(receiver: &Receiver<T>) -> (polled: Polled<T>)
    ensures
        !(polled is Empty),
{
    match receiver.recv() {
        Ok(message) => Polled::Message(message),
        Err(_) => Polled::Disconnected,
    }
}

/// `Receiver::try_recv`: takes a waiting message, if there is one, without
/// blocking. Nothing is claimed of the outcome.
#[verifier::external_body]
fn channel_try_recv<T>(receiver: &Receiver<T>) -> (polled: Polled<T>) {
    match receiver.try_recv() {
        Ok(message) => Polled::Message(message),
        Err(std::sync::mpsc::TryRecvError::Empty) => Polled::Empty,
        Err(std::sync::mpsc::TryRecvError::Disconnected) => Polled::Disconnected,
    }
}

/// Holds when `delivered` is what one attempt to send `message` on `sender`
/// reported.
pub closed spec fn sent<T>(sender: Sender<T>, message: T, delivered: bool) -> bool {
    call_ensures(channel_send::<T>, (&sender, message), delivered)
}

/// Holds when `polled` is what one look at `receiver` found: a look that
/// waits for a message or for the loss of every sender if `block`, and one
/// that returns at once if not.
pub closed spec fn looked<T>(receiver: Receiver<T>, block: bool, polled: Polled<T>) -> bool {
    if block {
        call_ensures(channel_recv::<T>, (&receiver,), polled)
    } else {
        call_ensures(channel_try_recv::<T>, (&receiver,), polled)
    }
}

/// A look that waits never comes back empty-handed: it finds a message or
/// the loss of every sender.
pub proof fn lemma_waiting_look_is_not_empty<T>(receiver: Receiver<T>, polled: Polled<T>)
    requires
        looked(receiver, true, polled),
    ensures
        !(polled is Empty),
{
}

/// What a delivery attempt reports: success if the signal was delivered,
/// the error if not.
pub open spec fn reported(delivered: bool) -> Result<(), Error> {
    if delivered {
        Ok(())
    } else {
        Err(Error)
    }
}

/// The message that a look at the channel stands for: the message found;
/// `def_msg` where none was waiting; an error where none will come.
pub open spec fn resolved<T>(polled: Polled<T>, def_msg: T) -> Result<T, Error> {
    match polled {
        Polled::Message(message) => Ok(message),
        Polled::Empty => Ok(def_msg),
        Polled::Disconnected => Err(Error),
    }
}

/// The mode of a worker after it received `message`: a worker that has
/// finished stays finished; otherwise `Play` makes it play, `Pause` makes
/// it pause, and `Finish` or the loss of the channel finishes it.
pub open spec fn mode_after(mode: Mode, message: Result<Control, Error>) -> Mode {
    if mode == Mode::Finished {
        Mode::Finished
    } else {
        match message {
            Ok(Control::Play) => Mode::Playing,
            Ok(Control::Pause) => Mode::Paused,
            Ok(Control::Finish) => Mode::Finished,
            Err(_) => Mode::Finished,
        }
    }
}

/// The mode of a worker that started in `mode` and received `messages` in
/// turn.
pub open spec fn mode_after_all(mode: Mode, messages: Seq<Result<Control, Error>>) -> Mode
    decreases messages.len(),
{
    if messages.len() == 0 {
        mode
    } else {
        mode_after(mode_after_all(mode, messages.drop_last()), messages.last())
    }
}

/// A worker that has finished stays finished, whatever it is sent.
pub proof fn lemma_finished_stays_finished(messages: Seq<Result<Control, Error>>)
    ensures
        mode_after_all(Mode::Finished, messages) == Mode::Finished,
    decreases messages.len(),
{
    if messages.len() > 0 {
        lemma_finished_stays_finished(messages.drop_last());
    }
}

/// Once a worker has received `Finish`, no later signal restarts it: it
/// ends up finished whatever it did before and whatever follows.
pub proof fn lemma_finish_is_final(
    mode: Mode,
    earlier: Seq<Result<Control, Error>>,
    later: Seq<Result<Control, Error>>,
)
    ensures
        mode_after_all(mode, earlier.push(Ok(Control::Finish)) + later) == Mode::Finished,
    decreases later.len(),
{
    let all = earlier.push(Ok(Control::Finish)) + later;
    if later.len() == 0 {
        assert(all == earlier.push(Ok(Control::Finish)));
        assert(all.drop_last() == earlier);
    } else {
        lemma_finish_is_final(mode, earlier, later.drop_last());
        assert(all.drop_last() == earlier.push(Ok(Control::Finish)) + later.drop_last());
    }
}

/// What a delivery attempt reports: success if the signal was delivered,
/// the error if not.
pub fn delivery(delivered: bool) -> (outcome: Result<(), Error>)
    ensures
        outcome == reported(delivered),
{
    if delivered {
        Ok(())
    } else {
        Err(Error)
    }
}

/// Turns a look at a channel into the message to act on.
pub fn resolve<T>(polled: Polled<T>, def_msg: T) -> (message: Result<T, Error>)
    ensures
        message == resolved(polled, def_msg),
{
    match polled {
        Polled::Message(message) => Ok(message),
        Polled::Empty => Ok(def_msg),
        Polled::Disconnected => Err(Error),
    }
}

/// Takes the next message from `receiver`. With `block`, waits until there
/// is one; without, takes `def_msg` if none is waiting. Fails once every
/// sender is gone and the channel is empty.
///
/// The result is what one look at `receiver`, waiting or not as `block`
/// says, stands for with `def_msg` as the default.
pub fn recv_msg<T>(receiver: &Receiver<T>, block: bool, def_msg: T) -> (message: Result<T, Error>)
    ensures
        exists|polled: Polled<T>| #[trigger]
            looked(*receiver, block, polled) && message == resolved(polled, def_msg),
{
    let polled = if block {
        channel_recv(receiver)
    } else {
        channel_try_recv(receiver)
    };
    assert(looked(*receiver, block, polled));
    resolve(polled, def_msg)
}

impl Mode {
    /// Whether a worker in this mode waits for its next signal rather than
    /// polling for it.
    pub open spec fn spec_blocks(self) -> bool {
        self == Mode::Paused
    }

    #[verifier::when_used_as_spec(spec_blocks)]
    pub fn blocks(self) -> (b: bool)
        ensures
            b == self.blocks(),
    {
        self == Mode::Paused
    }

    /// Takes the worker's next signal from `receiver` and returns the mode
    /// that it leaves the worker in. A paused worker waits for the signal;
    /// a playing one only looks for it, and plays on if there is none. A
    /// finished worker does not touch the channel.
    ///
    /// So the next mode of a worker that has not finished is the one that
    /// follows from one look at `receiver`, a look that waits if the worker
    /// is paused, with `Play` standing for no signal.
    pub fn listen(self, receiver: &Receiver<Control>) -> (next: Mode)
        ensures
            self == Mode::Finished ==> next == Mode::Finished,
            self != Mode::Finished ==> exists|polled: Polled<Control>| #[trigger]
                looked(*receiver, self.blocks(), polled) && next == mode_after(
                    self,
                    resolved(polled, Control::Play),
                ),
    {
        if self == Mode::Finished {
            Mode::Finished
        } else {
            self.after(recv_msg(receiver, self.blocks(), Control::Play))
        }
    }

    /// The worker's next mode, given the message it received. The worker
    /// runs its unit of work once after each message that leaves it
    /// playing, and exits when finished.
    pub fn after(self, message: Result<Control, Error>) -> (next: Mode)
        ensures
            next == mode_after(self, message),
    {
        if self == Mode::Finished {
            Mode::Finished
        } else {
            match message {
                Ok(Control::Play) => Mode::Playing,
                Ok(Control::Pause) => Mode::Paused,
                Ok(Control::Finish) => Mode::Finished,
                Err(_) => Mode::Finished,
            }
        }
    }
}

/// The handle of a background worker: the sending end of its control
/// channel.
pub struct Runner {
    send: Sender<Control>,
}

impl Runner {
    /// The sending end that the handle holds.
    pub closed spec fn sender(&self) -> Sender<Control> {
        self.send
    }

    /// The handle of the worker that listens on the other end of `send`.
    pub fn from_sender(send: Sender<Control>) -> (runner: Runner)
        ensures
            runner.sender() == send,
    {
        Runner { send }
    }

    /// Holds when `outcome` is the report of one attempt to send `control`
    /// on the handle's channel: success if the attempt delivered it, the
    /// error if not.
    pub open spec fn signalled(&self, control: Control, outcome: Result<(), Error>) -> bool {
        exists|delivered: bool| #[trigger]
            sent(self.sender(), control, delivered) && outcome == reported(delivered)
    }

    /// Sends `control` to the worker. Fails if the worker is gone.
    pub fn signal(&self, control: Control) -> (outcome: Result<(), Error>)
        ensures
            self.signalled(control, outcome),
    {
        let delivered = channel_send(&self.send, control);
        assert(sent(self.sender(), control, delivered));
        delivery(delivered)
    }

    /// Tells the worker to play: sends it `Play`. Fails if the worker is
    /// gone.
    pub fn start(&self) -> (outcome: Result<(), Error>)
        ensures
            self.signalled(Control::Play, outcome),
    {
        self.signal(Control::Play)
    }

    /// Tells the worker to pause after its current unit of work: sends it
    /// `Pause`. Fails if the worker is gone.
    pub fn pause(&self) -> (outcome: Result<(), Error>)
        ensures
            self.signalled(Control::Pause, outcome),
    {
        self.signal(Control::Pause)
    }

    /// Tells the worker to stop for good after its current unit of work:
    /// sends it `Finish`. Fails if the worker is gone.
    pub fn finish(&self) -> (outcome: Result<(), Error>)
        ensures
            self.signalled(Control::Finish, outcome),
    {
        self.signal(Control::Finish)
    }
}

} // verus!
