use crossbeam_channel::{Receiver, Sender};
use vstd::prelude::*;

verus! {

/// `crossbeam_channel::Sender`: the end of a channel that puts messages
/// in, of which the verifier sees nothing.
#[verifier::external_type_specification]
#[verifier::external_body]
#[verifier::reject_recursive_types(T)]
pub struct ExSender<T>(Sender<T>);

/// `crossbeam_channel::Receiver`: the end of a channel that takes
/// messages out, of which the verifier sees nothing.
#[verifier::external_type_specification]
#[verifier::external_body]
#[verifier::reject_recursive_types(T)]
pub struct ExReceiver<T>(Receiver<T>);

/// `crossbeam_channel::unbounded`: the two ends of a new channel without
/// a limit on the messages it holds. Nothing is claimed of them.
#[verifier::external_body]
fn open_channel() -> (ends: (Sender<bool>, Receiver<bool>)) {
    crossbeam_channel::unbounded()
}

/// `Sender::send`: puts `message` into the channel and says whether the
/// channel took it. Other holders of the channel act at the same time, so
/// nothing is claimed of the answer.
#[verifier::external_body]
fn channel_send(sender: &Sender<bool>, message: bool) -> bool {
    sender.send(message).is_ok()
}

/// `Receiver::try_recv`: takes the oldest message out of the channel
/// without waiting, `None` where there is none to take. Other holders of
/// the channel act at the same time, so nothing is claimed of the answer.
#[verifier::external_body]
fn channel_try_recv(receiver: &Receiver<bool>) -> Option<bool> {
    receiver.try_recv().ok()
}

/// The line on which the controller asks a running playback to end.
///
/// Every method takes it by shared reference, so that one thread can ask
/// while another plays.
#[derive(Debug)]
pub struct StopSignal {
    sender: Sender<bool>,
    receiver: Receiver<bool>,
}

impl StopSignal {
    /// A line of its own, with nothing on it.
    pub fn new() -> StopSignal {
        let (sender, receiver) = open_channel();
        StopSignal { sender, receiver }
    }

    /// Takes the oldest message off the line, if there is one.
    pub fn poll(&self) -> Option<bool> {
        channel_try_recv(&self.receiver)
    }
}

/// Puts `msg` on the line: `true` asks the playback to end. Returns
/// whether the line took the message.
pub fn simulate_state_send(signal: &StopSignal, msg: bool) -> bool {
    channel_send(&signal.sender, msg)
}

/// What a playback does with what it found on the line at a checkpoint:
/// it ends on `true` and goes on otherwise, also on an empty line.
pub open spec fn asks_to_stop(polled: Option<bool>) -> bool {
    polled == Some(true)
}

/// Whether the playback ends at this checkpoint, given what it found on
/// the line.
pub fn stop_requested(polled: Option<bool>) -> (stop: bool)
    ensures
        stop == asks_to_stop(polled),
{
    match polled {
        Some(message) => message,
        None => false,
    }
}

/// The token with which the evaluator is told to end the run, where
/// it is to end.
pub fn termination_token(polled: Option<bool>) -> (token: Option<&'static str>)
    ensures
        token is Some <==> asks_to_stop(polled),
        token is Some ==> token->0@ == "stop"@,
{
    if stop_requested(polled) {
        Some("stop")
    } else {
        None
    }
}

/// The checkpoint between two operations of a running script: looks at
/// the line once and returns the token that ends the run where a stop
/// was asked for.
pub fn on_progress(signal: &StopSignal) -> (token: Option<&'static str>)
    ensures
        token is Some ==> token->0@ == "stop"@,
{
    termination_token(signal.poll())
}

} // verus!
