use vstd::prelude::*;

use crate::data::{Data, DataView};
use crate::error::SimulateError;
use crate::event::Event;
use crate::key::Key;

verus! {

/// What the automation is doing.
#[derive(Debug, Clone, Copy, PartialEq, Eq, Structural)]
pub enum State {
    Stop,
    Record,
    Simulate,
}

impl State {
    /// The state in which the automation starts.
    pub fn default() -> (state: State)
        ensures
            state == State::Stop,
    {
        State::Stop
    }
}

/// How often a playback repeats its script.
#[derive(Debug, Clone, Copy, PartialEq, Eq, Structural)]
pub enum LoopTimes {
    Unlimited,
    Limited(u32),
}

/// The three keys that steer the automation.
#[derive(Debug, Clone, Copy, PartialEq, Eq, Structural)]
pub struct HotKey {
    pub stop: Key,
    pub record: Key,
    pub simulate: Key,
}

impl HotKey {
    /// Whether the three keys differ from one another.
    pub open spec fn distinct(&self) -> bool {
        self.record != self.simulate && self.record != self.stop && self.simulate != self.stop
    }

    /// Whether `key` is one of the three.
    pub open spec fn spec_contains(&self, key: &Key) -> bool {
        *key == self.record || *key == self.simulate || *key == self.stop
    }

    /// `F10` records, `F11` plays, `F12` stops.
    pub fn default() -> (hotkey: HotKey)
        ensures
            hotkey == (HotKey { record: Key::F10, simulate: Key::F11, stop: Key::F12 }),
            hotkey.distinct(),
    {
        HotKey { record: Key::F10, simulate: Key::F11, stop: Key::F12 }
    }

    /// The three keys as hot keys, unless two of them are the same key.
    pub fn new(record: Key, simulate: Key, stop: Key) -> (hotkey: Option<HotKey>)
        ensures
            hotkey is Some <==> record != simulate && record != stop && simulate != stop,
            hotkey is Some ==> hotkey->0 == (HotKey { record, simulate, stop }),
    {
        if record == simulate || record == stop || simulate == stop {
            None
        } else {
            Some(HotKey { record, simulate, stop })
        }
    }

    /// Whether the three keys differ from one another.
    #[verifier::when_used_as_spec(distinct)]
    pub fn is_distinct(&self) -> (distinct: bool)
        ensures
            distinct == self.distinct(),
    {
        self.record != self.simulate && self.record != self.stop && self.simulate != self.stop
    }

    /// Whether `key` is one of the three.
    #[verifier::when_used_as_spec(spec_contains)]
    pub fn contains(&self, key: &Key) -> (found: bool)
        ensures
            found == self.spec_contains(key),
    {
        *key == self.record || *key == self.simulate || *key == self.stop
    }
}

/// What an event asks of the controller.
#[derive(Debug, Clone, Copy, PartialEq, Eq, Structural)]
pub enum Command {
    /// The release of the record hot key.
    Record,
    /// The release of the play hot key.
    Simulate,
    /// The release of the stop hot key.
    Stop,
    /// The press of a hot key: nothing but to keep it from the system.
    Swallow,
    /// Any other event: to offer it to the log.
    Offer,
}

impl HotKey {
    /// What an event asks for, with these hot keys.
    pub open spec fn spec_command(&self, event: &Event) -> Command {
        match *event {
            Event::KeyRelease { key, .. } => if key == self.record {
                Command::Record
            } else if key == self.simulate {
                Command::Simulate
            } else if key == self.stop {
                Command::Stop
            } else {
                Command::Offer
            },
            Event::KeyPress { key, .. } => if self.spec_contains(&key) {
                Command::Swallow
            } else {
                Command::Offer
            },
            _ => Command::Offer,
        }
    }

    /// What an event asks for, with these hot keys.
    #[verifier::when_used_as_spec(spec_command)]
    pub fn command(&self, event: &Event) -> (command: Command)
        ensures
            command == self.spec_command(event),
    {
        match event {
            Event::KeyRelease { key, .. } => {
                if *key == self.record {
                    Command::Record
                } else if *key == self.simulate {
                    Command::Simulate
                } else if *key == self.stop {
                    Command::Stop
                } else {
                    Command::Offer
                }
            },
            Event::KeyPress { key, .. } => {
                if self.contains(key) {
                    Command::Swallow
                } else {
                    Command::Offer
                }
            },
            _ => Command::Offer,
        }
    }
}

/// What the platform is to do with an occurrence that the hook caught.
#[derive(Debug, Clone, Copy, PartialEq, Eq, Structural)]
pub enum Decision {
    /// Keep it from the rest of the system.
    Swallow,
    /// Deliver it as if there were no hook.
    PassThrough,
    /// Deliver it; it has also gone into the log.
    PassThroughAndRecord,
}

/// The course of one playback: the macro, how many runs are still to
/// come, and whether a run has failed.
#[derive(Debug)]
pub struct Player {
    data: Data,
    remaining: LoopTimes,
    failed: bool,
}

/// What a [`Player`] holds.
pub struct PlayerView {
    pub data: DataView,
    pub remaining: LoopTimes,
    pub failed: bool,
}

impl PlayerView {
    /// Whether another run is due while the automation is in `state`.
    ///
    /// A playback of a limited number of runs goes on until they are done;
    /// one without a limit goes on until the automation is stopped. Neither
    /// goes on after a run that failed.
    pub open spec fn wants_run(self, state: State) -> bool {
        !self.failed && match self.remaining {
            LoopTimes::Unlimited => state != State::Stop,
            LoopTimes::Limited(n) => n > 0,
        }
    }

    /// The playback after a run that succeeded or failed.
    pub open spec fn after_run(self, succeeded: bool) -> PlayerView {
        PlayerView {
            data: self.data,
            remaining: match self.remaining {
                LoopTimes::Unlimited => LoopTimes::Unlimited,
                LoopTimes::Limited(n) => if n > 0 {
                    LoopTimes::Limited((n - 1) as u32)
                } else {
                    LoopTimes::Limited(0)
                },
            },
            failed: self.failed || !succeeded,
        }
    }
}

impl View for Player {
    type V = PlayerView;

    closed spec fn view(&self) -> PlayerView {
        PlayerView { data: self.data@, remaining: self.remaining, failed: self.failed }
    }
}

impl Player {
    /// A playback of `data` that has `loop_times` runs before it.
    pub fn new(data: Data, loop_times: LoopTimes) -> (player: Player)
        ensures
            player@ == (PlayerView { data: data@, remaining: loop_times, failed: false }),
    {
        Player { data, remaining: loop_times, failed: false }
    }

    /// The macro that is played.
    pub fn data(&self) -> (data: &Data)
        ensures
            data@ == self@.data,
    {
        &self.data
    }

    /// The runs that are still to come.
    pub fn remaining(&self) -> (remaining: LoopTimes)
        ensures
            remaining == self@.remaining,
    {
        self.remaining
    }

    /// Whether a run has failed.
    pub fn failed(&self) -> (failed: bool)
        ensures
            failed == self@.failed,
    {
        self.failed
    }

    /// Whether another run is due while the automation is in `state`.
    pub fn wants_run(&self, state: State) -> (due: bool)
        ensures
            due == self@.wants_run(state),
    {
        if self.failed {
            return false;
        }
        match self.remaining {
            LoopTimes::Unlimited => state != State::Stop,
            LoopTimes::Limited(n) => n > 0,
        }
    }

    /// Takes note of the result of a run.
    pub fn finished_run(&mut self, result: &Result<(), SimulateError>)
        ensures
            final(self)@ == old(self)@.after_run(result is Ok),
    {
        match self.remaining {
            LoopTimes::Unlimited => {},
            LoopTimes::Limited(n) => {
                if n > 0 {
                    self.remaining = LoopTimes::Limited(n - 1);
                }
            },
        }
        if result.is_err() {
            self.failed = true;
        }
    }
}

} // verus!
