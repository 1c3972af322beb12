use vstd::prelude::*;

use crate::clock::{instant_elapse_millis, SessionAnchor};
use crate::control::{Command, Decision, HotKey, LoopTimes, Player, PlayerView, State};
use crate::data::{script_text, Data, DataView};
use crate::error::GrabError;
use crate::event::{derived_duration, Event, RawEvent};
use crate::key::Key;
use crate::signal::StopSignal;
use crate::transition;

verus! {

/// The time between an entry of a log and the entry before it; zero for
/// the first entry, and zero where the clock did not go forward.
pub open spec fn gap(events: Seq<Event>, i: int) -> u32 {
    derived_duration(
        events[i].spec_elapse(),
        if i == 0 {
            None
        } else {
            Some(events[i - 1])
        },
    )
}

/// Whether every entry of a log has the duration that its time stamp and
/// that of the entry before it give: zero for the first entry.
pub open spec fn log_wf(events: Seq<Event>) -> bool {
    forall|i: int| 0 <= i < events.len() ==> events[i].spec_duration() == #[trigger] gap(events, i)
}

/// The last entry of a log, if it has any.
pub open spec fn last_of(events: Seq<Event>) -> Option<Event> {
    if events.len() == 0 {
        None
    } else {
        Some(events.last())
    }
}

/// The duration that an event at `elapse` gets in a log whose last entry
/// is `previous`.
fn duration_after(elapse: u32, previous: Option<&Event>) -> (duration: u32)
    ensures
        duration == derived_duration(
            elapse,
            match previous {
                Some(p) => Some(*p),
                None => None,
            },
        ),
{
    match previous {
        Some(p) => {
            let before = p.elapse();
            if elapse > before {
                elapse - before
            } else {
                0
            }
        },
        None => 0,
    }
}

/// Whether every entry of a log has the duration that its time stamp and
/// that of the entry before it give.
pub fn log_is_well_formed(events: &Vec<Event>) -> (ok: bool)
    ensures
        ok == log_wf(events@),
{
    let mut i: usize = 0;
    while i < events.len()
        invariant
            i <= events@.len(),
            forall|k: int| 0 <= k < i ==> events@[k].spec_duration() == #[trigger] gap(events@, k),
        decreases events@.len() - i,
    {
        let expected = if i > 0 {
            duration_after(events[i].elapse(), Some(&events[i - 1]))
        } else {
            duration_after(events[i].elapse(), None)
        };
        if events[i].duration() != expected {
            assert(!log_wf(events@)) by {
                assert(events@[i as int].spec_duration() != gap(events@, i as int));
            }
            return false;
        }
        i += 1;
    }
    true
}

/// A log stays well formed when an event enters it through
/// [`Event::built`].
pub proof fn lemma_push_keeps_log_well_formed(events: Seq<Event>, event: Event)
    requires
        log_wf(events),
    ensures
        log_wf(events.push(event.built(last_of(events)))),
{
    let longer = events.push(event.built(last_of(events)));
    assert forall|i: int| 0 <= i < longer.len() implies longer[i].spec_duration() == #[trigger] gap(
        longer,
        i,
    ) by {
        if i < events.len() {
            assert(longer[i] == events[i]);
            assert(gap(longer, i) == gap(events, i));
        }
    }
}

/// What an [`App`] holds.
pub struct AppView {
    pub hotkey: HotKey,
    pub loop_times: LoopTimes,
    pub mouse_filter: bool,
    pub events: Seq<Event>,
    pub data: Option<DataView>,
    pub state: State,
    /// Whether the clock of a recording is running.
    pub anchored: bool,
}

impl AppView {
    /// What holds of the controller at all times: the hot keys differ, the
    /// recording clock runs in `Record` and only there, there is a log in
    /// `Record` only, and the log's durations are derived.
    pub open spec fn wf(self) -> bool {
        &&& self.hotkey.distinct()
        &&& self.anchored <==> self.state == State::Record
        &&& self.state != State::Record ==> self.events.len() == 0
        &&& log_wf(self.events)
    }

    /// After the record hot key: from `Stop` a recording begins with an
    /// empty log; in any other state nothing changes.
    pub open spec fn recording(self) -> AppView {
        if self.state == State::Stop {
            AppView { state: State::Record, anchored: true, events: Seq::empty(), ..self }
        } else {
            self
        }
    }

    /// After the stop hot key: a recording ends, and what it logged, if
    /// anything, replaces the macro held; a playback is stopped; in `Stop`
    /// nothing changes.
    pub open spec fn stopped(self) -> AppView {
        match self.state {
            State::Stop => self,
            State::Record => AppView {
                state: State::Stop,
                anchored: false,
                events: Seq::empty(),
                data: if self.events.len() > 0 {
                    Some(Data::named("undefined"@, script_text(self.events)))
                } else {
                    self.data
                },
                ..self
            },
            State::Simulate => AppView { state: State::Stop, anchored: false, ..self },
        }
    }

    /// Whether the stop hot key reaches a running playback.
    pub open spec fn signals_stop(self) -> bool {
        self.state == State::Simulate
    }

    /// Whether the play hot key starts a playback: in `Stop`, with a macro
    /// at hand.
    pub open spec fn can_play(self) -> bool {
        self.state == State::Stop && self.data is Some
    }

    /// After the play hot key.
    pub open spec fn simulating(self) -> AppView {
        if self.can_play() {
            AppView { state: State::Simulate, ..self }
        } else {
            self
        }
    }

    /// The playback that the play hot key starts.
    pub open spec fn playback(self) -> Option<PlayerView> {
        if self.can_play() {
            Some(PlayerView { data: self.data->0, remaining: self.loop_times, failed: false })
        } else {
            None
        }
    }

    /// After a playback has run its course.
    pub open spec fn played(self) -> AppView {
        if self.state == State::Simulate {
            AppView { state: State::Stop, ..self }
        } else {
            self
        }
    }

    /// Whether an event that is no hot key goes into the log: during a
    /// recording, unless it is a move of the pointer and those are
    /// filtered out.
    pub open spec fn accepts(self, event: Event) -> bool {
        transition::accepted(self.state, self.mouse_filter, event)
    }

    /// After an event that is no hot key.
    pub open spec fn pushed(self, event: Event) -> AppView {
        if self.accepts(event) {
            AppView { events: self.events.push(event.built(last_of(self.events))), ..self }
        } else {
            self
        }
    }

    /// Whether an event is a press or a release of a hot key.
    pub open spec fn intercepts(self, event: Event) -> bool {
        match event {
            Event::KeyPress { key, .. } => self.hotkey.spec_contains(&key),
            Event::KeyRelease { key, .. } => self.hotkey.spec_contains(&key),
            _ => false,
        }
    }

    /// After any event: the release of a hot key makes its transition, its
    /// press changes nothing, and every other event is offered to the log.
    pub open spec fn dispatched(self, event: Event) -> AppView {
        match event {
            Event::KeyRelease { key, .. } => if key == self.hotkey.record {
                self.recording()
            } else if key == self.hotkey.simulate {
                self.simulating()
            } else if key == self.hotkey.stop {
                self.stopped()
            } else {
                self.pushed(event)
            },
            Event::KeyPress { key, .. } => if self.hotkey.spec_contains(&key) {
                self
            } else {
                self.pushed(event)
            },
            _ => self.pushed(event),
        }
    }

    /// What becomes of the event itself: a hot key is swallowed, in press
    /// and release; everything else is delivered.
    pub open spec fn decision(self, event: Event) -> Decision {
        if self.intercepts(event) {
            Decision::Swallow
        } else if self.accepts(event) {
            Decision::PassThroughAndRecord
        } else {
            Decision::PassThrough
        }
    }

    /// The playback that an event starts: the one of the play hot key's
    /// release.
    pub open spec fn started(self, event: Event) -> Option<PlayerView> {
        match event {
            Event::KeyRelease { key, .. } => if key != self.hotkey.record && key
                == self.hotkey.simulate {
                self.playback()
            } else {
                None
            },
            _ => None,
        }
    }

    /// After the hook has come to an end: with an error nothing changes;
    /// without one the automation is at rest, and a log that was being
    /// recorded is given up.
    pub open spec fn unhooked(self, failed: bool) -> AppView {
        if failed {
            self
        } else {
            AppView { state: State::Stop, anchored: false, events: Seq::empty(), ..self }
        }
    }
}

/// The controller: the hot keys, the settings, the log of a recording,
/// the macro held, and what the automation is doing.
#[derive(Debug)]
pub struct App {
    hotkey: HotKey,
    loop_times: LoopTimes,
    mouse_filter: bool,
    events: Vec<Event>,
    data: Option<Data>,
    state: State,
    anchor: SessionAnchor,
}

impl View for App {
    type V = AppView;

    closed spec fn view(&self) -> AppView {
        AppView {
            hotkey: self.hotkey,
            loop_times: self.loop_times,
            mouse_filter: self.mouse_filter,
            events: self.events@,
            data: match self.data {
                Some(data) => Some(data@),
                None => None,
            },
            state: self.state,
            anchored: self.anchor.is_set(),
        }
    }
}

impl App {
    /// Whether the controller is in a state that its own operations lead
    /// to. Every one of them asks for it and keeps it.
    pub open spec fn wf(&self) -> bool {
        self@.wf()
    }

    /// A controller at rest: the default hot keys, a single run for each
    /// playback, every event recorded, no macro held.
    pub fn new() -> (app: App)
        ensures
            app.wf(),
            app@ == (AppView {
                hotkey: HotKey { record: Key::F10, simulate: Key::F11, stop: Key::F12 },
                loop_times: LoopTimes::Limited(1),
                mouse_filter: false,
                events: Seq::empty(),
                data: None,
                state: State::Stop,
                anchored: false,
            }),
    {
        let app = App {
            hotkey: HotKey::default(),
            loop_times: LoopTimes::Limited(1),
            mouse_filter: false,
            events: Vec::new(),
            data: None,
            state: State::default(),
            anchor: SessionAnchor::new(),
        };
        assert(app@.events =~= Seq::empty());
        app
    }

    /// Whether the controller is in a state that its own operations lead
    /// to, looked up at run time.
    pub fn is_well_formed(&self) -> (ok: bool)
        ensures
            ok == self.wf(),
    {
        if !self.hotkey.is_distinct() {
            return false;
        }
        if self.anchor.active() != (self.state == State::Record) {
            return false;
        }
        if self.state != State::Record && self.events.len() != 0 {
            return false;
        }
        log_is_well_formed(&self.events)
    }

    /// What the automation is doing.
    pub fn state(&self) -> (state: State)
        ensures
            state == self@.state,
    {
        self.state
    }

    /// The hot keys.
    pub fn hotkey(&self) -> (hotkey: HotKey)
        ensures
            hotkey == self@.hotkey,
    {
        self.hotkey
    }

    /// How often a playback repeats.
    pub fn loop_times(&self) -> (loop_times: LoopTimes)
        ensures
            loop_times == self@.loop_times,
    {
        self.loop_times
    }

    /// Whether moves of the pointer are kept out of the log.
    pub fn mouse_filter(&self) -> (mouse_filter: bool)
        ensures
            mouse_filter == self@.mouse_filter,
    {
        self.mouse_filter
    }

    /// The log of the recording that is running.
    pub fn events(&self) -> (events: &Vec<Event>)
        ensures
            events@ == self@.events,
    {
        &self.events
    }

    /// The macro held, if there is one.
    pub fn data(&self) -> (data: Option<&Data>)
        ensures
            data is Some <==> self@.data is Some,
            data is Some ==> data->0@ == self@.data->0,
    {
        self.data.as_ref()
    }

    /// Takes new hot keys, unless two of them are the same key. Returns
    /// whether it took them.
    pub fn set_hotkey(&mut self, hotkey: HotKey) -> (taken: bool)
        requires
            old(self).wf(),
        ensures
            final(self).wf(),
            taken == hotkey.distinct(),
            final(self)@ == if taken {
                AppView { hotkey, ..old(self)@ }
            } else {
                old(self)@
            },
    {
        if hotkey.is_distinct() {
            self.hotkey = hotkey;
            true
        } else {
            false
        }
    }

    /// Sets how often the playbacks started from now on repeat.
    pub fn set_loop_times(&mut self, loop_times: LoopTimes)
        requires
            old(self).wf(),
        ensures
            final(self).wf(),
            final(self)@ == (AppView { loop_times, ..old(self)@ }),
    {
        self.loop_times = loop_times;
    }

    /// Sets whether moves of the pointer are kept out of the log.
    pub fn set_mouse_filter(&mut self, mouse_filter: bool)
        requires
            old(self).wf(),
        ensures
            final(self).wf(),
            final(self)@ == (AppView { mouse_filter, ..old(self)@ }),
    {
        self.mouse_filter = mouse_filter;
    }

    /// Replaces the macro held, as after loading one.
    pub fn set_data(&mut self, data: Option<Data>)
        requires
            old(self).wf(),
        ensures
            final(self).wf(),
            final(self)@ == (AppView {
                data: match data {
                    Some(d) => Some(d@),
                    None => None,
                },
                ..old(self)@
            }),
    {
        self.data = data;
    }

    /// The record hot key: from `Stop`, begins a recording.
    pub fn record(&mut self)
        requires
            old(self).wf(),
        ensures
            final(self).wf(),
            final(self)@ == old(self)@.recording(),
    {
        transition::record(&mut self.state, &mut self.anchor, &mut self.events);
    }

    /// The stop hot key: ends a recording and encodes its log, or asks a
    /// running playback to end. Returns whether it asked a playback.
    pub fn stop(&mut self, signal: &StopSignal) -> (signalled: bool)
        requires
            old(self).wf(),
        ensures
            final(self).wf(),
            final(self)@ == old(self)@.stopped(),
            signalled == old(self)@.signals_stop(),
    {
        transition::stop(
            &mut self.state,
            &mut self.anchor,
            &mut self.events,
            &mut self.data,
            signal,
        )
    }

    /// The play hot key: from `Stop` and with a macro at hand, begins a
    /// playback and returns it for the caller to run.
    pub fn simulate(&mut self) -> (player: Option<Player>)
        requires
            old(self).wf(),
        ensures
            final(self).wf(),
            final(self)@ == old(self)@.simulating(),
            player is Some <==> old(self)@.can_play(),
            player is Some ==> Some(player->0@) == old(self)@.playback(),
    {
        transition::simulate(&mut self.state, &self.data, self.loop_times)
    }

    /// Takes note that the playback has run its course: the automation
    /// is at rest again, unless something else has begun meanwhile.
    pub fn playback_finished(&mut self)
        requires
            old(self).wf(),
        ensures
            final(self).wf(),
            final(self)@ == old(self)@.played(),
    {
        transition::finish(&mut self.state);
    }

    /// Offers an event that is no hot key to the log. Returns whether
    /// the log took it.
    pub fn push(&mut self, event: Event) -> (appended: bool)
        requires
            old(self).wf(),
        ensures
            final(self).wf(),
            final(self)@ == old(self)@.pushed(event),
            appended == old(self)@.accepts(event),
    {
        if transition::accepts(self.state, self.mouse_filter, &event) {
            transition::push(&mut self.events, event);
            true
        } else {
            false
        }
    }

    /// Decides on an event that carries its time stamp: makes the
    /// transition of a hot key, or offers the event to the log, and says
    /// what becomes of the event itself and which playback is to be run.
    pub fn dispatch(&mut self, event: Event, signal: &StopSignal) -> (outcome: (
        Decision,
        Option<Player>,
    ))
        requires
            old(self).wf(),
        ensures
            final(self).wf(),
            final(self)@ == old(self)@.dispatched(event),
            outcome.0 == old(self)@.decision(event),
            outcome.1 is Some <==> old(self)@.started(event) is Some,
            outcome.1 is Some ==> Some(outcome.1->0@) == old(self)@.started(event),
    {
        match self.hotkey.command(&event) {
            Command::Record => {
                self.record();
                (Decision::Swallow, None)
            },
            Command::Simulate => {
                let player = self.simulate();
                (Decision::Swallow, player)
            },
            Command::Stop => {
                self.stop(signal);
                (Decision::Swallow, None)
            },
            Command::Swallow => (Decision::Swallow, None),
            Command::Offer => {
                if self.push(event) {
                    (Decision::PassThroughAndRecord, None)
                } else {
                    (Decision::PassThrough, None)
                }
            },
        }
    }

    /// Decides on what the hook caught: stamps it with the time of the
    /// recording, zero outside of one, and dispatches it.
    pub fn on_raw_event(&mut self, raw: RawEvent, signal: &StopSignal) -> (outcome: (
        Decision,
        Option<Player>,
    ))
        requires
            old(self).wf(),
        ensures
            final(self).wf(),
            exists|elapse: u32|
                {
                    let event = #[trigger] Event::stamped(raw, elapse);
                    &&& old(self)@.anchored || elapse == 0
                    &&& final(self)@ == old(self)@.dispatched(event)
                    &&& outcome.0 == old(self)@.decision(event)
                    &&& outcome.1 is Some <==> old(self)@.started(event) is Some
                    &&& outcome.1 is Some ==> Some(outcome.1->0@) == old(self)@.started(event)
                },
    {
        let elapse = instant_elapse_millis(&self.anchor);
        let event = Event::stamp(raw, elapse);
        let outcome = self.dispatch(event, signal);
        assert(event == Event::stamped(raw, elapse));
        outcome
    }

    /// Takes note that the hook has come to an end.
    pub fn grab_ended(&mut self, result: &Result<(), GrabError>)
        requires
            old(self).wf(),
        ensures
            final(self).wf(),
            final(self)@ == old(self)@.unhooked(result is Err),
    {
        transition::unhook(&mut self.state, &mut self.anchor, &mut self.events, result.is_err());
    }
}

} // verus!
