use vstd::prelude::*;

use crate::app::{last_of, lemma_push_keeps_log_well_formed, log_wf};
use crate::clock::{clean_instant, init_instant, SessionAnchor};
use crate::control::{LoopTimes, Player, PlayerView, State};
use crate::data::{events_to_data, script_text, Data, DataView};
use crate::event::Event;
use crate::signal::{simulate_state_send, StopSignal};

verus! {

/// What the macro held holds, if one is held.
pub open spec fn held(data: Option<Data>) -> Option<DataView> {
    match data {
        Some(data) => Some(data@),
        None => None,
    }
}

/// Whether an event that is no hot key goes into the log: during a
/// recording, unless it is a move of the pointer and those are
/// filtered out.
pub open spec fn accepted(state: State, mouse_filter: bool, event: Event) -> bool {
    state == State::Record && !(mouse_filter && event is MouseMove)
}

/// Whether an event that is no hot key goes into the log.
pub fn accepts(state: State, mouse_filter: bool, event: &Event) -> (accepts: bool)
    ensures
        accepts == accepted(state, mouse_filter, *event),
{
    match state {
        State::Record => match event {
            Event::MouseMove { .. } => !mouse_filter,
            _ => true,
        },
        _ => false,
    }
}

/// Appends an event to the log, with the time since the log's last
/// entry as its duration.
pub fn push(events: &mut Vec<Event>, event: Event)
    ensures
        final(events)@ == old(events)@.push(event.built(last_of(old(events)@))),
        log_wf(old(events)@) ==> log_wf(final(events)@),
{
    let len = events.len();
    let built = if len > 0 {
        Event::build(event, Some(&events[len - 1]))
    } else {
        Event::build(event, None)
    };
    proof {
        if log_wf(events@) {
            lemma_push_keeps_log_well_formed(events@, event);
        }
    }
    events.push(built);
}

/// The record hot key: from `Stop`, a recording begins now, with an
/// empty log; in any other state nothing changes. Returns whether a
/// recording began.
pub fn record(state: &mut State, anchor: &mut SessionAnchor, events: &mut Vec<Event>) -> (began:
    bool)
    ensures
        began == (*old(state) == State::Stop),
        began ==> {
            &&& *final(state) == State::Record
            &&& final(anchor).is_set()
            &&& final(events)@ == Seq::<Event>::empty()
        },
        !began ==> {
            &&& *final(state) == *old(state)
            &&& *final(anchor) == *old(anchor)
            &&& final(events)@ == old(events)@
        },
{
    if *state != State::Stop {
        return false;
    }
    *state = State::Record;
    events.clear();
    init_instant(anchor);
    true
}

/// The stop hot key: a recording ends, and what it logged, if anything,
/// replaces the macro held; a playback is asked to end; in `Stop` nothing
/// changes. Returns whether it asked a playback.
pub fn stop(
    state: &mut State,
    anchor: &mut SessionAnchor,
    events: &mut Vec<Event>,
    data: &mut Option<Data>,
    signal: &StopSignal,
) -> (signalled: bool)
    ensures
        signalled == (*old(state) == State::Simulate),
        *old(state) == State::Stop ==> {
            &&& *final(state) == State::Stop
            &&& *final(anchor) == *old(anchor)
            &&& final(events)@ == old(events)@
            &&& *final(data) == *old(data)
        },
        *old(state) != State::Stop ==> *final(state) == State::Stop && !final(anchor).is_set(),
        *old(state) == State::Record ==> {
            &&& final(events)@ == Seq::<Event>::empty()
            &&& held(*final(data)) == if old(events)@.len() > 0 {
                Some(Data::named("undefined"@, script_text(old(events)@)))
            } else {
                held(*old(data))
            }
        },
        *old(state) == State::Simulate ==> {
            &&& final(events)@ == old(events)@
            &&& *final(data) == *old(data)
        },
{
    match *state {
        State::Stop => false,
        State::Record => {
            clean_instant(anchor);
            *state = State::Stop;
            if events.len() > 0 {
                *data = Some(events_to_data(events));
                events.clear();
            }
            assert(events@ =~= Seq::<Event>::empty());
            false
        },
        State::Simulate => {
            clean_instant(anchor);
            *state = State::Stop;
            simulate_state_send(signal, true);
            true
        },
    }
}

/// The play hot key: from `Stop` and with a macro at hand, a playback of
/// that macro begins and is returned for the caller to run; otherwise
/// nothing changes.
pub fn simulate(state: &mut State, data: &Option<Data>, loop_times: LoopTimes) -> (player: Option<
    Player,
>)
    ensures
        player is Some <==> *old(state) == State::Stop && data is Some,
        player is Some ==> *final(state) == State::Simulate && player->0@ == (PlayerView {
            data: data->0@,
            remaining: loop_times,
            failed: false,
        }),
        player is None ==> *final(state) == *old(state),
{
    if *state != State::Stop {
        return None;
    }
    match data {
        Some(data) => {
            let player = Player::new(data.clone(), loop_times);
            *state = State::Simulate;
            Some(player)
        },
        None => None,
    }
}

/// The end of a playback: the automation is at rest again, unless
/// something else has begun meanwhile.
pub fn finish(state: &mut State)
    ensures
        *final(state) == if *old(state) == State::Simulate {
            State::Stop
        } else {
            *old(state)
        },
{
    if *state == State::Simulate {
        *state = State::Stop;
    }
}

/// The end of the hook: with an error nothing changes; without one the
/// automation is at rest, and a log that was being recorded is given up.
pub fn unhook(
    state: &mut State,
    anchor: &mut SessionAnchor,
    events: &mut Vec<Event>,
    failed: bool,
)
    ensures
        failed ==> {
            &&& *final(state) == *old(state)
            &&& *final(anchor) == *old(anchor)
            &&& final(events)@ == old(events)@
        },
        !failed ==> {
            &&& *final(state) == State::Stop
            &&& !final(anchor).is_set()
            &&& final(events)@ == Seq::<Event>::empty()
        },
{
    if !failed {
        *state = State::Stop;
        events.clear();
        clean_instant(anchor);
    }
}

} // verus!
