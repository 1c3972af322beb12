use vstd::prelude::*;

use crate::data::script_text;
use crate::engine::{bound, lemma_written_name_finds_key};
use crate::event::Event;
use crate::key::{Key, KEY_COUNT};
use crate::script::{inject_after, Step};
use crate::statement::Call;

verus! {

/// The calls that the script of a log makes, in their order: for each
/// event that the vocabulary can express, its call and then the wait of
/// its duration.
pub open spec fn calls_of(events: Seq<Event>) -> Seq<Call>
    decreases events.len(),
{
    if events.len() == 0 {
        Seq::empty()
    } else {
        let before = calls_of(events.drop_last());
        match events.last().spec_call() {
            Some(call) => before.push(call).push(
                Call::Delay { millis: events.last().spec_duration() },
            ),
            None => before,
        }
    }
}

/// The text of a sequence of calls: one line for each.
pub open spec fn lines_of(calls: Seq<Call>) -> Seq<char>
    decreases calls.len(),
{
    if calls.len() == 0 {
        Seq::empty()
    } else {
        lines_of(calls.drop_last()) + calls.last().line()
    }
}

/// What a sequence of calls does, one call after the other.
pub open spec fn steps_of(calls: Seq<Call>) -> Seq<Step>
    decreases calls.len(),
{
    if calls.len() == 0 {
        Seq::empty()
    } else {
        steps_of(calls.drop_last()) + calls.last().steps()
    }
}

/// Whether replaying the event's statement gives the event back: so it
/// is unless the vocabulary cannot express the event, or its key has no
/// variant of its own, so that no variable stands for it, or it is a wheel
/// event that also moves sideways or that moves upward by more than any
/// amount can say.
pub open spec fn replayable(event: Event) -> bool {
    &&& event.expressible()
    &&& event matches Event::KeyPress { key, .. } ==> !(key is Unknown)
    &&& event matches Event::KeyRelease { key, .. } ==> !(key is Unknown)
    &&& event matches Event::Wheel { x, y, .. } ==> x == 0 && y != i32::MIN
}

/// A log as a playback gives it back: each of its events that can be
/// replayed injected at once, and then the wait of its duration.
pub open spec fn replayed(events: Seq<Event>) -> Seq<Step>
    decreases events.len(),
{
    if events.len() == 0 {
        Seq::empty()
    } else {
        let before = replayed(events.drop_last());
        if events.last().expressible() {
            before + inject_after(0, events.last().spec_raw()).push(
                Step::Sleep { millis: events.last().spec_duration() as u64 },
            )
        } else {
            before
        }
    }
}

/// The calls of an event's statement inject the event and then wait for
/// its duration.
pub proof fn lemma_statement_replays_event(event: Event)
    requires
        replayable(event),
    ensures
        event.statement() == event.spec_call()->0.line() + (Call::Delay {
            millis: event.spec_duration(),
        }).line(),
        event.spec_call()->0.steps() + (Call::Delay { millis: event.spec_duration() }).steps()
            == inject_after(0, event.spec_raw()).push(
            Step::Sleep { millis: event.spec_duration() as u64 },
        ),
{
    let call = event.spec_call()->0;
    let wait = Call::Delay { millis: event.spec_duration() };
    assert(call.steps() =~= inject_after(0, event.spec_raw()));
    assert(call.steps() + wait.steps() =~= inject_after(0, event.spec_raw()).push(
        Step::Sleep { millis: event.spec_duration() as u64 },
    ));
}

/// The key that a statement names is the key of its event: the argument
/// that the call of a key event writes is the variable that stands for the
/// event's key, whatever variables there were before the keys were bound.
pub proof fn lemma_statement_names_its_key(start: Map<Seq<char>, Key>, event: Event)
    requires
        replayable(event),
        event is KeyPress || event is KeyRelease,
    ensures
        ({
            let key = match event {
                Event::KeyPress { key, .. } => key,
                Event::KeyRelease { key, .. } => key,
                _ => arbitrary(),
            };
            &&& event.spec_call()->0.args() == key.name()
            &&& bound(start, KEY_COUNT as nat).dom().contains(event.spec_call()->0.args())
            &&& bound(start, KEY_COUNT as nat)[event.spec_call()->0.args()] == key
        }),
{
    match event {
        Event::KeyPress { key, .. } => lemma_written_name_finds_key(start, key),
        Event::KeyRelease { key, .. } => lemma_written_name_finds_key(start, key),
        _ => {},
    }
}

/// The script of a log is the text of its calls, line by line.
pub proof fn lemma_script_is_lines_of_calls(events: Seq<Event>)
    ensures
        script_text(events) == lines_of(calls_of(events)),
    decreases events.len(),
{
    if events.len() > 0 {
        let head = events.drop_last();
        lemma_script_is_lines_of_calls(head);
        let before = calls_of(head);
        match events.last().spec_call() {
            Some(call) => {
                let wait = Call::Delay { millis: events.last().spec_duration() };
                let all = before.push(call).push(wait);
                assert(all.drop_last() =~= before.push(call));
                assert(before.push(call).drop_last() =~= before);
                assert(lines_of(before.push(call)) == lines_of(before) + call.line());
                assert(lines_of(all) == lines_of(before.push(call)) + wait.line());
                assert(lines_of(all) =~= lines_of(before) + (call.line() + wait.line()));
                assert(script_text(events) =~= lines_of(all));
            },
            None => {
                assert(script_text(events) =~= lines_of(before));
            },
        }
    }
}

/// The calls of a log's script, made in their order, give the log back:
/// the same events in the same order, each followed by the wait of its
/// duration. This holds of a log whose events can all be replayed or not
/// be expressed at all.
pub proof fn lemma_calls_replay_log(events: Seq<Event>)
    requires
        forall|i: int|
            0 <= i < events.len() ==> replayable(#[trigger] events[i]) || !events[i].expressible(),
    ensures
        steps_of(calls_of(events)) == replayed(events),
    decreases events.len(),
{
    if events.len() > 0 {
        let head = events.drop_last();
        assert forall|i: int| 0 <= i < head.len() implies replayable(#[trigger] head[i])
            || !head[i].expressible() by {
            assert(head[i] == events[i]);
        }
        lemma_calls_replay_log(head);
        let before = calls_of(head);
        let last = events.last();
        assert(last == events[events.len() - 1]);
        match last.spec_call() {
            Some(call) => {
                let wait = Call::Delay { millis: last.spec_duration() };
                let all = before.push(call).push(wait);
                lemma_statement_replays_event(last);
                assert(all.drop_last() =~= before.push(call));
                assert(before.push(call).drop_last() =~= before);
                assert(steps_of(before.push(call)) == steps_of(before) + call.steps());
                assert(steps_of(all) == steps_of(before.push(call)) + wait.steps());
                assert(steps_of(all) =~= steps_of(before) + (call.steps() + wait.steps()));
            },
            None => {},
        }
    }
}

} // verus!
