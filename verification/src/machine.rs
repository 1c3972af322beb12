use vstd::prelude::*;

use crate::app::{lemma_push_keeps_log_well_formed, AppView};
use crate::control::{LoopTimes, PlayerView, State};
use crate::event::Event;
use crate::signal::asks_to_stop;

verus! {

impl PlayerView {
    /// The playback after `count` runs that succeeded.
    pub open spec fn after_runs(self, count: nat) -> PlayerView
        decreases count,
    {
        if count == 0 {
            self
        } else {
            self.after_runs((count - 1) as nat).after_run(true)
        }
    }
}

/// No event takes the controller out of the states that its own
/// operations lead to.
pub proof fn lemma_dispatch_keeps_well_formed(app: AppView, event: Event)
    requires
        app.wf(),
    ensures
        app.dispatched(event).wf(),
{
    lemma_push_keeps_log_well_formed(app.events, event);
}

/// The press of a hot key changes nothing, and neither does the release
/// of a hot key whose transition does not start from the present state:
/// record and play outside of `Stop`, stop in `Stop`.
pub proof fn lemma_idle_hot_keys_change_nothing(app: AppView, event: Event)
    requires
        app.wf(),
        app.intercepts(event),
    ensures
        event is KeyPress ==> app.dispatched(event) == app,
        event matches Event::KeyRelease { key, .. } ==> {
            &&& key == app.hotkey.stop && app.state == State::Stop ==> app.dispatched(event) == app
            &&& key != app.hotkey.stop && app.state != State::Stop ==> app.dispatched(event) == app
        },
{
}

/// From `Stop`, the record hot key and then the stop hot key, with
/// nothing but hot keys between them, leave the controller as it was: the
/// log was empty, so the macro held is not replaced.
pub proof fn lemma_record_then_stop_keeps_macro(
    app: AppView,
    record_at: u32,
    stop_at: u32,
    between: Event,
)
    requires
        app.wf(),
        app.state == State::Stop,
        between is KeyPress,
        app.intercepts(between),
    ensures
        ({
            let record = Event::KeyRelease { key: app.hotkey.record, elapse: record_at, duration: 0 };
            let stop = Event::KeyRelease { key: app.hotkey.stop, elapse: stop_at, duration: 0 };
            &&& app.dispatched(record).state == State::Record
            &&& app.dispatched(record).dispatched(stop) == app
            &&& app.dispatched(record).dispatched(between).dispatched(stop) == app
        }),
{
    let record = Event::KeyRelease { key: app.hotkey.record, elapse: record_at, duration: 0 };
    let stop = Event::KeyRelease { key: app.hotkey.stop, elapse: stop_at, duration: 0 };
    assert(app.events =~= Seq::empty());
    assert(app.dispatched(record).events =~= Seq::empty());
    assert(app.dispatched(record).dispatched(stop).events =~= Seq::empty());
}

/// A recording that logged something ends with its script as the macro
/// held, under the name `undefined`.
pub proof fn lemma_stop_encodes_log(app: AppView)
    requires
        app.wf(),
        app.state == State::Record,
        app.events.len() > 0,
    ensures
        app.stopped().data is Some,
        app.stopped().data->0.content == crate::data::script_text(app.events),
        app.stopped().data->0.name == "undefined"@,
        app.stopped().state == State::Stop,
        app.stopped().events.len() == 0,
{
}

/// The stop hot key during a playback: the automation is at rest at
/// once, the playback is asked to end, the checkpoint that finds the
/// request ends the run, and neither a playback without a limit nor one
/// whose run was ended wants another run.
pub proof fn lemma_stop_ends_playback(app: AppView, player: PlayerView, stop_at: u32)
    requires
        app.wf(),
        app.state == State::Simulate,
    ensures
        ({
            let stop = Event::KeyRelease { key: app.hotkey.stop, elapse: stop_at, duration: 0 };
            &&& app.dispatched(stop) == app.stopped()
            &&& app.signals_stop()
            &&& app.stopped().state == State::Stop
            &&& asks_to_stop(Some(true))
            &&& player.remaining is Unlimited ==> !player.wants_run(app.stopped().state)
            &&& forall|state: State| !player.after_run(false).wants_run(state)
            &&& app.stopped().played() == app.stopped()
        }),
{
}

/// A playback that ends by itself leaves the automation at rest.
pub proof fn lemma_playback_returns_to_stop(app: AppView)
    requires
        app.wf(),
        app.state == State::Simulate,
    ensures
        app.played().state == State::Stop,
        app.played().wf(),
{
}

/// A run that fails is the last of its playback, whatever runs were
/// still to come; when the playback is over the automation is at rest.
pub proof fn lemma_failed_run_ends_playback(app: AppView, player: PlayerView, state: State)
    requires
        app.wf(),
        app.state == State::Simulate,
    ensures
        !player.after_run(false).wants_run(state),
        app.played().state == State::Stop,
{
}

/// A playback of `n` runs wants exactly `n` runs, as long as none fails.
pub proof fn lemma_limited_playback_runs(player: PlayerView, n: u32, done: nat, state: State)
    requires
        player.remaining == LoopTimes::Limited(n),
        !player.failed,
    ensures
        player.after_runs(done).wants_run(state) <==> done < n,
        player.after_runs(done).remaining == LoopTimes::Limited(
            if done < n {
                (n - done) as u32
            } else {
                0
            },
        ),
        !player.after_runs(done).failed,
    decreases done,
{
    if done > 0 {
        lemma_limited_playback_runs(player, n, (done - 1) as nat, state);
    }
}

/// A playback without a limit wants another run until the automation
/// is stopped or a run fails.
pub proof fn lemma_unlimited_playback_runs(player: PlayerView, done: nat, state: State)
    requires
        player.remaining == LoopTimes::Unlimited,
        !player.failed,
    ensures
        player.after_runs(done).wants_run(state) <==> state != State::Stop,
        player.after_runs(done).remaining == LoopTimes::Unlimited,
        !player.after_runs(done).failed,
    decreases done,
{
    if done > 0 {
        lemma_unlimited_playback_runs(player, (done - 1) as nat, state);
    }
}

} // verus!
