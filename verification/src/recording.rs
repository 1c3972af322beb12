use vstd::prelude::*;

use crate::app::{gap, last_of, lemma_push_keeps_log_well_formed, log_wf, AppView};
use crate::control::State;
use crate::event::Event;

verus! {

/// The log of a recording that was offered the events of `stream` in
/// their order, none of them a hot key.
pub open spec fn logged(mouse_filter: bool, stream: Seq<Event>) -> Seq<Event>
    decreases stream.len(),
{
    if stream.len() == 0 {
        Seq::empty()
    } else {
        let before = logged(mouse_filter, stream.drop_last());
        if mouse_filter && stream.last() is MouseMove {
            before
        } else {
            before.push(stream.last().built(last_of(before)))
        }
    }
}

/// The number of pointer moves in a stream.
pub open spec fn moves(stream: Seq<Event>) -> nat
    decreases stream.len(),
{
    if stream.len() == 0 {
        0
    } else if stream.last() is MouseMove {
        moves(stream.drop_last()) + 1
    } else {
        moves(stream.drop_last())
    }
}

/// The number of events in a stream that are no pointer moves.
pub open spec fn others(stream: Seq<Event>) -> nat
    decreases stream.len(),
{
    if stream.len() == 0 {
        0
    } else if stream.last() is MouseMove {
        others(stream.drop_last())
    } else {
        others(stream.drop_last()) + 1
    }
}

impl AppView {
    /// The controller after it was offered the events of `stream` in
    /// their order, none of them a hot key.
    pub open spec fn offered(self, stream: Seq<Event>) -> AppView
        decreases stream.len(),
    {
        if stream.len() == 0 {
            self
        } else {
            self.offered(stream.drop_last()).pushed(stream.last())
        }
    }
}

/// Without the filter a recording logs every event it is offered, in the
/// order in which they came, and gives each the time since the one before
/// it as its duration: zero to the first, and zero where the clock did not
/// go forward.
pub proof fn lemma_log_keeps_order_and_derives_durations(stream: Seq<Event>)
    ensures
        logged(false, stream).len() == stream.len(),
        forall|i: int|
            0 <= i < stream.len() ==> #[trigger] logged(false, stream)[i]
                == stream[i].with_duration(gap(stream, i)),
    decreases stream.len(),
{
    if stream.len() > 0 {
        let head = stream.drop_last();
        lemma_log_keeps_order_and_derives_durations(head);
        let before = logged(false, head);
        let n = head.len() as int;
        assert forall|i: int| 0 <= i < stream.len() implies #[trigger] logged(false, stream)[i]
            == stream[i].with_duration(gap(stream, i)) by {
            if i < n {
                assert(before[i] == head[i].with_duration(gap(head, i)));
                assert(head[i] == stream[i]);
                if i > 0 {
                    assert(head[i - 1] == stream[i - 1]);
                }
            } else {
                if n > 0 {
                    assert(before[n - 1] == head[n - 1].with_duration(gap(head, n - 1)));
                    assert(head[n - 1] == stream[n - 1]);
                }
            }
        }
    }
}

/// Whatever the filter, every entry of a log has the time since the
/// entry before it as its duration, and the first has zero.
pub proof fn lemma_log_is_well_formed(mouse_filter: bool, stream: Seq<Event>)
    ensures
        log_wf(logged(mouse_filter, stream)),
    decreases stream.len(),
{
    if stream.len() > 0 {
        lemma_log_is_well_formed(mouse_filter, stream.drop_last());
        lemma_push_keeps_log_well_formed(logged(mouse_filter, stream.drop_last()), stream.last());
    }
}

/// With the filter a recording logs the events that are no pointer
/// moves, and those only: as many entries as the stream has such events.
pub proof fn lemma_filter_keeps_all_but_moves(stream: Seq<Event>)
    ensures
        logged(true, stream).len() == others(stream),
        moves(stream) + others(stream) == stream.len(),
        forall|i: int| 0 <= i < logged(true, stream).len() ==> !(#[trigger] logged(true, stream)[i]
            is MouseMove),
    decreases stream.len(),
{
    if stream.len() > 0 {
        lemma_filter_keeps_all_but_moves(stream.drop_last());
    }
}

/// A controller that begins a recording with an empty log and is offered
/// a stream of events holds the log of that stream, and is otherwise as it
/// was.
pub proof fn lemma_recording_logs_stream(app: AppView, stream: Seq<Event>)
    requires
        app.wf(),
        app.state == State::Record,
        app.events.len() == 0,
    ensures
        app.offered(stream) == (AppView { events: logged(app.mouse_filter, stream), ..app }),
        app.offered(stream).wf(),
    decreases stream.len(),
{
    if stream.len() == 0 {
        assert(app.events =~= Seq::empty());
    } else {
        lemma_recording_logs_stream(app, stream.drop_last());
        lemma_log_is_well_formed(app.mouse_filter, stream);
    }
}

} // verus!
