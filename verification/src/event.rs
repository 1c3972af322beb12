use vstd::prelude::*;

use crate::impls::{TraitInto, TraitReverseInto};
use crate::key::{Button, Key};

verus! {

/// An input occurrence as the capture layer reports it and as the injection
/// layer takes it: what happened, without any timing.
#[derive(Debug, Clone, Copy, PartialEq, Eq, Structural)]
pub enum RawEvent {
    KeyPress { key: Key },
    KeyRelease { key: Key },
    ButtonPress { button: Button, x: i32, y: i32 },
    ButtonRelease { button: Button, x: i32, y: i32 },
    MouseMove { x: i32, y: i32 },
    Drag { button: Button, x: i32, y: i32 },
    Wheel { delta_x: i64, delta_y: i64 },
}

/// A recorded input occurrence.
///
/// `elapse` is the time of the event in milliseconds since the recording
/// began; `duration` is the time since the event recorded before it.
#[derive(Debug, Clone, Copy, PartialEq, Eq, Structural)]
pub enum Event {
    KeyPress { key: Key, elapse: u32, duration: u32 },
    KeyRelease { key: Key, elapse: u32, duration: u32 },
    ButtonPress { button: Button, x: i32, y: i32, elapse: u32, duration: u32 },
    ButtonRelease { button: Button, x: i32, y: i32, elapse: u32, duration: u32 },
    MouseMove { x: i32, y: i32, elapse: u32, duration: u32 },
    Drag { button: Button, x: i32, y: i32, elapse: u32, duration: u32 },
    Wheel { x: i32, y: i32, elapse: u32, duration: u32 },
}

/// The time between an event at `elapse` and the one recorded before it:
/// their distance where the clock went forward, zero where it did not or
/// where nothing was recorded before.
pub open spec fn derived_duration(elapse: u32, previous: Option<Event>) -> u32 {
    match previous {
        Some(p) => if elapse > p.spec_elapse() {
            (elapse - p.spec_elapse()) as u32
        } else {
            0
        },
        None => 0,
    }
}

impl Event {
    pub open spec fn spec_elapse(&self) -> u32 {
        match *self {
            Event::KeyPress { elapse, .. } => elapse,
            Event::KeyRelease { elapse, .. } => elapse,
            Event::ButtonPress { elapse, .. } => elapse,
            Event::ButtonRelease { elapse, .. } => elapse,
            Event::MouseMove { elapse, .. } => elapse,
            Event::Drag { elapse, .. } => elapse,
            Event::Wheel { elapse, .. } => elapse,
        }
    }

    pub open spec fn spec_duration(&self) -> u32 {
        match *self {
            Event::KeyPress { duration, .. } => duration,
            Event::KeyRelease { duration, .. } => duration,
            Event::ButtonPress { duration, .. } => duration,
            Event::ButtonRelease { duration, .. } => duration,
            Event::MouseMove { duration, .. } => duration,
            Event::Drag { duration, .. } => duration,
            Event::Wheel { duration, .. } => duration,
        }
    }

    /// The same event with its duration replaced by `value`.
    pub open spec fn with_duration(self, value: u32) -> Event {
        match self {
            Event::KeyPress { key, elapse, .. } => Event::KeyPress { key, elapse, duration: value },
            Event::KeyRelease { key, elapse, .. } => Event::KeyRelease {
                key,
                elapse,
                duration: value,
            },
            Event::ButtonPress { button, x, y, elapse, .. } => Event::ButtonPress {
                button,
                x,
                y,
                elapse,
                duration: value,
            },
            Event::ButtonRelease { button, x, y, elapse, .. } => Event::ButtonRelease {
                button,
                x,
                y,
                elapse,
                duration: value,
            },
            Event::MouseMove { x, y, elapse, .. } => Event::MouseMove {
                x,
                y,
                elapse,
                duration: value,
            },
            Event::Drag { button, x, y, elapse, .. } => Event::Drag {
                button,
                x,
                y,
                elapse,
                duration: value,
            },
            Event::Wheel { x, y, elapse, .. } => Event::Wheel { x, y, elapse, duration: value },
        }
    }

    /// The event as it enters a log whose last entry is `previous`: itself,
    /// with the duration derived from the two time stamps.
    pub open spec fn built(self, previous: Option<Event>) -> Event {
        self.with_duration(derived_duration(self.spec_elapse(), previous))
    }

    /// Milliseconds since the recording began.
    #[verifier::when_used_as_spec(spec_elapse)]
    pub fn elapse(&self) -> (elapse: u32)
        ensures
            elapse == self.spec_elapse(),
    {
        match self {
            Event::KeyPress { elapse, .. } => *elapse,
            Event::KeyRelease { elapse, .. } => *elapse,
            Event::ButtonPress { elapse, .. } => *elapse,
            Event::ButtonRelease { elapse, .. } => *elapse,
            Event::MouseMove { elapse, .. } => *elapse,
            Event::Drag { elapse, .. } => *elapse,
            Event::Wheel { elapse, .. } => *elapse,
        }
    }

    /// Milliseconds since the event recorded before this one.
    #[verifier::when_used_as_spec(spec_duration)]
    pub fn duration(&self) -> (duration: u32)
        ensures
            duration == self.spec_duration(),
    {
        match self {
            Event::KeyPress { duration, .. } => *duration,
            Event::KeyRelease { duration, .. } => *duration,
            Event::ButtonPress { duration, .. } => *duration,
            Event::ButtonRelease { duration, .. } => *duration,
            Event::MouseMove { duration, .. } => *duration,
            Event::Drag { duration, .. } => *duration,
            Event::Wheel { duration, .. } => *duration,
        }
    }

    /// Replaces the duration and leaves the rest as it is.
    pub fn set_duration(self, value: u32) -> (event: Event)
        ensures
            event == self.with_duration(value),
    {
        match self {
            Event::KeyPress { key, elapse, .. } => Event::KeyPress { key, elapse, duration: value },
            Event::KeyRelease { key, elapse, .. } => Event::KeyRelease {
                key,
                elapse,
                duration: value,
            },
            Event::ButtonPress { button, x, y, elapse, .. } => Event::ButtonPress {
                button,
                x,
                y,
                elapse,
                duration: value,
            },
            Event::ButtonRelease { button, x, y, elapse, .. } => Event::ButtonRelease {
                button,
                x,
                y,
                elapse,
                duration: value,
            },
            Event::MouseMove { x, y, elapse, .. } => Event::MouseMove {
                x,
                y,
                elapse,
                duration: value,
            },
            Event::Drag { button, x, y, elapse, .. } => Event::Drag {
                button,
                x,
                y,
                elapse,
                duration: value,
            },
            Event::Wheel { x, y, elapse, .. } => Event::Wheel { x, y, elapse, duration: value },
        }
    }

    /// Prepares a freshly stamped event for the log: whatever duration it
    /// came with is replaced by the time since `previous_event`, the log's
    /// last entry, and by zero for the first entry of a log.
    pub fn build(event: Event, previous_event: Option<&Event>) -> (built: Event)
        ensures
            built == event.built(
                match previous_event {
                    Some(p) => Some(*p),
                    None => None,
                },
            ),
            built.spec_elapse() == event.spec_elapse(),
    {
        let mut duration: u32 = 0;
        match previous_event {
            Some(previous_event) => {
                if event.elapse() > previous_event.elapse() {
                    duration = event.elapse() - previous_event.elapse();
                }
            },
            None => {},
        }
        event.set_duration(duration)
    }
}

impl Event {
    /// The event that a raw occurrence becomes when it is captured at
    /// `elapse`: the same occurrence, its duration still to be derived. A
    /// wheel movement keeps the low 32 bits of each of its deltas.
    pub open spec fn stamped(raw: RawEvent, elapse: u32) -> Event {
        match raw {
            RawEvent::KeyPress { key } => Event::KeyPress { key, elapse, duration: 0 },
            RawEvent::KeyRelease { key } => Event::KeyRelease { key, elapse, duration: 0 },
            RawEvent::ButtonPress { button, x, y } => Event::ButtonPress {
                button,
                x,
                y,
                elapse,
                duration: 0,
            },
            RawEvent::ButtonRelease { button, x, y } => Event::ButtonRelease {
                button,
                x,
                y,
                elapse,
                duration: 0,
            },
            RawEvent::MouseMove { x, y } => Event::MouseMove { x, y, elapse, duration: 0 },
            RawEvent::Drag { button, x, y } => Event::Drag { button, x, y, elapse, duration: 0 },
            RawEvent::Wheel { delta_x, delta_y } => Event::Wheel {
                x: delta_x as i32,
                y: delta_y as i32,
                elapse,
                duration: 0,
            },
        }
    }

    /// The occurrence that the event records, without its timing.
    pub open spec fn spec_raw(&self) -> RawEvent {
        match *self {
            Event::KeyPress { key, .. } => RawEvent::KeyPress { key },
            Event::KeyRelease { key, .. } => RawEvent::KeyRelease { key },
            Event::ButtonPress { button, x, y, .. } => RawEvent::ButtonPress { button, x, y },
            Event::ButtonRelease { button, x, y, .. } => RawEvent::ButtonRelease { button, x, y },
            Event::MouseMove { x, y, .. } => RawEvent::MouseMove { x, y },
            Event::Drag { button, x, y, .. } => RawEvent::Drag { button, x, y },
            Event::Wheel { x, y, .. } => RawEvent::Wheel { delta_x: x as i64, delta_y: y as i64 },
        }
    }

    /// Turns what the capture layer reported at `elapse` into an event.
    pub fn stamp(raw: RawEvent, elapse: u32) -> (event: Event)
        ensures
            event == Event::stamped(raw, elapse),
    {
        match raw {
            RawEvent::KeyPress { key } => Event::KeyPress { key, elapse, duration: 0 },
            RawEvent::KeyRelease { key } => Event::KeyRelease { key, elapse, duration: 0 },
            RawEvent::ButtonPress { button, x, y } => Event::ButtonPress {
                button,
                x,
                y,
                elapse,
                duration: 0,
            },
            RawEvent::ButtonRelease { button, x, y } => Event::ButtonRelease {
                button,
                x,
                y,
                elapse,
                duration: 0,
            },
            RawEvent::MouseMove { x, y } => Event::MouseMove { x, y, elapse, duration: 0 },
            RawEvent::Drag { button, x, y } => Event::Drag { button, x, y, elapse, duration: 0 },
            RawEvent::Wheel { delta_x, delta_y } => Event::Wheel {
                x: delta_x.into_diy(),
                y: delta_y.into_diy(),
                elapse,
                duration: 0,
            },
        }
    }

    /// The occurrence to hand to the injection layer.
    #[verifier::when_used_as_spec(spec_raw)]
    pub fn raw(&self) -> (raw: RawEvent)
        ensures
            raw == self.spec_raw(),
    {
        match self {
            Event::KeyPress { key, .. } => RawEvent::KeyPress { key: *key },
            Event::KeyRelease { key, .. } => RawEvent::KeyRelease { key: *key },
            Event::ButtonPress { button, x, y, .. } => RawEvent::ButtonPress {
                button: *button,
                x: *x,
                y: *y,
            },
            Event::ButtonRelease { button, x, y, .. } => RawEvent::ButtonRelease {
                button: *button,
                x: *x,
                y: *y,
            },
            Event::MouseMove { x, y, .. } => RawEvent::MouseMove { x: *x, y: *y },
            Event::Drag { button, x, y, .. } => RawEvent::Drag { button: *button, x: *x, y: *y },
            Event::Wheel { x, y, .. } => RawEvent::Wheel {
                delta_x: (*x).into_std(),
                delta_y: (*y).into_std(),
            },
        }
    }
}

} // verus!
