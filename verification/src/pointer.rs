use vstd::prelude::*;

use crate::event::RawEvent;
use crate::key::{Button, Key};

verus! {

/// An input occurrence as a platform reports and takes it that tells
/// where the pointer is with its moves only, and knows no drags.
#[derive(Debug, Clone, Copy, PartialEq, Eq, Structural)]
pub enum Occurrence {
    KeyPress { key: Key },
    KeyRelease { key: Key },
    ButtonPress { button: Button },
    ButtonRelease { button: Button },
    MouseMove { x: i32, y: i32 },
    Wheel { delta_x: i64, delta_y: i64 },
}

/// What has to be remembered of the pointer between two occurrences:
/// where it is, and which button is held down.
#[derive(Debug, Clone, Copy, PartialEq, Eq, Structural)]
pub struct Pointer {
    pub x: i32,
    pub y: i32,
    pub held: Option<Button>,
}

impl Pointer {
    /// The event that an occurrence is, seen with what is remembered of
    /// the pointer: a button goes down or up where the pointer is, and a
    /// move with a button held down is a drag of that button.
    pub open spec fn seen(self, occurrence: Occurrence) -> RawEvent {
        match occurrence {
            Occurrence::KeyPress { key } => RawEvent::KeyPress { key },
            Occurrence::KeyRelease { key } => RawEvent::KeyRelease { key },
            Occurrence::ButtonPress { button } => RawEvent::ButtonPress {
                button,
                x: self.x,
                y: self.y,
            },
            Occurrence::ButtonRelease { button } => RawEvent::ButtonRelease {
                button,
                x: self.x,
                y: self.y,
            },
            Occurrence::MouseMove { x, y } => match self.held {
                Some(button) => RawEvent::Drag { button, x, y },
                None => RawEvent::MouseMove { x, y },
            },
            Occurrence::Wheel { delta_x, delta_y } => RawEvent::Wheel { delta_x, delta_y },
        }
    }

    /// What is remembered after an occurrence: a move takes the pointer
    /// to its point, a press holds its button down, and a release lets
    /// every button go.
    pub open spec fn after(self, occurrence: Occurrence) -> Pointer {
        match occurrence {
            Occurrence::ButtonPress { button } => Pointer { held: Some(button), ..self },
            Occurrence::ButtonRelease { .. } => Pointer { held: None, ..self },
            Occurrence::MouseMove { x, y } => Pointer { x, y, ..self },
            _ => self,
        }
    }

    /// What is remembered after a sequence of occurrences.
    pub open spec fn after_all(self, occurrences: Seq<Occurrence>) -> Pointer
        decreases occurrences.len(),
    {
        if occurrences.len() == 0 {
            self
        } else {
            self.after_all(occurrences.drop_last()).after(occurrences.last())
        }
    }

    /// Where the pointer is.
    pub fn position(&self) -> (point: (i32, i32))
        ensures
            point == (self.x, self.y),
    {
        (self.x, self.y)
    }

    /// A pointer at the origin, with no button held down.
    pub fn new() -> (pointer: Pointer)
        ensures
            pointer == (Pointer { x: 0, y: 0, held: None }),
    {
        Pointer { x: 0, y: 0, held: None }
    }

    /// Takes note of an occurrence and returns the event that it is.
    pub fn observe(&mut self, occurrence: Occurrence) -> (raw: RawEvent)
        ensures
            raw == old(self).seen(occurrence),
            *final(self) == old(self).after(occurrence),
    {
        let (x, y) = (self.x, self.y);
        match occurrence {
            Occurrence::KeyPress { key } => RawEvent::KeyPress { key },
            Occurrence::KeyRelease { key } => RawEvent::KeyRelease { key },
            Occurrence::ButtonPress { button } => {
                self.held = Some(button);
                RawEvent::ButtonPress { button, x, y }
            },
            Occurrence::ButtonRelease { button } => {
                self.held = None;
                RawEvent::ButtonRelease { button, x, y }
            },
            Occurrence::MouseMove { x, y } => {
                let held = self.held;
                self.x = x;
                self.y = y;
                match held {
                    Some(button) => RawEvent::Drag { button, x, y },
                    None => RawEvent::MouseMove { x, y },
                }
            },
            Occurrence::Wheel { delta_x, delta_y } => RawEvent::Wheel { delta_x, delta_y },
        }
    }
}

/// The occurrences that bring an event about: a button goes down or up
/// where the pointer is, so the pointer is moved there first; a drag is a
/// move of the pointer.
pub open spec fn occurrences_of(raw: RawEvent) -> Seq<Occurrence> {
    match raw {
        RawEvent::KeyPress { key } => seq![Occurrence::KeyPress { key }],
        RawEvent::KeyRelease { key } => seq![Occurrence::KeyRelease { key }],
        RawEvent::ButtonPress { button, x, y } => seq![
            Occurrence::MouseMove { x, y },
            Occurrence::ButtonPress { button },
        ],
        RawEvent::ButtonRelease { button, x, y } => seq![
            Occurrence::MouseMove { x, y },
            Occurrence::ButtonRelease { button },
        ],
        RawEvent::MouseMove { x, y } => seq![Occurrence::MouseMove { x, y }],
        RawEvent::Drag { x, y, .. } => seq![Occurrence::MouseMove { x, y }],
        RawEvent::Wheel { delta_x, delta_y } => seq![Occurrence::Wheel { delta_x, delta_y }],
    }
}

/// The occurrences to hand to the platform for an event, in their order.
pub fn occurrences(raw: RawEvent) -> (list: Vec<Occurrence>)
    ensures
        list@ == occurrences_of(raw),
{
    let mut list: Vec<Occurrence> = Vec::new();
    match raw {
        RawEvent::KeyPress { key } => list.push(Occurrence::KeyPress { key }),
        RawEvent::KeyRelease { key } => list.push(Occurrence::KeyRelease { key }),
        RawEvent::ButtonPress { button, x, y } => {
            list.push(Occurrence::MouseMove { x, y });
            list.push(Occurrence::ButtonPress { button });
        },
        RawEvent::ButtonRelease { button, x, y } => {
            list.push(Occurrence::MouseMove { x, y });
            list.push(Occurrence::ButtonRelease { button });
        },
        RawEvent::MouseMove { x, y } => list.push(Occurrence::MouseMove { x, y }),
        RawEvent::Drag { x, y, .. } => list.push(Occurrence::MouseMove { x, y }),
        RawEvent::Wheel { delta_x, delta_y } => list.push(Occurrence::Wheel { delta_x, delta_y }),
    }
    assert(list@ =~= occurrences_of(raw));
    list
}

/// What is injected is what would be captured: the last of the
/// occurrences that bring an event about, seen with what is remembered
/// after those before it, is that event. For a move this holds while no
/// button is held down, and for a drag while its own button is.
pub proof fn lemma_occurrences_give_event_back(pointer: Pointer, raw: RawEvent)
    requires
        raw is MouseMove ==> pointer.held is None,
        raw matches RawEvent::Drag { button, .. } ==> pointer.held == Some(button),
    ensures
        occurrences_of(raw).len() > 0,
        pointer.after_all(occurrences_of(raw).drop_last()).seen(occurrences_of(raw).last()) == raw,
{
    let list = occurrences_of(raw);
    let head = list.drop_last();
    if head.len() > 0 {
        assert(head.drop_last() =~= Seq::<Occurrence>::empty());
        assert(pointer.after_all(head.drop_last()) == pointer);
        assert(pointer.after_all(head) == pointer.after(head.last()));
    }
}

} // verus!
