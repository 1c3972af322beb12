use vstd::prelude::*;

use crate::event::Event;
use crate::key::{Button, Key};
use crate::text::{decimal, push_decimal, push_signed_decimal, signed_decimal};

verus! {

/// A call that a recorded script makes: one operation of the vocabulary
/// that the encoder writes, with its arguments.
#[derive(Debug, Clone, Copy, PartialEq, Eq, Structural)]
pub enum Call {
    KeyPress { key: Key },
    KeyRelease { key: Key },
    ButtonLeftPress { x: i32, y: i32 },
    ButtonLeftRelease { x: i32, y: i32 },
    ButtonRightPress { x: i32, y: i32 },
    ButtonRightRelease { x: i32, y: i32 },
    MouseMove { x: i32, y: i32 },
    DragLeftInstant { x: i32, y: i32 },
    DragRightInstant { x: i32, y: i32 },
    WheelDown { amount: u32 },
    WheelUp { amount: u32 },
    Delay { millis: u32 },
}

/// The text of a call of `name` on the argument text `args`.
pub open spec fn call_text(name: Seq<char>, args: Seq<char>) -> Seq<char> {
    name + "("@ + args + ")"@
}

/// The argument text of a screen position.
pub open spec fn point_text(x: int, y: int) -> Seq<char> {
    signed_decimal(x) + ","@ + signed_decimal(y)
}

/// The distance of `n` from zero.
pub open spec fn magnitude(n: int) -> nat {
    if n < 0 {
        (-n) as nat
    } else {
        n as nat
    }
}

impl Call {
    /// The name of the operation that the call names.
    pub open spec fn name(self) -> Seq<char> {
        match self {
            Call::KeyPress { .. } => "key_press"@,
            Call::KeyRelease { .. } => "key_release"@,
            Call::ButtonLeftPress { .. } => "button_left_press"@,
            Call::ButtonLeftRelease { .. } => "button_left_release"@,
            Call::ButtonRightPress { .. } => "button_right_press"@,
            Call::ButtonRightRelease { .. } => "button_right_release"@,
            Call::MouseMove { .. } => "mouse_move"@,
            Call::DragLeftInstant { .. } => "drag_left_instant"@,
            Call::DragRightInstant { .. } => "drag_right_instant"@,
            Call::WheelDown { .. } => "wheel_down"@,
            Call::WheelUp { .. } => "wheel_up"@,
            Call::Delay { .. } => "delay"@,
        }
    }

    /// The call's arguments as the script writes them: a key by its name,
    /// a position as two numbers, an amount as a number.
    pub open spec fn args(self) -> Seq<char> {
        match self {
            Call::KeyPress { key } => key.name(),
            Call::KeyRelease { key } => key.name(),
            Call::ButtonLeftPress { x, y } => point_text(x as int, y as int),
            Call::ButtonLeftRelease { x, y } => point_text(x as int, y as int),
            Call::ButtonRightPress { x, y } => point_text(x as int, y as int),
            Call::ButtonRightRelease { x, y } => point_text(x as int, y as int),
            Call::MouseMove { x, y } => point_text(x as int, y as int),
            Call::DragLeftInstant { x, y } => point_text(x as int, y as int),
            Call::DragRightInstant { x, y } => point_text(x as int, y as int),
            Call::WheelDown { amount } => decimal(amount as nat),
            Call::WheelUp { amount } => decimal(amount as nat),
            Call::Delay { millis } => decimal(millis as nat),
        }
    }

    /// The call as the script writes it, without the semicolon.
    pub open spec fn text(self) -> Seq<char> {
        call_text(self.name(), self.args())
    }

    /// The line that makes the call.
    pub open spec fn line(self) -> Seq<char> {
        self.text() + ";\n"@
    }

    /// Appends the line that makes the call.
    pub fn write_line(&self, out: &mut String)
        ensures
            final(out)@ == old(out)@ + self.line(),
    {
        match self {
            Call::KeyPress { key } => push_key_call(out, "key_press", *key),
            Call::KeyRelease { key } => push_key_call(out, "key_release", *key),
            Call::ButtonLeftPress { x, y } => push_point_call(out, "button_left_press", *x, *y),
            Call::ButtonLeftRelease { x, y } => push_point_call(
                out,
                "button_left_release",
                *x,
                *y,
            ),
            Call::ButtonRightPress { x, y } => push_point_call(out, "button_right_press", *x, *y),
            Call::ButtonRightRelease { x, y } => push_point_call(
                out,
                "button_right_release",
                *x,
                *y,
            ),
            Call::MouseMove { x, y } => push_point_call(out, "mouse_move", *x, *y),
            Call::DragLeftInstant { x, y } => push_point_call(out, "drag_left_instant", *x, *y),
            Call::DragRightInstant { x, y } => push_point_call(out, "drag_right_instant", *x, *y),
            Call::WheelDown { amount } => push_number_call(out, "wheel_down", *amount),
            Call::WheelUp { amount } => push_number_call(out, "wheel_up", *amount),
            Call::Delay { millis } => push_number_call(out, "delay", *millis),
        }
        out.append(";\n");
        assert(out@ =~= old(out)@ + self.line());
    }
}

impl Event {
    /// The call that replays the event; none for an event that the
    /// vocabulary cannot express: a button other than left and right, and
    /// a wheel event that does not move vertically. Of a wheel event only
    /// its vertical movement enters the call.
    pub open spec fn spec_call(&self) -> Option<Call> {
        match *self {
            Event::KeyPress { key, .. } => Some(Call::KeyPress { key }),
            Event::KeyRelease { key, .. } => Some(Call::KeyRelease { key }),
            Event::ButtonPress { button, x, y, .. } => match button {
                Button::Left => Some(Call::ButtonLeftPress { x, y }),
                Button::Right => Some(Call::ButtonRightPress { x, y }),
                _ => None,
            },
            Event::ButtonRelease { button, x, y, .. } => match button {
                Button::Left => Some(Call::ButtonLeftRelease { x, y }),
                Button::Right => Some(Call::ButtonRightRelease { x, y }),
                _ => None,
            },
            Event::MouseMove { x, y, .. } => Some(Call::MouseMove { x, y }),
            Event::Drag { button, x, y, .. } => match button {
                Button::Left => Some(Call::DragLeftInstant { x, y }),
                Button::Right => Some(Call::DragRightInstant { x, y }),
                _ => None,
            },
            Event::Wheel { y, .. } => if y > 0 {
                Some(Call::WheelDown { amount: y as u32 })
            } else if y < 0 {
                Some(Call::WheelUp { amount: magnitude(y as int) as u32 })
            } else {
                None
            },
        }
    }

    /// Whether the vocabulary can express the event.
    pub open spec fn expressible(self) -> bool {
        self.spec_call() is Some
    }

    /// The event's share of a script: the line of its call, then the line
    /// that waits for its duration; nothing at all for an event that the
    /// vocabulary cannot express.
    pub open spec fn statement(self) -> Seq<char> {
        match self.spec_call() {
            Some(call) => call.line() + (Call::Delay { millis: self.spec_duration() }).line(),
            None => Seq::empty(),
        }
    }

    /// The call that replays the event, if the vocabulary has one.
    #[verifier::when_used_as_spec(spec_call)]
    pub fn to_call(&self) -> (call: Option<Call>)
        ensures
            call == self.spec_call(),
    {
        match self {
            Event::KeyPress { key, .. } => Some(Call::KeyPress { key: *key }),
            Event::KeyRelease { key, .. } => Some(Call::KeyRelease { key: *key }),
            Event::ButtonPress { button, x, y, .. } => match button {
                Button::Left => Some(Call::ButtonLeftPress { x: *x, y: *y }),
                Button::Right => Some(Call::ButtonRightPress { x: *x, y: *y }),
                _ => None,
            },
            Event::ButtonRelease { button, x, y, .. } => match button {
                Button::Left => Some(Call::ButtonLeftRelease { x: *x, y: *y }),
                Button::Right => Some(Call::ButtonRightRelease { x: *x, y: *y }),
                _ => None,
            },
            Event::MouseMove { x, y, .. } => Some(Call::MouseMove { x: *x, y: *y }),
            Event::Drag { button, x, y, .. } => match button {
                Button::Left => Some(Call::DragLeftInstant { x: *x, y: *y }),
                Button::Right => Some(Call::DragRightInstant { x: *x, y: *y }),
                _ => None,
            },
            Event::Wheel { y, .. } => {
                if *y > 0 {
                    Some(Call::WheelDown { amount: *y as u32 })
                } else if *y < 0 {
                    Some(Call::WheelUp { amount: (-(*y as i64)) as u32 })
                } else {
                    None
                }
            },
        }
    }

    /// The event's share of a script.
    pub fn to_string(&self) -> (text: String)
        ensures
            text@ == self.statement(),
    {
        let mut out = String::new();
        match self.to_call() {
            Some(call) => {
                call.write_line(&mut out);
                (Call::Delay { millis: self.duration() }).write_line(&mut out);
                assert(out@ =~= self.statement());
            },
            None => {},
        }
        out
    }
}

/// Appends a call of `name` on a key.
fn push_key_call(out: &mut String, name: &str, key: Key)
    ensures
        final(out)@ == old(out)@ + call_text(name@, key.name()),
{
    out.append(name);
    out.append("(");
    out.append(key.as_str());
    out.append(")");
    assert(out@ =~= old(out)@ + call_text(name@, key.name()));
}

/// Appends a call of `name` on a screen position.
fn push_point_call(out: &mut String, name: &str, x: i32, y: i32)
    ensures
        final(out)@ == old(out)@ + call_text(name@, point_text(x as int, y as int)),
{
    out.append(name);
    out.append("(");
    push_signed_decimal(out, x as i64);
    out.append(",");
    push_signed_decimal(out, y as i64);
    out.append(")");
    assert(out@ =~= old(out)@ + call_text(name@, point_text(x as int, y as int)));
}

/// Appends a call of `name` on a number.
fn push_number_call(out: &mut String, name: &str, n: u32)
    ensures
        final(out)@ == old(out)@ + call_text(name@, decimal(n as nat)),
{
    out.append(name);
    out.append("(");
    push_decimal(out, n as u128);
    out.append(")");
    assert(out@ =~= old(out)@ + call_text(name@, decimal(n as nat)));
}

} // verus!
