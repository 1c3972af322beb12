use vstd::prelude::*;

use crate::event::{Event, RawEvent};
use crate::impls::TraitReverseInto;
use crate::key::{Button, Key};
use crate::path::{virtual_path, walk};
use crate::statement::Call;

verus! {

/// One thing that a playback does: wait, or hand an occurrence to the
/// injection layer.
#[derive(Debug, Clone, Copy, PartialEq, Eq, Structural)]
pub enum Step {
    Sleep { millis: u64 },
    Inject { event: RawEvent },
}

/// The desktop conventions that decide which key is the command modifier.
#[derive(Debug, Clone, Copy, PartialEq, Eq, Structural)]
pub enum Platform {
    MacOs,
    Windows,
}

impl Platform {
    /// The key that, held down, turns a letter into a command.
    pub open spec fn spec_modifier(&self) -> Key {
        match *self {
            Platform::MacOs => Key::MetaLeft,
            Platform::Windows => Key::ControlLeft,
        }
    }

    /// The key that, held down, turns a letter into a command.
    #[verifier::when_used_as_spec(spec_modifier)]
    pub fn modifier(&self) -> (key: Key)
        ensures
            key == self.spec_modifier(),
    {
        match self {
            Platform::MacOs => Key::MetaLeft,
            Platform::Windows => Key::ControlLeft,
        }
    }
}

/// Replaying one event: wait for its duration, then inject it.
pub open spec fn replay(event: Event) -> Seq<Step> {
    seq![
        Step::Sleep { millis: event.spec_duration() as u64 },
        Step::Inject { event: event.spec_raw() },
    ]
}

/// Injecting `raw` after a wait of `wait` milliseconds.
pub open spec fn inject_after(wait: u32, raw: RawEvent) -> Seq<Step> {
    seq![Step::Sleep { millis: wait as u64 }, Step::Inject { event: raw }]
}

/// A press of `button` at `point`, and its release ten milliseconds later.
pub open spec fn click_steps(point: (i32, i32), button: Button) -> Seq<Step> {
    inject_after(0, RawEvent::ButtonPress { button, x: point.0, y: point.1 }) + inject_after(
        10,
        RawEvent::ButtonRelease { button, x: point.0, y: point.1 },
    )
}

/// A drag along `path`: each point of it in turn, after the wait that the
/// path gives it.
pub open spec fn drag_along(path: Seq<(i32, i32, u32)>, button: Button) -> Seq<Step> {
    Seq::new(
        2 * path.len(),
        |k: int|
            if k % 2 == 0 {
                Step::Sleep { millis: path[k / 2].2 as u64 }
            } else {
                Step::Inject { event: RawEvent::Drag { button, x: path[k / 2].0, y: path[k / 2].1 } }
            },
    )
}

/// A drag of `button` between two points in `duration` milliseconds.
pub open spec fn drag_steps(from: (i32, i32), to: (i32, i32), duration: u32, button: Button) -> Seq<
    Step,
> {
    drag_along(walk(from.0, from.1, to.0, to.1, duration), button)
}

/// Holding `modifier` down around a stroke of `letter`.
pub open spec fn chord_steps(modifier: Key, letter: Key) -> Seq<Step> {
    inject_after(0, RawEvent::KeyPress { key: modifier }) + seq![Step::Sleep { millis: 10 }]
        + inject_after(0, RawEvent::KeyPress { key: letter }) + seq![Step::Sleep { millis: 5 }]
        + inject_after(0, RawEvent::KeyRelease { key: letter }) + seq![Step::Sleep { millis: 5 }]
        + inject_after(0, RawEvent::KeyRelease { key: modifier })
}

/// A stroke of `key`: down, ten milliseconds, up.
pub open spec fn key_click_steps(key: Key) -> Seq<Step> {
    inject_after(0, RawEvent::KeyPress { key }) + seq![Step::Sleep { millis: 10 }] + inject_after(
        0,
        RawEvent::KeyRelease { key },
    )
}

/// The point at distance `offset` from `point`, each coordinate held
/// within what a coordinate can be.
pub open spec fn offset_point(point: (i32, i32), offset: (i32, i32)) -> (i32, i32) {
    (clamped(point.0 + offset.0), clamped(point.1 + offset.1))
}

/// `n`, or the nearest value that a coordinate can take.
pub open spec fn clamped(n: int) -> i32 {
    if n > i32::MAX {
        i32::MAX
    } else if n < i32::MIN {
        i32::MIN
    } else {
        n as i32
    }
}

/// The amount by which the wheel turns for a request of `delta_y`, in
/// either direction: its distance from zero, or the largest amount there
/// is where that is smaller.
pub open spec fn wheel_amount(delta_y: i32) -> i32 {
    if delta_y == i32::MIN {
        i32::MAX
    } else if delta_y < 0 {
        (-delta_y) as i32
    } else {
        delta_y
    }
}

/// The wait that a request of `duration` milliseconds comes to: none
/// for a negative one.
pub open spec fn delay_millis(duration: i64) -> u64 {
    if duration < 0 {
        0
    } else {
        duration as u64
    }
}

impl Event {
    /// What replaying the event takes: a wait of its duration, then its
    /// injection.
    pub fn simulate(&self) -> (steps: Vec<Step>)
        ensures
            steps@ == replay(*self),
    {
        let mut steps: Vec<Step> = Vec::new();
        steps.push(Step::Sleep { millis: self.duration().into_std() });
        steps.push(Step::Inject { event: self.raw() });
        assert(steps@ =~= replay(*self));
        steps
    }
}

fn push_injection(steps: &mut Vec<Step>, wait: u32, raw: RawEvent)
    ensures
        final(steps)@ == old(steps)@ + inject_after(wait, raw),
{
    steps.push(Step::Sleep { millis: wait as u64 });
    steps.push(Step::Inject { event: raw });
    assert(steps@ =~= old(steps)@ + inject_after(wait, raw));
}

fn add_clamped(a: i32, b: i32) -> (sum: i32)
    ensures
        sum == clamped(a + b),
{
    let sum: i64 = a as i64 + b as i64;
    if sum > i32::MAX as i64 {
        i32::MAX
    } else if sum < i32::MIN as i64 {
        i32::MIN
    } else {
        sum as i32
    }
}

/// The pointer's position as the platform reports it; the origin where
/// it reports none.
pub fn current_point(location: Option<(i32, i32)>) -> (point: (i32, i32))
    ensures
        point == match location {
            Some(p) => p,
            None => (0i32, 0i32),
        },
{
    match location {
        Some(p) => p,
        None => (0, 0),
    }
}

/// Drags `button` from one point to another in `duration` milliseconds,
/// along the path that [`virtual_path`] lays out.
pub fn drag(from_point: (i32, i32), to_point: (i32, i32), duration: u32, button: Button) -> (steps:
    Vec<Step>)
    ensures
        steps@ == drag_steps(from_point, to_point, duration, button),
{
    let mut steps: Vec<Step> = Vec::new();
    let ghost path = walk(from_point.0, from_point.1, to_point.0, to_point.1, duration);
    match virtual_path(from_point.0, from_point.1, to_point.0, to_point.1, duration) {
        Some(points) => {
            let mut i: usize = 0;
            while i < points.len()
                invariant
                    i <= points@.len(),
                    points@ == path,
                    steps@.len() == 2 * i,
                    forall|k: int| 0 <= k < 2 * i ==> steps@[k] == drag_along(path, button)[k],
                decreases points@.len() - i,
            {
                let point = points[i];
                steps.push(Step::Sleep { millis: point.2 as u64 });
                steps.push(
                    Step::Inject { event: RawEvent::Drag { button, x: point.0, y: point.1 } },
                );
                i += 1;
            }
            assert(steps@ =~= drag_along(path, button));
        },
        None => {
            assert(steps@ =~= drag_along(path, button));
        },
    }
    steps
}

/// Presses `button` at `point` and lets it go ten milliseconds later.
pub fn click(point: (i32, i32), button: Button) -> (steps: Vec<Step>)
    ensures
        steps@ == click_steps(point, button),
{
    let mut steps: Vec<Step> = Vec::new();
    push_injection(&mut steps, 0, RawEvent::ButtonPress { button, x: point.0, y: point.1 });
    push_injection(&mut steps, 10, RawEvent::ButtonRelease { button, x: point.0, y: point.1 });
    assert(steps@ =~= click_steps(point, button));
    steps
}

/// Turns the wheel by `y`, downward where `y` is above zero.
pub fn wheel(y: i32) -> (steps: Vec<Step>)
    ensures
        steps@ == inject_after(0, RawEvent::Wheel { delta_x: 0, delta_y: y as i64 }),
{
    let mut steps: Vec<Step> = Vec::new();
    push_injection(&mut steps, 0, RawEvent::Wheel { delta_x: 0, delta_y: y as i64 });
    steps
}

/// Moves the pointer to a point with the left button held down.
pub fn drag_left_instant(x: i32, y: i32) -> (steps: Vec<Step>)
    ensures
        steps@ == inject_after(0, RawEvent::Drag { button: Button::Left, x, y }),
{
    let mut steps: Vec<Step> = Vec::new();
    push_injection(&mut steps, 0, RawEvent::Drag { button: Button::Left, x, y });
    steps
}

/// Moves the pointer to a point with the right button held down.
pub fn drag_right_instant(x: i32, y: i32) -> (steps: Vec<Step>)
    ensures
        steps@ == inject_after(0, RawEvent::Drag { button: Button::Right, x, y }),
{
    let mut steps: Vec<Step> = Vec::new();
    push_injection(&mut steps, 0, RawEvent::Drag { button: Button::Right, x, y });
    steps
}

/// Drags the left button from `from_point` over the distance `offset`.
pub fn drag_left_relative(from_point: (i32, i32), offset: (i32, i32), duration: u32) -> (steps:
    Vec<Step>)
    ensures
        steps@ == drag_steps(from_point, offset_point(from_point, offset), duration, Button::Left),
{
    let to_point = (add_clamped(from_point.0, offset.0), add_clamped(from_point.1, offset.1));
    drag(from_point, to_point, duration, Button::Left)
}

/// Drags the right button from `from_point` over the distance `offset`.
pub fn drag_right_relative(from_point: (i32, i32), offset: (i32, i32), duration: u32) -> (steps:
    Vec<Step>)
    ensures
        steps@ == drag_steps(from_point, offset_point(from_point, offset), duration, Button::Right),
{
    let to_point = (add_clamped(from_point.0, offset.0), add_clamped(from_point.1, offset.1));
    drag(from_point, to_point, duration, Button::Right)
}

/// Clicks the left button at a point.
pub fn click_left(x: i32, y: i32) -> (steps: Vec<Step>)
    ensures
        steps@ == click_steps((x, y), Button::Left),
{
    click((x, y), Button::Left)
}

/// Clicks the right button at a point.
pub fn click_right(x: i32, y: i32) -> (steps: Vec<Step>)
    ensures
        steps@ == click_steps((x, y), Button::Right),
{
    click((x, y), Button::Right)
}

/// Clicks the left button where the pointer is: at `location`, or at the
/// origin where the platform reports no position.
pub fn button_left_click(location: Option<(i32, i32)>) -> (steps: Vec<Step>)
    ensures
        steps@ == click_steps(
            match location {
                Some(p) => p,
                None => (0i32, 0i32),
            },
            Button::Left,
        ),
{
    click(current_point(location), Button::Left)
}

/// Clicks the right button where the pointer is: at `location`, or at the
/// origin where the platform reports no position.
pub fn button_right_click(location: Option<(i32, i32)>) -> (steps: Vec<Step>)
    ensures
        steps@ == click_steps(
            match location {
                Some(p) => p,
                None => (0i32, 0i32),
            },
            Button::Right,
        ),
{
    click(current_point(location), Button::Right)
}

/// Presses the left button at a point.
pub fn button_left_press(x: i32, y: i32) -> (steps: Vec<Step>)
    ensures
        steps@ == inject_after(0, RawEvent::ButtonPress { button: Button::Left, x, y }),
{
    let mut steps: Vec<Step> = Vec::new();
    push_injection(&mut steps, 0, RawEvent::ButtonPress { button: Button::Left, x, y });
    steps
}

/// Lets the left button go at a point.
pub fn button_left_release(x: i32, y: i32) -> (steps: Vec<Step>)
    ensures
        steps@ == inject_after(0, RawEvent::ButtonRelease { button: Button::Left, x, y }),
{
    let mut steps: Vec<Step> = Vec::new();
    push_injection(&mut steps, 0, RawEvent::ButtonRelease { button: Button::Left, x, y });
    steps
}

/// Presses the right button at a point.
pub fn button_right_press(x: i32, y: i32) -> (steps: Vec<Step>)
    ensures
        steps@ == inject_after(0, RawEvent::ButtonPress { button: Button::Right, x, y }),
{
    let mut steps: Vec<Step> = Vec::new();
    push_injection(&mut steps, 0, RawEvent::ButtonPress { button: Button::Right, x, y });
    steps
}

/// Lets the right button go at a point.
pub fn button_right_release(x: i32, y: i32) -> (steps: Vec<Step>)
    ensures
        steps@ == inject_after(0, RawEvent::ButtonRelease { button: Button::Right, x, y }),
{
    let mut steps: Vec<Step> = Vec::new();
    push_injection(&mut steps, 0, RawEvent::ButtonRelease { button: Button::Right, x, y });
    steps
}

/// Moves the pointer to a point.
pub fn mouse_move(x: i32, y: i32) -> (steps: Vec<Step>)
    ensures
        steps@ == inject_after(0, RawEvent::MouseMove { x, y }),
{
    let mut steps: Vec<Step> = Vec::new();
    push_injection(&mut steps, 0, RawEvent::MouseMove { x, y });
    steps
}

/// Moves the pointer to the point at distance `offset` from `point`, and
/// returns that point with the steps that take the pointer there.
pub fn mouse_move_relative(point: (i32, i32), offset: (i32, i32)) -> (moved: (
    (i32, i32),
    Vec<Step>,
))
    ensures
        moved.0 == offset_point(point, offset),
        moved.1@ == inject_after(0, RawEvent::MouseMove { x: moved.0.0, y: moved.0.1 }),
{
    let x = add_clamped(point.0, offset.0);
    let y = add_clamped(point.1, offset.1);
    ((x, y), mouse_move(x, y))
}

fn amount(delta_y: i32) -> (amount: i32)
    ensures
        amount == wheel_amount(delta_y),
        amount >= 0,
{
    if delta_y == i32::MIN {
        i32::MAX
    } else if delta_y < 0 {
        -delta_y
    } else {
        delta_y
    }
}

/// Turns the wheel upward by the amount of `delta_y`, whatever its sign.
pub fn wheel_up(delta_y: i32) -> (steps: Vec<Step>)
    ensures
        steps@ == inject_after(
            0,
            RawEvent::Wheel { delta_x: 0, delta_y: (0 - wheel_amount(delta_y)) as i64 },
        ),
{
    wheel(0 - amount(delta_y))
}

/// Turns the wheel downward by the amount of `delta_y`, whatever its sign.
pub fn wheel_down(delta_y: i32) -> (steps: Vec<Step>)
    ensures
        steps@ == inject_after(
            0,
            RawEvent::Wheel { delta_x: 0, delta_y: wheel_amount(delta_y) as i64 },
        ),
{
    wheel(amount(delta_y))
}

/// Presses a key.
pub fn key_press(key: Key) -> (steps: Vec<Step>)
    ensures
        steps@ == inject_after(0, RawEvent::KeyPress { key }),
{
    let mut steps: Vec<Step> = Vec::new();
    push_injection(&mut steps, 0, RawEvent::KeyPress { key });
    steps
}

/// Lets a key go.
pub fn key_release(key: Key) -> (steps: Vec<Step>)
    ensures
        steps@ == inject_after(0, RawEvent::KeyRelease { key }),
{
    let mut steps: Vec<Step> = Vec::new();
    push_injection(&mut steps, 0, RawEvent::KeyRelease { key });
    steps
}

/// Strikes a key: down, ten milliseconds, up.
pub fn key_click(key: Key) -> (steps: Vec<Step>)
    ensures
        steps@ == key_click_steps(key),
{
    let mut steps: Vec<Step> = Vec::new();
    push_injection(&mut steps, 0, RawEvent::KeyPress { key });
    steps.push(delay(10));
    push_injection(&mut steps, 0, RawEvent::KeyRelease { key });
    assert(steps@ =~= key_click_steps(key));
    steps
}

/// Waits `duration` milliseconds; not at all where `duration` is negative.
pub fn delay(duration: i64) -> (step: Step)
    ensures
        step == (Step::Sleep { millis: delay_millis(duration) }),
{
    if duration < 0 {
        Step::Sleep { millis: 0 }
    } else {
        Step::Sleep { millis: duration as u64 }
    }
}

fn chord(modifier: Key, letter: Key) -> (steps: Vec<Step>)
    ensures
        steps@ == chord_steps(modifier, letter),
{
    let mut steps: Vec<Step> = Vec::new();
    push_injection(&mut steps, 0, RawEvent::KeyPress { key: modifier });
    steps.push(delay(10));
    push_injection(&mut steps, 0, RawEvent::KeyPress { key: letter });
    steps.push(delay(5));
    push_injection(&mut steps, 0, RawEvent::KeyRelease { key: letter });
    steps.push(delay(5));
    push_injection(&mut steps, 0, RawEvent::KeyRelease { key: modifier });
    assert(steps@ =~= chord_steps(modifier, letter));
    steps
}

/// Selects everything in the window that has the focus: the platform's
/// command modifier held down around a stroke of `A`.
pub fn select_all(platform: Platform) -> (steps: Vec<Step>)
    ensures
        steps@ == chord_steps(platform.spec_modifier(), Key::KeyA),
{
    chord(platform.modifier(), Key::KeyA)
}

/// The key strokes that paste what the clipboard holds: the platform's
/// command modifier held down around a stroke of `V`. The caller puts the
/// text on the clipboard first.
pub fn paste_text(platform: Platform) -> (steps: Vec<Step>)
    ensures
        steps@ == chord_steps(platform.spec_modifier(), Key::KeyV),
{
    chord(platform.modifier(), Key::KeyV)
}

/// The amount that a number in a script comes to where an operation takes
/// it as a wheel amount: itself, or the largest amount there is.
pub open spec fn as_amount(n: u32) -> i32 {
    if n > i32::MAX {
        i32::MAX
    } else {
        n as i32
    }
}

impl Call {
    /// What the call does when the script reaches it: the steps of the
    /// operation that it names, on its arguments.
    pub open spec fn steps(self) -> Seq<Step> {
        match self {
            Call::KeyPress { key } => inject_after(0, RawEvent::KeyPress { key }),
            Call::KeyRelease { key } => inject_after(0, RawEvent::KeyRelease { key }),
            Call::ButtonLeftPress { x, y } => inject_after(
                0,
                RawEvent::ButtonPress { button: Button::Left, x, y },
            ),
            Call::ButtonLeftRelease { x, y } => inject_after(
                0,
                RawEvent::ButtonRelease { button: Button::Left, x, y },
            ),
            Call::ButtonRightPress { x, y } => inject_after(
                0,
                RawEvent::ButtonPress { button: Button::Right, x, y },
            ),
            Call::ButtonRightRelease { x, y } => inject_after(
                0,
                RawEvent::ButtonRelease { button: Button::Right, x, y },
            ),
            Call::MouseMove { x, y } => inject_after(0, RawEvent::MouseMove { x, y }),
            Call::DragLeftInstant { x, y } => inject_after(
                0,
                RawEvent::Drag { button: Button::Left, x, y },
            ),
            Call::DragRightInstant { x, y } => inject_after(
                0,
                RawEvent::Drag { button: Button::Right, x, y },
            ),
            Call::WheelDown { amount } => inject_after(
                0,
                RawEvent::Wheel { delta_x: 0, delta_y: wheel_amount(as_amount(amount)) as i64 },
            ),
            Call::WheelUp { amount } => inject_after(
                0,
                RawEvent::Wheel {
                    delta_x: 0,
                    delta_y: (0 - wheel_amount(as_amount(amount))) as i64,
                },
            ),
            Call::Delay { millis } => seq![Step::Sleep { millis: millis as u64 }],
        }
    }

    /// Makes the call: hands its arguments to the operation that it names
    /// and returns the steps that the operation takes.
    pub fn perform(&self) -> (steps: Vec<Step>)
        ensures
            steps@ == self.steps(),
    {
        match self {
            Call::KeyPress { key } => key_press(*key),
            Call::KeyRelease { key } => key_release(*key),
            Call::ButtonLeftPress { x, y } => button_left_press(*x, *y),
            Call::ButtonLeftRelease { x, y } => button_left_release(*x, *y),
            Call::ButtonRightPress { x, y } => button_right_press(*x, *y),
            Call::ButtonRightRelease { x, y } => button_right_release(*x, *y),
            Call::MouseMove { x, y } => mouse_move(*x, *y),
            Call::DragLeftInstant { x, y } => drag_left_instant(*x, *y),
            Call::DragRightInstant { x, y } => drag_right_instant(*x, *y),
            Call::WheelDown { amount } => wheel_down(amount_of(*amount)),
            Call::WheelUp { amount } => wheel_up(amount_of(*amount)),
            Call::Delay { millis } => {
                let mut steps: Vec<Step> = Vec::new();
                steps.push(delay(*millis as i64));
                assert(steps@ =~= self.steps());
                steps
            },
        }
    }
}

fn amount_of(n: u32) -> (amount: i32)
    ensures
        amount == as_amount(n),
{
    if n > i32::MAX as u32 {
        i32::MAX
    } else {
        n as i32
    }
}

/// The wait that a whole number in a script comes to where an operation
/// takes it as a duration: none for a negative number, the longest there
/// is for one that is larger.
pub open spec fn clamped_millis(n: int) -> u32 {
    if n < 0 {
        0
    } else if n > u32::MAX {
        u32::MAX
    } else {
        n as u32
    }
}

/// Brings a whole number of a script into the range of coordinates.
pub fn coordinate(n: i64) -> (c: i32)
    ensures
        c == clamped(n as int),
{
    if n > i32::MAX as i64 {
        i32::MAX
    } else if n < i32::MIN as i64 {
        i32::MIN
    } else {
        n as i32
    }
}

/// Brings a whole number of a script into the range of durations.
pub fn millis(n: i64) -> (m: u32)
    ensures
        m == clamped_millis(n as int),
{
    if n < 0 {
        0
    } else if n > u32::MAX as i64 {
        u32::MAX
    } else {
        n as u32
    }
}

} // verus!
