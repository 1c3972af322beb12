use input_macro::pointer::occurrences;
use input_macro::{Button, Key, Occurrence, Pointer, RawEvent};

#[test]
fn a_new_pointer_is_at_the_origin() {
    let pointer = Pointer::new();
    assert_eq!(pointer.position(), (0, 0));
    assert_eq!(pointer.held, None);
}

#[test]
fn buttons_go_down_and_up_where_the_pointer_is() {
    let mut pointer = Pointer::new();
    assert_eq!(
        pointer.observe(Occurrence::ButtonPress { button: Button::Right }),
        RawEvent::ButtonPress { button: Button::Right, x: 0, y: 0 }
    );
    assert_eq!(pointer.held, Some(Button::Right));
    assert_eq!(
        pointer.observe(Occurrence::ButtonRelease { button: Button::Right }),
        RawEvent::ButtonRelease { button: Button::Right, x: 0, y: 0 }
    );
    assert_eq!(pointer.held, None);
    assert_eq!(
        pointer.observe(Occurrence::MouseMove { x: 30, y: -4 }),
        RawEvent::MouseMove { x: 30, y: -4 }
    );
    assert_eq!(pointer.position(), (30, -4));
    assert_eq!(
        pointer.observe(Occurrence::ButtonPress { button: Button::Left }),
        RawEvent::ButtonPress { button: Button::Left, x: 30, y: -4 }
    );
}

#[test]
fn a_move_with_a_button_held_is_a_drag() {
    let mut pointer = Pointer::new();
    pointer.observe(Occurrence::MouseMove { x: 1, y: 1 });
    pointer.observe(Occurrence::ButtonPress { button: Button::Left });
    assert_eq!(
        pointer.observe(Occurrence::MouseMove { x: 2, y: 3 }),
        RawEvent::Drag { button: Button::Left, x: 2, y: 3 }
    );
    assert_eq!(pointer.position(), (2, 3));
    assert_eq!(
        pointer.observe(Occurrence::ButtonRelease { button: Button::Left }),
        RawEvent::ButtonRelease { button: Button::Left, x: 2, y: 3 }
    );
    assert_eq!(
        pointer.observe(Occurrence::MouseMove { x: 5, y: 5 }),
        RawEvent::MouseMove { x: 5, y: 5 }
    );
}

#[test]
fn keys_and_the_wheel_leave_the_pointer_alone() {
    let mut pointer = Pointer { x: 9, y: 8, held: Some(Button::Middle) };
    let before = pointer;
    assert_eq!(
        pointer.observe(Occurrence::KeyPress { key: Key::KeyA }),
        RawEvent::KeyPress { key: Key::KeyA }
    );
    assert_eq!(
        pointer.observe(Occurrence::KeyRelease { key: Key::KeyA }),
        RawEvent::KeyRelease { key: Key::KeyA }
    );
    assert_eq!(
        pointer.observe(Occurrence::Wheel { delta_x: 1, delta_y: -2 }),
        RawEvent::Wheel { delta_x: 1, delta_y: -2 }
    );
    assert_eq!(pointer, before);
}

#[test]
fn occurrences_that_bring_events_about() {
    assert_eq!(
        occurrences(RawEvent::KeyPress { key: Key::Tab }),
        vec![Occurrence::KeyPress { key: Key::Tab }]
    );
    assert_eq!(
        occurrences(RawEvent::ButtonPress { button: Button::Left, x: 3, y: 4 }),
        vec![
            Occurrence::MouseMove { x: 3, y: 4 },
            Occurrence::ButtonPress { button: Button::Left },
        ]
    );
    assert_eq!(
        occurrences(RawEvent::ButtonRelease { button: Button::Right, x: 3, y: 4 }),
        vec![
            Occurrence::MouseMove { x: 3, y: 4 },
            Occurrence::ButtonRelease { button: Button::Right },
        ]
    );
    assert_eq!(
        occurrences(RawEvent::Drag { button: Button::Left, x: 5, y: 6 }),
        vec![Occurrence::MouseMove { x: 5, y: 6 }]
    );
    assert_eq!(
        occurrences(RawEvent::MouseMove { x: 5, y: 6 }),
        vec![Occurrence::MouseMove { x: 5, y: 6 }]
    );
    assert_eq!(
        occurrences(RawEvent::Wheel { delta_x: 0, delta_y: 7 }),
        vec![Occurrence::Wheel { delta_x: 0, delta_y: 7 }]
    );
}

#[test]
fn what_is_injected_is_what_would_be_captured() {
    let script = [
        RawEvent::MouseMove { x: 10, y: 10 },
        RawEvent::ButtonPress { button: Button::Left, x: 10, y: 10 },
        RawEvent::Drag { button: Button::Left, x: 11, y: 11 },
        RawEvent::Drag { button: Button::Left, x: 12, y: 12 },
        RawEvent::ButtonRelease { button: Button::Left, x: 12, y: 12 },
        RawEvent::KeyPress { key: Key::KeyQ },
        RawEvent::Wheel { delta_x: 0, delta_y: -1 },
        RawEvent::MouseMove { x: 0, y: 0 },
    ];
    let mut pointer = Pointer::new();
    for raw in script {
        let mut seen = None;
        for occurrence in occurrences(raw) {
            seen = Some(pointer.observe(occurrence));
        }
        assert_eq!(seen, Some(raw));
    }
}
