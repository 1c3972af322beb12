use input_macro::script::{coordinate, millis};
use input_macro::{
    bind_keys, events_to_data, run, run_outcome, simulate_event_data, simulate_state_send,
    Button, Call, Data, Event, Key, SimulateError, StopSignal,
};
use rhai::{Engine, EvalAltResult, Scope};
use std::cell::RefCell;
use std::rc::Rc;
use std::sync::Arc;

type Calls = Rc<RefCell<Vec<Call>>>;

fn amount(n: i64) -> u32 {
    millis(n)
}

/// An engine whose operations note the calls that a script makes.
fn noting_engine(calls: &Calls) -> Engine {
    let mut engine = Engine::new();
    let log = calls.clone();
    engine.register_fn("key_press", move |key: Key| {
        log.borrow_mut().push(Call::KeyPress { key });
    });
    let log = calls.clone();
    engine.register_fn("key_release", move |key: Key| {
        log.borrow_mut().push(Call::KeyRelease { key });
    });
    let log = calls.clone();
    engine.register_fn("button_left_press", move |x: i64, y: i64| {
        log.borrow_mut().push(Call::ButtonLeftPress { x: coordinate(x), y: coordinate(y) });
    });
    let log = calls.clone();
    engine.register_fn("button_left_release", move |x: i64, y: i64| {
        log.borrow_mut().push(Call::ButtonLeftRelease { x: coordinate(x), y: coordinate(y) });
    });
    let log = calls.clone();
    engine.register_fn("button_right_press", move |x: i64, y: i64| {
        log.borrow_mut().push(Call::ButtonRightPress { x: coordinate(x), y: coordinate(y) });
    });
    let log = calls.clone();
    engine.register_fn("button_right_release", move |x: i64, y: i64| {
        log.borrow_mut().push(Call::ButtonRightRelease { x: coordinate(x), y: coordinate(y) });
    });
    let log = calls.clone();
    engine.register_fn("mouse_move", move |x: i64, y: i64| {
        log.borrow_mut().push(Call::MouseMove { x: coordinate(x), y: coordinate(y) });
    });
    let log = calls.clone();
    engine.register_fn("drag_left_instant", move |x: i64, y: i64| {
        log.borrow_mut().push(Call::DragLeftInstant { x: coordinate(x), y: coordinate(y) });
    });
    let log = calls.clone();
    engine.register_fn("drag_right_instant", move |x: i64, y: i64| {
        log.borrow_mut().push(Call::DragRightInstant { x: coordinate(x), y: coordinate(y) });
    });
    let log = calls.clone();
    engine.register_fn("wheel_down", move |n: i64| {
        log.borrow_mut().push(Call::WheelDown { amount: amount(n) });
    });
    let log = calls.clone();
    engine.register_fn("wheel_up", move |n: i64| {
        log.borrow_mut().push(Call::WheelUp { amount: amount(n) });
    });
    let log = calls.clone();
    engine.register_fn("delay", move |n: i64| {
        log.borrow_mut().push(Call::Delay { millis: amount(n) });
    });
    engine
}

fn calls_made_by(content: &str) -> (Result<(), SimulateError>, Vec<Call>) {
    let calls: Calls = Rc::new(RefCell::new(Vec::new()));
    let mut engine = noting_engine(&calls);
    let result = run(&mut engine, Arc::new(StopSignal::new()), content.to_string());
    let made = calls.borrow().clone();
    (result, made)
}

#[test]
fn every_key_is_bound_under_its_name() {
    let mut scope = Scope::new();
    bind_keys(&mut scope);
    assert_eq!(scope.len(), 105);
    for index in 0..105 {
        let key = Key::from_index(index).unwrap();
        assert_eq!(scope.get_value::<Key>(key.as_str()), Some(key));
    }
    assert_eq!(scope.get_value::<Key>("Alt"), Some(Key::Alt));
    assert_eq!(scope.get_value::<Key>("f12"), Some(Key::F12));
    assert_eq!(scope.get_value::<Key>("n2"), Some(Key::Num2));
    assert_eq!(scope.get_value::<Key>("n"), Some(Key::KeyN));
    assert_eq!(scope.get_value::<Key>("Unknown"), None);
}

#[test]
fn binding_keeps_the_variables_that_were_there() {
    let mut scope = Scope::new();
    scope.push("answer", 42i64);
    scope.push("Alt", Key::Tab);
    bind_keys(&mut scope);
    assert_eq!(scope.len(), 107);
    assert_eq!(scope.get_value::<i64>("answer"), Some(42));
    assert_eq!(scope.get_value::<Key>("Alt"), Some(Key::Alt));
}

#[test]
fn empty_script_runs() {
    let (result, calls) = calls_made_by("");
    assert!(result.is_ok());
    assert!(calls.is_empty());
}

#[test]
fn script_of_a_log_makes_the_calls_of_its_events_in_order() {
    let events = vec![
        Event::KeyPress { key: Key::ShiftLeft, elapse: 0, duration: 0 },
        Event::KeyPress { key: Key::KeyA, elapse: 40, duration: 40 },
        Event::KeyRelease { key: Key::KeyA, elapse: 90, duration: 50 },
        Event::KeyRelease { key: Key::ShiftLeft, elapse: 95, duration: 5 },
        Event::MouseMove { x: 300, y: -20, elapse: 200, duration: 105 },
        Event::ButtonPress { button: Button::Left, x: 300, y: -20, elapse: 210, duration: 10 },
        Event::Drag { button: Button::Left, x: 310, y: -10, elapse: 230, duration: 20 },
        Event::ButtonRelease { button: Button::Left, x: 310, y: -10, elapse: 260, duration: 30 },
        Event::ButtonPress { button: Button::Right, x: 1, y: 2, elapse: 300, duration: 40 },
        Event::Drag { button: Button::Right, x: 2, y: 3, elapse: 300, duration: 0 },
        Event::ButtonRelease { button: Button::Right, x: 2, y: 3, elapse: 301, duration: 1 },
        Event::ButtonPress { button: Button::Middle, x: 2, y: 3, elapse: 302, duration: 1 },
        Event::Wheel { x: 0, y: 4, elapse: 400, duration: 98 },
        Event::Wheel { x: 0, y: 0, elapse: 401, duration: 1 },
        Event::Wheel { x: 0, y: -4, elapse: 500, duration: 99 },
    ];
    let data = events_to_data(&events);
    let (result, calls) = calls_made_by(&data.content);
    assert!(result.is_ok(), "{:?}", result);
    let mut expected = Vec::new();
    for event in &events {
        if let Some(call) = event.to_call() {
            expected.push(call);
            expected.push(Call::Delay { millis: event.duration() });
        }
    }
    assert_eq!(expected.len(), 26);
    assert_eq!(calls, expected);
}

#[test]
fn every_named_key_comes_back_from_its_statement() {
    for index in 0..105 {
        let key = Key::from_index(index).unwrap();
        let press = Event::KeyPress { key, elapse: 0, duration: 7 };
        let (result, calls) = calls_made_by(&press.to_string());
        assert!(result.is_ok(), "{:?}", result);
        assert_eq!(calls, vec![Call::KeyPress { key }, Call::Delay { millis: 7 }]);
        let release = Event::KeyRelease { key, elapse: 0, duration: 0 };
        let (result, calls) = calls_made_by(&release.to_string());
        assert!(result.is_ok(), "{:?}", result);
        assert_eq!(calls, vec![Call::KeyRelease { key }, Call::Delay { millis: 0 }]);
    }
}

#[test]
fn a_call_on_a_key_name_issues_that_key() {
    for index in 0..105 {
        let key = Key::from_index(index).unwrap();
        let content = format!("key_press({});", key.as_str());
        let (result, calls) = calls_made_by(&content);
        assert!(result.is_ok(), "{:?}", result);
        assert_eq!(calls, vec![Call::KeyPress { key }]);
    }
}

#[test]
fn statement_of_an_unknown_key_does_not_run() {
    let event = Event::KeyPress { key: Key::Unknown(9), elapse: 0, duration: 7 };
    let (result, calls) = calls_made_by(&event.to_string());
    assert!(matches!(result, Err(SimulateError::Rhai(_))));
    assert!(calls.is_empty());
}

#[test]
fn malformed_script_is_an_error_of_the_evaluator() {
    let (result, calls) = calls_made_by("key_press(a;");
    assert!(matches!(result, Err(SimulateError::Rhai(_))));
    assert!(calls.is_empty());
    let (result, _) = calls_made_by("no_such_operation(1);");
    assert!(matches!(result, Err(SimulateError::Rhai(_))));
}

#[test]
fn a_stop_asked_for_ends_the_run_at_the_next_checkpoint() {
    let calls: Calls = Rc::new(RefCell::new(Vec::new()));
    let mut engine = noting_engine(&calls);
    let signal = Arc::new(StopSignal::new());
    assert!(simulate_state_send(&signal, true));
    let content = "key_press(a);\ndelay(1);\nkey_release(a);\ndelay(1);\n".to_string();
    let result = run(&mut engine, signal.clone(), content.clone());
    match result {
        Err(SimulateError::Rhai(err)) => {
            assert!(matches!(*err, EvalAltResult::ErrorTerminated(..)));
        }
        other => panic!("the run was not ended: {:?}", other),
    }
    assert!(calls.borrow().is_empty());
    assert_eq!(signal.poll(), None);
    let again = run(&mut engine, signal, content);
    assert!(again.is_ok());
    assert_eq!(calls.borrow().len(), 4);
}

#[test]
fn a_message_that_is_no_stop_lets_the_run_go_on() {
    let calls: Calls = Rc::new(RefCell::new(Vec::new()));
    let mut engine = noting_engine(&calls);
    let signal = Arc::new(StopSignal::new());
    simulate_state_send(&signal, false);
    let result = run(&mut engine, signal, "delay(3);\n".to_string());
    assert!(result.is_ok());
    assert_eq!(*calls.borrow(), vec![Call::Delay { millis: 3 }]);
}

#[test]
fn a_macro_plays_its_script() {
    let calls: Calls = Rc::new(RefCell::new(Vec::new()));
    let mut engine = noting_engine(&calls);
    let signal = Arc::new(StopSignal::new());
    let data = Data::new("demo".to_string(), "mouse_move(1,2);\ndelay(3);\n".to_string());
    assert!(simulate_event_data(&data, &mut engine, signal.clone()).is_ok());
    assert!(data.simulate(&mut engine, signal).is_ok());
    assert_eq!(
        *calls.borrow(),
        vec![
            Call::MouseMove { x: 1, y: 2 },
            Call::Delay { millis: 3 },
            Call::MouseMove { x: 1, y: 2 },
            Call::Delay { millis: 3 },
        ]
    );
}

#[test]
fn outcome_of_a_run() {
    assert!(run_outcome(Ok(())).is_ok());
    let failure: Box<EvalAltResult> = Box::new(EvalAltResult::ErrorRuntime(
        rhai::Dynamic::from(1i64),
        rhai::Position::NONE,
    ));
    match run_outcome(Err(failure)) {
        Err(SimulateError::Rhai(err)) => {
            assert!(matches!(*err, EvalAltResult::ErrorRuntime(..)))
        }
        other => panic!("unexpected outcome: {:?}", other),
    }
}
