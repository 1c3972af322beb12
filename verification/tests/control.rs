use input_macro::app::log_is_well_formed;
use input_macro::{
    App, Button, Data, Decision, Event, GrabError, HotKey, Key, LoopTimes, Player, RawEvent,
    SimulateError, State, StopSignal,
};

fn release(key: Key, elapse: u32) -> Event {
    Event::KeyRelease { key, elapse, duration: 0 }
}

fn press(key: Key, elapse: u32) -> Event {
    Event::KeyPress { key, elapse, duration: 0 }
}

fn demo() -> Data {
    Data::new("demo".to_string(), "key_press(a);\ndelay(0);\n".to_string())
}

#[test]
fn default_state_is_stop() {
    assert_eq!(State::default(), State::Stop);
}

#[test]
fn default_hot_keys() {
    let hotkey = HotKey::default();
    assert_eq!(hotkey.record, Key::F10);
    assert_eq!(hotkey.simulate, Key::F11);
    assert_eq!(hotkey.stop, Key::F12);
    assert!(hotkey.is_distinct());
    assert!(hotkey.contains(&Key::F10));
    assert!(hotkey.contains(&Key::F11));
    assert!(hotkey.contains(&Key::F12));
    assert!(!hotkey.contains(&Key::F9));
    assert!(!hotkey.contains(&Key::Unknown(12)));
}

#[test]
fn hot_keys_must_differ() {
    assert_eq!(
        HotKey::new(Key::Num1, Key::Num2, Key::Num3),
        Some(HotKey { record: Key::Num1, simulate: Key::Num2, stop: Key::Num3 })
    );
    assert_eq!(HotKey::new(Key::Num1, Key::Num1, Key::Num3), None);
    assert_eq!(HotKey::new(Key::Num1, Key::Num2, Key::Num1), None);
    assert_eq!(HotKey::new(Key::Num1, Key::Num2, Key::Num2), None);
    assert_eq!(HotKey::new(Key::Unknown(1), Key::Unknown(1), Key::Num2), None);
    assert!(HotKey::new(Key::Unknown(1), Key::Unknown(2), Key::Num2).is_some());
}

#[test]
fn new_app_is_at_rest() {
    let app = App::new();
    assert_eq!(app.state(), State::Stop);
    assert_eq!(app.hotkey(), HotKey::default());
    assert_eq!(app.loop_times(), LoopTimes::Limited(1));
    assert!(!app.mouse_filter());
    assert!(app.events().is_empty());
    assert!(app.data().is_none());
}

#[test]
fn settings() {
    let mut app = App::new();
    app.set_loop_times(LoopTimes::Unlimited);
    app.set_mouse_filter(true);
    assert_eq!(app.loop_times(), LoopTimes::Unlimited);
    assert!(app.mouse_filter());
    let same = HotKey { record: Key::F1, simulate: Key::F1, stop: Key::F2 };
    assert!(!app.set_hotkey(same));
    assert_eq!(app.hotkey(), HotKey::default());
    let other = HotKey { record: Key::Num1, simulate: Key::Num2, stop: Key::Num3 };
    assert!(app.set_hotkey(other));
    assert_eq!(app.hotkey(), other);
}

#[test]
fn record_then_stop_without_events_keeps_the_macro() {
    let signal = StopSignal::new();
    let mut app = App::new();
    app.set_data(Some(demo()));
    let (decision, player) = app.dispatch(press(Key::F10, 0), &signal);
    assert_eq!(decision, Decision::Swallow);
    assert!(player.is_none());
    assert_eq!(app.state(), State::Stop);
    let (decision, _) = app.dispatch(release(Key::F10, 0), &signal);
    assert_eq!(decision, Decision::Swallow);
    assert_eq!(app.state(), State::Record);
    let (decision, _) = app.dispatch(press(Key::F12, 5), &signal);
    assert_eq!(decision, Decision::Swallow);
    assert!(app.events().is_empty());
    let (decision, _) = app.dispatch(release(Key::F12, 9), &signal);
    assert_eq!(decision, Decision::Swallow);
    assert_eq!(app.state(), State::Stop);
    assert_eq!(app.data().unwrap().name(), "demo");
    assert_eq!(app.data().unwrap().content, "key_press(a);\ndelay(0);\n");
    assert_eq!(signal.poll(), None);
}

#[test]
fn record_then_stop_without_events_and_without_macro_holds_none() {
    let signal = StopSignal::new();
    let mut app = App::new();
    app.record();
    assert_eq!(app.state(), State::Record);
    assert!(!app.stop(&signal));
    assert_eq!(app.state(), State::Stop);
    assert!(app.data().is_none());
}

#[test]
fn recording_logs_events_with_derived_durations() {
    let signal = StopSignal::new();
    let mut app = App::new();
    app.dispatch(release(Key::F10, 0), &signal);
    let stream = [
        Event::KeyPress { key: Key::KeyA, elapse: 100, duration: 55 },
        Event::KeyRelease { key: Key::KeyA, elapse: 180, duration: 0 },
        Event::MouseMove { x: 5, y: 6, elapse: 180, duration: 0 },
        Event::ButtonPress { button: Button::Left, x: 5, y: 6, elapse: 170, duration: 0 },
        Event::ButtonRelease { button: Button::Left, x: 5, y: 6, elapse: 400, duration: 0 },
    ];
    for event in stream {
        let (decision, player) = app.dispatch(event, &signal);
        assert_eq!(decision, Decision::PassThroughAndRecord);
        assert!(player.is_none());
    }
    let durations: Vec<u32> = app.events().iter().map(|e| e.duration()).collect();
    assert_eq!(durations, vec![0, 80, 0, 0, 230]);
    let elapses: Vec<u32> = app.events().iter().map(|e| e.elapse()).collect();
    assert_eq!(elapses, vec![100, 180, 180, 170, 400]);
    for (logged, offered) in app.events().iter().zip(stream.iter()) {
        assert_eq!(logged.raw(), offered.raw());
    }
    app.dispatch(release(Key::F12, 500), &signal);
    assert_eq!(app.state(), State::Stop);
    assert!(app.events().is_empty());
    let data = app.data().unwrap();
    assert_eq!(data.name(), "undefined");
    assert_eq!(
        data.content,
        "key_press(a);\ndelay(0);\nkey_release(a);\ndelay(80);\nmouse_move(5,6);\ndelay(0);\nbutton_left_press(5,6);\ndelay(0);\nbutton_left_release(5,6);\ndelay(230);\n"
    );
}

#[test]
fn mouse_filter_keeps_moves_out_of_the_log() {
    let signal = StopSignal::new();
    let mut app = App::new();
    app.set_mouse_filter(true);
    app.record();
    let mut others = 0;
    for i in 0..20u32 {
        let event = if i % 3 == 0 {
            others += 1;
            Event::KeyPress { key: Key::KeyB, elapse: i * 10, duration: 0 }
        } else {
            Event::MouseMove { x: 1, y: 2, elapse: i * 10, duration: 0 }
        };
        let (decision, _) = app.dispatch(event, &signal);
        if i % 3 == 0 {
            assert_eq!(decision, Decision::PassThroughAndRecord);
        } else {
            assert_eq!(decision, Decision::PassThrough);
        }
    }
    assert_eq!(others, 7);
    assert_eq!(app.events().len(), 7);
    assert_eq!(app.events()[0].duration(), 0);
    for event in &app.events()[1..] {
        assert_eq!(event.duration(), 30);
    }
}

#[test]
fn events_outside_of_a_recording_pass_through() {
    let signal = StopSignal::new();
    let mut app = App::new();
    let event = Event::KeyPress { key: Key::KeyA, elapse: 0, duration: 0 };
    assert_eq!(app.dispatch(event, &signal).0, Decision::PassThrough);
    assert!(!app.push(event));
    assert!(app.events().is_empty());
    app.set_data(Some(demo()));
    assert!(app.simulate().is_some());
    assert_eq!(app.dispatch(event, &signal).0, Decision::PassThrough);
    assert!(app.events().is_empty());
}

#[test]
fn stop_in_stop_changes_nothing() {
    let signal = StopSignal::new();
    let mut app = App::new();
    assert!(!app.stop(&signal));
    assert_eq!(app.state(), State::Stop);
    assert_eq!(signal.poll(), None);
}

#[test]
fn play_needs_a_macro() {
    let mut app = App::new();
    assert!(app.simulate().is_none());
    assert_eq!(app.state(), State::Stop);
}

#[test]
fn play_hot_key_starts_a_playback() {
    let signal = StopSignal::new();
    let mut app = App::new();
    app.set_data(Some(demo()));
    app.set_loop_times(LoopTimes::Limited(3));
    let (decision, player) = app.dispatch(release(Key::F11, 0), &signal);
    assert_eq!(decision, Decision::Swallow);
    let player = player.unwrap();
    assert_eq!(app.state(), State::Simulate);
    assert_eq!(player.remaining(), LoopTimes::Limited(3));
    assert_eq!(player.data().content, "key_press(a);\ndelay(0);\n");
    assert!(!player.failed());
    let (decision, second) = app.dispatch(release(Key::F11, 1), &signal);
    assert_eq!(decision, Decision::Swallow);
    assert!(second.is_none());
    let (decision, _) = app.dispatch(release(Key::F10, 2), &signal);
    assert_eq!(decision, Decision::Swallow);
    assert_eq!(app.state(), State::Simulate);
    app.playback_finished();
    assert_eq!(app.state(), State::Stop);
}

#[test]
fn stop_during_playback_signals_the_player() {
    let signal = StopSignal::new();
    let mut app = App::new();
    app.set_data(Some(demo()));
    app.set_loop_times(LoopTimes::Unlimited);
    let player = app.simulate().unwrap();
    assert!(player.wants_run(app.state()));
    let (decision, _) = app.dispatch(release(Key::F12, 0), &signal);
    assert_eq!(decision, Decision::Swallow);
    assert_eq!(app.state(), State::Stop);
    assert_eq!(signal.poll(), Some(true));
    assert_eq!(signal.poll(), None);
    assert!(!player.wants_run(app.state()));
    app.playback_finished();
    assert_eq!(app.state(), State::Stop);
}

#[test]
fn a_finished_playback_does_not_end_a_recording() {
    let mut app = App::new();
    app.record();
    app.playback_finished();
    assert_eq!(app.state(), State::Record);
}

#[test]
fn limited_player_runs_its_count() {
    let mut player = Player::new(demo(), LoopTimes::Limited(2));
    assert!(player.wants_run(State::Simulate));
    assert!(player.wants_run(State::Stop));
    player.finished_run(&Ok(()));
    assert_eq!(player.remaining(), LoopTimes::Limited(1));
    assert!(player.wants_run(State::Simulate));
    player.finished_run(&Ok(()));
    assert_eq!(player.remaining(), LoopTimes::Limited(0));
    assert!(!player.wants_run(State::Simulate));
    player.finished_run(&Ok(()));
    assert_eq!(player.remaining(), LoopTimes::Limited(0));
}

#[test]
fn player_without_runs_wants_none() {
    let player = Player::new(demo(), LoopTimes::Limited(0));
    assert!(!player.wants_run(State::Simulate));
}

#[test]
fn a_failed_run_ends_the_playback() {
    let mut player = Player::new(demo(), LoopTimes::Limited(5));
    player.finished_run(&Err(SimulateError::Default));
    assert!(player.failed());
    assert!(!player.wants_run(State::Simulate));
    let mut endless = Player::new(demo(), LoopTimes::Unlimited);
    assert!(endless.wants_run(State::Simulate));
    assert!(!endless.wants_run(State::Stop));
    endless.finished_run(&Ok(()));
    assert!(endless.wants_run(State::Simulate));
    endless.finished_run(&Err(SimulateError::Default));
    assert!(!endless.wants_run(State::Simulate));
}

#[test]
fn raw_events_outside_of_a_recording_are_stamped_with_zero() {
    let signal = StopSignal::new();
    let mut app = App::new();
    let (decision, player) = app.on_raw_event(RawEvent::KeyPress { key: Key::KeyA }, &signal);
    assert_eq!(decision, Decision::PassThrough);
    assert!(player.is_none());
    let (decision, _) = app.on_raw_event(RawEvent::KeyPress { key: Key::F10 }, &signal);
    assert_eq!(decision, Decision::Swallow);
    assert_eq!(app.state(), State::Stop);
}

#[test]
fn raw_events_during_a_recording_are_logged() {
    let signal = StopSignal::new();
    let mut app = App::new();
    app.on_raw_event(RawEvent::KeyRelease { key: Key::F10 }, &signal);
    assert_eq!(app.state(), State::Record);
    let (decision, _) = app.on_raw_event(RawEvent::MouseMove { x: 3, y: 4 }, &signal);
    assert_eq!(decision, Decision::PassThroughAndRecord);
    let (decision, _) = app.on_raw_event(RawEvent::KeyPress { key: Key::KeyC }, &signal);
    assert_eq!(decision, Decision::PassThroughAndRecord);
    assert_eq!(app.events().len(), 2);
    assert_eq!(app.events()[0].raw(), RawEvent::MouseMove { x: 3, y: 4 });
    assert_eq!(app.events()[0].duration(), 0);
    assert_eq!(app.events()[1].raw(), RawEvent::KeyPress { key: Key::KeyC });
    let first = app.events()[0].elapse();
    let second = app.events()[1].elapse();
    assert_eq!(app.events()[1].duration(), second.saturating_sub(first));
    app.on_raw_event(RawEvent::KeyRelease { key: Key::F12 }, &signal);
    assert_eq!(app.state(), State::Stop);
    assert!(app.data().is_some());
}

#[test]
fn the_end_of_the_hook_leaves_the_automation_at_rest() {
    let mut app = App::new();
    app.record();
    app.push(Event::KeyPress { key: Key::KeyA, elapse: 1, duration: 0 });
    app.grab_ended(&Err(GrabError::MissingDisplayError));
    assert_eq!(app.state(), State::Record);
    assert_eq!(app.events().len(), 1);
    app.grab_ended(&Ok(()));
    assert_eq!(app.state(), State::Stop);
    assert!(app.events().is_empty());
    assert!(app.data().is_none());
}

#[test]
fn the_controller_stays_well_formed() {
    let signal = StopSignal::new();
    let mut app = App::new();
    assert!(app.is_well_formed());
    app.set_mouse_filter(true);
    let stream = [
        release(Key::F12, 0),
        press(Key::F10, 1),
        release(Key::F10, 2),
        press(Key::KeyA, 50),
        Event::MouseMove { x: 1, y: 1, elapse: 60, duration: 9 },
        release(Key::KeyA, 40),
        release(Key::F11, 70),
        Event::Wheel { x: 0, y: 1, elapse: 90, duration: 3 },
        release(Key::F12, 100),
        release(Key::F11, 110),
        press(Key::KeyB, 120),
        release(Key::F10, 130),
        release(Key::F12, 140),
        release(Key::F12, 150),
    ];
    let states = [
        State::Stop,
        State::Stop,
        State::Record,
        State::Record,
        State::Record,
        State::Record,
        State::Record,
        State::Record,
        State::Stop,
        State::Simulate,
        State::Simulate,
        State::Simulate,
        State::Stop,
        State::Stop,
    ];
    for (event, state) in stream.iter().zip(states.iter()) {
        app.dispatch(*event, &signal);
        assert!(app.is_well_formed());
        assert_eq!(app.state(), *state);
    }
    assert_eq!(
        app.data().unwrap().content,
        "key_press(a);\ndelay(0);\nkey_release(a);\ndelay(0);\nwheel_down(1);\ndelay(50);\n"
    );
}

#[test]
fn logs_are_checked_entry_by_entry() {
    assert!(log_is_well_formed(&Vec::new()));
    let good = vec![press(Key::KeyA, 5), release(Key::KeyA, 5).set_duration(0)];
    assert!(log_is_well_formed(&good));
    let ordered = vec![press(Key::KeyA, 5), release(Key::KeyA, 25).set_duration(20)];
    assert!(log_is_well_formed(&ordered));
    let wrong_first = vec![press(Key::KeyA, 5).set_duration(5)];
    assert!(!log_is_well_formed(&wrong_first));
    let wrong_second = vec![press(Key::KeyA, 5), release(Key::KeyA, 25).set_duration(19)];
    assert!(!log_is_well_formed(&wrong_second));
    let backwards = vec![press(Key::KeyA, 25), release(Key::KeyA, 5).set_duration(20)];
    assert!(!log_is_well_formed(&backwards));
}
