use input_macro::control::Command;
use input_macro::transition::{accepts, finish, push, record, simulate, stop, unhook};
use input_macro::{
    Data, Event, HotKey, Key, LoopTimes, SessionAnchor, State, StopSignal,
};

fn key_press(key: Key, elapse: u32) -> Event {
    Event::KeyPress { key, elapse, duration: 0 }
}

fn key_release(key: Key, elapse: u32) -> Event {
    Event::KeyRelease { key, elapse, duration: 0 }
}

#[test]
fn commands_of_events() {
    let hotkey = HotKey::default();
    assert_eq!(hotkey.command(&key_release(Key::F10, 0)), Command::Record);
    assert_eq!(hotkey.command(&key_release(Key::F11, 0)), Command::Simulate);
    assert_eq!(hotkey.command(&key_release(Key::F12, 0)), Command::Stop);
    assert_eq!(hotkey.command(&key_press(Key::F10, 0)), Command::Swallow);
    assert_eq!(hotkey.command(&key_press(Key::F11, 0)), Command::Swallow);
    assert_eq!(hotkey.command(&key_press(Key::F12, 0)), Command::Swallow);
    assert_eq!(hotkey.command(&key_press(Key::F9, 0)), Command::Offer);
    assert_eq!(hotkey.command(&key_release(Key::F9, 0)), Command::Offer);
    assert_eq!(
        hotkey.command(&Event::MouseMove { x: 0, y: 0, elapse: 0, duration: 0 }),
        Command::Offer
    );
}

#[test]
fn only_a_recording_accepts_and_the_filter_keeps_moves_out() {
    let key = key_press(Key::KeyA, 0);
    let movement = Event::MouseMove { x: 0, y: 0, elapse: 0, duration: 0 };
    assert!(accepts(State::Record, false, &key));
    assert!(accepts(State::Record, true, &key));
    assert!(accepts(State::Record, false, &movement));
    assert!(!accepts(State::Record, true, &movement));
    for state in [State::Stop, State::Simulate] {
        assert!(!accepts(state, false, &key));
        assert!(!accepts(state, false, &movement));
    }
}

#[test]
fn push_derives_the_duration_from_the_last_entry() {
    let mut events = Vec::new();
    push(&mut events, key_press(Key::KeyA, 40).set_duration(99));
    push(&mut events, key_release(Key::KeyA, 100));
    push(&mut events, key_press(Key::KeyB, 70));
    assert_eq!(
        events,
        vec![
            key_press(Key::KeyA, 40),
            key_release(Key::KeyA, 100).set_duration(60),
            key_press(Key::KeyB, 70),
        ]
    );
}

#[test]
fn record_begins_from_stop_only() {
    let mut state = State::Stop;
    let mut anchor = SessionAnchor::new();
    let mut events = vec![key_press(Key::KeyA, 1)];
    assert!(record(&mut state, &mut anchor, &mut events));
    assert_eq!(state, State::Record);
    assert!(anchor.active());
    assert!(events.is_empty());
    events.push(key_press(Key::KeyA, 1));
    assert!(!record(&mut state, &mut anchor, &mut events));
    assert_eq!(state, State::Record);
    assert_eq!(events.len(), 1);
    let mut playing = State::Simulate;
    let mut idle = SessionAnchor::new();
    assert!(!record(&mut playing, &mut idle, &mut events));
    assert_eq!(playing, State::Simulate);
    assert!(!idle.active());
}

#[test]
fn stop_ends_a_recording_and_encodes_its_log() {
    let signal = StopSignal::new();
    let mut state = State::Stop;
    let mut anchor = SessionAnchor::new();
    let mut events = Vec::new();
    let mut data = Some(Data::new("old".to_string(), "delay(1);\n".to_string()));
    record(&mut state, &mut anchor, &mut events);
    assert!(!stop(&mut state, &mut anchor, &mut events, &mut data, &signal));
    assert_eq!(state, State::Stop);
    assert!(!anchor.active());
    assert_eq!(data.as_ref().unwrap().name(), "old");
    record(&mut state, &mut anchor, &mut events);
    push(&mut events, key_press(Key::KeyA, 5));
    assert!(!stop(&mut state, &mut anchor, &mut events, &mut data, &signal));
    assert_eq!(state, State::Stop);
    assert!(events.is_empty());
    assert_eq!(data.as_ref().unwrap().name(), "undefined");
    assert_eq!(data.as_ref().unwrap().content, "key_press(a);\ndelay(0);\n");
    assert_eq!(signal.poll(), None);
    assert!(!stop(&mut state, &mut anchor, &mut events, &mut data, &signal));
    assert_eq!(signal.poll(), None);
}

#[test]
fn stop_asks_a_playback_to_end() {
    let signal = StopSignal::new();
    let mut state = State::Stop;
    let mut anchor = SessionAnchor::new();
    let mut events = Vec::new();
    let mut data = Some(Data::new("demo".to_string(), "delay(1);\n".to_string()));
    let player = simulate(&mut state, &data, LoopTimes::Unlimited).unwrap();
    assert_eq!(state, State::Simulate);
    assert_eq!(player.remaining(), LoopTimes::Unlimited);
    assert_eq!(player.data().content, "delay(1);\n");
    assert!(simulate(&mut state, &data, LoopTimes::Unlimited).is_none());
    assert!(stop(&mut state, &mut anchor, &mut events, &mut data, &signal));
    assert_eq!(state, State::Stop);
    assert_eq!(signal.poll(), Some(true));
    assert_eq!(data.as_ref().unwrap().name(), "demo");
    assert!(!player.wants_run(state));
}

#[test]
fn simulate_needs_a_macro_and_rest() {
    let mut state = State::Stop;
    assert!(simulate(&mut state, &None, LoopTimes::Limited(2)).is_none());
    assert_eq!(state, State::Stop);
    let data = Some(Data::new("demo".to_string(), String::new()));
    let mut recording = State::Record;
    assert!(simulate(&mut recording, &data, LoopTimes::Limited(2)).is_none());
    assert_eq!(recording, State::Record);
}

#[test]
fn finish_ends_a_playback_only() {
    let mut state = State::Simulate;
    finish(&mut state);
    assert_eq!(state, State::Stop);
    finish(&mut state);
    assert_eq!(state, State::Stop);
    let mut recording = State::Record;
    finish(&mut recording);
    assert_eq!(recording, State::Record);
}

#[test]
fn unhook_leaves_the_automation_at_rest() {
    let mut state = State::Stop;
    let mut anchor = SessionAnchor::new();
    let mut events = Vec::new();
    record(&mut state, &mut anchor, &mut events);
    push(&mut events, key_press(Key::KeyA, 5));
    unhook(&mut state, &mut anchor, &mut events, true);
    assert_eq!(state, State::Record);
    assert!(anchor.active());
    assert_eq!(events.len(), 1);
    unhook(&mut state, &mut anchor, &mut events, false);
    assert_eq!(state, State::Stop);
    assert!(!anchor.active());
    assert!(events.is_empty());
}
