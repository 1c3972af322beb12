use input_macro::{
    events_to_data, generate_script_filename, generate_script_filepath, Button, Data, Event, Key,
};

#[test]
fn new_data_holds_name_and_content() {
    let data = Data::new("demo".to_string(), "delay(1);\n".to_string());
    assert_eq!(data.name(), "demo");
    assert_eq!(data.script(), "delay(1);\n");
    assert_eq!(data.content, "delay(1);\n");
    let copy = data.clone();
    assert_eq!(copy.name(), "demo");
    assert_eq!(copy.content, data.content);
}

#[test]
fn empty_log_encodes_to_empty_script() {
    let data = events_to_data(&Vec::new());
    assert_eq!(data.name(), "undefined");
    assert_eq!(data.content, "");
}

#[test]
fn log_encodes_statement_by_statement() {
    let events = vec![
        Event::KeyPress { key: Key::KeyH, elapse: 0, duration: 0 },
        Event::KeyRelease { key: Key::KeyH, elapse: 80, duration: 80 },
        Event::MouseMove { x: 10, y: 20, elapse: 100, duration: 20 },
        Event::ButtonPress { button: Button::Middle, x: 10, y: 20, elapse: 130, duration: 30 },
        Event::Wheel { x: 0, y: 0, elapse: 140, duration: 10 },
        Event::Wheel { x: 0, y: -2, elapse: 150, duration: 10 },
    ];
    let data = events_to_data(&events);
    assert_eq!(data.name(), "undefined");
    assert_eq!(
        data.content,
        "key_press(h);\ndelay(0);\nkey_release(h);\ndelay(80);\nmouse_move(10,20);\ndelay(20);\nwheel_up(2);\ndelay(10);\n"
    );
    let mut joined = String::new();
    for event in &events {
        joined += &event.to_string();
    }
    assert_eq!(data.content, joined);
}

#[test]
fn script_file_names_count_from_one() {
    assert_eq!(generate_script_filename(0), "undefined-1.rhai");
    assert_eq!(generate_script_filename(9), "undefined-10.rhai");
    assert_eq!(generate_script_filepath(0), "scripts/undefined-1.rhai");
    assert_eq!(generate_script_filepath(41), "scripts/undefined-42.rhai");
}

#[test]
fn script_file_name_after_the_largest_count() {
    let expected = format!("scripts/undefined-{}.rhai", usize::MAX as u128 + 1);
    assert_eq!(generate_script_filepath(usize::MAX), expected);
}
