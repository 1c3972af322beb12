use input_macro::clock::elapse_from_millis;
use input_macro::{clean_instant, init_instant, instant_elapse_millis, SessionAnchor};

#[test]
fn no_time_passes_outside_of_a_recording() {
    let anchor = SessionAnchor::new();
    assert!(!anchor.active());
    assert_eq!(instant_elapse_millis(&anchor), 0);
}

#[test]
fn the_anchor_is_set_and_cleared() {
    let mut anchor = SessionAnchor::new();
    init_instant(&mut anchor);
    assert!(anchor.active());
    let first = instant_elapse_millis(&anchor);
    let second = instant_elapse_millis(&anchor);
    assert!(first <= second);
    assert!(second < 60_000);
    clean_instant(&mut anchor);
    assert!(!anchor.active());
    assert_eq!(instant_elapse_millis(&anchor), 0);
    clean_instant(&mut anchor);
    assert!(!anchor.active());
}

#[test]
fn milliseconds_keep_their_low_32_bits() {
    assert_eq!(elapse_from_millis(0), 0);
    assert_eq!(elapse_from_millis(4294967295), u32::MAX);
    assert_eq!(elapse_from_millis(4294967296), 0);
    assert_eq!(elapse_from_millis(4294967296 + 5), 5);
    assert_eq!(elapse_from_millis(u128::MAX), u32::MAX);
}
