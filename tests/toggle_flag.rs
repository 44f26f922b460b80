use autoclicker::toggle::{KeyEvent, ToggleState, EV_KEY};

const F6: u16 = 64;

#[test]
fn starts_disabled() {
    assert!(!ToggleState::new().is_enabled());
}

#[test]
fn press_flips_release_and_repeat_do_not() {
    let mut s = ToggleState::new();
    assert!(s.apply_event(&KeyEvent::key(F6, 1), F6));
    assert!(s.is_enabled());
    assert!(!s.apply_event(&KeyEvent::key(F6, 2), F6));
    assert!(!s.apply_event(&KeyEvent::key(F6, 2), F6));
    assert!(!s.apply_event(&KeyEvent::key(F6, 0), F6));
    assert!(s.is_enabled());
    assert!(s.apply_event(&KeyEvent::key(F6, 1), F6));
    assert!(!s.is_enabled());
}

#[test]
fn other_keys_and_types_are_ignored() {
    let mut s = ToggleState::new();
    assert!(!s.apply_event(&KeyEvent::key(F6 + 1, 1), F6));
    assert!(!s.apply_event(&KeyEvent::new(EV_KEY + 1, F6, 1), F6));
    assert!(!s.apply_event(&KeyEvent::new(0, 0, 0), F6));
    assert!(!s.is_enabled());
}

#[test]
fn batch_flips_once_per_press() {
    let mut s = ToggleState::new();
    let events = vec![
        KeyEvent::key(F6, 1),
        KeyEvent::new(0, 0, 0),
        KeyEvent::key(F6, 2),
        KeyEvent::key(F6, 0),
        KeyEvent::key(F6, 1),
        KeyEvent::key(F6, 0),
        KeyEvent::key(F6, 1),
    ];
    s.apply_events(&events, F6);
    assert!(s.is_enabled());
    s.apply_events(&vec![KeyEvent::key(F6, 1), KeyEvent::key(F6, 0)], F6);
    assert!(!s.is_enabled());
}

#[test]
fn empty_batch_keeps_state() {
    let mut s = ToggleState::new();
    s.apply_events(&Vec::new(), F6);
    assert!(!s.is_enabled());
}
