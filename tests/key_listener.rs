use autoclicker::emission::{plan_iteration, Action, ClickConfig};
use autoclicker::keycode::BTN_LEFT;
use autoclicker::listener::{KeyListener, ListenerAction, ListenerEvent, ListenerPhase};
use autoclicker::toggle::{KeyEvent, ToggleState};

const F6: u16 = 64;

fn listening() -> (KeyListener, ToggleState) {
    let mut l = KeyListener::new(F6);
    let mut s = ToggleState::new();
    assert_eq!(l.step(&ListenerEvent::Start, &mut s), ListenerAction::Grab);
    assert_eq!(l.step(&ListenerEvent::GrabResult(true), &mut s), ListenerAction::Read);
    assert_eq!(l.phase, ListenerPhase::Listening);
    (l, s)
}

fn clicks(plan: &[Action]) -> usize {
    plan.iter()
        .filter(|a| matches!(a, Action::Button { pressed: true, .. }))
        .count()
}

#[test]
fn phases_follow_grab_and_reads() {
    let mut l = KeyListener::new(F6);
    let mut s = ToggleState::new();
    assert_eq!(l.phase, ListenerPhase::Idle);
    assert_eq!(l.step(&ListenerEvent::ReadFailed, &mut s), ListenerAction::Ignore);
    assert_eq!(l.phase, ListenerPhase::Idle);
    assert_eq!(l.step(&ListenerEvent::Start, &mut s), ListenerAction::Grab);
    assert_eq!(l.phase, ListenerPhase::Grabbing);
    let (mut l, mut s) = listening();
    assert_eq!(l.step(&ListenerEvent::ReadFailed, &mut s), ListenerAction::Exit);
    assert_eq!(l.phase, ListenerPhase::Stopped);
}

#[test]
fn refused_grab_stops_for_good() {
    let mut l = KeyListener::new(F6);
    let mut s = ToggleState::new();
    l.step(&ListenerEvent::Start, &mut s);
    assert_eq!(l.step(&ListenerEvent::GrabResult(false), &mut s), ListenerAction::Exit);
    assert_eq!(l.phase, ListenerPhase::Stopped);
    let batch = ListenerEvent::Batch(vec![KeyEvent::key(F6, 1)]);
    assert_eq!(l.step(&batch, &mut s), ListenerAction::Exit);
    assert!(!s.is_enabled());
}

#[test]
fn scenario_toggle_on_then_off() {
    let (mut l, mut s) = listening();
    let config = ClickConfig::new(100, BTN_LEFT);
    assert_eq!(clicks(&plan_iteration(s.is_enabled(), &config)), 0);
    let press = ListenerEvent::Batch(vec![KeyEvent::key(F6, 1), KeyEvent::key(F6, 0)]);
    assert_eq!(l.step(&press, &mut s), ListenerAction::Read);
    assert!(s.is_enabled());
    assert_eq!(clicks(&plan_iteration(s.is_enabled(), &config)), 1);
    assert_eq!(clicks(&plan_iteration(s.is_enabled(), &config)), 1);
    l.step(&press, &mut s);
    assert!(!s.is_enabled());
    assert_eq!(clicks(&plan_iteration(s.is_enabled(), &config)), 0);
}

#[test]
fn scenario_no_keyboard_never_clicks() {
    let s = ToggleState::new();
    let config = ClickConfig::new(100, BTN_LEFT);
    for _ in 0..10 {
        assert_eq!(clicks(&plan_iteration(s.is_enabled(), &config)), 0);
    }
}
