use autoclicker::emission::{
    plan_iteration, post_release_sleep_ms, Action, ClickConfig, HOLD_MS, IDLE_MS,
};
use autoclicker::keycode::BTN_LEFT;

fn sleeps(actions: &[Action]) -> u64 {
    actions
        .iter()
        .map(|a| match a {
            Action::Sleep { ms } => *ms,
            _ => 0,
        })
        .sum()
}

#[test]
fn post_release_sleep_values() {
    assert_eq!(post_release_sleep_ms(100), 90);
    assert_eq!(post_release_sleep_ms(10), 0);
    assert_eq!(post_release_sleep_ms(5), 0);
    assert_eq!(post_release_sleep_ms(0), 0);
    assert_eq!(post_release_sleep_ms(11), 1);
    assert_eq!(post_release_sleep_ms(u64::MAX), u64::MAX - 10);
}

#[test]
fn scenario_full_cycle_at_100ms() {
    let c = ClickConfig::new(100, BTN_LEFT);
    let plan = plan_iteration(true, &c);
    assert_eq!(
        plan,
        vec![
            Action::Button { code: BTN_LEFT, pressed: true },
            Action::Commit,
            Action::Sleep { ms: 10 },
            Action::Button { code: BTN_LEFT, pressed: false },
            Action::Commit,
            Action::Sleep { ms: 90 },
        ]
    );
    assert!(sleeps(&plan) >= 100);
    assert_eq!(sleeps(&plan[..3]), 10);
}

#[test]
fn scenario_interval_below_hold() {
    let c = ClickConfig::new(5, BTN_LEFT);
    let plan = plan_iteration(true, &c);
    assert_eq!(plan[5], Action::Sleep { ms: 0 });
    assert_eq!(sleeps(&plan), HOLD_MS);
}

#[test]
fn hold_does_not_depend_on_interval() {
    for interval in [0u64, 5, 10, 100, 2500] {
        let plan = plan_iteration(true, &ClickConfig::new(interval, 0x111));
        assert_eq!(plan[2], Action::Sleep { ms: HOLD_MS });
    }
}

#[test]
fn one_press_one_release_each_committed() {
    let plan = plan_iteration(true, &ClickConfig::new(40, 0x112));
    let presses: Vec<usize> = (0..plan.len())
        .filter(|&i| plan[i] == Action::Button { code: 0x112, pressed: true })
        .collect();
    let releases: Vec<usize> = (0..plan.len())
        .filter(|&i| plan[i] == Action::Button { code: 0x112, pressed: false })
        .collect();
    assert_eq!(presses, vec![0]);
    assert_eq!(releases, vec![3]);
    assert_eq!(plan[presses[0] + 1], Action::Commit);
    assert_eq!(plan[releases[0] + 1], Action::Commit);
}

#[test]
fn disabled_iteration_only_idles() {
    let plan = plan_iteration(false, &ClickConfig::new(100, BTN_LEFT));
    assert_eq!(plan, vec![Action::Sleep { ms: IDLE_MS }]);
    assert_eq!(IDLE_MS, 50);
}
