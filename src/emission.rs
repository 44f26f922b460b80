//! What the emission loop does in one iteration, as a list of actions for
//! the caller to carry out against a synthetic target.

use vstd::prelude::*;

verus! {

/// How long the button is held down in each click, in milliseconds.
pub const HOLD_MS: u64 = 10;

/// How long a disabled loop waits before looking at the flag again, in milliseconds.
pub const IDLE_MS: u64 = 50;

/// One step for the synthetic target or the clock.
#[derive(Clone, Copy, Debug, PartialEq, Eq, Structural)]
pub enum Action {
    /// Change the state of mouse button `code`.
    Button { code: u16, pressed: bool },
    /// Flush what was emitted so that the receiver applies it.
    Commit,
    /// Sleep this many milliseconds.
    Sleep { ms: u64 },
}

/// The emission settings, fixed at startup.
#[derive(Clone, Copy, Debug, PartialEq, Eq, Structural)]
pub struct ClickConfig {
    /// Time from one press to the next, in milliseconds.
    pub interval_ms: u64,
    /// Code of the mouse button to click.
    pub button: u16,
}

/// The sleep after the release: what is left of the interval after the hold.
pub open spec fn post_release_ms(interval_ms: u64) -> u64 {
    if interval_ms > HOLD_MS {
        (interval_ms - HOLD_MS) as u64
    } else {
        0
    }
}

/// One full click: press, commit, hold, release, commit, rest.
pub open spec fn cycle_actions(config: ClickConfig) -> Seq<Action> {
    seq![
        Action::Button { code: config.button, pressed: true },
        Action::Commit,
        Action::Sleep { ms: HOLD_MS },
        Action::Button { code: config.button, pressed: false },
        Action::Commit,
        Action::Sleep { ms: post_release_ms(config.interval_ms) },
    ]
}

/// One iteration of the loop, given the flag as read at its start.
pub open spec fn iteration_actions(enabled: bool, config: ClickConfig) -> Seq<Action> {
    if enabled {
        cycle_actions(config)
    } else {
        seq![Action::Sleep { ms: IDLE_MS }]
    }
}

/// Total sleep in a run of actions, in milliseconds.
pub open spec fn sleep_total(actions: Seq<Action>) -> int
    decreases actions.len(),
{
    if actions.len() == 0 {
        0
    } else {
        sleep_total(actions.drop_last()) + match actions.last() {
            Action::Sleep { ms } => ms as int,
            _ => 0int,
        }
    }
}

/// How many button changes of the given direction a run of actions holds.
pub open spec fn button_count(actions: Seq<Action>, pressed: bool) -> nat
    decreases actions.len(),
{
    if actions.len() == 0 {
        0
    } else {
        button_count(actions.drop_last(), pressed) + match actions.last() {
            Action::Button { code, pressed: p } => if p == pressed {
                1nat
            } else {
                0nat
            },
            _ => 0nat,
        }
    }
}

impl ClickConfig {
    pub fn new(interval_ms: u64, button: u16) -> (r: ClickConfig)
        ensures
            r == (ClickConfig { interval_ms, button }),
    {
        ClickConfig { interval_ms, button }
    }
}

/// The sleep after the release commit: `max(0, interval - HOLD_MS)`.
pub fn post_release_sleep_ms(interval_ms: u64) -> (r: u64)
    ensures
        r == post_release_ms(interval_ms),
        r as int == if interval_ms as int > HOLD_MS as int {
            interval_ms as int - HOLD_MS as int
        } else {
            0
        },
{
    if interval_ms > HOLD_MS {
        interval_ms - HOLD_MS
    } else {
        0
    }
}

/// The actions of one iteration: a full click cycle when the flag was seen
/// set, else one idle sleep. The flag is read once, before the cycle.
pub fn plan_iteration(enabled: bool, config: &ClickConfig) -> (r: Vec<Action>)
    ensures
        r@ == iteration_actions(enabled, *config),
{
    let mut r: Vec<Action> = Vec::new();
    if enabled {
        r.push(Action::Button { code: config.button, pressed: true });
        r.push(Action::Commit);
        r.push(Action::Sleep { ms: HOLD_MS });
        r.push(Action::Button { code: config.button, pressed: false });
        r.push(Action::Commit);
        r.push(Action::Sleep { ms: post_release_sleep_ms(config.interval_ms) });
        proof {
            assert(r@ =~= cycle_actions(*config));
        }
    } else {
        r.push(Action::Sleep { ms: IDLE_MS });
        proof {
            assert(r@ =~= seq![Action::Sleep { ms: IDLE_MS }]);
        }
    }
    r
}

/// An enabled iteration holds exactly one press and then exactly one release
/// of the configured button, each followed at once by a commit.
pub proof fn lemma_cycle_shape(config: ClickConfig)
    ensures
        ({
            let a = iteration_actions(true, config);
            &&& button_count(a, true) == 1
            &&& button_count(a, false) == 1
            &&& a[0] == (Action::Button { code: config.button, pressed: true })
            &&& a[1] == Action::Commit
            &&& a[3] == (Action::Button { code: config.button, pressed: false })
            &&& a[4] == Action::Commit
            &&& forall|i: int| 0 <= i < a.len() && a[i] is Button ==> (#[trigger] a[i]->Button_code)
                == config.button
        }),
{
    let a = cycle_actions(config);
    reveal_with_fuel(button_count, 7);
    assert(a.drop_last().drop_last().drop_last().drop_last().drop_last().drop_last() =~= Seq::<
        Action,
    >::empty());
}

/// The hold between the press commit and the release commit is `HOLD_MS`,
/// whatever the interval.
pub proof fn lemma_hold_independent_of_interval(c1: ClickConfig, c2: ClickConfig)
    ensures
        iteration_actions(true, c1)[2] == (Action::Sleep { ms: HOLD_MS }),
        iteration_actions(true, c1)[2] == iteration_actions(true, c2)[2],
{
}

/// An enabled cycle sleeps `max(interval, HOLD_MS)` in all, so cycles start
/// one interval apart, or back to back when the interval is below the hold.
pub proof fn lemma_cycle_duration(config: ClickConfig)
    ensures
        sleep_total(iteration_actions(true, config)) == if config.interval_ms > HOLD_MS {
            config.interval_ms as int
        } else {
            HOLD_MS as int
        },
        sleep_total(iteration_actions(true, config)) >= config.interval_ms,
{
    let a = cycle_actions(config);
    reveal_with_fuel(sleep_total, 7);
    assert(a.drop_last().drop_last().drop_last().drop_last().drop_last().drop_last() =~= Seq::<
        Action,
    >::empty());
}

/// A disabled iteration emits nothing and only waits the idle quantum.
pub proof fn lemma_disabled_emits_nothing(config: ClickConfig)
    ensures
        button_count(iteration_actions(false, config), true) == 0,
        button_count(iteration_actions(false, config), false) == 0,
        sleep_total(iteration_actions(false, config)) == IDLE_MS,
{
    let a = iteration_actions(false, config);
    reveal_with_fuel(button_count, 2);
    reveal_with_fuel(sleep_total, 2);
    assert(a.drop_last() =~= Seq::<Action>::empty());
}

} // verus!
