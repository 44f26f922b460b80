//! The on/off flag that a toggle key flips, and the raw key events that flip it.

use vstd::prelude::*;

verus! {

/// Event type of key events (`EV_KEY` in the Linux input protocol).
pub const EV_KEY: u16 = 1;

/// Value of a key event that reports a press (0 is a release, 2 a repeat).
pub const KEY_PRESSED: i32 = 1;

/// One raw input event as an input source delivers it.
#[derive(Clone, Copy, Debug, PartialEq, Eq, Structural)]
pub struct KeyEvent {
    pub kind: u16,
    pub code: u16,
    pub value: i32,
}

/// Is `e` the press edge of the toggle key `key`?
pub open spec fn is_toggle_press(e: KeyEvent, key: u16) -> bool {
    e.kind == EV_KEY && e.code == key && e.value == KEY_PRESSED
}

/// How many press edges of `key` the events hold.
pub open spec fn press_count(events: Seq<KeyEvent>, key: u16) -> nat
    decreases events.len(),
{
    if events.len() == 0 {
        0
    } else {
        press_count(events.drop_last(), key) + if is_toggle_press(events.last(), key) {
            1nat
        } else {
            0nat
        }
    }
}

/// The flag after `events`, starting from `start`: flipped once per press edge.
pub open spec fn toggled_after(start: bool, events: Seq<KeyEvent>, key: u16) -> bool {
    if press_count(events, key) % 2 == 0 {
        start
    } else {
        !start
    }
}

/// The shared enabled/disabled flag; it starts out disabled.
#[derive(Clone, Copy, Debug, PartialEq, Eq, Structural)]
pub struct ToggleState {
    pub enabled: bool,
}

impl KeyEvent {
    pub fn new(kind: u16, code: u16, value: i32) -> (r: KeyEvent)
        ensures
            r == (KeyEvent { kind, code, value }),
    {
        KeyEvent { kind, code, value }
    }

    /// A key event of type `EV_KEY`.
    pub fn key(code: u16, value: i32) -> (r: KeyEvent)
        ensures
            r == (KeyEvent { kind: EV_KEY, code, value }),
    {
        KeyEvent { kind: EV_KEY, code, value }
    }

    pub fn is_toggle_press(&self, key: u16) -> (r: bool)
        ensures
            r == is_toggle_press(*self, key),
    {
        self.kind == EV_KEY && self.code == key && self.value == KEY_PRESSED
    }
}

impl ToggleState {
    pub fn new() -> (r: ToggleState)
        ensures
            !r.enabled,
    {
        ToggleState { enabled: false }
    }

    pub fn is_enabled(&self) -> (r: bool)
        ensures
            r == self.enabled,
    {
        self.enabled
    }

    /// Applies one event: a press edge of `key` inverts the flag, anything
    /// else leaves it. Returns whether the flag flipped.
    pub fn apply_event(&mut self, e: &KeyEvent, key: u16) -> (flipped: bool)
        ensures
            flipped == is_toggle_press(*e, key),
            final(self).enabled == (old(self).enabled != flipped),
    {
        let flipped = e.is_toggle_press(key);
        if flipped {
            self.enabled = !self.enabled;
        }
        flipped
    }

    /// Applies a batch of events in order.
    pub fn apply_events(&mut self, events: &Vec<KeyEvent>, key: u16)
        ensures
            final(self).enabled == toggled_after(old(self).enabled, events@, key),
    {
        let ghost start = self.enabled;
        let mut i: usize = 0;
        while i < events.len()
            invariant
                i <= events@.len(),
                self.enabled == toggled_after(start, events@.subrange(0, i as int), key),
            decreases events@.len() - i,
        {
            proof {
                lemma_toggle_step(start, events@.subrange(0, i as int), events@[i as int], key);
                assert(events@.subrange(0, i as int).push(events@[i as int])
                    =~= events@.subrange(0, i + 1));
            }
            self.apply_event(&events[i], key);
            i = i + 1;
        }
        proof {
            assert(events@.subrange(0, i as int) =~= events@);
        }
    }
}

/// One more event flips the flag exactly when it is a press edge of the toggle key.
pub proof fn lemma_toggle_step(start: bool, events: Seq<KeyEvent>, e: KeyEvent, key: u16)
    ensures
        toggled_after(start, events.push(e), key) == if is_toggle_press(e, key) {
            !toggled_after(start, events, key)
        } else {
            toggled_after(start, events, key)
        },
{
    assert(events.push(e).drop_last() =~= events);
}

/// Release and repeat events never move the flag, wherever they come.
pub proof fn lemma_non_press_keeps_state(start: bool, events: Seq<KeyEvent>, e: KeyEvent, key: u16)
    requires
        e.value != KEY_PRESSED,
    ensures
        toggled_after(start, events.push(e), key) == toggled_after(start, events, key),
{
    lemma_toggle_step(start, events, e, key);
}

/// The flag after two runs of events is the flag after the first run, carried
/// through the second.
pub proof fn lemma_toggle_concat(start: bool, a: Seq<KeyEvent>, b: Seq<KeyEvent>, key: u16)
    ensures
        toggled_after(start, a + b, key) == toggled_after(toggled_after(start, a, key), b, key),
{
    lemma_press_count_concat(a, b, key);
}

/// Press edges of two runs of events add up.
pub proof fn lemma_press_count_concat(a: Seq<KeyEvent>, b: Seq<KeyEvent>, key: u16)
    ensures
        press_count(a + b, key) == press_count(a, key) + press_count(b, key),
    decreases b.len(),
{
    if b.len() == 0 {
        assert(a + b =~= a);
    } else {
        lemma_press_count_concat(a, b.drop_last(), key);
        assert((a + b).drop_last() =~= a + b.drop_last());
        assert((a + b).last() == b.last());
    }
}

} // verus!
