//! Choosing the keyboard to listen on among the input sources that the
//! system lists.

use vstd::prelude::*;
use crate::text::{contains_chars, contains_seq, lower_chars, lowered, same_text};

verus! {

/// What discovery reads of one input source.
#[derive(Clone, Debug)]
pub struct SourceInfo {
    /// The source's display name.
    pub name: String,
    /// Whether it advertises key events.
    pub has_key_events: bool,
}

/// The name substrings that mark a keyboard, in lower case.
pub open spec fn keyboard_word() -> Seq<char> {
    seq!['k', 'e', 'y', 'b', 'o', 'a', 'r', 'd']
}

pub open spec fn kbd_word() -> Seq<char> {
    seq!['k', 'b', 'd']
}

/// Does the name, ignoring ASCII case, mark a keyboard?
pub open spec fn looks_like_keyboard(name: Seq<char>) -> bool {
    contains_chars(lower_chars(name), keyboard_word()) || contains_chars(
        lower_chars(name),
        kbd_word(),
    )
}

/// May a source with this name and capability be listened on, when this
/// process names its own synthetic device `own_name`?
pub open spec fn qualifies(name: Seq<char>, has_key_events: bool, own_name: Seq<char>) -> bool {
    has_key_events && looks_like_keyboard(name) && name != own_name
}

impl SourceInfo {
    pub fn new(name: String, has_key_events: bool) -> (r: SourceInfo)
        ensures
            r.name@ == name@,
            r.has_key_events == has_key_events,
    {
        SourceInfo { name, has_key_events }
    }

    /// Whether this source may be chosen.
    pub fn qualifies(&self, own_name: &str) -> (r: bool)
        ensures
            r == qualifies(self.name@, self.has_key_events, own_name@),
    {
        if !self.has_key_events {
            return false;
        }
        let name = lowered(self.name.as_str());
        let keyboard = vec!['k', 'e', 'y', 'b', 'o', 'a', 'r', 'd'];
        let kbd = vec!['k', 'b', 'd'];
        proof {
            assert(keyboard@ =~= keyboard_word());
            assert(kbd@ =~= kbd_word());
        }
        if !contains_seq(&name, &keyboard) && !contains_seq(&name, &kbd) {
            return false;
        }
        !same_text(self.name.as_str(), own_name)
    }
}

/// The index of the first source that qualifies, in the order given, or
/// `None` when none does.
pub fn discover(sources: &Vec<SourceInfo>, own_name: &str) -> (r: Option<usize>)
    ensures
        match r {
            Some(i) => {
                &&& i < sources@.len()
                &&& qualifies(sources@[i as int].name@, sources@[i as int].has_key_events, own_name@)
                &&& forall|j: int|
                    0 <= j < i ==> !qualifies(
                        #[trigger] sources@[j].name@,
                        sources@[j].has_key_events,
                        own_name@,
                    )
            },
            None => forall|j: int|
                0 <= j < sources@.len() ==> !qualifies(
                    #[trigger] sources@[j].name@,
                    sources@[j].has_key_events,
                    own_name@,
                ),
        },
{
    let mut i: usize = 0;
    while i < sources.len()
        invariant
            i <= sources@.len(),
            forall|j: int|
                0 <= j < i ==> !qualifies(
                    #[trigger] sources@[j].name@,
                    sources@[j].has_key_events,
                    own_name@,
                ),
        decreases sources@.len() - i,
    {
        if sources[i].qualifies(own_name) {
            return Some(i);
        }
        i = i + 1;
    }
    None
}

/// A source that bears this process's own device name is never chosen, even
/// when it otherwise looks like a keyboard.
pub proof fn lemma_own_device_never_selected(
    sources: Seq<SourceInfo>,
    own_name: Seq<char>,
    i: int,
)
    requires
        0 <= i < sources.len(),
        sources[i].name@ == own_name,
    ensures
        !qualifies(sources[i].name@, sources[i].has_key_events, own_name),
{
}

} // verus!
