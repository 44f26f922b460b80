//! The globals that a compositor advertises, as they come in, and the
//! lookup of a capability among them.

use vstd::prelude::*;
use crate::text::same_text;

verus! {

/// Interface name of the compositor's virtual-pointer manager.
pub const VIRTUAL_POINTER_INTERFACE: &'static str = "zwlr_virtual_pointer_manager_v1";

/// One advertised global.
#[derive(Debug)]
pub struct GlobalEntry {
    /// The numeric name the compositor gave it.
    pub name: u32,
    /// Its interface name.
    pub interface: String,
    /// The interface version offered.
    pub version: u32,
}

/// The globals seen so far, in the order they were advertised.
#[derive(Debug)]
pub struct GlobalList {
    pub entries: Vec<GlobalEntry>,
}

/// The position of the first entry with interface `iface`, if any.
pub open spec fn first_with_interface(entries: Seq<GlobalEntry>, iface: Seq<char>) -> Option<int>
    decreases entries.len(),
{
    if entries.len() == 0 {
        None
    } else {
        match first_with_interface(entries.drop_last(), iface) {
            Some(i) => Some(i),
            None => if entries.last().interface@ == iface {
                Some(entries.len() - 1)
            } else {
                None
            },
        }
    }
}

proof fn lemma_first_with_interface(entries: Seq<GlobalEntry>, iface: Seq<char>, i: int)
    requires
        0 <= i <= entries.len(),
        forall|j: int| 0 <= j < i ==> (#[trigger] entries[j]).interface@ != iface,
    ensures
        i == entries.len() ==> first_with_interface(entries, iface) is None,
        i < entries.len() && entries[i].interface@ == iface ==> first_with_interface(entries, iface)
            == Some(i),
    decreases entries.len(),
{
    if entries.len() > 0 {
        let prefix = entries.drop_last();
        if i == entries.len() {
            lemma_first_with_interface(prefix, iface, i - 1);
        } else {
            lemma_first_with_interface(prefix, iface, i);
            if i == entries.len() - 1 {
                lemma_first_with_interface(prefix, iface, i);
            }
        }
    }
}

impl GlobalList {
    pub fn new() -> (r: GlobalList)
        ensures
            r.entries@.len() == 0,
    {
        GlobalList { entries: Vec::new() }
    }

    /// Records one advertised global after those seen before.
    pub fn record(&mut self, name: u32, interface: String, version: u32)
        ensures
            final(self).entries@.len() == old(self).entries@.len() + 1,
            final(self).entries@.subrange(0, old(self).entries@.len() as int)
                == old(self).entries@,
            final(self).entries@.last().name == name,
            final(self).entries@.last().interface@ == interface@,
            final(self).entries@.last().version == version,
    {
        self.entries.push(GlobalEntry { name, interface, version });
        proof {
            assert(self.entries@.subrange(0, old(self).entries@.len() as int)
                =~= old(self).entries@);
        }
    }

    /// The position of the first global whose interface is `iface`.
    pub fn find(&self, iface: &str) -> (r: Option<usize>)
        ensures
            match r {
                Some(i) => Some(i as int) == first_with_interface(self.entries@, iface@),
                None => first_with_interface(self.entries@, iface@) is None,
            },
            match r {
                Some(i) => i < self.entries@.len() && self.entries@[i as int].interface@ == iface@,
                None => forall|j: int|
                    0 <= j < self.entries@.len() ==> (#[trigger] self.entries@[j]).interface@
                        != iface@,
            },
    {
        let mut i: usize = 0;
        while i < self.entries.len()
            invariant
                i <= self.entries@.len(),
                forall|j: int| 0 <= j < i ==> (#[trigger] self.entries@[j]).interface@ != iface@,
            decreases self.entries@.len() - i,
        {
            if same_text(self.entries[i].interface.as_str(), iface) {
                proof {
                    lemma_first_with_interface(self.entries@, iface@, i as int);
                }
                return Some(i);
            }
            i = i + 1;
        }
        proof {
            lemma_first_with_interface(self.entries@, iface@, i as int);
        }
        None
    }
}

} // verus!
