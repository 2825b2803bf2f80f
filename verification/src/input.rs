//! Key state, fed by the event loop and read by the game.
//!
//! The windowing shell translates each keyboard event into a plain
//! key code and a pressed flag; this table remembers the latest state
//! per key. A key that no event has mentioned yet counts as released.

use vstd::prelude::*;
use std::collections::HashMap;

verus! {

/// Latest pressed/released state per key code.
pub struct Input {
    keys: HashMap<u32, bool>,
}

impl Input {
    /// The remembered state: the map from key code to the last flag
    /// recorded for it.
    pub closed spec fn view(&self) -> Map<u32, bool> {
        self.keys@
    }

    /// A table with no key state recorded.
    pub fn new() -> (r: Self)
        ensures
            r@ == Map::<u32, bool>::empty(),
    {
        Self { keys: HashMap::new() }
    }

    /// Record a key event: `key` is now pressed or released.
    pub fn update(&mut self, key: u32, pressed: bool)
        ensures
            final(self)@ == old(self)@.insert(key, pressed),
    {
        proof {
            broadcast use vstd::std_specs::hash::group_hash_axioms;
        }
        self.keys.insert(key, pressed);
    }

    /// Whether `key` is currently held: the last state recorded for
    /// it, or released if none ever was.
    pub fn pressed(&self, key: u32) -> (r: bool)
        ensures
            r == if self@.contains_key(key) { self@[key] } else { false },
    {
        proof {
            broadcast use vstd::std_specs::hash::group_hash_axioms;
        }
        match self.keys.get(&key) {
            Some(v) => *v,
            None => false,
        }
    }
}

/// Reading a key back gives exactly what was last recorded for it,
/// and recording one key does not disturb another.
pub proof fn lemma_last_record_wins(m: Map<u32, bool>, key: u32, other: u32, pressed: bool)
    requires
        key != other,
    ensures
        m.insert(key, pressed)[key] == pressed,
        m.insert(key, pressed).contains_key(other) == m.contains_key(other),
        m.contains_key(other) ==> m.insert(key, pressed)[other] == m[other],
{
}

} // verus!
