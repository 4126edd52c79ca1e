//! The sixteen-key hexadecimal keypad.
//!
//! The keys are level-triggered: the machine observes which keys are down at
//! the moment it looks, never transitions.

use vstd::prelude::*;

verus! {

/// Number of keys on the keypad.
pub const KEY_COUNT: usize = 16;

pub struct Keypad {
    pub keys: [bool; 16],
}

/// No key at or after `from` is down.
pub open spec fn none_pressed_from(keys: Seq<bool>, from: int) -> bool {
    forall|k: int| from <= k < keys.len() ==> !keys[k]
}

/// The lowest-numbered key that is down, scanning upwards from `from`.
pub open spec fn first_pressed_from(keys: Seq<bool>, from: int) -> Option<u8>
    decreases keys.len() - from,
{
    if from < 0 || from >= keys.len() {
        None
    } else if keys[from] {
        Some(from as u8)
    } else {
        first_pressed_from(keys, from + 1)
    }
}

/// The lowest-numbered key that is down, if any.
pub open spec fn first_pressed(keys: Seq<bool>) -> Option<u8> {
    first_pressed_from(keys, 0)
}

/// `first_pressed_from` finds a key exactly when one is down, and the key it
/// finds is the lowest such.
pub proof fn lemma_first_pressed_from(keys: Seq<bool>, from: int)
    requires
        0 <= from,
        keys.len() <= 256,
    ensures
        match first_pressed_from(keys, from) {
            Some(k) => from <= k < keys.len() && keys[k as int] && forall|j: int|
                from <= j < k ==> !keys[j],
            None => none_pressed_from(keys, from),
        },
    decreases keys.len() - from,
{
    if from < keys.len() && !keys[from] {
        lemma_first_pressed_from(keys, from + 1);
    }
}

impl View for Keypad {
    type V = Seq<bool>;

    open spec fn view(&self) -> Seq<bool> {
        self.keys@
    }
}

impl Keypad {
    /// A keypad with every key up.
    pub fn new() -> (k: Self)
        ensures
            k@.len() == 16,
            none_pressed_from(k@, 0),
    {
        Keypad { keys: [false; 16] }
    }

    /// Releases every key.
    pub fn reset(&mut self)
        ensures
            final(self)@.len() == 16,
            none_pressed_from(final(self)@, 0),
    {
        self.keys = [false; 16];
    }

    /// Records that `key` is down (`state == true`) or up.
    pub fn set_key(&mut self, key: usize, state: bool)
        requires
            key < KEY_COUNT,
        ensures
            final(self)@ == old(self)@.update(key as int, state),
    {
        self.keys[key] = state;
    }

    /// Whether `key` is down.
    pub fn is_pressed(&self, key: usize) -> (down: bool)
        requires
            key < KEY_COUNT,
        ensures
            down == self@[key as int],
    {
        self.keys[key]
    }

    /// Scans the keys in index order and returns the first one that is down.
    pub fn first_pressed(&self) -> (found: Option<u8>)
        ensures
            found == first_pressed(self@),
    {
        let mut k: usize = 0;
        while k < KEY_COUNT
            invariant
                k <= 16,
                self@.len() == 16,
                first_pressed(self@) == first_pressed_from(self@, k as int),
            decreases 16 - k,
        {
            if self.keys[k] {
                return Some(k as u8);
            }
            k += 1;
        }
        None
    }
}

} // verus!
