//! The keys held down during a frame.

use vstd::prelude::*;

verus! {

/// A key that steers the game.
#[derive(Clone, Copy, Debug, PartialEq, Eq, Structural)]
pub enum Key {
    /// Moves the paddle to the left.
    Left,
    /// Moves the paddle to the right.
    Right,
}

/// The keys held down in one frame.
pub struct Input {
    /// The held keys, in the order the window reported them.
    pub keys: Vec<Key>,
}

impl Input {
    /// An input holding `keys`.
    pub fn new(keys: Vec<Key>) -> (r: Input)
        ensures
            r.keys@ == keys@,
    {
        Input { keys }
    }

    /// Tells whether `key` is held.
    pub fn is_key_down(&self, key: Key) -> (r: bool)
        ensures
            r == self.keys@.contains(key),
    {
        let mut i: usize = 0;
        while i < self.keys.len()
            invariant
                i <= self.keys@.len(),
                forall|j: int| 0 <= j < i ==> self.keys@[j] != key,
            decreases self.keys@.len() - i,
        {
            if self.keys[i] == key {
                return true;
            }
            i = i + 1;
        }
        false
    }
}

} // verus!
