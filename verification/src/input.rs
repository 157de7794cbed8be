//! The set of keys that were pressed since it was last cleared.

use crate::text::lemma_code_point_fits;
use std::collections::HashSet;
use vstd::prelude::*;

verus! {

broadcast use vstd::std_specs::hash::group_hash_axioms;

/// Collects key presses between two ticks. Keys are stored by code point.
pub struct InputManager {
    pressed_key: HashSet<u32>,
}

impl View for InputManager {
    type V = Set<char>;

    /// The keys that count as pressed.
    closed spec fn view(&self) -> Set<char> {
        Set::new(|key: char| self.pressed_key@.contains(key as u32))
    }
}

impl InputManager {
    /// A manager with no key pressed.
    pub fn new() -> (input: Self)
        ensures
            input@ == Set::<char>::empty(),
    {
        let input = InputManager { pressed_key: HashSet::new() };
        assert(input@ =~= Set::<char>::empty());
        input
    }

    /// Whether `key` was pressed since the last `clear`.
    pub fn is_pressed(&self, key: char) -> (pressed: bool)
        ensures
            pressed == self@.contains(key),
    {
        let code: u32 = key as u32;
        self.pressed_key.contains(&code)
    }

    /// Adds every key of `queued` to the pressed keys.
    pub fn update(&mut self, queued: &[char])
        ensures
            final(self)@ == old(self)@.union(queued@.to_set()),
    {
        let mut i: usize = 0;
        while i < queued.len()
            invariant
                i <= queued.len(),
                self@ == old(self)@.union(queued@.take(i as int).to_set()),
            decreases queued.len() - i,
        {
            let key: char = queued[i];
            let ghost before = self@;
            proof {
                lemma_code_point_fits(key);
            }
            self.pressed_key.insert(key as u32);
            assert(self@ =~= before.insert(key)) by {
                assert forall|other: char| self@.contains(other) <==> before.insert(key).contains(
                    other,
                ) by {
                    lemma_code_point_fits(other);
                }
            }
            assert(queued@.take(i + 1) =~= queued@.take(i as int).push(key));
            proof {
                queued@.take(i as int).lemma_push_to_set_commute(key);
            }
            assert(self@ =~= old(self)@.union(queued@.take(i + 1).to_set()));
            i += 1;
        }
        assert(queued@.take(i as int) =~= queued@);
    }

    /// Forgets every pressed key.
    pub fn clear(&mut self)
        ensures
            final(self)@ == Set::<char>::empty(),
    {
        self.pressed_key.clear();
        assert(self@ =~= Set::<char>::empty());
    }
}

} // verus!
