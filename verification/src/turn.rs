//! The turn counter: one discrete simulation step per explicit end-turn
//! command.

use vstd::prelude::*;

verus! {

pub struct Turn {
    pub turn_number: u32,
}

impl Turn {
    pub fn new(turn_number: u32) -> (t: Self)
        ensures
            t.turn_number == turn_number,
    {
        Turn { turn_number }
    }

    pub fn get_turn_number(&self) -> (n: u32)
        ensures
            n == self.turn_number,
    {
        self.turn_number
    }

    pub fn next_turn(&mut self)
        requires
            old(self).turn_number < u32::MAX,
        ensures
            final(self).turn_number == old(self).turn_number + 1,
    {
        self.turn_number = self.turn_number + 1;
    }

    pub fn reset_turn(&mut self)
        ensures
            final(self).turn_number == 1,
    {
        self.turn_number = 1;
    }
}

} // verus!
