//! The motion of an egg: it hops on the spot.

use crate::location::Location;
use crate::movements::movement::{is_step_due, step_due, Movement};
use vstd::prelude::*;

verus! {

/// A hopping egg as a mathematical value.
pub struct EggHopView {
    pub start_location: Location,
    pub is_grounded: bool,
    pub last_update: int,
}

impl EggHopView {
    /// The generator after it was asked for a position at `now`: if a step
    /// is due, the egg leaves the ground or lands on it.
    pub open spec fn stepped(self, now: int) -> EggHopView {
        if step_due(self.last_update, now) {
            EggHopView { is_grounded: !self.is_grounded, last_update: now, ..self }
        } else {
            self
        }
    }

    /// Where the egg is: at its anchor when on the ground, one unit above
    /// it when in the air.
    pub open spec fn position(self) -> Location {
        if self.is_grounded {
            self.start_location
        } else {
            Location { x: self.start_location.x, y: (self.start_location.y + 1) as u32 }
        }
    }
}

/// A two-state oscillator over a fixed anchor.
#[derive(Debug, Copy, Clone, PartialEq)]
pub struct EggHopMovement {
    start_location: Location,
    is_grounded: bool,
    last_update: i64,
}

impl View for EggHopMovement {
    type V = EggHopView;

    closed spec fn view(&self) -> EggHopView {
        EggHopView {
            start_location: self.start_location,
            is_grounded: self.is_grounded,
            last_update: self.last_update as int,
        }
    }
}

impl EggHopMovement {
    #[verifier::type_invariant]
    closed spec fn has_room_above(self) -> bool {
        self.start_location.y < u32::MAX
    }

    /// An egg that rests on the ground at `start_location` from `now` on.
    pub fn new(start_location: Location, now: i64) -> (movement: EggHopMovement)
        requires
            start_location.y < u32::MAX,
        ensures
            movement@ == (EggHopView {
                start_location,
                is_grounded: true,
                last_update: now as int,
            }),
    {
        EggHopMovement { start_location, is_grounded: true, last_update: now }
    }

    fn try_update_state(&mut self, now: i64)
        ensures
            final(self)@ == old(self)@.stepped(now as int),
    {
        proof {
            use_type_invariant(&*self);
        }
        if is_step_due(self.last_update, now) {
            self.is_grounded = !self.is_grounded;
            self.last_update = now;
        }
    }
}

impl Movement for EggHopMovement {
    fn next_position(&mut self, now: i64) -> (position: Location)
        ensures
            final(self)@ == old(self)@.stepped(now as int),
            position == final(self)@.position(),
            position.x == old(self)@.start_location.x,
            final(self)@.is_grounded ==> position.y == old(self)@.start_location.y,
            !final(self)@.is_grounded ==> position.y == old(self)@.start_location.y + 1,
    {
        self.try_update_state(now);
        proof {
            use_type_invariant(&*self);
        }
        if self.is_grounded {
            self.start_location
        } else {
            let mut location = self.start_location;
            location.y = location.y + 1;
            location
        }
    }
}

} // verus!
