//! The motion of a baby: small steps to and fro around an anchor.

use crate::location::{shifted, Location};
use crate::movements::movement::{is_step_due, step_due, Movement};
use vstd::prelude::*;

verus! {

/// How far a baby strays from its anchor along the x axis, either way.
pub const X_REACH: i32 = 10;

/// How far a baby strays from its anchor along the y axis, either way.
pub const Y_REACH: i32 = 2;

/// Half the side of a baby's sprite, by which the anchor is moved so that
/// the sprite is centred on the place asked for.
pub const SPRITE_HALF: u32 = 7;

/// One offset of the walk and the way it is heading, after one step
/// between the bounds `-reach` and `reach`: at a bound the heading turns,
/// then the offset moves by one.
pub open spec fn paced(offset: int, forward: bool, reach: int) -> (int, bool) {
    let heading = if offset == reach || offset == -reach {
        !forward
    } else {
        forward
    };
    (
        if heading {
            offset + 1
        } else {
            offset - 1
        },
        heading,
    )
}

/// Whether an offset and its heading are such that the walk stays between
/// `-reach` and `reach`: the offset lies between them, and at a bound it
/// has arrived there, not turned away yet.
pub open spec fn in_stride(offset: int, forward: bool, reach: int) -> bool {
    &&& -reach <= offset <= reach
    &&& offset == reach ==> forward
    &&& offset == -reach ==> !forward
}

/// A baby's walk as a mathematical value.
pub struct SmallStepsView {
    /// The anchor of the walk: the place asked for, moved by half a sprite.
    pub initial_location: Location,
    pub x_move: int,
    pub y_move: int,
    pub x_toggle: bool,
    pub y_toggle: bool,
    pub last_update: int,
}

impl SmallStepsView {
    /// A walk that starts at `now`, centred on `initial_location`.
    pub open spec fn fresh(initial_location: Location, now: int) -> SmallStepsView {
        SmallStepsView {
            initial_location: Location {
                x: shifted(initial_location.x as int, -(SPRITE_HALF as int)) as u32,
                y: shifted(initial_location.y as int, -(SPRITE_HALF as int)) as u32,
            },
            x_move: 0,
            y_move: 0,
            x_toggle: true,
            y_toggle: true,
            last_update: now,
        }
    }

    /// Both offsets are within their bounds and heading so as to stay
    /// there.
    pub open spec fn valid(self) -> bool {
        &&& in_stride(self.x_move, self.x_toggle, X_REACH as int)
        &&& in_stride(self.y_move, self.y_toggle, Y_REACH as int)
    }

    /// The walk after one step.
    pub open spec fn moved(self, now: int) -> SmallStepsView {
        let (x_move, x_toggle) = paced(self.x_move, self.x_toggle, X_REACH as int);
        let (y_move, y_toggle) = paced(self.y_move, self.y_toggle, Y_REACH as int);
        SmallStepsView { x_move, y_move, x_toggle, y_toggle, last_update: now, ..self }
    }

    /// The walk after it was asked for a position at `now`: one step
    /// further if a step is due.
    pub open spec fn stepped(self, now: int) -> SmallStepsView {
        if step_due(self.last_update, now) {
            self.moved(now)
        } else {
            self
        }
    }

    /// Where the baby is: at the anchor moved by the two offsets, each
    /// coordinate held at 0 where it would turn negative.
    pub open spec fn position(self) -> Location {
        Location {
            x: shifted(self.initial_location.x as int, self.x_move) as u32,
            y: shifted(self.initial_location.y as int, self.y_move) as u32,
        }
    }
}

/// A bounded walk around an anchor.
#[derive(Debug, Copy, Clone, PartialEq)]
pub struct SmallStepsMovement {
    initial_location: Location,
    x_move: i32,
    y_move: i32,
    x_toggle: bool,
    y_toggle: bool,
    last_update: i64,
}

impl View for SmallStepsMovement {
    type V = SmallStepsView;

    closed spec fn view(&self) -> SmallStepsView {
        SmallStepsView {
            initial_location: self.initial_location,
            x_move: self.x_move as int,
            y_move: self.y_move as int,
            x_toggle: self.x_toggle,
            y_toggle: self.y_toggle,
            last_update: self.last_update as int,
        }
    }
}

impl SmallStepsMovement {
    #[verifier::type_invariant]
    closed spec fn well_formed(self) -> bool {
        &&& self@.valid()
        &&& self.initial_location.x + X_REACH <= u32::MAX
        &&& self.initial_location.y + Y_REACH <= u32::MAX
    }

    /// A walk that starts at `now`, centred on `initial_location`. The
    /// place must leave room for the walk within what a coordinate can
    /// express.
    pub fn new(initial_location: Location, now: i64) -> (movement: SmallStepsMovement)
        requires
            initial_location.x - SPRITE_HALF + X_REACH <= u32::MAX,
            initial_location.y - SPRITE_HALF + Y_REACH <= u32::MAX,
        ensures
            movement@ == SmallStepsView::fresh(initial_location, now as int),
            movement@.valid(),
    {
        let updated_location = Location {
            x: initial_location.x.saturating_sub(SPRITE_HALF),
            y: initial_location.y.saturating_sub(SPRITE_HALF),
        };
        SmallStepsMovement {
            initial_location: updated_location,
            x_move: 0,
            y_move: 0,
            x_toggle: true,
            y_toggle: true,
            last_update: now,
        }
    }

    fn update_state(&mut self, now: i64)
        ensures
            final(self)@ == old(self)@.stepped(now as int),
    {
        proof {
            use_type_invariant(&*self);
        }
        if is_step_due(self.last_update, now) {
            let mut x_toggle = self.x_toggle;
            let mut y_toggle = self.y_toggle;
            if self.x_move == X_REACH || self.x_move == -X_REACH {
                x_toggle = !x_toggle;
            }
            if self.y_move == Y_REACH || self.y_move == -Y_REACH {
                y_toggle = !y_toggle;
            }
            let x_move: i32 = if x_toggle {
                self.x_move + 1
            } else {
                self.x_move - 1
            };
            let y_move: i32 = if y_toggle {
                self.y_move + 1
            } else {
                self.y_move - 1
            };
            *self = SmallStepsMovement {
                initial_location: self.initial_location,
                x_move,
                y_move,
                x_toggle,
                y_toggle,
                last_update: now,
            };
        }
    }

    /// Where the baby is: at the anchor moved by the two offsets, each
    /// coordinate held at 0 where it would turn negative.
    pub fn get_location(&self) -> (position: Location)
        ensures
            position == self@.position(),
            position.x == shifted(self@.initial_location.x as int, self@.x_move),
            position.y == shifted(self@.initial_location.y as int, self@.y_move),
    {
        proof {
            use_type_invariant(self);
        }
        let mut new_x: i64 = self.initial_location.x as i64 + self.x_move as i64;
        let mut new_y: i64 = self.initial_location.y as i64 + self.y_move as i64;
        if new_x < 0 {
            new_x = 0;
        }
        if new_y < 0 {
            new_y = 0;
        }
        Location::new(new_x as u32, new_y as u32)
    }
}

impl Movement for SmallStepsMovement {
    fn next_position(&mut self, now: i64) -> (position: Location)
        ensures
            final(self)@ == old(self)@.stepped(now as int),
            final(self)@.valid(),
            position == final(self)@.position(),
            position.x == shifted(final(self)@.initial_location.x as int, final(self)@.x_move),
            position.y == shifted(final(self)@.initial_location.y as int, final(self)@.y_move),
    {
        self.update_state(now);
        proof {
            use_type_invariant(&*self);
        }
        self.get_location()
    }
}

/// A walk that is in stride stays in stride: the offsets never leave their
/// bounds, and so the baby never strays further than [`X_REACH`] and
/// [`Y_REACH`] from its anchor.
pub proof fn lemma_walk_stays_in_stride(walk: SmallStepsView, now: int)
    requires
        walk.valid(),
    ensures
        walk.stepped(now).valid(),
        walk.stepped(now).initial_location == walk.initial_location,
        -X_REACH <= walk.stepped(now).x_move <= X_REACH,
        -Y_REACH <= walk.stepped(now).y_move <= Y_REACH,
{
}

} // verus!
