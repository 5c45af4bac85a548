//! The motion of a kid or an adult: it crosses the playground diagonally
//! and turns at the edges.

use crate::chance::random_in_range;
use crate::location::{shifted, Location, Playground};
use crate::movements::movement::{is_step_due, step_due, Movement};
use vstd::prelude::*;

verus! {

/// How far the starting place may lie from the place asked for, along each
/// axis and either way.
pub const START_SPREAD: i32 = 30;

/// Half the side of a grown pet's sprite, by which the starting place is
/// moved so that the sprite is centred on it.
pub const SPRITE_HALF: u32 = 12;

/// One coordinate and the way it is heading, after one step between the
/// edge `low` and the edge `high`, the last place at which the sprite still
/// fits: at or before `low` and past `high` the heading turns, then the
/// coordinate moves by one, held at 0 where it would turn negative.
pub open spec fn bounced(at: int, forward: bool, low: int, high: int) -> (int, bool) {
    let heading = if at <= low || at > high {
        !forward
    } else {
        forward
    };
    (
        if heading {
            at + 1
        } else {
            shifted(at, -1)
        },
        heading,
    )
}

/// Whether a coordinate and its heading are such that the sprite never gets
/// further than one unit past the edges `low` and `high`: the coordinate is
/// no further out than that, and where it is out it is heading so as to
/// turn back with the next step.
pub open spec fn within_reach(at: int, forward: bool, low: int, high: int) -> bool {
    &&& 0 <= at
    &&& low - 1 <= at <= high + 1
    &&& at == high + 1 ==> forward
    &&& at < low ==> !forward
}

/// A bouncing sprite as a mathematical value.
pub struct DvdBounceView {
    pub x: int,
    pub y: int,
    pub x_direction_toggle: bool,
    pub y_direction_toggle: bool,
    pub area: Playground,
    pub last_update: int,
    pub shape_width: int,
    pub shape_height: int,
}

impl DvdBounceView {
    /// A sprite of the given extent that sets out at `now`, heading towards
    /// growing coordinates, from `start_location` moved by `x_offset` and
    /// `y_offset` and then back by half a sprite; coordinates that would
    /// turn negative are held at 0.
    pub open spec fn fresh(
        start_location: Location,
        x_offset: int,
        y_offset: int,
        area: Playground,
        shape: (u32, u32),
        now: int,
    ) -> DvdBounceView {
        DvdBounceView {
            x: shifted(start_location.x as int, x_offset - SPRITE_HALF),
            y: shifted(start_location.y as int, y_offset - SPRITE_HALF),
            x_direction_toggle: true,
            y_direction_toggle: true,
            area,
            last_update: now,
            shape_width: shape.0 as int,
            shape_height: shape.1 as int,
        }
    }

    /// The last column at which the sprite still fits into the playground.
    pub open spec fn x_limit(self) -> int {
        self.area.spec_right() - self.shape_width
    }

    /// The last row at which the sprite still fits into the playground.
    pub open spec fn y_limit(self) -> int {
        self.area.spec_bottom() - self.shape_height
    }

    /// The sprite lies inside the playground with all its extent.
    pub open spec fn fully_inside(self) -> bool {
        &&& self.area.spec_left() <= self.x <= self.x_limit()
        &&& self.area.spec_top() <= self.y <= self.y_limit()
    }

    /// The sprite lies no further than one unit outside the playground, and
    /// where it is outside it is about to turn back.
    pub open spec fn near_inside(self) -> bool {
        &&& within_reach(self.x, self.x_direction_toggle, self.area.spec_left(), self.x_limit())
        &&& within_reach(self.y, self.y_direction_toggle, self.area.spec_top(), self.y_limit())
    }

    /// Where the sprite is.
    pub open spec fn position(self) -> Location {
        Location { x: self.x as u32, y: self.y as u32 }
    }

    /// The sprite after one step.
    pub open spec fn moved(self, now: int) -> DvdBounceView {
        let (x, x_direction_toggle) = bounced(
            self.x,
            self.x_direction_toggle,
            self.area.spec_left(),
            self.x_limit(),
        );
        let (y, y_direction_toggle) = bounced(
            self.y,
            self.y_direction_toggle,
            self.area.spec_top(),
            self.y_limit(),
        );
        DvdBounceView { x, y, x_direction_toggle, y_direction_toggle, last_update: now, ..self }
    }

    /// The sprite after it was asked for a position at `now`: one step
    /// further if a step is due.
    pub open spec fn stepped(self, now: int) -> DvdBounceView {
        if step_due(self.last_update, now) {
            self.moved(now)
        } else {
            self
        }
    }

    /// The sprite after it was asked for a position at each of `times` in
    /// turn.
    pub open spec fn stepped_through(self, times: Seq<int>) -> DvdBounceView
        decreases times.len(),
    {
        if times.len() == 0 {
            self
        } else {
            self.stepped_through(times.drop_last()).stepped(times.last())
        }
    }
}

/// A bounded two-dimensional reflection.
#[derive(Debug, Copy, Clone, PartialEq)]
pub struct DvdBounceMovement {
    location: Location,
    x_direction_toggle: bool,
    y_direction_toggle: bool,
    area: Playground,
    last_update: i64,
    shape_width: u32,
    shape_height: u32,
}

impl View for DvdBounceMovement {
    type V = DvdBounceView;

    closed spec fn view(&self) -> DvdBounceView {
        DvdBounceView {
            x: self.location.x as int,
            y: self.location.y as int,
            x_direction_toggle: self.x_direction_toggle,
            y_direction_toggle: self.y_direction_toggle,
            area: self.area,
            last_update: self.last_update as int,
            shape_width: self.shape_width as int,
            shape_height: self.shape_height as int,
        }
    }
}

impl DvdBounceMovement {
    #[verifier::type_invariant]
    closed spec fn well_formed(self) -> bool {
        &&& self.shape_width <= self.area.spec_right()
        &&& self.shape_height <= self.area.spec_bottom()
        &&& self.location.x == u32::MAX ==> self.x_direction_toggle
        &&& self.location.y == u32::MAX ==> self.y_direction_toggle
    }

    /// A sprite of the extent `shape` that sets out at `now` from
    /// `start_location` moved by the given offsets. The sprite must not be
    /// larger than the playground reaches, and the place must lie within
    /// what a coordinate can express.
    pub fn with_offset(
        start_location: Location,
        x_offset: i32,
        y_offset: i32,
        area: Playground,
        shape: (u32, u32),
        now: i64,
    ) -> (movement: DvdBounceMovement)
        requires
            shape.0 <= area.spec_right(),
            shape.1 <= area.spec_bottom(),
            start_location.x + x_offset - SPRITE_HALF < u32::MAX,
            start_location.y + y_offset - SPRITE_HALF < u32::MAX,
        ensures
            movement@ == DvdBounceView::fresh(
                start_location,
                x_offset as int,
                y_offset as int,
                area,
                shape,
                now as int,
            ),
    {
        let new_x: i64 = start_location.x as i64 + x_offset as i64 - SPRITE_HALF as i64;
        let new_y: i64 = start_location.y as i64 + y_offset as i64 - SPRITE_HALF as i64;
        let location = Location {
            x: if new_x < 0 {
                0
            } else {
                new_x as u32
            },
            y: if new_y < 0 {
                0
            } else {
                new_y as u32
            },
        };
        DvdBounceMovement {
            location,
            x_direction_toggle: true,
            y_direction_toggle: true,
            area,
            last_update: now,
            shape_width: shape.0,
            shape_height: shape.1,
        }
    }

    /// A sprite of the extent `shape` that sets out at `now` from a place
    /// picked at random no further than [`START_SPREAD`] from
    /// `start_location` along each axis.
    pub fn new(
        start_location: Location,
        area: Playground,
        shape: (u32, u32),
        now: i64,
    ) -> (movement: DvdBounceMovement)
        requires
            shape.0 <= area.spec_right(),
            shape.1 <= area.spec_bottom(),
            start_location.x + START_SPREAD - SPRITE_HALF < u32::MAX,
            start_location.y + START_SPREAD - SPRITE_HALF < u32::MAX,
        ensures
            exists|x_offset: int, y_offset: int|
                -START_SPREAD <= x_offset <= START_SPREAD && -START_SPREAD <= y_offset
                    <= START_SPREAD && movement@ == DvdBounceView::fresh(
                    start_location,
                    x_offset,
                    y_offset,
                    area,
                    shape,
                    now as int,
                ),
    {
        let x_rng: i32 = random_in_range(-START_SPREAD, START_SPREAD);
        let y_rng: i32 = random_in_range(-START_SPREAD, START_SPREAD);
        let movement = DvdBounceMovement::with_offset(
            start_location,
            x_rng,
            y_rng,
            area,
            shape,
            now,
        );
        assert(-START_SPREAD <= x_rng <= START_SPREAD && -START_SPREAD <= y_rng <= START_SPREAD
            && movement@ == DvdBounceView::fresh(
            start_location,
            x_rng as int,
            y_rng as int,
            area,
            shape,
            now as int,
        ));
        movement
    }

    fn update_state(&mut self, now: i64)
        ensures
            final(self)@ == old(self)@.stepped(now as int),
    {
        proof {
            use_type_invariant(&*self);
        }
        if is_step_due(self.last_update, now) {
            let mut x_direction_toggle = self.x_direction_toggle;
            let mut y_direction_toggle = self.y_direction_toggle;
            if self.location.x <= self.area.left() || self.location.x > self.area.right()
                - self.shape_width {
                x_direction_toggle = !x_direction_toggle;
            }
            if self.location.y <= self.area.top() || self.location.y > self.area.bottom()
                - self.shape_height {
                y_direction_toggle = !y_direction_toggle;
            }
            let new_x: u32 = if x_direction_toggle {
                self.location.x + 1
            } else {
                self.location.x.saturating_sub(1)
            };
            let new_y: u32 = if y_direction_toggle {
                self.location.y + 1
            } else {
                self.location.y.saturating_sub(1)
            };
            *self = DvdBounceMovement {
                location: Location::new(new_x, new_y),
                x_direction_toggle,
                y_direction_toggle,
                area: self.area,
                last_update: now,
                shape_width: self.shape_width,
                shape_height: self.shape_height,
            };
        }
    }
}

impl Movement for DvdBounceMovement {
    fn next_position(&mut self, now: i64) -> (position: Location)
        ensures
            final(self)@ == old(self)@.stepped(now as int),
            position == final(self)@.position(),
            position.x == final(self)@.x,
            position.y == final(self)@.y,
    {
        self.update_state(now);
        self.location
    }
}

/// A sprite that lies fully inside the playground lies near inside it,
/// whichever way it is heading.
pub proof fn lemma_inside_is_near_inside(sprite: DvdBounceView)
    requires
        sprite.fully_inside(),
    ensures
        sprite.near_inside(),
{
}

/// A sprite that fits into the playground and lies near inside it stays
/// near inside it with every request for a position: it never gets further
/// than one unit past an edge.
pub proof fn lemma_bounce_stays_near_inside(sprite: DvdBounceView, now: int)
    requires
        sprite.near_inside(),
        sprite.area.spec_left() <= sprite.x_limit(),
        sprite.area.spec_top() <= sprite.y_limit(),
    ensures
        sprite.stepped(now).near_inside(),
        sprite.stepped(now).area == sprite.area,
        sprite.stepped(now).shape_width == sprite.shape_width,
        sprite.stepped(now).shape_height == sprite.shape_height,
{
}

/// From any state in which the sprite lies fully inside a playground that
/// it fits into, and through any number of requests for a position, the
/// place returned is never negative, never more than one unit before the
/// near edges and never more than one unit past the last place at which the
/// sprite fits.
pub proof fn lemma_bounce_is_confined(sprite: DvdBounceView, times: Seq<int>)
    requires
        sprite.fully_inside(),
    ensures
        ({
            let later = sprite.stepped_through(times);
            &&& later.near_inside()
            &&& later.area == sprite.area
            &&& later.shape_width == sprite.shape_width
            &&& later.shape_height == sprite.shape_height
            &&& 0 <= later.x <= sprite.x_limit() + 1
            &&& 0 <= later.y <= sprite.y_limit() + 1
            &&& sprite.area.spec_left() - 1 <= later.x
            &&& sprite.area.spec_top() - 1 <= later.y
        }),
    decreases times.len(),
{
    if times.len() > 0 {
        lemma_bounce_is_confined(sprite, times.drop_last());
        lemma_bounce_stays_near_inside(sprite.stepped_through(times.drop_last()), times.last());
    }
}

} // verus!
