//! What all motion generators have in common.

use crate::growth::GrowthStage;
use crate::location::{shifted, Location, Playground};
use crate::movements::dvd_bounce::{DvdBounceMovement, DvdBounceView, START_SPREAD};
use crate::movements::egg_hop::{EggHopMovement, EggHopView};
use crate::movements::small_steps::{SmallStepsMovement, SmallStepsView};
use vstd::prelude::*;

verus! {

/// The time that must have passed since a generator last moved before it
/// moves again, in milliseconds.
pub const STEP_INTERVAL_MS: i64 = 500;

/// Whether more than [`STEP_INTERVAL_MS`] milliseconds lie between
/// `last_update` and `now`.
pub open spec fn step_due(last_update: int, now: int) -> bool {
    now - last_update > STEP_INTERVAL_MS
}

/// Whether more than [`STEP_INTERVAL_MS`] milliseconds lie between
/// `last_update` and `now`.
pub fn is_step_due(last_update: i64, now: i64) -> (due: bool)
    ensures
        due == step_due(last_update as int, now as int),
{
    now as i128 - last_update as i128 > STEP_INTERVAL_MS as i128
}

/// A motion generator.
pub trait Movement {
    /// Lets the generator move if a step is due at `now`, and returns the
    /// place it has then reached.
    fn next_position(&mut self, now: i64) -> Location;
}

/// Any of the motion generators, as a mathematical value.
pub enum MovementView {
    EggHop(EggHopView),
    SmallSteps(SmallStepsView),
    DvdBounce(DvdBounceView),
}

impl MovementView {
    /// The generator after it was asked for a position at `now`.
    pub open spec fn stepped(self, now: int) -> MovementView {
        match self {
            MovementView::EggHop(movement) => MovementView::EggHop(movement.stepped(now)),
            MovementView::SmallSteps(movement) => MovementView::SmallSteps(movement.stepped(now)),
            MovementView::DvdBounce(movement) => MovementView::DvdBounce(movement.stepped(now)),
        }
    }

    /// The column and the row at which the generator has arrived, as
    /// numbers: the anchor or one row above it for an egg, the anchor moved
    /// by the offsets and held at 0 for a baby, the place of the sprite for
    /// a bounce.
    pub open spec fn place(self) -> (int, int) {
        match self {
            MovementView::EggHop(movement) => (
                movement.start_location.x as int,
                if movement.is_grounded {
                    movement.start_location.y as int
                } else {
                    movement.start_location.y + 1
                },
            ),
            MovementView::SmallSteps(movement) => (
                shifted(movement.initial_location.x as int, movement.x_move),
                shifted(movement.initial_location.y as int, movement.y_move),
            ),
            MovementView::DvdBounce(movement) => (movement.x, movement.y),
        }
    }

    /// Where the generator has arrived.
    pub open spec fn position(self) -> Location {
        match self {
            MovementView::EggHop(movement) => movement.position(),
            MovementView::SmallSteps(movement) => movement.position(),
            MovementView::DvdBounce(movement) => movement.position(),
        }
    }

    /// The generator that suits a pet at `growth_stage` in the playground
    /// `area`, set up at `now` around the centre of the playground: a hop
    /// for an egg, small steps for a baby, and for a kid or an adult with
    /// a sprite of the extent `shape` a bounce that sets out at the given
    /// offsets from the centre.
    pub open spec fn suited(
        growth_stage: GrowthStage,
        area: Playground,
        shape: (u32, u32),
        x_offset: int,
        y_offset: int,
        now: int,
    ) -> MovementView {
        match growth_stage {
            GrowthStage::Egg => MovementView::EggHop(
                EggHopView {
                    start_location: area.spec_center(),
                    is_grounded: true,
                    last_update: now,
                },
            ),
            GrowthStage::Baby => MovementView::SmallSteps(
                SmallStepsView::fresh(area.spec_center(), now),
            ),
            _ => MovementView::DvdBounce(
                DvdBounceView::fresh(area.spec_center(), x_offset, y_offset, area, shape, now),
            ),
        }
    }
}

/// Whether a sprite of the extent `shape` can be moved about the playground
/// `area` at `growth_stage`: a kid's or an adult's sprite must not be larger
/// than the playground reaches.
pub open spec fn can_move_in(
    growth_stage: GrowthStage,
    area: Playground,
    shape: (u32, u32),
) -> bool {
    growth_stage == GrowthStage::Kid || growth_stage == GrowthStage::Adult ==> shape.0
        <= area.spec_right() && shape.1 <= area.spec_bottom()
}

/// Any of the motion generators.
#[derive(Debug, Copy, Clone, PartialEq)]
pub enum MovementWrapper {
    EggHop(EggHopMovement),
    SmallSteps(SmallStepsMovement),
    DvdBounce(DvdBounceMovement),
}

impl View for MovementWrapper {
    type V = MovementView;

    open spec fn view(&self) -> MovementView {
        match self {
            MovementWrapper::EggHop(movement) => MovementView::EggHop(movement@),
            MovementWrapper::SmallSteps(movement) => MovementView::SmallSteps(movement@),
            MovementWrapper::DvdBounce(movement) => MovementView::DvdBounce(movement@),
        }
    }
}

impl Movement for MovementWrapper {
    fn next_position(&mut self, now: i64) -> (position: Location)
        ensures
            final(self)@ == old(self)@.stepped(now as int),
            position == final(self)@.position(),
            position.x == final(self)@.place().0,
            position.y == final(self)@.place().1,
    {
        match self {
            MovementWrapper::EggHop(movement) => movement.next_position(now),
            MovementWrapper::SmallSteps(movement) => movement.next_position(now),
            MovementWrapper::DvdBounce(movement) => movement.next_position(now),
        }
    }
}

/// Whether `shape` can be moved about `area` at `growth_stage`.
pub fn fits_for_movement(
    growth_stage: GrowthStage,
    area: Playground,
    shape: (u32, u32),
) -> (fits: bool)
    ensures
        fits == can_move_in(growth_stage, area, shape),
{
    match growth_stage {
        GrowthStage::Egg => true,
        GrowthStage::Baby => true,
        _ => shape.0 <= area.right() && shape.1 <= area.bottom(),
    }
}

/// The generator that suits a pet at `growth_stage`, with the bounce of a
/// kid or an adult setting out at the given offsets from the centre of the
/// playground.
pub fn movement_with_offset(
    growth_stage: GrowthStage,
    area: Playground,
    shape: (u32, u32),
    x_offset: i32,
    y_offset: i32,
    now: i64,
) -> (movement: MovementWrapper)
    requires
        can_move_in(growth_stage, area, shape),
    ensures
        movement@ == MovementView::suited(
            growth_stage,
            area,
            shape,
            x_offset as int,
            y_offset as int,
            now as int,
        ),
{
    let center = area.center();
    match growth_stage {
        GrowthStage::Egg => MovementWrapper::EggHop(EggHopMovement::new(center, now)),
        GrowthStage::Baby => MovementWrapper::SmallSteps(SmallStepsMovement::new(center, now)),
        _ => MovementWrapper::DvdBounce(
            DvdBounceMovement::with_offset(center, x_offset, y_offset, area, shape, now),
        ),
    }
}

/// The generator that suits a pet at `growth_stage`: a hop for an egg,
/// small steps for a baby, a bounce for a kid or an adult, which sets out
/// from a place picked at random near the centre of the playground.
pub fn get_movement_wrapper(
    growth_stage: GrowthStage,
    area: Playground,
    friend_shape: (u32, u32),
    now: i64,
) -> (movement: MovementWrapper)
    requires
        can_move_in(growth_stage, area, friend_shape),
    ensures
        exists|x_offset: int, y_offset: int|
            -START_SPREAD <= x_offset <= START_SPREAD && -START_SPREAD <= y_offset <= START_SPREAD
                && movement@ == MovementView::suited(
                growth_stage,
                area,
                friend_shape,
                x_offset,
                y_offset,
                now as int,
            ),
{
    let center = area.center();
    match growth_stage {
        GrowthStage::Egg => {
            let movement = MovementWrapper::EggHop(EggHopMovement::new(center, now));
            assert(movement@ == MovementView::suited(
                growth_stage,
                area,
                friend_shape,
                0,
                0,
                now as int,
            ));
            movement
        },
        GrowthStage::Baby => {
            let movement = MovementWrapper::SmallSteps(SmallStepsMovement::new(center, now));
            assert(movement@ == MovementView::suited(
                growth_stage,
                area,
                friend_shape,
                0,
                0,
                now as int,
            ));
            movement
        },
        _ => {
            let bounce = DvdBounceMovement::new(center, area, friend_shape, now);
            let movement = MovementWrapper::DvdBounce(bounce);
            proof {
                let (x_offset, y_offset) = choose|x_offset: int, y_offset: int|
                    -START_SPREAD <= x_offset <= START_SPREAD && -START_SPREAD <= y_offset
                        <= START_SPREAD && bounce@ == DvdBounceView::fresh(
                        center,
                        x_offset,
                        y_offset,
                        area,
                        friend_shape,
                        now as int,
                    );
                assert(movement@ == MovementView::suited(
                    growth_stage,
                    area,
                    friend_shape,
                    x_offset,
                    y_offset,
                    now as int,
                ));
            }
            movement
        },
    }
}

} // verus!
