//! Motion generators: each produces, tick by tick, the place at which a pet
//! is drawn.

pub mod dvd_bounce;
pub mod egg_hop;
pub mod movement;
pub mod small_steps;

pub use dvd_bounce::DvdBounceMovement;
pub use egg_hop::EggHopMovement;
pub use movement::{Movement, MovementWrapper};
pub use small_steps::SmallStepsMovement;
