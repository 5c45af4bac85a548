//! A virtual-pet simulation engine: bounded life statistics, a growth state
//! machine, time-driven decay with offline catch-up, care actions, motion
//! generators and the session rules that tie them together.
//!
//! The pet lives in [`friend`], with what holds of every pet proved in
//! [`friend_laws`]; [`game_state`] pairs it with the time of its last
//! update, and [`session`] advances a game tick by tick and takes the
//! player's inputs. [`movements`] holds the motion generators, [`sprite`]
//! and [`sprite_management`] the geometry and the decoding of sprites,
//! [`animations`] and [`display`] what is shown beside the pet.
//!
//! The pet, the motion generators and the animations take the time they
//! work with as an argument; only the session offers steps that read the
//! wall clock themselves. The wall clock, the random generator and the
//! picture decoder are reached through four small functions whose contracts
//! are believed, not proved; each says so where it stands.

pub mod animations;
mod chance;
mod clock;
pub mod color_wrapper;
pub mod creatures;
pub mod display;
pub mod food;
pub mod friend;
pub mod friend_laws;
pub mod game_state;
pub mod growth;
pub mod location;
pub mod movements;
pub mod session;
pub mod sprite;
pub mod sprite_management;
pub mod stat;
