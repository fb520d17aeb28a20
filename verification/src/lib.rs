//! Simulation core of a top-down exploration game.
//!
//! The crate models a tile world, a creature that walks on it, an airship the
//! creature can board and pilot, and the rules that tie them together: which
//! tiles can be stepped on, how velocities compose when the creature rides the
//! ship, and how input is routed between creature and ship.
//!
//! All coordinates are whole pixels, and noise samples are whole thousandths.
//! Arithmetic on positions saturates at the limits of `i64`, so nothing the
//! crate computes can overflow, and no index leaves its grid. The three
//! operations that roll dice, generating a map with texture coins, drawing
//! water whose texture is due to change, and an update at which an item
//! appears, draw from the thread's random number generator, which panics if
//! the system has no entropy to seed it.

pub(crate) mod chance;
pub mod constants;
pub mod creature;
pub mod game;
pub mod grid;
pub mod input;
pub mod input_handler;
pub mod item;
pub mod map;
pub mod misc;
pub mod player;
pub mod ship;
pub mod tile;
