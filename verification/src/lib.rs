//! Gameplay rules of a small tile-based 2D platformer.
//!
//! The crate holds the rules only: which collider a tile gets, how the
//! player's ground and ladder contact follows from what the physics engine
//! reports, which velocity the pressed keys ask for, and how the camera box
//! is fitted to a level. The engine that draws, integrates and reads the
//! keyboard hands plain values in and takes plain values back.
//!
//! All lengths are whole pixels and all speeds whole units per second unless
//! a name says otherwise.

pub mod camera;
pub mod contact;
pub mod frame;
pub mod level;
pub mod locomotion;
pub mod phase;
pub mod player;
pub mod tiles;
pub mod velocity;
