//! A fixed population of point balls moving inside a rectangular room.
//!
//! Lengths are integers in micro-units (a millionth of a room unit), times
//! in microseconds and velocities in micro-units per second. One tick moves
//! every ball, pulls the ones that left the room back inside, scans all
//! pairs for collisions and finally applies the marker changes that the
//! scan queued.

pub mod geometry;
pub mod collision;
pub mod store;
pub mod motion;
pub mod spawn;
pub mod simulation;
pub mod laws;

pub use geometry::{Position, Velocity, Room, UNIT, MICROS_PER_SECOND};
pub use collision::collision_check;
pub use store::{Ball, MarkerChange, EntityStore};
pub use motion::{integrate, clamp_to_room};
pub use simulation::{Simulation, check_collisions, check_collisions_toggle};
pub use spawn::{entity_count, spawn_random};
