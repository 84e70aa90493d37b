//! A side-scrolling obstacle game's fixed-tick simulation: scrolling and
//! recycled buildings, gravity and velocity integration, AABB collision with a
//! landing tolerance, landing resolution and the lose / resume transitions.
//!
//! All quantities are integers in units the host chooses (for instance a
//! length unit of 1/57600 world units with one time unit per tick), so every
//! step is exact.

pub mod component;
pub mod config;
pub mod field;
pub mod geometry;
pub mod laws;
pub mod system;
pub mod world;

pub use component::{Actor, AppState, Building, IsOnFloor, Velocity};
pub use config::{Config, ConfigError, BOUND};
pub use field::{building_translation, reset_building_oob, respawn};
pub use geometry::{collide, Collision, Rect};
pub use system::{
    apply_velocity, collision_detection, gravity, handle_presses, jump_or_fastfall_on_click,
    loose_condition, resume_on_click, square_landing, CollisionInfo,
};
pub use world::{run_tick, setup, start_position_setup, World};
