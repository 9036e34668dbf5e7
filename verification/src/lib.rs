//! A tile-grid movement engine for one controllable actor.

pub mod actions;
pub mod animation;
pub mod arith;
pub mod camera;
pub mod map;
pub mod occupancy;
pub mod player;
pub mod tile;
