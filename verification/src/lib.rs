//! Simulation core of a top-down space trading and combat game.
//!
//! Everything here works on fixed-point integers: lengths and coordinates are
//! in thousandths of a world unit, velocities in thousandths of a unit per
//! second, time in milliseconds, angles in thousandths of a radian.
//! Each module states what its functions compute over spec functions and
//! proves it.

pub mod basic_laser;
pub mod commodity;
pub mod components;
pub mod direction_indicator;
pub mod enemy;
pub mod fuel;
pub mod geometry;
pub mod kinematics;
pub mod player;
pub mod random;
pub mod scanner;
pub mod spatial;
pub mod timer;
pub mod warp_node;
