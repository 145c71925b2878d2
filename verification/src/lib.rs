//! Verified core of a rigid-body driving simulation: the articulated-body
//! sweep over a joint tree, and the engine, gearbox, brake and steering
//! decisions of the car controller.

pub mod controls;
pub mod model;
pub mod algorithms;
pub mod drivetrain;
pub mod laws;
