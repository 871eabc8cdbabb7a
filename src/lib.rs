//! Device protocols and acquisition logic for a rotary measurement rig:
//! a motor controller, a hall sensor array and a laser range-finder.

pub mod error;
pub mod hall;
pub mod laser;
pub mod link;
pub mod motor;
pub mod ports;
pub mod record;
pub mod ring;
pub mod sweep;
pub mod wire;
