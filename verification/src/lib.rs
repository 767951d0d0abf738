//! Core logic of a USB HID force-feedback racing wheel.
//!
//! The crate models the device-side state of the HID Physical Interface
//! Device (PID) class: an effect pool driven by host reports, a set of
//! running effects, and the fixed-point force-synthesis kernels that turn
//! those effects into one motor torque command per control tick.

pub mod control;
pub mod effect;
pub mod ffb;
pub mod fixed;
pub mod hid;
pub mod misc;
pub mod motor;
pub mod racing_wheel;
pub mod ram_pool;
pub mod reports;
pub mod simple_wheel;
pub mod wire;

