//! Core of a closed-loop actuator controller.
//!
//! A [`device::Device`] holds an actuator's command state and its table of
//! duty-cycle fractions; [`control`] turns a raw sensor reading into the
//! hardware duty value to write, one tick at a time. Everything here is pure
//! in-memory logic: sensor drivers, PWM drivers and any remote command
//! surface live outside and call in.

pub mod control;
pub mod device;
