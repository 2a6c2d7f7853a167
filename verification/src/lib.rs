//! A first-person character controller core: per-tick translation of raw
//! key and pointer input into a body orientation and a locomotion intent,
//! handed on to a physics actuator as plain request values.
//!
//! All quantities are fixed-point integers (micro-units for lengths and
//! speeds, nano-radians for angles), so every stage of the controller is
//! exact and verified. The surrounding engine - windowing, rendering,
//! asset loading, the physics integration itself - is an external
//! collaborator: it supplies an `InputSnapshot` each tick and consumes the
//! `ActuatorRequests` the controller emits.

pub mod fixmath;
pub mod input;
pub mod orientation;
pub mod locomotion;
pub mod player;
