//! Verified core of the camera-actuator manager's autopilot link.
//!
//! The crate models the MAVLink-style parameter protocol: how typed
//! parameter values are carried inside a 32-bit float wire field, how the
//! encoding convention is negotiated, how the full remote parameter table is
//! synchronized, and how a desired actuator configuration is converged onto
//! the remote table while tracking whether a reboot or a script reload is
//! required.
//!
//! Floating-point wire values are represented throughout by their IEEE 754
//! binary32 bit patterns (`u32`), so that every conversion is integer
//! arithmetic with a proved specification; the surrounding I/O code turns
//! `f32` into bits and back at the transport boundary.

pub mod api;
pub mod autopilot;
pub mod binary32;
pub mod camera;
pub mod cli;
pub mod manager;
pub mod mavlink;
pub mod parameters;
pub mod text;
