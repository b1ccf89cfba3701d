//! Verified core of a laptop-firmware toggle assistant.
//!
//! Two processes share this logic: a short-lived privileged helper that
//! flips boolean control files and announces the result, and a persistent
//! unprivileged observer that polls the same state once a second and mirrors
//! it into a tray indicator. Everything that decides or computes lives here
//! with a contract; reading and writing the control files, spawning the
//! external tools and running the event loop stay outside.

pub mod actuator;
pub mod camera;
pub mod icon;
pub mod observer;
pub mod session;
pub mod text;
pub mod toggle;
