//! An idle manager for a Wayland session.
//!
//! The heart of the crate is the idle timer of [`idle_timer`]: a state
//! machine that is told of every sign of activity and inactivity and decides
//! which of the configured actions run, once per idle episode, and what is
//! owed when the user returns. It does no input or output: it is handed the
//! time and what was read from the outside, and hands back the effects to
//! carry out. The other modules decide for the sources that feed it and for
//! the control endpoint.

pub mod actions;
pub mod app_inhibit;
pub mod brightness;
pub mod compositor;
pub mod config;
pub mod edge;
pub mod idle_timer;
pub mod input;
pub mod ipc;
pub mod media;
pub mod power_detection;
pub mod suspend;
pub mod text;
pub mod utils;
pub mod wayland;
