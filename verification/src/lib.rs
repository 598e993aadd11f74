//! Event normalisation and broadcast core for a gamepad telemetry daemon.

pub mod analog;
pub mod control;
pub mod event;
pub mod hub;
pub mod sanitizer;
pub mod session;
pub mod snapshot;
pub mod state;
pub mod tracker;
