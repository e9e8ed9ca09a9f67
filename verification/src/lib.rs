//! A verified model of a master-volume controller.
//!
//! The system drives the host's master output volume through three
//! operations — read, increase, decrease — issued from several callers at
//! once. All native access is confined to a single worker session that
//! processes one command at a time; callers talk to it through a
//! process-wide controller facade. This crate verifies the logic of that
//! design: the clamped step arithmetic on volume levels, the command
//! protocol, the worker's per-command decisions, and the controller's
//! lifecycle (one-time initialization, failure after shutdown).
//!
//! A volume level is modelled as a whole number of ten-thousandths of full
//! scale, so that the arithmetic is exact; the surrounding binary converts
//! the native scalar to and from that unit at the boundary.

pub mod controller;
pub mod level;
pub mod protocol;
pub mod worker;

pub use controller::VolumeController;
pub use level::VolumeLevel;
pub use protocol::{ControlError, VolumeCommand};
pub use worker::{CommandOutcome, WorkerSession, WorkerStep};
