//! The command protocol between the controller facade and the worker
//! session, and the errors an operation can surface to a caller.

use vstd::prelude::*;

verus! {

/// A typed volume-control request, processed by the worker one at a time.
/// Levels travel as whole ten-thousandths of full scale; a `SetVolume`
/// request may carry any value and is clamped by the worker before it is
/// applied.
#[derive(Clone, Copy, Debug, PartialEq, Eq, Structural)]
pub enum VolumeCommand {
    /// Read the current level.
    GetVolume,
    /// Apply the requested level, clamped into range, in ten-thousandths.
    SetVolume(i64),
    /// Raise the level by one step, capped at full scale.
    VolumeUp,
    /// Lower the level by one step, floored at silence.
    VolumeDown,
    /// Leave the command loop and release the endpoint.
    Shutdown,
}

impl VolumeCommand {
    /// Whether this command ends the worker's command loop.
    pub fn is_shutdown(&self) -> (r: bool)
        ensures
            r == (self is Shutdown),
    {
        match self {
            VolumeCommand::Shutdown => true,
            _ => false,
        }
    }

    /// Whether serving this command begins by reading the endpoint's
    /// current level. Setting a level does not: the target depends only on
    /// the request.
    pub fn needs_current_level(&self) -> (r: bool)
        ensures
            r == (self is GetVolume || self is VolumeUp || self is VolumeDown),
    {
        match self {
            VolumeCommand::GetVolume => true,
            VolumeCommand::VolumeUp => true,
            VolumeCommand::VolumeDown => true,
            _ => false,
        }
    }
}

/// Why a volume operation failed.
#[derive(Debug, PartialEq, Eq)]
pub enum ControlError {
    /// No worker session exists: the controller was never initialized, or
    /// was shut down.
    NotInitialized,
    /// The command could not be delivered, or no reply came back: the
    /// worker is gone.
    ChannelError,
    /// The native volume call itself failed; carries a description of the
    /// native error.
    NativeOperation(String),
}

} // verus!
