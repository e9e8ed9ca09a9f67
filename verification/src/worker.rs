//! The worker side of the protocol: what serving one command does.
//!
//! The worker session owns the audio endpoint exclusively and serves one
//! command at a time, run to completion, so no two volume operations ever
//! interleave. [`worker_step`] is the decision the loop makes for a single
//! command — what to write to the endpoint, what to reply, whether to
//! exit — and is shared by every embodiment of the loop.
//! [`WorkerSession`] runs that decision against an in-memory level that
//! stands for the endpoint, which makes the whole serialized session a
//! verified object.

use vstd::prelude::*;

use crate::level::{spec_clamp, spec_step_down, spec_step_up, VolumeLevel};
use crate::protocol::{ControlError, VolumeCommand};

verus! {

/// What the worker does for one command: the level to write to the
/// endpoint, if any; the level to report back, if the command expects a
/// reply; and whether the command loop exits afterwards.
#[derive(Clone, Copy, Debug, PartialEq, Eq, Structural)]
pub struct WorkerStep {
    /// The level to apply to the endpoint, or `None` to leave it alone.
    pub apply: Option<VolumeLevel>,
    /// The level to send back on the reply channel, or `None` for a
    /// command that is not answered.
    pub reply: Option<VolumeLevel>,
    /// Whether the command loop ends after this command.
    pub exit: bool,
}

/// The worker's decision for one command, given the endpoint's current
/// level. A read is answered with that level unchanged; a set clamps the
/// request into range and applies it; a step up or down saturates at the
/// boundary; a shutdown applies nothing, answers nothing, and ends the
/// loop. Commands that only read `current` ignore it when they do not
/// need it (`VolumeCommand::needs_current_level`).
pub fn worker_step(cmd: &VolumeCommand, current: VolumeLevel) -> (s: WorkerStep)
    ensures
        cmd is GetVolume ==> (s.apply is None && s.reply == Some(current) && !s.exit),
        cmd matches VolumeCommand::SetVolume(raw) ==> (s.apply matches Some(l) && l@
            == spec_clamp(raw as int) && s.reply == s.apply && !s.exit),
        cmd is VolumeUp ==> (s.apply matches Some(l) && l@ == spec_step_up(current@) && s.reply
            == s.apply && !s.exit),
        cmd is VolumeDown ==> (s.apply matches Some(l) && l@ == spec_step_down(current@)
            && s.reply == s.apply && !s.exit),
        cmd is Shutdown ==> (s.apply is None && s.reply is None && s.exit),
{
    match cmd {
        VolumeCommand::GetVolume => WorkerStep { apply: None, reply: Some(current), exit: false },
        VolumeCommand::SetVolume(raw) => {
            let target = VolumeLevel::clamped(*raw);
            WorkerStep { apply: Some(target), reply: Some(target), exit: false }
        },
        VolumeCommand::VolumeUp => {
            let target = current.stepped_up();
            WorkerStep { apply: Some(target), reply: Some(target), exit: false }
        },
        VolumeCommand::VolumeDown => {
            let target = current.stepped_down();
            WorkerStep { apply: Some(target), reply: Some(target), exit: false }
        },
        VolumeCommand::Shutdown => WorkerStep { apply: None, reply: None, exit: true },
    }
}

/// What serving one command hands back to the facade: the reply to forward
/// to the caller, if the command expects one, and whether the session
/// ended.
#[derive(Debug, PartialEq, Eq)]
pub struct CommandOutcome {
    /// The reply owed to the caller, or `None` for a command without one.
    pub reply: Option<Result<VolumeLevel, ControlError>>,
    /// Whether the session ended with this command.
    pub exit: bool,
}

/// A worker session over an in-memory endpoint level. The real session
/// owns the native endpoint of the default output device; this one holds
/// the level the endpoint would hold, so that the serialized command loop
/// is verified end to end, and tests can run it against a known start.
/// Its view is the endpoint's current level.
#[derive(Clone, Copy, Debug, PartialEq, Eq, Structural)]
pub struct WorkerSession {
    level: VolumeLevel,
}

impl View for WorkerSession {
    type V = int;

    closed spec fn view(&self) -> int {
        self.level@
    }
}

impl WorkerSession {
    /// A session whose endpoint currently reports `initial`.
    pub fn start(initial: VolumeLevel) -> (s: Self)
        ensures
            s@ == initial@,
    {
        WorkerSession { level: initial }
    }

    /// The level the endpoint currently reports.
    pub fn current_level(&self) -> (r: VolumeLevel)
        ensures
            r@ == self@,
    {
        self.level
    }

    /// Serve one command, run to completion: read the endpoint where the
    /// command calls for it, apply what [`worker_step`] decides, and hand
    /// back exactly one reply for every command but `Shutdown`, which ends
    /// the session instead.
    pub fn handle_command(&mut self, cmd: &VolumeCommand) -> (out: CommandOutcome)
        ensures
            cmd is GetVolume ==> ({
                &&& final(self)@ == old(self)@
                &&& out.reply matches Some(Ok(v))
                &&& v@ == old(self)@
                &&& !out.exit
            }),
            cmd matches VolumeCommand::SetVolume(raw) ==> ({
                &&& final(self)@ == spec_clamp(raw as int)
                &&& out.reply matches Some(Ok(v))
                &&& v@ == spec_clamp(raw as int)
                &&& !out.exit
            }),
            cmd is VolumeUp ==> ({
                &&& final(self)@ == spec_step_up(old(self)@)
                &&& out.reply matches Some(Ok(v))
                &&& v@ == spec_step_up(old(self)@)
                &&& !out.exit
            }),
            cmd is VolumeDown ==> ({
                &&& final(self)@ == spec_step_down(old(self)@)
                &&& out.reply matches Some(Ok(v))
                &&& v@ == spec_step_down(old(self)@)
                &&& !out.exit
            }),
            cmd is Shutdown ==> (final(self)@ == old(self)@ && out.reply is None && out.exit),
    {
        let step = worker_step(cmd, self.level);
        if let Some(target) = step.apply {
            self.level = target;
        }
        let reply = match step.reply {
            Some(v) => Some(Ok(v)),
            None => None,
        };
        CommandOutcome { reply, exit: step.exit }
    }
}

} // verus!
