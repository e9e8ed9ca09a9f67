//! The controller facade: the single entry point callers share.
//!
//! The facade holds at most one live sending endpoint to the worker and
//! hides the plumbing from callers: an operation on an uninitialized or
//! shut-down controller fails with `NotInitialized`, and otherwise the
//! command is served by the worker session and the reply handed back.
//! Initialization is idempotent — a second call while a session is live is
//! a no-op — and shutdown clears the session, so every later operation
//! fails rather than silently succeeding.
//!
//! The lifecycle is modelled by the view: `None` while no worker session
//! exists, `Some(level)` while one does, `level` being what its endpoint
//! reports. The `ctrl_*` spec functions below are the facade's transition
//! relation; each operation's contract ties it to them, and the lemmas at
//! the end state the lifecycle laws once for all states.

use vstd::prelude::*;

use crate::level::{
    spec_clamp, spec_step_down, spec_step_up, ups_applied, lemma_ups_closed_form, VolumeLevel,
    MAX_UNITS, STEP_UNITS,
};
use crate::protocol::{ControlError, VolumeCommand};
use crate::worker::WorkerSession;

verus! {

/// The controller state after `init`: an existing session is kept as it
/// is, otherwise one is started at `start`.
pub open spec fn ctrl_init(s: Option<int>, start: int) -> Option<int> {
    if s is Some {
        s
    } else {
        Some(start)
    }
}

/// The controller state after `shutdown`: no session remains.
pub open spec fn ctrl_shutdown(s: Option<int>) -> Option<int> {
    None
}

/// What a volume read returns: the session's level, or `NotInitialized`
/// when no session exists.
pub open spec fn ctrl_get(s: Option<int>) -> Result<int, ControlError> {
    match s {
        Some(c) => Ok(c),
        None => Err(ControlError::NotInitialized),
    }
}

/// State and reply of a set request: the request clamped into range, or
/// `NotInitialized` when no session exists.
pub open spec fn ctrl_set(s: Option<int>, raw: int) -> (Option<int>, Result<int, ControlError>) {
    match s {
        Some(_) => (Some(spec_clamp(raw)), Ok(spec_clamp(raw))),
        None => (None, Err(ControlError::NotInitialized)),
    }
}

/// State and reply of an upward step: one step, capped at full scale, or
/// `NotInitialized` when no session exists.
pub open spec fn ctrl_up(s: Option<int>) -> (Option<int>, Result<int, ControlError>) {
    match s {
        Some(c) => (Some(spec_step_up(c)), Ok(spec_step_up(c))),
        None => (None, Err(ControlError::NotInitialized)),
    }
}

/// State and reply of a downward step: one step, floored at silence, or
/// `NotInitialized` when no session exists.
pub open spec fn ctrl_down(s: Option<int>) -> (Option<int>, Result<int, ControlError>) {
    match s {
        Some(c) => (Some(spec_step_down(c)), Ok(spec_step_down(c))),
        None => (None, Err(ControlError::NotInitialized)),
    }
}

/// The controller state after `n` upward steps issued one after another.
pub open spec fn ctrl_ups(s: Option<int>, n: nat) -> Option<int>
    decreases n,
{
    if n == 0 {
        s
    } else {
        ctrl_up(ctrl_ups(s, (n - 1) as nat)).0
    }
}

/// A reply as the model states it: the level's count of ten-thousandths,
/// or the error unchanged.
pub open spec fn result_level(r: Result<VolumeLevel, ControlError>) -> Result<
    int,
    ControlError,
> {
    match r {
        Ok(v) => Ok(v@),
        Err(e) => Err(e),
    }
}

/// The process-wide volume controller: holds at most one live worker
/// session and exposes the read, set, increase, decrease and lifecycle
/// operations. Its view is `Some` of the session's level while a session
/// exists, `None` otherwise.
#[derive(Clone, Copy, Debug)]
pub struct VolumeController {
    worker: Option<WorkerSession>,
}

impl View for VolumeController {
    type V = Option<int>;

    closed spec fn view(&self) -> Option<int> {
        match self.worker {
            Some(s) => Some(s@),
            None => None,
        }
    }
}

impl VolumeController {
    /// A controller with no worker session: every operation fails with
    /// `NotInitialized` until `init_volume_controller` is called.
    pub fn new() -> (c: Self)
        ensures
            c@ is None,
    {
        VolumeController { worker: None }
    }

    /// Start the worker session if none is live; a second call while one
    /// is live is a no-op, so at most one session ever runs. `initial` is
    /// the level the endpoint reports when the session starts.
    pub fn init_volume_controller(&mut self, initial: VolumeLevel)
        ensures
            final(self)@ == ctrl_init(old(self)@, initial@),
    {
        if self.worker.is_none() {
            self.worker = Some(WorkerSession::start(initial));
        }
    }

    /// Read the current volume level.
    pub fn get_volume(&self) -> (r: Result<VolumeLevel, ControlError>)
        ensures
            result_level(r) == ctrl_get(self@),
    {
        match &self.worker {
            Some(session) => Ok(session.current_level()),
            None => Err(ControlError::NotInitialized),
        }
    }

    /// Apply `level` (in ten-thousandths of full scale), clamped into
    /// range; the reply is the level actually applied.
    pub fn set_volume(&mut self, level: i64) -> (r: Result<VolumeLevel, ControlError>)
        ensures
            final(self)@ == ctrl_set(old(self)@, level as int).0,
            result_level(r) == ctrl_set(old(self)@, level as int).1,
    {
        self.dispatch_command(VolumeCommand::SetVolume(level))
    }

    /// Raise the volume by one step, capped at full scale; the reply is
    /// the new level.
    pub fn volume_up(&mut self) -> (r: Result<VolumeLevel, ControlError>)
        ensures
            final(self)@ == ctrl_up(old(self)@).0,
            result_level(r) == ctrl_up(old(self)@).1,
    {
        self.dispatch_command(VolumeCommand::VolumeUp)
    }

    /// Lower the volume by one step, floored at silence; the reply is the
    /// new level.
    pub fn volume_down(&mut self) -> (r: Result<VolumeLevel, ControlError>)
        ensures
            final(self)@ == ctrl_down(old(self)@).0,
            result_level(r) == ctrl_down(old(self)@).1,
    {
        self.dispatch_command(VolumeCommand::VolumeDown)
    }

    /// End the worker session, if one is live: the session leaves its
    /// command loop and releases the endpoint, and every later operation
    /// fails with `NotInitialized`.
    pub fn shutdown_volume_controller(&mut self)
        ensures
            final(self)@ == ctrl_shutdown(old(self)@),
    {
        if let Some(session) = &mut self.worker {
            let _outcome = session.handle_command(&VolumeCommand::Shutdown);
        }
        self.worker = None;
    }

    /// Route one replying command to the worker session and hand its reply
    /// back: the model counterpart of sending over the command channel and
    /// waiting. Without a live session the command is not sent and the
    /// caller gets `NotInitialized`; a session that returned no reply
    /// would surface as `ChannelError`, though the synchronous session
    /// answers every replying command.
    fn dispatch_command(&mut self, cmd: VolumeCommand) -> (r: Result<VolumeLevel, ControlError>)
        requires
            cmd is SetVolume || cmd is VolumeUp || cmd is VolumeDown,
        ensures
            old(self)@ is None ==> (final(self)@ is None && r == Err::<
                VolumeLevel,
                ControlError,
            >(ControlError::NotInitialized)),
            old(self)@ matches Some(c) ==> ({
                &&& cmd matches VolumeCommand::SetVolume(raw) ==> ({
                    &&& final(self)@ == Some(spec_clamp(raw as int))
                    &&& result_level(r) == Ok::<int, ControlError>(spec_clamp(raw as int))
                })
                &&& cmd is VolumeUp ==> ({
                    &&& final(self)@ == Some(spec_step_up(c))
                    &&& result_level(r) == Ok::<int, ControlError>(spec_step_up(c))
                })
                &&& cmd is VolumeDown ==> ({
                    &&& final(self)@ == Some(spec_step_down(c))
                    &&& result_level(r) == Ok::<int, ControlError>(spec_step_down(c))
                })
            }),
    {
        match self.worker {
            Some(mut session) => {
                let outcome = session.handle_command(&cmd);
                self.worker = Some(session);
                match outcome.reply {
                    Some(reply) => reply,
                    None => Err(ControlError::ChannelError),
                }
            },
            None => Err(ControlError::NotInitialized),
        }
    }
}

/// Initializing twice yields exactly what initializing once does: the
/// second call finds a live session and changes nothing, so exactly one
/// worker session — one endpoint acquisition, one command loop — ever
/// results.
pub proof fn lemma_init_idempotent(s: Option<int>, first: int, again: int)
    ensures
        ctrl_init(ctrl_init(s, first), again) == ctrl_init(s, first),
{
}

/// After a shutdown, every subsequent operation fails with
/// `NotInitialized` and leaves no session behind: none of them silently
/// succeeds.
pub proof fn lemma_no_silent_success_after_shutdown(s: Option<int>, raw: int)
    ensures
        ctrl_get(ctrl_shutdown(s)) == Err::<int, ControlError>(ControlError::NotInitialized),
        ctrl_set(ctrl_shutdown(s), raw).1 == Err::<int, ControlError>(
            ControlError::NotInitialized,
        ),
        ctrl_up(ctrl_shutdown(s)).1 == Err::<int, ControlError>(ControlError::NotInitialized),
        ctrl_down(ctrl_shutdown(s)).1 == Err::<int, ControlError>(ControlError::NotInitialized),
{
}

/// `n` upward steps, in whatever order concurrent callers issued them,
/// are served one at a time by the single worker session, so the final
/// level is the serialized application of `n` increments from the start:
/// `start + n * STEP_UNITS`, capped at full scale, with no update lost.
pub proof fn lemma_serialized_ups(start: int, n: nat)
    requires
        0 <= start <= MAX_UNITS as int,
    ensures
        ctrl_ups(Some(start), n) == Some(ups_applied(start, n)),
        ups_applied(start, n) == if start + n * (STEP_UNITS as int) <= MAX_UNITS as int {
            start + n * (STEP_UNITS as int)
        } else {
            MAX_UNITS as int
        },
    decreases n,
{
    if n > 0 {
        lemma_serialized_ups(start, (n - 1) as nat);
    }
    lemma_ups_closed_form(start, n);
}

} // verus!
