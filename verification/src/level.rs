//! Volume levels and the clamped step arithmetic on them.
//!
//! A level is a fraction of full scale, held as a whole number of
//! ten-thousandths so that every operation is exact: `0` is silence,
//! `MAX_UNITS` is full volume, and one up or down step moves the level by
//! `STEP_UNITS` (five percent), saturating at the two boundaries instead of
//! erring.

use vstd::prelude::*;

verus! {

/// Full scale, in ten-thousandths: the level `1.0`.
pub const MAX_UNITS: u32 = 10000;

/// One volume step, in ten-thousandths: the level `0.05`.
pub const STEP_UNITS: u32 = 500;

/// What a requested level is clamped to before it is applied: values below
/// silence become silence, values above full scale become full scale.
pub open spec fn spec_clamp(raw: int) -> int {
    if raw < 0 {
        0
    } else if raw > MAX_UNITS as int {
        MAX_UNITS as int
    } else {
        raw
    }
}

/// One upward step: the lesser of `current + STEP_UNITS` and full scale.
pub open spec fn spec_step_up(current: int) -> int {
    if current + STEP_UNITS as int <= MAX_UNITS as int {
        current + STEP_UNITS as int
    } else {
        MAX_UNITS as int
    }
}

/// One downward step: the greater of `current - STEP_UNITS` and silence.
pub open spec fn spec_step_down(current: int) -> int {
    if current - STEP_UNITS as int >= 0 {
        current - STEP_UNITS as int
    } else {
        0
    }
}

/// The level after `n` upward steps from `start`, applied one at a time.
pub open spec fn ups_applied(start: int, n: nat) -> int
    decreases n,
{
    if n == 0 {
        start
    } else {
        spec_step_up(ups_applied(start, (n - 1) as nat))
    }
}

/// The level after `n` downward steps from `start`, applied one at a time.
pub open spec fn downs_applied(start: int, n: nat) -> int
    decreases n,
{
    if n == 0 {
        start
    } else {
        spec_step_down(downs_applied(start, (n - 1) as nat))
    }
}

/// A master-volume level: a scalar in `[0, 1]`, held exactly as a count of
/// ten-thousandths of full scale. Its view is that count.
#[derive(Clone, Copy, Debug, PartialEq, Eq, Structural)]
pub struct VolumeLevel {
    units: u32,
}

impl View for VolumeLevel {
    type V = int;

    closed spec fn view(&self) -> int {
        self.units as int
    }
}

impl VolumeLevel {
    #[verifier::type_invariant]
    spec fn in_range(self) -> bool {
        self.units <= MAX_UNITS
    }

    /// The level that holds exactly `units` ten-thousandths of full scale.
    pub fn from_units(units: u32) -> (r: Self)
        requires
            units <= MAX_UNITS,
        ensures
            r@ == units as int,
    {
        VolumeLevel { units }
    }

    /// The level a request of `raw` ten-thousandths is clamped to: requests
    /// below silence yield silence, requests above full scale yield full
    /// scale, anything between is applied as asked.
    pub fn clamped(raw: i64) -> (r: Self)
        ensures
            r@ == spec_clamp(raw as int),
    {
        if raw < 0 {
            VolumeLevel { units: 0 }
        } else if raw > MAX_UNITS as i64 {
            VolumeLevel { units: MAX_UNITS }
        } else {
            VolumeLevel { units: raw as u32 }
        }
    }

    /// The count of ten-thousandths this level holds; never more than full
    /// scale.
    pub fn units(&self) -> (r: u32)
        ensures
            r as int == self@,
            r <= MAX_UNITS,
    {
        proof {
            use_type_invariant(&*self);
        }
        self.units
    }

    /// The level one step up from this one, capped at full scale.
    pub fn stepped_up(&self) -> (r: Self)
        ensures
            r@ == spec_step_up(self@),
    {
        proof {
            use_type_invariant(&*self);
        }
        let raised = self.units + STEP_UNITS;
        if raised > MAX_UNITS {
            VolumeLevel { units: MAX_UNITS }
        } else {
            VolumeLevel { units: raised }
        }
    }

    /// The level one step down from this one, floored at silence.
    pub fn stepped_down(&self) -> (r: Self)
        ensures
            r@ == spec_step_down(self@),
    {
        proof {
            use_type_invariant(&*self);
        }
        if self.units >= STEP_UNITS {
            VolumeLevel { units: self.units - STEP_UNITS }
        } else {
            VolumeLevel { units: 0 }
        }
    }
}

impl Default for VolumeLevel {
    /// Silence.
    fn default() -> (r: Self)
        ensures
            r@ == 0,
    {
        VolumeLevel { units: 0 }
    }
}

/// Repeated upward steps applied one at a time land exactly where a single
/// serialized computation does: after `n` steps from `start`, the level is
/// `start + n * STEP_UNITS`, capped at full scale.
pub proof fn lemma_ups_closed_form(start: int, n: nat)
    requires
        0 <= start <= MAX_UNITS as int,
    ensures
        ups_applied(start, n) == if start + n * (STEP_UNITS as int) <= MAX_UNITS as int {
            start + n * (STEP_UNITS as int)
        } else {
            MAX_UNITS as int
        },
    decreases n,
{
    if n > 0 {
        lemma_ups_closed_form(start, (n - 1) as nat);
    }
}

/// Stepping up at full volume is an idempotent no-op: any number of upward
/// steps from full scale leaves the level at full scale.
pub proof fn lemma_up_idempotent_at_full(n: nat)
    ensures
        ups_applied(MAX_UNITS as int, n) == MAX_UNITS as int,
    decreases n,
{
    if n > 0 {
        lemma_up_idempotent_at_full((n - 1) as nat);
    }
}

/// Stepping down at silence is an idempotent no-op: any number of downward
/// steps from silence leaves the level at silence.
pub proof fn lemma_down_idempotent_at_silence(n: nat)
    ensures
        downs_applied(0, n) == 0,
    decreases n,
{
    if n > 0 {
        lemma_down_idempotent_at_silence((n - 1) as nat);
    }
}

} // verus!
