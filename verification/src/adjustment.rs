//! A volume change as a run of single steps: where it is headed, which step
//! it asks for next, and what holds of every run.

use vstd::prelude::*;
use crate::codec::{ceiling, lowered_target, raised_target, MAX_VOLUME_BOOSTED};

verus! {

/// What is done to a device's volume next.
#[derive(Clone, Copy, PartialEq, Eq, Debug, Structural)]
pub enum VolumeStep {
    /// Raise every channel by one step, then report the new volume.
    Raise,
    /// Lower every channel by one step, then report the new volume.
    Lower,
    /// Nothing: the volume is where it should be.
    Hold,
}

/// A volume change under way: the percentage it is headed for, and from
/// which side.
#[derive(Clone, Copy, PartialEq, Eq, Debug, Structural)]
pub struct Adjustment {
    /// Whether the volume is being raised; otherwise it is being lowered.
    pub rising: bool,
    /// The percentage at which the change is complete.
    pub target: u8,
}

impl Adjustment {
    /// The step that the adjustment asks for when the device reads `pct`.
    pub open spec fn step_at(self, pct: u8) -> VolumeStep {
        if self.rising && pct < self.target {
            VolumeStep::Raise
        } else if !self.rising && pct > self.target {
            VolumeStep::Lower
        } else {
            VolumeStep::Hold
        }
    }

    /// Whether the adjustment, run on a device that reads `readings[j]` after
    /// `j` steps, comes to rest after exactly `k` steps.
    pub open spec fn rests_after(self, readings: Seq<u8>, k: int) -> bool {
        &&& 0 <= k < readings.len()
        &&& self.step_at(readings[k]) == VolumeStep::Hold
        &&& forall|j: int| 0 <= j < k ==> self.step_at(#[trigger] readings[j]) != VolumeStep::Hold
    }

    /// The adjustment that raises a device reading `current` by `inc`.
    pub open spec fn raise(current: u8, inc: u8, boost: bool) -> Adjustment {
        Adjustment { rising: true, target: raised_target(current, inc, boost) }
    }

    /// The adjustment that lowers a device reading `current` by `dec`.
    pub open spec fn lower(current: u8, dec: u8) -> Adjustment {
        Adjustment { rising: false, target: lowered_target(current, dec) }
    }

    /// The adjustment that brings a device reading `current` to `vol`: a
    /// decrease where it reads more, an increase where it reads less, and
    /// none where it reads `vol` already.
    pub open spec fn set(current: u8, vol: u8, boost: bool) -> Option<Adjustment> {
        if vol < current {
            Some(Adjustment::lower(current, (current - vol) as u8))
        } else if vol > current {
            Some(Adjustment::raise(current, (vol - current) as u8, boost))
        } else {
            None
        }
    }

    /// Decides the next step from the percentage that the device reads now.
    pub fn next_step(&self, pct: u8) -> (step: VolumeStep)
        ensures
            step == self.step_at(pct),
    {
        if self.rising && pct < self.target {
            VolumeStep::Raise
        } else if !self.rising && pct > self.target {
            VolumeStep::Lower
        } else {
            VolumeStep::Hold
        }
    }
}

/// Whether one step moves the reading by one percent at most, over the
/// first `k` steps of `readings`.
pub open spec fn unit_steps(readings: Seq<u8>, k: int) -> bool {
    forall|j: int|
        0 <= j < k ==> readings[j] - 1 <= #[trigger] readings[j + 1] && readings[j + 1]
            <= readings[j] + 1
}

/// Raising never leaves a device below where it started, whatever the
/// readings along the way.
pub proof fn lemma_raise_never_lowers(current: u8, inc: u8, boost: bool, readings: Seq<u8>, k: int)
    requires
        readings.len() > 0,
        readings[0] == current,
        Adjustment::raise(current, inc, boost).rests_after(readings, k),
    ensures
        readings[k] >= current,
{
}

/// Raising by more takes at least as many steps and ends at least as high.
pub proof fn lemma_raise_monotone(
    current: u8,
    inc1: u8,
    inc2: u8,
    boost: bool,
    readings: Seq<u8>,
    k1: int,
    k2: int,
)
    requires
        inc1 <= inc2,
        Adjustment::raise(current, inc1, boost).rests_after(readings, k1),
        Adjustment::raise(current, inc2, boost).rests_after(readings, k2),
    ensures
        raised_target(current, inc1, boost) <= raised_target(current, inc2, boost),
        k1 <= k2,
        readings[k1] <= readings[k2],
{
}

/// The target of a raise is never above the ceiling: 100 without boost, 120
/// with it.
pub proof fn lemma_raise_target_capped(current: u8, inc: u8, boost: bool)
    ensures
        raised_target(current, inc, boost) <= ceiling(boost),
        !boost ==> raised_target(current, inc, boost) <= 100,
        boost ==> raised_target(current, inc, boost) <= 120,
        current <= ceiling(boost) ==> current <= raised_target(current, inc, boost),
{
}

/// A device that starts at or under the ceiling and moves by one percent a
/// step at most is raised to the target exactly, and so never above the
/// ceiling.
pub proof fn lemma_raise_within_ceiling(
    current: u8,
    inc: u8,
    boost: bool,
    readings: Seq<u8>,
    k: int,
)
    requires
        readings.len() > 0,
        readings[0] == current,
        current <= ceiling(boost),
        unit_steps(readings, k),
        Adjustment::raise(current, inc, boost).rests_after(readings, k),
    ensures
        readings[k] == raised_target(current, inc, boost),
        readings[k] <= ceiling(boost),
{
    if k > 0 {
        assert(readings[(k - 1) + 1] <= readings[k - 1] + 1);
    }
}

/// Lowering never leaves a device above where it started, whatever the
/// readings along the way.
pub proof fn lemma_lower_never_raises(current: u8, dec: u8, readings: Seq<u8>, k: int)
    requires
        readings.len() > 0,
        readings[0] == current,
        Adjustment::lower(current, dec).rests_after(readings, k),
    ensures
        readings[k] <= current,
{
}

/// Lowering by more takes at least as many steps and ends at least as low.
pub proof fn lemma_lower_monotone(
    current: u8,
    dec1: u8,
    dec2: u8,
    readings: Seq<u8>,
    k1: int,
    k2: int,
)
    requires
        dec1 <= dec2,
        Adjustment::lower(current, dec1).rests_after(readings, k1),
        Adjustment::lower(current, dec2).rests_after(readings, k2),
    ensures
        lowered_target(current, dec1) >= lowered_target(current, dec2),
        k1 <= k2,
        readings[k1] >= readings[k2],
{
}

/// The target of lowering is never below zero: a decrease by the current
/// percentage or more is headed for zero.
pub proof fn lemma_lower_target_floored(current: u8, dec: u8)
    ensures
        0 <= lowered_target(current, dec) <= current,
        dec >= current ==> lowered_target(current, dec) == 0,
{
}

/// A device that moves by one percent a step at most is lowered to the
/// target exactly.
pub proof fn lemma_lower_reaches_target(current: u8, dec: u8, readings: Seq<u8>, k: int)
    requires
        readings.len() > 0,
        readings[0] == current,
        unit_steps(readings, k),
        Adjustment::lower(current, dec).rests_after(readings, k),
    ensures
        readings[k] == lowered_target(current, dec),
{
    if k > 0 {
        assert(readings[k - 1] - 1 <= readings[(k - 1) + 1]);
    }
}

/// Setting a device that moves by one percent a step at most to a
/// percentage under the ceiling leaves it at exactly that percentage, and
/// setting it there once more changes nothing.
pub proof fn lemma_set_reaches_volume(
    current: u8,
    vol: u8,
    boost: bool,
    readings: Seq<u8>,
    k: int,
)
    requires
        readings.len() > 0,
        readings[0] == current,
        vol <= ceiling(boost),
        unit_steps(readings, k),
        Adjustment::set(current, vol, boost) matches Some(plan) && plan.rests_after(readings, k),
    ensures
        readings[k] == vol,
        Adjustment::set(readings[k], vol, boost) is None,
{
    if vol < current {
        lemma_lower_reaches_target(current, (current - vol) as u8, readings, k);
    } else {
        lemma_raise_within_ceiling(current, (vol - current) as u8, boost, readings, k);
    }
}

/// Nothing is asked of a device that is where an adjustment is headed, or
/// beyond: raising by nothing, raising a device at or above the ceiling and
/// lowering by nothing hold at once, and setting a device to what it reads
/// is no adjustment.
pub proof fn lemma_no_step_at_target(current: u8, inc: u8, boost: bool)
    ensures
        Adjustment::raise(current, 0, boost).step_at(current) == VolumeStep::Hold,
        current >= ceiling(boost) ==> Adjustment::raise(current, inc, boost).step_at(current)
            == VolumeStep::Hold,
        Adjustment::lower(current, 0).step_at(current) == VolumeStep::Hold,
        Adjustment::set(current, current, boost) is None,
{
}

/// A device that reads 120 percent at most and moves by one percent a step
/// at most still reads 120 percent at most after any adjustment.
pub proof fn lemma_adjusted_on_scale(current: u8, plan: Adjustment, readings: Seq<u8>, k: int)
    requires
        readings.len() > 0,
        readings[0] == current,
        current <= MAX_VOLUME_BOOSTED,
        plan.target <= MAX_VOLUME_BOOSTED,
        unit_steps(readings, k),
        plan.rests_after(readings, k),
    ensures
        readings[k] <= MAX_VOLUME_BOOSTED,
{
    if k > 0 {
        assert(readings[(k - 1) + 1] <= readings[k - 1] + 1);
    }
}

} // verus!
