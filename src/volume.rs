use vstd::prelude::*;

verus! {

/// Largest percent a volume can hold.
pub const MAX_PERCENT: u32 = 4294967295;

/// Brings a requested percent into the range a volume can hold: nothing below
/// zero, and saturated at the largest `u32`.
pub open spec fn clamp_percent(x: int) -> u32 {
    if x < 0 {
        0
    } else if x > MAX_PERCENT {
        MAX_PERCENT
    } else {
        x as u32
    }
}

/// Volume of the player: a gain in percent and a mute flag.
///
/// Ratios are written in hundredths: a ratio of `100` is unity gain, so the
/// ratio equals the percent.
#[derive(Debug, Clone, Copy, PartialEq, Eq, Structural)]
pub struct Volume {
    raw_volume_percent: u32,
    is_muted: bool,
}

/// What a [`Volume`] holds, for contracts.
pub struct VolumeView {
    pub percent: u32,
    pub muted: bool,
}

/// One of the operations that change a volume.
#[derive(Debug, Clone, Copy, PartialEq, Eq, Structural)]
pub enum VolumeOp {
    Change(i64),
    SetRatio(i64),
    ToggleMute,
}

impl VolumeView {
    /// The effective gain in hundredths: zero when muted, else the percent.
    pub open spec fn gain(self) -> u32 {
        if self.muted {
            0
        } else {
            self.percent
        }
    }

    pub open spec fn changed(self, step_percent: i64) -> VolumeView {
        VolumeView { percent: clamp_percent(self.percent + step_percent), muted: self.muted }
    }

    pub open spec fn with_ratio(self, ratio: i64) -> VolumeView {
        VolumeView { percent: clamp_percent(ratio as int), muted: self.muted }
    }

    pub open spec fn toggled(self) -> VolumeView {
        VolumeView { percent: self.percent, muted: !self.muted }
    }

    pub open spec fn apply(self, op: VolumeOp) -> VolumeView {
        match op {
            VolumeOp::Change(step) => self.changed(step),
            VolumeOp::SetRatio(ratio) => self.with_ratio(ratio),
            VolumeOp::ToggleMute => self.toggled(),
        }
    }

    /// The volume after the operations of `ops`, in order.
    pub open spec fn apply_all(self, ops: Seq<VolumeOp>) -> VolumeView
        decreases ops.len(),
    {
        if ops.len() == 0 {
            self
        } else {
            self.apply_all(ops.drop_last()).apply(ops.last())
        }
    }
}

impl View for Volume {
    type V = VolumeView;

    closed spec fn view(&self) -> VolumeView {
        VolumeView { percent: self.raw_volume_percent, muted: self.is_muted }
    }
}

impl Volume {
    /// Create a new [`Volume`].
    pub fn new(raw_volume_percent: u32, is_muted: bool) -> (r: Volume)
        ensures
            r@ == (VolumeView { percent: raw_volume_percent, muted: is_muted }),
    {
        Volume { raw_volume_percent, is_muted }
    }

    /// The current volume ratio, in hundredths; zero when muted.
    pub fn volume_ratio(&self) -> (r: u32)
        ensures
            r == self@.gain(),
    {
        if self.is_muted {
            0
        } else {
            self.raw_volume_percent
        }
    }

    /// The raw volume percent, kept while muted.
    pub fn raw_volume_percent(&self) -> (r: u32)
        ensures
            r == self@.percent,
    {
        self.raw_volume_percent
    }

    /// Is the volume muted?
    pub fn is_muted(&self) -> (r: bool)
        ensures
            r == self@.muted,
    {
        self.is_muted
    }

    /// Flip the mute flag; the percent is kept.
    pub fn toggle_mute(&mut self)
        ensures
            final(self)@ == old(self)@.toggled(),
    {
        self.is_muted = !self.is_muted;
    }

    /// Set the volume from a ratio in hundredths (`100` is full volume).
    /// A negative ratio gives zero.
    pub fn set_volume_ratio(&mut self, ratio: i64)
        ensures
            final(self)@ == old(self)@.with_ratio(ratio),
    {
        self.raw_volume_percent = clamp_to_percent(ratio);
    }

    /// Change the volume by the given step percent: positive to raise it,
    /// negative to lower it. The result is never below zero.
    pub fn change_volume(&mut self, step_percent: i64)
        ensures
            final(self)@ == old(self)@.changed(step_percent),
    {
        let target: i128 = self.raw_volume_percent as i128 + step_percent as i128;
        self.raw_volume_percent = if target < 0 {
            0
        } else if target > MAX_PERCENT as i128 {
            MAX_PERCENT
        } else {
            target as u32
        };
    }

    /// Apply one operation.
    pub fn apply(&mut self, op: VolumeOp)
        ensures
            final(self)@ == old(self)@.apply(op),
    {
        match op {
            VolumeOp::Change(step) => self.change_volume(step),
            VolumeOp::SetRatio(ratio) => self.set_volume_ratio(ratio),
            VolumeOp::ToggleMute => self.toggle_mute(),
        }
    }
}

/// A signed percent brought into the range of a volume.
pub fn clamp_to_percent(x: i64) -> (r: u32)
    ensures
        r == clamp_percent(x as int),
{
    if x < 0 {
        0
    } else if x > MAX_PERCENT as i64 {
        MAX_PERCENT
    } else {
        x as u32
    }
}

impl Default for Volume {
    fn default() -> (r: Volume)
        ensures
            r@ == (VolumeView { percent: 100, muted: false }),
    {
        Volume { raw_volume_percent: 100, is_muted: false }
    }
}

/// Whatever sequence of changes, ratio settings and mute toggles is applied,
/// the percent never drops below zero, and the effective gain is zero
/// whenever the volume is muted, whatever its percent.
pub proof fn lemma_volume_invariants(v: Volume, ops: Seq<VolumeOp>)
    ensures
        v@.apply_all(ops).percent >= 0,
        v@.apply_all(ops).muted ==> v@.apply_all(ops).gain() == 0,
        !v@.apply_all(ops).muted ==> v@.apply_all(ops).gain() == v@.apply_all(ops).percent,
{
}

} // verus!
