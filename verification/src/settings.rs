//! Player settings: the two volume levels and the difficulty.

use vstd::prelude::*;

verus! {

/// Volume that a setting starts with, in percent.
pub const FULL_VOLUME: u8 = 100;

/// How far one press of a volume button lowers the volume, in percent.
pub const VOLUME_STEP: u8 = 10;

/// The volume that follows `level` when its button is pressed: ten percent
/// less, and from silence back to full volume.
pub open spec fn spec_next_volume(level: u8) -> int {
    if level == 0 {
        FULL_VOLUME as int
    } else {
        level - VOLUME_STEP
    }
}

/// Whether a press of the volume button is defined for `level`: every level
/// but those between silence and one step.
pub open spec fn spec_can_step(level: u8) -> bool {
    level == 0 || level >= VOLUME_STEP
}

/// Computes `spec_next_volume`.
pub fn next_volume(level: u8) -> (r: u8)
    requires
        spec_can_step(level),
    ensures
        r == spec_next_volume(level),
{
    if level == 0 {
        FULL_VOLUME
    } else {
        level - VOLUME_STEP
    }
}

/// Volume of the music, in percent.
#[derive(Clone, Copy, Debug, PartialEq, Eq, Structural)]
pub struct MusicSetting(pub u8);

impl Default for MusicSetting {
    fn default() -> (r: Self)
        ensures
            r.0 == FULL_VOLUME,
    {
        MusicSetting(FULL_VOLUME)
    }
}

impl MusicSetting {
    /// A setting at `level` percent.
    pub fn new(level: u8) -> (r: Self)
        ensures
            r.0 == level,
    {
        MusicSetting(level)
    }

    /// The level in percent.
    pub fn level(&self) -> (r: u8)
        ensures
            r == self.0,
    {
        self.0
    }

    /// Whether `press` may be called.
    pub fn can_step(&self) -> (r: bool)
        ensures
            r == spec_can_step(self.0),
    {
        self.0 == 0 || self.0 >= VOLUME_STEP
    }

    /// One press of the music button.
    pub fn press(&mut self)
        requires
            spec_can_step(old(self).0),
        ensures
            final(self).0 == spec_next_volume(old(self).0),
    {
        self.0 = next_volume(self.0);
    }
}

/// Volume of the sound effects, in percent.
#[derive(Clone, Copy, Debug, PartialEq, Eq, Structural)]
pub struct SfxSetting(pub u8);

impl Default for SfxSetting {
    fn default() -> (r: Self)
        ensures
            r.0 == FULL_VOLUME,
    {
        SfxSetting(FULL_VOLUME)
    }
}

impl SfxSetting {
    /// A setting at `level` percent.
    pub fn new(level: u8) -> (r: Self)
        ensures
            r.0 == level,
    {
        SfxSetting(level)
    }

    /// The level in percent.
    pub fn level(&self) -> (r: u8)
        ensures
            r == self.0,
    {
        self.0
    }

    /// Whether `press` may be called.
    pub fn can_step(&self) -> (r: bool)
        ensures
            r == spec_can_step(self.0),
    {
        self.0 == 0 || self.0 >= VOLUME_STEP
    }

    /// One press of the effects button.
    pub fn press(&mut self)
        requires
            spec_can_step(old(self).0),
        ensures
            final(self).0 == spec_next_volume(old(self).0),
    {
        self.0 = next_volume(self.0);
    }
}

/// How much stronger than scripted the enemies are.
#[derive(Clone, Copy, Debug, PartialEq, Eq, Structural)]
pub enum DifficultySetting {
    Normal,
    Hard,
    Extra,
}

impl Default for DifficultySetting {
    fn default() -> (r: Self)
        ensures
            r == DifficultySetting::Normal,
    {
        DifficultySetting::Normal
    }
}

impl DifficultySetting {
    /// The difficulty that follows this one in the menu.
    pub open spec fn spec_next(self) -> Self {
        match self {
            DifficultySetting::Normal => DifficultySetting::Hard,
            DifficultySetting::Hard => DifficultySetting::Extra,
            DifficultySetting::Extra => DifficultySetting::Normal,
        }
    }

    /// Hit points that every enemy gets on top of its wave's.
    pub open spec fn spec_extra_hp(self) -> nat {
        match self {
            DifficultySetting::Normal => 0,
            DifficultySetting::Hard => 1,
            DifficultySetting::Extra => 2,
        }
    }

    /// The name shown on the difficulty button.
    pub open spec fn spec_label(self) -> Seq<char> {
        match self {
            DifficultySetting::Normal => "NORMAL"@,
            DifficultySetting::Hard => "HARD"@,
            DifficultySetting::Extra => "EXTRA"@,
        }
    }

    /// The difficulty that follows this one in the menu.
    pub fn next(&self) -> (r: Self)
        ensures
            r == self.spec_next(),
    {
        match self {
            DifficultySetting::Normal => DifficultySetting::Hard,
            DifficultySetting::Hard => DifficultySetting::Extra,
            DifficultySetting::Extra => DifficultySetting::Normal,
        }
    }

    /// Hit points that every enemy gets on top of its wave's.
    pub fn extra_hp(&self) -> (r: u32)
        ensures
            r == self.spec_extra_hp(),
    {
        match self {
            DifficultySetting::Normal => 0,
            DifficultySetting::Hard => 1,
            DifficultySetting::Extra => 2,
        }
    }

    /// The name shown on the difficulty button.
    pub fn label(&self) -> (r: String)
        ensures
            r@ == self.spec_label(),
    {
        match self {
            DifficultySetting::Normal => "NORMAL".to_owned(),
            DifficultySetting::Hard => "HARD".to_owned(),
            DifficultySetting::Extra => "EXTRA".to_owned(),
        }
    }
}

/// Three presses of the difficulty button lead back to where they began, and
/// fewer do not.
pub proof fn difficulty_cycle(d: DifficultySetting)
    ensures
        d.spec_next() != d,
        d.spec_next().spec_next() != d,
        d.spec_next().spec_next().spec_next() == d,
{
}

/// From full volume, ten presses reach silence one step at a time, and the
/// eleventh restores full volume: a level on that ladder stays on it.
pub proof fn volume_stays_on_ladder(level: u8)
    requires
        level <= FULL_VOLUME,
        level % VOLUME_STEP == 0,
    ensures
        spec_can_step(level),
        0 <= spec_next_volume(level) <= FULL_VOLUME,
        spec_next_volume(level) % (VOLUME_STEP as int) == 0,
{
}

} // verus!
