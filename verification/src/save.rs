//! The settings that are kept between runs of the game.

use crate::settings::{DifficultySetting, MusicSetting, SfxSetting};
use vstd::prelude::*;

verus! {

/// What the save file holds.
#[derive(Clone, Copy, Debug, PartialEq, Eq, Structural)]
pub struct SaveFile {
    pub sfx: SfxSetting,
    pub music: MusicSetting,
    pub difficulty: DifficultySetting,
}

/// How the engine flags a setting in a frame.
#[derive(Clone, Copy, Debug, PartialEq, Eq, Structural)]
pub struct Change {
    /// The setting was written to.
    pub changed: bool,
    /// The setting was put in place.
    pub added: bool,
}

impl Change {
    /// Whether the player changed the setting: it was written to and not just
    /// put in place.
    pub open spec fn spec_by_player(self) -> bool {
        self.changed && !self.added
    }

    /// Whether the player changed the setting.
    pub fn by_player(&self) -> (r: bool)
        ensures
            r == self.spec_by_player(),
    {
        self.changed && !self.added
    }
}

/// The settings with which the game starts: those of the save file that was
/// read, and without one full volume at the first difficulty.
pub fn load_system(loaded: Option<SaveFile>) -> (r: SaveFile)
    ensures
        r == match loaded {
            Some(file) => file,
            None => SaveFile {
                sfx: SfxSetting(crate::settings::FULL_VOLUME),
                music: MusicSetting(crate::settings::FULL_VOLUME),
                difficulty: DifficultySetting::Normal,
            },
        },
{
    match loaded {
        Some(file) => file,
        None => SaveFile {
            sfx: SfxSetting::default(),
            music: MusicSetting::default(),
            difficulty: DifficultySetting::default(),
        },
    }
}

/// What to write to the save file in a frame: the three settings, if the
/// player changed one of them, and nothing otherwise.
pub fn save_system(
    sfx: (SfxSetting, Change),
    music: (MusicSetting, Change),
    difficulty: (DifficultySetting, Change),
) -> (r: Option<SaveFile>)
    ensures
        r == if sfx.1.spec_by_player() || music.1.spec_by_player()
            || difficulty.1.spec_by_player() {
            Some(SaveFile { sfx: sfx.0, music: music.0, difficulty: difficulty.0 })
        } else {
            None
        },
{
    let sfx_changed = sfx.1.by_player();
    let music_changed = music.1.by_player();
    let difficulty_changed = difficulty.1.by_player();
    if !sfx_changed && !music_changed && !difficulty_changed {
        return None;
    }
    Some(SaveFile { sfx: sfx.0, music: music.0, difficulty: difficulty.0 })
}

} // verus!
