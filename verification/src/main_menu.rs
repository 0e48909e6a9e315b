//! The main menu: what its buttons do.

use crate::settings::{spec_can_step, spec_next_volume, DifficultySetting, MusicSetting, SfxSetting};
use crate::state::GameState;
use vstd::prelude::*;

verus! {

/// A button of the main menu.
#[derive(Clone, Copy, Debug, PartialEq, Eq, Structural)]
pub enum MenuButton {
    Play,
    Sfx,
    Music,
    Difficulty,
}

/// Whether `button` may be pressed with these settings: a volume button needs
/// a volume that its step is defined for.
pub open spec fn spec_can_press(button: MenuButton, sfx: SfxSetting, music: MusicSetting) -> bool {
    match button {
        MenuButton::Sfx => spec_can_step(sfx.0),
        MenuButton::Music => spec_can_step(music.0),
        _ => true,
    }
}

/// Whether `button` may be pressed with these settings.
pub fn can_press(button: MenuButton, sfx: &SfxSetting, music: &MusicSetting) -> (r: bool)
    ensures
        r == spec_can_press(button, *sfx, *music),
{
    match button {
        MenuButton::Sfx => sfx.can_step(),
        MenuButton::Music => music.can_step(),
        _ => true,
    }
}

/// Carries out a press of `button` and returns the phase to go to, if the
/// press leaves the menu.
///
/// Play starts the game. A volume button lowers its volume by a step, and
/// from silence raises it to full volume. The difficulty button moves on to
/// the next difficulty. Each button leaves the other settings alone.
pub fn button_actions(
    button: MenuButton,
    sfx: &mut SfxSetting,
    music: &mut MusicSetting,
    difficulty: &mut DifficultySetting,
) -> (r: Option<GameState>)
    requires
        spec_can_press(button, *old(sfx), *old(music)),
    ensures
        r == if button == MenuButton::Play {
            Some(GameState::Playing)
        } else {
            None
        },
        final(sfx).0 == if button == MenuButton::Sfx {
            spec_next_volume(old(sfx).0)
        } else {
            old(sfx).0 as int
        },
        final(music).0 == if button == MenuButton::Music {
            spec_next_volume(old(music).0)
        } else {
            old(music).0 as int
        },
        *final(difficulty) == if button == MenuButton::Difficulty {
            old(difficulty).spec_next()
        } else {
            *old(difficulty)
        },
{
    match button {
        MenuButton::Play => {
            return Some(GameState::Playing);
        },
        MenuButton::Sfx => {
            sfx.press();
        },
        MenuButton::Music => {
            music.press();
        },
        MenuButton::Difficulty => {
            *difficulty = difficulty.next();
        },
    }
    None
}

} // verus!
