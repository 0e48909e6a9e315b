//! What the overlay shows: hearts, button colours, the wave panel and the
//! labels above towers and spawners.

use crate::map::{Item, ItemSpawner};
use crate::settings::DifficultySetting;
use crate::state::Lives;
use crate::timer::GameTimer;
use crate::tower::Ammo;
use crate::waves::{WaveState, Waves};
use vstd::prelude::*;

verus! {

/// Pixels between two hearts.
pub const HEART_GAP: u32 = 5;

/// The margin to the right of heart `i` of `lives`: the gap, and none after
/// the last heart.
pub fn heart_margin(i: u32, lives: &Lives) -> (r: u32)
    ensures
        r == if i + 1 == lives.0 {
            0
        } else {
            HEART_GAP
        },
{
    if i < lives.0 && i + 1 == lives.0 {
        0
    } else {
        HEART_GAP
    }
}

/// Whether heart `i`, counted from zero, is shown with `lives` lives left.
pub fn update_lives(i: u32, lives: &Lives) -> (shown: bool)
    ensures
        shown == (i < lives.0),
{
    i < lives.0
}

/// What the pointer does to a button.
#[derive(Clone, Copy, Debug, PartialEq, Eq, Structural)]
pub enum Interaction {
    Pressed,
    Hovered,
    Idle,
}

/// The colour of a button.
#[derive(Clone, Copy, Debug, PartialEq, Eq, Structural)]
pub enum ButtonColour {
    Pressed,
    FocusedHovered,
    Hovered,
    Focused,
    Normal,
}

/// The colour of a button under `interaction`, which has the keyboard's
/// focus or not. A pressed button looks the same either way.
pub fn buttons(interaction: Interaction, focused: bool) -> (r: ButtonColour)
    ensures
        r == match interaction {
            Interaction::Pressed => ButtonColour::Pressed,
            Interaction::Hovered => if focused {
                ButtonColour::FocusedHovered
            } else {
                ButtonColour::Hovered
            },
            Interaction::Idle => if focused {
                ButtonColour::Focused
            } else {
                ButtonColour::Normal
            },
        },
{
    match interaction {
        Interaction::Pressed => ButtonColour::Pressed,
        Interaction::Hovered => {
            if focused {
                ButtonColour::FocusedHovered
            } else {
                ButtonColour::Hovered
            }
        },
        Interaction::Idle => {
            if focused {
                ButtonColour::Focused
            } else {
                ButtonColour::Normal
            }
        },
    }
}

/// The colour of a tower's label.
#[derive(Clone, Copy, Debug, PartialEq, Eq, Structural)]
pub enum AmmoColour {
    Stocked,
    Empty,
}

/// The colour of the label of a tower with `ammo`: that of an empty tower
/// when no shot is left.
pub fn update_ammo(ammo: &Ammo) -> (r: AmmoColour)
    ensures
        r == if ammo.current == 0 {
            AmmoColour::Empty
        } else {
            AmmoColour::Stocked
        },
{
    if ammo.current == 0 {
        AmmoColour::Empty
    } else {
        AmmoColour::Stocked
    }
}

/// What stands above a spawner.
#[derive(Clone, Copy, Debug, PartialEq, Eq, Structural)]
pub enum SpawnerText {
    /// The name of the item that lies there.
    Label(Item),
    /// Nothing.
    Hidden,
    /// The nanoseconds until the next item.
    Countdown(u64),
}

/// What stands above `spawner`: while its time runs, what is left of it; once
/// it is up, the item's name for the first item only, and nothing from then
/// on.
pub fn update_item_spawners(spawner: &ItemSpawner) -> (r: SpawnerText)
    requires
        spawner.timer.wf(),
    ensures
        r == if spawner.timer.duration - spawner.timer.elapsed != 0 {
            SpawnerText::Countdown((spawner.timer.duration - spawner.timer.elapsed) as u64)
        } else if spawner.spawned == 1 {
            SpawnerText::Label(spawner.item)
        } else {
            SpawnerText::Hidden
        },
{
    let remaining = spawner.timer.remaining();
    if remaining == 0 && spawner.spawned == 1 {
        SpawnerText::Label(spawner.item)
    } else if remaining == 0 {
        SpawnerText::Hidden
    } else {
        SpawnerText::Countdown(remaining)
    }
}

/// The number shown for the running wave: waves count from one, and with all
/// waves through it is their number.
pub fn update_waves(waves: &Waves) -> (r: (usize, usize))
    requires
        waves.current == waves.waves@.len() || waves.current < usize::MAX,
    ensures
        r.1 == waves.waves@.len(),
        r.0 == if waves.current == waves.waves@.len() {
            waves.current as int
        } else {
            waves.current + 1
        },
{
    let total = waves.waves.len();
    let wave = if waves.current == total {
        waves.current
    } else {
        waves.current + 1
    };
    (wave, total)
}

/// What the wave panel says of the time.
#[derive(Clone, Copy, Debug, PartialEq, Eq, Structural)]
pub enum WaveTimerText {
    /// All waves are through.
    Done,
    /// The wave is coming in.
    Now,
    /// The nanoseconds until the wave comes in.
    Countdown(u64),
}

/// What the wave panel says of the time.
pub fn update_wave_timer(waves: &Waves, wave_state: &WaveState) -> (r: WaveTimerText)
    requires
        wave_state.delay_timer.wf(),
    ensures
        r == spec_wave_timer(
            waves.current == waves.waves@.len(),
            wave_state.delay_timer,
        ),
{
    if waves.current == waves.waves.len() {
        WaveTimerText::Done
    } else {
        let remaining = wave_state.delay_timer.remaining();
        if remaining == 0 {
            WaveTimerText::Now
        } else {
            WaveTimerText::Countdown(remaining)
        }
    }
}

/// What the wave panel says of the time: nothing once all is `done`, that the
/// wave is coming in once its delay is over, and the time left before.
pub open spec fn spec_wave_timer(done: bool, delay_timer: GameTimer) -> WaveTimerText {
    if done {
        WaveTimerText::Done
    } else if delay_timer.duration - delay_timer.elapsed == 0 {
        WaveTimerText::Now
    } else {
        WaveTimerText::Countdown((delay_timer.duration - delay_timer.elapsed) as u64)
    }
}

/// The enemies of the running wave and the hit points of each at
/// `difficulty`, if a wave is running.
pub fn update_wave_stats(waves: &Waves, difficulty: DifficultySetting) -> (r: Option<(usize, u32)>)
    requires
        waves.spec_current().is_some() ==> waves.spec_current().unwrap().hp
            + difficulty.spec_extra_hp() <= u32::MAX,
    ensures
        r == match waves.spec_current() {
            Some(wave) => Some((wave.num, (wave.hp + difficulty.spec_extra_hp()) as u32)),
            None => None,
        },
{
    match waves.current() {
        Some(wave) => Some((wave.num, wave.hp + difficulty.extra_hp())),
        None => None,
    }
}

} // verus!
