//! The wait for the render pipelines before the menu appears.

use crate::state::GameState;
use vstd::prelude::*;

verus! {

/// Pipelines that the game needs on a desktop before it can be played
/// without stutter.
pub const EXPECTED_PIPELINES: usize = 30;

/// Pipelines that the game needs in a browser.
pub const EXPECTED_PIPELINES_WEB: usize = 26;

/// The phase to go to once `ready` pipelines are there: the menu, as soon as
/// all `expected` ones are.
pub fn pipelines_done(ready: usize, expected: usize) -> (r: Option<GameState>)
    ensures
        r == if ready >= expected {
            Some(GameState::MainMenu)
        } else {
            None
        },
{
    if ready >= expected {
        Some(GameState::MainMenu)
    } else {
        None
    }
}

} // verus!
