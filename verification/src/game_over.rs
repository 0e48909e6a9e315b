//! The screen at the end of a game.

use crate::state::{GameState, Won};
use vstd::prelude::*;

verus! {

/// A button of the screen.
#[derive(Clone, Copy, Debug, PartialEq, Eq, Structural)]
pub enum GameOverButton {
    PlayAgain,
}

/// The headline for a game that ended as `won` says.
pub open spec fn spec_title(won: Won) -> Seq<char> {
    if won.0 {
        "YOU WIN!"@
    } else {
        "GAME OVER!"@
    }
}

/// The headline of the screen.
pub fn title(won: &Won) -> (r: String)
    ensures
        r@ == spec_title(*won),
{
    if won.0 {
        "YOU WIN!".to_owned()
    } else {
        "GAME OVER!".to_owned()
    }
}

/// The phase to which a press of `button` leads: back to the menu.
pub fn button_actions(button: GameOverButton) -> (r: GameState)
    ensures
        r == GameState::MainMenu,
{
    match button {
        GameOverButton::PlayAgain => GameState::MainMenu,
    }
}

} // verus!
