//! The phases of the game.

use vstd::prelude::*;

verus! {

/// The phase that the game is in.
#[derive(Clone, Copy, Debug, PartialEq, Eq, Hash, Structural)]
pub enum GameState {
    Loading,
    Pipelines,
    MainMenu,
    Playing,
    GameOver,
}

impl Default for GameState {
    fn default() -> (r: Self)
        ensures
            r == GameState::Loading,
    {
        GameState::Loading
    }
}

/// How a game ended.
#[derive(Clone, Copy, Debug, PartialEq, Eq, Structural)]
pub struct Won(pub bool);

impl Default for Won {
    fn default() -> (r: Self)
        ensures
            r == Won(false),
    {
        Won(false)
    }
}

/// The lives that the player has left.
#[derive(Clone, Copy, Debug, PartialEq, Eq, Structural)]
pub struct Lives(pub u32);

/// Lives at the start of a game.
pub const START_LIVES: u32 = 3;

impl Default for Lives {
    fn default() -> (r: Self)
        ensures
            r == Lives(START_LIVES),
    {
        Lives(START_LIVES)
    }
}

impl Lives {
    /// Takes one life, if one is left.
    pub fn lose_one(&mut self)
        ensures
            final(self).0 == if old(self).0 == 0 {
                0
            } else {
                old(self).0 - 1
            },
    {
        self.0 = self.0.saturating_sub(1);
    }
}

} // verus!
