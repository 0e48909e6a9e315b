//! Rules of a small tower-defence game, stated over plain values and verified.
//!
//! The engine that draws the world, detects collisions and keeps time stays
//! outside: each module here takes what the engine observed in a frame and
//! returns what has to change.

pub mod enemy;
pub mod game_over;
pub mod loading;
pub mod main_menu;
pub mod map;
pub mod outline;
pub mod player;
pub mod save;
pub mod settings;
pub mod state;
pub mod timer;
pub mod tower;
pub mod ui;
pub mod waves;
