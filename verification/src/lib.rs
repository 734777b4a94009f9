//! The scene and state transition engine of a small game: timers, scheduled
//! transitions, fade sequences, loading progress, the menu, and the persisted
//! display configuration. Every function carries a contract that Verus proves.

pub mod config;
pub mod events;
pub mod menu;
pub mod window;
pub mod timer;
pub mod scenes;
pub mod effects;
pub mod tween;
pub mod fade;
pub mod progress;
pub mod loading;
pub mod game;
