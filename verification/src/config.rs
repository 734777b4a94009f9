//! The persisted display configuration and the record it is stored as.

use vstd::prelude::*;

verus! {

/// How the game occupies the screen.
#[derive(Debug, Clone, Copy, PartialEq, Eq, Hash, Structural)]
pub enum DisplayMode {
    Windowed,
    FullScreen,
}

impl DisplayMode {
    /// The other display mode.
    pub open spec fn toggled(self) -> DisplayMode {
        match self {
            DisplayMode::Windowed => DisplayMode::FullScreen,
            DisplayMode::FullScreen => DisplayMode::Windowed,
        }
    }

    /// Flips the display mode: windowed becomes full screen and back.
    pub fn not(self) -> (other: DisplayMode)
        ensures
            other == self.toggled(),
    {
        match self {
            DisplayMode::Windowed => DisplayMode::FullScreen,
            DisplayMode::FullScreen => DisplayMode::Windowed,
        }
    }
}

impl Default for DisplayMode {
    fn default() -> (mode: Self)
        ensures
            mode == DisplayMode::Windowed,
    {
        DisplayMode::Windowed
    }
}

/// The durable configuration record.
#[derive(Debug, Clone, Copy, PartialEq, Eq, Hash, Structural)]
pub struct Config {
    pub mode: DisplayMode,
}

impl Default for Config {
    fn default() -> (config: Self)
        ensures
            config == (Config { mode: DisplayMode::Windowed }),
    {
        Config { mode: DisplayMode::Windowed }
    }
}

/// The key under which the configuration record is kept in the store.
pub const CONFIG_KEY: &'static str = "game_config";

/// What the key-value store held under [`CONFIG_KEY`] when it was read.
#[derive(Debug, Clone, Copy, PartialEq, Eq, Hash, Structural)]
pub enum Stored {
    /// The store has no record under the key.
    Missing,
    /// The store has a record that could not be read back as a configuration.
    Corrupt,
    /// The store has this configuration.
    Record(Config),
}

/// The configuration that a stored record stands for: the record itself, or
/// the default where there is none to be had.
pub open spec fn loaded(stored: Stored) -> Config {
    match stored {
        Stored::Record(config) => config,
        _ => Config { mode: DisplayMode::Windowed },
    }
}

impl Config {
    /// Reads the configuration out of what the store held. A missing or
    /// corrupt record gives the default; loading never fails.
    pub fn load(stored: Stored) -> (config: Config)
        ensures
            config == loaded(stored),
    {
        match stored {
            Stored::Record(config) => config,
            _ => Config::default(),
        }
    }

    /// The record to write to the store for this configuration.
    pub fn save(&self) -> (stored: Stored)
        ensures
            stored == Stored::Record(*self),
    {
        Stored::Record(*self)
    }
}

/// Saving a configuration and loading the saved record gives the same
/// configuration back, whatever its display mode.
pub proof fn lemma_config_round_trip(config: Config)
    ensures
        loaded(Stored::Record(config)) == config,
{
}

/// Loading from a store that holds no readable record gives the default
/// configuration, which is windowed.
pub proof fn lemma_config_default_when_absent(stored: Stored)
    requires
        !(stored is Record),
    ensures
        loaded(stored) == (Config { mode: DisplayMode::Windowed }),
{
}

} // verus!
