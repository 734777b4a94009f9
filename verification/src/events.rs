//! The display-mode-change message and what the window does on receiving it.

use vstd::prelude::*;
use crate::config::{Config, DisplayMode};

verus! {

/// A one-shot request to switch the display mode.
#[derive(Debug, Clone, Copy, PartialEq, Eq, Hash, Structural)]
pub struct ChangeDisplayMode {
    pub mode: DisplayMode,
}

impl ChangeDisplayMode {
    /// A request to switch to `mode`.
    pub fn to(mode: DisplayMode) -> (event: Self)
        ensures
            event.mode == mode,
    {
        ChangeDisplayMode { mode }
    }

    /// A request to switch to a window.
    pub fn windowed() -> (event: Self)
        ensures
            event.mode == DisplayMode::Windowed,
    {
        Self::to(DisplayMode::Windowed)
    }

    /// A request to switch to the full screen.
    pub fn full_screen() -> (event: Self)
        ensures
            event.mode == DisplayMode::FullScreen,
    {
        Self::to(DisplayMode::FullScreen)
    }
}

/// The modes a window can be put in.
#[derive(Debug, Clone, Copy, PartialEq, Eq, Hash, Structural)]
pub enum WindowMode {
    Windowed,
    BorderlessFullscreen,
    Fullscreen,
}

/// The window mode that a display-mode change switches to.
pub open spec fn window_mode_of(mode: DisplayMode) -> WindowMode {
    match mode {
        DisplayMode::Windowed => WindowMode::Windowed,
        DisplayMode::FullScreen => WindowMode::Fullscreen,
    }
}

/// The configuration after every change in `events` has been applied in
/// order: the last one wins, and with none the configuration stays.
pub open spec fn config_after(config: Config, events: Seq<ChangeDisplayMode>) -> Config {
    if events.len() == 0 {
        config
    } else {
        Config { mode: events.last().mode }
    }
}

/// The window mode set for each change, in order.
pub open spec fn window_modes(events: Seq<ChangeDisplayMode>) -> Seq<WindowMode> {
    Seq::new(events.len(), |i: int| window_mode_of(events[i].mode))
}

/// Handles the pending display-mode changes in order: each one is written
/// to the configuration and answered with the mode to put the window in.
pub fn game_events(events: &Vec<ChangeDisplayMode>, config: &mut Config) -> (modes: Vec<WindowMode>)
    ensures
        *final(config) == config_after(*old(config), events@),
        modes@ == window_modes(events@),
{
    let mut modes: Vec<WindowMode> = Vec::new();
    let mut i: usize = 0;
    while i < events.len()
        invariant
            i <= events.len(),
            *config == config_after(*old(config), events@.take(i as int)),
            modes@ == window_modes(events@.take(i as int)),
        decreases events.len() - i,
    {
        let change = events[i];
        config.mode = change.mode;
        let mode = match change.mode {
            DisplayMode::Windowed => WindowMode::Windowed,
            DisplayMode::FullScreen => WindowMode::Fullscreen,
        };
        modes.push(mode);
        i = i + 1;
        assert(modes@ == window_modes(events@.take(i as int)));
    }
    assert(events@.take(i as int) == events@);
    modes
}

/// The window mode after the full-screen toggle: a window goes borderless
/// full screen, anything else goes back to a window.
pub open spec fn toggled_window_mode(mode: WindowMode) -> WindowMode {
    if mode == WindowMode::Windowed {
        WindowMode::BorderlessFullscreen
    } else {
        WindowMode::Windowed
    }
}

/// Toggles a window between windowed and borderless full screen.
pub fn toggle_full_screen(mode: WindowMode) -> (toggled: WindowMode)
    ensures
        toggled == toggled_window_mode(mode),
{
    if mode == WindowMode::Windowed {
        WindowMode::BorderlessFullscreen
    } else {
        WindowMode::Windowed
    }
}

/// The change requested by the keyboard, if any: either Alt key held while
/// Return goes down asks for the display mode that `config` does not have.
pub open spec fn alt_enter_request(
    left_alt: bool,
    right_alt: bool,
    return_just_pressed: bool,
    config: Config,
) -> Option<ChangeDisplayMode> {
    if (left_alt || right_alt) && return_just_pressed {
        Some(ChangeDisplayMode { mode: config.mode.toggled() })
    } else {
        None
    }
}

/// Decides whether the keyboard asks for a display-mode switch this frame.
pub fn toggle_full_screen_on_alt_enter(
    left_alt: bool,
    right_alt: bool,
    return_just_pressed: bool,
    config: &Config,
) -> (request: Option<ChangeDisplayMode>)
    ensures
        request == alt_enter_request(left_alt, right_alt, return_just_pressed, *config),
{
    if (left_alt || right_alt) && return_just_pressed {
        Some(ChangeDisplayMode::to(config.mode.not()))
    } else {
        None
    }
}

} // verus!
