//! How the window is opened for a configuration.

use vstd::prelude::*;
use crate::config::{Config, DisplayMode};
use crate::events::WindowMode;

verus! {

/// The title of the game's window.
pub const TITLE: &'static str = "Dice Master!";

/// The width the scenes are designed for, in pixels.
pub const DESIGN_WIDTH: u32 = 1920;

/// The height the scenes are designed for, in pixels.
pub const DESIGN_HEIGHT: u32 = 1080;

/// Width and height in pixels.
#[derive(Debug, Clone, Copy, PartialEq, Eq, Hash, Structural)]
pub struct Extent {
    pub width: u32,
    pub height: u32,
}

/// What the window is opened with. An extent that is `None` is left to the
/// windowing system.
#[derive(Debug, Clone, Copy, PartialEq, Eq, Hash, Structural)]
pub struct WindowSetup {
    pub mode: WindowMode,
    pub size: Option<Extent>,
    pub min_size: Option<Extent>,
}

/// The window for a configuration: borderless full screen when the
/// configuration asks for the full screen; otherwise a window of the design
/// resolution that cannot be made smaller than half of it each way.
pub open spec fn window_for(config: Config) -> WindowSetup {
    if config.mode == DisplayMode::FullScreen {
        WindowSetup { mode: WindowMode::BorderlessFullscreen, size: None, min_size: None }
    } else {
        WindowSetup {
            mode: WindowMode::Windowed,
            size: Some(Extent { width: DESIGN_WIDTH, height: DESIGN_HEIGHT }),
            min_size: Some(
                Extent { width: (DESIGN_WIDTH / 2) as u32, height: (DESIGN_HEIGHT / 2) as u32 },
            ),
        }
    }
}

/// Chooses how to open the window for `config`.
pub fn setup_window(config: Config) -> (setup: WindowSetup)
    ensures
        setup == window_for(config),
{
    if config.mode == DisplayMode::FullScreen {
        WindowSetup { mode: WindowMode::BorderlessFullscreen, size: None, min_size: None }
    } else {
        WindowSetup {
            mode: WindowMode::Windowed,
            size: Some(Extent { width: DESIGN_WIDTH, height: DESIGN_HEIGHT }),
            min_size: Some(Extent { width: DESIGN_WIDTH / 2, height: DESIGN_HEIGHT / 2 }),
        }
    }
}

} // verus!
