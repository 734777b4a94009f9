use dice_master::config::{Config, DisplayMode, Stored, CONFIG_KEY};
use dice_master::events::{
    game_events, toggle_full_screen, toggle_full_screen_on_alt_enter, ChangeDisplayMode, WindowMode,
};
use dice_master::window::{
    setup_window, Extent, WindowSetup, DESIGN_HEIGHT, DESIGN_WIDTH, TITLE,
};

#[test]
fn display_mode_defaults_to_windowed() {
    assert_eq!(DisplayMode::default(), DisplayMode::Windowed);
    assert_eq!(Config::default(), Config { mode: DisplayMode::Windowed });
}

#[test]
fn display_mode_not_flips() {
    assert_eq!(DisplayMode::Windowed.not(), DisplayMode::FullScreen);
    assert_eq!(DisplayMode::FullScreen.not(), DisplayMode::Windowed);
    assert_eq!(DisplayMode::FullScreen.not().not(), DisplayMode::FullScreen);
}

#[test]
fn config_round_trip_for_both_modes() {
    let windowed = Config { mode: DisplayMode::Windowed };
    let full = Config { mode: DisplayMode::FullScreen };
    assert_eq!(Config::load(windowed.save()), windowed);
    assert_eq!(Config::load(full.save()), full);
    assert_eq!(full.save(), Stored::Record(full));
}

#[test]
fn config_load_falls_back_to_default() {
    assert_eq!(Config::load(Stored::Missing), Config { mode: DisplayMode::Windowed });
    assert_eq!(Config::load(Stored::Corrupt), Config { mode: DisplayMode::Windowed });
}

#[test]
fn config_key_is_game_config() {
    assert_eq!(CONFIG_KEY, "game_config");
}

#[test]
fn change_display_mode_constructors() {
    assert_eq!(ChangeDisplayMode::windowed().mode, DisplayMode::Windowed);
    assert_eq!(ChangeDisplayMode::full_screen().mode, DisplayMode::FullScreen);
    assert_eq!(
        ChangeDisplayMode::to(DisplayMode::FullScreen),
        ChangeDisplayMode::full_screen()
    );
}

#[test]
fn game_events_applies_every_change_in_order() {
    let mut config = Config::default();
    let events = vec![
        ChangeDisplayMode::full_screen(),
        ChangeDisplayMode::windowed(),
        ChangeDisplayMode::full_screen(),
    ];
    let modes = game_events(&events, &mut config);
    assert_eq!(
        modes,
        vec![WindowMode::Fullscreen, WindowMode::Windowed, WindowMode::Fullscreen]
    );
    assert_eq!(config.mode, DisplayMode::FullScreen);
}

#[test]
fn game_events_without_changes_keeps_config() {
    let mut config = Config { mode: DisplayMode::FullScreen };
    let modes = game_events(&Vec::new(), &mut config);
    assert!(modes.is_empty());
    assert_eq!(config.mode, DisplayMode::FullScreen);
}

#[test]
fn toggle_full_screen_switches_between_window_and_borderless() {
    assert_eq!(toggle_full_screen(WindowMode::Windowed), WindowMode::BorderlessFullscreen);
    assert_eq!(toggle_full_screen(WindowMode::BorderlessFullscreen), WindowMode::Windowed);
    assert_eq!(toggle_full_screen(WindowMode::Fullscreen), WindowMode::Windowed);
}

#[test]
fn alt_enter_asks_for_the_other_mode() {
    let windowed = Config { mode: DisplayMode::Windowed };
    let full = Config { mode: DisplayMode::FullScreen };
    assert_eq!(
        toggle_full_screen_on_alt_enter(true, false, true, &windowed),
        Some(ChangeDisplayMode::full_screen())
    );
    assert_eq!(
        toggle_full_screen_on_alt_enter(false, true, true, &full),
        Some(ChangeDisplayMode::windowed())
    );
    assert_eq!(toggle_full_screen_on_alt_enter(false, false, true, &windowed), None);
    assert_eq!(toggle_full_screen_on_alt_enter(true, true, false, &windowed), None);
}

#[test]
fn window_for_full_screen_is_borderless() {
    let setup = setup_window(Config { mode: DisplayMode::FullScreen });
    assert_eq!(
        setup,
        WindowSetup { mode: WindowMode::BorderlessFullscreen, size: None, min_size: None }
    );
}

#[test]
fn window_for_windowed_has_design_size_and_half_minimum() {
    let setup = setup_window(Config { mode: DisplayMode::Windowed });
    assert_eq!(setup.mode, WindowMode::Windowed);
    assert_eq!(setup.size, Some(Extent { width: 1920, height: 1080 }));
    assert_eq!(setup.min_size, Some(Extent { width: 960, height: 540 }));
    assert_eq!((DESIGN_WIDTH, DESIGN_HEIGHT), (1920, 1080));
    assert_eq!(TITLE, "Dice Master!");
}
