use dice_master::config::{Config, DisplayMode, Stored};
use dice_master::effects::{Go, INVISIBLE, VISIBLE};
use dice_master::events::WindowMode;
use dice_master::game::{Effect, Game, Sound};
use dice_master::menu::{add, setting, Action, ButtonColor, Interaction, Submenu};
use dice_master::progress::Progress;
use dice_master::scenes::{Menu, Splash, State, DELAY, GRACE, IN, OUT, PAUSE};
use dice_master::timer::NANOS_PER_SECOND;
use dice_master::window::setup_window;

const SECOND: u64 = NANOS_PER_SECOND;

fn game_in_menu() -> Game {
    let mut game = Game::new();
    game.set_state(State::Menu);
    game
}

fn game_in_options() -> Game {
    let mut game = game_in_menu();
    game.interact(Action::Options, Interaction::Clicked);
    game
}

#[test]
fn game_starts_in_splash() {
    let game = Game::new();
    assert_eq!(game.state(), State::Splash);
    assert_eq!(game.submenu(), Submenu::Inactive);
    assert_eq!(game.config(), Config { mode: DisplayMode::Windowed });
    assert_eq!(game.opacity(), Some(INVISIBLE));
    assert_eq!(game.progress(), None);
    assert_eq!(game.spinner(), None);
    assert!(game.buttons().is_empty());
    let pending = game.pending().unwrap();
    assert_eq!(pending.state(), State::Menu);
    assert_eq!(pending.timer().duration(), 6 * SECOND);
}

#[test]
fn run_loads_the_configuration_and_enters_splash() {
    let mut game = game_in_options();
    let full = Config { mode: DisplayMode::FullScreen };
    let effects = game.run(Stored::Record(full));
    assert_eq!(
        effects,
        vec![
            Effect::OpenWindow(setup_window(full)),
            Effect::SetupScene(State::Splash),
            Effect::Play(Sound::Announcement),
        ]
    );
    assert_eq!(game.state(), State::Splash);
    assert_eq!(game.config(), full);
    assert_eq!(game.submenu(), Submenu::Inactive);
    assert_eq!(game.opacity(), Some(INVISIBLE));
    assert_eq!(game.pending().unwrap().timer().elapsed(), 0);
}

#[test]
fn run_with_an_unreadable_store_uses_the_default() {
    let mut game = Game::new();
    let effects = game.run(Stored::Corrupt);
    assert_eq!(effects[0], Effect::OpenWindow(setup_window(Config::default())));
    assert_eq!(game.config(), Config { mode: DisplayMode::Windowed });
    game.run(Stored::Missing);
    assert_eq!(game.config(), Config { mode: DisplayMode::Windowed });
}

#[test]
fn splash_goes_to_menu_after_six_seconds() {
    assert_eq!((IN, PAUSE, OUT, GRACE, DELAY), (2, 2, 1, 1, 6));
    let mut game = Game::new();
    game.run(Stored::Missing);
    for second in 1..6 {
        let effects = game.update(SECOND);
        assert!(effects.is_empty(), "nothing happens at second {}", second);
        assert_eq!(game.state(), State::Splash);
        assert_eq!(game.submenu(), Submenu::Inactive);
    }
    assert_eq!(game.opacity(), Some(INVISIBLE));
    let effects = game.update(SECOND);
    assert_eq!(
        effects,
        vec![
            Effect::ClearScene(State::Splash),
            Effect::SetupScene(State::Menu),
            Effect::SetupSubmenu(Submenu::Main),
        ]
    );
    assert_eq!(game.state(), State::Menu);
    assert_eq!(game.submenu(), Submenu::Main);
    assert_eq!(game.opacity(), None);
    assert!(game.pending().is_none());
    assert_eq!(game.buttons(), vec![add(Action::Play), add(Action::Options), add(Action::Quit)]);
    assert!(game.update(10 * SECOND).is_empty());
    assert_eq!(game.state(), State::Menu);
}

#[test]
fn splash_does_not_leave_a_nanosecond_early() {
    let mut game = Game::new();
    assert!(game.update(6 * SECOND - 1).is_empty());
    assert_eq!(game.state(), State::Splash);
    assert_eq!(game.update(1).len(), 3);
    assert_eq!(game.state(), State::Menu);
}

#[test]
fn splash_fades_the_logo_in_and_out() {
    let mut game = Game::new();
    game.update(SECOND);
    assert_eq!(game.opacity(), Some(250_000));
    game.update(SECOND);
    assert_eq!(game.opacity(), Some(VISIBLE));
    game.update(2 * SECOND);
    assert_eq!(game.opacity(), Some(VISIBLE));
    game.update(SECOND / 2);
    assert_eq!(game.opacity(), Some(250_000));
    game.update(SECOND / 2);
    assert_eq!(game.opacity(), Some(INVISIBLE));
}

#[test]
fn splash_scene_setup_matches_its_constants() {
    let (mut splash, goto) = Splash::setup();
    assert_eq!(goto.state(), State::Menu);
    assert_eq!(goto.timer().duration(), DELAY * SECOND);
    assert_eq!(splash.opacity(), INVISIBLE);
    assert_eq!(splash.update(IN * SECOND), VISIBLE);
    assert_eq!(splash.update((PAUSE + OUT) * SECOND), INVISIBLE);
}

#[test]
fn loading_goes_to_menu_on_the_update_after_completion() {
    let mut game = Game::new();
    let effects = game.set_state(State::Loading);
    assert_eq!(
        effects,
        vec![Effect::ClearScene(State::Splash), Effect::SetupScene(State::Loading)]
    );
    assert!(game.pending().is_none());
    assert_eq!(game.progress(), Some(Progress { done: 0, total: 0 }));
    for _ in 0..5 {
        assert!(game.update(SECOND).is_empty());
        assert_eq!(game.state(), State::Loading);
        assert_eq!(game.progress(), Some(Progress { done: 0, total: 1 }));
    }
    // The task is done once the time has passed five seconds.
    assert!(game.update(1).is_empty());
    assert_eq!(game.state(), State::Loading);
    assert_eq!(game.progress(), Some(Progress { done: 1, total: 1 }));
    let effects = game.update(1);
    assert_eq!(
        effects,
        vec![
            Effect::ClearScene(State::Loading),
            Effect::SetupScene(State::Menu),
            Effect::SetupSubmenu(Submenu::Main),
        ]
    );
    assert_eq!(game.state(), State::Menu);
    assert_eq!(game.submenu(), Submenu::Main);
    assert_eq!(game.progress(), None);
}

#[test]
fn loading_waits_for_a_reported_task_and_follows_its_latest_report() {
    let mut game = Game::new();
    game.set_state(State::Loading);
    game.update(SECOND);
    game.report(4, true);
    assert_eq!(game.progress(), Some(Progress { done: 1, total: 2 }));
    assert!(game.update(5 * SECOND).is_empty());
    assert_eq!(game.progress(), Some(Progress { done: 2, total: 2 }));
    game.report(4, false);
    assert!(game.update(SECOND).is_empty());
    assert_eq!(game.state(), State::Loading);
    assert_eq!(game.progress(), Some(Progress { done: 1, total: 2 }));
    game.report(4, true);
    assert_eq!(game.update(SECOND).len(), 3);
    assert_eq!(game.state(), State::Menu);
}

#[test]
fn loading_spinner_turns_while_loading() {
    let mut game = Game::new();
    game.set_state(State::Loading);
    assert_eq!(game.spinner(), Some(0));
    game.update(SECOND);
    assert_eq!(game.spinner(), Some(200 * SECOND));
    game.update(SECOND);
    assert_eq!(game.spinner(), Some(40 * SECOND));
}

#[test]
fn loading_is_over_as_soon_as_all_that_reported_are_done() {
    let mut game = Game::new();
    game.set_state(State::Loading);
    game.report(4, true);
    assert_eq!(game.update(SECOND).len(), 3);
    assert_eq!(game.state(), State::Menu);
}

#[test]
fn reports_outside_loading_are_dropped() {
    let mut game = Game::new();
    game.report(1, true);
    assert_eq!(game.progress(), None);
    game.set_state(State::Loading);
    assert_eq!(game.progress(), Some(Progress { done: 0, total: 0 }));
}

#[test]
fn leaving_a_scene_cancels_its_scheduled_transition() {
    let mut game = Game::new();
    game.update(5 * SECOND);
    game.set_state(State::Hello);
    assert!(game.pending().is_none());
    assert!(game.update(5 * SECOND).is_empty());
    assert_eq!(game.state(), State::Hello);
}

#[test]
fn entering_the_active_scene_again_restarts_it() {
    let mut game = Game::new();
    game.update(5 * SECOND);
    let effects = game.set_state(State::Splash);
    assert_eq!(
        effects,
        vec![
            Effect::ClearScene(State::Splash),
            Effect::SetupScene(State::Splash),
            Effect::Play(Sound::Announcement),
        ]
    );
    assert_eq!(game.pending().unwrap().timer().elapsed(), 0);
    assert!(game.update(5 * SECOND).is_empty());
    assert_eq!(game.state(), State::Splash);
    assert_eq!(game.update(SECOND).len(), 3);
    assert_eq!(game.state(), State::Menu);
}

#[test]
fn menu_play_goes_to_the_game_and_resets_the_submenu() {
    let mut game = game_in_options();
    assert_eq!(game.submenu(), Submenu::Options);
    game.interact(Action::Back, Interaction::Clicked);
    let effects = game.interact(Action::Play, Interaction::Clicked);
    assert_eq!(
        effects,
        vec![
            Effect::ClearSubmenu(Submenu::Main),
            Effect::ClearScene(State::Menu),
            Effect::SetupScene(State::Hello),
            Effect::Play(Sound::Click),
        ]
    );
    assert_eq!(game.state(), State::Hello);
    assert_eq!(game.submenu(), Submenu::Inactive);
    assert!(game.buttons().is_empty());
}

#[test]
fn menu_options_and_back_change_the_page() {
    let mut game = game_in_menu();
    let effects = game.interact(Action::Options, Interaction::Clicked);
    assert_eq!(
        effects,
        vec![
            Effect::ClearSubmenu(Submenu::Main),
            Effect::SetupSubmenu(Submenu::Options),
            Effect::Play(Sound::Click),
        ]
    );
    assert_eq!(game.submenu(), Submenu::Options);
    assert_eq!(
        game.buttons(),
        vec![setting(true, Action::Windowed), setting(false, Action::FullScreen), add(Action::Back)]
    );
    let effects = game.interact(Action::Back, Interaction::Clicked);
    assert_eq!(
        effects,
        vec![
            Effect::ClearSubmenu(Submenu::Options),
            Effect::SetupSubmenu(Submenu::Main),
            Effect::Play(Sound::Click),
        ]
    );
    assert_eq!(game.submenu(), Submenu::Main);
    assert_eq!(game.state(), State::Menu);
}

#[test]
fn menu_quit_asks_for_the_exit_and_runs_no_exit_handler() {
    let mut game = game_in_menu();
    let effects = game.interact(Action::Quit, Interaction::Clicked);
    assert_eq!(effects, vec![Effect::Exit, Effect::Play(Sound::Click)]);
    assert_eq!(game.state(), State::Menu);
    assert_eq!(game.submenu(), Submenu::Main);
}

#[test]
fn menu_ignores_buttons_it_does_not_show() {
    let mut game = game_in_menu();
    assert!(game.interact(Action::Back, Interaction::Clicked).is_empty());
    assert!(game.interact(Action::FullScreen, Interaction::Clicked).is_empty());
    assert_eq!(game.submenu(), Submenu::Main);
    game.update(SECOND);
    assert_eq!(game.config().mode, DisplayMode::Windowed);
    let mut splash = Game::new();
    assert!(splash.interact(Action::Play, Interaction::Clicked).is_empty());
    assert_eq!(splash.state(), State::Splash);
}

#[test]
fn menu_hover_recolours_without_acting() {
    let mut game = game_in_options();
    assert!(game.interact(Action::Windowed, Interaction::Hovered).is_empty());
    assert!(game.interact(Action::FullScreen, Interaction::Hovered).is_empty());
    let buttons = game.buttons();
    assert_eq!(buttons[0].color, ButtonColor::HoveredSelected);
    assert_eq!(buttons[1].color, ButtonColor::Hovered);
    assert_eq!(buttons[2].color, ButtonColor::Normal);
    game.interact(Action::Windowed, Interaction::Idle);
    game.interact(Action::FullScreen, Interaction::Idle);
    assert_eq!(game.buttons()[0].color, ButtonColor::Clicked);
    assert_eq!(game.buttons()[1].color, ButtonColor::Normal);
    assert_eq!(game.submenu(), Submenu::Options);
}

#[test]
fn options_full_screen_click_changes_mode_and_selection() {
    let mut game = game_in_options();
    let effects = game.interact(Action::FullScreen, Interaction::Clicked);
    assert_eq!(effects, vec![Effect::Play(Sound::Click)]);
    assert_eq!(game.config().mode, DisplayMode::Windowed);
    let effects = game.update(SECOND / 60);
    assert_eq!(effects, vec![Effect::SetWindowMode(WindowMode::Fullscreen)]);
    assert_eq!(game.config().mode, DisplayMode::FullScreen);
    let buttons = game.buttons();
    assert_eq!(buttons[0].action, Action::Windowed);
    assert!(!buttons[0].selected);
    assert_eq!(buttons[0].color, ButtonColor::Normal);
    assert_eq!(buttons[1].action, Action::FullScreen);
    assert!(buttons[1].selected);
    assert_eq!(buttons[1].color, ButtonColor::Clicked);
    assert!(game.update(SECOND / 60).is_empty());
    assert_eq!(game.submenu(), Submenu::Options);
}

#[test]
fn options_page_opens_with_the_current_mode_selected() {
    let mut game = game_in_menu();
    game.toggle_full_screen_on_alt_enter(true, false, true);
    assert_eq!(game.update(0), vec![Effect::SetWindowMode(WindowMode::Fullscreen)]);
    game.interact(Action::Options, Interaction::Clicked);
    assert_eq!(
        game.buttons(),
        vec![setting(false, Action::Windowed), setting(true, Action::FullScreen), add(Action::Back)]
    );
}

#[test]
fn alt_enter_toggles_the_display_mode_in_any_scene() {
    let mut game = Game::new();
    game.toggle_full_screen_on_alt_enter(false, true, true);
    assert_eq!(game.config().mode, DisplayMode::Windowed);
    assert_eq!(game.update(0), vec![Effect::SetWindowMode(WindowMode::Fullscreen)]);
    assert_eq!(game.config().mode, DisplayMode::FullScreen);
    game.toggle_full_screen_on_alt_enter(true, true, true);
    assert_eq!(game.update(0), vec![Effect::SetWindowMode(WindowMode::Windowed)]);
    assert_eq!(game.config().mode, DisplayMode::Windowed);
    game.toggle_full_screen_on_alt_enter(false, false, true);
    game.toggle_full_screen_on_alt_enter(true, false, false);
    assert!(game.update(0).is_empty());
    assert_eq!(game.state(), State::Splash);
}

#[test]
fn queued_changes_are_handled_in_order_in_one_frame() {
    let mut game = game_in_options();
    game.interact(Action::FullScreen, Interaction::Clicked);
    game.interact(Action::Windowed, Interaction::Clicked);
    game.interact(Action::FullScreen, Interaction::Clicked);
    let effects = game.update(0);
    assert_eq!(
        effects,
        vec![
            Effect::SetWindowMode(WindowMode::Fullscreen),
            Effect::SetWindowMode(WindowMode::Windowed),
            Effect::SetWindowMode(WindowMode::Fullscreen),
        ]
    );
    assert_eq!(game.config().mode, DisplayMode::FullScreen);
    assert!(game.buttons()[1].selected);
    assert!(!game.buttons()[0].selected);
}

#[test]
fn app_exit_hands_out_the_record_to_save() {
    let mut game = Game::new();
    assert_eq!(game.app_exit(), Stored::Record(Config { mode: DisplayMode::Windowed }));
    game.toggle_full_screen_on_alt_enter(true, false, true);
    game.update(0);
    let record = game.app_exit();
    assert_eq!(record, Stored::Record(Config { mode: DisplayMode::FullScreen }));
    let mut next = Game::new();
    next.run(record);
    assert_eq!(next.config().mode, DisplayMode::FullScreen);
}

#[test]
fn the_parts_of_a_frame_run_in_order() {
    let mut game = Game::new();
    game.toggle_full_screen_on_alt_enter(true, false, true);
    assert!(game.update_scene(6 * SECOND).is_empty());
    assert_eq!(game.opacity(), Some(INVISIBLE));
    assert_eq!(game.game_events(), vec![Effect::SetWindowMode(WindowMode::Fullscreen)]);
    assert!(game.game_events().is_empty());
    assert_eq!(game.state(), State::Splash);
    assert_eq!(game.go_to_state_system(6 * SECOND).len(), 3);
    assert_eq!(game.state(), State::Menu);
}

#[test]
fn menu_scene_on_its_own() {
    let mut menu = Menu::setup();
    assert_eq!(menu.submenu(), Submenu::Main);
    assert_eq!(menu.buttons().len(), 3);
    menu.open(Submenu::Options, &Config { mode: DisplayMode::FullScreen });
    assert_eq!(menu.submenu(), Submenu::Options);
    assert!(menu.buttons()[1].selected);
    assert_eq!(menu.interact(Action::Play, Interaction::Clicked), None);
    menu.open(Submenu::Inactive, &Config::default());
    assert!(menu.buttons().is_empty());
}

#[test]
fn schedule_replaces_the_pending_transition() {
    let mut game = Game::new();
    game.update(5 * SECOND);
    game.schedule(Go::to(State::Loading).after(2));
    let pending = game.pending().unwrap();
    assert_eq!(pending.state(), State::Loading);
    assert_eq!(pending.timer().elapsed(), 0);
    assert!(game.update(SECOND).is_empty());
    assert_eq!(game.state(), State::Splash);
    game.schedule(Go::to(State::Hello).after(3));
    assert!(game.update(2 * SECOND).is_empty());
    assert_eq!(game.state(), State::Splash);
    let effects = game.update(SECOND);
    assert_eq!(
        effects,
        vec![Effect::ClearScene(State::Splash), Effect::SetupScene(State::Hello)]
    );
    assert_eq!(game.state(), State::Hello);
    assert!(game.pending().is_none());
    assert!(game.update(100 * SECOND).is_empty());
    assert_eq!(game.state(), State::Hello);
}

#[test]
fn schedule_works_in_any_scene() {
    let mut game = game_in_options();
    game.schedule(Go::to(State::Splash).after(1));
    let effects = game.update(SECOND);
    assert_eq!(
        effects,
        vec![
            Effect::ClearSubmenu(Submenu::Options),
            Effect::ClearScene(State::Menu),
            Effect::SetupScene(State::Splash),
            Effect::Play(Sound::Announcement),
        ]
    );
    assert_eq!(game.state(), State::Splash);
    assert_eq!(game.submenu(), Submenu::Inactive);
    assert_eq!(game.pending().unwrap().state(), State::Menu);
    assert_eq!(game.pending().unwrap().timer().elapsed(), 0);
}
