//! The game as a whole: the active scene, what is pending, and the frame
//! that moves it on. The game does no rendering, sound or windowing of its
//! own. Each operation returns the effects it asks its host to perform.

use vstd::prelude::*;
use crate::config::{loaded, Config, DisplayMode, Stored};
use crate::effects::{drained, go_to_state_system, pending_view, scheduled, GoToState, GoToStateView};
use crate::events::{
    alt_enter_request, config_after, toggle_full_screen_on_alt_enter, window_mode_of,
    ChangeDisplayMode, WindowMode,
};
use crate::menu::{mode_of, request_for, Action, Button, Interaction, Request, Submenu};
use crate::loading::{DURATION_LONG_TASK, LONG_TASK};
use crate::progress::{done_ids, Progress};
use crate::scenes::{Loading, LoadingView, Menu, MenuView, Splash, State, DELAY};
use crate::timer::{nanos, total, TimerView};
use crate::tween::AnimatorView;
use crate::window::{setup_window, window_for, WindowSetup};

verus! {

/// The sounds of the game.
#[derive(Debug, Clone, Copy, PartialEq, Eq, Hash, Structural)]
pub enum Sound {
    /// The jingle that goes with the logo.
    Announcement,
    /// The click of a menu button.
    Click,
}

/// What the game asks its host to do.
#[derive(Debug, Clone, Copy, PartialEq, Eq, Hash, Structural)]
pub enum Effect {
    /// Open the window.
    OpenWindow(WindowSetup),
    /// Put the window in another mode.
    SetWindowMode(WindowMode),
    /// Take off the screen what the scene put there.
    ClearScene(State),
    /// Put the scene on the screen.
    SetupScene(State),
    /// Take the page of the menu off the screen.
    ClearSubmenu(Submenu),
    /// Put the page of the menu on the screen.
    SetupSubmenu(Submenu),
    /// Play a sound once.
    Play(Sound),
    /// End the process at once.
    Exit,
}

/// What the game is at any moment.
pub struct GameView {
    /// The active scene.
    pub state: State,
    /// The display configuration.
    pub config: Config,
    /// The scheduled transition, if one is pending.
    pub goto: Option<GoToStateView>,
    /// The fade of the logo, while the splash scene is active.
    pub splash: Option<AnimatorView>,
    /// Progress, clock and spinner, while the loading scene is active.
    pub loading: Option<LoadingView>,
    /// Page and buttons, while the menu scene is active.
    pub menu: Option<MenuView>,
    /// The display-mode changes that were asked for and not yet handled.
    pub events: Seq<ChangeDisplayMode>,
}

impl GameView {
    /// The page of the menu that is shown: `Inactive` outside the menu.
    pub open spec fn submenu(self) -> Submenu {
        match self.menu {
            Some(menu) => menu.submenu,
            None => Submenu::Inactive,
        }
    }

    /// Each scene's state exists exactly while that scene is active, and
    /// the menu always shows a page.
    pub open spec fn scoped(self) -> bool {
        &&& self.splash is Some <==> self.state == State::Splash
        &&& self.loading is Some <==> self.state == State::Loading
        &&& self.menu is Some <==> self.state == State::Menu
        &&& self.menu matches Some(menu) ==> menu.submenu != Submenu::Inactive
    }

    /// The game as it starts with a configuration: in the splash scene,
    /// just entered.
    pub open spec fn started(config: Config) -> GameView {
        GameView {
            state: State::Splash,
            config,
            goto: Some(scheduled(State::Menu, nanos(DELAY as nat))),
            splash: Some(Splash::fresh()),
            loading: None,
            menu: None,
            events: Seq::empty(),
        }
    }

    /// The exit handler of the active scene: the page of the menu and the
    /// scene are cleared off the screen, and what the scene owned is
    /// destroyed, a pending transition included.
    pub open spec fn left(self) -> (GameView, Seq<Effect>) {
        let page = if self.submenu() != Submenu::Inactive {
            seq![Effect::ClearSubmenu(self.submenu())]
        } else {
            Seq::empty()
        };
        (
            GameView { goto: None, splash: None, loading: None, menu: None, ..self },
            page + seq![Effect::ClearScene(self.state)],
        )
    }

    /// The enter handler of `target`, which becomes the active scene. The
    /// splash scene starts its fade, plays the announcement and schedules
    /// the menu; the loading scene starts tracking; the menu opens its
    /// main page.
    pub open spec fn entered(self, target: State) -> (GameView, Seq<Effect>) {
        let game = GameView { state: target, ..self };
        match target {
            State::Splash => (
                GameView {
                    splash: Some(Splash::fresh()),
                    goto: Some(scheduled(State::Menu, nanos(DELAY as nat))),
                    ..game
                },
                seq![Effect::SetupScene(State::Splash), Effect::Play(Sound::Announcement)],
            ),
            State::Loading => (
                GameView { loading: Some(LoadingView::fresh()), ..game },
                seq![Effect::SetupScene(State::Loading)],
            ),
            State::Menu => (
                GameView { menu: Some(MenuView::opened(Submenu::Main, self.config)), ..game },
                seq![Effect::SetupScene(State::Menu), Effect::SetupSubmenu(Submenu::Main)],
            ),
            State::Hello => (game, seq![Effect::SetupScene(State::Hello)]),
        }
    }

    /// A transition to `target`: the active scene's exit handler, then the
    /// change of scene, then the enter handler of `target`.
    pub open spec fn went(self, target: State) -> (GameView, Seq<Effect>) {
        let (out, leaving) = self.left();
        let (game, entering) = out.entered(target);
        (game, leaving + entering)
    }

    /// A change of page inside the menu: the page shown is cleared and
    /// `submenu` is built for the current configuration.
    pub open spec fn opened(self, submenu: Submenu) -> (GameView, Seq<Effect>) {
        match self.menu {
            Some(menu) => (
                GameView { menu: Some(MenuView::opened(submenu, self.config)), ..self },
                (if menu.submenu != Submenu::Inactive {
                    seq![Effect::ClearSubmenu(menu.submenu)]
                } else {
                    Seq::empty()
                }) + seq![Effect::SetupSubmenu(submenu)],
            ),
            None => (self, Seq::empty()),
        }
    }

    /// An interaction with the menu button that does `action`. Outside the
    /// menu, or if the page has no such button, nothing happens. Otherwise
    /// the button is recoloured and, if it was clicked, does its work,
    /// followed by the click sound: quit asks for the exit; play goes to
    /// the game; options and back change the page; the display settings
    /// queue a display-mode change.
    pub open spec fn interacted(self, action: Action, interaction: Interaction) -> (
        GameView,
        Seq<Effect>,
    ) {
        match self.menu {
            None => (self, Seq::empty()),
            Some(menu) => {
                let game = GameView { menu: Some(menu.touched(action, interaction)), ..self };
                let request = if menu.offers(action) {
                    request_for(interaction, action)
                } else {
                    None
                };
                match request {
                    None => (game, Seq::empty()),
                    Some(Request::Quit) => (
                        game,
                        seq![Effect::Exit, Effect::Play(Sound::Click)],
                    ),
                    Some(Request::Play) => {
                        let (next, effects) = game.went(State::Hello);
                        (next, effects + seq![Effect::Play(Sound::Click)])
                    },
                    Some(Request::Open(submenu)) => {
                        let (next, effects) = game.opened(submenu);
                        (next, effects + seq![Effect::Play(Sound::Click)])
                    },
                    Some(Request::Display(change)) => (
                        GameView { events: game.events.push(change), ..game },
                        seq![Effect::Play(Sound::Click)],
                    ),
                }
            },
        }
    }

    /// The game with `goto` as its pending transition, in place of any
    /// other.
    pub open spec fn scheduled(self, goto: GoToStateView) -> GameView {
        GameView { goto: Some(goto), ..self }
    }

    /// What the keyboard does: Alt and Return together queue a change to
    /// the display mode that the configuration does not have.
    pub open spec fn keyed(self, left_alt: bool, right_alt: bool, return_just_pressed: bool)
        -> GameView {
        match alt_enter_request(left_alt, right_alt, return_just_pressed, self.config) {
            Some(change) => GameView { events: self.events.push(change), ..self },
            None => self,
        }
    }

    /// A task's report. It counts while the loading scene is active.
    pub open spec fn reported(self, task_id: u64, done: bool) -> GameView {
        match self.loading {
            Some(loading) => GameView { loading: Some(loading.reported(task_id, done)), ..self },
            None => self,
        }
    }

    /// The update handler of the active scene for a frame of `delta`
    /// nanoseconds. The splash scene advances its fade. The loading scene
    /// goes to the menu if its tasks were all done when the frame began,
    /// and otherwise lets the frame go by. The menu brings its options
    /// page up to date with the queued display-mode changes.
    pub open spec fn scene_updated(self, delta: nat) -> (GameView, Seq<Effect>) {
        match self.state {
            State::Splash => (
                GameView {
                    splash: match self.splash {
                        Some(fade) => Some(fade.advanced(delta)),
                        None => None,
                    },
                    ..self
                },
                Seq::empty(),
            ),
            State::Loading => match self.loading {
                Some(loading) => if loading.complete() {
                    self.went(State::Menu)
                } else {
                    (GameView { loading: Some(loading.updated(delta)), ..self }, Seq::empty())
                },
                None => (self, Seq::empty()),
            },
            State::Menu => (
                GameView {
                    menu: match self.menu {
                        Some(menu) => Some(menu.updated(self.events)),
                        None => None,
                    },
                    ..self
                },
                Seq::empty(),
            ),
            State::Hello => (self, Seq::empty()),
        }
    }

    /// The queued display-mode changes are handled in order: each is
    /// written to the configuration and sets the window's mode; then the
    /// queue is empty.
    pub open spec fn events_handled(self) -> (GameView, Seq<Effect>) {
        (
            GameView { config: config_after(self.config, self.events), events: Seq::empty(), ..self },
            Seq::new(
                self.events.len(),
                |i: int| Effect::SetWindowMode(window_mode_of(self.events[i].mode)),
            ),
        )
    }

    /// The pending transition is ticked, and if its time is up it is
    /// consumed and the game goes to its target.
    pub open spec fn transition_drained(self, delta: nat) -> (GameView, Seq<Effect>) {
        let (goto, fired) = drained(self.goto, delta);
        let game = GameView { goto, ..self };
        match fired {
            Some(target) => game.went(target),
            None => (game, Seq::empty()),
        }
    }

    /// One frame: the active scene's update handler, then the display-mode
    /// changes, then the scheduled transition.
    pub open spec fn framed(self, delta: nat) -> (GameView, Seq<Effect>) {
        let (first, updating) = self.scene_updated(delta);
        let (second, handling) = first.events_handled();
        let (third, draining) = second.transition_drained(delta);
        (third, updating + handling + draining)
    }
}

/// The game after one frame for each frame time in `deltas`, in order,
/// with nothing else happening in between.
pub open spec fn played(game: GameView, deltas: Seq<nat>) -> GameView
    decreases deltas.len(),
{
    if deltas.len() == 0 {
        game
    } else {
        played(game.framed(deltas[0]).0, deltas.drop_first())
    }
}

/// The transition protocol. After a transition the target is the active
/// scene and only its own state exists: the submenu is at the main page if
/// the target is the menu and inactive otherwise, and a transition is
/// pending only if the target is the splash scene, which schedules the
/// menu. The effects begin with the exit of the old scene, its menu page
/// first if it shows one, and go on with the entry of the new one: each
/// scene is cleared and set up exactly once. The configuration and the
/// queued display-mode changes pass through untouched.
pub proof fn lemma_transition_protocol(game: GameView, target: State)
    ensures
        ({
            let (next, effects) = game.went(target);
            let page: int = if game.submenu() != Submenu::Inactive {
                1
            } else {
                0
            };
            &&& next.state == target
            &&& next.scoped()
            &&& next.submenu() == if target == State::Menu {
                Submenu::Main
            } else {
                Submenu::Inactive
            }
            &&& next.goto == if target == State::Splash {
                Some(scheduled(State::Menu, nanos(DELAY as nat)))
            } else {
                None
            }
            &&& next.config == game.config
            &&& next.events == game.events
            &&& effects.len() >= page + 2
            &&& page == 1 ==> effects[0] == Effect::ClearSubmenu(game.submenu())
            &&& effects[page] == Effect::ClearScene(game.state)
            &&& effects[page + 1] == Effect::SetupScene(target)
            &&& forall|i: int|
                0 <= i < effects.len() && i != page ==> !(#[trigger] effects[i] is ClearScene)
            &&& forall|i: int|
                0 <= i < effects.len() && i != page + 1 ==> !(#[trigger] effects[i] is SetupScene)
        }),
{
}

/// A game at rest in the menu stays as it is, however many frames pass:
/// with nothing pending and nothing queued, only input moves it.
pub proof fn lemma_menu_rests(game: GameView, deltas: Seq<nat>)
    requires
        game.state == State::Menu,
        game.goto is None,
        game.events == Seq::<ChangeDisplayMode>::empty(),
    ensures
        played(game, deltas) == game,
    decreases deltas.len(),
{
    if deltas.len() > 0 {
        let next = game.framed(deltas[0]).0;
        assert(game.scene_updated(deltas[0]).0 == game) by {
            match game.menu {
                Some(menu) => {
                    assert(menu.updated(game.events).buttons =~= menu.buttons);
                },
                None => {},
            }
        }
        assert(next == game);
        lemma_menu_rests(game, deltas.drop_first());
    }
}

/// While the splash scene waits for its scheduled transition, frames only
/// advance the fade and the countdown; the frame at which the countdown is
/// up goes to the menu, and there the game rests.
proof fn lemma_splash_waits(game: GameView, deltas: Seq<nat>)
    requires
        game.state == State::Splash,
        game.events == Seq::<ChangeDisplayMode>::empty(),
        game.loading is None,
        game.menu is None,
        game.splash matches Some(fade) && fade.elapsed <= fade.duration(),
        game.goto matches Some(goto) && goto.state == State::Menu && goto.timer.wf()
            && !goto.timer.finished,
    ensures
        ({
            let goto = game.goto->0;
            let end = played(game, deltas);
            &&& if deltas.len() > 0 && goto.timer.elapsed + total(deltas) >= goto.timer.duration {
                &&& end.state == State::Menu
                &&& end.menu == Some(MenuView::opened(Submenu::Main, game.config))
                &&& end.goto is None
                &&& end.splash is None
            } else {
                &&& end.state == State::Splash
                &&& end.menu is None
                &&& end.goto == Some(
                    GoToStateView {
                        timer: TimerView {
                            elapsed: goto.timer.elapsed + total(deltas),
                            ..goto.timer
                        },
                        ..goto
                    },
                )
                &&& end.splash == Some(game.splash->0.advanced(total(deltas)))
            }
            &&& end.config == game.config
            &&& end.events == game.events
            &&& end.loading is None
        }),
    decreases deltas.len(),
{
    if deltas.len() > 0 {
        let delta = deltas[0];
        let rest = deltas.drop_first();
        let next = game.framed(delta).0;
        if next.state == State::Menu {
            lemma_menu_rests(next, rest);
        } else {
            lemma_splash_waits(next, rest);
            let fade = game.splash->0;
            assert(fade.advanced(delta).advanced(total(rest)) == fade.advanced(total(deltas)));
        }
    }
}

/// A game that is started and then left alone shows the splash scene
/// until the frame at which the frame times add up to the splash delay,
/// and from that frame on it is in the menu, on the main page. It is
/// never anywhere else.
pub proof fn lemma_splash_leads_to_menu(config: Config, deltas: Seq<nat>)
    ensures
        ({
            let end = played(GameView::started(config), deltas);
            if deltas.len() > 0 && total(deltas) >= nanos(DELAY as nat) {
                end.state == State::Menu && end.submenu() == Submenu::Main
            } else {
                end.state == State::Splash && end.submenu() == Submenu::Inactive
            }
        }),
{
    lemma_splash_waits(GameView::started(config), deltas);
}

/// The sum of all frame times but the last is the first and the sum of
/// all of the rest but the last.
proof fn lemma_total_but_last(deltas: Seq<nat>)
    requires
        deltas.len() >= 2,
    ensures
        total(deltas.drop_last()) == deltas[0] + total(deltas.drop_first().drop_last()),
{
    assert(deltas.drop_last().drop_first() =~= deltas.drop_first().drop_last());
}

/// While the loading scene tracks nothing but its stand-in task, and that
/// task is not done, frames only let the time pass; the frame after the
/// one in which the time passes the task's duration goes to the menu.
proof fn lemma_loading_waits(game: GameView, deltas: Seq<nat>)
    requires
        game.state == State::Loading,
        game.events == Seq::<ChangeDisplayMode>::empty(),
        game.goto is None,
        game.splash is None,
        game.menu is None,
        game.loading matches Some(loading) && loading.elapsed <= DURATION_LONG_TASK && (
        loading.tasks == Map::<u64, bool>::empty() || loading.tasks == Map::<u64, bool>::empty().insert(
            LONG_TASK,
            false,
        )),
        game.loading->0.elapsed + total(deltas) <= u64::MAX,
    ensures
        ({
            let end = played(game, deltas);
            if deltas.len() >= 2 && game.loading->0.elapsed + total(deltas.drop_last())
                > DURATION_LONG_TASK {
                end.state == State::Menu && end.submenu() == Submenu::Main
            } else {
                &&& end.state == State::Loading
                &&& end.loading matches Some(loading)
                &&& loading.elapsed == game.loading->0.elapsed + total(deltas)
                &&& deltas.len() > 0 ==> loading.complete() == (loading.elapsed
                    > DURATION_LONG_TASK)
            }
        }),
    decreases deltas.len(),
{
    let loading = game.loading->0;
    let none = Map::<u64, bool>::empty();
    assert(!loading.complete()) by {
        assert(done_ids(none) =~= Set::<u64>::empty());
        assert(done_ids(none.insert(LONG_TASK, false)) =~= Set::<u64>::empty());
        assert(none.insert(LONG_TASK, false).dom() =~= set![LONG_TASK]);
    }
    if deltas.len() > 0 {
        let delta = deltas[0];
        let rest = deltas.drop_first();
        let next = game.framed(delta).0;
        let after = next.loading->0;
        let done = after.elapsed > DURATION_LONG_TASK;
        assert(after.tasks =~= none.insert(LONG_TASK, done));
        assert(after.tasks.dom() =~= set![LONG_TASK]);
        if deltas.len() >= 2 {
            lemma_total_but_last(deltas);
        }
        if done {
            assert(done_ids(after.tasks) =~= set![LONG_TASK]);
            assert(after.complete());
            if rest.len() > 0 {
                let then = next.framed(rest[0]).0;
                assert(then == next.went(State::Menu).0);
                lemma_menu_rests(then, rest.drop_first());
            }
        } else {
            assert(done_ids(after.tasks) =~= Set::<u64>::empty());
            assert(after.tasks == none.insert(LONG_TASK, false));
            lemma_loading_waits(next, rest);
        }
    }
}

/// A game that has just entered the loading scene and gets no reports but
/// those of its stand-in task stays there until the time has passed the
/// task's duration. The frame at which that happens finds loading
/// complete, and the frame after it goes to the menu, on the main page.
pub proof fn lemma_loading_leads_to_menu(game: GameView, deltas: Seq<nat>)
    requires
        total(deltas) <= u64::MAX,
    ensures
        ({
            let end = played(game.went(State::Loading).0, deltas);
            if deltas.len() >= 2 && total(deltas.drop_last()) > DURATION_LONG_TASK {
                end.state == State::Menu && end.submenu() == Submenu::Main
            } else {
                &&& end.state == State::Loading
                &&& end.loading matches Some(loading)
                &&& deltas.len() > 0 ==> loading.complete() == (total(deltas) > DURATION_LONG_TASK)
            }
        }),
{
    let start = game.went(State::Loading).0;
    let queued = start.events;
    if queued.len() == 0 {
        assert(queued =~= Seq::<ChangeDisplayMode>::empty());
        lemma_loading_waits(start, deltas);
    } else if deltas.len() > 0 {
        // The first frame also handles what was queued; from then on the
        // queue is empty and the frames are as above.
        let first = start.framed(deltas[0]).0;
        let none = Map::<u64, bool>::empty();
        assert(done_ids(none) =~= Set::<u64>::empty());
        assert(!start.loading->0.complete());
        let settled = GameView { events: Seq::empty(), config: first.config, ..start };
        assert(settled.framed(deltas[0]).0 == first);
        lemma_loading_waits(settled, deltas);
    }
}

/// Choosing a display mode on the options page shows within the frame
/// that follows: the click queues the change and is answered with the
/// click sound alone; the next frame writes the mode to the configuration,
/// sets the window's mode last of all, and leaves exactly the alternative
/// that stands for the chosen mode selected. The menu stays on its
/// options page throughout.
pub proof fn lemma_display_choice_shows(game: GameView, action: Action, delta: nat)
    requires
        game.state == State::Menu,
        game.goto is None,
        game.menu matches Some(menu) && menu.submenu == Submenu::Options && menu.offers(action),
        mode_of(action) is Some,
    ensures
        ({
            let mode = mode_of(action)->0;
            let (clicked, sound) = game.interacted(action, Interaction::Clicked);
            let (end, effects) = clicked.framed(delta);
            &&& sound == seq![Effect::Play(Sound::Click)]
            &&& clicked.config == game.config
            &&& end.config.mode == mode
            &&& end.state == State::Menu
            &&& end.submenu() == Submenu::Options
            &&& end.events.len() == 0
            &&& effects.len() == game.events.len() + 1
            &&& effects.last() == Effect::SetWindowMode(window_mode_of(mode))
            &&& end.menu->0.buttons.len() == game.menu->0.buttons.len()
            &&& forall|i: int|
                0 <= i < end.menu->0.buttons.len() ==> {
                    let button = #[trigger] end.menu->0.buttons[i];
                    &&& button.action == game.menu->0.buttons[i].action
                    &&& mode_of(button.action) matches Some(own) ==> button.selected == (own
                        == mode)
                }
        }),
{
    let (clicked, sound) = game.interacted(action, Interaction::Clicked);
    let (end, effects) = clicked.framed(delta);
    let (first, updating) = clicked.scene_updated(delta);
    let (second, handling) = first.events_handled();
    assert(clicked.events.last().mode == mode_of(action)->0);
    assert(effects =~= handling);
}

/// Scheduling again before a pending transition has fired leaves one
/// transition to come, and it is the later one: frames that pass in a
/// scene that does nothing but wait take the game to the target scheduled
/// last, at the frame at which that transition's own delay is up, and the
/// first target is never entered on the way.
pub proof fn lemma_last_scheduled_wins(
    game: GameView,
    first: GoToStateView,
    second: State,
    delay: nat,
    delta: nat,
)
    requires
        game.state == State::Hello,
        game.events == Seq::<ChangeDisplayMode>::empty(),
    ensures
        ({
            let twice = game.scheduled(first).scheduled(scheduled(second, delay));
            let (end, effects) = twice.framed(delta);
            if delta >= delay {
                end == twice.went(second).0 && end.state == second
            } else {
                &&& end.state == State::Hello
                &&& end.goto == Some(
                    GoToStateView {
                        timer: TimerView { elapsed: delta, ..TimerView::fresh(delay) },
                        ..scheduled(second, delay)
                    },
                )
                &&& effects.len() == 0
            }
        }),
{
    let twice = game.scheduled(first).scheduled(scheduled(second, delay));
    let (one, updating) = twice.scene_updated(delta);
    let (two, handling) = one.events_handled();
    assert(two == twice);
    assert(handling =~= Seq::<Effect>::empty());
    let (end, effects) = twice.framed(delta);
    if delta >= delay {
        assert(end == GameView { goto: None, ..twice }.went(second).0);
    }
}

/// The game.
#[derive(Debug)]
pub struct Game {
    state: State,
    config: Config,
    goto: Option<GoToState>,
    splash: Option<Splash>,
    loading: Option<Loading>,
    menu: Option<Menu>,
    events: Vec<ChangeDisplayMode>,
}

impl View for Game {
    type V = GameView;

    closed spec fn view(&self) -> GameView {
        GameView {
            state: self.state,
            config: self.config,
            goto: pending_view(self.goto),
            splash: match self.splash {
                Some(splash) => Some(splash@),
                None => None,
            },
            loading: match self.loading {
                Some(loading) => Some(loading@),
                None => None,
            },
            menu: match self.menu {
                Some(menu) => Some(menu@),
                None => None,
            },
            events: self.events@,
        }
    }
}

impl Game {
    /// The game's invariant: the scenes' own invariants hold, and each
    /// scene's state exists exactly while that scene is active.
    pub closed spec fn wf(&self) -> bool {
        &&& self@.scoped()
        &&& self.splash matches Some(splash) ==> splash.wf()
        &&& self.loading matches Some(loading) ==> loading.wf()
    }

    /// A game is always scoped: the submenu is inactive outside the menu,
    /// and a fade or a progress counter exists only in its own scene.
    pub proof fn lemma_scoped(&self)
        requires
            self.wf(),
        ensures
            self@.scoped(),
    {
    }

    /// A game with the default configuration, in the splash scene.
    pub fn new() -> (game: Game)
        ensures
            game.wf(),
            game@ == GameView::started(Config { mode: DisplayMode::Windowed }),
    {
        let (splash, goto) = Splash::setup();
        Game {
            state: State::Splash,
            config: Config::default(),
            goto: Some(goto),
            splash: Some(splash),
            loading: None,
            menu: None,
            events: Vec::new(),
        }
    }

    /// Starts the game with what the store held: the configuration is
    /// loaded, the window is opened for it, and the splash scene is
    /// entered.
    pub fn run(&mut self, stored: Stored) -> (effects: Vec<Effect>)
        ensures
            final(self).wf(),
            final(self)@ == GameView::started(loaded(stored)),
            effects@ == seq![
                Effect::OpenWindow(window_for(loaded(stored))),
                Effect::SetupScene(State::Splash),
                Effect::Play(Sound::Announcement),
            ],
    {
        let config = Config::load(stored);
        let (splash, goto) = Splash::setup();
        self.state = State::Splash;
        self.config = config;
        self.goto = Some(goto);
        self.splash = Some(splash);
        self.loading = None;
        self.menu = None;
        self.events = Vec::new();
        let mut effects: Vec<Effect> = Vec::new();
        effects.push(Effect::OpenWindow(setup_window(config)));
        effects.push(Effect::SetupScene(State::Splash));
        effects.push(Effect::Play(Sound::Announcement));
        effects
    }

    fn leave(&mut self, effects: &mut Vec<Effect>)
        ensures
            final(self)@ == old(self)@.left().0,
            final(effects)@ == old(effects)@ + old(self)@.left().1,
    {
        if let Some(menu) = &self.menu {
            let submenu = menu.submenu();
            if submenu != Submenu::Inactive {
                effects.push(Effect::ClearSubmenu(submenu));
            }
        }
        effects.push(Effect::ClearScene(self.state));
        self.goto = None;
        self.splash = None;
        self.loading = None;
        self.menu = None;
        assert(effects@ =~= old(effects)@ + old(self)@.left().1);
    }

    fn enter(&mut self, target: State, effects: &mut Vec<Effect>)
        requires
            old(self)@ == old(self)@.left().0,
        ensures
            final(self).wf(),
            final(self)@ == old(self)@.entered(target).0,
            final(effects)@ == old(effects)@ + old(self)@.entered(target).1,
    {
        self.state = target;
        effects.push(Effect::SetupScene(target));
        match target {
            State::Splash => {
                let (splash, goto) = Splash::setup();
                self.splash = Some(splash);
                self.goto = Some(goto);
                effects.push(Effect::Play(Sound::Announcement));
            },
            State::Loading => {
                self.loading = Some(Loading::setup());
            },
            State::Menu => {
                self.menu = Some(Menu::setup());
                effects.push(Effect::SetupSubmenu(Submenu::Main));
            },
            State::Hello => {},
        }
        assert(effects@ =~= old(effects)@ + old(self)@.entered(target).1);
    }

    fn go(&mut self, target: State, effects: &mut Vec<Effect>)
        ensures
            final(self).wf(),
            final(self)@ == old(self)@.went(target).0,
            final(effects)@ == old(effects)@ + old(self)@.went(target).1,
    {
        self.leave(effects);
        self.enter(target, effects);
        assert(effects@ =~= old(effects)@ + old(self)@.went(target).1);
    }

    fn open(&mut self, submenu: Submenu, effects: &mut Vec<Effect>)
        requires
            old(self).wf(),
            submenu != Submenu::Inactive,
        ensures
            final(self).wf(),
            final(self)@ == old(self)@.opened(submenu).0,
            final(effects)@ == old(effects)@ + old(self)@.opened(submenu).1,
    {
        let config = self.config;
        if let Some(menu) = self.menu.as_mut() {
            let shown = menu.submenu();
            if shown != Submenu::Inactive {
                effects.push(Effect::ClearSubmenu(shown));
            }
            menu.open(submenu, &config);
            effects.push(Effect::SetupSubmenu(submenu));
        }
        assert(effects@ =~= old(effects)@ + old(self)@.opened(submenu).1);
    }

    /// Changes the scene: runs the exit handler of the active scene, makes
    /// `target` the active scene, and runs its enter handler. Going to the
    /// scene that is already active leaves and enters it again.
    pub fn set_state(&mut self, target: State) -> (effects: Vec<Effect>)
        ensures
            final(self).wf(),
            final(self)@ == old(self)@.went(target).0,
            effects@ == old(self)@.went(target).1,
    {
        let mut effects: Vec<Effect> = Vec::new();
        self.go(target, &mut effects);
        assert(effects@ =~= old(self)@.went(target).1);
        effects
    }

    /// Schedules a transition. Only one transition is ever pending: this
    /// one replaces whatever was pending before, which is discarded and
    /// never fires. The last one scheduled wins; nothing is queued.
    pub fn schedule(&mut self, goto: GoToState)
        requires
            old(self).wf(),
        ensures
            final(self).wf(),
            final(self)@ == old(self)@.scheduled(goto@),
    {
        self.goto = Some(goto);
    }

    /// Takes an interaction with the menu button that does `action`.
    pub fn interact(&mut self, action: Action, interaction: Interaction) -> (effects: Vec<Effect>)
        requires
            old(self).wf(),
        ensures
            final(self).wf(),
            final(self)@ == old(self)@.interacted(action, interaction).0,
            effects@ == old(self)@.interacted(action, interaction).1,
    {
        let mut effects: Vec<Effect> = Vec::new();
        let request = match self.menu.as_mut() {
            Some(menu) => menu.interact(action, interaction),
            None => None,
        };
        match request {
            None => {},
            Some(Request::Quit) => {
                effects.push(Effect::Exit);
                effects.push(Effect::Play(Sound::Click));
            },
            Some(Request::Play) => {
                self.go(State::Hello, &mut effects);
                effects.push(Effect::Play(Sound::Click));
            },
            Some(Request::Open(submenu)) => {
                self.open(submenu, &mut effects);
                effects.push(Effect::Play(Sound::Click));
            },
            Some(Request::Display(change)) => {
                self.events.push(change);
                effects.push(Effect::Play(Sound::Click));
            },
        }
        assert(effects@ =~= old(self)@.interacted(action, interaction).1);
        effects
    }

    /// Takes the state of the keys: either Alt key held while Return goes
    /// down queues a switch of the display mode.
    pub fn toggle_full_screen_on_alt_enter(
        &mut self,
        left_alt: bool,
        right_alt: bool,
        return_just_pressed: bool,
    )
        requires
            old(self).wf(),
        ensures
            final(self).wf(),
            final(self)@ == old(self)@.keyed(left_alt, right_alt, return_just_pressed),
    {
        let request = toggle_full_screen_on_alt_enter(
            left_alt,
            right_alt,
            return_just_pressed,
            &self.config,
        );
        if let Some(change) = request {
            self.events.push(change);
        }
    }

    /// Takes the report of a task. Outside the loading scene nobody is
    /// counting, and the report is dropped.
    pub fn report(&mut self, task_id: u64, done: bool)
        requires
            old(self).wf(),
        ensures
            final(self).wf(),
            final(self)@ == old(self)@.reported(task_id, done),
    {
        if let Some(loading) = self.loading.as_mut() {
            loading.report(task_id, done);
        }
    }

    /// Runs the update handler of the active scene.
    pub fn update_scene(&mut self, delta: u64) -> (effects: Vec<Effect>)
        requires
            old(self).wf(),
        ensures
            final(self).wf(),
            final(self)@ == old(self)@.scene_updated(delta as nat).0,
            effects@ == old(self)@.scene_updated(delta as nat).1,
    {
        let mut effects: Vec<Effect> = Vec::new();
        match self.state {
            State::Splash => {
                if let Some(splash) = self.splash.as_mut() {
                    splash.update(delta);
                }
            },
            State::Loading => {
                let over = match self.loading.as_mut() {
                    Some(loading) => loading.update(delta),
                    None => false,
                };
                if over {
                    self.go(State::Menu, &mut effects);
                }
            },
            State::Menu => {
                if let Some(menu) = self.menu.as_mut() {
                    menu.update(&self.events);
                }
            },
            State::Hello => {},
        }
        assert(effects@ =~= old(self)@.scene_updated(delta as nat).1);
        effects
    }

    /// Handles the queued display-mode changes.
    pub fn game_events(&mut self) -> (effects: Vec<Effect>)
        requires
            old(self).wf(),
        ensures
            final(self).wf(),
            final(self)@ == old(self)@.events_handled().0,
            effects@ == old(self)@.events_handled().1,
    {
        let modes = crate::events::game_events(&self.events, &mut self.config);
        let mut effects: Vec<Effect> = Vec::new();
        let mut i: usize = 0;
        while i < modes.len()
            invariant
                i <= modes.len(),
                effects@.len() == i,
                forall|k: int| 0 <= k < i ==> effects@[k] == Effect::SetWindowMode(modes@[k]),
            decreases modes.len() - i,
        {
            effects.push(Effect::SetWindowMode(modes[i]));
            i = i + 1;
        }
        self.events = Vec::new();
        assert(effects@ =~= old(self)@.events_handled().1);
        effects
    }

    /// Ticks the scheduled transition and makes it when its time is up.
    pub fn go_to_state_system(&mut self, delta: u64) -> (effects: Vec<Effect>)
        requires
            old(self).wf(),
        ensures
            final(self).wf(),
            final(self)@ == old(self)@.transition_drained(delta as nat).0,
            effects@ == old(self)@.transition_drained(delta as nat).1,
    {
        let mut effects: Vec<Effect> = Vec::new();
        let fired = go_to_state_system(&mut self.goto, delta);
        if let Some(target) = fired {
            self.go(target, &mut effects);
        }
        assert(effects@ =~= old(self)@.transition_drained(delta as nat).1);
        effects
    }

    /// Runs one frame that took `delta` nanoseconds: the active scene's
    /// update handler, then the display-mode changes, then the scheduled
    /// transition. A transition that starts in a frame is complete, exit
    /// and enter, before the frame ends.
    pub fn update(&mut self, delta: u64) -> (effects: Vec<Effect>)
        requires
            old(self).wf(),
        ensures
            final(self).wf(),
            final(self)@ == old(self)@.framed(delta as nat).0,
            effects@ == old(self)@.framed(delta as nat).1,
    {
        let mut effects = self.update_scene(delta);
        let mut handling = self.game_events();
        let mut draining = self.go_to_state_system(delta);
        effects.append(&mut handling);
        effects.append(&mut draining);
        effects
    }

    /// The record to write to the store when the game is left.
    pub fn app_exit(&self) -> (stored: Stored)
        ensures
            stored == Stored::Record(self@.config),
    {
        self.config.save()
    }

    /// The active scene.
    pub fn state(&self) -> (state: State)
        ensures
            state == self@.state,
    {
        self.state
    }

    /// The page of the menu that is shown: `Inactive` outside the menu.
    pub fn submenu(&self) -> (submenu: Submenu)
        ensures
            submenu == self@.submenu(),
    {
        match &self.menu {
            Some(menu) => menu.submenu(),
            None => Submenu::Inactive,
        }
    }

    /// The display configuration.
    pub fn config(&self) -> (config: Config)
        ensures
            config == self@.config,
    {
        self.config
    }

    /// The scheduled transition, if one is pending.
    pub fn pending(&self) -> (goto: Option<GoToState>)
        ensures
            pending_view(goto) == self@.goto,
    {
        self.goto
    }

    /// The opacity of the logo in millionths, while the splash scene is
    /// active.
    pub fn opacity(&self) -> (opacity: Option<u32>)
        requires
            self.wf(),
        ensures
            match self@.splash {
                Some(fade) => opacity matches Some(value) && value == fade.value(),
                None => opacity is None,
            },
    {
        match &self.splash {
            Some(splash) => Some(splash.opacity()),
            None => None,
        }
    }

    /// The counts of done and tracked tasks, while the loading scene is
    /// active.
    pub fn progress(&self) -> (progress: Option<Progress>)
        requires
            self.wf(),
        ensures
            match self@.loading {
                Some(loading) => progress matches Some(p) && p.done == crate::progress::done_of(
                    loading.tasks,
                ) && p.total == crate::progress::total_of(loading.tasks),
                None => progress is None,
            },
    {
        match &self.loading {
            Some(loading) => Some(loading.progress()),
            None => None,
        }
    }

    /// The angle of the spinner in billionths of a degree, while the
    /// loading scene is active.
    pub fn spinner(&self) -> (angle: Option<u64>)
        ensures
            match self@.loading {
                Some(loading) => angle matches Some(value) && value == loading.spinner.angle,
                None => angle is None,
            },
    {
        match &self.loading {
            Some(loading) => Some(loading.angle()),
            None => None,
        }
    }

    /// The buttons of the page shown, in order; none outside the menu.
    pub fn buttons(&self) -> (buttons: Vec<Button>)
        ensures
            buttons@ == match self@.menu {
                Some(menu) => menu.buttons,
                None => Seq::empty(),
            },
    {
        match &self.menu {
            Some(menu) => {
                let shown = menu.buttons();
                let mut buttons: Vec<Button> = Vec::new();
                let mut i: usize = 0;
                while i < shown.len()
                    invariant
                        i <= shown.len(),
                        buttons@ == shown@.take(i as int),
                    decreases shown.len() - i,
                {
                    buttons.push(shown[i]);
                    i = i + 1;
                    assert(buttons@ =~= shown@.take(i as int));
                }
                assert(shown@.take(i as int) =~= shown@);
                buttons
            },
            None => Vec::new(),
        }
    }
}

} // verus!
