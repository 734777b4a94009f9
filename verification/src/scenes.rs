//! The scenes of the game and what each of them keeps while it is active.

use vstd::prelude::*;
use crate::config::Config;
use crate::effects::{scheduled, Go, GoToState, INVISIBLE};
use crate::events::ChangeDisplayMode;
use crate::fade::{fade_steps, in_out_sprite};
use crate::loading::{fake_long_task, long_task_done, Rotate, RotateView, LONG_TASK, SPINNER_SPEED};
use crate::menu::{
    buttons_after, buttons_of, color_for, request_for, setup_main, setup_options,
    update_options_buttons, Action, Button, Interaction, Request, Submenu,
};
use crate::progress::{complete, Progress, ProgressCounter};
use crate::timer::nanos;
use crate::tween::{Animator, AnimatorView};

verus! {

/// A top-level scene. Exactly one is active at any time.
#[derive(Debug, Clone, Copy, PartialEq, Eq, Hash, Structural)]
pub enum State {
    /// The logo fades in and out.
    Splash,
    /// A spinner turns while the tracked tasks finish.
    Loading,
    /// The menu with its pages.
    Menu,
    /// The game itself, for now a greeting.
    Hello,
}

/// Seconds over which the logo fades in.
pub const IN: u64 = 2;

/// Seconds for which the logo stays.
pub const PAUSE: u64 = 2;

/// Seconds over which the logo fades out.
pub const OUT: u64 = 1;

/// Seconds of grace between the end of the fade and the menu.
pub const GRACE: u64 = 1;

/// Seconds from the start of the splash scene to the menu: the whole fade
/// and the grace period.
pub const DELAY: u64 = IN + PAUSE + OUT + GRACE;

/// The splash scene: the logo and its fade.
#[derive(Debug)]
pub struct Splash {
    fade: Animator,
}

impl View for Splash {
    type V = AnimatorView;

    closed spec fn view(&self) -> AnimatorView {
        self.fade@
    }
}

impl Splash {
    /// The scene's invariant: its animation is in order.
    pub closed spec fn wf(&self) -> bool {
        self.fade.wf()
    }

    /// The fade of the logo at its start.
    pub open spec fn fresh() -> AnimatorView {
        AnimatorView::fresh(fade_steps(IN as nat, PAUSE as nat, OUT as nat), INVISIBLE)
    }

    /// Enters the scene: the logo starts invisible with its fade in, pause
    /// and fade out ahead of it, and the menu is scheduled for when the
    /// fade is over and the grace period has passed.
    pub fn setup() -> (entered: (Splash, GoToState))
        ensures
            entered.0.wf(),
            entered.0@ == Self::fresh(),
            entered.1@ == scheduled(State::Menu, nanos(DELAY as nat)),
    {
        (Splash { fade: in_out_sprite(IN, PAUSE, OUT) }, Go::to(State::Menu).after(DELAY))
    }

    /// Advances the fade by the time the frame took and returns the logo's
    /// opacity.
    pub fn update(&mut self, delta: u64) -> (opacity: u32)
        requires
            old(self).wf(),
        ensures
            final(self).wf(),
            final(self)@ == old(self)@.advanced(delta as nat),
            opacity == final(self)@.value(),
    {
        self.fade.tick(delta)
    }

    /// The logo's opacity, in millionths.
    pub fn opacity(&self) -> (opacity: u32)
        requires
            self.wf(),
        ensures
            opacity == self@.value(),
    {
        self.fade.value()
    }
}

/// What the loading scene keeps: the latest report of each task, how long
/// loading has gone on, and the spinner.
pub struct LoadingView {
    pub tasks: Map<u64, bool>,
    pub elapsed: nat,
    pub spinner: RotateView,
}

impl LoadingView {
    /// The scene as it is entered: nothing tracked, no time passed, the
    /// spinner upright.
    pub open spec fn fresh() -> LoadingView {
        LoadingView {
            tasks: Map::empty(),
            elapsed: 0,
            spinner: RotateView { speed: SPINNER_SPEED as nat, angle: 0 },
        }
    }

    /// Whether every tracked task is done, and there is one.
    pub open spec fn complete(self) -> bool {
        complete(self.tasks)
    }

    /// The scene one frame of `delta` nanoseconds later: time goes on
    /// (the clock stops at the most it can hold), the spinner turns, and
    /// the stand-in task reports for the new time.
    pub open spec fn updated(self, delta: nat) -> LoadingView {
        let elapsed = if self.elapsed + delta > u64::MAX {
            u64::MAX as nat
        } else {
            self.elapsed + delta
        };
        LoadingView {
            tasks: self.tasks.insert(LONG_TASK, long_task_done(elapsed)),
            elapsed,
            spinner: self.spinner.turned(delta),
        }
    }

    /// The scene after a task reported.
    pub open spec fn reported(self, task_id: u64, done: bool) -> LoadingView {
        LoadingView { tasks: self.tasks.insert(task_id, done), ..self }
    }
}

/// The loading scene.
#[derive(Debug)]
pub struct Loading {
    progress: ProgressCounter,
    elapsed: u64,
    spinner: Rotate,
}

impl View for Loading {
    type V = LoadingView;

    closed spec fn view(&self) -> LoadingView {
        LoadingView {
            tasks: self.progress@,
            elapsed: self.elapsed as nat,
            spinner: self.spinner@,
        }
    }
}

impl Loading {
    /// The scene's invariant: its counter is in order.
    pub closed spec fn wf(&self) -> bool {
        self.progress.wf()
    }

    /// Enters the scene: starts tracking progress and sets the spinner
    /// turning.
    pub fn setup() -> (loading: Loading)
        ensures
            loading.wf(),
            loading@ == LoadingView::fresh(),
    {
        Loading {
            progress: ProgressCounter::new(),
            elapsed: 0,
            spinner: Rotate::angle_per_second(SPINNER_SPEED),
        }
    }

    /// One frame of loading. If the tracked tasks were all done when the
    /// frame began, loading is over: nothing changes and the answer is
    /// `true`. Otherwise the frame goes by and the answer is `false`.
    pub fn update(&mut self, delta: u64) -> (over: bool)
        requires
            old(self).wf(),
        ensures
            final(self).wf(),
            over == old(self)@.complete(),
            final(self)@ == if over {
                old(self)@
            } else {
                old(self)@.updated(delta as nat)
            },
    {
        if self.progress.is_complete() {
            return true;
        }
        self.elapsed = if delta > u64::MAX - self.elapsed {
            u64::MAX
        } else {
            self.elapsed + delta
        };
        self.spinner.tick(delta);
        fake_long_task(self.elapsed, &mut self.progress);
        false
    }

    /// Takes the report of a task.
    pub fn report(&mut self, task_id: u64, done: bool)
        requires
            old(self).wf(),
        ensures
            final(self).wf(),
            final(self)@ == old(self)@.reported(task_id, done),
    {
        self.progress.report(task_id, done);
    }

    /// The counts of done and tracked tasks.
    pub fn progress(&self) -> (progress: Progress)
        requires
            self.wf(),
        ensures
            progress.done == crate::progress::done_of(self@.tasks),
            progress.total == crate::progress::total_of(self@.tasks),
    {
        self.progress.progress()
    }

    /// Whether every tracked task is done, and there is one.
    pub fn is_complete(&self) -> (complete: bool)
        requires
            self.wf(),
        ensures
            complete == self@.complete(),
    {
        self.progress.is_complete()
    }

    /// How long loading has gone on, in nanoseconds.
    pub fn elapsed(&self) -> (elapsed: u64)
        ensures
            elapsed == self@.elapsed,
    {
        self.elapsed
    }

    /// The angle of the spinner, in billionths of a degree.
    pub fn angle(&self) -> (angle: u64)
        ensures
            angle == self@.spinner.angle,
    {
        self.spinner.angle()
    }
}

/// What the menu scene keeps: the page shown and its buttons.
pub struct MenuView {
    pub submenu: Submenu,
    pub buttons: Seq<Button>,
}

impl MenuView {
    /// The menu showing page `submenu`, freshly built for `config`.
    pub open spec fn opened(submenu: Submenu, config: Config) -> MenuView {
        MenuView { submenu, buttons: buttons_of(submenu, config) }
    }

    /// Whether the page has a button that does `action`.
    pub open spec fn offers(self, action: Action) -> bool {
        exists|i: int| 0 <= i < self.buttons.len() && (#[trigger] self.buttons[i]).action == action
    }

    /// The menu with every button that does `action` coloured for the
    /// interaction it is under.
    pub open spec fn touched(self, action: Action, interaction: Interaction) -> MenuView {
        MenuView {
            buttons: Seq::new(
                self.buttons.len(),
                |i: int|
                    if self.buttons[i].action == action {
                        Button {
                            color: color_for(interaction, self.buttons[i].selected),
                            ..self.buttons[i]
                        }
                    } else {
                        self.buttons[i]
                    },
            ),
            ..self
        }
    }

    /// The menu after the display mode changed as `events` say: on the
    /// options page the selection marks follow; elsewhere nothing shows
    /// the display mode, and nothing changes.
    pub open spec fn updated(self, events: Seq<ChangeDisplayMode>) -> MenuView {
        if self.submenu == Submenu::Options {
            MenuView { buttons: buttons_after(self.buttons, events), ..self }
        } else {
            self
        }
    }
}

/// The menu scene.
#[derive(Debug)]
pub struct Menu {
    submenu: Submenu,
    buttons: Vec<Button>,
}

impl View for Menu {
    type V = MenuView;

    closed spec fn view(&self) -> MenuView {
        MenuView { submenu: self.submenu, buttons: self.buttons@ }
    }
}

impl Menu {
    /// Enters the scene on its main page.
    pub fn setup() -> (menu: Menu)
        ensures
            menu@.submenu == Submenu::Main,
            menu@.buttons == crate::menu::main_buttons(),
    {
        Menu { submenu: Submenu::Main, buttons: setup_main() }
    }

    /// Leaves the page shown and builds the page `submenu` for `config`.
    pub fn open(&mut self, submenu: Submenu, config: &Config)
        ensures
            final(self)@ == MenuView::opened(submenu, *config),
    {
        self.submenu = submenu;
        self.buttons = match submenu {
            Submenu::Inactive => Vec::new(),
            Submenu::Main => setup_main(),
            Submenu::Options => setup_options(config),
        };
    }

    /// Takes an interaction with the button that does `action`. If the
    /// page has no such button, nothing happens. Otherwise the button is
    /// recoloured, and a click is answered with what it asks for.
    pub fn interact(&mut self, action: Action, interaction: Interaction) -> (request: Option<
        Request,
    >)
        ensures
            final(self)@ == old(self)@.touched(action, interaction),
            request == if old(self)@.offers(action) {
                request_for(interaction, action)
            } else {
                None
            },
    {
        let mut found = false;
        let mut i: usize = 0;
        while i < self.buttons.len()
            invariant
                i <= self.buttons.len(),
                self.submenu == old(self).submenu,
                self.buttons@.len() == old(self).buttons@.len(),
                forall|k: int|
                    0 <= k < i ==> self.buttons@[k] == old(self)@.touched(
                        action,
                        interaction,
                    ).buttons[k],
                forall|k: int| i <= k < self.buttons@.len() ==> self.buttons@[k] == old(self).buttons@[k],
                found == exists|k: int|
                    0 <= k < i && (#[trigger] old(self).buttons@[k]).action == action,
            decreases self.buttons.len() - i,
        {
            let button = self.buttons[i];
            if button.action == action {
                found = true;
                let color = crate::menu::colors(interaction, button.selected);
                self.buttons.set(i, Button { color, ..button });
            }
            i = i + 1;
        }
        assert(self@.buttons =~= old(self)@.touched(action, interaction).buttons);
        if found {
            crate::menu::system(interaction, action)
        } else {
            None
        }
    }

    /// Brings the options page up to date with the display-mode changes
    /// in `events`. On any other page nothing changes.
    pub fn update(&mut self, events: &Vec<ChangeDisplayMode>)
        ensures
            final(self)@ == old(self)@.updated(events@),
    {
        if self.submenu == Submenu::Options {
            update_options_buttons(events, &mut self.buttons);
        }
    }

    /// The page shown.
    pub fn submenu(&self) -> (submenu: Submenu)
        ensures
            submenu == self@.submenu,
    {
        self.submenu
    }

    /// The buttons of the page shown, in order.
    pub fn buttons(&self) -> (buttons: &Vec<Button>)
        ensures
            buttons@ == self@.buttons,
    {
        &self.buttons
    }
}

/// The scene of the game itself. It keeps nothing.
#[derive(Debug, Clone, Copy, PartialEq, Eq, Hash, Structural)]
pub struct Hello;

} // verus!
