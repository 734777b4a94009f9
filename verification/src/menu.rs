//! The menu: its submenus, its buttons and what clicking them asks for.

use vstd::prelude::*;
use crate::config::{Config, DisplayMode};
use crate::events::ChangeDisplayMode;

verus! {

/// The page of the menu that is shown. `Inactive` while the game is not in
/// the menu.
#[derive(Debug, Clone, Copy, PartialEq, Eq, Hash, Structural)]
pub enum Submenu {
    Inactive,
    Main,
    Options,
}

/// What a menu button does when clicked.
#[derive(Debug, Clone, Copy, PartialEq, Eq, Hash, Structural)]
pub enum Action {
    Play,
    Options,
    Windowed,
    FullScreen,
    Quit,
    Back,
}

/// How the pointer stands to a button.
#[derive(Debug, Clone, Copy, PartialEq, Eq, Hash, Structural)]
pub enum Interaction {
    Clicked,
    Hovered,
    Idle,
}

/// The background colours a button takes.
#[derive(Debug, Clone, Copy, PartialEq, Eq, Hash, Structural)]
pub enum ButtonColor {
    Normal,
    Hovered,
    HoveredSelected,
    Clicked,
}

/// The two sizes of button: the standard one, and the smaller one used for
/// the alternatives of a setting.
#[derive(Debug, Clone, Copy, PartialEq, Eq, Hash, Structural)]
pub enum ButtonKind {
    Standard,
    Setting,
}

/// A button of the menu: what it does, whether it is marked as the selected
/// alternative of its setting, and its background colour.
#[derive(Debug, Clone, Copy, PartialEq, Eq, Hash, Structural)]
pub struct Button {
    pub kind: ButtonKind,
    pub action: Action,
    pub selected: bool,
    pub color: ButtonColor,
}

/// What a click on a button asks the game to do.
#[derive(Debug, Clone, Copy, PartialEq, Eq, Hash, Structural)]
pub enum Request {
    /// Leave the game.
    Quit,
    /// Leave the menu for the game itself.
    Play,
    /// Show another page of the menu.
    Open(Submenu),
    /// Switch the display mode.
    Display(ChangeDisplayMode),
}

/// The display mode that a button sets, if it is an alternative of the
/// display setting.
pub open spec fn mode_of(action: Action) -> Option<DisplayMode> {
    match action {
        Action::Windowed => Some(DisplayMode::Windowed),
        Action::FullScreen => Some(DisplayMode::FullScreen),
        _ => None,
    }
}

/// The colour of a button under an interaction: clicked wins, then hovered;
/// a selected button at rest keeps the clicked colour.
pub open spec fn color_for(interaction: Interaction, selected: bool) -> ButtonColor {
    match interaction {
        Interaction::Clicked => ButtonColor::Clicked,
        Interaction::Hovered => if selected {
            ButtonColor::HoveredSelected
        } else {
            ButtonColor::Hovered
        },
        Interaction::Idle => if selected {
            ButtonColor::Clicked
        } else {
            ButtonColor::Normal
        },
    }
}

/// The colour a button rests in.
pub open spec fn resting_color(selected: bool) -> ButtonColor {
    if selected {
        ButtonColor::Clicked
    } else {
        ButtonColor::Normal
    }
}

/// A standard button as it is first shown.
pub open spec fn plain_button(action: Action) -> Button {
    Button { kind: ButtonKind::Standard, action, selected: false, color: ButtonColor::Normal }
}

/// An alternative of a setting as it is first shown.
pub open spec fn setting_button(selected: bool, action: Action) -> Button {
    Button { kind: ButtonKind::Setting, action, selected, color: resting_color(selected) }
}

/// A button with its selection mark set or cleared, at rest.
pub open spec fn with_selection(button: Button, selected: bool) -> Button {
    Button { selected, color: resting_color(selected), ..button }
}

/// A button after the display mode became `mode`: an alternative of the
/// display setting is selected exactly if it stands for `mode`; any other
/// button is untouched.
pub open spec fn reselected(button: Button, mode: DisplayMode) -> Button {
    match mode_of(button.action) {
        Some(own) => with_selection(button, own == mode),
        None => button,
    }
}

/// The buttons of the main page, top to bottom.
pub open spec fn main_buttons() -> Seq<Button> {
    seq![plain_button(Action::Play), plain_button(Action::Options), plain_button(Action::Quit)]
}

/// The buttons of the options page: the two alternatives of the display
/// setting, of which the configured one is selected, then the way back.
pub open spec fn options_buttons(config: Config) -> Seq<Button> {
    seq![
        setting_button(config.mode == DisplayMode::Windowed, Action::Windowed),
        setting_button(config.mode == DisplayMode::FullScreen, Action::FullScreen),
        plain_button(Action::Back),
    ]
}

/// The buttons shown on a page of the menu.
pub open spec fn buttons_of(submenu: Submenu, config: Config) -> Seq<Button> {
    match submenu {
        Submenu::Inactive => Seq::empty(),
        Submenu::Main => main_buttons(),
        Submenu::Options => options_buttons(config),
    }
}

/// The buttons after the display mode changed as `events` say, in order.
/// Every change decides the selection anew, so the last one stands.
pub open spec fn buttons_after(buttons: Seq<Button>, events: Seq<ChangeDisplayMode>) -> Seq<
    Button,
> {
    if events.len() == 0 {
        buttons
    } else {
        Seq::new(buttons.len(), |i: int| reselected(buttons[i], events.last().mode))
    }
}

/// What an interaction with a button asks for: nothing unless it is a click.
pub open spec fn request_for(interaction: Interaction, action: Action) -> Option<Request> {
    if interaction == Interaction::Clicked {
        Some(
            match action {
                Action::Quit => Request::Quit,
                Action::Play => Request::Play,
                Action::Options => Request::Open(Submenu::Options),
                Action::Back => Request::Open(Submenu::Main),
                Action::Windowed => Request::Display(
                    ChangeDisplayMode { mode: DisplayMode::Windowed },
                ),
                Action::FullScreen => Request::Display(
                    ChangeDisplayMode { mode: DisplayMode::FullScreen },
                ),
            },
        )
    } else {
        None
    }
}

impl Action {
    /// The text on the button that does this.
    pub fn label(&self) -> (text: &'static str)
        ensures
            text@ == match *self {
                Action::Play => "Play"@,
                Action::Options => "Options"@,
                Action::Windowed => "Windowed"@,
                Action::FullScreen => "Full Screen"@,
                Action::Quit => "Quit"@,
                Action::Back => "Back"@,
            },
    {
        match self {
            Action::Play => "Play",
            Action::Options => "Options",
            Action::Windowed => "Windowed",
            Action::FullScreen => "Full Screen",
            Action::Quit => "Quit",
            Action::Back => "Back",
        }
    }
}

/// Picks the background colour of a button for the interaction it is under.
pub fn colors(interaction: Interaction, selected: bool) -> (color: ButtonColor)
    ensures
        color == color_for(interaction, selected),
{
    match interaction {
        Interaction::Clicked => ButtonColor::Clicked,
        Interaction::Hovered => if selected {
            ButtonColor::HoveredSelected
        } else {
            ButtonColor::Hovered
        },
        Interaction::Idle => if selected {
            ButtonColor::Clicked
        } else {
            ButtonColor::Normal
        },
    }
}

/// Makes a standard button: unselected, in the normal colour.
pub fn add(action: Action) -> (button: Button)
    ensures
        button == plain_button(action),
{
    Button { kind: ButtonKind::Standard, action, selected: false, color: ButtonColor::Normal }
}

/// Makes an alternative of a setting. A selected one is marked and takes
/// the clicked colour from the start.
pub fn setting(selected: bool, action: Action) -> (button: Button)
    ensures
        button == setting_button(selected, action),
{
    let color = if selected {
        ButtonColor::Clicked
    } else {
        ButtonColor::Normal
    };
    Button { kind: ButtonKind::Setting, action, selected, color }
}

fn select(button: &mut Button)
    ensures
        *final(button) == with_selection(*old(button), true),
{
    button.color = ButtonColor::Clicked;
    button.selected = true;
}

fn unselect(button: &mut Button)
    ensures
        *final(button) == with_selection(*old(button), false),
{
    button.color = ButtonColor::Normal;
    button.selected = false;
}

/// Marks a button as selected or clears the mark, and recolours it.
pub fn change_selection(selected: bool, button: &mut Button)
    ensures
        *final(button) == with_selection(*old(button), selected),
{
    if selected {
        select(button);
    } else {
        unselect(button);
    }
}

/// Builds the buttons of the main page.
pub fn setup_main() -> (buttons: Vec<Button>)
    ensures
        buttons@ == main_buttons(),
{
    let mut buttons: Vec<Button> = Vec::new();
    buttons.push(self::add(Action::Play));
    buttons.push(self::add(Action::Options));
    buttons.push(self::add(Action::Quit));
    buttons
}

/// Builds the buttons of the options page for the current configuration.
pub fn setup_options(config: &Config) -> (buttons: Vec<Button>)
    ensures
        buttons@ == options_buttons(*config),
{
    let mut buttons: Vec<Button> = Vec::new();
    buttons.push(setting(config.mode == DisplayMode::Windowed, Action::Windowed));
    buttons.push(setting(config.mode == DisplayMode::FullScreen, Action::FullScreen));
    buttons.push(self::add(Action::Back));
    buttons
}

/// Applying a second display-mode change to a button forgets the first.
pub proof fn lemma_reselected_last_wins(button: Button, first: DisplayMode, second: DisplayMode)
    ensures
        reselected(reselected(button, first), second) == reselected(button, second),
{
}

/// Brings the selection marks of the options page up to date with the
/// display-mode changes in `events`.
pub fn update_options_buttons(events: &Vec<ChangeDisplayMode>, buttons: &mut Vec<Button>)
    ensures
        final(buttons)@ == buttons_after(old(buttons)@, events@),
{
    let mut e: usize = 0;
    while e < events.len()
        invariant
            e <= events.len(),
            buttons@ == buttons_after(old(buttons)@, events@.take(e as int)),
        decreases events.len() - e,
    {
        let change = events[e];
        let ghost before = buttons@;
        let mut i: usize = 0;
        while i < buttons.len()
            invariant
                i <= buttons.len(),
                buttons@.len() == before.len(),
                forall|k: int| 0 <= k < i ==> buttons@[k] == reselected(before[k], change.mode),
                forall|k: int| i <= k < before.len() ==> buttons@[k] == before[k],
            decreases buttons.len() - i,
        {
            let mut button = buttons[i];
            let need_selection_change = match button.action {
                Action::Windowed => Some(DisplayMode::Windowed),
                Action::FullScreen => Some(DisplayMode::FullScreen),
                _ => None,
            };
            if let Some(mode) = need_selection_change {
                change_selection(mode == change.mode, &mut button);
                buttons.set(i, button);
            }
            i = i + 1;
        }
        e = e + 1;
        proof {
            let seen = events@.take(e as int);
            assert(seen.last() == change);
            assert forall|k: int| 0 <= k < before.len() implies buttons@[k] == reselected(
                old(buttons)@[k],
                change.mode,
            ) by {
                if e > 1 {
                    lemma_reselected_last_wins(
                        old(buttons)@[k],
                        events@.take(e - 1).last().mode,
                        change.mode,
                    );
                }
            }
            assert(buttons@ == buttons_after(old(buttons)@, seen));
        }
    }
    assert(events@.take(e as int) == events@);
}

/// Decides what an interaction with a button asks for. Only a click asks
/// for anything.
pub fn system(interaction: Interaction, action: Action) -> (request: Option<Request>)
    ensures
        request == request_for(interaction, action),
{
    if interaction == Interaction::Clicked {
        Some(
            match action {
                Action::Quit => Request::Quit,
                Action::Play => Request::Play,
                Action::Options => Request::Open(Submenu::Options),
                Action::Back => Request::Open(Submenu::Main),
                Action::Windowed => Request::Display(ChangeDisplayMode::windowed()),
                Action::FullScreen => Request::Display(ChangeDisplayMode::full_screen()),
            },
        )
    } else {
        None
    }
}

} // verus!
