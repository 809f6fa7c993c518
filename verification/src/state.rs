//! The top-level flow of the game and the nested menu flow: which screen
//! is active, and which transitions each input or timer event causes.

use vstd::prelude::*;

verus! {

/// The top-level phase of the game. Play starts on the splash screen,
/// moves to the menu once the splash timer runs out, and from there
/// cycles between playing, pausing and the menu screens.
#[derive(Clone, Copy, Debug, PartialEq, Eq, Hash, Structural)]
pub enum GameState {
    Splash,
    Menu,
    Game,
    Pause,
    Help,
    Lose,
}

/// Which menu screen is showing while the game is not being played.
/// `Disabled` means no menu screen is active.
#[derive(Clone, Copy, Debug, PartialEq, Eq, Hash, Structural)]
pub enum MenuState {
    Main,
    Help,
    Disabled,
}

/// The actions a menu button can trigger.
#[derive(Clone, Copy, Debug, PartialEq, Eq, Structural)]
pub enum MenuButtonAction {
    Play,
    Help,
    BackToMainMenu,
    Quit,
}

/// Everything a pressed menu button asks the surrounding program to do.
#[derive(Clone, Copy, Debug, PartialEq, Eq, Structural)]
pub struct MenuCommand {
    /// Shut the whole program down.
    pub exit_app: bool,
    /// Switch the top-level state, if any.
    pub next_game: Option<GameState>,
    /// Switch the menu screen, if any.
    pub next_menu: Option<MenuState>,
    /// Put the player and camera back where they stood when play was
    /// interrupted.
    pub restore_saved: bool,
    /// Whether a later `Play` press should still restore saved poses.
    pub resuming_after: bool,
}

/// What each menu button does: `Quit` shuts the program down, `Play`
/// starts (or resumes) play with the menu put away, `BackToMainMenu`
/// returns to the main screen, and `Help` brings up the help screen.
/// `resuming` says whether play was interrupted earlier (by the pause
/// key), in which case `Play` restores the saved poses and the
/// interruption is consumed.
pub open spec fn menu_command_spec(action: MenuButtonAction, resuming: bool) -> MenuCommand {
    match action {
        MenuButtonAction::Quit => MenuCommand {
            exit_app: true,
            next_game: None,
            next_menu: None,
            restore_saved: false,
            resuming_after: resuming,
        },
        MenuButtonAction::Play => MenuCommand {
            exit_app: false,
            next_game: Some(GameState::Game),
            next_menu: Some(MenuState::Disabled),
            restore_saved: resuming,
            resuming_after: false,
        },
        MenuButtonAction::BackToMainMenu => MenuCommand {
            exit_app: false,
            next_game: Some(GameState::Menu),
            next_menu: Some(MenuState::Main),
            restore_saved: false,
            resuming_after: resuming,
        },
        MenuButtonAction::Help => MenuCommand {
            exit_app: false,
            next_game: Some(GameState::Help),
            next_menu: Some(MenuState::Help),
            restore_saved: false,
            resuming_after: resuming,
        },
    }
}

/// What a pressed menu button does; see `menu_command_spec` for the
/// rule.
pub fn menu_command(action: MenuButtonAction, resuming: bool) -> (cmd: MenuCommand)
    ensures
        cmd == menu_command_spec(action, resuming),
{
    match action {
        MenuButtonAction::Quit => MenuCommand {
            exit_app: true,
            next_game: None,
            next_menu: None,
            restore_saved: false,
            resuming_after: resuming,
        },
        MenuButtonAction::Play => MenuCommand {
            exit_app: false,
            next_game: Some(GameState::Game),
            next_menu: Some(MenuState::Disabled),
            restore_saved: resuming,
            resuming_after: false,
        },
        MenuButtonAction::BackToMainMenu => MenuCommand {
            exit_app: false,
            next_game: Some(GameState::Menu),
            next_menu: Some(MenuState::Main),
            restore_saved: false,
            resuming_after: resuming,
        },
        MenuButtonAction::Help => MenuCommand {
            exit_app: false,
            next_game: Some(GameState::Help),
            next_menu: Some(MenuState::Help),
            restore_saved: false,
            resuming_after: resuming,
        },
    }
}

/// On entering the menu phase, the main menu screen comes up.
pub fn menu_entry_screen() -> (m: MenuState)
    ensures
        m == MenuState::Main,
{
    MenuState::Main
}

/// The splash screen gives way to the menu once its timer runs out.
pub fn splash_target(timer_finished: bool) -> (next: Option<GameState>)
    ensures
        next == if timer_finished {
            Some(GameState::Menu)
        } else {
            None::<GameState>
        },
{
    if timer_finished {
        Some(GameState::Menu)
    } else {
        None
    }
}

/// A play round ends back at the menu when the round timer runs out.
pub fn round_target(timer_finished: bool) -> (next: Option<GameState>)
    ensures
        next == if timer_finished {
            Some(GameState::Menu)
        } else {
            None::<GameState>
        },
{
    if timer_finished {
        Some(GameState::Menu)
    } else {
        None
    }
}

/// The short pause after running into a person ends back in play once
/// its timer runs out; it only applies while the game is paused.
pub fn pause_target(current: GameState, timer_finished: bool) -> (next: Option<GameState>)
    ensures
        next == if current == GameState::Pause && timer_finished {
            Some(GameState::Game)
        } else {
            None::<GameState>
        },
{
    if current == GameState::Pause && timer_finished {
        Some(GameState::Game)
    } else {
        None
    }
}

/// Pressing the pause key during play interrupts the game.
pub fn escape_target(pressed: bool) -> (next: Option<GameState>)
    ensures
        next == if pressed {
            Some(GameState::Pause)
        } else {
            None::<GameState>
        },
{
    if pressed {
        Some(GameState::Pause)
    } else {
        None
    }
}

} // verus!
