//! The screen-level state machine: menu, in game, finish screen.

use vstd::prelude::*;

verus! {

/// Which screen the application is on.
#[derive(Debug, Clone, Copy, PartialEq, Eq, Structural)]
pub enum AppState {
    Menu,
    InGame,
    Finish,
}

/// On the menu screen, pressing space starts the game.
pub fn start_game(space_pressed: bool) -> (r: Option<AppState>)
    ensures
        r == if space_pressed {
            Some(AppState::InGame)
        } else {
            None::<AppState>
        },
{
    if space_pressed {
        Some(AppState::InGame)
    } else {
        None
    }
}

/// In game, pressing the menu key returns to the menu screen.
pub fn back_to_menu(m_pressed: bool) -> (r: Option<AppState>)
    ensures
        r == if m_pressed {
            Some(AppState::Menu)
        } else {
            None::<AppState>
        },
{
    if m_pressed {
        Some(AppState::Menu)
    } else {
        None
    }
}

/// On the finish screen, pressing space starts a new run.
pub fn restart(space_pressed: bool) -> (r: Option<AppState>)
    ensures
        r == if space_pressed {
            Some(AppState::InGame)
        } else {
            None::<AppState>
        },
{
    if space_pressed {
        Some(AppState::InGame)
    } else {
        None
    }
}

/// The cursor state the window should take: hidden and locked while playing,
/// visible and free after escape.
#[derive(Debug, Clone, Copy, PartialEq, Eq, Structural)]
pub struct CursorState {
    pub visible: bool,
    pub locked: bool,
}

/// Clicking grabs the cursor; escape releases it.  When both arrive in one
/// frame the release wins, as the release is applied last.
pub fn grab_mouse(left_click: bool, escape: bool) -> (r: Option<CursorState>)
    ensures
        r == if escape {
            Some(CursorState { visible: true, locked: false })
        } else if left_click {
            Some(CursorState { visible: false, locked: true })
        } else {
            None::<CursorState>
        },
{
    if escape {
        Some(CursorState { visible: true, locked: false })
    } else if left_click {
        Some(CursorState { visible: false, locked: true })
    } else {
        None
    }
}

} // verus!
