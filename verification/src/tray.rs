//! Decisions of the system tray: its menu and clicks on its icon.

use vstd::prelude::*;
use crate::text::text_eq;

verus! {

/// The id of the tray menu item that quits the application.
pub const QUIT_MENU_ID: &'static str = "quit";

/// The label of that menu item.
pub const QUIT_MENU_LABEL: &'static str = "退出";

/// The label of the main (settings) window.
pub const MAIN_WINDOW_LABEL: &'static str = "main";

/// What a tray menu event does.
#[derive(Clone, Copy, Debug, PartialEq, Eq)]
pub enum MenuAction {
    /// Exit the application with status 0.
    Quit,
    /// Nothing.
    Ignore,
}

/// The `quit` item exits the application; any other item does nothing.
pub fn menu_action(id: &str) -> (r: MenuAction)
    ensures
        id@ == QUIT_MENU_ID@ ==> r == MenuAction::Quit,
        id@ != QUIT_MENU_ID@ ==> r == MenuAction::Ignore,
{
    if text_eq(id, QUIT_MENU_ID) {
        MenuAction::Quit
    } else {
        MenuAction::Ignore
    }
}

/// A mouse button.
#[derive(Clone, Copy, Debug, PartialEq, Eq)]
pub enum MouseButton {
    Left,
    Right,
    Middle,
}

/// An event on the tray icon.
#[derive(Clone, Copy, Debug, PartialEq, Eq)]
pub enum TrayEvent {
    /// A click with `button`; `released` when the button went up.
    Click { button: MouseButton, released: bool },
    /// Any other event (double click, the pointer entering, moving, leaving).
    Other,
}

/// The main window is shown, unminimised and focused when the left button
/// is released on the icon; nothing else does anything.
pub fn tray_shows_main_window(e: TrayEvent) -> (r: bool)
    ensures
        r == (e == TrayEvent::Click { button: MouseButton::Left, released: true }),
{
    match e {
        TrayEvent::Click { button: MouseButton::Left, released: true } => true,
        _ => false,
    }
}

} // verus!
