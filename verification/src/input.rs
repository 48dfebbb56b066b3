use vstd::prelude::*;

use crate::joypad::JoypadInputRequest;

verus! {

/// The keys the emulator listens to.
#[derive(Clone, Copy, PartialEq, Eq, Structural, Debug)]
pub enum Key {
    Escape,
    /// Shows or hides the debug log.
    I,
    /// Shows or hides the tile sheet window.
    Key1,
    /// Shows or hides the background map window.
    Key2,
    /// Shows or hides the window map window.
    Key3,
    /// Breaks execution.
    B,
    /// Start.
    Z,
    /// Select.
    X,
    /// A.
    N,
    /// B.
    M,
    Up,
    Down,
    Left,
    Right,
}

/// What the user interface shows.
#[derive(Clone, Copy, PartialEq, Eq, Structural, Debug)]
pub struct UiState {
    pub show_ui: bool,
    pub show_tiles: bool,
    pub show_bg: bool,
    pub show_win: bool,
}

/// What the event loop does after a key.
#[derive(Clone, Copy, PartialEq, Eq, Structural, Debug)]
pub enum UiAction {
    Nothing,
    Quit,
    /// Show or hide the debug log, and turn its collection on or off with it.
    SetDebugLog(bool),
    SetTilesVisible(bool),
    SetBackgroundVisible(bool),
    SetWindowVisible(bool),
    /// Ask the debugger to stop before the next instruction.
    RequestBreak,
}

/// Whether `key` stands for a button of the joypad.
pub open spec fn is_button_key(key: Key) -> bool {
    match key {
        Key::Z | Key::X | Key::N | Key::M | Key::Up | Key::Down | Key::Left | Key::Right => true,
        _ => false,
    }
}

/// Whether `key` shows or hides a view.
pub open spec fn is_view_key(key: Key) -> bool {
    match key {
        Key::I | Key::Key1 | Key::Key2 | Key::Key3 => true,
        _ => false,
    }
}

/// The buttons with the one that `key` stands for set to `held`; other keys leave them.
pub open spec fn buttons_after(b: JoypadInputRequest, key: Key, held: bool) -> JoypadInputRequest {
    match key {
        Key::Z => JoypadInputRequest { start: held, ..b },
        Key::X => JoypadInputRequest { select: held, ..b },
        Key::N => JoypadInputRequest { a: held, ..b },
        Key::M => JoypadInputRequest { b: held, ..b },
        Key::Up => JoypadInputRequest { up: held, ..b },
        Key::Down => JoypadInputRequest { down: held, ..b },
        Key::Left => JoypadInputRequest { left: held, ..b },
        Key::Right => JoypadInputRequest { right: held, ..b },
        _ => b,
    }
}

/// The interface, the buttons and the action after `key` is pressed (`pressed`) or released:
/// Escape quits when pressed, B breaks when pressed, I, 1, 2 and 3 toggle their view when
/// released, and the button keys hold their button while down.
pub open spec fn spec_key_event(ui: UiState, b: JoypadInputRequest, key: Key, pressed: bool) -> (
    UiState,
    JoypadInputRequest,
    UiAction,
) {
    let b1 = buttons_after(b, key, pressed);
    match key {
        Key::Escape => (ui, b1, if pressed {
            UiAction::Quit
        } else {
            UiAction::Nothing
        }),
        Key::B => (ui, b1, if pressed {
            UiAction::RequestBreak
        } else {
            UiAction::Nothing
        }),
        Key::I => if pressed {
            (ui, b1, UiAction::Nothing)
        } else {
            (UiState { show_ui: !ui.show_ui, ..ui }, b1, UiAction::SetDebugLog(!ui.show_ui))
        },
        Key::Key1 => if pressed {
            (ui, b1, UiAction::Nothing)
        } else {
            (UiState { show_tiles: !ui.show_tiles, ..ui }, b1, UiAction::SetTilesVisible(!ui.show_tiles))
        },
        Key::Key2 => if pressed {
            (ui, b1, UiAction::Nothing)
        } else {
            (UiState { show_bg: !ui.show_bg, ..ui }, b1, UiAction::SetBackgroundVisible(!ui.show_bg))
        },
        Key::Key3 => if pressed {
            (ui, b1, UiAction::Nothing)
        } else {
            (UiState { show_win: !ui.show_win, ..ui }, b1, UiAction::SetWindowVisible(!ui.show_win))
        },
        _ => (ui, b1, UiAction::Nothing),
    }
}

impl UiState {
    /// The views that the command line asked for; the debug log starts hidden.
    pub fn new(show_tiles: bool, show_bg: bool, show_win: bool) -> (r: UiState)
        ensures
            r == (UiState { show_ui: false, show_tiles, show_bg, show_win }),
    {
        UiState { show_ui: false, show_tiles, show_bg, show_win }
    }
}

/// Handles a key going down (`pressed`) or up: updates the interface and the buttons, and says
/// what the event loop is to do.
pub fn key_event(ui: &mut UiState, buttons: &mut JoypadInputRequest, key: Key, pressed: bool) -> (r:
    UiAction)
    ensures
        (*final(ui), *final(buttons), r) == spec_key_event(*old(ui), *old(buttons), key, pressed),
{
    match key {
        Key::Z => buttons.start = pressed,
        Key::X => buttons.select = pressed,
        Key::N => buttons.a = pressed,
        Key::M => buttons.b = pressed,
        Key::Up => buttons.up = pressed,
        Key::Down => buttons.down = pressed,
        Key::Left => buttons.left = pressed,
        Key::Right => buttons.right = pressed,
        _ => {},
    }
    match key {
        Key::Escape => if pressed {
            UiAction::Quit
        } else {
            UiAction::Nothing
        },
        Key::B => if pressed {
            UiAction::RequestBreak
        } else {
            UiAction::Nothing
        },
        Key::I => if pressed {
            UiAction::Nothing
        } else {
            ui.show_ui = !ui.show_ui;
            UiAction::SetDebugLog(ui.show_ui)
        },
        Key::Key1 => if pressed {
            UiAction::Nothing
        } else {
            ui.show_tiles = !ui.show_tiles;
            UiAction::SetTilesVisible(ui.show_tiles)
        },
        Key::Key2 => if pressed {
            UiAction::Nothing
        } else {
            ui.show_bg = !ui.show_bg;
            UiAction::SetBackgroundVisible(ui.show_bg)
        },
        Key::Key3 => if pressed {
            UiAction::Nothing
        } else {
            ui.show_win = !ui.show_win;
            UiAction::SetWindowVisible(ui.show_win)
        },
        _ => UiAction::Nothing,
    }
}

/// A button key holds its button while down and lets it go when up; the other buttons stay
/// as they were.
pub proof fn lemma_button_follows_key(ui: UiState, b: JoypadInputRequest, key: Key)
    requires
        is_button_key(key),
    ensures
        spec_key_event(spec_key_event(ui, b, key, true).0, spec_key_event(ui, b, key, true).1, key, false).1
            == buttons_after(b, key, false),
        spec_key_event(ui, b, key, true).1 == buttons_after(b, key, true),
        spec_key_event(ui, b, key, true).0 == ui,
{
}

/// Releasing a view key twice gives the interface back.
pub proof fn lemma_view_toggle_twice(ui: UiState, b: JoypadInputRequest, key: Key)
    requires
        is_view_key(key),
    ensures
        spec_key_event(spec_key_event(ui, b, key, false).0, b, key, false).0 == ui,
{
}

} // verus!
