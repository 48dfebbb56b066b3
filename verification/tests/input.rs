use lameboy::input::{key_event, Key, UiAction, UiState};
use lameboy::joypad::JoypadInputRequest;

#[test]
fn button_keys_hold_their_button() {
    let mut ui = UiState::new(false, false, false);
    let mut b = JoypadInputRequest::new();
    assert_eq!(key_event(&mut ui, &mut b, Key::Z, true), UiAction::Nothing);
    assert!(b.start);
    key_event(&mut ui, &mut b, Key::Up, true);
    assert!(b.up && b.start);
    key_event(&mut ui, &mut b, Key::Z, false);
    assert!(!b.start && b.up);
    key_event(&mut ui, &mut b, Key::X, true);
    key_event(&mut ui, &mut b, Key::N, true);
    key_event(&mut ui, &mut b, Key::M, true);
    key_event(&mut ui, &mut b, Key::Down, true);
    key_event(&mut ui, &mut b, Key::Left, true);
    key_event(&mut ui, &mut b, Key::Right, true);
    assert!(b.select && b.a && b.b && b.down && b.left && b.right);
    assert_eq!(ui, UiState::new(false, false, false));
}

#[test]
fn control_keys() {
    let mut ui = UiState::new(true, false, false);
    let mut b = JoypadInputRequest::new();
    assert_eq!(key_event(&mut ui, &mut b, Key::Escape, true), UiAction::Quit);
    assert_eq!(key_event(&mut ui, &mut b, Key::Escape, false), UiAction::Nothing);
    assert_eq!(key_event(&mut ui, &mut b, Key::B, true), UiAction::RequestBreak);
    assert_eq!(key_event(&mut ui, &mut b, Key::I, true), UiAction::Nothing);
    assert_eq!(key_event(&mut ui, &mut b, Key::I, false), UiAction::SetDebugLog(true));
    assert!(ui.show_ui);
    assert_eq!(key_event(&mut ui, &mut b, Key::Key1, false), UiAction::SetTilesVisible(false));
    assert_eq!(key_event(&mut ui, &mut b, Key::Key2, false), UiAction::SetBackgroundVisible(true));
    assert_eq!(key_event(&mut ui, &mut b, Key::Key3, false), UiAction::SetWindowVisible(true));
    assert_eq!(ui, UiState { show_ui: true, show_tiles: false, show_bg: true, show_win: true });
    // Releasing a view key twice gives the interface back.
    key_event(&mut ui, &mut b, Key::Key2, false);
    key_event(&mut ui, &mut b, Key::Key2, false);
    assert!(ui.show_bg);
    assert_eq!(b, JoypadInputRequest::new());
}
