use rgb_core::controls::{Controls, Key, KeyAction};
use rgb_core::JoypadState;

#[test]
fn keys_drive_joypad_buttons() {
    let mut c = Controls::new();
    assert_eq!(c.joypad, JoypadState::default());
    for key in [
        Key::ArrowUp,
        Key::ArrowDown,
        Key::ArrowLeft,
        Key::ArrowRight,
        Key::KeyZ,
        Key::KeyX,
        Key::Enter,
        Key::ShiftRight,
    ] {
        assert_eq!(c.handle_key(key, true), KeyAction::Nothing);
    }
    let all = JoypadState {
        up: true,
        down: true,
        left: true,
        right: true,
        a: true,
        b: true,
        start: true,
        select: true,
    };
    assert_eq!(c.joypad, all);
    c.handle_key(Key::KeyZ, false);
    assert_eq!(c.joypad, JoypadState { a: false, ..all });
    assert!(!c.debug_overlay && !c.tile_viewer);
}

#[test]
fn function_keys_toggle_on_press_only() {
    let mut c = Controls::new();
    assert_eq!(c.handle_key(Key::F1, true), KeyAction::PrintDebugOverlay);
    assert!(c.debug_overlay);
    assert_eq!(c.handle_key(Key::F1, false), KeyAction::Nothing);
    assert!(c.debug_overlay);
    assert_eq!(c.handle_key(Key::F1, true), KeyAction::PrintDebugOverlay);
    assert!(!c.debug_overlay);

    assert_eq!(c.handle_key(Key::F2, true), KeyAction::TileViewerOn);
    assert!(c.tile_viewer);
    assert_eq!(c.handle_key(Key::F2, false), KeyAction::Nothing);
    assert_eq!(c.handle_key(Key::F2, true), KeyAction::TileViewerOff);
    assert!(!c.tile_viewer);
}

#[test]
fn escape_quits_on_press_and_release() {
    let mut c = Controls::new();
    assert_eq!(c.handle_key(Key::Escape, true), KeyAction::Exit);
    assert_eq!(c.handle_key(Key::Escape, false), KeyAction::Exit);
    assert_eq!(c.handle_key(Key::Other, true), KeyAction::Nothing);
    assert_eq!(c.joypad, JoypadState::default());
}

#[test]
fn press_then_release_leaves_no_trace() {
    let mut c = Controls::new();
    c.handle_key(Key::ArrowLeft, true);
    let before = c;
    c.handle_key(Key::Enter, true);
    c.handle_key(Key::Enter, false);
    assert_eq!(c.joypad, before.joypad);
}
