//! Keyboard controls of the desktop front end: which key drives which
//! joypad button or debug toggle.
//!
//! Default mapping: arrow keys → D-pad, Z → A, X → B, Enter → Start,
//! right Shift → Select; F1 toggles the debug overlay, F2 the VRAM tile
//! viewer, Escape quits.
use vstd::prelude::*;

use crate::bus::JoypadState;

verus! {

/// A key the front end reacts to; every other key is `Other`.
#[derive(Debug, Clone, Copy, PartialEq, Eq, Structural)]
pub enum Key {
    Escape,
    F1,
    F2,
    ArrowUp,
    ArrowDown,
    ArrowLeft,
    ArrowRight,
    KeyZ,
    KeyX,
    Enter,
    ShiftRight,
    Other,
}

/// What the front end must do after a key event.
#[derive(Debug, Clone, Copy, PartialEq, Eq, Structural)]
pub enum KeyAction {
    /// Nothing beyond the state change.
    Nothing,
    /// Quit.
    Exit,
    /// Print the debug overlay (register dump, PPU mode and LY, cycles).
    PrintDebugOverlay,
    /// The tile viewer was switched on.
    TileViewerOn,
    /// The tile viewer was switched off.
    TileViewerOff,
}

/// Keyboard-driven front-end state: the joypad buttons held and the two
/// debug toggles.
#[derive(Debug, Clone, Copy)]
pub struct Controls {
    pub joypad: JoypadState,
    /// Whether the F1 debug overlay is active.
    pub debug_overlay: bool,
    /// Whether the F2 VRAM tile viewer is active.
    pub tile_viewer: bool,
}

/// No button held.
pub open spec fn released() -> JoypadState {
    JoypadState {
        up: false,
        down: false,
        left: false,
        right: false,
        a: false,
        b: false,
        start: false,
        select: false,
    }
}

/// The effect of `key` going down (`pressed`) or up on the controls: the
/// new controls and the action to perform. Escape quits on either edge; F1
/// and F2 act on the press only; a mapped key holds its button while down.
pub open spec fn key_effect(c: Controls, key: Key, pressed: bool) -> (Controls, KeyAction) {
    let j = c.joypad;
    match key {
        Key::Escape => (c, KeyAction::Exit),
        Key::F1 => if pressed {
            (Controls { debug_overlay: !c.debug_overlay, ..c }, KeyAction::PrintDebugOverlay)
        } else {
            (c, KeyAction::Nothing)
        },
        Key::F2 => if pressed {
            (
                Controls { tile_viewer: !c.tile_viewer, ..c },
                if c.tile_viewer {
                    KeyAction::TileViewerOff
                } else {
                    KeyAction::TileViewerOn
                },
            )
        } else {
            (c, KeyAction::Nothing)
        },
        Key::ArrowUp => (Controls { joypad: JoypadState { up: pressed, ..j }, ..c }, KeyAction::Nothing),
        Key::ArrowDown => (
            Controls { joypad: JoypadState { down: pressed, ..j }, ..c },
            KeyAction::Nothing,
        ),
        Key::ArrowLeft => (
            Controls { joypad: JoypadState { left: pressed, ..j }, ..c },
            KeyAction::Nothing,
        ),
        Key::ArrowRight => (
            Controls { joypad: JoypadState { right: pressed, ..j }, ..c },
            KeyAction::Nothing,
        ),
        Key::KeyZ => (Controls { joypad: JoypadState { a: pressed, ..j }, ..c }, KeyAction::Nothing),
        Key::KeyX => (Controls { joypad: JoypadState { b: pressed, ..j }, ..c }, KeyAction::Nothing),
        Key::Enter => (
            Controls { joypad: JoypadState { start: pressed, ..j }, ..c },
            KeyAction::Nothing,
        ),
        Key::ShiftRight => (
            Controls { joypad: JoypadState { select: pressed, ..j }, ..c },
            KeyAction::Nothing,
        ),
        Key::Other => (c, KeyAction::Nothing),
    }
}

impl Controls {
    /// No button held, both debug views off.
    pub fn new() -> (c: Self)
        ensures
            c == (Controls { joypad: released(), debug_overlay: false, tile_viewer: false }),
    {
        Controls {
            joypad: JoypadState {
                up: false,
                down: false,
                left: false,
                right: false,
                a: false,
                b: false,
                start: false,
                select: false,
            },
            debug_overlay: false,
            tile_viewer: false,
        }
    }

    /// Apply a key going down (`pressed`) or up, and say what the front end
    /// must do.
    pub fn handle_key(&mut self, key: Key, pressed: bool) -> (action: KeyAction)
        ensures
            (*final(self), action) == key_effect(*old(self), key, pressed),
    {
        match key {
            Key::Escape => KeyAction::Exit,
            Key::F1 => {
                if pressed {
                    self.debug_overlay = !self.debug_overlay;
                    KeyAction::PrintDebugOverlay
                } else {
                    KeyAction::Nothing
                }
            },
            Key::F2 => {
                if pressed {
                    self.tile_viewer = !self.tile_viewer;
                    if self.tile_viewer {
                        KeyAction::TileViewerOn
                    } else {
                        KeyAction::TileViewerOff
                    }
                } else {
                    KeyAction::Nothing
                }
            },
            Key::ArrowUp => {
                self.joypad.up = pressed;
                KeyAction::Nothing
            },
            Key::ArrowDown => {
                self.joypad.down = pressed;
                KeyAction::Nothing
            },
            Key::ArrowLeft => {
                self.joypad.left = pressed;
                KeyAction::Nothing
            },
            Key::ArrowRight => {
                self.joypad.right = pressed;
                KeyAction::Nothing
            },
            Key::KeyZ => {
                self.joypad.a = pressed;
                KeyAction::Nothing
            },
            Key::KeyX => {
                self.joypad.b = pressed;
                KeyAction::Nothing
            },
            Key::Enter => {
                self.joypad.start = pressed;
                KeyAction::Nothing
            },
            Key::ShiftRight => {
                self.joypad.select = pressed;
                KeyAction::Nothing
            },
            Key::Other => KeyAction::Nothing,
        }
    }
}

/// Pressing and then releasing a joypad key ends in the same controls as
/// releasing it alone: a press leaves no trace once the key is up.
pub proof fn lemma_press_release(c: Controls, key: Key)
    requires
        key != Key::Escape && key != Key::F1 && key != Key::F2 && key != Key::Other,
    ensures
        ({
            let (down, _) = key_effect(c, key, true);
            let (up, _) = key_effect(down, key, false);
            up == key_effect(c, key, false).0
        }),
{
}

/// Two presses of F1 or F2 restore the toggles.
pub proof fn lemma_toggle_twice(c: Controls, key: Key)
    requires
        key == Key::F1 || key == Key::F2,
    ensures
        key_effect(key_effect(c, key, true).0, key, true).0 == c,
{
}

} // verus!
