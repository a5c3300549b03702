//! The keys that the operating system reports, and which of their codes
//! belong to mouse buttons.

use vstd::prelude::*;

verus! {

/// A key or button as the operating system names it.
#[allow(non_camel_case_types)]
#[derive(Debug, Copy, Clone, PartialEq, Eq, Structural, Hash)]
pub enum OsCode {
    KEY_ESC,
    KEY_1,
    KEY_2,
    KEY_3,
    KEY_4,
    KEY_5,
    KEY_6,
    KEY_7,
    KEY_8,
    KEY_9,
    KEY_0,
    KEY_MINUS,
    KEY_EQUAL,
    KEY_BACKSPACE,
    KEY_TAB,
    KEY_Q,
    KEY_W,
    KEY_E,
    KEY_R,
    KEY_T,
    KEY_Y,
    KEY_U,
    KEY_I,
    KEY_O,
    KEY_P,
    KEY_LEFTBRACE,
    KEY_RIGHTBRACE,
    KEY_ENTER,
    KEY_LEFTCTRL,
    KEY_A,
    KEY_S,
    KEY_D,
    KEY_F,
    KEY_G,
    KEY_H,
    KEY_J,
    KEY_K,
    KEY_L,
    KEY_SEMICOLON,
    KEY_APOSTROPHE,
    KEY_GRAVE,
    KEY_LEFTSHIFT,
    KEY_BACKSLASH,
    KEY_Z,
    KEY_X,
    KEY_C,
    KEY_V,
    KEY_B,
    KEY_N,
    KEY_M,
    KEY_COMMA,
    KEY_DOT,
    KEY_SLASH,
    KEY_RIGHTSHIFT,
    KEY_KPASTERISK,
    KEY_LEFTALT,
    KEY_SPACE,
    KEY_CAPSLOCK,
    KEY_F1,
    KEY_F2,
    KEY_F3,
    KEY_F4,
    KEY_F5,
    KEY_F6,
    KEY_F7,
    KEY_F8,
    KEY_F9,
    KEY_F10,
    KEY_NUMLOCK,
    KEY_SCROLLLOCK,
    KEY_KP7,
    KEY_KP8,
    KEY_KP9,
    KEY_KPMINUS,
    KEY_KP4,
    KEY_KP5,
    KEY_KP6,
    KEY_KPPLUS,
    KEY_KP1,
    KEY_KP2,
    KEY_KP3,
    KEY_KP0,
    KEY_KPDOT,
    KEY_102ND,
    KEY_F11,
    KEY_F12,
    KEY_F13,
    KEY_F14,
    KEY_F15,
    KEY_F16,
    KEY_F17,
    KEY_F18,
    KEY_F19,
    KEY_F20,
    KEY_F21,
    KEY_F22,
    KEY_F23,
    KEY_F24,
    KEY_KATAKANA,
    KEY_PREVIOUSSONG,
    KEY_NEXTSONG,
    KEY_KPENTER,
    KEY_RIGHTCTRL,
    KEY_MUTE,
    KEY_PLAYPAUSE,
    KEY_VOLUMEDOWN,
    KEY_VOLUMEUP,
    KEY_KPSLASH,
    KEY_PRINT,
    KEY_RIGHTALT,
    KEY_HOME,
    KEY_UP,
    KEY_PAGEUP,
    KEY_LEFT,
    KEY_RIGHT,
    KEY_END,
    KEY_DOWN,
    KEY_PAGEDOWN,
    KEY_INSERT,
    KEY_DELETE,
    KEY_LEFTMETA,
    KEY_RIGHTMETA,
    KEY_COMPOSE,
    KEY_FORWARD,
    KEY_BACK,
    MouseWheelUp,
    MouseWheelDown,
    MouseWheelLeft,
    MouseWheelRight,
    BTN_LEFT,
    BTN_RIGHT,
    BTN_MIDDLE,
    BTN_SIDE,
    BTN_EXTRA,
    BTN_FORWARD,
    BTN_BACK,
    KEY_CLEAR,
    KEY_PAUSE,
    KEY_STOP,
    KEY_HOMEPAGE,
    KEY_MAIL,
    KEY_MEDIA,
    KEY_REFRESH,
    KEY_HANGEUL,
    KEY_HANJA,
    KEY_252,
    KEY_PLAY,
    KEY_SEARCH,
    KEY_FAVORITES,
    KEY_RO,
    KEY_HENKAN,
    KEY_MUHENKAN,
}

/// Whether a key code is that of a mouse button rather than of a key of the
/// keyboard. The codes from 256 up are those of buttons; where the codes are
/// the virtual-key codes of Windows, those from 1 to 6 are buttons too.
pub fn is_a_button(osc: u16, windows: bool) -> (button: bool)
    ensures
        button == (osc >= 256 || (windows && 1 <= osc <= 6)),
{
    if windows {
        (1 <= osc && osc <= 6) || osc >= 256
    } else {
        osc >= 256
    }
}

} // verus!
