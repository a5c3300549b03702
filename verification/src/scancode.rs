//! Scan codes of the keyboard as Windows reports them, and the keys that
//! they belong to.
//!
//! A scan code is a byte; the keys of the extended set carry the prefix
//! `0xE0` in front of it, which gives the code `0xE000` plus the byte.

use crate::keys::OsCode;
use vstd::prelude::*;

verus! {

/// The scan code of a key, for the keys that have one.
pub open spec fn scancode_of(osc: OsCode) -> Option<u16> {
    match osc {
        OsCode::KEY_ESC => Some(0x01u16),
        OsCode::KEY_1 => Some(0x02u16),
        OsCode::KEY_2 => Some(0x03u16),
        OsCode::KEY_3 => Some(0x04u16),
        OsCode::KEY_4 => Some(0x05u16),
        OsCode::KEY_5 => Some(0x06u16),
        OsCode::KEY_6 => Some(0x07u16),
        OsCode::KEY_7 => Some(0x08u16),
        OsCode::KEY_8 => Some(0x09u16),
        OsCode::KEY_9 => Some(0x0Au16),
        OsCode::KEY_0 => Some(0x0Bu16),
        OsCode::KEY_MINUS => Some(0x0Cu16),
        OsCode::KEY_EQUAL => Some(0x0Du16),
        OsCode::KEY_BACKSPACE => Some(0x0Eu16),
        OsCode::KEY_TAB => Some(0x0Fu16),
        OsCode::KEY_Q => Some(0x10u16),
        OsCode::KEY_W => Some(0x11u16),
        OsCode::KEY_E => Some(0x12u16),
        OsCode::KEY_R => Some(0x13u16),
        OsCode::KEY_T => Some(0x14u16),
        OsCode::KEY_Y => Some(0x15u16),
        OsCode::KEY_U => Some(0x16u16),
        OsCode::KEY_I => Some(0x17u16),
        OsCode::KEY_O => Some(0x18u16),
        OsCode::KEY_P => Some(0x19u16),
        OsCode::KEY_LEFTBRACE => Some(0x1Au16),
        OsCode::KEY_RIGHTBRACE => Some(0x1Bu16),
        OsCode::KEY_ENTER => Some(0x1Cu16),
        OsCode::KEY_LEFTCTRL => Some(0x1Du16),
        OsCode::KEY_A => Some(0x1Eu16),
        OsCode::KEY_S => Some(0x1Fu16),
        OsCode::KEY_D => Some(0x20u16),
        OsCode::KEY_F => Some(0x21u16),
        OsCode::KEY_G => Some(0x22u16),
        OsCode::KEY_H => Some(0x23u16),
        OsCode::KEY_J => Some(0x24u16),
        OsCode::KEY_K => Some(0x25u16),
        OsCode::KEY_L => Some(0x26u16),
        OsCode::KEY_SEMICOLON => Some(0x27u16),
        OsCode::KEY_APOSTROPHE => Some(0x28u16),
        OsCode::KEY_GRAVE => Some(0x29u16),
        OsCode::KEY_LEFTSHIFT => Some(0x2Au16),
        OsCode::KEY_BACKSLASH => Some(0x2Bu16),
        OsCode::KEY_Z => Some(0x2Cu16),
        OsCode::KEY_X => Some(0x2Du16),
        OsCode::KEY_C => Some(0x2Eu16),
        OsCode::KEY_V => Some(0x2Fu16),
        OsCode::KEY_B => Some(0x30u16),
        OsCode::KEY_N => Some(0x31u16),
        OsCode::KEY_M => Some(0x32u16),
        OsCode::KEY_COMMA => Some(0x33u16),
        OsCode::KEY_DOT => Some(0x34u16),
        OsCode::KEY_SLASH => Some(0x35u16),
        OsCode::KEY_RIGHTSHIFT => Some(0x36u16),
        OsCode::KEY_KPASTERISK => Some(0x37u16),
        OsCode::KEY_LEFTALT => Some(0x38u16),
        OsCode::KEY_SPACE => Some(0x39u16),
        OsCode::KEY_CAPSLOCK => Some(0x3Au16),
        OsCode::KEY_F1 => Some(0x3Bu16),
        OsCode::KEY_F2 => Some(0x3Cu16),
        OsCode::KEY_F3 => Some(0x3Du16),
        OsCode::KEY_F4 => Some(0x3Eu16),
        OsCode::KEY_F5 => Some(0x3Fu16),
        OsCode::KEY_F6 => Some(0x40u16),
        OsCode::KEY_F7 => Some(0x41u16),
        OsCode::KEY_F8 => Some(0x42u16),
        OsCode::KEY_F9 => Some(0x43u16),
        OsCode::KEY_F10 => Some(0x44u16),
        OsCode::KEY_NUMLOCK => Some(0x45u16),
        OsCode::KEY_SCROLLLOCK => Some(0x46u16),
        OsCode::KEY_KP7 => Some(0x47u16),
        OsCode::KEY_KP8 => Some(0x48u16),
        OsCode::KEY_KP9 => Some(0x49u16),
        OsCode::KEY_KPMINUS => Some(0x4Au16),
        OsCode::KEY_KP4 => Some(0x4Bu16),
        OsCode::KEY_KP5 => Some(0x4Cu16),
        OsCode::KEY_KP6 => Some(0x4Du16),
        OsCode::KEY_KPPLUS => Some(0x4Eu16),
        OsCode::KEY_KP1 => Some(0x4Fu16),
        OsCode::KEY_KP2 => Some(0x50u16),
        OsCode::KEY_KP3 => Some(0x51u16),
        OsCode::KEY_KP0 => Some(0x52u16),
        OsCode::KEY_KPDOT => Some(0x53u16),
        OsCode::KEY_102ND => Some(0x56u16),
        OsCode::KEY_F11 => Some(0x57u16),
        OsCode::KEY_F12 => Some(0x58u16),
        OsCode::KEY_F13 => Some(0x64u16),
        OsCode::KEY_F14 => Some(0x65u16),
        OsCode::KEY_F15 => Some(0x66u16),
        OsCode::KEY_F16 => Some(0x67u16),
        OsCode::KEY_F17 => Some(0x68u16),
        OsCode::KEY_F18 => Some(0x69u16),
        OsCode::KEY_F19 => Some(0x6Au16),
        OsCode::KEY_F20 => Some(0x6Bu16),
        OsCode::KEY_F21 => Some(0x6Cu16),
        OsCode::KEY_F22 => Some(0x6Du16),
        OsCode::KEY_F23 => Some(0x6Eu16),
        OsCode::KEY_F24 => Some(0x76u16),
        OsCode::KEY_KATAKANA => Some(0x70u16),
        OsCode::KEY_PREVIOUSSONG => Some(0xE010u16),
        OsCode::KEY_NEXTSONG => Some(0xE019u16),
        OsCode::KEY_KPENTER => Some(0xE01Cu16),
        OsCode::KEY_RIGHTCTRL => Some(0xE01Du16),
        OsCode::KEY_MUTE => Some(0xE020u16),
        OsCode::KEY_PLAYPAUSE => Some(0xE022u16),
        OsCode::KEY_VOLUMEDOWN => Some(0xE02Eu16),
        OsCode::KEY_VOLUMEUP => Some(0xE030u16),
        OsCode::KEY_KPSLASH => Some(0xE035u16),
        OsCode::KEY_PRINT => Some(0xE037u16),
        OsCode::KEY_RIGHTALT => Some(0xE038u16),
        OsCode::KEY_HOME => Some(0xE047u16),
        OsCode::KEY_UP => Some(0xE048u16),
        OsCode::KEY_PAGEUP => Some(0xE049u16),
        OsCode::KEY_LEFT => Some(0xE04Bu16),
        OsCode::KEY_RIGHT => Some(0xE04Du16),
        OsCode::KEY_END => Some(0xE04Fu16),
        OsCode::KEY_DOWN => Some(0xE050u16),
        OsCode::KEY_PAGEDOWN => Some(0xE051u16),
        OsCode::KEY_INSERT => Some(0xE052u16),
        OsCode::KEY_DELETE => Some(0xE053u16),
        OsCode::KEY_LEFTMETA => Some(0xE05Bu16),
        OsCode::KEY_RIGHTMETA => Some(0xE05Cu16),
        OsCode::KEY_COMPOSE => Some(0xE05Du16),
        OsCode::KEY_FORWARD => Some(0xE069u16),
        OsCode::KEY_BACK => Some(0xE06Au16),
        _ => None,
    }
}

/// The scan code that `input` is read as: a code below `0xE000` as it is, any
/// other as the extended code of its low byte.
pub open spec fn canonical_scancode(input: u16) -> u16 {
    if input < 0xE000 {
        input
    } else {
        (0xE000 + input % 0x100) as u16
    }
}

/// No two keys share a scan code.
pub proof fn lemma_scancodes_are_distinct(a: OsCode, b: OsCode)
    requires
        scancode_of(a) is Some,
        scancode_of(a) == scancode_of(b),
    ensures
        a == b,
{
}

/// The scan code of a key is read back as itself.
pub proof fn lemma_scancode_is_canonical(osc: OsCode)
    requires
        scancode_of(osc) is Some,
    ensures
        canonical_scancode(scancode_of(osc).unwrap()) == scancode_of(osc).unwrap(),
{
}

/// The key that a scan code belongs to, if it belongs to one. Of an extended
/// code only the low byte is read.
pub fn u16_to_osc(input: u16) -> (key: Option<OsCode>)
    ensures
        forall|osc: OsCode|
            key == Some(osc) <==> #[trigger] scancode_of(osc) == Some(canonical_scancode(input)),
{
    Some(
        if input < 0xE000 {
            match input {
                0x01 => OsCode::KEY_ESC,
                0x02 => OsCode::KEY_1,
                0x03 => OsCode::KEY_2,
                0x04 => OsCode::KEY_3,
                0x05 => OsCode::KEY_4,
                0x06 => OsCode::KEY_5,
                0x07 => OsCode::KEY_6,
                0x08 => OsCode::KEY_7,
                0x09 => OsCode::KEY_8,
                0x0A => OsCode::KEY_9,
                0x0B => OsCode::KEY_0,
                0x0C => OsCode::KEY_MINUS,
                0x0D => OsCode::KEY_EQUAL,
                0x0E => OsCode::KEY_BACKSPACE,
                0x0F => OsCode::KEY_TAB,
                0x10 => OsCode::KEY_Q,
                0x11 => OsCode::KEY_W,
                0x12 => OsCode::KEY_E,
                0x13 => OsCode::KEY_R,
                0x14 => OsCode::KEY_T,
                0x15 => OsCode::KEY_Y,
                0x16 => OsCode::KEY_U,
                0x17 => OsCode::KEY_I,
                0x18 => OsCode::KEY_O,
                0x19 => OsCode::KEY_P,
                0x1A => OsCode::KEY_LEFTBRACE,
                0x1B => OsCode::KEY_RIGHTBRACE,
                0x1C => OsCode::KEY_ENTER,
                0x1D => OsCode::KEY_LEFTCTRL,
                0x1E => OsCode::KEY_A,
                0x1F => OsCode::KEY_S,
                0x20 => OsCode::KEY_D,
                0x21 => OsCode::KEY_F,
                0x22 => OsCode::KEY_G,
                0x23 => OsCode::KEY_H,
                0x24 => OsCode::KEY_J,
                0x25 => OsCode::KEY_K,
                0x26 => OsCode::KEY_L,
                0x27 => OsCode::KEY_SEMICOLON,
                0x28 => OsCode::KEY_APOSTROPHE,
                0x29 => OsCode::KEY_GRAVE,
                0x2A => OsCode::KEY_LEFTSHIFT,
                0x2B => OsCode::KEY_BACKSLASH,
                0x2C => OsCode::KEY_Z,
                0x2D => OsCode::KEY_X,
                0x2E => OsCode::KEY_C,
                0x2F => OsCode::KEY_V,
                0x30 => OsCode::KEY_B,
                0x31 => OsCode::KEY_N,
                0x32 => OsCode::KEY_M,
                0x33 => OsCode::KEY_COMMA,
                0x34 => OsCode::KEY_DOT,
                0x35 => OsCode::KEY_SLASH,
                0x36 => OsCode::KEY_RIGHTSHIFT,
                0x37 => OsCode::KEY_KPASTERISK,
                0x38 => OsCode::KEY_LEFTALT,
                0x39 => OsCode::KEY_SPACE,
                0x3A => OsCode::KEY_CAPSLOCK,
                0x3B => OsCode::KEY_F1,
                0x3C => OsCode::KEY_F2,
                0x3D => OsCode::KEY_F3,
                0x3E => OsCode::KEY_F4,
                0x3F => OsCode::KEY_F5,
                0x40 => OsCode::KEY_F6,
                0x41 => OsCode::KEY_F7,
                0x42 => OsCode::KEY_F8,
                0x43 => OsCode::KEY_F9,
                0x44 => OsCode::KEY_F10,
                0x45 => OsCode::KEY_NUMLOCK,
                0x46 => OsCode::KEY_SCROLLLOCK,
                0x47 => OsCode::KEY_KP7,
                0x48 => OsCode::KEY_KP8,
                0x49 => OsCode::KEY_KP9,
                0x4A => OsCode::KEY_KPMINUS,
                0x4B => OsCode::KEY_KP4,
                0x4C => OsCode::KEY_KP5,
                0x4D => OsCode::KEY_KP6,
                0x4E => OsCode::KEY_KPPLUS,
                0x4F => OsCode::KEY_KP1,
                0x50 => OsCode::KEY_KP2,
                0x51 => OsCode::KEY_KP3,
                0x52 => OsCode::KEY_KP0,
                0x53 => OsCode::KEY_KPDOT,
                0x56 => OsCode::KEY_102ND,
                0x57 => OsCode::KEY_F11,
                0x58 => OsCode::KEY_F12,
                0x64 => OsCode::KEY_F13,
                0x65 => OsCode::KEY_F14,
                0x66 => OsCode::KEY_F15,
                0x67 => OsCode::KEY_F16,
                0x68 => OsCode::KEY_F17,
                0x69 => OsCode::KEY_F18,
                0x6A => OsCode::KEY_F19,
                0x6B => OsCode::KEY_F20,
                0x6C => OsCode::KEY_F21,
                0x6D => OsCode::KEY_F22,
                0x6E => OsCode::KEY_F23,
                0x76 => OsCode::KEY_F24,
                0x70 => OsCode::KEY_KATAKANA,
                _ => {
                    return None;
                },
            }
        } else {
            let low: u16 = input & 0xFF;
            assert(low == input % 0x100) by (bit_vector)
                requires
                    low == input & 0xFF,
            ;
            match low {
                0x10 => OsCode::KEY_PREVIOUSSONG,
                0x19 => OsCode::KEY_NEXTSONG,
                0x1C => OsCode::KEY_KPENTER,
                0x1D => OsCode::KEY_RIGHTCTRL,
                0x20 => OsCode::KEY_MUTE,
                0x22 => OsCode::KEY_PLAYPAUSE,
                0x2E => OsCode::KEY_VOLUMEDOWN,
                0x30 => OsCode::KEY_VOLUMEUP,
                0x35 => OsCode::KEY_KPSLASH,
                0x37 => OsCode::KEY_PRINT,
                0x38 => OsCode::KEY_RIGHTALT,
                0x47 => OsCode::KEY_HOME,
                0x48 => OsCode::KEY_UP,
                0x49 => OsCode::KEY_PAGEUP,
                0x4B => OsCode::KEY_LEFT,
                0x4D => OsCode::KEY_RIGHT,
                0x4F => OsCode::KEY_END,
                0x50 => OsCode::KEY_DOWN,
                0x51 => OsCode::KEY_PAGEDOWN,
                0x52 => OsCode::KEY_INSERT,
                0x53 => OsCode::KEY_DELETE,
                0x5B => OsCode::KEY_LEFTMETA,
                0x5C => OsCode::KEY_RIGHTMETA,
                0x5D => OsCode::KEY_COMPOSE,
                0x69 => OsCode::KEY_FORWARD,
                0x6A => OsCode::KEY_BACK,
                _ => {
                    return None;
                },
            }
        },
    )
}

/// The scan code of a key, if it has one.
pub fn osc_to_u16(osc: OsCode) -> (code: Option<u16>)
    ensures
        code == scancode_of(osc),
{
    Some(
        match osc {
            OsCode::KEY_ESC => 0x01,
            OsCode::KEY_1 => 0x02,
            OsCode::KEY_2 => 0x03,
            OsCode::KEY_3 => 0x04,
            OsCode::KEY_4 => 0x05,
            OsCode::KEY_5 => 0x06,
            OsCode::KEY_6 => 0x07,
            OsCode::KEY_7 => 0x08,
            OsCode::KEY_8 => 0x09,
            OsCode::KEY_9 => 0x0A,
            OsCode::KEY_0 => 0x0B,
            OsCode::KEY_MINUS => 0x0C,
            OsCode::KEY_EQUAL => 0x0D,
            OsCode::KEY_BACKSPACE => 0x0E,
            OsCode::KEY_TAB => 0x0F,
            OsCode::KEY_Q => 0x10,
            OsCode::KEY_W => 0x11,
            OsCode::KEY_E => 0x12,
            OsCode::KEY_R => 0x13,
            OsCode::KEY_T => 0x14,
            OsCode::KEY_Y => 0x15,
            OsCode::KEY_U => 0x16,
            OsCode::KEY_I => 0x17,
            OsCode::KEY_O => 0x18,
            OsCode::KEY_P => 0x19,
            OsCode::KEY_LEFTBRACE => 0x1A,
            OsCode::KEY_RIGHTBRACE => 0x1B,
            OsCode::KEY_ENTER => 0x1C,
            OsCode::KEY_LEFTCTRL => 0x1D,
            OsCode::KEY_A => 0x1E,
            OsCode::KEY_S => 0x1F,
            OsCode::KEY_D => 0x20,
            OsCode::KEY_F => 0x21,
            OsCode::KEY_G => 0x22,
            OsCode::KEY_H => 0x23,
            OsCode::KEY_J => 0x24,
            OsCode::KEY_K => 0x25,
            OsCode::KEY_L => 0x26,
            OsCode::KEY_SEMICOLON => 0x27,
            OsCode::KEY_APOSTROPHE => 0x28,
            OsCode::KEY_GRAVE => 0x29,
            OsCode::KEY_LEFTSHIFT => 0x2A,
            OsCode::KEY_BACKSLASH => 0x2B,
            OsCode::KEY_Z => 0x2C,
            OsCode::KEY_X => 0x2D,
            OsCode::KEY_C => 0x2E,
            OsCode::KEY_V => 0x2F,
            OsCode::KEY_B => 0x30,
            OsCode::KEY_N => 0x31,
            OsCode::KEY_M => 0x32,
            OsCode::KEY_COMMA => 0x33,
            OsCode::KEY_DOT => 0x34,
            OsCode::KEY_SLASH => 0x35,
            OsCode::KEY_RIGHTSHIFT => 0x36,
            OsCode::KEY_KPASTERISK => 0x37,
            OsCode::KEY_LEFTALT => 0x38,
            OsCode::KEY_SPACE => 0x39,
            OsCode::KEY_CAPSLOCK => 0x3A,
            OsCode::KEY_F1 => 0x3B,
            OsCode::KEY_F2 => 0x3C,
            OsCode::KEY_F3 => 0x3D,
            OsCode::KEY_F4 => 0x3E,
            OsCode::KEY_F5 => 0x3F,
            OsCode::KEY_F6 => 0x40,
            OsCode::KEY_F7 => 0x41,
            OsCode::KEY_F8 => 0x42,
            OsCode::KEY_F9 => 0x43,
            OsCode::KEY_F10 => 0x44,
            OsCode::KEY_NUMLOCK => 0x45,
            OsCode::KEY_SCROLLLOCK => 0x46,
            OsCode::KEY_KP7 => 0x47,
            OsCode::KEY_KP8 => 0x48,
            OsCode::KEY_KP9 => 0x49,
            OsCode::KEY_KPMINUS => 0x4A,
            OsCode::KEY_KP4 => 0x4B,
            OsCode::KEY_KP5 => 0x4C,
            OsCode::KEY_KP6 => 0x4D,
            OsCode::KEY_KPPLUS => 0x4E,
            OsCode::KEY_KP1 => 0x4F,
            OsCode::KEY_KP2 => 0x50,
            OsCode::KEY_KP3 => 0x51,
            OsCode::KEY_KP0 => 0x52,
            OsCode::KEY_KPDOT => 0x53,
            OsCode::KEY_102ND => 0x56,
            OsCode::KEY_F11 => 0x57,
            OsCode::KEY_F12 => 0x58,
            OsCode::KEY_F13 => 0x64,
            OsCode::KEY_F14 => 0x65,
            OsCode::KEY_F15 => 0x66,
            OsCode::KEY_F16 => 0x67,
            OsCode::KEY_F17 => 0x68,
            OsCode::KEY_F18 => 0x69,
            OsCode::KEY_F19 => 0x6A,
            OsCode::KEY_F20 => 0x6B,
            OsCode::KEY_F21 => 0x6C,
            OsCode::KEY_F22 => 0x6D,
            OsCode::KEY_F23 => 0x6E,
            OsCode::KEY_F24 => 0x76,
            OsCode::KEY_KATAKANA => 0x70,
            OsCode::KEY_PREVIOUSSONG => 0xE010,
            OsCode::KEY_NEXTSONG => 0xE019,
            OsCode::KEY_KPENTER => 0xE01C,
            OsCode::KEY_RIGHTCTRL => 0xE01D,
            OsCode::KEY_MUTE => 0xE020,
            OsCode::KEY_PLAYPAUSE => 0xE022,
            OsCode::KEY_VOLUMEDOWN => 0xE02E,
            OsCode::KEY_VOLUMEUP => 0xE030,
            OsCode::KEY_KPSLASH => 0xE035,
            OsCode::KEY_PRINT => 0xE037,
            OsCode::KEY_RIGHTALT => 0xE038,
            OsCode::KEY_HOME => 0xE047,
            OsCode::KEY_UP => 0xE048,
            OsCode::KEY_PAGEUP => 0xE049,
            OsCode::KEY_LEFT => 0xE04B,
            OsCode::KEY_RIGHT => 0xE04D,
            OsCode::KEY_END => 0xE04F,
            OsCode::KEY_DOWN => 0xE050,
            OsCode::KEY_PAGEDOWN => 0xE051,
            OsCode::KEY_INSERT => 0xE052,
            OsCode::KEY_DELETE => 0xE053,
            OsCode::KEY_LEFTMETA => 0xE05B,
            OsCode::KEY_RIGHTMETA => 0xE05C,
            OsCode::KEY_COMPOSE => 0xE05D,
            OsCode::KEY_FORWARD => 0xE069,
            OsCode::KEY_BACK => 0xE06A,
            _ => {
                return None;
            },
        },
    )
}

} // verus!
