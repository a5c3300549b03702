//! Key events as the platform layers report them.

use crate::keys::OsCode;
use vstd::prelude::*;

verus! {

/// How many units of a high-resolution scroll make one notch of a wheel.
pub const HI_RES_SCROLL_UNITS_IN_LO_RES: u16 = 120;

/// What happened to a key.
#[derive(Copy, Clone, Debug, PartialEq, Eq, Structural)]
pub enum KeyValue {
    Release,
    Press,
    Repeat,
    Tap,
    WakeUp,
}

/// The key value that an event value of the operating system stands for:
/// 0 is a release, 1 a press, 2 a repeat.
pub open spec fn key_value_of(item: i32) -> KeyValue {
    if item == 0 {
        KeyValue::Release
    } else if item == 1 {
        KeyValue::Press
    } else {
        KeyValue::Repeat
    }
}

impl KeyValue {
    /// The key value for an event value of the operating system, which is 0,
    /// 1 or 2.
    pub fn from_i32(item: i32) -> (value: Self)
        requires
            0 <= item <= 2,
        ensures
            value == key_value_of(item),
    {
        if item == 0 {
            KeyValue::Release
        } else if item == 1 {
            KeyValue::Press
        } else {
            KeyValue::Repeat
        }
    }

    /// The arrow that stands for this value where an event is printed.
    pub fn direction(self) -> (symbol: char)
        ensures
            symbol == match self {
                KeyValue::Press => '↓',
                KeyValue::Release => '↑',
                KeyValue::Repeat => '⟳',
                KeyValue::Tap => '↕',
                KeyValue::WakeUp => '!',
            },
    {
        match self {
            KeyValue::Press => '↓',
            KeyValue::Release => '↑',
            KeyValue::Repeat => '⟳',
            KeyValue::Tap => '↕',
            KeyValue::WakeUp => '!',
        }
    }
}

impl From<bool> for KeyValue {
    /// A key that is up has been released, one that is down pressed.
    fn from(up: bool) -> (value: Self) {
        match up {
            true => KeyValue::Release,
            false => KeyValue::Press,
        }
    }
}

impl vstd::std_specs::convert::FromSpecImpl<bool> for KeyValue {
    open spec fn obeys_from_spec() -> bool {
        true
    }

    open spec fn from_spec(up: bool) -> Self {
        if up {
            KeyValue::Release
        } else {
            KeyValue::Press
        }
    }
}

impl From<KeyValue> for bool {
    /// Whether the value is a release.
    fn from(val: KeyValue) -> (up: Self) {
        matches!(val, KeyValue::Release)
    }
}

impl vstd::std_specs::convert::FromSpecImpl<KeyValue> for bool {
    open spec fn obeys_from_spec() -> bool {
        true
    }

    open spec fn from_spec(val: KeyValue) -> Self {
        val is Release
    }
}

/// A key together with what happened to it.
#[derive(Debug, Clone, Copy)]
pub struct KeyEvent {
    pub code: OsCode,
    pub value: KeyValue,
}

impl KeyEvent {
    pub fn new(code: OsCode, value: KeyValue) -> (event: Self)
        ensures
            event.code == code,
            event.value == value,
    {
        Self { code, value }
    }
}

} // verus!
