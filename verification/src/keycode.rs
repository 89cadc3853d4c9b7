//! Key identifiers and the usage bytes that stand for them in a report.

use vstd::prelude::*;

verus! {

/// The usage byte of an empty report slot. No key has it.
pub const NO_KEY: u8 = 0;

/// A key of the keyboard, as the host knows it.
#[derive(Clone, Copy, Debug, PartialEq, Eq, Structural)]
pub enum Keycode {
    /// Letter A.
    KeyA,
    /// Letter B.
    KeyB,
    /// Letter C.
    KeyC,
    /// Letter D.
    KeyD,
    /// Letter E.
    KeyE,
    /// Letter F.
    KeyF,
    /// Letter G.
    KeyG,
    /// Letter H.
    KeyH,
    /// Letter I.
    KeyI,
    /// Letter J.
    KeyJ,
    /// Letter K.
    KeyK,
    /// Letter L.
    KeyL,
    /// Letter M.
    KeyM,
    /// Letter N.
    KeyN,
    /// Letter O.
    KeyO,
    /// Letter P.
    KeyP,
    /// Letter Q.
    KeyQ,
    /// Letter R.
    KeyR,
    /// Letter S.
    KeyS,
    /// Letter T.
    KeyT,
    /// Letter U.
    KeyU,
    /// Letter V.
    KeyV,
    /// Letter W.
    KeyW,
    /// Letter X.
    KeyX,
    /// Letter Y.
    KeyY,
    /// Letter Z.
    KeyZ,
    /// Digit 1 of the top row.
    Key1,
    /// Digit 2 of the top row.
    Key2,
    /// Digit 3 of the top row.
    Key3,
    /// Digit 4 of the top row.
    Key4,
    /// Digit 5 of the top row.
    Key5,
    /// Digit 6 of the top row.
    Key6,
    /// Digit 7 of the top row.
    Key7,
    /// Digit 8 of the top row.
    Key8,
    /// Digit 9 of the top row.
    Key9,
    /// Digit 0 of the top row.
    Key0,
    /// Return (Enter).
    Enter,
    /// Escape.
    Escape,
    /// Backspace.
    Backspace,
    /// Tab.
    Tab,
    /// Space bar.
    Space,
}

impl Keycode {
    /// The byte of the keyboard usage page that names this key to the host.
    pub open spec fn usage_spec(self) -> u8 {
        match self {
            Keycode::KeyA => 0x04,
            Keycode::KeyB => 0x05,
            Keycode::KeyC => 0x06,
            Keycode::KeyD => 0x07,
            Keycode::KeyE => 0x08,
            Keycode::KeyF => 0x09,
            Keycode::KeyG => 0x0a,
            Keycode::KeyH => 0x0b,
            Keycode::KeyI => 0x0c,
            Keycode::KeyJ => 0x0d,
            Keycode::KeyK => 0x0e,
            Keycode::KeyL => 0x0f,
            Keycode::KeyM => 0x10,
            Keycode::KeyN => 0x11,
            Keycode::KeyO => 0x12,
            Keycode::KeyP => 0x13,
            Keycode::KeyQ => 0x14,
            Keycode::KeyR => 0x15,
            Keycode::KeyS => 0x16,
            Keycode::KeyT => 0x17,
            Keycode::KeyU => 0x18,
            Keycode::KeyV => 0x19,
            Keycode::KeyW => 0x1a,
            Keycode::KeyX => 0x1b,
            Keycode::KeyY => 0x1c,
            Keycode::KeyZ => 0x1d,
            Keycode::Key1 => 0x1e,
            Keycode::Key2 => 0x1f,
            Keycode::Key3 => 0x20,
            Keycode::Key4 => 0x21,
            Keycode::Key5 => 0x22,
            Keycode::Key6 => 0x23,
            Keycode::Key7 => 0x24,
            Keycode::Key8 => 0x25,
            Keycode::Key9 => 0x26,
            Keycode::Key0 => 0x27,
            Keycode::Enter => 0x28,
            Keycode::Escape => 0x29,
            Keycode::Backspace => 0x2a,
            Keycode::Tab => 0x2b,
            Keycode::Space => 0x2c,
        }
    }

    /// The byte of the keyboard usage page that names this key to the host.
    pub fn usage(self) -> (code: u8)
        ensures
            code == self.usage_spec(),
            code != NO_KEY,
    {
        match self {
            Keycode::KeyA => 0x04,
            Keycode::KeyB => 0x05,
            Keycode::KeyC => 0x06,
            Keycode::KeyD => 0x07,
            Keycode::KeyE => 0x08,
            Keycode::KeyF => 0x09,
            Keycode::KeyG => 0x0a,
            Keycode::KeyH => 0x0b,
            Keycode::KeyI => 0x0c,
            Keycode::KeyJ => 0x0d,
            Keycode::KeyK => 0x0e,
            Keycode::KeyL => 0x0f,
            Keycode::KeyM => 0x10,
            Keycode::KeyN => 0x11,
            Keycode::KeyO => 0x12,
            Keycode::KeyP => 0x13,
            Keycode::KeyQ => 0x14,
            Keycode::KeyR => 0x15,
            Keycode::KeyS => 0x16,
            Keycode::KeyT => 0x17,
            Keycode::KeyU => 0x18,
            Keycode::KeyV => 0x19,
            Keycode::KeyW => 0x1a,
            Keycode::KeyX => 0x1b,
            Keycode::KeyY => 0x1c,
            Keycode::KeyZ => 0x1d,
            Keycode::Key1 => 0x1e,
            Keycode::Key2 => 0x1f,
            Keycode::Key3 => 0x20,
            Keycode::Key4 => 0x21,
            Keycode::Key5 => 0x22,
            Keycode::Key6 => 0x23,
            Keycode::Key7 => 0x24,
            Keycode::Key8 => 0x25,
            Keycode::Key9 => 0x26,
            Keycode::Key0 => 0x27,
            Keycode::Enter => 0x28,
            Keycode::Escape => 0x29,
            Keycode::Backspace => 0x2a,
            Keycode::Tab => 0x2b,
            Keycode::Space => 0x2c,
        }
    }

    /// The key that a usage byte names, if it names one of this keyboard.
    pub fn from_usage(code: u8) -> (key: Option<Keycode>)
        ensures
            match key {
                Some(k) => k.usage_spec() == code,
                None => forall|k: Keycode| k.usage_spec() != code,
            },
    {
        match code {
            0x04 => Some(Keycode::KeyA),
            0x05 => Some(Keycode::KeyB),
            0x06 => Some(Keycode::KeyC),
            0x07 => Some(Keycode::KeyD),
            0x08 => Some(Keycode::KeyE),
            0x09 => Some(Keycode::KeyF),
            0x0a => Some(Keycode::KeyG),
            0x0b => Some(Keycode::KeyH),
            0x0c => Some(Keycode::KeyI),
            0x0d => Some(Keycode::KeyJ),
            0x0e => Some(Keycode::KeyK),
            0x0f => Some(Keycode::KeyL),
            0x10 => Some(Keycode::KeyM),
            0x11 => Some(Keycode::KeyN),
            0x12 => Some(Keycode::KeyO),
            0x13 => Some(Keycode::KeyP),
            0x14 => Some(Keycode::KeyQ),
            0x15 => Some(Keycode::KeyR),
            0x16 => Some(Keycode::KeyS),
            0x17 => Some(Keycode::KeyT),
            0x18 => Some(Keycode::KeyU),
            0x19 => Some(Keycode::KeyV),
            0x1a => Some(Keycode::KeyW),
            0x1b => Some(Keycode::KeyX),
            0x1c => Some(Keycode::KeyY),
            0x1d => Some(Keycode::KeyZ),
            0x1e => Some(Keycode::Key1),
            0x1f => Some(Keycode::Key2),
            0x20 => Some(Keycode::Key3),
            0x21 => Some(Keycode::Key4),
            0x22 => Some(Keycode::Key5),
            0x23 => Some(Keycode::Key6),
            0x24 => Some(Keycode::Key7),
            0x25 => Some(Keycode::Key8),
            0x26 => Some(Keycode::Key9),
            0x27 => Some(Keycode::Key0),
            0x28 => Some(Keycode::Enter),
            0x29 => Some(Keycode::Escape),
            0x2a => Some(Keycode::Backspace),
            0x2b => Some(Keycode::Tab),
            0x2c => Some(Keycode::Space),
            _ => None,
        }
    }

    /// No key stands for an empty slot: every usage byte lies from `0x04` to `0x2c`.
    pub proof fn lemma_usage_in_range(self)
        ensures
            0x04 <= self.usage_spec() <= 0x2c,
            self.usage_spec() != NO_KEY,
    {
    }

    /// Two keys with the same usage byte are the same key.
    pub proof fn lemma_usage_injective(a: Keycode, b: Keycode)
        requires
            a.usage_spec() == b.usage_spec(),
        ensures
            a == b,
    {
    }
}

} // verus!
