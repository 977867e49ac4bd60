use vstd::prelude::*;

verus! {

/// A key pressed by the user: a printable character or a named key.
#[derive(Clone, Copy, Debug, PartialEq, Eq, Structural)]
pub enum Key {
    Tab,
    Enter,
    Esc,
    Backspace,
    Right,
    Left,
    Up,
    Down,
    Delete,
    Insert,
    Home,
    End,
    PageUp,
    PageDown,
    Char(char),
    Ctrl(char),
    F(u8),
}

/// Backend code of the Tab key.
pub const CODE_TAB: u16 = 9;
/// Backend code of the Enter key.
pub const CODE_ENTER: u16 = 13;
/// Backend code of the Escape key.
pub const CODE_ESC: u16 = 27;
/// Backend code of the space bar.
pub const CODE_SPACE: u16 = 32;
/// Backend code of the Backspace key.
pub const CODE_BACKSPACE: u16 = 127;
/// Backend code of F12; F1 down to F12 take the codes from `u16::MAX` down.
pub const CODE_F12: u16 = 0xFFFF - 11;
/// Backend code of the Insert key.
pub const CODE_INSERT: u16 = 0xFFFF - 12;
/// Backend code of the Delete key.
pub const CODE_DELETE: u16 = 0xFFFF - 13;
/// Backend code of the Home key.
pub const CODE_HOME: u16 = 0xFFFF - 14;
/// Backend code of the End key.
pub const CODE_END: u16 = 0xFFFF - 15;
/// Backend code of the Page Up key.
pub const CODE_PAGE_UP: u16 = 0xFFFF - 16;
/// Backend code of the Page Down key.
pub const CODE_PAGE_DOWN: u16 = 0xFFFF - 17;
/// Backend code of the Up arrow.
pub const CODE_UP: u16 = 0xFFFF - 18;
/// Backend code of the Down arrow.
pub const CODE_DOWN: u16 = 0xFFFF - 19;
/// Backend code of the Left arrow.
pub const CODE_LEFT: u16 = 0xFFFF - 20;
/// Backend code of the Right arrow.
pub const CODE_RIGHT: u16 = 0xFFFF - 21;

/// Codes 1 to 26 are Ctrl with a letter, but for those that the
/// terminal reports as Tab and Enter.
pub open spec fn is_ctrl_letter_code(code: u16) -> bool {
    1 <= code <= 26 && code != CODE_TAB && code != CODE_ENTER
}

/// The named key that a special code stands for, if any.
pub open spec fn special_key(code: u16) -> Option<Key> {
    if is_ctrl_letter_code(code) {
        Some(Key::Ctrl(((code + 96) as u8) as char))
    } else if code == CODE_TAB {
        Some(Key::Tab)
    } else if code == CODE_ENTER {
        Some(Key::Enter)
    } else if code == CODE_ESC {
        Some(Key::Esc)
    } else if code == 28 {
        Some(Key::Ctrl('\\'))
    } else if code == 29 {
        Some(Key::Ctrl(']'))
    } else if code == 30 {
        Some(Key::Ctrl('6'))
    } else if code == 31 {
        Some(Key::Ctrl('/'))
    } else if code == CODE_SPACE {
        Some(Key::Char(' '))
    } else if code == CODE_BACKSPACE {
        Some(Key::Backspace)
    } else if code >= CODE_F12 {
        Some(Key::F((0x10000 - code) as u8))
    } else if code == CODE_INSERT {
        Some(Key::Insert)
    } else if code == CODE_DELETE {
        Some(Key::Delete)
    } else if code == CODE_HOME {
        Some(Key::Home)
    } else if code == CODE_END {
        Some(Key::End)
    } else if code == CODE_PAGE_UP {
        Some(Key::PageUp)
    } else if code == CODE_PAGE_DOWN {
        Some(Key::PageDown)
    } else if code == CODE_UP {
        Some(Key::Up)
    } else if code == CODE_DOWN {
        Some(Key::Down)
    } else if code == CODE_LEFT {
        Some(Key::Left)
    } else if code == CODE_RIGHT {
        Some(Key::Right)
    } else {
        None
    }
}

impl Key {
    /// Resolves a backend special-key code into a named key; `None` where
    /// the code names no key.
    pub fn from_special_code(code: u16) -> (r: Option<Key>)
        ensures
            r == special_key(code),
    {
        if 1 <= code && code <= 26 && code != CODE_TAB && code != CODE_ENTER {
            let letter: u8 = (code + 96) as u8;
            Some(Key::Ctrl(letter as char))
        } else if code >= CODE_F12 {
            Some(Key::F((0xFFFF - code + 1) as u8))
        } else {
            match code {
                CODE_TAB => Some(Key::Tab),
                CODE_ENTER => Some(Key::Enter),
                CODE_ESC => Some(Key::Esc),
                28 => Some(Key::Ctrl('\\')),
                29 => Some(Key::Ctrl(']')),
                30 => Some(Key::Ctrl('6')),
                31 => Some(Key::Ctrl('/')),
                CODE_SPACE => Some(Key::Char(' ')),
                CODE_BACKSPACE => Some(Key::Backspace),
                CODE_INSERT => Some(Key::Insert),
                CODE_DELETE => Some(Key::Delete),
                CODE_HOME => Some(Key::Home),
                CODE_END => Some(Key::End),
                CODE_PAGE_UP => Some(Key::PageUp),
                CODE_PAGE_DOWN => Some(Key::PageDown),
                CODE_UP => Some(Key::Up),
                CODE_DOWN => Some(Key::Down),
                CODE_LEFT => Some(Key::Left),
                CODE_RIGHT => Some(Key::Right),
                _ => None,
            }
        }
    }
}

} // verus!
