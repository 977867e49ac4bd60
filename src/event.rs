use vstd::prelude::*;
use crate::key::{Key, special_key};

verus! {

/// How long one poll of the backend waits for input, in milliseconds.
pub const POLL_TIMEOUT_MS: u64 = 40;

/// An input event as the editor sees it.
#[derive(Clone, Copy, Debug, PartialEq, Eq, Structural)]
pub enum EditorEvent {
    /// A key was pressed; `None` where it could not be resolved.
    KeyEvent(Option<Key>),
    /// The terminal now has this width and height, in cells.
    Resize(usize, usize),
    /// The backend reported an event that the editor does not model.
    UnSupported,
}

/// An event as a terminal backend reports it.
#[derive(Clone, Copy, Debug, PartialEq, Eq, Structural)]
pub enum RawEvent {
    /// Modifier bits, special-key code (0 for none) and character code.
    KeyRaw(u8, u16, u32),
    /// New width and height of the terminal.
    Resize(i32, i32),
    /// Any other kind of event (mouse input and the like).
    Other,
    /// No event came before the poll timed out.
    NoEvent,
}

/// Whether `v` is a Unicode scalar value: at most `0x10FFFF` and not a
/// surrogate.
pub open spec fn is_scalar_value(v: u32) -> bool {
    v <= 0x10FFFF && !(0xD800 <= v <= 0xDFFF)
}

/// The key that a raw key event stands for: the character itself where
/// no special code is given, else the named key of the code.
pub open spec fn raw_key(code: u16, ch: u32) -> Option<Key> {
    if code == 0 {
        if is_scalar_value(ch) {
            Some(Key::Char(ch as char))
        } else {
            None
        }
    } else {
        special_key(code)
    }
}

/// The editor event that a poll yields; `None` stands for a poll that
/// failed or timed out.
pub open spec fn editor_event_of(raw: Option<RawEvent>) -> Option<EditorEvent> {
    match raw {
        None => None,
        Some(RawEvent::KeyRaw(_, code, ch)) => Some(EditorEvent::KeyEvent(raw_key(code, ch))),
        Some(RawEvent::Resize(w, h)) => Some(EditorEvent::Resize(w as usize, h as usize)),
        Some(RawEvent::Other) => Some(EditorEvent::UnSupported),
        Some(RawEvent::NoEvent) => None,
    }
}

/// Relies on std's `char::from_u32`: `Some` exactly for Unicode scalar
/// values, holding the character with that value.
#[verifier::external_body]
fn char_from_u32(v: u32) -> (r: Option<char>)
    ensures
        r is Some <==> is_scalar_value(v),
        r matches Some(c) ==> c == v as char && c as u32 == v,
{
    char::from_u32(v)
}

/// Resolves the key of a raw key event.
pub fn key_of_raw(code: u16, ch: u32) -> (r: Option<Key>)
    ensures
        r == raw_key(code, ch),
{
    if code == 0 {
        match char_from_u32(ch) {
            Some(c) => Some(Key::Char(c)),
            None => None,
        }
    } else {
        Key::from_special_code(code)
    }
}

/// Translates the outcome of one backend poll into an editor event.
pub fn translate_event(raw: Option<RawEvent>) -> (r: Option<EditorEvent>)
    ensures
        r == editor_event_of(raw),
{
    match raw {
        None => None,
        Some(RawEvent::KeyRaw(_, code, ch)) => Some(EditorEvent::KeyEvent(key_of_raw(code, ch))),
        Some(RawEvent::Resize(w, h)) => Some(EditorEvent::Resize(w as usize, h as usize)),
        Some(RawEvent::Other) => Some(EditorEvent::UnSupported),
        Some(RawEvent::NoEvent) => None,
    }
}

/// A poll that failed or timed out yields no event.
pub proof fn lemma_failed_poll_yields_nothing()
    ensures
        editor_event_of(None) is None,
        editor_event_of(Some(RawEvent::NoEvent)) is None,
{
}

} // verus!
