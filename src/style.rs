use vstd::prelude::*;

verus! {

/// The text attributes in which the editor draws text.
#[derive(Clone, Copy, Debug, PartialEq, Eq, Structural)]
pub enum CharStyle {
    Normal,
}

/// Text attributes as a cell-based terminal backend takes them.
#[derive(Clone, Copy, Debug, PartialEq, Eq, Structural)]
pub struct NativeStyle {
    pub bold: bool,
    pub underline: bool,
    pub reverse: bool,
}

/// The style with no attribute set.
pub open spec fn no_attributes() -> NativeStyle {
    NativeStyle { bold: false, underline: false, reverse: false }
}

/// The backend style that draws a symbolic style.
pub open spec fn style_of(s: CharStyle) -> NativeStyle {
    match s {
        CharStyle::Normal => no_attributes(),
    }
}

impl NativeStyle {
    /// The style with no attribute set.
    pub fn empty() -> (r: NativeStyle)
        ensures
            r == no_attributes(),
    {
        NativeStyle { bold: false, underline: false, reverse: false }
    }
}

/// Translates a symbolic style into the backend style that draws it.
pub fn get_style(s: CharStyle) -> (r: NativeStyle)
    ensures
        r == style_of(s),
        s == CharStyle::Normal ==> r == no_attributes(),
{
    match s {
        CharStyle::Normal => NativeStyle::empty(),
    }
}

} // verus!
