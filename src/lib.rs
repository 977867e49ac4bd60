//! Terminal front end for the iota editor: translation of raw terminal
//! events into editor events, and of symbolic colors and styles into the
//! values that a cell-based terminal backend draws with.

pub mod color;
pub mod event;
pub mod frontend;
pub mod key;
pub mod style;

pub use color::{get_color, CharColor, NativeColor};
pub use event::{key_of_raw, translate_event, EditorEvent, RawEvent, POLL_TIMEOUT_MS};
pub use frontend::{cell_of, Cell, DrawOp, Frontend, HeadlessFrontend};
pub use key::Key;
pub use style::{get_style, CharStyle, NativeStyle};
