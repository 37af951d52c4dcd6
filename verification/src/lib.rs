//! A log that scrolls in the upper rows of a terminal, above one row in which
//! a line is typed.
//!
//! The crate holds the decisions of such a widget: which control sequences
//! are drawn for an appended line or a key press, how the line in progress
//! changes, and when it is complete. It reads no input and writes no output:
//! the host hands it the key presses it has read and the lines it wants
//! appended, and sends the text that comes back to the terminal.
//!
//! Lines are appended synchronously: `Scroller::write` returns the text to
//! draw at once, and the caller draws it before going on. There is no queue
//! of pending lines. A host with several threads keeps the widget and the
//! terminal behind one lock and holds it from the call to the end of the
//! draw, so that no two draws mix.
//!
//! For a key press the host asks `Scroller::echo` for the text, draws it,
//! and then makes the edit with `Scroller::press`. If the draw fails it
//! leaves the edit out, and the line in progress is as it was.
//!
//! The module `screen` models what a terminal shows, and the module `laws`
//! proves on that model that the bottom row always shows the line in
//! progress and that appended lines stay in order.

pub mod ansi;
pub mod buffer;
pub mod draw;
pub mod error;
pub mod key;
pub mod laws;
pub mod screen;
pub mod session;
pub mod widget;

pub use crate::buffer::InputBuffer;
pub use crate::error::ScrollerError;
pub use crate::key::Key;
pub use crate::session::TerminalSession;
pub use crate::widget::{Outcome, ReadStep, Scroller};
