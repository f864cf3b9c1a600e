//! Input-handling core for a chat composer in a terminal application.
//!
//! The composer turns raw terminal key events into edits of a multi-line
//! text buffer, navigation of a slash-command popup, navigation of the
//! submission history, or a finalized submission, and keeps the popup's
//! presence synchronized with the buffer content after every key event.

pub mod composer;
pub mod history;
pub mod key;
pub mod laws;
pub mod popup;
pub mod render;
pub mod text;
pub mod textbuf;

pub use composer::ChatComposer;
pub use composer::ComposerView;
pub use composer::HistoryFetch;
pub use composer::InputResult;
pub use composer::Rect;
pub use key::Key;
pub use key::KeyEvent;
