//! The editor proper: keys and directions, the scrollable field, and what
//! is built on it.

pub mod components;
pub mod cursor_pos;
pub mod dashboard;
pub mod direction;
pub mod document;
pub mod history;
pub mod init;
pub mod key;
pub mod line;
pub mod state;
pub mod text_area;

pub use direction::Direction;
pub use document::Editor;
pub use key::{KeyCode, KeyEvent, KeyModifiers};
pub use text_area::TextArea;
