//! A terminal text editor's core: the scrollable single-line field, the
//! numbered document line, the multi-line document with its viewport, the
//! modal prompts built on the field, and the status bar.
//!
//! Nothing here touches a terminal. The hardware cursor and the terminal's
//! size are carried in a [`utils::Screen`] value that every operation reads
//! and updates; a front end copies that value from and to the real terminal
//! and prints what the `render` functions return.

pub mod editor;
pub mod utils;
