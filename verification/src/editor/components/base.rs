//! What the components share: the controller of a one-line prompt, the
//! controller of a full-screen text, and the history of a prompt.

pub mod controller;
pub mod history;

pub use controller::{LineComponentController, ScreenComponentController};
pub use history::ComponentHistory;
