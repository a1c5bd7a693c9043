//! Building blocks shared by the editor: digit counting, decimal text, the
//! cycling list and the model of the terminal screen.

pub mod loop_traverser;
pub mod number_bit_count;
pub mod screen;
pub mod search;
pub mod text;

pub use loop_traverser::LoopTraverser;
pub use number_bit_count::number_bit_count;
pub use screen::Screen;
