//! Tab management for a small text editor: an ordered list of open buffers,
//! the buffer currently shown, and the transitions that editor commands make.

pub mod gui;
pub mod laws;
pub mod model;

pub use gui::{Action, FileTab, Message, State, TabError};
