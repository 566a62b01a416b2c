//! A bounded undo/redo history of reversible operations, and a group of such
//! histories of which one is active at a time.

pub mod add;
pub mod command;
pub mod group;
pub mod signal;
pub mod timeline;

pub use add::Add;
pub use command::{Command, Entry};
pub use group::{Uid, UndoGroup};
pub use signal::{Signal, Slot};
pub use timeline::{Builder, Timeline, TimelineView};
