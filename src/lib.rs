//! Core logic of a terminal browser for a repository's working-tree changes:
//! classifying status entries, building the file list, turning diff output
//! into styled lines, and the session state machine that drives the screen.

pub mod category;
pub mod diff;
pub mod file_list;
pub mod screen;
pub mod session;

pub use category::{Category, Color, StatusFlags};
pub use diff::{DiffLine, DiffSource, PatchLine, Role, show_file_diff};
pub use file_list::{ChangeEntry, FileList, ListItem, StatusEntry, collect_changes};
pub use screen::{Screen, compose};
pub use session::{Action, Focus, Key, Session};
