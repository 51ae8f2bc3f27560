//! A terminal directory browser: navigation state, grid layout and the text
//! that the views show.
pub mod app;
pub mod directory_view;
pub mod file_view;
pub mod grid;
pub mod laws;
pub mod listing;

pub use app::{Action, App, Command};
pub use directory_view::{get_formatted_paths, DirectoryView, DisplayLine};
pub use file_view::{get_formatted_file_contents, FileRead, FileView};
pub use listing::{Entry, EntryKind};
