//! Core of a desktop note-taking shell: the visibility rules of the main
//! window and its tray menu, the markdown documents that notes are exported
//! to, and the copy plans behind database backup and restore.

pub mod error;
pub mod markdown;
pub mod stamp;
pub mod text;
pub mod transfer;
pub mod window;
