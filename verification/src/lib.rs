//! The state machine of a modal file chooser: listing and filtering a
//! directory, paging through it, highlighting and confirming entries, editing
//! a file name to save to, and handing the one outcome of a dialog to the
//! caller that waits for it.
//!
//! The library draws nothing and reads no directory. Whoever runs a dialog
//! feeds it what was read and what the user did, and draws what it describes.

pub mod channel;
pub mod color;
pub mod config;
pub mod dialog;
pub mod frame;
pub mod listing;
pub mod paginator;
pub mod paths;
pub mod runner;
pub mod select;
pub mod selection;
pub mod text;

pub use config::FileDialog;
pub use select::SelectType;
