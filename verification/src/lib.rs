//! The decisions of a switcher for sway configurations and wallpapers.
//!
//! Saved configuration files and wallpapers live in two managed directories
//! below the user's home directory; one of each kind is active at a time. This
//! library decides what an invocation does: which operation the command line
//! asks for, which lines a listing shows, which entry a number selects, and
//! which file actions follow in which order. The file actions themselves are
//! performed by the caller, who reports back what happened.

pub mod command;
pub mod layout;
pub mod lister;
pub mod listing;
pub mod machine;
pub mod model;
pub mod protocol;
pub mod selector;
pub mod setup;
pub mod text;
