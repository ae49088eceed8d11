//! Workspace and environment switcher: the selection model, the cycling rules,
//! the listing of workspace directories and the planning of link updates.
pub mod command;
pub mod error;
pub mod layout;
pub mod links;
pub mod listing;
pub mod persist;
pub mod selection;
pub mod text;
