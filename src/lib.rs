//! A store of named directory bookmarks ("portals"): tags mapped to
//! canonical absolute paths, with the decisions of the command line tool
//! that reads and updates it.

pub mod portal_map;
pub mod portal;
pub mod args;
pub mod shell;

pub use args::{Action, Commands, PortalArgs};
pub use portal::{Config, Error};
pub use portal_map::PortalMap;
