//! Connection profiles for an SSH launcher: the table of profiles, the menu
//! that lists them, the reading of what the user types, and the session that
//! ties the three together.

pub mod connect;
pub mod keeping;
pub mod menu;
pub mod profile;
pub mod replay;
pub mod screen;
pub mod selection;
pub mod session;
pub mod store;
pub mod text;
