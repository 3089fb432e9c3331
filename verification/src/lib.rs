//! The decisions behind a Finder-style window with a glass sidebar: which
//! view mode is active, when the context menu opens and closes, how rows,
//! folders and menu entries are styled, and what the window lists.

pub mod state;
pub mod style;
pub mod catalog;
pub mod layout;
