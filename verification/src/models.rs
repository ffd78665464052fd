//! The data the engine works on.

pub mod bookmarks;
