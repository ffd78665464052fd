//! A bookmark manager's selection engine: a collection of bookmarks, a live
//! fuzzy-filtered and ranked view over it, a selection cursor that stays
//! inside that view, and the input routing that drives them.
//!
//! The library decides and the driver acts: every handler that needs the
//! store, the network, the clipboard or a browser returns an [`input::Action`]
//! naming the work, and the driver reports the outcome back through one of the
//! completion methods of [`app::App`].

pub mod adapters;
pub mod app;
pub mod config;
pub mod input;
pub mod models;
pub mod ranking;
pub mod selection;
pub mod strings;
pub mod ui;
