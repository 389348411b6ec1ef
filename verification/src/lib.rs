//! Verified core of a terminal client for Lyrion Music Server.
use vstd::prelude::*;

pub mod text;
pub mod api;
pub mod table;
pub mod discovery;
pub mod app;
pub mod utils;
pub mod events;
pub mod effects;
pub mod handlers;
pub mod navigation;
pub mod volume;
pub mod select;
pub mod queue_ops;
pub mod back;
pub mod actions;
pub mod editing;
pub mod sync;
pub mod config;
pub mod config_dialog;
pub mod messages;
pub mod laws;
pub mod display;
pub mod geometry;
pub mod filter;
pub mod cli;
pub mod background;
pub mod mouse;
pub mod panes;
pub mod keys;
pub mod session;
pub mod search;
pub mod groups;
pub mod thumbs;

verus! {
} // verus!
