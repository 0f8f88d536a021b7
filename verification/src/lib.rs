//! The state machine, input handling and text logic of a terminal imageboard
//! reader.
use vstd::prelude::*;

pub mod action;
pub mod api;
pub mod app;
pub mod client;
pub mod component;
pub mod config;
pub mod format;
pub mod input;
pub mod keybinds;
pub mod model;
pub mod panes;
pub mod text;

verus! {

} // verus!
