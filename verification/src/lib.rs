//! The playback core of a small desktop media player.
use vstd::prelude::*;

pub mod backend;
pub mod command;
pub mod config;
pub mod controls;
pub mod controller;
pub mod event;
pub mod history;
pub mod keys;
pub mod models;
pub mod mpv;
pub mod path;
pub mod playlist;
pub mod state;
pub mod session;
pub mod shortcuts;
pub mod text;
pub mod view;
pub mod xdg;

verus! {

} // verus!
