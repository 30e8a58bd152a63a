//! The logic of a terminal client for Discourse forums: its configuration,
//! its screens and what each key does on them.
use vstd::prelude::*;

pub mod api;
pub mod app;
pub mod app_simple;
pub mod color;
pub mod config;
pub mod handlers;
pub mod images;
pub mod list_state;
pub mod screens;
pub mod text;
pub mod ui;

verus! {
} // verus!
