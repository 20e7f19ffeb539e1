//! Core of an interactive sketch editor: a generational slot table that hands
//! out stable handles to long-lived domain objects, and a command registry
//! whose commands gather their typed arguments over several input steps
//! before they run.

pub mod command_state;
pub mod commands;
pub mod common;
pub mod components;
pub mod input_collection;
pub mod keys;
pub mod resources;
pub mod root_state;
