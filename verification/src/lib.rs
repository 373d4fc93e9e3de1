use vstd::prelude::*;

pub mod buffer;
pub mod buffer_provider;
pub mod buffer_store;
pub mod client_menu;
pub mod command_executor;
pub mod content_editor;
pub mod display;
pub mod input_handler;
pub mod klh_core;
pub mod models;
pub mod session;
pub mod startup;
pub mod std_types;
pub mod text_util;
pub mod ui;

verus! {
} // verus!
