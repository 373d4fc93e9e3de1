pub mod config;
pub mod event;
pub mod klh;
pub mod messaging;
pub mod plugin;
pub mod plugins;
pub mod session;
