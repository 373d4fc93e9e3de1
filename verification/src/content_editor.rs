pub mod command_executor;
pub mod display;
pub mod input_handler;
pub mod models;
