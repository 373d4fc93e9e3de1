pub mod plugin_registrar;

pub use plugin_registrar::PluginRegistrar;
