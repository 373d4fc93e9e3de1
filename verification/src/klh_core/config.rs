use vstd::prelude::*;

verus! {

/// The core plugins with which to start Klh.
#[derive(Clone, Copy, Debug, Eq, PartialEq, Structural)]
pub enum CorePlugins {
    Buffers,
    Diagnostics,
    Displays,
}

/// What is needed to start an instance of Klh.
pub struct KlhConfig {
    pub core_plugins: Vec<CorePlugins>,
}

impl Default for KlhConfig {
    /// All core plugins: buffers, diagnostics and displays.
    fn default() -> (c: Self)
        ensures
            c.core_plugins@ == seq![
                CorePlugins::Buffers,
                CorePlugins::Diagnostics,
                CorePlugins::Displays,
            ],
    {
        let mut core_plugins: Vec<CorePlugins> = Vec::new();
        core_plugins.push(CorePlugins::Buffers);
        core_plugins.push(CorePlugins::Diagnostics);
        core_plugins.push(CorePlugins::Displays);
        Self { core_plugins }
    }
}

impl KlhConfig {
    /// A configuration with the given core plugins.
    pub fn with_core_plugins(core_plugins: Vec<CorePlugins>) -> (c: Self)
        ensures
            c.core_plugins@ == core_plugins@,
    {
        Self { core_plugins }
    }
}

} // verus!
