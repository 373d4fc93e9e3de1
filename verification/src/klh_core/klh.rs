use vstd::prelude::*;

use crate::klh_core::config::{CorePlugins, KlhConfig};
use crate::klh_core::session::SessionError;

verus! {

/// Errors of a running Klh.
#[derive(Debug, Eq, PartialEq, Structural)]
pub enum KlhError {
    /// A message could not be sent to the running Klh.
    ErrorSendingMessage(SessionError),
}

/// The core plugins that starting Klh with `config` registers, in order:
/// every core plugin the configuration names.
pub fn core_plugins_to_register(config: &KlhConfig) -> (r: Vec<CorePlugins>)
    ensures
        r@ == config.core_plugins@,
{
    let mut r: Vec<CorePlugins> = Vec::new();
    let mut i: usize = 0;
    while i < config.core_plugins.len()
        invariant
            i <= config.core_plugins@.len(),
            r@ == config.core_plugins@.take(i as int),
        decreases config.core_plugins@.len() - i,
    {
        r.push(config.core_plugins[i]);
        assert(config.core_plugins@.take(i + 1) =~= config.core_plugins@.take(i as int).push(
            config.core_plugins@[i as int],
        ));
        i = i + 1;
    }
    assert(config.core_plugins@.take(i as int) =~= config.core_plugins@);
    r
}

} // verus!
