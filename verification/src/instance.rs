//! The capability set a live plugin instance exposes to the host.

use vstd::prelude::*;

use crate::config::ConfigValue;
use crate::metadata::PluginMetadata;

verus! {

/// What the host may ask of a plugin instance.
///
/// What `execute` computes is the plugin's own business: the host
/// invokes the capability and returns its output verbatim, so no
/// contract constrains these methods here. A concrete plugin may
/// promise more on its own implementation.
pub trait PluginInstance {
    /// Initialize the instance with an opaque configuration value. An
    /// error here obliges the host to destroy the instance before the
    /// failure is surfaced.
    fn init(&mut self, config: &ConfigValue) -> Result<(), String>;

    /// Run the plugin on a textual input, producing its textual output.
    fn execute(&self, input: &str) -> String;

    /// The instance's self-reported metadata; its name becomes the
    /// registry key.
    fn metadata(&self) -> PluginMetadata;
}

} // verus!
