//! A reference plugin used to exercise the host.
//!
//! It echoes its input behind a fixed prefix and reports fixed
//! metadata, so every routing and bookkeeping property of the host can
//! be checked against exact expected values.

use vstd::prelude::*;
use vstd::string::StringExecFns;

use crate::config::ConfigValue;
use crate::instance::PluginInstance;
use crate::metadata::PluginMetadata;

verus! {

/// The reference plugin: stateless, always initializes, and transforms
/// input `x` into `Processed: x`.
pub struct TestPlugin;

impl PluginInstance for TestPlugin {
    /// Accepts any configuration and always succeeds.
    fn init(&mut self, config: &ConfigValue) -> (r: Result<(), String>)
        ensures
            r is Ok,
    {
        Ok(())
    }

    /// The plugin-defined transform: the input behind the fixed prefix.
    fn execute(&self, input: &str) -> (r: String)
        ensures
            r@ == "Processed: "@ + input@,
    {
        String::from_str("Processed: ").concat(input)
    }

    /// Fixed metadata; the host registers this plugin as `test_plugin`.
    fn metadata(&self) -> (r: PluginMetadata)
        ensures
            r.name@ == "test_plugin"@,
            r.version@ == "1.0"@,
            r.description@ == "Test Plugin"@,
    {
        PluginMetadata {
            name: String::from_str("test_plugin"),
            version: String::from_str("1.0"),
            description: String::from_str("Test Plugin"),
        }
    }
}

} // verus!
