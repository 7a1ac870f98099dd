//! The metadata a plugin instance reports about itself.

use vstd::prelude::*;

verus! {

/// An immutable snapshot of what a plugin reports about itself.
///
/// The `name` doubles as the registry key; `version` and `description`
/// are for introspection only. Nothing beyond the registry's
/// replace-on-collision behavior enforces uniqueness of names.
#[derive(Debug)]
pub struct PluginMetadata {
    pub name: String,
    pub version: String,
    pub description: String,
}

impl Clone for PluginMetadata {
    fn clone(&self) -> (r: Self)
        ensures
            r == *self,
    {
        PluginMetadata {
            name: self.name.clone(),
            version: self.version.clone(),
            description: self.description.clone(),
        }
    }
}

} // verus!
