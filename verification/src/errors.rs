//! The error values the plugin host reports.

use vstd::prelude::*;
use vstd::string::StringExecFns;

verus! {

/// The ways loading, unloading or invoking a plugin can fail.
///
/// The string carried by `LibraryLoad` and `SymbolError` is the message
/// reported by the dynamic loader; the host stores it verbatim.
#[derive(Debug)]
pub enum PluginError {
    /// The native library could not be opened or mapped.
    LibraryLoad(String),
    /// The required exported symbol was missing or unusable.
    SymbolError(String),
    /// The library reported an ABI version other than the host's.
    IncompatibleAPI,
    /// No plugin is registered under the requested name.
    NotFound,
}

impl PluginError {
    /// A readable description of the error.
    pub fn message(&self) -> (r: String)
        ensures
            r@ == match *self {
                PluginError::LibraryLoad(ref e) => "Library load error: "@ + e@,
                PluginError::SymbolError(ref e) => "Symbol error: "@ + e@,
                PluginError::IncompatibleAPI => "Incompatible API version"@,
                PluginError::NotFound => "Plugin not found"@,
            },
    {
        match self {
            PluginError::LibraryLoad(e) => String::from_str("Library load error: ").concat(e.as_str()),
            PluginError::SymbolError(e) => String::from_str("Symbol error: ").concat(e.as_str()),
            PluginError::IncompatibleAPI => String::from_str("Incompatible API version"),
            PluginError::NotFound => String::from_str("Plugin not found"),
        }
    }
}

} // verus!
