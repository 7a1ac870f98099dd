//! The binary contract a native library must satisfy to be a plugin.
//!
//! A plugin library exports one well-known symbol returning a descriptor
//! with library-wide lifetime. The descriptor carries the functions that
//! create and destroy plugin instances and the ABI version the library
//! was built against. Before any field of a foreign descriptor is
//! trusted, its reported in-memory size must equal the host's compiled
//! expectation, and its version must equal [`CURRENT_API_VERSION`]
//! exactly; there is no backward-compatibility window.

use vstd::prelude::*;

verus! {

/// The ABI version this host is compiled against. A plugin is usable
/// only if the version its descriptor reports equals this exactly.
pub const CURRENT_API_VERSION: u32 = 1;

/// The single well-known symbol every plugin library must export. It
/// returns a reference, with library-wide lifetime, to the library's
/// descriptor.
pub const PLUGIN_ENTRY_SYMBOL: &'static str = "get_plugin_interface";

/// A plugin library's descriptor, as the host's bookkeeping sees it.
///
/// The create and destroy functions live inside the foreign library and
/// can only be invoked by the unverified shell; here each is a handle
/// naming that capability. An entry retired from the registry must be
/// destroyed through the `destroy_plugin` handle recorded at load time,
/// never through a freshly re-resolved symbol.
#[derive(Clone, Copy, Debug, PartialEq, Eq, Structural)]
pub struct PluginInterface {
    /// Handle of the library's instance constructor.
    pub create_plugin: u64,
    /// Handle of the library's instance destructor.
    pub destroy_plugin: u64,
    /// The ABI version the library reports.
    pub api_version: u32,
}

/// The defensive layout check: a descriptor obtained from foreign code
/// may be read only if the size it reports matches the host's compiled
/// expectation. On a mismatch the host fails closed before
/// dereferencing anything, as decoding through an incompatible layout
/// would be undefined behavior.
pub fn descriptor_size_ok(reported: usize, expected: usize) -> (r: bool)
    ensures
        r == (reported == expected),
{
    reported == expected
}

} // verus!
