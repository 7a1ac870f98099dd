//! The decisions of the load path.
//!
//! Loading walks a fixed ladder: open the library, resolve the
//! descriptor symbol, check the descriptor, create the instance,
//! initialize it, query its metadata, and only then commit to the
//! registry through [`crate::manager::PluginManager::load_plugin`].
//! The foreign steps live in the unverified shell; each function here
//! is the decision taken after one of them, and says exactly which
//! error is reported and which cleanup steps the shell owes. None of
//! them touches a [`crate::manager::PluginManager`], so every failure
//! leaves the registry exactly as it was.

use vstd::prelude::*;

use crate::abi::CURRENT_API_VERSION;
use crate::abi::PluginInterface;
use crate::errors::PluginError;
use crate::manager::TeardownStep;

verus! {

/// The decision taken on a descriptor whose layout already passed the
/// size check.
pub enum DescriptorVerdict {
    /// The descriptor is compatible: the host may now invoke this
    /// create capability, and no other, to instantiate the plugin.
    Proceed { create: u64 },
    /// The descriptor is incompatible: report the error and perform
    /// the cleanup. No create capability is handed out, so the library
    /// is never instantiated.
    Reject { error: PluginError, cleanup: Vec<TeardownStep> },
}

/// The library at the requested path could not be opened or mapped.
/// Nothing was loaded, so nothing is owed: the error carries the
/// loader's message and the registry stays as it was.
pub fn open_failed(message: String) -> (r: PluginError)
    ensures
        r == PluginError::LibraryLoad(message),
{
    PluginError::LibraryLoad(message)
}

/// The opened library lacks the well-known descriptor symbol, so it is
/// not a plugin. The library (and nothing else — no instance exists
/// yet) must be released, and the error carries the resolver's message.
pub fn symbol_missing(library: u64, message: String) -> (r: (PluginError, Vec<TeardownStep>))
    ensures
        r.0 == PluginError::SymbolError(message),
        r.1@ =~= seq![TeardownStep::ReleaseLibrary { library }],
{
    let mut cleanup: Vec<TeardownStep> = Vec::new();
    cleanup.push(TeardownStep::ReleaseLibrary { library });
    (PluginError::SymbolError(message), cleanup)
}

/// Decide whether a descriptor may be used: a plugin is usable only if
/// it reports exactly the host's ABI version.
/// On a mismatch the verdict rejects with `IncompatibleAPI`, hands out
/// no create capability, and owes only the release of the library — the
/// library is never called into again, so no instance ever exists.
pub fn evaluate_descriptor(library: u64, descriptor: &PluginInterface) -> (r: DescriptorVerdict)
    ensures
        match r {
            DescriptorVerdict::Proceed { create } => descriptor.api_version == CURRENT_API_VERSION
                && create == descriptor.create_plugin,
            DescriptorVerdict::Reject { error, cleanup } => descriptor.api_version
                != CURRENT_API_VERSION && error == PluginError::IncompatibleAPI && cleanup@
                =~= seq![TeardownStep::ReleaseLibrary { library }],
        },
{
    if descriptor.api_version == CURRENT_API_VERSION {
        DescriptorVerdict::Proceed { create: descriptor.create_plugin }
    } else {
        let mut cleanup: Vec<TeardownStep> = Vec::new();
        cleanup.push(TeardownStep::ReleaseLibrary { library });
        DescriptorVerdict::Reject { error: PluginError::IncompatibleAPI, cleanup }
    }
}

/// A created instance failed its `init` call. The failure must not leak
/// the live foreign object: before the error is surfaced, the instance
/// is destroyed through the same descriptor's destroy capability, and
/// the library is released only after that destruction.
pub fn init_failed(
    library: u64,
    descriptor: &PluginInterface,
    instance: u64,
    message: String,
) -> (r: (PluginError, Vec<TeardownStep>))
    ensures
        r.0 == PluginError::SymbolError(message),
        r.1@ =~= seq![
            TeardownStep::DestroyInstance { destroy: descriptor.destroy_plugin, instance },
            TeardownStep::ReleaseLibrary { library },
        ],
{
    let mut cleanup: Vec<TeardownStep> = Vec::new();
    cleanup.push(TeardownStep::DestroyInstance { destroy: descriptor.destroy_plugin, instance });
    cleanup.push(TeardownStep::ReleaseLibrary { library });
    (PluginError::SymbolError(message), cleanup)
}

} // verus!
