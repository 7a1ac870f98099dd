//! A host for dynamically loaded plugins.
//!
//! The crate verifies the bookkeeping side of a plugin host: a registry
//! that maps plugin names to live instances and their owning library
//! handles, the version check a library must pass before it may be
//! instantiated, and the teardown discipline that destroys every
//! instance through its own library before that library is released.
//!
//! Opening native libraries and calling through their function pointers
//! is inherently `unsafe` and stays outside the verified core; the code
//! here decides, for every outcome of those calls, what the registry
//! becomes and which cleanup actions are owed.

pub mod abi;
pub mod config;
pub mod errors;
pub mod instance;
pub mod loading;
pub mod manager;
pub mod metadata;
pub mod test_plugin;

pub use abi::CURRENT_API_VERSION;
pub use abi::PluginInterface;
pub use config::ConfigValue;
pub use errors::PluginError;
pub use instance::PluginInstance;
pub use loading::DescriptorVerdict;
pub use manager::PluginCall;
pub use manager::PluginEntry;
pub use manager::PluginManager;
pub use manager::TeardownStep;
pub use metadata::PluginMetadata;
pub use test_plugin::TestPlugin;
