//! The host exercised end to end, with the test playing the role of
//! the unverified shell: it fabricates library and instance handles,
//! drives the load ladder, and performs the teardown steps the host
//! hands back.

use plugin_host::loading::evaluate_descriptor;
use plugin_host::loading::open_failed;
use plugin_host::ConfigValue;
use plugin_host::DescriptorVerdict;
use plugin_host::PluginEntry;
use plugin_host::PluginError;
use plugin_host::PluginInstance;
use plugin_host::PluginInterface;
use plugin_host::PluginManager;
use plugin_host::TeardownStep;
use plugin_host::TestPlugin;
use plugin_host::CURRENT_API_VERSION;

fn descriptor_for(library: u64) -> PluginInterface {
    PluginInterface {
        create_plugin: library * 10 + 1,
        destroy_plugin: library * 10 + 2,
        api_version: CURRENT_API_VERSION,
    }
}

fn load_test_plugin(
    manager: &mut PluginManager,
    library: u64,
    instance: u64,
) -> Result<(), PluginError> {
    let descriptor = descriptor_for(library);
    match evaluate_descriptor(library, &descriptor) {
        DescriptorVerdict::Proceed { create } => {
            assert_eq!(create, descriptor.create_plugin);
            let mut plugin = TestPlugin;
            plugin
                .init(&ConfigValue::Null)
                .map_err(PluginError::SymbolError)?;
            let metadata = plugin.metadata();
            manager.load_plugin(PluginEntry {
                metadata,
                instance,
                library,
                destroy: descriptor.destroy_plugin,
            });
            Ok(())
        }
        DescriptorVerdict::Reject { error, cleanup: _ } => Err(error),
    }
}

#[test]
fn test_load_valid_plugin() {
    let mut manager = PluginManager::new();

    let result = load_test_plugin(&mut manager, 1, 11);
    assert!(result.is_ok(), "Load failed: {:?}", result.err());

    let metadata = manager.get_metadata("test_plugin").unwrap();
    assert_eq!(metadata.version, "1.0");
}

#[test]
fn test_load_nonexistent_library() {
    let manager = PluginManager::new();

    let error = open_failed(String::from("non_existent_plugin.so"));
    let result: Result<(), PluginError> = Err(error);
    assert!(
        matches!(result, Err(PluginError::LibraryLoad(_))),
        "Expected library load error"
    );
    assert_eq!(manager.plugin_count(), 0);
}

#[test]
fn test_execute_plugin() {
    let mut manager = PluginManager::new();
    load_test_plugin(&mut manager, 1, 11).unwrap();

    let result = manager.execute_plugin("test_plugin", "test_input");
    assert!(result.is_ok());
    let call = result.unwrap();
    assert_eq!(call.instance, 11);
    let plugin = TestPlugin;
    assert_eq!(plugin.execute(&call.input), "Processed: test_input");
}

#[test]
fn test_execute_nonexistent_plugin() {
    let manager = PluginManager::new();

    let result = manager.execute_plugin("nonexistent_plugin", "input");
    assert!(result.is_err(), "Should return error for nonexistent plugin");
}

#[test]
fn test_unload_plugin() {
    let mut manager = PluginManager::new();
    load_test_plugin(&mut manager, 1, 11).unwrap();

    let result = manager.unload_plugin("test_plugin");
    assert!(result.is_ok(), "Unload failed");
    assert!(
        manager.get_metadata("test_plugin").is_none(),
        "Plugin metadata still present after unload"
    );
}

#[test]
fn test_drop_cleanup() {
    let mut manager = PluginManager::new();
    load_test_plugin(&mut manager, 1, 11).unwrap();

    let steps = manager.teardown();
    assert_eq!(
        steps,
        vec![
            TeardownStep::DestroyInstance {
                destroy: 12,
                instance: 11
            },
            TeardownStep::ReleaseLibrary { library: 1 },
        ]
    );
    assert_eq!(manager.plugin_count(), 0);
}

#[test]
fn test_metadata_retrieval() {
    let mut manager = PluginManager::new();
    load_test_plugin(&mut manager, 1, 11).unwrap();

    let metadata = manager.get_metadata("test_plugin").unwrap();
    assert_eq!(metadata.description, "Test Plugin");
}

#[test]
fn test_reload_same_plugin() {
    let mut manager = PluginManager::new();

    load_test_plugin(&mut manager, 1, 11).unwrap();
    let first_load_count = manager.plugin_count();

    load_test_plugin(&mut manager, 2, 21).unwrap();
    assert_eq!(
        manager.plugin_count(),
        first_load_count,
        "Reloading same plugin should replace existing entry"
    );
}
