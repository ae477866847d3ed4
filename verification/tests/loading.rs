//! Loader behaviour: the module lifecycle and metadata decoding.

use omni_event_registry::feature::PluginError;
use omni_event_registry::json::JsonValue;
use omni_event_registry::loader::HandleGuard;
use omni_event_registry::loader::LoadAction;
use omni_event_registry::loader::LoadEvent;
use omni_event_registry::loader::LoadPhase;
use omni_event_registry::loader::ModuleLoader;
use omni_event_registry::loader::decode_metadata;
use omni_event_registry::loader::parse_metadata;
use omni_event_registry::registry::EventRegistry;
use omni_event_registry::registry::ScriptedHandler;

const METADATA: &str = "{\"name\":\"omni_vbox_provider\",\"version\":\"1.0.0\",\"supports_features\":[\"vm-management\",\"vm-control\"]}";

#[test]
fn loader_walks_the_happy_path() {
    let mut loader = ModuleLoader::new("plugins/provider.so");
    assert_eq!(loader.phase(), LoadPhase::Start);
    assert_eq!(loader.step(LoadEvent::Begin), LoadAction::OpenLibrary);
    assert_eq!(loader.step(LoadEvent::OpenOk), LoadAction::LookupSymbols);
    assert_eq!(loader.step(LoadEvent::SymbolsOk), LoadAction::ReadMetadata);
    assert_eq!(
        loader.step(LoadEvent::Metadata(METADATA.to_string())),
        LoadAction::CallConstructor
    );
    let meta = loader.metadata().expect("metadata should be recorded");
    assert_eq!(meta.name, "omni_vbox_provider");
    assert_eq!(meta.version, "1.0.0");
    assert_eq!(meta.supports_features, vec!["vm-management", "vm-control"]);
    assert_eq!(loader.step(LoadEvent::ConstructedOk), LoadAction::CallInitialize);
    assert_eq!(loader.step(LoadEvent::InitOk), LoadAction::Idle);
    assert_eq!(loader.phase(), LoadPhase::Active);
    assert!(loader.failure().is_none());
    assert_eq!(loader.step(LoadEvent::Shutdown), LoadAction::CallDestroy);
    assert_eq!(loader.step(LoadEvent::Destroyed), LoadAction::UnloadLibrary);
    assert_eq!(loader.step(LoadEvent::Unloaded), LoadAction::Idle);
    assert_eq!(loader.phase(), LoadPhase::Closed);
}

#[test]
fn missing_symbol_aborts_the_load_and_leaves_the_registry_unchanged() {
    let registry: EventRegistry<ScriptedHandler> = EventRegistry::new();
    let mut loader = ModuleLoader::new("plugins/provider.so");
    assert_eq!(loader.step(LoadEvent::Begin), LoadAction::OpenLibrary);
    assert_eq!(loader.step(LoadEvent::OpenOk), LoadAction::LookupSymbols);
    let action = loader.step(LoadEvent::SymbolMissing("initialize_provider".to_string()));
    assert_eq!(action, LoadAction::UnloadLibrary);
    assert_eq!(loader.step(LoadEvent::Unloaded), LoadAction::Idle);
    assert_eq!(loader.phase(), LoadPhase::Failed);
    match loader.failure() {
        Some(PluginError::PluginNotFound(m)) => {
            assert_eq!(m, "required symbol 'initialize_provider' not found");
        }
        _ => panic!("expected a missing-symbol failure"),
    }
    assert!(registry.list_handlers().is_empty());
}

#[test]
fn open_failure_is_terminal() {
    let mut loader = ModuleLoader::new("plugins/provider.so");
    loader.step(LoadEvent::Begin);
    assert_eq!(
        loader.step(LoadEvent::OpenFailed("no such file".to_string())),
        LoadAction::Idle
    );
    assert_eq!(loader.phase(), LoadPhase::Failed);
    match loader.failure() {
        Some(PluginError::PluginNotFound(m)) => assert_eq!(m, "no such file"),
        _ => panic!("expected a load failure"),
    }
}

#[test]
fn null_constructor_aborts_before_initialization() {
    let mut loader = ModuleLoader::new("plugins/provider.so");
    loader.step(LoadEvent::Begin);
    loader.step(LoadEvent::OpenOk);
    loader.step(LoadEvent::SymbolsOk);
    loader.step(LoadEvent::Metadata(METADATA.to_string()));
    assert_eq!(loader.step(LoadEvent::ConstructedNull), LoadAction::UnloadLibrary);
    match loader.failure() {
        Some(PluginError::PluginNotFound(m)) => {
            assert_eq!(m, "plugin constructor returned null");
        }
        _ => panic!("expected a constructor failure"),
    }
}

#[test]
fn failed_initialization_leaves_the_module_loaded_but_broken() {
    let mut loader = ModuleLoader::new("plugins/provider.so");
    loader.step(LoadEvent::Begin);
    loader.step(LoadEvent::OpenOk);
    loader.step(LoadEvent::SymbolsOk);
    loader.step(LoadEvent::Metadata(METADATA.to_string()));
    loader.step(LoadEvent::ConstructedOk);
    assert_eq!(loader.step(LoadEvent::InitFailed), LoadAction::Idle);
    assert_eq!(loader.phase(), LoadPhase::Broken);
    match loader.failure() {
        Some(PluginError::InitializationFailed(m)) => {
            assert_eq!(m, "plugin registration entry point reported failure");
        }
        _ => panic!("expected an initialization failure"),
    }
    assert_eq!(loader.step(LoadEvent::Shutdown), LoadAction::CallDestroy);
}

#[test]
fn bad_metadata_aborts_the_load() {
    let mut loader = ModuleLoader::new("plugins/provider.so");
    loader.step(LoadEvent::Begin);
    loader.step(LoadEvent::OpenOk);
    loader.step(LoadEvent::SymbolsOk);
    let action = loader.step(LoadEvent::Metadata("not json at all".to_string()));
    assert_eq!(action, LoadAction::UnloadLibrary);
    match loader.failure() {
        Some(PluginError::InitializationFailed(m)) => {
            assert_eq!(m, "plugin metadata is not valid JSON");
        }
        _ => panic!("expected a metadata failure"),
    }
}

#[test]
fn out_of_turn_events_are_ignored() {
    let mut loader = ModuleLoader::new("plugins/provider.so");
    assert_eq!(loader.step(LoadEvent::InitOk), LoadAction::Idle);
    assert_eq!(loader.phase(), LoadPhase::Start);
    assert_eq!(loader.step(LoadEvent::Shutdown), LoadAction::Idle);
    assert_eq!(loader.phase(), LoadPhase::Start);
}

#[test]
fn decode_metadata_reads_a_json_document() {
    let meta = decode_metadata(METADATA).unwrap();
    assert_eq!(meta.name, "omni_vbox_provider");
    assert_eq!(meta.version, "1.0.0");
    assert_eq!(meta.supports_features, vec!["vm-management", "vm-control"]);
}

#[test]
fn decode_metadata_rejects_a_wrong_shape() {
    match decode_metadata("{\"name\":\"p\",\"version\":\"1\"}") {
        Err(PluginError::InitializationFailed(m)) => {
            assert!(m.contains("supports_features"));
        }
        _ => panic!("expected a shape failure"),
    }
    match decode_metadata("{\"name\":7,\"version\":\"1\",\"supports_features\":[]}") {
        Err(PluginError::InitializationFailed(_)) => {}
        _ => panic!("expected a shape failure"),
    }
}

#[test]
fn parse_metadata_rejects_a_non_string_feature() {
    let doc = omni_event_registry::json::parse_json(
        "{\"name\":\"p\",\"version\":\"1\",\"supports_features\":[\"a\",3]}",
    )
    .unwrap();
    assert!(matches!(
        parse_metadata(&doc),
        Err(PluginError::InitializationFailed(_))
    ));
}

#[test]
fn handle_guard_is_destroyed_exactly_once() {
    let guard = HandleGuard::new(42u64);
    assert!(guard.alive());
    assert_eq!(*guard.get(), 42);
    let raw = guard.retire();
    assert_eq!(raw, 42);
}

#[test]
fn plugin_error_messages_carry_their_prefix() {
    assert_eq!(
        PluginError::InitializationFailed("x".to_string()).message(),
        "Initialization failed: x"
    );
    assert_eq!(
        PluginError::PluginNotFound("y".to_string()).message(),
        "Plugin not found: y"
    );
    assert_eq!(
        PluginError::ExecutionFailed("z".to_string()).message(),
        "Execution failed: z"
    );
    assert_eq!(PluginError::IoError("w".to_string()).message(), "IO error: w");
}

#[test]
fn loader_keeps_its_path() {
    let loader = ModuleLoader::new("plugins/provider.so");
    assert_eq!(loader.path(), "plugins/provider.so");
}

#[test]
fn parse_json_reads_values_and_rejects_garbage() {
    let v = omni_event_registry::json::parse_json("{\"a\":1,\"b\":[true,null,\"s\"]}").unwrap();
    let a = v.get("a").unwrap();
    assert_eq!(a.as_int(), Some(1));
    let b = v.get("b").unwrap();
    match b {
        JsonValue::Arr(items) => {
            assert_eq!(items.len(), 3);
            assert_eq!(items[0].as_bool(), Some(true));
            assert!(matches!(items[1], JsonValue::Null));
            assert_eq!(items[2].as_str().map(|s| s.as_str()), Some("s"));
        }
        _ => panic!("expected an array"),
    }
    assert!(omni_event_registry::json::parse_json("{oops").is_none());
}
