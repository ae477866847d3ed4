//! Registry behaviour: keys, registration, dispatch, validation.

use omni_event_registry::json::JsonMember;
use omni_event_registry::json::JsonValue;
use omni_event_registry::keys::EventError;
use omni_event_registry::keys::EventKey;
use omni_event_registry::registry::EventRegistry;
use omni_event_registry::registry::ScriptedHandler;

fn invoke(h: &ScriptedHandler, p: &JsonValue) -> Result<JsonValue, String> {
    h.run(p)
}

fn empty_object() -> JsonValue {
    JsonValue::Obj(vec![])
}

#[test]
fn canonical_key_joins_components() {
    let key = EventKey::new("demo", "Mgmt", "list").unwrap();
    assert_eq!(key.to_string(), "demo::Mgmt::list");
}

#[test]
fn canonical_keys_of_distinct_triples_differ() {
    let a = EventKey::new("ab", "c", "d").unwrap();
    let b = EventKey::new("a", "bc", "d").unwrap();
    assert_ne!(a.to_string(), b.to_string());
    let c = EventKey::new("a", "b", "cd").unwrap();
    let d = EventKey::new("a", "bc", "d").unwrap();
    assert_ne!(c.to_string(), d.to_string());
}

#[test]
fn key_with_empty_component_is_rejected() {
    assert!(matches!(
        EventKey::new("", "f", "m"),
        Err(EventError::InvalidPayload(_))
    ));
    assert!(matches!(
        EventKey::new("p", "", "m"),
        Err(EventError::InvalidPayload(_))
    ));
    assert!(matches!(
        EventKey::new("p", "f", ""),
        Err(EventError::InvalidPayload(_))
    ));
}

#[test]
fn key_with_colon_is_rejected() {
    assert!(matches!(
        EventKey::new("p:q", "f", "m"),
        Err(EventError::InvalidPayload(_))
    ));
    assert!(matches!(
        EventKey::new("p", "f:g", "m"),
        Err(EventError::InvalidPayload(_))
    ));
}

#[test]
fn dispatch_returns_what_the_handler_returns() {
    let mut registry: EventRegistry<ScriptedHandler> = EventRegistry::new();
    let key = EventKey::new("demo", "Mgmt", "list").unwrap();
    let answer = JsonValue::Obj(vec![JsonMember::new(
        "vms".to_string(),
        JsonValue::Arr(vec![]),
    )]);
    registry.register_handler(&key, ScriptedHandler::Succeed(answer.duplicate()));
    let got = registry.dispatch_event(&key, &empty_object(), invoke).unwrap();
    assert!(got.deep_eq(&answer));
}

#[test]
fn dispatch_passes_failure_message_through() {
    let mut registry: EventRegistry<ScriptedHandler> = EventRegistry::new();
    let key = EventKey::new("demo", "Mgmt", "boom").unwrap();
    registry.register_handler(&key, ScriptedHandler::Fail("backend offline".to_string()));
    match registry.dispatch_event(&key, &empty_object(), invoke) {
        Err(EventError::ExecutionFailed(m)) => assert_eq!(m, "backend offline"),
        other => panic!("expected ExecutionFailed, got {:?}", other.is_ok()),
    }
}

#[test]
fn dispatch_without_registration_reports_handler_not_found() {
    let registry: EventRegistry<ScriptedHandler> = EventRegistry::new();
    let key = EventKey::new("demo", "Mgmt", "missing").unwrap();
    match registry.dispatch_event(&key, &empty_object(), invoke) {
        Err(EventError::HandlerNotFound(s)) => assert_eq!(s, "demo::Mgmt::missing"),
        other => panic!("expected HandlerNotFound, got {:?}", other.is_ok()),
    }
}

#[test]
fn reregistration_replaces_the_handler() {
    let mut registry: EventRegistry<ScriptedHandler> = EventRegistry::new();
    let key = EventKey::new("demo", "Mgmt", "list").unwrap();
    registry.register_handler(&key, ScriptedHandler::Succeed(JsonValue::Int(1)));
    registry.register_handler(&key, ScriptedHandler::Succeed(JsonValue::Int(2)));
    let got = registry.dispatch_event(&key, &empty_object(), invoke).unwrap();
    assert!(got.deep_eq(&JsonValue::Int(2)));
}

#[test]
fn echo_handler_hands_the_payload_back() {
    let mut registry: EventRegistry<ScriptedHandler> = EventRegistry::new();
    let key = EventKey::new("demo", "Mgmt", "echo").unwrap();
    registry.register_handler(&key, ScriptedHandler::Echo);
    let payload = JsonValue::Obj(vec![JsonMember::new(
        "x".to_string(),
        JsonValue::Int(7),
    )]);
    let got = registry.dispatch_event(&key, &payload, invoke).unwrap();
    assert!(got.deep_eq(&payload));
}

#[test]
fn validation_fails_for_unbacked_feature_and_names_it() {
    let mut registry: EventRegistry<ScriptedHandler> = EventRegistry::new();
    let key = EventKey::new("P", "f1", "m").unwrap();
    registry.register_handler(&key, ScriptedHandler::Echo);
    let declared = vec!["f1".to_string(), "f2".to_string()];
    match registry.validate_provider("P", &declared) {
        Err(EventError::ExecutionFailed(m)) => {
            assert_eq!(
                m,
                "Provider 'P' declared feature 'f2' but no handlers registered"
            );
        }
        _ => panic!("expected a validation failure"),
    }
}

#[test]
fn validation_succeeds_once_every_feature_is_backed() {
    let mut registry: EventRegistry<ScriptedHandler> = EventRegistry::new();
    registry.register_handler(&EventKey::new("P", "f1", "m").unwrap(), ScriptedHandler::Echo);
    registry.register_handler(&EventKey::new("P", "f2", "n").unwrap(), ScriptedHandler::Echo);
    let declared = vec!["f1".to_string(), "f2".to_string()];
    assert!(registry.validate_provider("P", &declared).is_ok());
}

#[test]
fn extra_registered_features_are_not_an_error() {
    let mut registry: EventRegistry<ScriptedHandler> = EventRegistry::new();
    registry.register_handler(&EventKey::new("P", "f1", "m").unwrap(), ScriptedHandler::Echo);
    registry.register_handler(&EventKey::new("P", "f3", "m").unwrap(), ScriptedHandler::Echo);
    let declared = vec!["f1".to_string()];
    assert!(registry.validate_provider("P", &declared).is_ok());
}

#[test]
fn provider_features_form_a_set() {
    let mut registry: EventRegistry<ScriptedHandler> = EventRegistry::new();
    registry.register_handler(&EventKey::new("P", "f1", "m").unwrap(), ScriptedHandler::Echo);
    registry.register_handler(&EventKey::new("P", "f2", "n").unwrap(), ScriptedHandler::Echo);
    registry.register_handler(&EventKey::new("P", "f1", "o").unwrap(), ScriptedHandler::Echo);
    let features = registry.get_provider_features("P");
    assert_eq!(features, vec!["f1", "f2"]);
    assert!(registry.get_provider_features("Q").is_empty());
}

#[test]
fn list_handlers_names_each_key_once() {
    let mut registry: EventRegistry<ScriptedHandler> = EventRegistry::new();
    registry.register_handler(&EventKey::new("P", "f", "a").unwrap(), ScriptedHandler::Echo);
    registry.register_handler(&EventKey::new("P", "f", "b").unwrap(), ScriptedHandler::Echo);
    registry.register_handler(&EventKey::new("P", "f", "a").unwrap(), ScriptedHandler::Echo);
    let mut listed = registry.list_handlers();
    listed.sort();
    assert_eq!(listed, vec!["P::f::a".to_string(), "P::f::b".to_string()]);
}

#[test]
fn interleaved_registrations_and_dispatches_all_succeed() {
    let mut registry: EventRegistry<ScriptedHandler> = EventRegistry::new();
    let mut keys = Vec::new();
    for i in 0..120usize {
        let method = format!("m{}", i);
        let key = EventKey::new("P", "f", &method).unwrap();
        registry.register_handler(&key, ScriptedHandler::Succeed(JsonValue::Int(i as i64)));
        keys.push(key);
    }
    for round in 0..12usize {
        let method = format!("extra{}", round);
        let key = EventKey::new("Q", "g", &method).unwrap();
        registry.register_handler(&key, ScriptedHandler::Echo);
        for i in (round * 10)..(round * 10 + 10) {
            let got = registry
                .dispatch_event(&keys[i], &empty_object(), invoke)
                .unwrap();
            assert!(got.deep_eq(&JsonValue::Int(i as i64)));
        }
    }
    assert_eq!(registry.list_handlers().len(), 132);
}

#[test]
fn error_messages_carry_their_prefix() {
    assert_eq!(
        EventError::HandlerNotFound("a::b::c".to_string()).message(),
        "Handler not found for event: a::b::c"
    );
    assert_eq!(
        EventError::ExecutionFailed("x".to_string()).message(),
        "Execution failed: x"
    );
    assert_eq!(
        EventError::InvalidPayload("y".to_string()).message(),
        "Invalid payload: y"
    );
}

#[test]
fn demo_provider_scenario() {
    let mut registry: EventRegistry<ScriptedHandler> = EventRegistry::new();
    let list_key = EventKey::new("demo", "Mgmt", "list").unwrap();
    let answer = JsonValue::Obj(vec![JsonMember::new(
        "vms".to_string(),
        JsonValue::Arr(vec![]),
    )]);
    registry.register_handler(&list_key, ScriptedHandler::Succeed(answer.duplicate()));
    let got = registry
        .dispatch_event(&list_key, &empty_object(), invoke)
        .unwrap();
    assert!(got.deep_eq(&answer));
    let missing_key = EventKey::new("demo", "Mgmt", "missing").unwrap();
    assert!(matches!(
        registry.dispatch_event(&missing_key, &empty_object(), invoke),
        Err(EventError::HandlerNotFound(_))
    ));
    let declared = vec!["Mgmt".to_string(), "Ctrl".to_string()];
    match registry.validate_provider("demo", &declared) {
        Err(EventError::ExecutionFailed(m)) => {
            assert!(m.contains("Ctrl"));
            assert_eq!(
                m,
                "Provider 'demo' declared feature 'Ctrl' but no handlers registered"
            );
        }
        _ => panic!("expected validation to fail on the unbacked feature"),
    }
}

#[test]
fn parallel_dispatches_to_distinct_keys_all_succeed() {
    let mut registry: EventRegistry<ScriptedHandler> = EventRegistry::new();
    let mut keys = Vec::new();
    for i in 0..128usize {
        let method = format!("m{}", i);
        let key = EventKey::new("par", "f", &method).unwrap();
        registry.register_handler(&key, ScriptedHandler::Succeed(JsonValue::Int(i as i64)));
        keys.push(key);
    }
    let shared = std::sync::Arc::new(registry);
    let runtime = tokio::runtime::Builder::new_multi_thread()
        .worker_threads(4)
        .build()
        .unwrap();
    runtime.block_on(async {
        let mut tasks = Vec::new();
        for (i, key) in keys.into_iter().enumerate() {
            let shared = std::sync::Arc::clone(&shared);
            tasks.push(tokio::task::spawn_blocking(move || {
                let payload = JsonValue::Obj(vec![]);
                let got = shared.dispatch_event(&key, &payload, invoke).unwrap();
                got.deep_eq(&JsonValue::Int(i as i64))
            }));
        }
        for task in tasks {
            assert!(task.await.unwrap());
        }
    });
}
