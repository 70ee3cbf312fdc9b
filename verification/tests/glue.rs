//! Tests of the declarative attribute and lifecycle event types.

use json_encoded_size::attributes::CustomAttribute;
use json_encoded_size::events::{VectorQuit, VectorReloaded, VectorStarted, VectorStopped};

#[test]
fn attribute_forms() {
    let flag = CustomAttribute::Flag("templateable".to_string());
    match flag {
        CustomAttribute::Flag(name) => assert_eq!(name, "templateable"),
        CustomAttribute::KeyValue { .. } => panic!("expected a flag"),
    }

    let kv = CustomAttribute::KeyValue { key: "status".to_string(), value: "beta".to_string() };
    match kv {
        CustomAttribute::KeyValue { key, value } => {
            assert_eq!(key, "status");
            assert_eq!(value, "beta");
        }
        CustomAttribute::Flag(_) => panic!("expected a key/value pair"),
    }
}

#[test]
fn attribute_clone_keeps_content() {
    let kv = CustomAttribute::KeyValue { key: "status".to_string(), value: "beta".to_string() };
    let copy = kv.clone();
    match (kv, copy) {
        (
            CustomAttribute::KeyValue { key: k1, value: v1 },
            CustomAttribute::KeyValue { key: k2, value: v2 },
        ) => {
            assert_eq!(k1, k2);
            assert_eq!(v1, v2);
        }
        _ => panic!("expected two key/value pairs"),
    }
}

#[test]
fn lifecycle_events_construct() {
    let _started = VectorStarted;
    let _stopped = VectorStopped;
    let _quit = VectorQuit;
    let reloaded = VectorReloaded { config_paths: vec!["vector.toml".to_string()] };
    assert_eq!(reloaded.config_paths.len(), 1);
    assert_eq!(reloaded.config_paths[0], "vector.toml");
}
