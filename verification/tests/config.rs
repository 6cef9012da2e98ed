use unocss_extension::config::{initialization_options, namespace_key, workspace_configuration};
use unocss_extension::json::Json;

fn flat_settings() -> Json {
    Json::Object(vec![("x".to_string(), Json::Number("1".to_string()))])
}

fn namespaced_settings() -> Json {
    Json::Object(vec![("unocss".to_string(), flat_settings())])
}

fn assert_same_flat(j: &Json) {
    match j {
        Json::Object(members) => {
            assert_eq!(members.len(), 1);
            assert_eq!(members[0].0, "x");
            assert!(matches!(&members[0].1, Json::Number(n) if n == "1"));
        }
        _ => panic!("expected an object"),
    }
}

#[test]
fn namespaced_settings_pass_through_unchanged() {
    let result = workspace_configuration(Some(namespaced_settings()));
    match result {
        Some(Json::Object(members)) => {
            assert_eq!(members.len(), 1);
            assert_eq!(members[0].0, "unocss");
            assert_same_flat(&members[0].1);
        }
        _ => panic!("expected the settings object back"),
    }
}

#[test]
fn flat_settings_are_wrapped_under_the_namespace() {
    let result = workspace_configuration(Some(flat_settings()));
    match result {
        Some(Json::Object(members)) => {
            assert_eq!(members.len(), 1);
            assert_eq!(members[0].0, "unocss");
            assert_same_flat(&members[0].1);
        }
        _ => panic!("expected a wrapped object"),
    }
}

#[test]
fn absent_settings_give_no_configuration() {
    assert!(workspace_configuration(None).is_none());
}

#[test]
fn non_object_settings_are_wrapped_whole() {
    let result = workspace_configuration(Some(Json::Bool(true)));
    match result {
        Some(Json::Object(members)) => {
            assert_eq!(members.len(), 1);
            assert_eq!(members[0].0, "unocss");
            assert!(matches!(members[0].1, Json::Bool(true)));
        }
        _ => panic!("expected a wrapped object"),
    }
}

#[test]
fn initialization_options_pass_through() {
    assert!(initialization_options(None).is_none());
    let passed = initialization_options(Some(Json::Text("opts".to_string())));
    assert!(matches!(passed, Some(Json::Text(t)) if t == "opts"));
}

#[test]
fn has_key_sees_only_object_members() {
    assert!(namespaced_settings().has_key("unocss"));
    assert!(!flat_settings().has_key("unocss"));
    assert!(!Json::Null.has_key("unocss"));
    assert!(!Json::Array(vec![Json::Text("unocss".to_string())]).has_key("unocss"));
    let two = Json::Object(vec![
        ("a".to_string(), Json::Null),
        ("unocss".to_string(), Json::Null),
    ]);
    assert!(two.has_key("unocss"));
}

#[test]
fn the_namespace_key_is_unocss() {
    assert_eq!(namespace_key(), "unocss");
}
