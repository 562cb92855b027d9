use grengin_api::ai_engines::{
    check_plugin_config_update, engines_to_add, new_engine_state, provider_preparation, ApiKeyStatus, EngineField,
    NewEngineState, ProviderPreparation, UNSET_DEFAULT_MODEL,
};

fn keys(list: &[&str]) -> Vec<String> {
    list.iter().map(|s| s.to_string()).collect()
}

#[test]
fn only_unknown_providers_get_records_once() {
    let existing = keys(&["openai"]);
    let providers = keys(&["openai", "anthropic", "gemini", "anthropic"]);
    assert_eq!(engines_to_add(&existing, &providers), vec![1, 2]);
    assert!(engines_to_add(&providers, &providers).is_empty());
    assert_eq!(engines_to_add(&Vec::new(), &keys(&["a", "a", "b"])), vec![0, 2]);
}

#[test]
fn new_engine_is_enabled_only_with_a_key() {
    assert_eq!(new_engine_state(true), NewEngineState { is_enabled: true, api_key_status: ApiKeyStatus::NotValidated });
    assert_eq!(new_engine_state(false), NewEngineState { is_enabled: false, api_key_status: ApiKeyStatus::NotConfigured });
    assert_eq!(UNSET_DEFAULT_MODEL, "<empty>");
}

#[test]
fn plugin_config_update_is_checked() {
    assert_eq!(check_plugin_config_update(false, Some("groq"), "groq"), Err(EngineField::PluginConfig));
    assert_eq!(check_plugin_config_update(true, None, "groq"), Err(EngineField::PluginConfig));
    assert_eq!(check_plugin_config_update(true, Some("other"), "groq"), Err(EngineField::PluginConfigManifestId));
    assert_eq!(check_plugin_config_update(true, Some("groq"), "groq"), Ok(()));
}

#[test]
fn providers_are_prepared_by_state() {
    assert!(matches!(provider_preparation(true, true, None, true), ProviderPreparation::Build));
    assert!(matches!(provider_preparation(false, false, Some("k".into()), true), ProviderPreparation::Skip));
    match provider_preparation(false, true, Some("key".into()), true) {
        ProviderPreparation::Compile(k) => assert_eq!(k, Some("key".to_string())),
        _ => panic!("expected a compile"),
    }
    match provider_preparation(false, true, None, true) {
        ProviderPreparation::Compile(k) => assert_eq!(k, Some("validation-placeholder".to_string())),
        _ => panic!("expected a compile"),
    }
    match provider_preparation(false, true, None, false) {
        ProviderPreparation::Compile(k) => assert_eq!(k, None),
        _ => panic!("expected a compile"),
    }
}
