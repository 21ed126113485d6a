use openrouter_stt::settings::{language_hint, provider, recognition_language, AppSettings, PROVIDER_ID};

#[test]
fn openrouter_stt_language_hint_maps_script_variants() {
    let hint = |selected: &str| {
        let settings = AppSettings {
            selected_language: selected.to_string(),
            ..Default::default()
        };
        language_hint(&settings)
    };

    assert_eq!(hint("auto"), None);
    assert_eq!(hint("  Auto "), None);
    assert_eq!(hint("zh-Hans"), Some("zh".to_string()));
    assert_eq!(hint("zh-Hant"), Some("zh".to_string()));
    assert_eq!(hint("pt-BR"), Some("pt-BR".to_string()));
}

#[test]
fn blank_language_means_auto_detect() {
    let settings = AppSettings {
        selected_language: " \t ".to_string(),
        ..Default::default()
    };
    assert_eq!(language_hint(&settings), None);
    assert_eq!(language_hint(&AppSettings::default()), None);
}

#[test]
fn language_hint_is_trimmed_and_keeps_other_case() {
    let settings = AppSettings {
        selected_language: "  EN ".to_string(),
        ..Default::default()
    };
    assert_eq!(language_hint(&settings), Some("EN".to_string()));
    let settings = AppSettings {
        selected_language: "AUTO!".to_string(),
        ..Default::default()
    };
    assert_eq!(language_hint(&settings), Some("AUTO!".to_string()));
}

#[test]
fn recognition_language_reduces_only_chinese_scripts() {
    assert_eq!(recognition_language("zh-Hans"), "zh");
    assert_eq!(recognition_language("zh-hans"), "zh-hans");
    assert_eq!(recognition_language("ja"), "ja");
}

#[test]
fn provider_record_is_openrouter() {
    let p = provider();
    assert_eq!(p.id, PROVIDER_ID);
    assert_eq!(p.id, "openrouter");
    assert_eq!(p.label, "OpenRouter");
    assert_eq!(p.base_url, "https://openrouter.ai/api/v1");
    assert!(!p.allow_base_url_edit);
    assert_eq!(p.models_endpoint.as_deref(), Some("/models"));
    assert!(p.supports_structured_output);
}

#[test]
fn api_key_lookup_finds_the_provider_entry() {
    let settings = AppSettings {
        post_process_api_keys: vec![
            ("anthropic".to_string(), "a".to_string()),
            ("openrouter".to_string(), "k".to_string()),
        ],
        ..Default::default()
    };
    assert_eq!(settings.api_key("openrouter"), Some("k".to_string()));
    assert_eq!(settings.api_key("groq"), None);
}
