use mytypeless::doubao::DOUBAO_AUDIO_PROVIDER;
use mytypeless::storage::{
    sanitize_polish_custom_prompt, AppConfig, DictionaryEntry, HistoryEntry,
    VOLCENGINE_SEEDASR_RESOURCE_ID,
};

fn config_with_stt(provider: &str, key: &str) -> AppConfig {
    let mut c = AppConfig::default();
    c.stt_provider = provider.to_string();
    c.stt_api_key = key.to_string();
    c
}

#[test]
fn app_config_defaults_missing_custom_stt_api_key() {
    let config = AppConfig::from_parsed(config_with_stt("deepgram", "hosted-secret"), false, false);

    assert_eq!(config.stt_provider, "deepgram");
    assert_eq!(config.stt_api_key, "hosted-secret");
    assert_eq!(config.stt_custom_api_key, "");
    assert_eq!(config.stt_volcengine_resource_id, VOLCENGINE_SEEDASR_RESOURCE_ID);
}

#[test]
fn app_config_defaults_missing_polish_preferences() {
    let mut c = AppConfig::default();
    c.stt_provider = "glm-asr".to_string();
    c.llm_provider = "openrouter".to_string();
    c.llm_model = "google/gemini-2.5-flash".to_string();
    c.llm_base_url = "https://openrouter.ai/api/v1".to_string();
    c.polish_enabled = true;
    c.hotkey_mode = "hold".to_string();
    let config = AppConfig::from_parsed(c, false, false);

    assert_eq!(config.polish_custom_prompt, "");
    assert_eq!(config.polish_chinese_script, "preserve");
}

#[test]
fn app_config_sanitizes_custom_polish_prompt_and_clears_chinese_script() {
    let mut c = AppConfig::default();
    c.polish_custom_prompt = "  use formal tone\0  ".to_string();
    c.polish_chinese_script = "traditional".to_string();

    let config = AppConfig::from_parsed(c, true, false);

    assert_eq!(config.polish_custom_prompt, "use formal tone");
    assert_eq!(config.polish_chinese_script, "preserve");
}

#[test]
fn app_config_new_install_defaults_capsule_auto_hide_true() {
    let config = AppConfig::new_install_default();
    assert!(config.capsule_auto_hide);
}

#[test]
fn app_config_existing_missing_capsule_auto_hide_defaults_false() {
    let mut c = config_with_stt("deepgram", "hosted-secret");
    c.capsule_auto_hide = true;
    let config = AppConfig::from_parsed(c, false, false);

    assert_eq!(config.stt_provider, "deepgram");
    assert_eq!(config.stt_api_key, "hosted-secret");
    assert!(!config.capsule_auto_hide);
}

#[test]
fn app_config_existing_explicit_capsule_auto_hide_is_preserved() {
    let mut c = AppConfig::default();
    c.capsule_auto_hide = true;
    let config = AppConfig::from_parsed(c, true, false);

    assert!(config.capsule_auto_hide);
}

#[test]
fn app_config_migrates_legacy_mac_alt_slash_label() {
    let mut c = AppConfig::default_for(true);
    c.hotkey = "Alt+/".to_string();

    let config = AppConfig::from_parsed(c, false, true);

    assert_eq!(config.hotkey, "Option+/");
}

#[test]
fn legacy_alt_slash_is_kept_outside_macos() {
    let mut c = AppConfig::default();
    c.hotkey = "Alt+/".to_string();
    let config = AppConfig::from_parsed(c, false, false);
    assert_eq!(config.hotkey, "Alt+/");
}

#[test]
fn platform_defaults() {
    let other = AppConfig::default();
    assert_eq!(other.hotkey, "Ctrl+/");
    assert_eq!(other.stt_provider, DOUBAO_AUDIO_PROVIDER);
    assert_eq!(other.max_recording_seconds, 30);
    assert!(!other.capsule_auto_hide);
    assert!(other.trim_silence);
    assert_eq!(AppConfig::default_for(true).hotkey, "Option+/");
    assert!(AppConfig::new_install_default_for(true).capsule_auto_hide);
}

#[test]
fn normalize_twice_is_stable() {
    let mut c = AppConfig::default();
    c.polish_custom_prompt = " \0keep it short\0 ".to_string();
    c.normalize_values(true);
    let once = c.polish_custom_prompt.clone();
    c.normalize_values(true);
    assert_eq!(c.polish_custom_prompt, once);
    assert_eq!(once, "keep it short");
}

#[test]
fn loaded_or_new_install_falls_back() {
    let fresh = AppConfig::loaded_or_new_install(None, false);
    assert!(fresh.capsule_auto_hide);
    let mut stored = AppConfig::default();
    stored.theme = "dark".to_string();
    let kept = AppConfig::loaded_or_new_install(Some(stored), false);
    assert_eq!(kept.theme, "dark");
    assert!(!kept.capsule_auto_hide);
}

#[test]
fn polish_prompt_sanitizer_bounds_length() {
    let s = format!("  keep\0 it {}  ", "z".repeat(2100));
    let r = sanitize_polish_custom_prompt(&s);
    assert_eq!(r.chars().count(), 2000);
    assert!(r.starts_with("keep it z"));
}

#[test]
fn records_hold_their_fields() {
    let h = HistoryEntry {
        id: 1,
        created_at: "2024-01-01".to_string(),
        app_name: "Terminal".to_string(),
        app_type: "terminal".to_string(),
        raw_text: "ls".to_string(),
        polished_text: "ls".to_string(),
        language: None,
        duration_ms: Some(1200),
    };
    assert_eq!(h.clone().duration_ms, Some(1200));
    let d = DictionaryEntry { id: 2, word: "Tauri".to_string(), pronunciation: None };
    assert_eq!(d.word, "Tauri");
}
