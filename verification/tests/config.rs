use whispr::config::AppConfig;

#[test]
fn first_start_settings() {
    let c = AppConfig::default_with_models_dir("/data/models".to_string());
    assert_eq!(c.whisper_binary_path, "whisper-cli");
    assert_eq!(c.models_dir, "/data/models");
    assert_eq!(c.selected_model_id, "base");
    assert!(c.cleanup_enabled);
    assert_eq!(c.ollama_url, "http://localhost:11434");
    assert_eq!(c.ollama_model, "llama3.2:3b");
    assert_eq!(c.language, "auto");
    assert!(!c.bangla_debug_enabled);
}

#[test]
fn bangla_debug_is_reported_only_in_bangla_when_asked() {
    let mut c = AppConfig::default_with_models_dir(String::new());
    c.bangla_debug_enabled = true;
    assert!(!c.emits_bangla_debug());
    c.language = "bn".to_string();
    assert!(c.is_bangla());
    assert!(c.emits_bangla_debug());
    c.bangla_debug_enabled = false;
    assert!(!c.emits_bangla_debug());
}
