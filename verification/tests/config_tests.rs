use cjk_token_reducer::config::{
    apply_env_overrides, cache_flag_from, EnvOverrides, parse_cache_enabled, CacheConfig, PreserveConfig, ResilienceConfig,
};

#[test]
fn test_preserve_config_defaults() {
    let config = PreserveConfig::default();
    assert!(config.wiki_markers);
    assert!(config.highlight_markers);
    assert!(config.english_terms);
}

#[test]
fn test_preserve_config_builder_methods() {
    // Test the builder methods for PreserveConfig
    let all_config = PreserveConfig::all();
    assert!(all_config.wiki_markers);
    assert!(all_config.highlight_markers);
    assert!(all_config.english_terms);

    let basic_config = PreserveConfig::basic();
    assert!(!basic_config.wiki_markers);
    assert!(!basic_config.highlight_markers);
    assert!(!basic_config.english_terms);
}

#[test]
fn test_resilience_config_defaults() {
    let config = ResilienceConfig::default();
    assert_eq!(config.timeout_secs, 30);
    assert_eq!(config.connect_timeout_secs, 5);
    assert_eq!(config.max_retries, 3);
    assert_eq!(config.retry_base_delay_ms, 200);
    assert_eq!(config.circuit_breaker_threshold, 5);
    assert_eq!(config.circuit_breaker_reset_secs, 60);
    assert!(config.fallback_to_passthrough);
}

#[test]
fn cache_config_defaults() {
    let config = CacheConfig::default();
    assert!(config.enabled);
    assert_eq!(config.ttl_days, 30);
    assert_eq!(config.max_size_mb, 10);
}

#[test]
fn cache_override_values() {
    assert!(parse_cache_enabled("true"));
    assert!(parse_cache_enabled("TRUE"));
    assert!(parse_cache_enabled("True"));
    assert!(parse_cache_enabled("1"));
    assert!(!parse_cache_enabled("false"));
    assert!(!parse_cache_enabled("0"));
    assert!(!parse_cache_enabled("yes"));
    assert!(!parse_cache_enabled(""));
    assert!(!parse_cache_enabled(" true"));
}

#[test]
fn cache_flag_from_lowercase_form() {
    assert!(cache_flag_from("true", "TrUe"));
    assert!(cache_flag_from("x", "1"));
    assert!(!cache_flag_from("TRUE", "TRUE"));
    assert!(!cache_flag_from("false", "0"));
}

#[test]
fn environment_overrides_win_over_the_file() {
    let mut lang = "en".to_string();
    let mut enabled = true;
    let mut backend = "google".to_string();
    apply_env_overrides(
        &mut lang,
        &mut enabled,
        &mut backend,
        EnvOverrides {
            output_language: Some("ja".to_string()),
            cache_enabled: Some("FALSE".to_string()),
            translation_backend: None,
        },
    );
    assert_eq!(lang, "ja");
    assert!(!enabled);
    assert_eq!(backend, "google");

    let mut enabled = false;
    apply_env_overrides(
        &mut lang,
        &mut enabled,
        &mut backend,
        EnvOverrides {
            output_language: None,
            cache_enabled: Some("1".to_string()),
            translation_backend: Some("opus-mt".to_string()),
        },
    );
    assert_eq!(lang, "ja");
    assert!(enabled);
    assert_eq!(backend, "opus-mt");
}
