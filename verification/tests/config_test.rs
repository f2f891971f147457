use ctranslate2_server::config::{
    default_beam_size, default_device, default_device_indices, default_model,
    default_no_repeat_ngram_size, default_repetition_penalty, default_target_lang, table_lookup,
    AppConfig,
};

#[test]
fn default_config_is_correct() {
    let config = AppConfig::default();
    assert_eq!(config.server.port, 8080);
    assert_eq!(config.server.host, "0.0.0.0");
}

#[test]
fn default_values_are_the_documented_ones() {
    assert_eq!(default_model(), "nllb");
    assert_eq!(default_target_lang(), "eng_Latn");
    assert_eq!(default_device(), "cpu");
    assert_eq!(default_device_indices(), vec![0]);
    assert_eq!(default_beam_size(), 5);
    assert_eq!(default_repetition_penalty(), 120);
    assert_eq!(default_no_repeat_ngram_size(), 0);
}

#[test]
fn default_config_has_no_models_or_aliases() {
    let config = AppConfig::default();
    assert!(config.models.is_empty());
    assert!(config.aliases.is_empty());
    assert_eq!(config.default_model, "nllb");
    assert_eq!(config.target_lang, "eng_Latn");
    assert_eq!(config.device, "cpu");
    assert_eq!(config.device_indices, vec![0]);
    assert_eq!(config.beam_size, 5);
    assert_eq!(config.repetition_penalty, 120);
    assert_eq!(config.no_repeat_ngram_size, 0);
}

#[test]
fn table_lookup_finds_first_match() {
    let entries = vec![
        ("a".to_string(), 1u32),
        ("b".to_string(), 2u32),
        ("a".to_string(), 3u32),
    ];
    assert_eq!(table_lookup(&entries, "a"), Some(&1));
    assert_eq!(table_lookup(&entries, "b"), Some(&2));
    assert_eq!(table_lookup(&entries, "c"), None);
    assert_eq!(table_lookup(&entries, ""), None);
}

#[test]
fn str_eq_agrees_with_equality() {
    assert!(ctranslate2_server::str_eq("", ""));
    assert!(ctranslate2_server::str_eq("cuda", "cuda"));
    assert!(!ctranslate2_server::str_eq("cuda", "cud"));
    assert!(!ctranslate2_server::str_eq("cuda", "cudb"));
    assert!(ctranslate2_server::str_eq("déjà", "déjà"));
}
