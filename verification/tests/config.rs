use magi_core::config::{
    config_paths, default_persona, model_dirs, persona_path, trim_char_str, unit_engine_config,
    units_meta, MagiConfiguration, MAX_ACTIVE_MODELS,
};
use magi_core::resources::EngineBackend;

fn cfg(models: Vec<(&str, &str)>, endpoint: Option<&str>) -> MagiConfiguration {
    let m: Vec<(String, String)> = models.into_iter().map(|(k, v)| (k.to_string(), v.to_string())).collect();
    MagiConfiguration::from_settings(
        &m,
        "models/tokenizer.json".to_string(),
        "../prompts".to_string(),
        "kb".to_string(),
        8000,
        "127.0.0.1".to_string(),
        endpoint.map(|e| e.to_string()),
    )
}

#[test]
fn mappings_are_keyed_by_lowercase_names() {
    let c = cfg(vec![("Phi-4 (Melchior)", "\"phi-4\""), ("Qwen-Math (Kagba)", "qwen")], None);
    assert_eq!(c.model_keyword("PHI-4 (MELCHIOR)"), "phi-4");
    assert_eq!(c.model_keyword("Qwen-Math (Kagba)"), "qwen");
    assert_eq!(c.model_keyword("SmolLM2 (Artaban)"), "SmolLM2 (Artaban)");
    assert_eq!(c.port, 8000);
}

#[test]
fn a_later_mapping_wins_and_ports_are_cut_to_16_bits() {
    let c = MagiConfiguration::from_settings(
        &vec![("A".to_string(), "one".to_string()), ("a".to_string(), "two".to_string())],
        String::new(),
        String::new(),
        String::new(),
        65536 + 80,
        String::new(),
        None,
    );
    assert_eq!(c.model_keyword("a"), "two");
    assert_eq!(c.port, 80);
}

#[test]
fn quotes_are_trimmed_at_both_ends() {
    assert_eq!(trim_char_str("\"\"x\"y\"", '"'), "x\"y");
    assert_eq!(trim_char_str("\"\"", '"'), "");
    assert_eq!(trim_char_str("plain", '"'), "plain");
}

#[test]
fn units_get_candle_when_a_model_file_is_found() {
    let c = cfg(vec![], Some("http://localhost:8080"));
    let with = unit_engine_config(Some("models/phi.gguf".to_string()), &c);
    assert_eq!(with.backend_type, EngineBackend::Candle);
    assert_eq!(with.model_path, Some("models/phi.gguf".to_string()));
    assert_eq!(with.tokenizer_path, "models/tokenizer.json");
    assert_eq!(with.llamacpp_endpoint, Some("http://localhost:8080".to_string()));
    let without = unit_engine_config(None, &c);
    assert_eq!(without.backend_type, EngineBackend::LlamaCpp);
    assert_eq!(without.model_path, None);
}

#[test]
fn the_roster_and_its_files() {
    let units = units_meta();
    assert_eq!(units.len(), 6);
    assert_eq!(units[0], ("Phi-4 (Melchior)".to_string(), "system_persona_melchior.txt".to_string()));
    assert_eq!(units[5].0, "Qwen-Math (Kagba)");
    assert_eq!(persona_path("../prompts", "a.txt"), "../prompts/a.txt");
    assert_eq!(default_persona("Phi-4 (Melchior)"), "You are Phi-4 (Melchior).");
    assert_eq!(MAX_ACTIVE_MODELS, 3);
    assert_eq!(config_paths()[1], "magi_config.ini");
    assert_eq!(model_dirs(), vec!["../models".to_string(), "models".to_string(), "../../models".to_string()]);
}
