use magi_core::domain::MagiError;
use magi_core::resources::{
    backend_name, extension_of, hot_swap_message, is_model_file, is_other_model, load_failure,
    pick_model_file, safe_model_keywords, CandleFallback, EngineBackend, EngineConfig, LoadStep,
    ResourceManager,
};

fn candle(path: Option<&str>, endpoint: Option<&str>) -> EngineConfig {
    EngineConfig {
        backend_type: EngineBackend::Candle,
        model_path: path.map(|p| p.to_string()),
        tokenizer_path: "models/tokenizer.json".to_string(),
        llamacpp_endpoint: endpoint.map(|e| e.to_string()),
    }
}

fn load(rm: &mut ResourceManager, name: &str) -> Option<String> {
    let (evicted, step) = rm.acquire(name);
    match step {
        Ok(LoadStep::Cached(_)) => {}
        Ok(LoadStep::LoadCandle { .. }) => rm.finish_load(name.to_string(), EngineBackend::Candle),
        Ok(LoadStep::LoadLlamaCpp { .. }) => rm.finish_load(name.to_string(), EngineBackend::LlamaCpp),
        Err(e) => panic!("unexpected error {:?}", e),
    }
    evicted
}

#[test]
fn a_registered_unit_is_loaded_then_cached() {
    let mut rm = ResourceManager::new(3);
    rm.register_config("Unit_1".to_string(), candle(Some("models/mock_1.gguf"), None));
    let (evicted, step) = rm.acquire("Unit_1");
    assert!(evicted.is_none());
    match step {
        Ok(LoadStep::LoadCandle { model_path, tokenizer_path }) => {
            assert_eq!(model_path, "models/mock_1.gguf");
            assert_eq!(tokenizer_path, "models/tokenizer.json");
        }
        other => panic!("unexpected {:?}", other),
    }
    rm.finish_load("Unit_1".to_string(), EngineBackend::Candle);
    assert!(rm.is_loaded("Unit_1"));
    match rm.acquire("Unit_1") {
        (None, Ok(LoadStep::Cached(EngineBackend::Candle))) => {}
        other => panic!("unexpected {:?}", other),
    }
    assert_eq!(rm.engine_count(), 1);
}

#[test]
fn an_unregistered_unit_is_an_error() {
    let mut rm = ResourceManager::new(3);
    match rm.acquire("Nobody") {
        (None, Err(MagiError::InternalError(m))) => {
            assert_eq!(m, "Engine config not registered for 'Nobody'")
        }
        other => panic!("unexpected {:?}", other),
    }
}

#[test]
fn the_least_recently_used_engine_leaves_a_full_cache() {
    let mut rm = ResourceManager::new(2);
    for i in 1..=3 {
        rm.register_config(format!("Unit_{}", i), candle(Some(&format!("models/mock_{}.gguf", i)), None));
    }
    assert_eq!(load(&mut rm, "Unit_1"), None);
    assert_eq!(load(&mut rm, "Unit_2"), None);
    // Using Unit_1 again makes Unit_2 the least recently used.
    assert_eq!(load(&mut rm, "Unit_1"), None);
    assert_eq!(load(&mut rm, "Unit_3"), Some("Unit_2".to_string()));
    assert_eq!(rm.loaded_names(), vec!["Unit_1".to_string(), "Unit_3".to_string()]);
    assert!(rm.engine_count() <= 2);
}

#[test]
fn a_cache_of_zero_still_holds_one_engine() {
    let mut rm = ResourceManager::new(0);
    rm.register_config("A".to_string(), candle(Some("a.gguf"), None));
    rm.register_config("B".to_string(), candle(Some("b.gguf"), None));
    assert_eq!(load(&mut rm, "A"), None);
    assert_eq!(load(&mut rm, "B"), Some("A".to_string()));
    assert_eq!(rm.loaded_names(), vec!["B".to_string()]);
}

#[test]
fn configuration_errors_are_reported() {
    let mut rm = ResourceManager::new(3);
    rm.register_config("C".to_string(), candle(None, None));
    match rm.acquire("C").1 {
        Err(MagiError::InternalError(m)) => assert_eq!(m, "Missing model path for Candle engine: C"),
        other => panic!("unexpected {:?}", other),
    }
    let mut l = candle(None, None);
    l.backend_type = EngineBackend::LlamaCpp;
    rm.register_config("L".to_string(), l);
    match rm.acquire("L").1 {
        Err(MagiError::InternalError(m)) => {
            assert_eq!(m, "Missing llama.cpp endpoint for LlamaCpp engine: L")
        }
        other => panic!("unexpected {:?}", other),
    }
    let mut o = candle(Some("x.gguf"), None);
    o.backend_type = EngineBackend::OpenAiSpec;
    rm.register_config("O".to_string(), o);
    match rm.acquire("O").1 {
        Err(MagiError::InternalError(m)) => {
            assert_eq!(m, "Unsupported engine backend for dynamic swap: OpenAiSpec")
        }
        other => panic!("unexpected {:?}", other),
    }
    assert_eq!(backend_name(EngineBackend::MagiNative), "MagiNative");
}

#[test]
fn a_failed_candle_load_falls_back_to_llama_cpp_for_good() {
    let mut rm = ResourceManager::new(3);
    rm.register_config("U".to_string(), candle(Some("broken.gguf"), Some("http://localhost:8080")));
    assert!(matches!(rm.acquire("U").1, Ok(LoadStep::LoadCandle { .. })));
    match rm.candle_failed("U") {
        CandleFallback::UseLlamaCpp(e) => assert_eq!(e, "http://localhost:8080"),
        other => panic!("unexpected {:?}", other),
    }
    assert_eq!(rm.config_of("U").unwrap().backend_type, EngineBackend::LlamaCpp);
    match rm.acquire("U").1 {
        Ok(LoadStep::LoadLlamaCpp { endpoint }) => assert_eq!(endpoint, "http://localhost:8080"),
        other => panic!("unexpected {:?}", other),
    }
    rm.register_config("V".to_string(), candle(Some("broken.gguf"), None));
    assert!(matches!(rm.candle_failed("V"), CandleFallback::TrySafeModels));
    assert_eq!(rm.config_of("V").unwrap().backend_type, EngineBackend::Candle);
    match load_failure("V", "bad magic") {
        MagiError::ModelLoadError(m) => assert_eq!(
            m,
            "Candle model load failed for V and no fallback or llama.cpp endpoint is available: bad magic"
        ),
        other => panic!("unexpected {:?}", other),
    }
}

#[test]
fn hot_swap_points_the_unit_at_the_new_model() {
    let mut rm = ResourceManager::new(3);
    let mut l = candle(None, Some("http://localhost:8080"));
    l.backend_type = EngineBackend::LlamaCpp;
    rm.register_config("U".to_string(), l);
    assert_eq!(load(&mut rm, "U"), None);
    rm.hot_swap("U", "models/new.gguf");
    assert!(!rm.is_loaded("U"));
    let c = rm.config_of("U").unwrap();
    assert_eq!(c.backend_type, EngineBackend::Candle);
    assert_eq!(c.model_path, Some("models/new.gguf".to_string()));
    match rm.acquire("U").1 {
        Ok(LoadStep::LoadCandle { model_path, .. }) => assert_eq!(model_path, "models/new.gguf"),
        other => panic!("unexpected {:?}", other),
    }
    rm.hot_swap("Unknown", "x.gguf");
    assert!(rm.config_of("Unknown").is_none());
    assert_eq!(hot_swap_message("U"), "Model for U swapped successfully");
}

#[test]
fn registering_an_engine_replaces_and_evicts() {
    let mut rm = ResourceManager::new(2);
    assert_eq!(rm.register_engine("A".to_string(), EngineBackend::MagiNative), None);
    assert_eq!(rm.register_engine("B".to_string(), EngineBackend::MagiNative), None);
    assert_eq!(rm.register_engine("A".to_string(), EngineBackend::Candle), Some("A".to_string()));
    assert_eq!(rm.loaded_names(), vec!["B".to_string(), "A".to_string()]);
    rm.clear_resources();
    assert_eq!(rm.engine_count(), 0);
    assert!(rm.has_room());
}

#[test]
fn model_files_are_found_by_keyword() {
    assert!(is_model_file("SmolLM2-1.7B-Instruct-Q4_K_M.gguf", "smollm2"));
    assert!(is_model_file("phi-4.Q4.gguf", "PHI"));
    assert!(!is_model_file("phi-4.bin", "phi"));
    assert!(!is_model_file(".gguf", "gguf"));
    assert!(!is_model_file("tiny.GGUF", "tiny"));
    assert_eq!(extension_of("a.tar.gz"), Some("gz".to_string()));
    assert_eq!(extension_of("noext"), None);
    assert_eq!(extension_of(".hidden"), None);
    let names = vec!["readme.md".to_string(), "mini-model.gguf".to_string(), "mini2.gguf".to_string()];
    assert_eq!(pick_model_file(&names, "Mini"), Some(1));
    assert_eq!(pick_model_file(&names, "phi"), None);
    assert_eq!(
        safe_model_keywords(),
        vec!["SmolLM2".to_string(), "tiny".to_string(), "mini".to_string(), "phi".to_string()]
    );
    assert!(is_other_model("models/a.gguf", "models/b.gguf"));
    assert!(!is_other_model("models/a.gguf", "models/a.gguf"));
}

#[test]
fn a_configuration_that_cannot_be_built_evicts_nothing() {
    let mut rm = ResourceManager::new(1);
    rm.register_config("A".to_string(), candle(Some("a.gguf"), None));
    assert_eq!(load(&mut rm, "A"), None);
    let mut l = candle(None, None);
    l.backend_type = EngineBackend::LlamaCpp;
    rm.register_config("L".to_string(), l);
    let (evicted, step) = rm.acquire("L");
    assert_eq!(evicted, None);
    assert!(matches!(step, Err(MagiError::InternalError(_))));
    let mut o = candle(Some("x.gguf"), None);
    o.backend_type = EngineBackend::MagiNative;
    rm.register_config("O".to_string(), o);
    assert_eq!(rm.acquire("O").0, None);
    rm.register_config("C".to_string(), candle(None, None));
    assert_eq!(rm.acquire("C").0, None);
    assert_eq!(rm.loaded_names(), vec!["A".to_string()]);
}

#[test]
fn an_engine_just_loaded_is_found_without_loading_again() {
    let mut rm = ResourceManager::new(2);
    rm.register_config("A".to_string(), candle(Some("a.gguf"), None));
    rm.register_config("B".to_string(), candle(Some("b.gguf"), None));
    assert_eq!(load(&mut rm, "A"), None);
    assert_eq!(load(&mut rm, "B"), None);
    let (evicted, step) = rm.acquire("B");
    assert_eq!(evicted, None);
    assert!(matches!(step, Ok(LoadStep::Cached(EngineBackend::Candle))));
    assert_eq!(rm.loaded_names(), vec!["A".to_string(), "B".to_string()]);
}
