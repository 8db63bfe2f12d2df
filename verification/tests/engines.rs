use magi_core::domain::{InferenceMedia, InferenceRequest};
use magi_core::engines::{
    llama_cpp_prompt, llama_stream_tokens, openai_stream_tokens, text_inputs_prompt,
    DeepSeekR2Engine, Gemma4Engine, Llama4ScoutEngine, MagusUnitImpl,
};
use magi_core::resources::EngineBackend;

fn request(inputs: Vec<InferenceMedia>, system: Option<&str>) -> InferenceRequest {
    InferenceRequest { inputs, max_tokens: 64, system_prompt: system.map(|s| s.to_string()) }
}

#[test]
fn units_frame_their_prompts() {
    let u = MagusUnitImpl::new("Phi-4 (Melchior)", "You are Melchior.");
    assert_eq!(u.name(), "Phi-4 (Melchior)");
    assert_eq!(u.text_prompt("Hi"), "System: You are Melchior.\nUser: Hi\nAssistant:");
    assert_eq!(
        u.vision_prompt("What is it?", "cat.png"),
        "[LOCAL VISION ANALYSIS]: Image 'cat.png' detected.\nUser: What is it?\nAssistant:"
    );
    let r = u.prepare_request(request(vec![], None));
    assert_eq!(r.system_prompt, Some("You are Melchior.".to_string()));
    let r = u.prepare_request(request(vec![], Some("Custom")));
    assert_eq!(r.system_prompt, Some("Custom".to_string()));
}

#[test]
fn the_reasoning_engine_answers_with_its_log() {
    let e = DeepSeekR2Engine::new("key");
    assert_eq!(e.model_name, "deepseek-r2");
    assert_eq!(e.backend_type(), EngineBackend::MagiNative);
    assert_eq!(e.generate("x"), "[DeepSeek-R2 Placeholder] Output for: x");
    let r = e.process(&request(vec![], None));
    assert_eq!(r.content, "Based on the consensus, the proposed architecture is sound.");
    assert!(r.reasoning_log.unwrap().starts_with("I need to analyze the user request"));
    assert_eq!(r.usage, (100, 200));
}

#[test]
fn the_long_context_engine_counts_bytes() {
    let e = Llama4ScoutEngine::new();
    assert_eq!(e.generate("héllo"), "[Llama 4 Scout] Processing 6 tokens...");
    let r = e.process(&request(
        vec![
            InferenceMedia::Text("abcd".to_string()),
            InferenceMedia::Image { data: vec![1, 2, 3], mime_type: "image/png".to_string() },
            InferenceMedia::Text("efghijkl".to_string()),
        ],
        None,
    ));
    assert_eq!(r.content, "Analyzed a context of 12 characters across 10M token window.");
    assert_eq!(r.usage, (3, 50));
    assert!(Llama4ScoutEngine::default().vram_optimization);
}

#[test]
fn the_multimodal_engine_names_its_inputs() {
    let e = Gemma4Engine::new();
    let img = InferenceMedia::Image { data: vec![], mime_type: "image/png".to_string() };
    let aud = InferenceMedia::Audio { data: vec![], sample_rate: 16000 };
    assert_eq!(
        e.process(&request(vec![img.clone(), aud.clone()], None)).content,
        "I have analyzed both the image and the audio input natively."
    );
    assert_eq!(e.process(&request(vec![img], None)).content, "I have processed the visual data.");
    assert_eq!(e.process(&request(vec![aud], None)).content, "I have processed the acoustic signal.");
    let t = e.process(&request(vec![InferenceMedia::Text("x".to_string())], None));
    assert_eq!(t.content, "Processing text input...");
    assert_eq!(t.usage, (256, 128));
    assert_eq!(e.generate("p"), "[Gemma 4] Direct text: p");
    assert!(Gemma4Engine::default().npu_accelerated);
}

#[test]
fn server_prompts_collect_the_text_inputs() {
    let r = request(
        vec![
            InferenceMedia::Text("one".to_string()),
            InferenceMedia::Audio { data: vec![], sample_rate: 8000 },
            InferenceMedia::Text("two".to_string()),
        ],
        Some("sys"),
    );
    assert_eq!(llama_cpp_prompt(&r), "System: sys\nUser: one\nUser: two\nAssistant: ");
    assert_eq!(text_inputs_prompt(&r), "onetwo");
    let bare = request(vec![], None);
    assert_eq!(llama_cpp_prompt(&bare), "Assistant: ");
}

#[test]
fn llama_cpp_streams_stop_at_stop() {
    let piece = "data: {\"content\":\"A\",\"stop\":false}\n\
                 data: {\"content\":\"B\",\"stop\":true}\n\
                 data: {\"content\":\"C\",\"stop\":false}\n";
    assert_eq!(llama_stream_tokens(piece), vec!["A".to_string(), "B".to_string()]);
    assert!(llama_stream_tokens("data: not json\n").is_empty());
}

#[test]
fn openai_streams_stop_at_done() {
    let piece = "  data: {\"choices\":[{\"delta\":{\"content\":\"x\"}}]}  \n\
                 \n\
                 data: [DONE]\n\
                 data: {\"choices\":[{\"delta\":{\"content\":\"y\"}}]}\n";
    assert_eq!(openai_stream_tokens(piece), vec!["x".to_string()]);
}
