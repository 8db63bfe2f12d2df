use magi_core::domain::{InferenceMedia, InferenceRequest};
use magi_core::engines::text_bytes_of;
use magi_core::generation::TokenLoop;
use magi_core::resources::fallback_dirs;
use magi_core::workflow::{session_line, web_sections, MemFlow};

#[test]
fn the_token_loop_stops_at_the_end_token_or_the_budget() {
    let mut l = TokenLoop::start(vec![1, 5], 2, None);
    assert_eq!(l.end_token, 2);
    assert_eq!(l.next_input(), Ok((5, 2)));
    assert!(l.wants_more());
    assert!(l.take_token(7));
    l.take_piece("Hel");
    assert_eq!(l.next_input(), Ok((7, 3)));
    assert!(l.take_token(8));
    l.take_piece("lo");
    assert!(!l.wants_more());
    assert_eq!(l.text, "Hello");
    assert_eq!(l.tokens, vec![1, 5, 7, 8]);

    let mut m = TokenLoop::start(vec![3], 10, Some(42));
    assert!(!m.take_token(42));
    assert_eq!(m.tokens, vec![3]);
    assert_eq!(m.text, "");

    let empty = TokenLoop::start(vec![], 4, Some(0));
    assert_eq!(empty.next_input(), Err("Empty tokens".to_string()));
}

#[test]
fn text_bytes_count_only_text_inputs() {
    let r = InferenceRequest {
        inputs: vec![
            InferenceMedia::Text("ab".to_string()),
            InferenceMedia::Audio { data: vec![0; 10], sample_rate: 1 },
            InferenceMedia::Text("가".to_string()),
        ],
        max_tokens: 1,
        system_prompt: None,
    };
    assert_eq!(text_bytes_of(&r), Some(5));
}

#[test]
fn web_results_are_remembered_by_section() {
    let res = "Lead\n# A\nalpha\n# B\n   \n";
    let sections: Vec<(String, String)> =
        web_sections(res, "q").into_iter().map(|s| (s.text, s.source)).collect();
    assert_eq!(
        sections,
        vec![
            ("Lead".to_string(), "WebSearch:q/Intro".to_string()),
            ("# A\nalpha".to_string(), "WebSearch:q#A".to_string()),
            ("# B".to_string(), "WebSearch:q#B".to_string()),
        ]
    );
    assert!(web_sections("   ", "q").is_empty());
}

#[test]
fn recall_lines_carry_their_scores() {
    assert_eq!(session_line("GlobalRAG", "0.42", "t"), "[Session (GlobalRAG - Score: 0.42)]: t");
    assert_eq!(MemFlow::recall_text("Web", "0.90", "body"), "[Semantic Recall - Web (Score: 0.90)]:\nbody");
    assert_eq!(fallback_dirs(), vec!["models".to_string(), "../models".to_string(), "../../models".to_string()]);
}
