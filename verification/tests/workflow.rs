use magi_core::domain::{AgentState, ConsensusRigor, MagiError, WorkflowStep};
use magi_core::workflow::{
    analyse_intent, apply_expert, apply_intent, apply_retrieval, apply_vision, begin_session, failure_error,
    intent_prompt, intent_query, is_finished, next_phase, prioritized_unit, record_web_result,
    record_strategy, route, session_path, specialist_prompt, specialist_status, web_context, web_queries,
    web_source, IntentAnalysis, MemFlow, OrchestratorState, PhaseResult, PruningLevel,
    RetryBudget, WebTally,
};

fn state(query: &str) -> AgentState {
    AgentState::new("s1".to_string(), query.to_string())
}

#[test]
fn phases_follow_the_routing_decisions() {
    let p = next_phase(&OrchestratorState::Init, PhaseResult::Done);
    assert_eq!(p, OrchestratorState::Routing);
    assert_eq!(
        next_phase(&p, PhaseResult::Step(WorkflowStep::Vision)),
        OrchestratorState::VisualAnalysis
    );
    assert_eq!(
        next_phase(&p, PhaseResult::Step(WorkflowStep::WebSearch)),
        OrchestratorState::WebTelemetry
    );
    assert_eq!(
        next_phase(&p, PhaseResult::Step(WorkflowStep::Retriever)),
        OrchestratorState::KnowledgeRetrieval
    );
    assert_eq!(
        next_phase(&OrchestratorState::KnowledgeRetrieval, PhaseResult::Step(WorkflowStep::Specialist)),
        OrchestratorState::ExpertConsultation
    );
    assert_eq!(
        next_phase(&OrchestratorState::KnowledgeRetrieval, PhaseResult::Done),
        OrchestratorState::AdversarialConsensus
    );
    assert_eq!(
        next_phase(&OrchestratorState::AdversarialConsensus, PhaseResult::Done),
        OrchestratorState::Completed
    );
}

#[test]
fn a_failing_phase_fails_the_query() {
    let p = next_phase(
        &OrchestratorState::WebTelemetry,
        PhaseResult::Failure(MagiError::InferenceError("boom".to_string())),
    );
    assert_eq!(p, OrchestratorState::Failed("Inference failed: boom".to_string()));
    assert!(is_finished(&p));
    assert_eq!(next_phase(&p, PhaseResult::Done), p);
    assert!(!is_finished(&OrchestratorState::Routing));
    let e = failure_error("stopped");
    assert_eq!(e, MagiError::InternalError("stopped".to_string()));
}

#[test]
fn every_run_ends_within_seven_phases() {
    let results = [
        PhaseResult::Step(WorkflowStep::Vision),
        PhaseResult::Step(WorkflowStep::WebSearch),
        PhaseResult::Step(WorkflowStep::Specialist),
        PhaseResult::Done,
    ];
    for r in results.iter() {
        let mut p = OrchestratorState::Init;
        let mut n = 0;
        while !is_finished(&p) {
            p = next_phase(&p, r.clone());
            n += 1;
            assert!(n <= 7);
        }
        assert_eq!(p, OrchestratorState::Completed);
    }
}

#[test]
fn sessions_mask_the_query_and_live_under_vector_db() {
    let mut s = state("Contact alice@example.com at 010-1234-5678");
    assert!(begin_session(&mut s));
    assert_eq!(s.query, "Contact [EMAIL_HIDDEN] at [PHONE_HIDDEN]");
    assert!(!s.query.contains("alice@"));
    assert!(!begin_session(&mut s));
    assert_eq!(session_path("abc"), "vector_db/sessions/abc.json");
}

#[test]
fn long_queries_are_cut_for_intent_analysis() {
    assert_eq!(intent_query("short"), "short");
    let long = "a".repeat(3001);
    let cut = intent_query(&long);
    assert_eq!(cut, format!("{}... [TRUNCATED for intent analysis]", "a".repeat(3000)));
    assert_eq!(intent_query(&"b".repeat(3000)), "b".repeat(3000));
    assert_eq!(
        intent_prompt("Analyze: {query} / {query}", "q"),
        "Analyze: q / q"
    );
}

#[test]
fn intent_analysis_fills_the_state_with_defaults() {
    let mut s = state("Explain Pin");
    let a = IntentAnalysis {
        is_complex: None,
        needs_web: None,
        is_code: Some(true),
        domain: Some("code".to_string()),
        knowledge_cutoff_year: Some(None),
        context_retention: vec!["k1".to_string(), "k2".to_string()],
        pruning_rigor: None,
    };
    let unit = apply_intent(&mut s, &a);
    assert_eq!(unit, "DeepSeek-Coder (Gushnasaph)");
    assert!(s.is_complex);
    assert!(!s.needs_web);
    assert!(s.is_code);
    assert_eq!(s.detected_domain, Some("code".to_string()));
    assert_eq!(s.intent_vector.knowledge_cutoff_year, 2026);
    assert_eq!(s.context_retention, vec!["k1".to_string(), "k2".to_string()]);
    assert_eq!(s.pruning_rigor, "standard");
    assert_eq!(prioritized_unit(&Some("research".to_string())), "Phi-4 (Melchior)");
    assert_eq!(prioritized_unit(&None), "Gemma-3 (Balthasar)");
}

#[test]
fn routing_prefers_images_then_the_web() {
    let mut s = state("q");
    assert_eq!(route(&s), WorkflowStep::Retriever);
    s.needs_web = true;
    assert_eq!(route(&s), WorkflowStep::WebSearch);
    s.image_paths.push("a.png".to_string());
    assert_eq!(route(&s), WorkflowStep::Vision);
    assert_eq!(apply_vision(&mut s, "a cat"), WorkflowStep::WebSearch);
    assert_eq!(s.rag_context, "[MELCHIOR VISUAL ANALYSIS]:\na cat\n\n");
}

#[test]
fn web_results_are_archived_and_counted() {
    let mut s = state("q");
    let mut tally = WebTally::new();
    let t = record_web_result(&mut s, &mut tally, "rust pin", &"x".repeat(4096));
    assert_eq!(tally.total_bytes, 4096);
    assert_eq!(tally.doc_count, 1);
    assert_eq!(t.documents, 1);
    assert_eq!(t.size_kb, 4);
    assert_eq!(t.est_tokens, 1024);
    assert_eq!(t.current_query, "rust pin");
    assert_eq!(s.search_archive.len(), 1);
    assert_eq!(s.search_archive[0].query, "rust pin");
    assert_eq!(web_source("rust pin"), "WebSearch:rust pin");
    assert_eq!(
        web_context(3, 5),
        "Archive size: 3 entries, Dynamic vectors cache: 5 chunks"
    );
}

#[test]
fn web_queries_come_from_the_logic_map() {
    let mut s = state("fallback query");
    s.logic_map = "[\"a\", \"b\"]".to_string();
    assert_eq!(web_queries(&s), vec!["a".to_string(), "b".to_string()]);
    s.logic_map = "not json".to_string();
    assert_eq!(web_queries(&s), vec!["fallback query".to_string()]);
}

#[test]
fn retrieval_builds_the_context() {
    let mut s = state("q");
    s.rag_context = "R".to_string();
    s.web_context = "W".to_string();
    let step = apply_retrieval(
        &mut s,
        &vec!["doc1".to_string(), "doc2".to_string()],
        &vec!["mem".to_string()],
    );
    assert_eq!(step, WorkflowStep::AdversarialConsensus);
    assert_eq!(
        s.rag_context,
        "R\nW\n\n[HIST]:\n[Local]: doc1\n\n[Local]: doc2\n\nmem"
    );
    s.detected_domain = Some("code".to_string());
    assert_eq!(apply_retrieval(&mut s, &vec![], &vec![]), WorkflowStep::Specialist);
    assert_eq!(specialist_status(&s), "[MAGI] Engaging specialist: code...");
}

#[test]
fn the_expert_appends_its_analysis() {
    let mut s = state("q");
    s.rag_context = "ctx".to_string();
    assert_eq!(specialist_prompt(&s), "Specialist Analysis for: q\nContext: ctx");
    assert_eq!(apply_expert(&mut s, "A"), WorkflowStep::AdversarialConsensus);
    assert_eq!(s.rag_context, "ctx\n\n[EXPERT]:\nA");
}

#[test]
fn memflow_prunes_by_rigor() {
    assert_eq!(MemFlow::pruning_profile("aggressive"), (PruningLevel::Aggressive, 3));
    assert_eq!(MemFlow::pruning_profile("standard"), (PruningLevel::Standard, 6));
    assert_eq!(MemFlow::pruning_profile("other"), (PruningLevel::Lenient, 10));
    let mut s = state("q");
    s.rag_context = "old".to_string();
    assert!(!MemFlow::apply_semantic_recall(&mut s, &vec![]));
    assert_eq!(s.rag_context, "old");
    assert!(MemFlow::apply_semantic_recall(&mut s, &vec!["a".to_string(), "b".to_string()]));
    assert_eq!(
        s.rag_context,
        "=== MEMFLOW SEMANTIC CONTEXT ===\n\na\n\nb\n==============================="
    );
}

#[test]
fn long_queries_are_pruned_to_4000_characters() {
    let mut s = state(&"z".repeat(4001));
    assert!(MemFlow::prune_query(&mut s));
    assert_eq!(s.query.len(), 4000);
    let mut short = state("short");
    assert!(!MemFlow::prune_query(&mut short));
    assert_eq!(short.query, "short");
    // 2000 characters of three bytes: more than 4000 bytes, fewer than 4000 characters.
    let wide = "가".repeat(2000);
    let mut w = state(&wide);
    assert!(MemFlow::prune_query(&mut w));
    assert_eq!(w.query, wide);
    let mut t = state("q");
    t.rag_context = "x".repeat(2048);
    let m = MemFlow::telemetry(&t);
    assert_eq!(m.size_kb, 2);
    assert_eq!(m.est_tokens, 512);
    assert_eq!(m.documents, 0);
}

#[test]
fn retries_stop_at_the_budget() {
    let mut b = RetryBudget::new(2);
    assert!(b.may_try());
    b.failed("first".to_string());
    assert!(b.may_try());
    b.failed("second".to_string());
    assert!(!b.may_try());
    assert_eq!(b.attempts, 2);
    assert_eq!(b.exhausted_error(), MagiError::InferenceError("second".to_string()));
    let none = RetryBudget::new(0);
    assert!(!none.may_try());
    assert_eq!(none.exhausted_error(), MagiError::InferenceError("Max retries reached".to_string()));
}

#[test]
fn error_messages_match_their_display() {
    assert_eq!(MagiError::ModelLoadError("m".to_string()).message(), "Model loading failed: m");
    assert_eq!(MagiError::DatabaseError("d".to_string()).message(), "Database error: d");
    assert_eq!(MagiError::TimeoutError("t".to_string()).message(), "Network timeout: t");
    assert_eq!(MagiError::InternalError("i".to_string()).message(), "Internal system error: i");
    assert_eq!(
        MagiError::WorkflowError { step: WorkflowStep::Drafter, message: "x".to_string() }.message(),
        "Workflow error at step Drafter: x"
    );
    assert_eq!(ConsensusRigor::default(), ConsensusRigor::Standard);
}

#[test]
fn the_search_strategy_is_kept_as_json() {
    let mut s = state("q");
    record_strategy(&mut s, &vec!["a".to_string(), "b \"c\"".to_string()]);
    assert_eq!(s.logic_map, "[\"a\",\"b \\\"c\\\"\"]");
    assert_eq!(web_queries(&s), vec!["a".to_string(), "b \"c\"".to_string()]);
}

#[test]
fn intent_answer_is_read_into_the_state() {
    let mut s = state("What changed in 2025?");
    s.context_retention = vec!["old".to_string()];
    let answer = r#"{"is_complex": false, "needs_web": true, "domain": "research",
        "context_retention": ["a", 1, "b", null], "pruning_rigor": "strict",
        "intent_vector": {"knowledge_cutoff_year": 2023, "logic_weight": 0.7}}"#;
    let (step, unit) = analyse_intent(&mut s, answer);
    assert_eq!(step, WorkflowStep::WebSearch);
    assert_eq!(unit, Some("Phi-4 (Melchior)"));
    assert!(!s.is_complex);
    assert!(s.needs_web);
    assert!(!s.is_code);
    assert_eq!(s.detected_domain, Some("research".to_string()));
    assert_eq!(s.intent_vector.knowledge_cutoff_year, 2023);
    assert_eq!(s.context_retention, vec!["a".to_string(), "b".to_string()]);
    assert_eq!(s.pruning_rigor, "strict");
}

#[test]
fn intent_answer_with_missing_members_takes_the_defaults() {
    let mut s = state("q");
    s.intent_vector.knowledge_cutoff_year = 1999;
    s.context_retention = vec!["old".to_string()];
    let (step, unit) = analyse_intent(&mut s, r#"{"domain": "code", "intent_vector": {}}"#);
    assert_eq!(step, WorkflowStep::Retriever);
    assert_eq!(unit, Some("DeepSeek-Coder (Gushnasaph)"));
    assert!(s.is_complex);
    assert!(!s.needs_web);
    assert_eq!(s.intent_vector.knowledge_cutoff_year, 2026);
    assert!(s.context_retention.is_empty());
    assert_eq!(s.pruning_rigor, "standard");
    let mut t = state("q");
    t.intent_vector.knowledge_cutoff_year = 1999;
    let (_, unit) = analyse_intent(&mut t, r#"{"is_code": true}"#);
    assert_eq!(unit, Some("Gemma-3 (Balthasar)"));
    assert_eq!(t.intent_vector.knowledge_cutoff_year, 1999);
    assert!(t.is_code);
}

#[test]
fn intent_answer_that_is_not_json_leaves_the_state() {
    let mut s = state("q");
    s.needs_web = true;
    s.context_retention = vec!["keep".to_string()];
    let (step, unit) = analyse_intent(&mut s, "I think this is about code.");
    assert_eq!(step, WorkflowStep::WebSearch);
    assert_eq!(unit, None);
    assert!(s.needs_web);
    assert_eq!(s.context_retention, vec!["keep".to_string()]);
    assert_eq!(s.pruning_rigor, state("q").pruning_rigor);
}

#[test]
fn chosen_queries_are_the_ones_searched() {
    let mut s = state("fallback");
    let queries = vec![
        "tab\there".to_string(),
        "line\nbreak \\ back".to_string(),
        "ünïcode – ✓".to_string(),
        "\u{1}".to_string(),
        String::new(),
    ];
    record_strategy(&mut s, &queries);
    assert_eq!(web_queries(&s), queries);
    let mut t = state("fallback");
    record_strategy(&mut t, &Vec::new());
    assert_eq!(t.logic_map, "[]");
    assert!(web_queries(&t).is_empty());
}

#[test]
fn chosen_queries_are_written_as_compact_json() {
    let mut s = state("q");
    record_strategy(&mut s, &vec!["a\n\u{1}\u{7f}".to_string(), "\\\"".to_string(), "é".to_string()]);
    assert_eq!(s.logic_map, "[\"a\\n\\u0001\u{7f}\",\"\\\\\\\"\",\"é\"]");
}
