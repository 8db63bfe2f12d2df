use magi_core::elite::{
    advance, execution_error, is_code_query, oai_stream_tokens, retrieval_context, work_for,
    AgentState, DocumentChunk, EliteRagManager, RetrievedChunk, StepOutcome, Work, WorkflowStep,
};

fn run(state: &mut AgentState, native: bool, chunks: Vec<RetrievedChunk>, draft: &str) -> Result<u32, String> {
    let mut step = WorkflowStep::Router;
    let mut steps = 0;
    while step != WorkflowStep::End {
        let outcome = match work_for(step, state, native) {
            Work::Nothing => StepOutcome::Nothing,
            Work::Retrieve { .. } => StepOutcome::Retrieved(chunks.clone()),
            Work::Generate { .. } => StepOutcome::Drafted(draft.to_string()),
        };
        step = advance(state, step, native, outcome)?;
        steps += 1;
    }
    Ok(steps)
}

#[test]
fn a_full_run_synthesizes_the_draft() {
    let mut s = AgentState::for_request("Explain Rust ownership".to_string(), None);
    assert_eq!(s.session_id, "new-rust-session");
    let chunks = vec![RetrievedChunk {
        source: "book.md".to_string(),
        similarity: "0.87".to_string(),
        text: "Ownership rules".to_string(),
    }];
    let steps = run(&mut s, false, chunks, "Draft answer").unwrap();
    assert_eq!(steps, 7);
    assert!(s.is_complex);
    assert!(s.is_code);
    assert_eq!(s.rag_context, "[Source: book.md (Sim: 0.87)] Ownership rules");
    assert_eq!(s.logic_map, "Strategy: Native Rust RAG & BL Integration.");
    assert_eq!(s.critique_gemma, "Context retrieval from Rust RAG is integrated.");
    assert_eq!(s.critique_smollm, "Workflow is fully native Rust.");
    assert_eq!(s.devils_critique, "Verify embedding dimension alignment.");
    assert_eq!(s.conflict_summary, "RAG-driven answer refined.");
    assert!(!s.needs_loop);
    assert_eq!(
        s.final_answer,
        "Rust Pure BL Executed.\n\nSummary: RAG-driven answer refined.\n\nAnswer: Draft answer"
    );
}

#[test]
fn images_add_the_vision_step() {
    let mut s = AgentState::for_request("What is this?".to_string(), Some("s-9".to_string()));
    s.image_paths.push("cat.png".to_string());
    assert_eq!(run(&mut s, true, vec![], "d").unwrap(), 8);
    assert_eq!(s.session_id, "s-9");
    assert!(!s.is_code);
    assert_eq!(s.rag_context, "No relevant context found in Rust RAG.");
}

#[test]
fn the_drafter_prompt_and_budget() {
    let mut s = AgentState::default();
    s.query = "Q".to_string();
    s.rag_context = "C".to_string();
    match work_for(WorkflowStep::Drafter, &s, true) {
        Work::Generate { prompt, max_tokens } => {
            assert_eq!(prompt, "Context: C\n\nQuestion: Q\n\nAssistant:");
            assert_eq!(max_tokens, 512);
        }
        other => panic!("unexpected {:?}", other),
    }
    match work_for(WorkflowStep::Drafter, &s, false) {
        Work::Generate { max_tokens, .. } => assert_eq!(max_tokens, 1024),
        other => panic!("unexpected {:?}", other),
    }
    match work_for(WorkflowStep::Retriever, &s, false) {
        Work::Retrieve { query, top_k } => {
            assert_eq!(query, "Q");
            assert_eq!(top_k, 3);
        }
        other => panic!("unexpected {:?}", other),
    }
}

#[test]
fn failures_end_the_run_with_their_message() {
    let mut s = AgentState::default();
    assert_eq!(
        advance(&mut s, WorkflowStep::Retriever, false, StepOutcome::EmbeddingFailed("e".to_string())),
        Err("Embedding Error: e".to_string())
    );
    assert_eq!(
        advance(&mut s, WorkflowStep::Retriever, false, StepOutcome::SearchFailed("s".to_string())),
        Err("RAG Search Error: s".to_string())
    );
    assert_eq!(
        advance(&mut s, WorkflowStep::Drafter, true, StepOutcome::DraftFailed("n".to_string())),
        Err("Native LLM Error: n".to_string())
    );
    assert_eq!(
        advance(&mut s, WorkflowStep::Drafter, false, StepOutcome::DraftFailed("r".to_string())),
        Err("Remote LLM Error: r".to_string())
    );
    assert_eq!(execution_error("x"), "Execution Error: x");
}

#[test]
fn a_query_that_is_not_complex_gets_the_simple_response() {
    let mut s = AgentState::default();
    s.is_complex = false;
    assert_eq!(
        advance(&mut s, WorkflowStep::Retriever, false, StepOutcome::Retrieved(vec![])),
        Ok(WorkflowStep::SimpleResponse)
    );
    assert_eq!(advance(&mut s, WorkflowStep::SimpleResponse, false, StepOutcome::Nothing), Ok(WorkflowStep::End));
    assert_eq!(s.final_answer, "Simple response via Rust core.");
}

#[test]
fn code_queries_are_detected_in_any_case() {
    assert!(is_code_query("Write RUST please"));
    assert!(is_code_query("some Code"));
    assert!(!is_code_query("poetry"));
}

#[test]
fn retrieved_chunks_are_cited() {
    let c = vec![
        RetrievedChunk { source: "a".to_string(), similarity: "0.90".to_string(), text: "x".to_string() },
        RetrievedChunk { source: "b".to_string(), similarity: "0.50".to_string(), text: "y".to_string() },
    ];
    assert_eq!(
        retrieval_context(&c),
        "[Source: a (Sim: 0.90)] x\n\n[Source: b (Sim: 0.50)] y"
    );
}

#[test]
fn the_knowledge_base_ranks_by_key() {
    let mut m = EliteRagManager::new();
    m.add_chunk("t1".to_string(), "s".to_string(), vec![1, 2]);
    m.extend_chunks(vec![
        DocumentChunk { text: "t2".to_string(), source: "s".to_string(), embedding: vec![3] },
        DocumentChunk { text: "t3".to_string(), source: "s".to_string(), embedding: vec![] },
    ]);
    assert_eq!(m.len(), 3);
    assert_eq!(m.chunks[2].text, "t3");
    let keys = vec![10, 30, 20];
    let admitted = vec![true, true, false];
    assert_eq!(m.search(&keys, &admitted, true, 3), vec![1, 0]);
    assert_eq!(m.search(&keys, &admitted, true, 1), vec![1]);
    assert_eq!(m.search(&keys, &admitted, false, 3), Vec::<usize>::new());
    let empty = EliteRagManager::new();
    assert_eq!(empty.search(&vec![], &vec![], true, 3), Vec::<usize>::new());
}

#[test]
fn stream_pieces_yield_their_tokens() {
    let piece = "data: {\"choices\":[{\"delta\":{\"content\":\"Hel\"}}]}\n\
                 data: data: {\"choices\":[{\"delta\":{\"content\":\"lo\"}}]}\n\
                 : keep-alive\n\
                 data: {\"choices\":[{\"delta\":{}}]}\n\
                 data: [DONE]\n\
                 data: {\"choices\":[{\"delta\":{\"content\":\"late\"}}]}\n";
    assert_eq!(oai_stream_tokens(piece), vec!["Hel".to_string(), "lo".to_string()]);
    assert!(oai_stream_tokens("").is_empty());
}
