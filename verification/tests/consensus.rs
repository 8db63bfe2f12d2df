use magi_core::consensus::{
    consensus_prompt, consensus_reached, consensus_threshold, critic_label, critique_prompt,
    critique_source, cycle_status, find_unit, is_critic, max_loops, parse_consensus_score,
    protocol_status, record_critiques, record_draft, refined_draft_source, refinement_status,
    search_queries, worth_remembering, AdversarialLoop, LoopPhase,
};
use magi_core::domain::{AgentState, ConsensusRigor, MagiError};

#[test]
fn scores_are_read_from_the_first_score_line() {
    assert_eq!(parse_consensus_score("Looks good.\nSCORE: 95\nSCORE: 10"), 95);
    assert_eq!(parse_consensus_score("FINAL SCORE: 12:  88 "), 88);
    assert_eq!(parse_consensus_score("SCORE: high"), 0);
    assert_eq!(parse_consensus_score("no score here"), 0);
}

#[test]
fn rigor_sets_the_bar() {
    assert_eq!(max_loops(ConsensusRigor::Weak), 1);
    assert_eq!(max_loops(ConsensusRigor::Standard), 2);
    assert_eq!(max_loops(ConsensusRigor::Strong), 4);
    assert_eq!(consensus_threshold(ConsensusRigor::Strong), 90);
    assert!(consensus_reached(ConsensusRigor::Weak, "SCORE: 0"));
    assert!(consensus_reached(ConsensusRigor::Standard, "SCORE: 75"));
    assert!(!consensus_reached(ConsensusRigor::Standard, "SCORE: 74"));
    assert!(!consensus_reached(ConsensusRigor::Strong, "SCORE: 89"));
    assert!(consensus_reached(ConsensusRigor::Strong, "SCORE: 95"));
}

#[test]
fn every_unit_but_melchior_critiques() {
    assert!(!is_critic("Melchior"));
    assert!(is_critic("Phi-4 (Melchior)"));
    assert!(is_critic("Casper"));
    assert_eq!(critic_label("Casper"), "Casper (Critic)");
    assert_eq!(
        critique_prompt("DeepSeek-R1 (Casper)", "D"),
        "Draft: D\n\nYour Task: Evaluate the balance of viewpoints and check for missing consensus vectors.. Provide one actionable improvement to elevate its authority."
    );
    assert_eq!(
        critique_prompt("Other", "D"),
        "Draft: D\n\nYour Task: Identify the single most critical weakness in this draft.. Provide one actionable improvement to elevate its authority."
    );
}

#[test]
fn units_are_found_by_name_fragment() {
    let names = vec!["Phi-4 (Melchior)".to_string(), "Gemma-3 (Balthasar)".to_string()];
    assert_eq!(find_unit(&names, "Balthasar"), Ok(1));
    assert_eq!(
        find_unit(&names, "Casper"),
        Err(MagiError::InternalError("Unit matching 'Casper' not found".to_string()))
    );
}

#[test]
fn strategies_fall_back_to_the_query() {
    assert_eq!(
        search_queries("q", "[\"Technical Vector\", \"Social Impact\"]"),
        vec!["Technical Vector".to_string(), "Social Impact".to_string()]
    );
    assert_eq!(search_queries("q", "YES"), vec!["q".to_string()]);
}

#[test]
fn the_adversarial_loop_runs_at_most_its_cycles() {
    let mut l = AdversarialLoop::new(ConsensusRigor::Standard);
    l.draft_ready();
    let mut critiques = 0;
    while l.phase != LoopPhase::Finished {
        match l.phase {
            LoopPhase::Critiquing(_) => {
                critiques += 1;
                l.critiques_ready();
            }
            LoopPhase::Scoring(_) => l.score_ready(false),
            LoopPhase::Refining(_) => l.refinement_ready(),
            _ => unreachable!(),
        }
    }
    assert_eq!(critiques, 2);
    let mut weak = AdversarialLoop::new(ConsensusRigor::Weak);
    weak.draft_ready();
    weak.critiques_ready();
    assert_eq!(weak.phase, LoopPhase::Finished);
    let mut strong = AdversarialLoop::new(ConsensusRigor::Strong);
    strong.draft_ready();
    strong.critiques_ready();
    strong.score_ready(true);
    assert_eq!(strong.phase, LoopPhase::Finished);
}

#[test]
fn statuses_and_sources() {
    assert_eq!(protocol_status(ConsensusRigor::Strong), "[MAGI] Initializing Adversarial Protocol (Rigor: Strong)");
    assert_eq!(cycle_status(1, 2), "[MAGI] Loop 1/2 - Cross-Unit Adversarial Auditing");
    assert_eq!(refinement_status(3), "[MAGI] Cycle 3 - Applying adversarial refinements...");
    assert_eq!(refined_draft_source(2), "Melchior (Refined Draft - Cycle 2)");
    assert_eq!(critique_source("Casper"), "Casper (Critique)");
    assert!(worth_remembering(" x "));
    assert!(!worth_remembering(" \n "));
}

#[test]
fn drafts_and_critiques_are_recorded() {
    let mut s = AgentState::new("s".to_string(), "q".to_string());
    record_draft(&mut s, "d1");
    record_draft(&mut s, "d2");
    assert_eq!(s.revision_history, vec!["d1".to_string(), "d2".to_string()]);
    let c = vec![("Casper".to_string(), "c1".to_string())];
    record_critiques(&mut s, &c);
    record_critiques(&mut s, &c);
    assert_eq!(s.critique_logs.len(), 2);
    assert_eq!(s.critique_logs[1], ("Casper".to_string(), "c1".to_string()));
    let p = consensus_prompt("D", &c);
    assert!(p.contains("Draft: D"));
    assert!(p.contains("Casper: c1"));
    assert!(p.ends_with("Format: SCORE: [number]"));
}
