//! The MAGI workflow: the phases a query goes through (routing, vision,
//! web search, retrieval, expert consultation, adversarial consensus), the
//! decisions between them, and what each phase writes into the agent
//! state. The model and search calls are made by the caller, which hands
//! their results to the functions here.
use vstd::prelude::*;
use crate::domain::{
    AgentState, AgentStateView, IntentVector, MagiError, MagiTelemetry, SearchResultEntry, WorkflowStep,
    archive_view, error_text,
};
use crate::json::{json_intent, json_string_array, opt_str, opt_strs, parse_string_array, read_intent};
use crate::markdown::{markdown_sections, section_views, MarkdownChunker, MarkdownSection};
use crate::pii::{PiiService, pii_masked};
use crate::text::{
    chars_of, concat2, concat3, dec, first_chars, str_eq, join, lemma_views_push, join_strings, push_str, replace_all, replace_str,
    string_of_range, trim, trim_str, u64_to_dec, utf8_len, utf8_len_chars, utf8_len_str, utf8_width,
    views,
};

verus! {

// ---------------------------------------------------------------------
// Phases
// ---------------------------------------------------------------------

/// The phases of the orchestration of one query.
#[derive(Debug, Clone, PartialEq, Eq)]
pub enum OrchestratorState {
    Init,
    Routing,
    VisualAnalysis,
    KnowledgeRetrieval,
    WebTelemetry,
    ExpertConsultation,
    AdversarialConsensus,
    Completed,
    Failed(String),
}

/// What a phase ended with: the step it asks for next, plain success, or
/// an error.
#[derive(Debug, Clone, PartialEq, Eq)]
pub enum PhaseResult {
    Step(WorkflowStep),
    Done,
    Failure(MagiError),
}

/// A phase as specifications see it: a failure carries the text of its
/// message.
pub ghost enum Phase {
    Init,
    Routing,
    VisualAnalysis,
    KnowledgeRetrieval,
    WebTelemetry,
    ExpertConsultation,
    AdversarialConsensus,
    Completed,
    Failed(Seq<char>),
}

/// How specifications see a phase.
pub open spec fn phase_of(p: OrchestratorState) -> Phase {
    match p {
        OrchestratorState::Init => Phase::Init,
        OrchestratorState::Routing => Phase::Routing,
        OrchestratorState::VisualAnalysis => Phase::VisualAnalysis,
        OrchestratorState::KnowledgeRetrieval => Phase::KnowledgeRetrieval,
        OrchestratorState::WebTelemetry => Phase::WebTelemetry,
        OrchestratorState::ExpertConsultation => Phase::ExpertConsultation,
        OrchestratorState::AdversarialConsensus => Phase::AdversarialConsensus,
        OrchestratorState::Completed => Phase::Completed,
        OrchestratorState::Failed(m) => Phase::Failed(m@),
    }
}

/// The phase after `p` once it ended with `r`.
pub open spec fn phase_after(p: Phase, r: PhaseResult) -> Phase {
    match (p, r) {
        (Phase::Completed, _) => Phase::Completed,
        (Phase::Failed(m), _) => Phase::Failed(m),
        (Phase::Init, _) => Phase::Routing,
        (_, PhaseResult::Failure(e)) => Phase::Failed(error_text(e)),
        (Phase::Routing, PhaseResult::Step(WorkflowStep::Vision)) => Phase::VisualAnalysis,
        (Phase::Routing, PhaseResult::Step(WorkflowStep::WebSearch)) => Phase::WebTelemetry,
        (Phase::Routing, _) => Phase::KnowledgeRetrieval,
        (Phase::VisualAnalysis, PhaseResult::Step(WorkflowStep::WebSearch)) => Phase::WebTelemetry,
        (Phase::VisualAnalysis, _) => Phase::KnowledgeRetrieval,
        (Phase::WebTelemetry, _) => Phase::KnowledgeRetrieval,
        (Phase::KnowledgeRetrieval, PhaseResult::Step(WorkflowStep::Specialist)) =>
            Phase::ExpertConsultation,
        (Phase::KnowledgeRetrieval, _) => Phase::AdversarialConsensus,
        (Phase::ExpertConsultation, _) => Phase::AdversarialConsensus,
        (Phase::AdversarialConsensus, _) => Phase::Completed,
    }
}

/// The phase that follows `current` once it ended with `result`: a
/// failure of any running phase fails the query with the error's text;
/// routing leads to vision, web search or retrieval as asked, vision to
/// web search or retrieval, web search to retrieval, retrieval to the
/// expert when asked and otherwise to the consensus, the expert to the
/// consensus, the consensus to completion. `Completed` and `Failed` stay.
pub fn next_phase(current: &OrchestratorState, result: PhaseResult) -> (next: OrchestratorState)
    ensures
        phase_of(next) == phase_after(phase_of(*current), result),
{
    match current {
        OrchestratorState::Completed => OrchestratorState::Completed,
        OrchestratorState::Failed(m) => OrchestratorState::Failed(m.clone()),
        OrchestratorState::Init => OrchestratorState::Routing,
        _ => {
            if let PhaseResult::Failure(e) = &result {
                let m = e.message();
                return OrchestratorState::Failed(m);
            }
            match current {
                OrchestratorState::Routing => match result {
                    PhaseResult::Step(WorkflowStep::Vision) => OrchestratorState::VisualAnalysis,
                    PhaseResult::Step(WorkflowStep::WebSearch) => OrchestratorState::WebTelemetry,
                    _ => OrchestratorState::KnowledgeRetrieval,
                },
                OrchestratorState::VisualAnalysis => match result {
                    PhaseResult::Step(WorkflowStep::WebSearch) => OrchestratorState::WebTelemetry,
                    _ => OrchestratorState::KnowledgeRetrieval,
                },
                OrchestratorState::WebTelemetry => OrchestratorState::KnowledgeRetrieval,
                OrchestratorState::KnowledgeRetrieval => match result {
                    PhaseResult::Step(WorkflowStep::Specialist) =>
                        OrchestratorState::ExpertConsultation,
                    _ => OrchestratorState::AdversarialConsensus,
                },
                OrchestratorState::ExpertConsultation => OrchestratorState::AdversarialConsensus,
                _ => OrchestratorState::Completed,
            }
        },
    }
}

/// Whether the orchestration of the query is over.
pub fn is_finished(p: &OrchestratorState) -> (b: bool)
    ensures
        b == (p is Completed || p is Failed),
{
    match p {
        OrchestratorState::Completed | OrchestratorState::Failed(_) => true,
        _ => false,
    }
}

/// How many phases at most are left from `p`.
pub open spec fn phases_left(p: Phase) -> nat {
    match p {
        Phase::Init => 7,
        Phase::Routing => 6,
        Phase::VisualAnalysis => 5,
        Phase::WebTelemetry => 4,
        Phase::KnowledgeRetrieval => 3,
        Phase::ExpertConsultation => 2,
        Phase::AdversarialConsensus => 1,
        Phase::Completed => 0,
        Phase::Failed(_) => 0,
    }
}

/// Every query's orchestration ends: each phase that is not over is
/// followed by one with fewer phases left, so from `Init` at most seven
/// phases run; `Completed` and `Failed` are never left.
pub proof fn orchestration_terminates(p: Phase, r: PhaseResult)
    ensures
        !(p is Completed || p is Failed) ==> phases_left(phase_after(p, r)) < phases_left(p),
        p is Completed ==> phase_after(p, r) is Completed,
        p is Failed ==> phase_after(p, r) == p,
{
}

/// A failing phase fails the whole query: from any phase that is still
/// running, a failure leads to `Failed` with the error's text.
pub proof fn failure_fails_query(p: Phase, e: MagiError)
    requires
        !(p is Completed || p is Failed || p is Init),
    ensures
        phase_after(p, PhaseResult::Failure(e)) == Phase::Failed(error_text(e)),
{
}

/// The phase that runs a requested step.
pub open spec fn phase_running(s: WorkflowStep) -> Option<Phase> {
    match s {
        WorkflowStep::Vision => Some(Phase::VisualAnalysis),
        WorkflowStep::WebSearch => Some(Phase::WebTelemetry),
        WorkflowStep::Retriever => Some(Phase::KnowledgeRetrieval),
        WorkflowStep::Specialist => Some(Phase::ExpertConsultation),
        _ => None,
    }
}

/// The order in which the phases of a query run.
pub open spec fn phase_rank(p: Phase) -> int {
    match p {
        Phase::Init => 0,
        Phase::Routing => 1,
        Phase::VisualAnalysis => 2,
        Phase::WebTelemetry => 3,
        Phase::KnowledgeRetrieval => 4,
        Phase::ExpertConsultation => 5,
        Phase::AdversarialConsensus => 6,
        Phase::Completed => 7,
        Phase::Failed(_) => 8,
    }
}

/// A requested step is honoured: routing may ask for vision, web search or
/// retrieval, vision for web search or retrieval, web search for retrieval
/// and retrieval for the expert; when a phase asks for one of these, the
/// phase that runs that step comes next. In particular a query with an
/// image whose intent needs the web goes from the visual analysis to the
/// web search.
pub proof fn requested_step_runs_next(p: Phase, s: WorkflowStep)
    requires
        p is Routing || p is VisualAnalysis || p is WebTelemetry || p is KnowledgeRetrieval,
        phase_running(s) matches Some(q) && phase_rank(p) < phase_rank(q),
        p is KnowledgeRetrieval <==> s is Specialist,
    ensures
        Some(phase_after(p, PhaseResult::Step(s))) == phase_running(s),
{
}

/// The web search runs whenever it is asked for before it: after routing
/// and after the visual analysis alike, never skipped to retrieval.
pub proof fn web_search_is_never_skipped(p: Phase)
    requires
        p is Routing || p is VisualAnalysis,
    ensures
        phase_after(p, PhaseResult::Step(WorkflowStep::WebSearch)) == Phase::WebTelemetry,
{
}

/// Phases only move forward: a running phase that does not fail is
/// followed by a later one. Without a request for an optional phase
/// (vision or web search from routing, web search from vision, the expert
/// from retrieval), the query goes on to the next phase that always runs:
/// routing after `Init`, retrieval, the consensus, then completion.
pub proof fn phases_move_forward(p: Phase, r: PhaseResult)
    requires
        !(p is Completed || p is Failed),
        !(r is Failure),
    ensures
        phase_rank(phase_after(p, r)) > phase_rank(p),
        p is Init ==> phase_after(p, r) == Phase::Routing,
        p is Routing && r != PhaseResult::Step(WorkflowStep::Vision) && r != PhaseResult::Step(
            WorkflowStep::WebSearch,
        ) ==> phase_after(p, r) == Phase::KnowledgeRetrieval,
        p is VisualAnalysis && r != PhaseResult::Step(WorkflowStep::WebSearch) ==> phase_after(p, r)
            == Phase::KnowledgeRetrieval,
        p is WebTelemetry ==> phase_after(p, r) == Phase::KnowledgeRetrieval,
        p is KnowledgeRetrieval && r != PhaseResult::Step(WorkflowStep::Specialist) ==> phase_after(p, r)
            == Phase::AdversarialConsensus,
        p is ExpertConsultation ==> phase_after(p, r) == Phase::AdversarialConsensus,
        p is AdversarialConsensus ==> phase_after(p, r) == Phase::Completed,
{
}

/// The error the orchestrator reports for a failed query.
pub fn failure_error(message: &str) -> (e: MagiError)
    ensures
        e matches MagiError::InternalError(m) && m@ == message@,
{
    MagiError::InternalError(message.to_owned())
}

// ---------------------------------------------------------------------
// Session
// ---------------------------------------------------------------------

/// Masks the personal data of the query before any unit sees it; tells
/// whether the query changed.
pub fn begin_session(state: &mut AgentState) -> (changed: bool)
    ensures
        final(state)@ == (AgentStateView { query: pii_masked(old(state).query@), ..old(state)@ }),
        final(state).query@ == pii_masked(old(state).query@),
        changed == (final(state).query@ != old(state).query@),
        final(state).session_id@ == old(state).session_id@,
{
    let masked = PiiService::mask_all_sensitive(state.query.as_str());
    let changed = !string_eq(&masked, &state.query);
    state.query = masked;
    changed
}

fn string_eq(a: &String, b: &String) -> (r: bool)
    ensures
        r == (a@ == b@),
{
    let av = chars_of(a.as_str());
    let bv = chars_of(b.as_str());
    if av.len() != bv.len() {
        return false;
    }
    let mut i: usize = 0;
    while i < av.len()
        invariant
            i <= av.len(),
            av.len() == bv.len(),
            av@ == a@,
            bv@ == b@,
            forall|k: int| 0 <= k < i ==> av@[k] == bv@[k],
        decreases av.len() - i,
    {
        if av[i] != bv[i] {
            return false;
        }
        i += 1;
    }
    assert(av@ =~= bv@);
    true
}

/// Where a session's memory is kept.
pub fn session_path(session_id: &str) -> (p: String)
    ensures
        p@ == "vector_db/sessions/"@ + session_id@ + ".json"@,
{
    concat3("vector_db/sessions/", session_id, ".json")
}

// ---------------------------------------------------------------------
// Routing
// ---------------------------------------------------------------------

/// The status shown while the intent is analysed.
pub const ROUTER_STATUS: &'static str = "[MAGI] Analyzing system intent...";

/// The query as the intent analyser sees it: its first 3000 bytes and a
/// truncation mark when it is longer.
pub open spec fn intent_query_text(q: Seq<char>, k: int) -> Seq<char> {
    if utf8_len(q) > 3000 {
        q.take(k) + "... [TRUNCATED for intent analysis]"@
    } else {
        q
    }
}

proof fn lemma_utf8_len_take_step(c: Seq<char>, k: int)
    requires
        0 <= k < c.len(),
    ensures
        utf8_len(c.take(k + 1)) == utf8_len(c.take(k)) + utf8_width(c[k]),
{
    assert(c.take(k + 1).drop_last() =~= c.take(k));
}

/// The query as the intent analyser sees it: a query of more than 3000
/// bytes is cut after its first 3000 bytes, which must end on a character
/// boundary, and marked as truncated.
pub fn intent_query(query: &str) -> (r: String)
    requires
        utf8_len(query@) > 3000 ==> exists|k: int|
            0 <= k <= query@.len() && utf8_len(#[trigger] query@.take(k)) == 3000,
    ensures
        exists|k: int|
            0 <= k <= query@.len() && (utf8_len(query@) > 3000 ==> utf8_len(query@.take(k))
                == 3000) && r@ == intent_query_text(query@, k),
{
    let v = chars_of(query);
    let total = utf8_len_chars(&v);
    if total <= 3000 {
        assert(intent_query_text(query@, 0) == query@);
        return query.to_owned();
    }
    let mut k: usize = 0;
    let mut n: u128 = 0;
    while k < v.len() && n < 3000
        invariant
            k <= v.len(),
            v@ == query@,
            n as nat == utf8_len(v@.take(k as int)),
            forall|i: int| 0 <= i < k ==> utf8_len(#[trigger] v@.take(i)) < 3000,
        decreases v.len() - k,
    {
        proof {
            lemma_utf8_len_take_step(v@, k as int);
            crate::text::lemma_utf8_len_bound(v@.take(k as int));
        }
        let u = v[k] as u32;
        let w: u128 = if u < 0x80 {
            1
        } else if u < 0x800 {
            2
        } else if u < 0x10000 {
            3
        } else {
            4
        };
        n = n + w;
        k += 1;
    }
    proof {
        let kk = choose|k: int| 0 <= k <= query@.len() && utf8_len(#[trigger] query@.take(k)) == 3000;
        lemma_stop_point(v@, k as int, kk);
    }
    let head = string_of_range(&v, 0, k);
    assert(v@.subrange(0, k as int) =~= v@.take(k as int));
    let r = concat2(head.as_str(), "... [TRUNCATED for intent analysis]");
    assert(utf8_len(query@.take(k as int)) == 3000);
    assert(r@ == intent_query_text(query@, k as int));
    r
}

proof fn lemma_stop_point(c: Seq<char>, k: int, j: int)
    requires
        0 <= k <= c.len(),
        0 <= j <= c.len(),
        utf8_len(c.take(j)) == 3000,
        k == c.len() || utf8_len(c.take(k)) >= 3000,
        forall|i: int| 0 <= i < k ==> utf8_len(#[trigger] c.take(i)) < 3000,
    ensures
        utf8_len(c.take(k)) == 3000,
{
    if j > k {
        lemma_prefix_grows(c, k, j);
    }
}

proof fn lemma_prefix_grows(c: Seq<char>, k: int, j: int)
    requires
        0 <= k < j <= c.len(),
    ensures
        utf8_len(c.take(k)) < utf8_len(c.take(j)),
    decreases j - k,
{
    lemma_utf8_len_take_step(c, j - 1);
    if k < j - 1 {
        lemma_prefix_grows(c, k, j - 1);
    }
}

/// The intent analyser's prompt: the template with each `{query}` replaced
/// by the query as the analyser sees it.
pub fn intent_prompt(template: &str, query_for_analysis: &str) -> (p: String)
    ensures
        p@ == replace_all(template@, "{query}"@, query_for_analysis@),
{
    proof {
        reveal_strlit("{query}");
    }
    replace_str(template, "{query}", query_for_analysis)
}

/// The members of the intent analyser's JSON answer, each `None` when it is
/// absent or of another type. `knowledge_cutoff_year` is `None` when the
/// answer has no `intent_vector` object and `Some(None)` when the object
/// lacks an unsigned year. `context_retention` holds the strings of that
/// array, in order.
#[derive(Debug, Clone, PartialEq, Eq)]
pub struct IntentAnalysis {
    pub is_complex: Option<bool>,
    pub needs_web: Option<bool>,
    pub is_code: Option<bool>,
    pub domain: Option<String>,
    pub knowledge_cutoff_year: Option<Option<u64>>,
    pub context_retention: Vec<String>,
    pub pruning_rigor: Option<String>,
}

/// The views of an optional string.
pub open spec fn opt_view(o: Option<String>) -> Option<Seq<char>> {
    match o {
        Some(s) => Some(s@),
        None => None,
    }
}

/// The unit to load ahead for a domain.
pub open spec fn unit_for_domain(domain: Option<Seq<char>>) -> Seq<char> {
    if domain == Some("code"@) {
        "DeepSeek-Coder (Gushnasaph)"@
    } else if domain == Some("research"@) {
        "Phi-4 (Melchior)"@
    } else {
        "Gemma-3 (Balthasar)"@
    }
}

/// Which unit is loaded ahead: only the `research` domain preloads Phi-4
/// (Melchior), only the `code` domain preloads the coder (Gushnasaph), and
/// any other domain, or none, preloads Gemma-3 (Balthasar).
pub proof fn preload_follows_the_domain(d: Option<Seq<char>>)
    ensures
        unit_for_domain(d) == "Phi-4 (Melchior)"@ <==> d == Some("research"@),
        unit_for_domain(d) == "DeepSeek-Coder (Gushnasaph)"@ <==> d == Some("code"@),
        d != Some("research"@) && d != Some("code"@) ==> unit_for_domain(d) == "Gemma-3 (Balthasar)"@,
{
    reveal_strlit("Phi-4 (Melchior)");
    reveal_strlit("DeepSeek-Coder (Gushnasaph)");
    reveal_strlit("Gemma-3 (Balthasar)");
    reveal_strlit("research");
    reveal_strlit("code");
    assert("Phi-4 (Melchior)"@[0] != "Gemma-3 (Balthasar)"@[0]);
    assert("Phi-4 (Melchior)"@[0] != "DeepSeek-Coder (Gushnasaph)"@[0]);
    assert("Gemma-3 (Balthasar)"@[0] != "DeepSeek-Coder (Gushnasaph)"@[0]);
    assert("research"@ != "code"@) by {
        assert("research"@.len() != "code"@.len());
    }
}

/// The unit to load ahead for the detected domain: the coder for `code`,
/// Melchior for `research`, Balthasar otherwise.
pub fn prioritized_unit(domain: &Option<String>) -> (u: &'static str)
    ensures
        u@ == unit_for_domain(opt_view(*domain)),
{
    match domain {
        Some(d) => {
            if str_eq(d.as_str(), "code") {
                "DeepSeek-Coder (Gushnasaph)"
            } else if str_eq(d.as_str(), "research") {
                "Phi-4 (Melchior)"
            } else {
                "Gemma-3 (Balthasar)"
            }
        },
        None => "Gemma-3 (Balthasar)",
    }
}

/// Writes the intent analysis into the state: complexity (true when
/// absent), web need and code flag (false when absent), domain, the
/// knowledge cut-off year when the answer has an intent vector (2026 when
/// it lacks a year, cut to 32 bits), the retained context keys and the
/// pruning rigor (`standard` when absent). Returns the unit to load ahead.
pub fn apply_intent(state: &mut AgentState, a: &IntentAnalysis) -> (unit: &'static str)
    ensures
        final(state)@ == (AgentStateView {
            is_complex: match a.is_complex {
                Some(b) => b,
                None => true,
            },
            needs_web: match a.needs_web {
                Some(b) => b,
                None => false,
            },
            is_code: match a.is_code {
                Some(b) => b,
                None => false,
            },
            detected_domain: opt_view(a.domain),
            knowledge_cutoff_year: match a.knowledge_cutoff_year {
                Some(Some(y)) => y as u32,
                Some(None) => 2026,
                None => old(state).intent_vector.knowledge_cutoff_year,
            },
            context_retention: views(a.context_retention@),
            pruning_rigor: match a.pruning_rigor {
                Some(r) => r@,
                None => "standard"@,
            },
            ..old(state)@
        }),
        final(state).is_complex == match a.is_complex {
            Some(b) => b,
            None => true,
        },
        final(state).needs_web == match a.needs_web {
            Some(b) => b,
            None => false,
        },
        final(state).is_code == match a.is_code {
            Some(b) => b,
            None => false,
        },
        opt_view(final(state).detected_domain) == opt_view(a.domain),
        final(state).intent_vector.knowledge_cutoff_year == match a.knowledge_cutoff_year {
            Some(Some(y)) => y as u32,
            Some(None) => 2026,
            None => old(state).intent_vector.knowledge_cutoff_year,
        },
        views(final(state).context_retention@) == views(a.context_retention@),
        final(state).pruning_rigor@ == match a.pruning_rigor {
            Some(r) => r@,
            None => "standard"@,
        },
        unit@ == unit_for_domain(opt_view(a.domain)),
        final(state).query@ == old(state).query@,
        final(state).image_paths@ == old(state).image_paths@,
{
    state.is_complex = match a.is_complex {
        Some(b) => b,
        None => true,
    };
    state.needs_web = match a.needs_web {
        Some(b) => b,
        None => false,
    };
    state.is_code = match a.is_code {
        Some(b) => b,
        None => false,
    };
    state.detected_domain = match &a.domain {
        Some(d) => Some(d.clone()),
        None => None,
    };
    match a.knowledge_cutoff_year {
        Some(Some(y)) => {
            state.intent_vector = IntentVector { knowledge_cutoff_year: y as u32 };
        },
        Some(None) => {
            state.intent_vector = IntentVector { knowledge_cutoff_year: 2026 };
        },
        None => {},
    }
    let mut kept: Vec<String> = Vec::new();
    let mut i: usize = 0;
    while i < a.context_retention.len()
        invariant
            i <= a.context_retention.len(),
            views(kept@) == views(a.context_retention@).take(i as int),
        decreases a.context_retention.len() - i,
    {
        let ghost before = kept@;
        kept.push(a.context_retention[i].clone());
        proof {
            lemma_views_push(before, a.context_retention@[i as int], a.context_retention@, i as int);
        }
        i += 1;
    }
    assert(views(a.context_retention@).take(a.context_retention.len() as int) =~= views(
        a.context_retention@,
    ));
    state.context_retention = kept;
    state.pruning_rigor = match &a.pruning_rigor {
        Some(r) => r.clone(),
        None => "standard".to_owned(),
    };
    prioritized_unit(&a.domain)
}

/// The strings among the elements of an array, in order.
pub open spec fn string_elements(elems: Seq<Option<Seq<char>>>) -> Seq<Seq<char>>
    decreases elems.len(),
{
    if elems.len() == 0 {
        seq![]
    } else {
        let rest = string_elements(elems.drop_last());
        match elems.last() {
            Some(x) => rest.push(x),
            None => rest,
        }
    }
}

/// The state `s` after the members `t` of the intent analyser's answer are
/// written into it, as `apply_intent` writes them: the retained keys are
/// the strings of `context_retention`, none when it is not an array.
pub open spec fn intent_applied(
    s: AgentStateView,
    t: (
        Option<bool>,
        Option<bool>,
        Option<bool>,
        Option<Seq<char>>,
        Option<Option<u64>>,
        Option<Seq<Option<Seq<char>>>>,
        Option<Seq<char>>,
    ),
) -> AgentStateView {
    AgentStateView {
        is_complex: match t.0 {
            Some(b) => b,
            None => true,
        },
        needs_web: match t.1 {
            Some(b) => b,
            None => false,
        },
        is_code: match t.2 {
            Some(b) => b,
            None => false,
        },
        detected_domain: t.3,
        knowledge_cutoff_year: match t.4 {
            Some(Some(y)) => y as u32,
            Some(None) => 2026,
            None => s.knowledge_cutoff_year,
        },
        context_retention: match t.5 {
            Some(e) => string_elements(e),
            None => seq![],
        },
        pruning_rigor: match t.6 {
            Some(r) => r,
            None => "standard"@,
        },
        ..s
    }
}

/// The strings among the elements read from `context_retention`, in order;
/// none when it was not an array.
fn retained_keys(elems: Option<Vec<Option<String>>>) -> (v: Vec<String>)
    ensures
        views(v@) == match opt_strs(elems) {
            Some(e) => string_elements(e),
            None => Seq::<Seq<char>>::empty(),
        },
{
    let mut kept: Vec<String> = Vec::new();
    match elems {
        None => {
            assert(views(kept@) =~= Seq::<Seq<char>>::empty());
            kept
        },
        Some(items) => {
            let ghost e = items@.map_values(|x: Option<String>| opt_str(x));
            let mut i: usize = 0;
            while i < items.len()
                invariant
                    i <= items.len(),
                    e == items@.map_values(|x: Option<String>| opt_str(x)),
                    views(kept@) == string_elements(e.take(i as int)),
                decreases items.len() - i,
            {
                let ghost before = kept@;
                assert(e.take(i as int + 1).drop_last() =~= e.take(i as int));
                assert(e.take(i as int + 1).last() == opt_str(items@[i as int]));
                match &items[i] {
                    Some(k) => {
                        kept.push(k.clone());
                        proof {
                            lemma_views_push(before, *k, seq![*k], 0);
                        }
                    },
                    None => {},
                }
                i += 1;
            }
            assert(e.take(items.len() as int) =~= e);
            kept
        },
    }
}

/// Reads the intent analyser's answer `analysis` and, when it is JSON,
/// writes what it says into the state (`apply_intent`, with the string
/// elements of `context_retention` as the retained keys) and names the unit
/// to load ahead; when it is not, the state stays as it was. Returns where
/// routing leads from the state that results, and that unit.
pub fn analyse_intent(state: &mut AgentState, analysis: &str) -> (r: (WorkflowStep, Option<&'static str>))
    ensures
        match json_intent(analysis@) {
            None => final(state)@ == old(state)@ && r.1 is None,
            Some(t) => final(state)@ == intent_applied(old(state)@, t) && (r.1 matches Some(u)
                && u@ == unit_for_domain(t.3)),
        },
        r.0 == if final(state)@.image_paths.len() > 0 {
            WorkflowStep::Vision
        } else if final(state)@.needs_web {
            WorkflowStep::WebSearch
        } else {
            WorkflowStep::Retriever
        },
{
    let unit = match read_intent(analysis) {
        None => None,
        Some((c, w, k, d, y, keys, p)) => {
            let kept = retained_keys(keys);
            let a = IntentAnalysis {
                is_complex: c,
                needs_web: w,
                is_code: k,
                domain: d,
                knowledge_cutoff_year: y,
                context_retention: kept,
                pruning_rigor: p,
            };
            let u = apply_intent(state, &a);
            Some(u)
        },
    };
    (route(state), unit)
}

/// Where routing leads: to vision when there are images, else to web
/// search when the query needs the web, else to retrieval.
pub fn route(state: &AgentState) -> (step: WorkflowStep)
    ensures
        step == if state.image_paths@.len() > 0 {
            WorkflowStep::Vision
        } else if state.needs_web {
            WorkflowStep::WebSearch
        } else {
            WorkflowStep::Retriever
        },
{
    if state.image_paths.len() > 0 {
        WorkflowStep::Vision
    } else if state.needs_web {
        WorkflowStep::WebSearch
    } else {
        WorkflowStep::Retriever
    }
}

// ---------------------------------------------------------------------
// Vision
// ---------------------------------------------------------------------

/// The status shown while images are analysed.
pub const VISION_STATUS: &'static str = "[MAGI] Delegating vision analysis to specialized units...";

/// The vision prompt: the template with each `{objective}` replaced by the
/// query.
pub fn vision_prompt(template: &str, state: &AgentState) -> (p: String)
    ensures
        p@ == replace_all(template@, "{objective}"@, state.query@),
{
    proof {
        reveal_strlit("{objective}");
    }
    replace_str(template, "{objective}", state.query.as_str())
}

/// The error when no unit can look at the images.
pub fn no_units_error() -> (e: MagiError)
    ensures
        e matches MagiError::InternalError(m) && m@ == "No units"@,
{
    MagiError::InternalError("No units".to_owned())
}

/// Writes the visual analysis into the state and says where to go next:
/// web search when the query needs the web, retrieval otherwise.
pub fn apply_vision(state: &mut AgentState, analysis: &str) -> (step: WorkflowStep)
    ensures
        final(state)@ == (AgentStateView {
            rag_context: "[MELCHIOR VISUAL ANALYSIS]:\n"@ + analysis@ + "\n\n"@,
            ..old(state)@
        }),
        final(state).rag_context@ == "[MELCHIOR VISUAL ANALYSIS]:\n"@ + analysis@ + "\n\n"@,
        step == if old(state).needs_web {
            WorkflowStep::WebSearch
        } else {
            WorkflowStep::Retriever
        },
        final(state).query@ == old(state).query@,
        final(state).needs_web == old(state).needs_web,
{
    state.rag_context = concat3("[MELCHIOR VISUAL ANALYSIS]:\n", analysis, "\n\n");
    if state.needs_web {
        WorkflowStep::WebSearch
    } else {
        WorkflowStep::Retriever
    }
}

// ---------------------------------------------------------------------
// Web search
// ---------------------------------------------------------------------

/// The status shown while the web is searched.
pub const WEB_STATUS: &'static str = "[MAGI] Executing Greedy Web Telemetry (Multi-vector scraping)...";

/// The lower-case hexadecimal digit of `d` (below 16).
pub open spec fn hex_lower(d: u32) -> char {
    if d < 10 {
        (48 + d) as char
    } else {
        (87 + d) as char
    }
}

/// How a JSON string writes `c`: `"` and `\` after a backslash, the
/// control characters backspace, tab, line feed, form feed and carriage
/// return as `\b`, `\t`, `\n`, `\f`, `\r`, the other control characters
/// below 32 as `\u00` and two lower-case hexadecimal digits, and any
/// other character as it is.
pub open spec fn json_escaped_char(c: char) -> Seq<char> {
    let u = c as u32;
    if c == '"' || c == '\\' {
        seq!['\\', c]
    } else if u == 8 {
        seq!['\\', 'b']
    } else if u == 9 {
        seq!['\\', 't']
    } else if u == 10 {
        seq!['\\', 'n']
    } else if u == 12 {
        seq!['\\', 'f']
    } else if u == 13 {
        seq!['\\', 'r']
    } else if u < 32 {
        seq!['\\', 'u', '0', '0', hex_lower(u / 16), hex_lower(u % 16)]
    } else {
        seq![c]
    }
}

/// The characters of `s`, each as a JSON string writes it.
pub open spec fn json_escaped(s: Seq<char>) -> Seq<char>
    decreases s.len(),
{
    if s.len() == 0 {
        seq![]
    } else {
        json_escaped(s.drop_last()) + json_escaped_char(s.last())
    }
}

/// The JSON text of a string: its characters escaped, between quotes.
pub open spec fn json_string_text(s: Seq<char>) -> Seq<char> {
    seq!['"'] + json_escaped(s) + seq!['"']
}

/// What `serde_json::to_string` gives for a list of strings: `[`, the JSON
/// texts of the strings separated by commas, and `]`, with no spaces.
pub open spec fn json_text_of_strings(v: Seq<Seq<char>>) -> Seq<char> {
    seq!['['] + join(v.map_values(|x: Seq<char>| json_string_text(x)), seq![',']) + seq![']']
}

/// Writes a list of strings as JSON (`serde_json::to_string`). The contract
/// claims that writing a list of strings does not fail (each string is
/// written as a JSON string with its special characters escaped, which
/// cannot fail), that the text is `json_text_of_strings(v)`, and that it
/// reads back (`serde_json::from_str::<Vec<String>>`) as the same list.
#[verifier::external_body]
fn strings_to_json(v: &Vec<String>) -> (r: Option<String>)
    ensures
        match r {
            Some(s) => s@ == json_text_of_strings(views(v@)) && json_string_array(s@) == Some(views(v@)),
            None => false,
        },
{
    serde_json::to_string(v).ok()
}

/// Records the chosen search queries in the state's logic map, as JSON.
/// Written queries read back as they were, so the web search runs the
/// queries chosen here.
pub fn record_strategy(state: &mut AgentState, queries: &Vec<String>)
    ensures
        final(state)@ == (AgentStateView { logic_map: json_text_of_strings(views(queries@)), ..old(state)@ }),
        final(state).logic_map@ == json_text_of_strings(views(queries@)),
        json_string_array(final(state).logic_map@) == Some(views(queries@)),
        final(state).query@ == old(state).query@,
{
    state.logic_map = match strings_to_json(queries) {
        Some(t) => t,
        None => "[]".to_owned(),
    };
}

/// The queries the web search runs: the JSON array of strings in the
/// logic map, otherwise the query itself.
pub fn web_queries(state: &AgentState) -> (q: Vec<String>)
    ensures
        views(q@) == match json_string_array(state.logic_map@) {
            Some(v) => v,
            None => seq![state.query@],
        },
{
    match parse_string_array(state.logic_map.as_str()) {
        Some(v) => v,
        None => {
            let mut v: Vec<String> = Vec::new();
            v.push(state.query.clone());
            assert(views(v@) =~= seq![state.query@]);
            v
        },
    }
}

/// The running totals of a web search: bytes read and documents found.
#[derive(Debug, Clone, Copy, PartialEq, Eq)]
pub struct WebTally {
    pub total_bytes: usize,
    pub doc_count: u32,
}

impl WebTally {
    /// Nothing read yet.
    pub fn new() -> (t: Self)
        ensures
            t.total_bytes == 0 && t.doc_count == 0,
    {
        WebTally { total_bytes: 0, doc_count: 0 }
    }
}

/// The source under which a result's sections are remembered.
pub fn web_source(query: &str) -> (s: String)
    ensures
        s@ == "WebSearch:"@ + query@,
{
    concat2("WebSearch:", query)
}

/// Records the result of searching `query`: it is archived, the totals
/// grow by its bytes and by one document, and the telemetry to report is
/// returned (sizes in KiB and estimated tokens of four bytes).
pub fn record_web_result(
    state: &mut AgentState,
    tally: &mut WebTally,
    query: &str,
    result: &str,
) -> (t: MagiTelemetry)
    requires
        old(tally).total_bytes + utf8_len(result@) <= usize::MAX,
        old(tally).doc_count < i32::MAX,
    ensures
        final(state)@ == (AgentStateView {
            search_archive: old(state)@.search_archive.push((query@, seq![], result@, seq![])),
            ..old(state)@
        }),
        final(tally).total_bytes == old(tally).total_bytes + utf8_len(result@),
        final(tally).doc_count == old(tally).doc_count + 1,
        final(state).search_archive@.len() == old(state).search_archive@.len() + 1,
        final(state).search_archive@.drop_last() == old(state).search_archive@,
        final(state).search_archive@.last().query@ == query@,
        final(state).search_archive@.last().snippet@ == result@,
        final(state).search_archive@.last().title@.len() == 0,
        final(state).search_archive@.last().url@.len() == 0,
        t.documents == final(tally).doc_count,
        t.size_kb == final(tally).total_bytes / 1024,
        t.est_tokens == final(tally).total_bytes / 4,
        t.current_query@ == query@,
        final(state).query@ == old(state).query@,
{
    let n = utf8_len_str(result);
    tally.total_bytes = tally.total_bytes + n as usize;
    tally.doc_count = tally.doc_count + 1;
    state.search_archive.push(
        SearchResultEntry {
            query: query.to_owned(),
            title: String::new(),
            snippet: result.to_owned(),
            url: String::new(),
        },
    );
    assert(state.search_archive@.drop_last() =~= old(state).search_archive@);
    MagiTelemetry {
        documents: tally.doc_count,
        size_kb: (tally.total_bytes / 1024) as u64,
        est_tokens: (tally.total_bytes / 4) as u64,
        current_query: query.to_owned(),
    }
}

/// The sections of a result that are not blank.
pub open spec fn nonblank(s: Seq<(Seq<char>, Seq<char>)>) -> Seq<(Seq<char>, Seq<char>)>
    decreases s.len(),
{
    if s.len() == 0 {
        seq![]
    } else if trim(s.last().0).len() > 0 {
        nonblank(s.drop_last()).push(s.last())
    } else {
        nonblank(s.drop_last())
    }
}

/// The sections of the result of searching `query` that are remembered in
/// the session: the Markdown sections of the result, under the source
/// `WebSearch:` and the query, leaving out the blank ones.
pub fn web_sections(result: &str, query: &str) -> (out: Vec<MarkdownSection>)
    ensures
        section_views(out@) == nonblank(markdown_sections(result@, "WebSearch:"@ + query@)),
{
    let source = web_source(query);
    let all = MarkdownChunker::chunk_markdown(result, source.as_str());
    let mut out: Vec<MarkdownSection> = Vec::new();
    let mut i: usize = 0;
    while i < all.len()
        invariant
            i <= all@.len(),
            section_views(out@) == nonblank(section_views(all@).take(i as int)),
        decreases all.len() - i,
    {
        assert(section_views(all@).take(i + 1).drop_last() =~= section_views(all@).take(i as int));
        let t = trim_str(all[i].text.as_str());
        if !t.as_str().is_empty() {
            let ghost before = out@;
            out.push(MarkdownSection { text: all[i].text.clone(), source: all[i].source.clone() });
            assert(section_views(out@) =~= section_views(before).push(
                (all@[i as int].text@, all@[i as int].source@),
            ));
        }
        i += 1;
    }
    assert(section_views(all@).take(all@.len() as int) =~= section_views(all@));
    out
}

/// The summary of the web search kept in the state.
pub fn web_context(archive_len: usize, cached_chunks: usize) -> (s: String)
    ensures
        s@ == "Archive size: "@ + dec(archive_len as nat) + " entries, Dynamic vectors cache: "@
            + dec(cached_chunks as nat) + " chunks"@,
{
    let a = u64_to_dec(archive_len as u64);
    let b = u64_to_dec(cached_chunks as u64);
    let mut s = concat3("Archive size: ", a.as_str(), " entries, Dynamic vectors cache: ");
    push_str(&mut s, b.as_str());
    push_str(&mut s, " chunks");
    s
}

// ---------------------------------------------------------------------
// Retrieval
// ---------------------------------------------------------------------

/// The status shown while the knowledge base is searched.
pub const RETRIEVER_STATUS: &'static str = "[MAGI] Synchronizing with local knowledge base and session memory...";

/// Where user feedback on answers is appended.
pub const FEEDBACK_PATH: &'static str = "vector_db/feedback.jsonl";

/// The source under which knowledge-base results are remembered.
pub const GLOBAL_RAG_SOURCE: &'static str = "GlobalRAG";

/// The retrieval context: the previous context, the web summary, then the
/// knowledge-base texts (each marked `[Local]: `) and the session recalls,
/// separated by blank lines.
pub open spec fn retrieval_context_text(
    rag: Seq<char>,
    web: Seq<char>,
    local: Seq<Seq<char>>,
    session: Seq<Seq<char>>,
) -> Seq<char> {
    rag + seq!['\n'] + web + "\n\n[HIST]:\n"@ + join(
        local.map_values(|t: Seq<char>| "[Local]: "@ + t) + session,
        "\n\n"@,
    )
}

/// The line under which a session recall enters the retrieval context;
/// `score` is its similarity as written with two decimals.
pub fn session_line(source: &str, score: &str, text: &str) -> (s: String)
    ensures
        s@ == "[Session ("@ + source@ + " - Score: "@ + score@ + ")]: "@ + text@,
{
    let mut s = concat3("[Session (", source, " - Score: ");
    push_str(&mut s, score);
    push_str(&mut s, ")]: ");
    push_str(&mut s, text);
    s
}

/// Writes the retrieval context into the state and says where to go next:
/// to the expert when a domain was detected, to the consensus otherwise.
pub fn apply_retrieval(
    state: &mut AgentState,
    local_texts: &Vec<String>,
    session_lines: &Vec<String>,
) -> (step: WorkflowStep)
    ensures
        final(state)@ == (AgentStateView {
            rag_context: retrieval_context_text(
                old(state).rag_context@,
                old(state).web_context@,
                views(local_texts@),
                views(session_lines@),
            ),
            ..old(state)@
        }),
        final(state).rag_context@ == retrieval_context_text(
            old(state).rag_context@,
            old(state).web_context@,
            views(local_texts@),
            views(session_lines@),
        ),
        step == if old(state).detected_domain is Some {
            WorkflowStep::Specialist
        } else {
            WorkflowStep::AdversarialConsensus
        },
        final(state).query@ == old(state).query@,
        final(state).detected_domain == old(state).detected_domain,
{
    let mut parts: Vec<String> = Vec::new();
    let mut i: usize = 0;
    while i < local_texts.len()
        invariant
            i <= local_texts.len(),
            parts@.len() == i,
            forall|k: int| 0 <= k < i ==> #[trigger] parts@[k]@ == "[Local]: "@ + local_texts@[k]@,
        decreases local_texts.len() - i,
    {
        parts.push(concat2("[Local]: ", local_texts[i].as_str()));
        i += 1;
    }
    let ghost f = |t: Seq<char>| "[Local]: "@ + t;
    assert(views(parts@) =~= views(local_texts@).map_values(f)) by {
        assert forall|k: int| 0 <= k < parts@.len() implies #[trigger] views(parts@)[k]
            == views(local_texts@).map_values(f)[k] by {
            assert(parts@[k]@ == "[Local]: "@ + local_texts@[k]@);
        }
    }
    let ghost head = parts@;
    let mut j: usize = 0;
    while j < session_lines.len()
        invariant
            j <= session_lines.len(),
            parts@ == head + session_lines@.take(j as int),
        decreases session_lines.len() - j,
    {
        parts.push(session_lines[j].clone());
        assert(parts@ =~= head + session_lines@.take(j + 1));
        j += 1;
    }
    assert(session_lines@.take(session_lines.len() as int) =~= session_lines@);
    assert(views(parts@) =~= views(head) + views(session_lines@));
    let joined = join_strings(&parts, "\n\n");
    let mut ctx = concat3(state.rag_context.as_str(), "\n", state.web_context.as_str());
    push_str(&mut ctx, "\n\n[HIST]:\n");
    push_str(&mut ctx, joined.as_str());
    proof {
        reveal_strlit("\n");
        assert("\n"@ =~= seq!['\n']);
    }
    state.rag_context = ctx;
    if state.detected_domain.is_some() {
        WorkflowStep::Specialist
    } else {
        WorkflowStep::AdversarialConsensus
    }
}

// ---------------------------------------------------------------------
// Expert consultation
// ---------------------------------------------------------------------

/// The status shown while the domain expert is consulted.
pub fn specialist_status(state: &AgentState) -> (s: String)
    requires
        state.detected_domain is Some,
    ensures
        s@ == "[MAGI] Engaging specialist: "@ + state.detected_domain->0@ + "..."@,
{
    match &state.detected_domain {
        Some(d) => concat3("[MAGI] Engaging specialist: ", d.as_str(), "..."),
        None => String::new(),
    }
}

/// The prompt for the domain expert.
pub fn specialist_prompt(state: &AgentState) -> (p: String)
    ensures
        p@ == "Specialist Analysis for: "@ + state.query@ + "\nContext: "@ + state.rag_context@,
{
    let mut p = concat3("Specialist Analysis for: ", state.query.as_str(), "\nContext: ");
    push_str(&mut p, state.rag_context.as_str());
    p
}

/// Appends the expert's analysis to the context; the consensus comes next.
pub fn apply_expert(state: &mut AgentState, analysis: &str) -> (step: WorkflowStep)
    ensures
        final(state)@ == (AgentStateView {
            rag_context: old(state).rag_context@ + "\n\n[EXPERT]:\n"@ + analysis@,
            ..old(state)@
        }),
        final(state).rag_context@ == old(state).rag_context@ + "\n\n[EXPERT]:\n"@ + analysis@,
        step == WorkflowStep::AdversarialConsensus,
        final(state).query@ == old(state).query@,
{
    let mut ctx = concat2(state.rag_context.as_str(), "\n\n[EXPERT]:\n");
    push_str(&mut ctx, analysis);
    state.rag_context = ctx;
    WorkflowStep::AdversarialConsensus
}

// ---------------------------------------------------------------------
// Memory orchestration (MemFlow)
// ---------------------------------------------------------------------

/// How hard the session memory is pruned: the number of recalls kept and,
/// by level, the similarity they need (0.45, 0.35 and 0.25, applied by the
/// caller).
#[derive(Debug, Clone, Copy, PartialEq, Eq, Structural)]
pub enum PruningLevel {
    Aggressive,
    Standard,
    Lenient,
}

/// MemFlow, the intent-driven orchestration of the session memory: it
/// replaces the context by the session's best recalls for the query and
/// cuts an overlong query.
pub struct MemFlow;

impl MemFlow {
    /// The pruning level and number of recalls for a pruning rigor:
    /// `aggressive` keeps 3, `standard` 6, anything else 10.
    pub fn pruning_profile(rigor: &str) -> (r: (PruningLevel, usize))
        ensures
            r == if rigor@ == "aggressive"@ {
                (PruningLevel::Aggressive, 3usize)
            } else if rigor@ == "standard"@ {
                (PruningLevel::Standard, 6usize)
            } else {
                (PruningLevel::Lenient, 10usize)
            },
    {
        if str_eq(rigor, "aggressive") {
            (PruningLevel::Aggressive, 3)
        } else if str_eq(rigor, "standard") {
            (PruningLevel::Standard, 6)
        } else {
            (PruningLevel::Lenient, 10)
        }
    }

    /// The text of a semantic recall; `score` is its similarity as written
    /// with two decimals.
    pub fn recall_text(source: &str, score: &str, text: &str) -> (s: String)
        ensures
            s@ == "[Semantic Recall - "@ + source@ + " (Score: "@ + score@ + ")]:\n"@ + text@,
    {
        let mut s = concat3("[Semantic Recall - ", source, " (Score: ");
        push_str(&mut s, score);
        push_str(&mut s, ")]:\n");
        push_str(&mut s, text);
        s
    }

    /// Replaces the context by the semantic recalls when there are any;
    /// tells whether it did.
    pub fn apply_semantic_recall(state: &mut AgentState, recalls: &Vec<String>) -> (replaced: bool)
        ensures
            recalls@.len() > 0 ==> final(state)@ == (AgentStateView {
                rag_context: "=== MEMFLOW SEMANTIC CONTEXT ===\n\n"@ + join(views(recalls@), "\n\n"@)
                    + "\n==============================="@,
                ..old(state)@
            }),
            recalls@.len() == 0 ==> final(state)@ == old(state)@,
            replaced == (recalls@.len() > 0),
            final(state).rag_context@ == if recalls@.len() > 0 {
                "=== MEMFLOW SEMANTIC CONTEXT ===\n\n"@ + join(views(recalls@), "\n\n"@)
                    + "\n==============================="@
            } else {
                old(state).rag_context@
            },
            final(state).query@ == old(state).query@,
    {
        if recalls.len() == 0 {
            return false;
        }
        let joined = join_strings(recalls, "\n\n");
        state.rag_context = concat3(
            "=== MEMFLOW SEMANTIC CONTEXT ===\n\n",
            joined.as_str(),
            "\n===============================",
        );
        true
    }

    /// Cuts a query of more than 4000 bytes to its first 4000 characters;
    /// tells whether it did.
    pub fn prune_query(state: &mut AgentState) -> (cut: bool)
        ensures
            cut ==> final(state)@ == (AgentStateView {
                query: first_chars(old(state).query@, 4000),
                ..old(state)@
            }),
            !cut ==> final(state)@ == old(state)@,
            cut == (utf8_len(old(state).query@) > 4000),
            final(state).query@ == if cut {
                first_chars(old(state).query@, 4000)
            } else {
                old(state).query@
            },
            final(state).rag_context@ == old(state).rag_context@,
    {
        let v = chars_of(state.query.as_str());
        let n = utf8_len_chars(&v);
        if n <= 4000 {
            return false;
        }
        let k = if v.len() < 4000 {
            v.len()
        } else {
            4000
        };
        state.query = string_of_range(&v, 0, k);
        assert(v@.subrange(0, k as int) =~= first_chars(v@, 4000));
        true
    }

    /// The telemetry after pruning: the archived documents (counted in 32
    /// bits), and the size in KiB and estimated tokens (four bytes each) of
    /// the context and web summary.
    pub fn telemetry(state: &AgentState) -> (t: MagiTelemetry)
        requires
            utf8_len(state.rag_context@) + utf8_len(state.web_context@) <= usize::MAX,
        ensures
            t.documents == state.search_archive@.len() as u32,
            t.size_kb == (utf8_len(state.rag_context@) + utf8_len(state.web_context@)) / 1024,
            t.est_tokens == (utf8_len(state.rag_context@) + utf8_len(state.web_context@)) / 4,
            t.current_query@ == state.query@,
    {
        let r = utf8_len_str(state.rag_context.as_str());
        let w = utf8_len_str(state.web_context.as_str());
        let total: usize = (r + w) as usize;
        MagiTelemetry {
            documents: state.search_archive.len() as u32,
            size_kb: (total / 1024) as u64,
            est_tokens: (total / 4) as u64,
            current_query: state.query.clone(),
        }
    }
}

// ---------------------------------------------------------------------
// Retries
// ---------------------------------------------------------------------

/// The attempts left for a model call that is retried on failure.
pub struct RetryBudget {
    pub max_retries: usize,
    pub attempts: usize,
    pub last_error: Option<String>,
}

impl RetryBudget {
    /// No attempt made yet.
    pub fn new(max_retries: usize) -> (b: Self)
        ensures
            b.max_retries == max_retries,
            b.attempts == 0,
            b.last_error is None,
    {
        RetryBudget { max_retries, attempts: 0, last_error: None }
    }

    /// Whether another attempt may be made.
    pub fn may_try(&self) -> (b: bool)
        ensures
            b == (self.attempts < self.max_retries),
    {
        self.attempts < self.max_retries
    }

    /// Records a failed attempt and its error.
    pub fn failed(&mut self, error: String)
        requires
            old(self).attempts < old(self).max_retries,
        ensures
            final(self).attempts == old(self).attempts + 1,
            final(self).attempts <= final(self).max_retries,
            final(self).max_retries == old(self).max_retries,
            final(self).last_error == Some(error),
    {
        self.attempts = self.attempts + 1;
        self.last_error = Some(error);
    }

    /// The error reported when every attempt failed: the last error, or
    /// "Max retries reached" when no attempt was made.
    pub fn exhausted_error(&self) -> (e: MagiError)
        ensures
            e matches MagiError::InferenceError(m) && m@ == match self.last_error {
                Some(x) => x@,
                None => "Max retries reached"@,
            },
    {
        match &self.last_error {
            Some(x) => MagiError::InferenceError(x.clone()),
            None => MagiError::InferenceError("Max retries reached".to_owned()),
        }
    }
}

} // verus!
