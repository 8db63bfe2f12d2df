//! The domain model of the MAGI orchestration engine: workflow steps,
//! consensus rigor, errors, events, inference requests and the agent state
//! that the workflow fills in.
use vstd::prelude::*;
use crate::text::{concat2, concat3, push_str, views};

verus! {

/// The nodes of the MAGI workflow.
#[derive(Debug, PartialEq, Eq, Structural, Clone, Copy)]
pub enum WorkflowStep {
    Router,
    Vision,
    WebSearch,
    Retriever,
    Specialist,
    Reasoner,
    Drafter,
    Review,
    ConflictDetector,
    Synthesizer,
    AdversarialConsensus,
    SimpleResponse,
    End,
}

/// The name of a workflow step, as `{:?}` prints it.
pub open spec fn step_name(s: WorkflowStep) -> Seq<char> {
    match s {
        WorkflowStep::Router => "Router"@,
        WorkflowStep::Vision => "Vision"@,
        WorkflowStep::WebSearch => "WebSearch"@,
        WorkflowStep::Retriever => "Retriever"@,
        WorkflowStep::Specialist => "Specialist"@,
        WorkflowStep::Reasoner => "Reasoner"@,
        WorkflowStep::Drafter => "Drafter"@,
        WorkflowStep::Review => "Review"@,
        WorkflowStep::ConflictDetector => "ConflictDetector"@,
        WorkflowStep::Synthesizer => "Synthesizer"@,
        WorkflowStep::AdversarialConsensus => "AdversarialConsensus"@,
        WorkflowStep::SimpleResponse => "SimpleResponse"@,
        WorkflowStep::End => "End"@,
    }
}

impl WorkflowStep {
    /// The step's name, as `{:?}` prints it.
    pub fn name(&self) -> (s: &'static str)
        ensures
            s@ == step_name(*self),
    {
        match self {
            WorkflowStep::Router => "Router",
            WorkflowStep::Vision => "Vision",
            WorkflowStep::WebSearch => "WebSearch",
            WorkflowStep::Retriever => "Retriever",
            WorkflowStep::Specialist => "Specialist",
            WorkflowStep::Reasoner => "Reasoner",
            WorkflowStep::Drafter => "Drafter",
            WorkflowStep::Review => "Review",
            WorkflowStep::ConflictDetector => "ConflictDetector",
            WorkflowStep::Synthesizer => "Synthesizer",
            WorkflowStep::AdversarialConsensus => "AdversarialConsensus",
            WorkflowStep::SimpleResponse => "SimpleResponse",
            WorkflowStep::End => "End",
        }
    }
}

/// How hard the adversarial units must agree before a draft is accepted.
#[derive(Debug, PartialEq, Eq, Structural, Clone, Copy)]
pub enum ConsensusRigor {
    Weak,
    Standard,
    Strong,
}

impl Default for ConsensusRigor {
    fn default() -> (r: Self)
        ensures
            r == ConsensusRigor::Standard,
    {
        ConsensusRigor::Standard
    }
}

/// The name of a rigor level, as `{:?}` prints it.
pub open spec fn rigor_name(r: ConsensusRigor) -> Seq<char> {
    match r {
        ConsensusRigor::Weak => "Weak"@,
        ConsensusRigor::Standard => "Standard"@,
        ConsensusRigor::Strong => "Strong"@,
    }
}

impl ConsensusRigor {
    /// The level's name, as `{:?}` prints it.
    pub fn name(&self) -> (s: &'static str)
        ensures
            s@ == rigor_name(*self),
    {
        match self {
            ConsensusRigor::Weak => "Weak",
            ConsensusRigor::Standard => "Standard",
            ConsensusRigor::Strong => "Strong",
        }
    }
}

/// The errors of the MAGI engine.
#[derive(Debug, PartialEq, Eq, Clone)]
pub enum MagiError {
    InferenceError(String),
    ModelLoadError(String),
    DatabaseError(String),
    TimeoutError(String),
    WorkflowError { step: WorkflowStep, message: String },
    InternalError(String),
}

/// The text of an error, as its `Display` prints it.
pub open spec fn error_text(e: MagiError) -> Seq<char> {
    match e {
        MagiError::InferenceError(m) => "Inference failed: "@ + m@,
        MagiError::ModelLoadError(m) => "Model loading failed: "@ + m@,
        MagiError::DatabaseError(m) => "Database error: "@ + m@,
        MagiError::TimeoutError(m) => "Network timeout: "@ + m@,
        MagiError::WorkflowError { step, message } => "Workflow error at step "@ + step_name(step)
            + ": "@ + message@,
        MagiError::InternalError(m) => "Internal system error: "@ + m@,
    }
}

impl MagiError {
    /// The error's text, as its `Display` prints it.
    pub fn message(&self) -> (s: String)
        ensures
            s@ == error_text(*self),
    {
        match self {
            MagiError::InferenceError(m) => concat2("Inference failed: ", m.as_str()),
            MagiError::ModelLoadError(m) => concat2("Model loading failed: ", m.as_str()),
            MagiError::DatabaseError(m) => concat2("Database error: ", m.as_str()),
            MagiError::TimeoutError(m) => concat2("Network timeout: ", m.as_str()),
            MagiError::WorkflowError { step, message } => {
                let mut s = concat3("Workflow error at step ", step.name(), ": ");
                push_str(&mut s, message.as_str());
                s
            },
            MagiError::InternalError(m) => concat2("Internal system error: ", m.as_str()),
        }
    }
}

/// Size figures of the context gathered so far.
#[derive(Debug, Clone, PartialEq, Eq)]
pub struct MagiTelemetry {
    pub documents: u32,
    pub size_kb: u64,
    pub est_tokens: u64,
    pub current_query: String,
}

/// One archived web search result.
#[derive(Debug, Clone, PartialEq, Eq)]
pub struct SearchResultEntry {
    pub query: String,
    pub title: String,
    pub snippet: String,
    pub url: String,
}

/// The events streamed to observers of a session; `viz_data` holds JSON
/// text.
#[derive(Debug, Clone, PartialEq, Eq)]
pub enum MagiEvent {
    Metadata { session_id: String },
    Status { content: String },
    SearchStrategy { queries: Vec<String> },
    Reasoning { unit: String, content: String },
    AdversarialCritique { unit: String, critique: String },
    Telemetry { metrics: MagiTelemetry },
    Token { unit: String, content: String },
    Final { content: String, viz_data: Option<String> },
    Error { content: String },
}

/// One input of an inference request.
#[derive(Debug, Clone, PartialEq, Eq)]
pub enum InferenceMedia {
    Text(String),
    Image { data: Vec<u8>, mime_type: String },
    Audio { data: Vec<u8>, sample_rate: u32 },
}

/// A multimodal inference request. Its sampling temperature, a floating
/// point number, is held by the caller next to it.
#[derive(Debug, Clone, PartialEq, Eq)]
pub struct InferenceRequest {
    pub inputs: Vec<InferenceMedia>,
    pub max_tokens: usize,
    pub system_prompt: Option<String>,
}

/// The answer to an inference request.
#[derive(Debug, PartialEq, Eq)]
pub struct InferenceResponse {
    pub content: String,
    pub reasoning_log: Option<String>,
    pub usage: (usize, usize),
}

impl Clone for InferenceResponse {
    fn clone(&self) -> (r: Self)
        ensures
            r.content@ == self.content@,
            r.usage == self.usage,
    {
        InferenceResponse {
            content: self.content.clone(),
            reasoning_log: self.reasoning_log.clone(),
            usage: self.usage,
        }
    }
}

/// The part of the intent vector that is not floating point: the year the
/// answer's knowledge should reach. The logic and creativity weights are
/// held by the caller next to it.
#[derive(Debug, Clone, PartialEq, Eq)]
pub struct IntentVector {
    pub knowledge_cutoff_year: u32,
}

/// Everything a MAGI session knows about the query it is answering.
/// Visualisation data, JSON produced by the frontend adapter, is held by
/// the caller next to it.
#[derive(Debug, Clone, PartialEq, Eq)]
pub struct AgentState {
    pub session_id: String,
    pub query: String,
    pub image_paths: Vec<String>,
    pub is_complex: bool,
    pub is_code: bool,
    pub needs_web: bool,
    pub detected_domain: Option<String>,
    pub intent_vector: IntentVector,
    pub context_retention: Vec<String>,
    pub pruning_rigor: String,
    pub rigor: ConsensusRigor,
    pub search_archive: Vec<SearchResultEntry>,
    pub rag_context: String,
    pub web_context: String,
    pub logic_map: String,
    pub draft: String,
    pub critique_logs: Vec<(String, String)>,
    pub revision_history: Vec<String>,
    pub critique_gemma: String,
    pub critique_smollm: String,
    pub devils_critique: String,
    pub conflict_summary: String,
    pub revision_count: u32,
    pub needs_loop: bool,
    pub parallel_outputs: Vec<(String, String)>,
    pub final_answer: String,
}

/// The views of a list of string pairs.
pub open spec fn pairs_view(v: Seq<(String, String)>) -> Seq<(Seq<char>, Seq<char>)> {
    v.map_values(|p: (String, String)| (p.0@, p.1@))
}

/// The views of archived search results: query, title, snippet and URL.
pub open spec fn archive_view(v: Seq<SearchResultEntry>) -> Seq<(Seq<char>, Seq<char>, Seq<char>, Seq<char>)> {
    v.map_values(|e: SearchResultEntry| (e.query@, e.title@, e.snippet@, e.url@))
}

/// The agent state as specifications see it.
#[verifier::ext_equal]
pub ghost struct AgentStateView {
    pub session_id: Seq<char>,
    pub query: Seq<char>,
    pub image_paths: Seq<Seq<char>>,
    pub is_complex: bool,
    pub is_code: bool,
    pub needs_web: bool,
    pub detected_domain: Option<Seq<char>>,
    pub knowledge_cutoff_year: u32,
    pub context_retention: Seq<Seq<char>>,
    pub pruning_rigor: Seq<char>,
    pub rigor: ConsensusRigor,
    pub search_archive: Seq<(Seq<char>, Seq<char>, Seq<char>, Seq<char>)>,
    pub rag_context: Seq<char>,
    pub web_context: Seq<char>,
    pub logic_map: Seq<char>,
    pub draft: Seq<char>,
    pub critique_logs: Seq<(Seq<char>, Seq<char>)>,
    pub revision_history: Seq<Seq<char>>,
    pub critique_gemma: Seq<char>,
    pub critique_smollm: Seq<char>,
    pub devils_critique: Seq<char>,
    pub conflict_summary: Seq<char>,
    pub revision_count: u32,
    pub needs_loop: bool,
    pub parallel_outputs: Seq<(Seq<char>, Seq<char>)>,
    pub final_answer: Seq<char>,
}

impl View for AgentState {
    type V = AgentStateView;

    open spec fn view(&self) -> AgentStateView {
        AgentStateView {
            session_id: self.session_id@,
            query: self.query@,
            image_paths: views(self.image_paths@),
            is_complex: self.is_complex,
            is_code: self.is_code,
            needs_web: self.needs_web,
            detected_domain: match self.detected_domain {
                Some(d) => Some(d@),
                None => None,
            },
            knowledge_cutoff_year: self.intent_vector.knowledge_cutoff_year,
            context_retention: views(self.context_retention@),
            pruning_rigor: self.pruning_rigor@,
            rigor: self.rigor,
            search_archive: archive_view(self.search_archive@),
            rag_context: self.rag_context@,
            web_context: self.web_context@,
            logic_map: self.logic_map@,
            draft: self.draft@,
            critique_logs: pairs_view(self.critique_logs@),
            revision_history: views(self.revision_history@),
            critique_gemma: self.critique_gemma@,
            critique_smollm: self.critique_smollm@,
            devils_critique: self.devils_critique@,
            conflict_summary: self.conflict_summary@,
            revision_count: self.revision_count,
            needs_loop: self.needs_loop,
            parallel_outputs: pairs_view(self.parallel_outputs@),
            final_answer: self.final_answer@,
        }
    }
}

impl AgentState {
    /// A fresh state for `query` in session `session_id`, every other field
    /// empty, false or zero and the rigor `Standard`.
    pub fn new(session_id: String, query: String) -> (s: Self)
        ensures
            s.session_id@ == session_id@,
            s.query@ == query@,
            s.image_paths@.len() == 0,
            !s.is_complex && !s.is_code && !s.needs_web && !s.needs_loop,
            s.detected_domain is None,
            s.intent_vector.knowledge_cutoff_year == 0,
            s.context_retention@.len() == 0,
            s.pruning_rigor@.len() == 0,
            s.rigor == ConsensusRigor::Standard,
            s.search_archive@.len() == 0,
            s.rag_context@.len() == 0 && s.web_context@.len() == 0 && s.logic_map@.len() == 0,
            s.draft@.len() == 0 && s.final_answer@.len() == 0,
            s.critique_logs@.len() == 0 && s.revision_history@.len() == 0,
            s.critique_gemma@.len() == 0 && s.critique_smollm@.len() == 0,
            s.devils_critique@.len() == 0 && s.conflict_summary@.len() == 0,
            s.revision_count == 0,
            s.parallel_outputs@.len() == 0,
    {
        AgentState {
            session_id,
            query,
            image_paths: Vec::new(),
            is_complex: false,
            is_code: false,
            needs_web: false,
            detected_domain: None,
            intent_vector: IntentVector { knowledge_cutoff_year: 0 },
            context_retention: Vec::new(),
            pruning_rigor: String::new(),
            rigor: ConsensusRigor::Standard,
            search_archive: Vec::new(),
            rag_context: String::new(),
            web_context: String::new(),
            logic_map: String::new(),
            draft: String::new(),
            critique_logs: Vec::new(),
            revision_history: Vec::new(),
            critique_gemma: String::new(),
            critique_smollm: String::new(),
            devils_critique: String::new(),
            conflict_summary: String::new(),
            revision_count: 0,
            needs_loop: false,
            parallel_outputs: Vec::new(),
            final_answer: String::new(),
        }
    }
}

} // verus!
