//! The native agent: its state, the nodes of its workflow and the steps
//! between them, its knowledge base of embedded chunks, and the reading of
//! the token stream of an OpenAI-compatible server.
//!
//! The caller runs the workflow: for each step it does the outside work
//! that `work_for` names (embedding and searching, or generating), hands
//! the outcome to `advance`, and goes on with the step it returns until
//! `End`.
use vstd::prelude::*;
use crate::json::{json_delta_content, read_delta_content};
use crate::lines::{lines, lines_of};
use crate::ranking::{is_top_k, rank_top_k};
use crate::text::{
    chars_of, concat2, concat3, contains, join, join_strings, lowercase, push_str, starts_with,
    starts_with_chars, str_contains, str_eq, string_of_range, strip_all, strip_all_str, to_lowercase,
    trim, trim_str, views,
};

verus! {

// ---------------------------------------------------------------------
// State
// ---------------------------------------------------------------------

/// Everything the native agent knows about the query it is answering.
/// `visualization_data` is JSON text for the frontend.
#[derive(Debug, Clone)]
pub struct AgentState {
    pub session_id: String,
    pub query: String,
    pub image_paths: Vec<String>,
    pub is_complex: bool,
    pub is_code: bool,
    pub rag_context: String,
    pub logic_map: String,
    pub draft: String,
    pub critique_gemma: String,
    pub critique_smollm: String,
    pub devils_critique: String,
    pub conflict_summary: String,
    pub revision_count: u32,
    pub needs_loop: bool,
    pub final_answer: String,
    pub visualization_data: Option<String>,
}

/// The agent state as specifications see it.
pub ghost struct AgentView {
    pub session_id: Seq<char>,
    pub query: Seq<char>,
    pub image_paths: Seq<Seq<char>>,
    pub is_complex: bool,
    pub is_code: bool,
    pub rag_context: Seq<char>,
    pub logic_map: Seq<char>,
    pub draft: Seq<char>,
    pub critique_gemma: Seq<char>,
    pub critique_smollm: Seq<char>,
    pub devils_critique: Seq<char>,
    pub conflict_summary: Seq<char>,
    pub revision_count: u32,
    pub needs_loop: bool,
    pub final_answer: Seq<char>,
    pub visualization_data: Option<Seq<char>>,
}

impl View for AgentState {
    type V = AgentView;

    open spec fn view(&self) -> AgentView {
        AgentView {
            session_id: self.session_id@,
            query: self.query@,
            image_paths: views(self.image_paths@),
            is_complex: self.is_complex,
            is_code: self.is_code,
            rag_context: self.rag_context@,
            logic_map: self.logic_map@,
            draft: self.draft@,
            critique_gemma: self.critique_gemma@,
            critique_smollm: self.critique_smollm@,
            devils_critique: self.devils_critique@,
            conflict_summary: self.conflict_summary@,
            revision_count: self.revision_count,
            needs_loop: self.needs_loop,
            final_answer: self.final_answer@,
            visualization_data: match self.visualization_data {
                Some(v) => Some(v@),
                None => None,
            },
        }
    }
}

/// The empty state: every text empty, every flag false, no images.
pub open spec fn empty_view() -> AgentView {
    AgentView {
        session_id: seq![],
        query: seq![],
        image_paths: seq![],
        is_complex: false,
        is_code: false,
        rag_context: seq![],
        logic_map: seq![],
        draft: seq![],
        critique_gemma: seq![],
        critique_smollm: seq![],
        devils_critique: seq![],
        conflict_summary: seq![],
        revision_count: 0,
        needs_loop: false,
        final_answer: seq![],
        visualization_data: None,
    }
}

impl Default for AgentState {
    fn default() -> (s: Self)
        ensures
            s@ == empty_view(),
    {
        let s = AgentState {
            session_id: String::new(),
            query: String::new(),
            image_paths: Vec::new(),
            is_complex: false,
            is_code: false,
            rag_context: String::new(),
            logic_map: String::new(),
            draft: String::new(),
            critique_gemma: String::new(),
            critique_smollm: String::new(),
            devils_critique: String::new(),
            conflict_summary: String::new(),
            revision_count: 0,
            needs_loop: false,
            final_answer: String::new(),
            visualization_data: None,
        };
        assert(views(s.image_paths@) =~= Seq::<Seq<char>>::empty());
        s
    }
}

impl AgentState {
    /// The state a chat request starts from: its query, its session (or
    /// `new-rust-session` when it names none), everything else empty.
    pub fn for_request(query: String, session_id: Option<String>) -> (s: Self)
        ensures
            s@ == (AgentView {
                query: query@,
                session_id: match session_id {
                    Some(id) => id@,
                    None => "new-rust-session"@,
                },
                ..empty_view()
            }),
    {
        let mut s = AgentState::default();
        s.query = query;
        s.session_id = match session_id {
            Some(id) => id,
            None => "new-rust-session".to_owned(),
        };
        s
    }
}

/// The nodes of the native agent's workflow.
#[derive(Debug, Clone, Copy, PartialEq, Eq, Structural)]
pub enum WorkflowStep {
    Router,
    Vision,
    Retriever,
    Reasoner,
    Drafter,
    Review,
    ConflictDetector,
    Synthesizer,
    SimpleResponse,
    End,
}

// ---------------------------------------------------------------------
// Steps
// ---------------------------------------------------------------------

/// A knowledge-base chunk found for the query: its source, its similarity
/// to the query as the status line shows it (two decimals), and its text.
#[derive(Debug, Clone)]
pub struct RetrievedChunk {
    pub source: String,
    pub similarity: String,
    pub text: String,
}

/// What the outside work of a step came to.
#[derive(Debug, Clone)]
pub enum StepOutcome {
    /// The step needed no outside work.
    Nothing,
    /// The best chunks for the query, best first.
    Retrieved(Vec<RetrievedChunk>),
    /// The query could not be embedded; the error's text.
    EmbeddingFailed(String),
    /// The knowledge base could not be searched; the error's text.
    SearchFailed(String),
    /// The model's draft.
    Drafted(String),
    /// The model failed; the error's text.
    DraftFailed(String),
}

/// An outcome as specifications see it.
pub ghost enum OutcomeView {
    Nothing,
    Retrieved(Seq<(Seq<char>, Seq<char>, Seq<char>)>),
    EmbeddingFailed(Seq<char>),
    SearchFailed(Seq<char>),
    Drafted(Seq<char>),
    DraftFailed(Seq<char>),
}

/// The views of retrieved chunks: source, similarity and text.
pub open spec fn chunk_views(c: Seq<RetrievedChunk>) -> Seq<(Seq<char>, Seq<char>, Seq<char>)> {
    c.map_values(|r: RetrievedChunk| (r.source@, r.similarity@, r.text@))
}

impl View for StepOutcome {
    type V = OutcomeView;

    open spec fn view(&self) -> OutcomeView {
        match self {
            StepOutcome::Nothing => OutcomeView::Nothing,
            StepOutcome::Retrieved(c) => OutcomeView::Retrieved(chunk_views(c@)),
            StepOutcome::EmbeddingFailed(e) => OutcomeView::EmbeddingFailed(e@),
            StepOutcome::SearchFailed(e) => OutcomeView::SearchFailed(e@),
            StepOutcome::Drafted(d) => OutcomeView::Drafted(d@),
            StepOutcome::DraftFailed(e) => OutcomeView::DraftFailed(e@),
        }
    }
}

/// The outside work a step needs before it can be taken.
#[derive(Debug, Clone)]
pub enum Work {
    /// None.
    Nothing,
    /// Embed `query` and find the best `top_k` chunks for it.
    Retrieve { query: String, top_k: usize },
    /// Generate at most `max_tokens` tokens from `prompt`, streaming them.
    Generate { prompt: String, max_tokens: usize },
}

/// The prompt of the drafter.
pub open spec fn drafter_prompt(s: AgentView) -> Seq<char> {
    "Context: "@ + s.rag_context + "\n\nQuestion: "@ + s.query + "\n\nAssistant:"@
}

/// How many tokens the drafter may generate: 512 with the local model,
/// 1024 with the remote server.
pub open spec fn draft_budget(native: bool) -> nat {
    if native {
        512
    } else {
        1024
    }
}

/// Whether a query is about code: its lowercase form mentions `code` or
/// `rust`.
pub open spec fn code_query(q: Seq<char>) -> bool {
    contains(lowercase(q), "code"@) || contains(lowercase(q), "rust"@)
}

/// The line under which a retrieved chunk enters the context.
pub open spec fn cited(c: (Seq<char>, Seq<char>, Seq<char>)) -> Seq<char> {
    "[Source: "@ + c.0 + " (Sim: "@ + c.1 + ")] "@ + c.2
}

/// The lines of a list of retrieved chunks.
pub open spec fn cited_all(c: Seq<(Seq<char>, Seq<char>, Seq<char>)>) -> Seq<Seq<char>> {
    c.map_values(|x: (Seq<char>, Seq<char>, Seq<char>)| cited(x))
}

/// The retrieval context: the cited chunks separated by blank lines, or a
/// note that nothing was found.
pub open spec fn retrieval_text(c: Seq<(Seq<char>, Seq<char>, Seq<char>)>) -> Seq<char> {
    if c.len() == 0 {
        "No relevant context found in Rust RAG."@
    } else {
        join(cited_all(c), "\n\n"@)
    }
}

/// The final answer of the full path.
pub open spec fn synthesis(summary: Seq<char>, draft: Seq<char>) -> Seq<char> {
    "Rust Pure BL Executed.\n\nSummary: "@ + summary + "\n\nAnswer: "@ + draft
}

/// Whether `o` is what the outside work of `step` can come to.
pub open spec fn fits(step: WorkflowStep, o: OutcomeView) -> bool {
    match step {
        WorkflowStep::Retriever => o is Retrieved || o is EmbeddingFailed || o is SearchFailed,
        WorkflowStep::Drafter => o is Drafted || o is DraftFailed,
        _ => o is Nothing,
    }
}

/// The state after `step` and the step that follows it, or the error that
/// ends the run (the state is then left as it was).
pub open spec fn step_result(s: AgentView, step: WorkflowStep, native: bool, o: OutcomeView) -> (
    AgentView,
    Result<WorkflowStep, Seq<char>>,
) {
    match step {
        WorkflowStep::Router => (
            AgentView { is_complex: true, is_code: code_query(s.query), ..s },
            Ok(
                if s.image_paths.len() > 0 {
                    WorkflowStep::Vision
                } else {
                    WorkflowStep::Retriever
                },
            ),
        ),
        WorkflowStep::Vision => (s, Ok(WorkflowStep::Retriever)),
        WorkflowStep::Retriever => match o {
            OutcomeView::EmbeddingFailed(e) => (s, Err("Embedding Error: "@ + e)),
            OutcomeView::SearchFailed(e) => (s, Err("RAG Search Error: "@ + e)),
            OutcomeView::Retrieved(c) => (
                AgentView { rag_context: retrieval_text(c), ..s },
                Ok(
                    if s.is_complex {
                        WorkflowStep::Reasoner
                    } else {
                        WorkflowStep::SimpleResponse
                    },
                ),
            ),
            _ => (s, Ok(WorkflowStep::Retriever)),
        },
        WorkflowStep::Reasoner => (
            AgentView { logic_map: "Strategy: Native Rust RAG & BL Integration."@, ..s },
            Ok(WorkflowStep::Drafter),
        ),
        WorkflowStep::Drafter => match o {
            OutcomeView::Drafted(d) => (AgentView { draft: d, ..s }, Ok(WorkflowStep::Review)),
            OutcomeView::DraftFailed(e) => (
                s,
                Err(
                    if native {
                        "Native LLM Error: "@ + e
                    } else {
                        "Remote LLM Error: "@ + e
                    },
                ),
            ),
            _ => (s, Ok(WorkflowStep::Drafter)),
        },
        WorkflowStep::Review => (
            AgentView {
                critique_gemma: "Context retrieval from Rust RAG is integrated."@,
                critique_smollm: "Workflow is fully native Rust."@,
                devils_critique: "Verify embedding dimension alignment."@,
                ..s
            },
            Ok(WorkflowStep::ConflictDetector),
        ),
        WorkflowStep::ConflictDetector => (
            AgentView { conflict_summary: "RAG-driven answer refined."@, needs_loop: false, ..s },
            Ok(WorkflowStep::Synthesizer),
        ),
        WorkflowStep::Synthesizer => (
            AgentView { final_answer: synthesis(s.conflict_summary, s.draft), ..s },
            Ok(WorkflowStep::End),
        ),
        WorkflowStep::SimpleResponse => (
            AgentView { final_answer: "Simple response via Rust core."@, ..s },
            Ok(WorkflowStep::End),
        ),
        WorkflowStep::End => (s, Ok(WorkflowStep::End)),
    }
}

/// The outside work `step` needs: the retriever searches the three best
/// chunks for the query; the drafter generates from its prompt within its
/// budget.
pub fn work_for(step: WorkflowStep, state: &AgentState, native: bool) -> (w: Work)
    ensures
        step == WorkflowStep::Retriever ==> (w matches Work::Retrieve { query, top_k } && query@
            == state.query@ && top_k == 3),
        step == WorkflowStep::Drafter ==> (w matches Work::Generate { prompt, max_tokens } && prompt@
            == drafter_prompt(state@) && max_tokens == draft_budget(native)),
        step != WorkflowStep::Retriever && step != WorkflowStep::Drafter ==> w is Nothing,
{
    match step {
        WorkflowStep::Retriever => Work::Retrieve { query: state.query.clone(), top_k: 3 },
        WorkflowStep::Drafter => {
            let mut p = concat3("Context: ", state.rag_context.as_str(), "\n\nQuestion: ");
            push_str(&mut p, state.query.as_str());
            push_str(&mut p, "\n\nAssistant:");
            Work::Generate { prompt: p, max_tokens: if native { 512 } else { 1024 } }
        },
        _ => Work::Nothing,
    }
}

/// The retrieval context for the chunks found.
pub fn retrieval_context(chunks: &Vec<RetrievedChunk>) -> (s: String)
    ensures
        s@ == retrieval_text(chunk_views(chunks@)),
{
    if chunks.len() == 0 {
        return "No relevant context found in Rust RAG.".to_owned();
    }
    let mut parts: Vec<String> = Vec::new();
    let mut i: usize = 0;
    while i < chunks.len()
        invariant
            i <= chunks@.len(),
            parts@.len() == i,
            forall|k: int| 0 <= k < i ==> #[trigger] parts@[k]@ == cited(chunk_views(chunks@)[k]),
        decreases chunks.len() - i,
    {
        let c = &chunks[i];
        let mut line = concat3("[Source: ", c.source.as_str(), " (Sim: ");
        push_str(&mut line, c.similarity.as_str());
        push_str(&mut line, ")] ");
        push_str(&mut line, c.text.as_str());
        parts.push(line);
        i += 1;
    }
    assert(views(parts@) =~= cited_all(chunk_views(chunks@)));
    join_strings(&parts, "\n\n")
}

/// Whether the query is about code (mentions `code` or `rust` in any
/// case).
pub fn is_code_query(query: &str) -> (b: bool)
    ensures
        b == code_query(query@),
{
    let q = to_lowercase(query);
    str_contains(q.as_str(), "code") || str_contains(q.as_str(), "rust")
}

/// Takes `step` with the outcome of its outside work and returns the step
/// that follows, or the error that ends the run.
pub fn advance(state: &mut AgentState, step: WorkflowStep, native: bool, outcome: StepOutcome) -> (r:
    Result<WorkflowStep, String>)
    requires
        fits(step, outcome@),
    ensures
        (final(state)@, match r {
            Ok(n) => Ok(n),
            Err(e) => Err(e@),
        }) == step_result(old(state)@, step, native, outcome@),
{
    match step {
        WorkflowStep::Router => {
            state.is_complex = true;
            state.is_code = is_code_query(state.query.as_str());
            if state.image_paths.len() > 0 {
                Ok(WorkflowStep::Vision)
            } else {
                Ok(WorkflowStep::Retriever)
            }
        },
        WorkflowStep::Vision => Ok(WorkflowStep::Retriever),
        WorkflowStep::Retriever => match outcome {
            StepOutcome::EmbeddingFailed(e) => Err(concat2("Embedding Error: ", e.as_str())),
            StepOutcome::SearchFailed(e) => Err(concat2("RAG Search Error: ", e.as_str())),
            StepOutcome::Retrieved(c) => {
                state.rag_context = retrieval_context(&c);
                if state.is_complex {
                    Ok(WorkflowStep::Reasoner)
                } else {
                    Ok(WorkflowStep::SimpleResponse)
                }
            },
            _ => Ok(WorkflowStep::Retriever),
        },
        WorkflowStep::Reasoner => {
            state.logic_map = "Strategy: Native Rust RAG & BL Integration.".to_owned();
            Ok(WorkflowStep::Drafter)
        },
        WorkflowStep::Drafter => match outcome {
            StepOutcome::Drafted(d) => {
                state.draft = d;
                Ok(WorkflowStep::Review)
            },
            StepOutcome::DraftFailed(e) => {
                if native {
                    Err(concat2("Native LLM Error: ", e.as_str()))
                } else {
                    Err(concat2("Remote LLM Error: ", e.as_str()))
                }
            },
            _ => Ok(WorkflowStep::Drafter),
        },
        WorkflowStep::Review => {
            state.critique_gemma = "Context retrieval from Rust RAG is integrated.".to_owned();
            state.critique_smollm = "Workflow is fully native Rust.".to_owned();
            state.devils_critique = "Verify embedding dimension alignment.".to_owned();
            Ok(WorkflowStep::ConflictDetector)
        },
        WorkflowStep::ConflictDetector => {
            state.conflict_summary = "RAG-driven answer refined.".to_owned();
            state.needs_loop = false;
            Ok(WorkflowStep::Synthesizer)
        },
        WorkflowStep::Synthesizer => {
            let mut a = concat3(
                "Rust Pure BL Executed.\n\nSummary: ",
                state.conflict_summary.as_str(),
                "\n\nAnswer: ",
            );
            push_str(&mut a, state.draft.as_str());
            state.final_answer = a;
            Ok(WorkflowStep::End)
        },
        WorkflowStep::SimpleResponse => {
            state.final_answer = "Simple response via Rust core.".to_owned();
            Ok(WorkflowStep::End)
        },
        WorkflowStep::End => Ok(WorkflowStep::End),
    }
}

/// The text of the final event of a failed run.
pub fn execution_error(error: &str) -> (s: String)
    ensures
        s@ == "Execution Error: "@ + error@,
{
    concat2("Execution Error: ", error)
}

// ---------------------------------------------------------------------
// Laws of the workflow
// ---------------------------------------------------------------------

/// How many steps at most are left from `step`.
pub open spec fn steps_left(step: WorkflowStep) -> nat {
    match step {
        WorkflowStep::Router => 8,
        WorkflowStep::Vision => 7,
        WorkflowStep::Retriever => 6,
        WorkflowStep::Reasoner => 5,
        WorkflowStep::Drafter => 4,
        WorkflowStep::Review => 3,
        WorkflowStep::ConflictDetector => 2,
        WorkflowStep::Synthesizer => 1,
        WorkflowStep::SimpleResponse => 1,
        WorkflowStep::End => 0,
    }
}

/// Every run ends: each step taken with an outcome that fits it leads to a
/// step with fewer steps left, so a run from the router reaches `End` (or
/// an error) within eight steps.
pub proof fn run_terminates(s: AgentView, step: WorkflowStep, native: bool, o: OutcomeView)
    requires
        step != WorkflowStep::End,
        fits(step, o),
    ensures
        step_result(s, step, native, o).1 matches Ok(n) ==> steps_left(n) < steps_left(step),
{
}

/// The router marks every query complex, and no later step clears the
/// mark, so a run from the router never takes the simple response: the
/// retriever always leads to the reasoner.
pub proof fn router_leads_to_reasoning(
    s: AgentView,
    native: bool,
    step: WorkflowStep,
    o: OutcomeView,
    c: Seq<(Seq<char>, Seq<char>, Seq<char>)>,
)
    ensures
        step_result(s, WorkflowStep::Router, native, OutcomeView::Nothing).0.is_complex,
        s.is_complex ==> step_result(s, step, native, o).0.is_complex,
        s.is_complex ==> step_result(s, WorkflowStep::Retriever, native, OutcomeView::Retrieved(c)).1
            == Ok::<WorkflowStep, Seq<char>>(WorkflowStep::Reasoner),
{
}

/// The answer of the full path: review, conflict detection and synthesis
/// turn a draft into `Rust Pure BL Executed.` with the fixed summary and
/// the draft, whatever came before.
pub proof fn full_path_answer(s: AgentView, native: bool)
    ensures
        ({
            let s1 = step_result(s, WorkflowStep::Review, native, OutcomeView::Nothing).0;
            let s2 = step_result(s1, WorkflowStep::ConflictDetector, native, OutcomeView::Nothing).0;
            let r3 = step_result(s2, WorkflowStep::Synthesizer, native, OutcomeView::Nothing);
            &&& r3.1 == Ok::<WorkflowStep, Seq<char>>(WorkflowStep::End)
            &&& r3.0.final_answer == synthesis("RAG-driven answer refined."@, s.draft)
            &&& r3.0.draft == s.draft
        }),
{
}

/// A failed embedding, search or generation ends the run with its error
/// marked by where it happened, and the state is left as it was.
pub proof fn failures_end_the_run(s: AgentView, step: WorkflowStep, native: bool, o: OutcomeView)
    requires
        fits(step, o),
        o is EmbeddingFailed || o is SearchFailed || o is DraftFailed,
    ensures
        step_result(s, step, native, o).0 == s,
        step_result(s, step, native, o).1 is Err,
{
}

// ---------------------------------------------------------------------
// Knowledge base
// ---------------------------------------------------------------------

/// A chunk of the knowledge base: its text, its source and its embedding,
/// each component held as the bit pattern of its `f32`.
#[derive(Debug, Clone)]
pub struct DocumentChunk {
    pub text: String,
    pub source: String,
    pub embedding: Vec<u32>,
}

/// A chunk as specifications see it.
pub open spec fn doc_view(c: DocumentChunk) -> (Seq<char>, Seq<char>, Seq<u32>) {
    (c.text@, c.source@, c.embedding@)
}

/// The views of a list of chunks.
pub open spec fn doc_views(s: Seq<DocumentChunk>) -> Seq<(Seq<char>, Seq<char>, Seq<u32>)> {
    s.map_values(|c: DocumentChunk| doc_view(c))
}

/// The knowledge base of the native agent.
pub struct EliteRagManager {
    pub chunks: Vec<DocumentChunk>,
}

impl EliteRagManager {
    /// An empty knowledge base.
    pub fn new() -> (m: Self)
        ensures
            m.chunks@.len() == 0,
    {
        EliteRagManager { chunks: Vec::new() }
    }

    /// Adds a chunk at the end.
    pub fn add_chunk(&mut self, text: String, source: String, embedding: Vec<u32>)
        ensures
            doc_views(final(self).chunks@) == doc_views(old(self).chunks@).push(
                (text@, source@, embedding@),
            ),
    {
        let ghost t = text@;
        let ghost s = source@;
        let ghost e = embedding@;
        self.chunks.push(DocumentChunk { text, source, embedding });
        assert(doc_views(self.chunks@) =~= doc_views(old(self).chunks@).push((t, s, e)));
    }

    /// Adds `new_chunks` at the end, in order.
    pub fn extend_chunks(&mut self, new_chunks: Vec<DocumentChunk>)
        ensures
            doc_views(final(self).chunks@) == doc_views(old(self).chunks@) + doc_views(new_chunks@),
    {
        let mut i: usize = 0;
        let n = new_chunks.len();
        while i < n
            invariant
                n == new_chunks@.len(),
                i <= n,
                doc_views(self.chunks@) == doc_views(old(self).chunks@) + doc_views(
                    new_chunks@,
                ).take(i as int),
            decreases n - i,
        {
            let ghost before = self.chunks@;
            self.chunks.push(
                DocumentChunk {
                    text: new_chunks[i].text.clone(),
                    source: new_chunks[i].source.clone(),
                    embedding: copy_bits(&new_chunks[i].embedding),
                },
            );
            assert(doc_views(self.chunks@) =~= doc_views(before).push(
                doc_view(new_chunks@[i as int]),
            ));
            assert(doc_views(new_chunks@).take(i + 1) =~= doc_views(new_chunks@).take(i as int).push(
                doc_view(new_chunks@[i as int]),
            ));
            i += 1;
        }
        assert(doc_views(new_chunks@).take(n as int) =~= doc_views(new_chunks@));
    }

    /// The number of chunks.
    pub fn len(&self) -> (n: usize)
        ensures
            n == self.chunks@.len(),
    {
        self.chunks.len()
    }

    /// The positions of the best `top_k` chunks for a query, best first,
    /// equal similarities in their order in the base. `keys[i]` orders the
    /// similarity of chunk `i` to the query (a larger key is a larger
    /// similarity) and `admitted[i]` says whether chunk `i` has a non-zero
    /// embedding. Nothing is found in an empty base or for a zero query.
    pub fn search(&self, keys: &Vec<i64>, admitted: &Vec<bool>, query_nonzero: bool, top_k: usize) -> (r:
        Vec<usize>)
        requires
            keys@.len() == self.chunks@.len(),
            admitted@.len() == self.chunks@.len(),
        ensures
            self.chunks@.len() == 0 || !query_nonzero ==> r@.len() == 0,
            self.chunks@.len() > 0 && query_nonzero ==> is_top_k(keys@, admitted@, top_k as nat, r@),
    {
        if self.chunks.len() == 0 || !query_nonzero {
            return Vec::new();
        }
        rank_top_k(keys, admitted, top_k)
    }
}

fn copy_bits(v: &Vec<u32>) -> (r: Vec<u32>)
    ensures
        r@ == v@,
{
    let mut r: Vec<u32> = Vec::new();
    let mut i: usize = 0;
    while i < v.len()
        invariant
            i <= v@.len(),
            r@ == v@.take(i as int),
        decreases v.len() - i,
    {
        r.push(v[i]);
        assert(r@ =~= v@.take(i + 1));
        i += 1;
    }
    assert(v@.take(v@.len() as int) =~= v@);
    r
}

// ---------------------------------------------------------------------
// Token stream of an OpenAI-compatible server
// ---------------------------------------------------------------------

/// The tokens that the lines `ls` of one piece of the stream carry: each
/// `data: ` line holds a JSON document whose `choices[0].delta.content` is
/// the token; a `[DONE]` line ends the piece.
pub open spec fn oai_tokens(ls: Seq<Seq<char>>) -> Seq<Seq<char>>
    decreases ls.len(),
{
    if ls.len() == 0 {
        seq![]
    } else if starts_with(ls[0], "data: "@) {
        let data = trim(strip_all(ls[0], "data: "@));
        if data == "[DONE]"@ {
            seq![]
        } else {
            match json_delta_content(data) {
                Some(c) => seq![c] + oai_tokens(ls.drop_first()),
                None => oai_tokens(ls.drop_first()),
            }
        }
    } else {
        oai_tokens(ls.drop_first())
    }
}

/// The tokens carried by one received piece of the stream, in order.
pub fn oai_stream_tokens(text: &str) -> (tokens: Vec<String>)
    ensures
        views(tokens@) == oai_tokens(lines(text@)),
{
    proof {
        reveal_strlit("data: ");
        reveal_strlit("[DONE]");
    }
    let ls = lines_of(text);
    assert(views(ls@) =~= lines(text@));
    let prefix = chars_of("data: ");
    let mut tokens: Vec<String> = Vec::new();
    let mut i: usize = 0;
    assert(views(ls@).skip(0) =~= views(ls@));
    assert(views(tokens@) + oai_tokens(lines(text@)) =~= oai_tokens(lines(text@)));
    while i < ls.len()
        invariant
            i <= ls@.len(),
            prefix@ == "data: "@,
            views(ls@) == lines(text@),
            oai_tokens(lines(text@)) == views(tokens@) + oai_tokens(views(ls@).skip(i as int)),
        decreases ls.len() - i,
    {
        let ghost rest = views(ls@).skip(i as int);
        assert(rest[0] == ls@[i as int]@);
        assert(rest.drop_first() =~= views(ls@).skip(i + 1));
        let line = chars_of(ls[i].as_str());
        if starts_with_chars(&line, &prefix) {
            let stripped = strip_all_str(ls[i].as_str(), "data: ");
            let data = trim_str(stripped.as_str());
            if str_eq(data.as_str(), "[DONE]") {
                assert(oai_tokens(rest) =~= seq![]);
                assert(views(tokens@) + seq![] =~= views(tokens@));
                return tokens;
            }
            match read_delta_content(data.as_str()) {
                Some(c) => {
                    let ghost before = tokens@;
                    let ghost cv = c@;
                    tokens.push(c);
                    assert(views(tokens@) =~= views(before).push(cv));
                    assert(views(before) + (seq![cv] + oai_tokens(rest.drop_first())) =~= views(
                        tokens@,
                    ) + oai_tokens(rest.drop_first()));
                },
                None => {},
            }
        }
        i += 1;
    }
    assert(views(ls@).skip(ls@.len() as int) =~= Seq::<Seq<char>>::empty());
    assert(views(tokens@) + seq![] =~= views(tokens@));
    tokens
}

} // verus!
