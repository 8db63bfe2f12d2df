//! The adversarial consensus protocol: Melchior drafts, the other units
//! criticise, the orchestrator scores the draft against the critiques, and
//! Melchior refines until the score reaches the rigor's threshold or the
//! rigor's number of cycles is spent.
//!
//! The model calls themselves are made by the caller; this module decides
//! what to ask, reads what came back and says what comes next.
use vstd::prelude::*;
use crate::domain::{AgentState, AgentStateView, ConsensusRigor, MagiError, pairs_view, rigor_name};
use crate::json::{json_string_array, parse_string_array};
use crate::lines::{after_last, after_last_of, lines, lines_of};
use crate::text::{
    chars_of, concat2, concat3, contains, dec, join, parse_u32, parse_u32_str, push_str,
    str_contains, trim, trim_str, u64_to_dec, views,
};

verus! {

// ---------------------------------------------------------------------
// Rigor
// ---------------------------------------------------------------------

/// The number of critique cycles a rigor level allows.
pub open spec fn loops_for(r: ConsensusRigor) -> nat {
    match r {
        ConsensusRigor::Weak => 1,
        ConsensusRigor::Standard => 2,
        ConsensusRigor::Strong => 4,
    }
}

/// The consensus score (out of 100) a rigor level asks for.
pub open spec fn threshold_for(r: ConsensusRigor) -> u32 {
    match r {
        ConsensusRigor::Weak => 50,
        ConsensusRigor::Standard => 75,
        ConsensusRigor::Strong => 90,
    }
}

/// The number of critique cycles `rigor` allows.
pub fn max_loops(rigor: ConsensusRigor) -> (n: usize)
    ensures
        n == loops_for(rigor),
{
    match rigor {
        ConsensusRigor::Weak => 1,
        ConsensusRigor::Standard => 2,
        ConsensusRigor::Strong => 4,
    }
}

/// The consensus score `rigor` asks for.
pub fn consensus_threshold(rigor: ConsensusRigor) -> (t: u32)
    ensures
        t == threshold_for(rigor),
{
    match rigor {
        ConsensusRigor::Weak => 50,
        ConsensusRigor::Standard => 75,
        ConsensusRigor::Strong => 90,
    }
}

// ---------------------------------------------------------------------
// Scoring
// ---------------------------------------------------------------------


/// `pre + unit + mid + text` for each `(unit, text)` pair.
pub open spec fn labelled_lines(
    v: Seq<(Seq<char>, Seq<char>)>,
    pre: Seq<char>,
    mid: Seq<char>,
) -> Seq<Seq<char>>
    decreases v.len(),
{
    if v.len() == 0 {
        seq![]
    } else {
        labelled_lines(v.drop_last(), pre, mid).push(pre + v.last().0 + mid + v.last().1)
    }
}

proof fn lemma_labelled_lines_len(v: Seq<(Seq<char>, Seq<char>)>, pre: Seq<char>, mid: Seq<char>)
    ensures
        labelled_lines(v, pre, mid).len() == v.len(),
    decreases v.len(),
{
    if v.len() > 0 {
        lemma_labelled_lines_len(v.drop_last(), pre, mid);
    }
}

/// The lines `pre + unit + mid + text` for the pairs of `v`, joined with
/// newlines.
fn format_pairs(v: &Vec<(String, String)>, pre: &str, mid: &str) -> (s: String)
    ensures
        s@ == join(labelled_lines(pairs_view(v@), pre@, mid@), seq!['\n']),
{
    let mut parts: Vec<String> = Vec::new();
    let mut i: usize = 0;
    while i < v.len()
        invariant
            i <= v.len(),
            parts.len() == i,
            views(parts@) == labelled_lines(pairs_view(v@).take(i as int), pre@, mid@),
        decreases v.len() - i,
    {
        let mut line = concat3(pre, v[i].0.as_str(), mid);
        push_str(&mut line, v[i].1.as_str());
        let ghost before = parts@;
        parts.push(line);
        proof {
            lemma_labelled_lines_len(pairs_view(v@).take(i as int), pre@, mid@);
            assert(pairs_view(v@).take(i + 1).drop_last() =~= pairs_view(v@).take(i as int));
            assert(pairs_view(v@).take(i + 1).last() == (v@[i as int].0@, v@[i as int].1@));
            assert(views(parts@) =~= views(before).push(parts@[i as int]@));
        }
        i += 1;
    }
    assert(pairs_view(v@).take(v.len() as int) =~= pairs_view(v@));
    proof {
        reveal_strlit("\n");
        assert("\n"@ =~= seq!['\n']);
    }
    crate::text::join_strings(&parts, "\n")
}

/// The text asking the orchestrator to score `draft` against `critiques`.
pub open spec fn consensus_prompt_text(
    draft: Seq<char>,
    critiques: Seq<(Seq<char>, Seq<char>)>,
) -> Seq<char> {
    "Evaluate the following draft based on accuracy, sociological depth, and addressing of critiques.\n        \n        Draft: "@
        + draft + "\n        Critiques: "@ + join(labelled_lines(critiques, seq![], ": "@), seq!['\n'])
        + "\n        \n        Task: Provide a consensus score from 0 to 100. Consider if the draft has successfully integrated the critical improvements provided.\n        Format: SCORE: [number]"@
}

/// The prompt that asks the orchestrator to score a draft against the
/// critiques it received.
pub fn consensus_prompt(draft: &str, critiques: &Vec<(String, String)>) -> (p: String)
    ensures
        p@ == consensus_prompt_text(draft@, pairs_view(critiques@)),
{
    let summary = format_pairs(critiques, "", ": ");
    proof {
        reveal_strlit("");
        assert(""@ =~= Seq::<char>::empty());
    }
    let mut p = concat3(
        "Evaluate the following draft based on accuracy, sociological depth, and addressing of critiques.\n        \n        Draft: ",
        draft,
        "\n        Critiques: ",
    );
    push_str(&mut p, summary.as_str());
    push_str(
        &mut p,
        "\n        \n        Task: Provide a consensus score from 0 to 100. Consider if the draft has successfully integrated the critical improvements provided.\n        Format: SCORE: [number]",
    );
    p
}

/// The position of the first line of `ls` at or after `i` that contains
/// `p`, if any.
pub open spec fn first_containing(ls: Seq<Seq<char>>, p: Seq<char>, i: int) -> Option<int>
    decreases ls.len() - i,
{
    if i < 0 || i >= ls.len() {
        None
    } else if contains(ls[i], p) {
        Some(i)
    } else {
        first_containing(ls, p, i + 1)
    }
}

/// The score an evaluation states: on its first line that contains
/// `"SCORE:"`, what follows the last `':'`, trimmed and read as a `u32`;
/// 0 when there is no such line or it does not read as a number.
pub open spec fn stated_score(response: Seq<char>) -> u32 {
    let ls = lines(response);
    match first_containing(ls, "SCORE:"@, 0) {
        Some(i) => match parse_u32(trim(after_last(ls[i], ':'))) {
            Some(v) => v,
            None => 0,
        },
        None => 0,
    }
}

/// The score that the evaluation `response` states (0 when it states none).
pub fn parse_consensus_score(response: &str) -> (score: u32)
    ensures
        score == stated_score(response@),
{
    let ls = lines_of(response);
    let ghost lv = ls@.map_values(|l: String| l@);
    let mut i: usize = 0;
    while i < ls.len()
        invariant
            i <= ls.len(),
            lv == ls@.map_values(|l: String| l@),
            lv == lines(response@),
            first_containing(lv, "SCORE:"@, 0) == first_containing(lv, "SCORE:"@, i as int),
        decreases ls.len() - i,
    {
        if str_contains(ls[i].as_str(), "SCORE:") {
            assert(lv[i as int] == ls@[i as int]@);
            let v = chars_of(ls[i].as_str());
            let tail = after_last_of(&v, ':');
            let t = trim_str(tail.as_str());
            return match parse_u32_str(t.as_str()) {
                Some(s) => s,
                None => 0,
            };
        }
        assert(lv[i as int] == ls@[i as int]@);
        i += 1;
    }
    0
}

/// Whether a draft is accepted: always under `Weak` rigor, otherwise when
/// the score stated by the orchestrator's evaluation reaches the rigor's
/// threshold.
pub fn consensus_reached(rigor: ConsensusRigor, evaluation: &str) -> (ok: bool)
    ensures
        ok == (rigor == ConsensusRigor::Weak || stated_score(evaluation@) >= threshold_for(
            rigor,
        )),
{
    if let ConsensusRigor::Weak = rigor {
        return true;
    }
    let score = parse_consensus_score(evaluation);
    score >= consensus_threshold(rigor)
}

// ---------------------------------------------------------------------
// Drafting and critique prompts
// ---------------------------------------------------------------------

/// The prompt asking Melchior for the first draft answering `query`.
pub open spec fn initial_draft_prompt_text(query: Seq<char>) -> Seq<char> {
    "You are Melchior, the lead architect. Provide a high-fidelity initial response for: "@ + query
        + ". \n        Focus on academic precision, structural integrity, and logical consistency. \n        This draft will be audited by other units, so ensure it is robust yet open to specialized refinement."@
}

/// The prompt asking Melchior for the first draft answering the state's
/// query.
pub fn initial_draft_prompt(state: &AgentState) -> (p: String)
    ensures
        p@ == initial_draft_prompt_text(state.query@),
{
    concat3(
        "You are Melchior, the lead architect. Provide a high-fidelity initial response for: ",
        state.query.as_str(),
        ". \n        Focus on academic precision, structural integrity, and logical consistency. \n        This draft will be audited by other units, so ensure it is robust yet open to specialized refinement.",
    )
}

/// The prompt asking Melchior to merge `draft` and the critiques.
pub open spec fn refine_prompt_text(
    draft: Seq<char>,
    critiques: Seq<(Seq<char>, Seq<char>)>,
) -> Seq<char> {
    "Synthesize the following draft and specialized adversarial critiques into a final authoritative response.\n        \n        Original Draft: "@
        + draft + "\n        \n        Adversarial Critiques:\n        "@ + join(
        labelled_lines(critiques, "UNIT ["@, "]: "@),
        seq!['\n'],
    )
        + "\n        \n        Instructions:\n        1. Address all identified weaknesses with technical and sociological depth.\n        2. Resolve any contradictions between unit perspectives.\n        3. Maintain an elitist, analytical, and objective tone.\n        4. Produce the definitive MAGI consensus report."@
}

/// The prompt asking Melchior to merge a draft and its critiques into the
/// final report.
pub fn refine_prompt(draft: &str, critiques: &Vec<(String, String)>) -> (p: String)
    ensures
        p@ == refine_prompt_text(draft@, pairs_view(critiques@)),
{
    let context = format_pairs(critiques, "UNIT [", "]: ");
    let mut p = concat3(
        "Synthesize the following draft and specialized adversarial critiques into a final authoritative response.\n        \n        Original Draft: ",
        draft,
        "\n        \n        Adversarial Critiques:\n        ",
    );
    push_str(&mut p, context.as_str());
    push_str(
        &mut p,
        "\n        \n        Instructions:\n        1. Address all identified weaknesses with technical and sociological depth.\n        2. Resolve any contradictions between unit perspectives.\n        3. Maintain an elitist, analytical, and objective tone.\n        4. Produce the definitive MAGI consensus report.",
    );
    p
}

/// Whether a unit takes part in the critique round: every unit but the one
/// named exactly `"Melchior"`, which wrote the draft.
pub fn is_critic(name: &str) -> (b: bool)
    ensures
        b == (name@ != "Melchior"@),
{
    let v = chars_of(name);
    let m = chars_of("Melchior");
    if v.len() != m.len() {
        return true;
    }
    let mut i: usize = 0;
    while i < v.len()
        invariant
            i <= v.len(),
            v.len() == m.len(),
            v@ == name@,
            m@ == "Melchior"@,
            forall|k: int| 0 <= k < i ==> v@[k] == m@[k],
        decreases v.len() - i,
    {
        if v[i] != m[i] {
            return true;
        }
        i += 1;
    }
    assert(v@ =~= m@);
    false
}

/// The review task a unit is given, by the persona its name mentions.
pub open spec fn critique_focus(name: Seq<char>) -> Seq<char> {
    if contains(name, "Melchior"@) {
        "Verify logic, academic terminology, and theoretical consistency."@
    } else if contains(name, "Balthasar"@) {
        "Analyze conversational flow, accessibility, and human-centric impact."@
    } else if contains(name, "Casper"@) {
        "Evaluate the balance of viewpoints and check for missing consensus vectors."@
    } else if contains(name, "Artaban"@) {
        "Perform a sociological audit: identify systemic biases or hidden risks."@
    } else if contains(name, "Gushnasaph"@) {
        "Conduct a technical/structural review: check for implementation flaws or architectural gaps."@
    } else if contains(name, "Kagba"@) {
        "Verify empirical data, mathematical soundness, and quantitative precision."@
    } else {
        "Identify the single most critical weakness in this draft."@
    }
}

/// The personas of the roster, in the order in which a unit's name is
/// matched against them, each with its review task.
pub open spec fn persona_tasks() -> Seq<(Seq<char>, Seq<char>)> {
    seq![
        ("Melchior"@, "Verify logic, academic terminology, and theoretical consistency."@),
        ("Balthasar"@, "Analyze conversational flow, accessibility, and human-centric impact."@),
        ("Casper"@, "Evaluate the balance of viewpoints and check for missing consensus vectors."@),
        ("Artaban"@, "Perform a sociological audit: identify systemic biases or hidden risks."@),
        (
            "Gushnasaph"@,
            "Conduct a technical/structural review: check for implementation flaws or architectural gaps."@,
        ),
        ("Kagba"@, "Verify empirical data, mathematical soundness, and quantitative precision."@),
    ]
}

/// Each critic reviews by its persona: a unit whose name mentions the
/// persona at position `i` of the roster, and none before it, is asked for
/// that persona's task (a name with Kagba, for one, is asked for
/// quantitative precision); a unit whose name mentions none of them is
/// asked for the draft's most critical weakness.
pub proof fn critic_gets_its_persona_task(name: Seq<char>, draft: Seq<char>, i: int)
    requires
        0 <= i <= persona_tasks().len(),
        forall|j: int| 0 <= j < i ==> !contains(name, #[trigger] persona_tasks()[j].0),
        i < persona_tasks().len() ==> contains(name, persona_tasks()[i].0),
    ensures
        critique_prompt_text(name, draft) == "Draft: "@ + draft + "\n\nYour Task: "@ + (if i
            < persona_tasks().len() {
            persona_tasks()[i].1
        } else {
            "Identify the single most critical weakness in this draft."@
        }) + ". Provide one actionable improvement to elevate its authority."@,
{
    let t = persona_tasks();
    if i > 0 {
        assert(!contains(name, t[0].0));
    }
    if i > 1 {
        assert(!contains(name, t[1].0));
    }
    if i > 2 {
        assert(!contains(name, t[2].0));
    }
    if i > 3 {
        assert(!contains(name, t[3].0));
    }
    if i > 4 {
        assert(!contains(name, t[4].0));
    }
    if i > 5 {
        assert(!contains(name, t[5].0));
    }
}

/// The prompt a critic named `name` receives for `draft`.
pub open spec fn critique_prompt_text(name: Seq<char>, draft: Seq<char>) -> Seq<char> {
    "Draft: "@ + draft + "\n\nYour Task: "@ + critique_focus(name)
        + ". Provide one actionable improvement to elevate its authority."@
}

/// The prompt the critic named `name` receives for `draft`.
pub fn critique_prompt(name: &str, draft: &str) -> (p: String)
    ensures
        p@ == critique_prompt_text(name@, draft@),
{
    let focus = if str_contains(name, "Melchior") {
        "Verify logic, academic terminology, and theoretical consistency."
    } else if str_contains(name, "Balthasar") {
        "Analyze conversational flow, accessibility, and human-centric impact."
    } else if str_contains(name, "Casper") {
        "Evaluate the balance of viewpoints and check for missing consensus vectors."
    } else if str_contains(name, "Artaban") {
        "Perform a sociological audit: identify systemic biases or hidden risks."
    } else if str_contains(name, "Gushnasaph") {
        "Conduct a technical/structural review: check for implementation flaws or architectural gaps."
    } else if str_contains(name, "Kagba") {
        "Verify empirical data, mathematical soundness, and quantitative precision."
    } else {
        "Identify the single most critical weakness in this draft."
    };
    let mut p = concat3("Draft: ", draft, "\n\nYour Task: ");
    push_str(&mut p, focus);
    push_str(&mut p, ". Provide one actionable improvement to elevate its authority.");
    p
}

/// The name under which a critic's streamed tokens are reported.
pub fn critic_label(name: &str) -> (s: String)
    ensures
        s@ == name@ + " (Critic)"@,
{
    concat2(name, " (Critic)")
}

// ---------------------------------------------------------------------
// Search strategy
// ---------------------------------------------------------------------

/// The prompt asking for search vectors for `query`.
pub fn search_strategy_prompt(query: &str) -> (p: String)
    ensures
        p@ == "You are the MAGI Search Architect. Identify 3 distinct search vectors for: "@
            + query@ + ". Output ONLY JSON array."@,
{
    concat3(
        "You are the MAGI Search Architect. Identify 3 distinct search vectors for: ",
        query,
        ". Output ONLY JSON array.",
    )
}

/// The search queries to run: the strings of the response when it is a
/// JSON array of strings, otherwise the query itself.
pub open spec fn strategy_queries(query: Seq<char>, response: Seq<char>) -> Seq<Seq<char>> {
    match json_string_array(response) {
        Some(q) => q,
        None => seq![query],
    }
}

/// The search queries that a strategy response gives for `query`.
pub fn search_queries(query: &str, response: &str) -> (q: Vec<String>)
    ensures
        views(q@) == strategy_queries(query@, response@),
{
    match parse_string_array(response) {
        Some(v) => v,
        None => {
            let mut v: Vec<String> = Vec::new();
            v.push(query.to_owned());
            assert(views(v@) =~= seq![query@]);
            v
        },
    }
}

// ---------------------------------------------------------------------
// Units
// ---------------------------------------------------------------------

/// The position of the first name in `names` that contains `wanted`.
pub open spec fn first_unit_matching(names: Seq<Seq<char>>, wanted: Seq<char>, i: int) -> Option<
    int,
>
    decreases names.len() - i,
{
    if i < 0 || i >= names.len() {
        None
    } else if contains(names[i], wanted) {
        Some(i)
    } else {
        first_unit_matching(names, wanted, i + 1)
    }
}

/// The first unit whose name contains `wanted`, or the error the engine
/// reports when there is none.
pub fn find_unit(names: &Vec<String>, wanted: &str) -> (r: Result<usize, MagiError>)
    ensures
        match first_unit_matching(views(names@), wanted@, 0) {
            Some(i) => r == Ok::<usize, MagiError>(i as usize),
            None => r matches Err(MagiError::InternalError(m)) && m@ == "Unit matching '"@
                + wanted@ + "' not found"@,
        },
{
    let mut i: usize = 0;
    while i < names.len()
        invariant
            i <= names.len(),
            first_unit_matching(views(names@), wanted@, 0) == first_unit_matching(
                views(names@),
                wanted@,
                i as int,
            ),
        decreases names.len() - i,
    {
        assert(views(names@)[i as int] == names@[i as int]@);
        if str_contains(names[i].as_str(), wanted) {
            return Ok(i);
        }
        i += 1;
    }
    Err(MagiError::InternalError(concat3("Unit matching '", wanted, "' not found")))
}

// ---------------------------------------------------------------------
// The protocol as a state machine
// ---------------------------------------------------------------------

/// Where the adversarial protocol stands; cycles count from 1.
#[derive(Debug, PartialEq, Eq, Structural, Clone, Copy)]
pub enum LoopPhase {
    /// Waiting for Melchior's first draft.
    Drafting,
    /// Waiting for the critiques of cycle `n`.
    Critiquing(usize),
    /// Waiting for the orchestrator's score of cycle `n`.
    Scoring(usize),
    /// Waiting for Melchior's refinement of cycle `n`.
    Refining(usize),
    /// The current draft is the answer.
    Finished,
}

/// The adversarial protocol for one query.
pub struct AdversarialLoop {
    pub rigor: ConsensusRigor,
    pub max_loops: usize,
    pub phase: LoopPhase,
}

/// What is left of the protocol from `phase`: each step lowers it.
pub open spec fn remaining_work(max: nat, phase: LoopPhase) -> nat {
    match phase {
        LoopPhase::Drafting => 3 * max + 1,
        LoopPhase::Critiquing(n) => (3 * (max - n) + 3) as nat,
        LoopPhase::Scoring(n) => (3 * (max - n) + 2) as nat,
        LoopPhase::Refining(n) => (3 * (max - n) + 1) as nat,
        LoopPhase::Finished => 0,
    }
}

impl AdversarialLoop {
    /// The protocol is well formed: its cycle number lies between 1 and the
    /// rigor's number of cycles.
    pub open spec fn wf(&self) -> bool {
        &&& self.max_loops == loops_for(self.rigor)
        &&& match self.phase {
            LoopPhase::Critiquing(n) | LoopPhase::Scoring(n) | LoopPhase::Refining(n) => 1 <= n
                <= self.max_loops,
            _ => true,
        }
    }

    /// A protocol that waits for the first draft.
    pub fn new(rigor: ConsensusRigor) -> (l: Self)
        ensures
            l.wf(),
            l.rigor == rigor,
            l.phase == LoopPhase::Drafting,
    {
        AdversarialLoop { rigor, max_loops: max_loops(rigor), phase: LoopPhase::Drafting }
    }

    /// The first draft has come: cycle 1 asks for critiques.
    pub fn draft_ready(&mut self)
        requires
            old(self).wf(),
            old(self).phase == LoopPhase::Drafting,
        ensures
            final(self).wf(),
            final(self).rigor == old(self).rigor,
            final(self).phase == LoopPhase::Critiquing(1),
            remaining_work(final(self).max_loops as nat, final(self).phase) < remaining_work(
                old(self).max_loops as nat,
                old(self).phase,
            ),
    {
        self.phase = LoopPhase::Critiquing(1);
    }

    /// The critiques of the cycle have come: under `Weak` rigor the draft is
    /// accepted, otherwise it is scored.
    pub fn critiques_ready(&mut self)
        requires
            old(self).wf(),
            old(self).phase is Critiquing,
        ensures
            final(self).wf(),
            final(self).rigor == old(self).rigor,
            final(self).phase == if old(self).rigor == ConsensusRigor::Weak {
                LoopPhase::Finished
            } else {
                LoopPhase::Scoring(old(self).phase->Critiquing_0)
            },
            remaining_work(final(self).max_loops as nat, final(self).phase) < remaining_work(
                old(self).max_loops as nat,
                old(self).phase,
            ),
    {
        if let LoopPhase::Critiquing(n) = self.phase {
            if let ConsensusRigor::Weak = self.rigor {
                self.phase = LoopPhase::Finished;
            } else {
                self.phase = LoopPhase::Scoring(n);
            }
        }
    }

    /// The score of the cycle is known: an accepted draft ends the
    /// protocol, otherwise Melchior refines it.
    pub fn score_ready(&mut self, reached: bool)
        requires
            old(self).wf(),
            old(self).phase is Scoring,
        ensures
            final(self).wf(),
            final(self).rigor == old(self).rigor,
            final(self).phase == if reached {
                LoopPhase::Finished
            } else {
                LoopPhase::Refining(old(self).phase->Scoring_0)
            },
            remaining_work(final(self).max_loops as nat, final(self).phase) < remaining_work(
                old(self).max_loops as nat,
                old(self).phase,
            ),
    {
        if let LoopPhase::Scoring(n) = self.phase {
            if reached {
                self.phase = LoopPhase::Finished;
            } else {
                self.phase = LoopPhase::Refining(n);
            }
        }
    }

    /// The refinement of the cycle has come: the next cycle asks for
    /// critiques, or the protocol ends after its last cycle.
    pub fn refinement_ready(&mut self)
        requires
            old(self).wf(),
            old(self).phase is Refining,
        ensures
            final(self).wf(),
            final(self).rigor == old(self).rigor,
            final(self).phase == if old(self).phase->Refining_0 < old(self).max_loops {
                LoopPhase::Critiquing((old(self).phase->Refining_0 + 1) as usize)
            } else {
                LoopPhase::Finished
            },
            remaining_work(final(self).max_loops as nat, final(self).phase) < remaining_work(
                old(self).max_loops as nat,
                old(self).phase,
            ),
    {
        if let LoopPhase::Refining(n) = self.phase {
            if n < self.max_loops {
                self.phase = LoopPhase::Critiquing(n + 1);
            } else {
                self.phase = LoopPhase::Finished;
            }
        }
    }
}

/// The protocol ends: from any well-formed phase, fewer than
/// `3 * max_loops + 2` steps remain, so at most `max_loops` refinements
/// are ever asked for.
pub proof fn adversarial_loop_is_bounded(l: AdversarialLoop)
    requires
        l.wf(),
    ensures
        remaining_work(l.max_loops as nat, l.phase) <= 3 * loops_for(l.rigor) + 1,
        l.phase is Refining ==> l.phase->Refining_0 <= loops_for(l.rigor),
{
}

// ---------------------------------------------------------------------
// Messages of the protocol
// ---------------------------------------------------------------------

/// The status announcing the protocol.
pub fn protocol_status(rigor: ConsensusRigor) -> (s: String)
    ensures
        s@ == "[MAGI] Initializing Adversarial Protocol (Rigor: "@ + rigor_name(rigor) + ")"@,
{
    concat3("[MAGI] Initializing Adversarial Protocol (Rigor: ", rigor.name(), ")")
}

/// The status announcing cycle `i` of `max`.
pub fn cycle_status(i: usize, max: usize) -> (s: String)
    ensures
        s@ == "[MAGI] Loop "@ + dec(i as nat) + "/"@ + dec(max as nat)
            + " - Cross-Unit Adversarial Auditing"@,
{
    let a = u64_to_dec(i as u64);
    let b = u64_to_dec(max as u64);
    let mut s = concat3("[MAGI] Loop ", a.as_str(), "/");
    push_str(&mut s, b.as_str());
    push_str(&mut s, " - Cross-Unit Adversarial Auditing");
    s
}

/// The status announcing the refinement of cycle `i`.
pub fn refinement_status(i: usize) -> (s: String)
    ensures
        s@ == "[MAGI] Cycle "@ + dec(i as nat) + " - Applying adversarial refinements..."@,
{
    let a = u64_to_dec(i as u64);
    concat3("[MAGI] Cycle ", a.as_str(), " - Applying adversarial refinements...")
}

/// The source under which the refined draft of cycle `i` is remembered.
pub fn refined_draft_source(i: usize) -> (s: String)
    ensures
        s@ == "Melchior (Refined Draft - Cycle "@ + dec(i as nat) + ")"@,
{
    let a = u64_to_dec(i as u64);
    concat3("Melchior (Refined Draft - Cycle ", a.as_str(), ")")
}

/// The source under which a unit's critique is remembered.
pub fn critique_source(unit: &str) -> (s: String)
    ensures
        s@ == unit@ + " (Critique)"@,
{
    concat2(unit, " (Critique)")
}

/// Whether a critique is worth remembering: it holds more than whitespace.
pub fn worth_remembering(critique: &str) -> (b: bool)
    ensures
        b == (trim(critique@).len() > 0),
{
    let t = trim_str(critique);
    !t.as_str().is_empty()
}

/// Records a new draft in the state's revision history.
pub fn record_draft(state: &mut AgentState, draft: &str)
    ensures
        final(state)@ == (AgentStateView {
            revision_history: old(state)@.revision_history.push(draft@),
            ..old(state)@
        }),
        final(state).revision_history@.len() == old(state).revision_history@.len() + 1,
        final(state).revision_history@.last()@ == draft@,
        final(state).revision_history@.drop_last() == old(state).revision_history@,
        final(state).critique_logs@ == old(state).critique_logs@,
        final(state).query@ == old(state).query@,
{
    state.revision_history.push(draft.to_owned());
    assert(state.revision_history@.drop_last() =~= old(state).revision_history@);
}

/// Appends the critiques of a cycle to the state's critique log.
pub fn record_critiques(state: &mut AgentState, critiques: &Vec<(String, String)>)
    ensures
        final(state)@ == (AgentStateView {
            critique_logs: old(state)@.critique_logs + pairs_view(critiques@),
            ..old(state)@
        }),
        pairs_view(final(state).critique_logs@) == pairs_view(old(state).critique_logs@)
            + pairs_view(critiques@),
        final(state).revision_history@ == old(state).revision_history@,
        final(state).query@ == old(state).query@,
{
    let mut i: usize = 0;
    while i < critiques.len()
        invariant
            i <= critiques.len(),
            pairs_view(state.critique_logs@) == pairs_view(old(state).critique_logs@) + pairs_view(
                critiques@,
            ).take(i as int),
            state@ == (AgentStateView { critique_logs: state@.critique_logs, ..old(state)@ }),
            state.revision_history@ == old(state).revision_history@,
            state.query@ == old(state).query@,
        decreases critiques.len() - i,
    {
        let pair = (critiques[i].0.as_str().to_owned(), critiques[i].1.as_str().to_owned());
        let ghost before = state.critique_logs@;
        state.critique_logs.push(pair);
        proof {
            let lhs = pairs_view(state.critique_logs@);
            let rhs = pairs_view(before).push((critiques@[i as int].0@, critiques@[i as int].1@));
            assert forall|k: int| 0 <= k < lhs.len() implies lhs[k] == rhs[k] by {
                if k < before.len() {
                    assert(state.critique_logs@[k] == before[k]);
                }
            }
            assert(lhs =~= rhs);
        }
        assert(pairs_view(critiques@).take(i + 1) =~= pairs_view(critiques@).take(i as int).push(
            (critiques@[i as int].0@, critiques@[i as int].1@),
        ));
        i += 1;
    }
    assert(pairs_view(critiques@).take(critiques.len() as int) =~= pairs_view(critiques@));
}

} // verus!
