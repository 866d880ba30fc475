//! Core data model: candidate solutions, generation phases, selection and
//! aggregation method tags, run errors, lifecycle events and the final output.
use vstd::prelude::*;
use vstd::string::StringExecFns;
use crate::MILLIS_ONE;

verus! {

/// The generation stage that produced a candidate solution.
#[derive(Clone, Copy, Debug, PartialEq, Eq, Structural)]
pub enum GenerationPhase {
    Initial,
    Improved,
    Aggregated,
    Synthesized,
}

/// Which aggregation algorithm the run is configured to use.
#[derive(Clone, Copy, Debug, PartialEq, Eq, Structural)]
pub enum AggregationMethod {
    RSA,
    MixtureOfAgents,
    MonteCarloTreeSearch,
}

/// How the final answer was selected during synthesis.
#[derive(Clone, Copy, Debug, PartialEq, Eq, Structural)]
pub enum SelectionMethod {
    MajorityVoting,
    BestVerified,
    Synthesized,
}

/// Terminal errors of a run. Backend failures of single calls are reported
/// as events and recovered; only these abort the run.
#[derive(Clone, Debug)]
pub enum MarsError {
    /// Synthesis was attempted with an empty workspace.
    NoSolutions,
    /// An explicitly requested aggregation step failed.
    AggregationError(String),
    /// A backend call failed in a context where it cannot be recovered.
    BackendError(String),
}

/// The text a terminal error reads as.
pub open spec fn error_message_view(e: MarsError) -> Seq<char> {
    match e {
        MarsError::NoSolutions => "no candidates"@,
        MarsError::AggregationError(m) => "aggregation error: "@ + m@,
        MarsError::BackendError(m) => "backend error: "@ + m@,
    }
}

impl MarsError {
    /// A human-readable description of the error.
    pub fn message(&self) -> (r: String)
        ensures
            r@ == error_message_view(*self),
    {
        let mut out = String::new();
        match self {
            MarsError::NoSolutions => {
                out.append("no candidates");
                proof {
                    assert(out@ =~= error_message_view(*self));
                }
            },
            MarsError::AggregationError(m) => {
                out.append("aggregation error: ");
                out.append(m.as_str());
                proof {
                    assert(out@ =~= error_message_view(*self));
                }
            },
            MarsError::BackendError(m) => {
                out.append("backend error: ");
                out.append(m.as_str());
                proof {
                    assert(out@ =~= error_message_view(*self));
                }
            },
        }
        out
    }
}

/// Relies on `uuid::Uuid::new_v4` and its `Display` impl: a random
/// version-4 UUID rendered in the 36-character hyphenated form. The value
/// is random, so nothing beyond its length is promised.
#[verifier::external_body]
pub(crate) fn fresh_id() -> (r: String)
    ensures
        r@.len() == 36,
{
    uuid::Uuid::new_v4().to_string()
}

/// One candidate answer-plus-reasoning pair with provenance and
/// verification state. Scores and temperatures are in thousandths.
#[derive(Clone, Debug)]
pub struct Solution {
    /// Unique identifier; fresh at creation, preserved by verification
    /// bookkeeping, never reused by derived candidates.
    pub id: String,
    /// Identifier of the agent or process that created this candidate.
    pub agent_id: String,
    pub reasoning: String,
    pub answer: String,
    /// Sampling temperature recorded for provenance, in thousandths.
    pub temperature: u64,
    pub token_count: u64,
    pub phase: GenerationPhase,
    /// Accumulated score of passing verifications, in thousandths.
    pub verification_score: u64,
    pub verification_passes: u64,
    pub verification_failures: u64,
    pub is_verified: bool,
}

impl Solution {
    /// A fresh candidate in the `Initial` phase with zeroed verification
    /// state and a newly assigned id.
    pub fn new(
        agent_id: String,
        reasoning: String,
        answer: String,
        temperature: u64,
        token_count: u64,
    ) -> (r: Solution)
        ensures
            r.agent_id == agent_id,
            r.reasoning == reasoning,
            r.answer == answer,
            r.temperature == temperature,
            r.token_count == token_count,
            r.phase == GenerationPhase::Initial,
            r.verification_score == 0,
            r.verification_passes == 0,
            r.verification_failures == 0,
            !r.is_verified,
            r.id@.len() == 36,
    {
        Solution {
            id: fresh_id(),
            agent_id,
            reasoning,
            answer,
            temperature,
            token_count,
            phase: GenerationPhase::Initial,
            verification_score: 0,
            verification_passes: 0,
            verification_failures: 0,
            is_verified: false,
        }
    }

    /// An exact copy, field for field.
    pub fn duplicate(&self) -> (r: Solution)
        ensures
            r == *self,
    {
        Solution {
            id: self.id.clone(),
            agent_id: self.agent_id.clone(),
            reasoning: self.reasoning.clone(),
            answer: self.answer.clone(),
            temperature: self.temperature,
            token_count: self.token_count,
            phase: self.phase,
            verification_score: self.verification_score,
            verification_passes: self.verification_passes,
            verification_failures: self.verification_failures,
            is_verified: self.is_verified,
        }
    }

    /// Record one passing verification: the pass counter rises by one, the
    /// pass score joins the accumulated score, and the candidate becomes
    /// verified exactly when the new pass count reaches the consensus
    /// threshold. Identity and text are untouched.
    pub fn add_verification_pass(&mut self, score: u64, consensus_threshold: u64)
        requires
            score <= MILLIS_ONE,
            old(self).verification_passes < u64::MAX,
            old(self).verification_score + score <= u64::MAX,
        ensures
            final(self).verification_passes == old(self).verification_passes + 1,
            final(self).verification_score == old(self).verification_score + score,
            final(self).is_verified == (old(self).verification_passes + 1
                >= consensus_threshold),
            final(self).verification_failures == old(self).verification_failures,
            final(self).id == old(self).id,
            final(self).agent_id == old(self).agent_id,
            final(self).reasoning == old(self).reasoning,
            final(self).answer == old(self).answer,
            final(self).temperature == old(self).temperature,
            final(self).token_count == old(self).token_count,
            final(self).phase == old(self).phase,
    {
        self.verification_passes = self.verification_passes + 1;
        self.verification_score = self.verification_score + score;
        self.is_verified = self.verification_passes >= consensus_threshold;
    }

    /// Record one failing verification: the failure counter rises by one
    /// and the consecutive-pass counter resets, so an already earned
    /// verified mark is kept but progress towards one starts over.
    /// Identity and text are untouched.
    pub fn add_verification_failure(&mut self)
        requires
            old(self).verification_failures < u64::MAX,
        ensures
            final(self).verification_failures == old(self).verification_failures + 1,
            final(self).verification_passes == 0,
            final(self).is_verified == old(self).is_verified,
            final(self).verification_score == old(self).verification_score,
            final(self).id == old(self).id,
            final(self).agent_id == old(self).agent_id,
            final(self).reasoning == old(self).reasoning,
            final(self).answer == old(self).answer,
            final(self).temperature == old(self).temperature,
            final(self).token_count == old(self).token_count,
            final(self).phase == old(self).phase,
    {
        self.verification_failures = self.verification_failures + 1;
        self.verification_passes = 0;
    }

    /// A candidate qualifies for the improvement loop exactly when it is
    /// unverified and has failed verification fewer than two times; a
    /// candidate that failed twice is abandoned, never retried.
    pub fn eligible_for_improvement(&self) -> (r: bool)
        ensures
            r == (!self.is_verified && self.verification_failures < 2),
            self.verification_failures >= 2 ==> !r,
    {
        !self.is_verified && self.verification_failures < 2
    }
}

/// One lifecycle event on the run's observation channel.
#[derive(Clone, Debug)]
pub enum MarsEvent {
    ExplorationStarted { num_agents: usize },
    SolutionGenerated { solution_id: String, agent_id: String },
    AggregationStarted,
    SolutionsAggregated { result_solution_id: String },
    StrategyNetworkStarted,
    StrategyExtracted { strategy_id: u64 },
    VerificationStarted,
    SolutionVerified { solution_id: String, is_correct: bool, score: u64 },
    ImprovementStarted { iteration: usize },
    SolutionImproved { solution_id: String },
    SynthesisStarted,
    AnswerSynthesized { answer: String },
    Error { message: String },
}

/// The final result of a run: the chosen answer, its provenance, the full
/// candidate set and bookkeeping totals. `completed_at` is a Unix
/// timestamp in milliseconds.
#[derive(Clone, Debug)]
pub struct MarsOutput {
    pub answer: String,
    pub reasoning: String,
    pub all_solutions: Vec<Solution>,
    pub final_solution_id: String,
    pub selection_method: SelectionMethod,
    pub iterations: u64,
    pub total_tokens: u64,
    pub completed_at: i64,
}

/// An agent id in the form `agent-` followed by a fresh UUID.
pub(crate) fn fresh_agent_id() -> (r: String)
    ensures
        r@.len() == 42,
        r@.subrange(0, 6) == "agent-"@,
{
    let mut id = String::new();
    id.append("agent-");
    let tail = fresh_id();
    proof {
        vstd::string::axiom_str_literal_len("agent-");
        reveal_strlit("agent-");
    }
    id.append(tail.as_str());
    proof {
        assert(id@.subrange(0, 6) =~= "agent-"@);
    }
    id
}

} // verus!
