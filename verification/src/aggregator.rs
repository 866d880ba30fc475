//! The three aggregation strategies: population-based refinement, mixture
//! of parallel completions, and tree search. Aggregation is an explicit
//! opt-in step, so every failure here is fatal to the run.
use vstd::prelude::*;
use vstd::string::StringExecFns;
use crate::types::{GenerationPhase, MarsError, Solution};
use crate::model_router::{LLMProvider, MultiOutcome};
use crate::mcts::{MCTS, MCTSConfig, DialogueState};
use crate::prompts;

verus! {

/// What mixture aggregation decided to do with the backend's reply to a
/// multi-completion request.
pub enum MoaPlan {
    /// The backend returned parallel completions: use them.
    Accept(Vec<String>),
    /// The backend lacks multi-completion and the fallback is allowed:
    /// issue independent single completions instead.
    RunFallback,
    /// The request failed, or the backend lacks multi-completion and the
    /// fallback is disabled: the aggregation fails.
    Fail(String),
}

/// The mixture-aggregation decision rule: completions are accepted as they
/// are; a backend without multi-completion leads to the fallback exactly
/// when the fallback is enabled, and to failure when it is disabled; a
/// failed request always fails.
pub fn moa_from_outcome(outcome: MultiOutcome, fallback_enabled: bool) -> (r: MoaPlan)
    ensures
        outcome matches MultiOutcome::Completions(texts) ==> (r matches MoaPlan::Accept(ts)
            && ts == texts),
        outcome is Unsupported && fallback_enabled ==> r is RunFallback,
        outcome is Unsupported && !fallback_enabled ==> r is Fail,
        outcome is Failed ==> r is Fail,
{
    match outcome {
        MultiOutcome::Completions(texts) => MoaPlan::Accept(texts),
        MultiOutcome::Unsupported => {
            if fallback_enabled {
                MoaPlan::RunFallback
            } else {
                MoaPlan::Fail(
                    "backend does not support multi-completion and fallback is disabled".to_owned(),
                )
            }
        },
        MultiOutcome::Failed(msg) => MoaPlan::Fail(msg),
    }
}

/// Turn one aggregated completion into a candidate solution.
fn aggregated_solution(text: String) -> (r: Solution)
    ensures
        r.phase == GenerationPhase::Aggregated,
        r.reasoning@ == text@,
        r.answer@ == text@,
        r.verification_passes == 0,
        r.verification_failures == 0,
        !r.is_verified,
{
    let reasoning = text.clone();
    let mut s = Solution::new("aggregator".to_owned(), reasoning, text, 1000, 0);
    s.phase = GenerationPhase::Aggregated;
    s
}

/// Wrap any error arising during aggregation as an aggregation error.
fn as_aggregation_error(e: MarsError) -> (r: MarsError)
    ensures
        r is AggregationError,
{
    match e {
        MarsError::AggregationError(m) => MarsError::AggregationError(m),
        MarsError::BackendError(m) => MarsError::AggregationError(m),
        MarsError::NoSolutions => MarsError::AggregationError("no candidates".to_owned()),
    }
}

/// The first `count` solutions of `pop` by descending verification score,
/// ties resolved towards the earlier one.
fn select_top(pop: &Vec<Solution>, count: usize) -> (r: Vec<Solution>)
    requires
        count <= pop@.len(),
    ensures
        r@.len() == count,
        forall|i: int| 0 <= i < count ==> pop@.contains(#[trigger] r@[i]),
        forall|i: int, j: int|
            0 <= i < j < count ==> r@[i].verification_score >= r@[j].verification_score,
{
    let mut rest: Vec<Solution> = Vec::new();
    let mut i: usize = 0;
    while i < pop.len()
        invariant
            i <= pop@.len(),
            rest@ == pop@.subrange(0, i as int),
        decreases pop@.len() - i,
    {
        rest.push(pop[i].duplicate());
        proof {
            assert(rest@ =~= pop@.subrange(0, i + 1));
        }
        i = i + 1;
    }
    proof {
        assert(rest@ =~= pop@);
    }
    let mut out: Vec<Solution> = Vec::new();
    while out.len() < count
        invariant
            out@.len() <= count,
            count <= pop@.len(),
            rest@.len() == pop@.len() - out@.len(),
            forall|k: int| 0 <= k < rest@.len() ==> pop@.contains(#[trigger] rest@[k]),
            forall|k: int| 0 <= k < out@.len() ==> pop@.contains(#[trigger] out@[k]),
            forall|i: int, j: int|
                0 <= i < j < out@.len() ==> out@[i].verification_score
                    >= out@[j].verification_score,
            out@.len() > 0 ==> forall|k: int|
                0 <= k < rest@.len() ==> (#[trigger] rest@[k]).verification_score
                    <= out@[out@.len() - 1].verification_score,
        decreases count - out@.len(),
    {
        let mut m: usize = 0;
        let mut j: usize = 1;
        while j < rest.len()
            invariant
                rest@.len() > 0,
                m < j <= rest@.len(),
                forall|q: int|
                    0 <= q < j ==> rest@[q].verification_score
                        <= rest@[m as int].verification_score,
            decreases rest@.len() - j,
        {
            if rest[j].verification_score > rest[m].verification_score {
                m = j;
            }
            j = j + 1;
        }
        let picked = rest.remove(m);
        proof {
            assert(pop@.contains(picked));
        }
        out.push(picked);
    }
    out
}

/// Coordinates the aggregation strategies.
pub struct Aggregator {}

impl Aggregator {
    /// Population-based refinement: each loop keeps the best `selection_size`
    /// candidates of the population as seeds (clamped to the population and
    /// its target size) and regenerates the rest from them, so the
    /// population ends every loop at exactly `population_size`. With zero
    /// loops the input population is returned as it is. Every returned
    /// candidate is either an input survivor or freshly aggregated.
    pub fn aggregate_rsa<P: LLMProvider>(
        solutions: &Vec<Solution>,
        population_size: usize,
        selection_size: usize,
        num_loops: usize,
        provider: &P,
    ) -> (r: Result<Vec<Solution>, MarsError>)
        ensures
            num_loops == 0 ==> r is Ok,
            r matches Ok(v) ==> {
                &&& (num_loops == 0 ==> v@ == solutions@)
                &&& (num_loops > 0 ==> v@.len() == population_size)
                &&& forall|i: int|
                    0 <= i < v@.len() ==> (#[trigger] v@[i]).phase
                        == GenerationPhase::Aggregated || solutions@.contains(v@[i])
            },
            r is Err ==> (r matches Err(e) && e is AggregationError),
    {
        let mut pop: Vec<Solution> = Vec::new();
        let mut i: usize = 0;
        while i < solutions.len()
            invariant
                i <= solutions@.len(),
                pop@ == solutions@.subrange(0, i as int),
            decreases solutions@.len() - i,
        {
            pop.push(solutions[i].duplicate());
            proof {
                assert(pop@ =~= solutions@.subrange(0, i + 1));
            }
            i = i + 1;
        }
        proof {
            assert(pop@ =~= solutions@);
        }
        let mut l: usize = 0;
        while l < num_loops
            invariant
                l <= num_loops,
                l == 0 ==> pop@ == solutions@,
                l > 0 ==> pop@.len() == population_size,
                forall|k: int|
                    0 <= k < pop@.len() ==> (#[trigger] pop@[k]).phase
                        == GenerationPhase::Aggregated || solutions@.contains(pop@[k]),
            decreases num_loops - l,
        {
            // Clamp the seed count to both the target size and what the
            // population actually holds.
            let mut seeds: usize = selection_size;
            if seeds > population_size {
                seeds = population_size;
            }
            if seeds > pop.len() {
                seeds = pop.len();
            }
            let selected = select_top(&pop, seeds);
            // Seed context for the regeneration calls.
            let mut context = String::new();
            context.append(prompts::aggregation_prompt());
            context.append("\n");
            let mut c: usize = 0;
            while c < selected.len()
                invariant
                    c <= selected@.len(),
                decreases selected@.len() - c,
            {
                context.append("\nCandidate answer: ");
                context.append(selected[c].answer.as_str());
                c = c + 1;
            }
            let mut next: Vec<Solution> = selected;
            proof {
                assert(forall|k: int|
                    0 <= k < next@.len() ==> (#[trigger] next@[k]).phase
                        == GenerationPhase::Aggregated || solutions@.contains(next@[k]));
            }
            while next.len() < population_size
                invariant
                    num_loops > 0,
                    next@.len() <= population_size,
                    forall|k: int|
                        0 <= k < next@.len() ==> (#[trigger] next@[k]).phase
                            == GenerationPhase::Aggregated || solutions@.contains(next@[k]),
                decreases population_size - next@.len(),
            {
                match provider.complete(
                    context.as_str(),
                    Some(prompts::mars_system_prompt()),
                ) {
                    Ok(text) => {
                        next.push(aggregated_solution(text));
                    },
                    Err(e) => {
                        return Err(as_aggregation_error(e));
                    },
                }
            }
            pop = next;
            l = l + 1;
        }
        Ok(pop)
    }

    /// Carry out a mixture-aggregation plan: accepted completions become
    /// aggregated candidates one for one; the fallback issues exactly
    /// `num_completions` independent single requests and returns exactly
    /// that many candidates, failing wholly when any request fails; and a
    /// failing plan returns its message as the aggregation error.
    pub fn moa_execute_plan<P: LLMProvider>(
        plan: MoaPlan,
        query: &str,
        system_prompt: &str,
        num_completions: usize,
        provider: &P,
    ) -> (r: Result<Vec<Solution>, MarsError>)
        ensures
            r matches Ok(v) ==> forall|i: int|
                0 <= i < v@.len() ==> (#[trigger] v@[i]).phase == GenerationPhase::Aggregated,
            r is Err ==> (r matches Err(e) && e is AggregationError),
            plan matches MoaPlan::Accept(texts) ==> (r matches Ok(v) && v@.len()
                == texts@.len() && forall|i: int|
                0 <= i < v@.len() ==> (#[trigger] v@[i]).answer@ == texts@[i]@
                    && v@[i].reasoning@ == texts@[i]@),
            plan is RunFallback ==> (r matches Ok(v) ==> v@.len() == num_completions),
            plan matches MoaPlan::Fail(m) ==> (r matches Err(e) && e matches
                MarsError::AggregationError(mm) && mm@ == m@),
    {
        match plan {
            MoaPlan::Accept(texts) => {
                let mut out: Vec<Solution> = Vec::new();
                let mut i: usize = 0;
                while i < texts.len()
                    invariant
                        i <= texts@.len(),
                        out@.len() == i,
                        forall|k: int|
                            0 <= k < out@.len() ==> (#[trigger] out@[k]).phase
                                == GenerationPhase::Aggregated,
                        forall|k: int|
                            0 <= k < out@.len() ==> (#[trigger] out@[k]).answer@ == texts@[k]@
                                && out@[k].reasoning@ == texts@[k]@,
                    decreases texts@.len() - i,
                {
                    out.push(aggregated_solution(texts[i].clone()));
                    i = i + 1;
                }
                Ok(out)
            },
            MoaPlan::RunFallback => {
                let mut out: Vec<Solution> = Vec::new();
                let mut i: usize = 0;
                while i < num_completions
                    invariant
                        plan is RunFallback,
                        i <= num_completions,
                        out@.len() == i,
                        forall|k: int|
                            0 <= k < out@.len() ==> (#[trigger] out@[k]).phase
                                == GenerationPhase::Aggregated,
                    decreases num_completions - i,
                {
                    match provider.complete(query, Some(system_prompt)) {
                        Ok(text) => {
                            out.push(aggregated_solution(text));
                        },
                        Err(e) => {
                            return Err(as_aggregation_error(e));
                        },
                    }
                    i = i + 1;
                }
                Ok(out)
            },
            MoaPlan::Fail(msg) => Err(MarsError::AggregationError(msg)),
        }
    }

    /// Mixture aggregation: ask the backend for `num_completions` parallel
    /// completions in one request, decide what its reply allows, and carry
    /// that plan out — the fallback to independent single completions runs
    /// only when it is enabled; a backend without multi-completion and no
    /// fallback is a fatal aggregation error, never a silent degradation.
    pub fn aggregate_moa<P: LLMProvider>(
        query: &str,
        system_prompt: &str,
        num_completions: usize,
        fallback_enabled: bool,
        provider: &P,
    ) -> (r: Result<Vec<Solution>, MarsError>)
        ensures
            r matches Ok(v) ==> forall|i: int|
                0 <= i < v@.len() ==> (#[trigger] v@[i]).phase == GenerationPhase::Aggregated,
            r is Err ==> (r matches Err(e) && e is AggregationError),
    {
        let outcome = provider.complete_many(query, Some(system_prompt), num_completions);
        let plan = moa_from_outcome(outcome, fallback_enabled);
        Self::moa_execute_plan(plan, query, system_prompt, num_completions, provider)
    }

    /// Tree-search aggregation: run the search engine from a fresh dialogue
    /// state for the query and wrap the chosen action as one aggregated
    /// candidate. A search that can never create an action — zero
    /// simulations, zero actions, or a query that is already a closing
    /// signal — is an aggregation error.
    pub fn aggregate_mcts<P: LLMProvider>(
        query: &str,
        system_prompt: &str,
        mcts_config: MCTSConfig,
        provider: &P,
    ) -> (r: Result<Vec<Solution>, MarsError>)
        requires
            mcts_config.num_simulations <= 1_000_000_000,
        ensures
            r matches Ok(v) ==> v@.len() == 1 && v@[0].phase == GenerationPhase::Aggregated,
            r is Err ==> (r matches Err(e) && e is AggregationError),
            (mcts_config.num_simulations == 0 || mcts_config.num_actions == 0 || query@
                == "goodbye"@) ==> r is Err,
    {
        let mut engine = MCTS::new(mcts_config);
        let history: Vec<crate::mcts::Message> = Vec::new();
        let initial_state = DialogueState::new(
            system_prompt.to_owned(),
            history,
            query.to_owned(),
        );
        match engine.search(initial_state, provider) {
            Ok(action) => {
                let mut out: Vec<Solution> = Vec::new();
                out.push(aggregated_solution(action));
                Ok(out)
            },
            Err(e) => Err(as_aggregation_error(e)),
        }
    }
}

} // verus!
