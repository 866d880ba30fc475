//! The phase state machine that drives a run: exploration, optional
//! aggregation and strategy extraction, verification, the improvement
//! loop, and final synthesis. Selection during synthesis tries majority
//! voting, then best-verified, then a synthesized fallback, in that order.
use vstd::prelude::*;
use vstd::string::StringExecFns;
use crate::agent::Agent;
use crate::aggregator::Aggregator;
use crate::config::MarsConfig;
use crate::model_router::LLMProvider;
use crate::strategy::StrategyNetwork;
use crate::text::str_eq;
use crate::types::{
    GenerationPhase,
    MarsError,
    MarsEvent,
    MarsOutput,
    SelectionMethod,
    Solution,
};
use crate::verification::Verifier;
use crate::workspace::Workspace;
use crate::types::AggregationMethod;
use crate::prompts;

verus! {

/// Relies on `chrono::Utc::now` and `DateTime::timestamp_millis`: the
/// current UTC time as Unix milliseconds. `now` only returns once the
/// system clock is at or past the epoch, so the stamp is non-negative;
/// nothing else is promised of a reading of the clock.
#[verifier::external_body]
fn now_unix_millis() -> (r: i64)
    ensures
        r >= 0,
{
    chrono::Utc::now().timestamp_millis()
}

/// How many solutions of `sols` carry exactly this answer text.
pub open spec fn answer_count(sols: Seq<Solution>, ans: Seq<char>) -> nat
    decreases sols.len(),
{
    if sols.len() == 0 {
        0
    } else {
        answer_count(sols.drop_last(), ans) + if sols.last().answer@ == ans {
            1nat
        } else {
            0nat
        }
    }
}

/// The sum of all token counts, as an unbounded integer.
pub open spec fn sum_tokens(sols: Seq<Solution>) -> int
    decreases sols.len(),
{
    if sols.len() == 0 {
        0
    } else {
        sum_tokens(sols.drop_last()) + sols.last().token_count
    }
}

/// The token sum clamped to what a machine word holds.
pub open spec fn sat_token_sum(sols: Seq<Solution>) -> int {
    if sum_tokens(sols) <= u64::MAX {
        sum_tokens(sols)
    } else {
        u64::MAX as int
    }
}

/// The temperature is one an agent of this configuration was spawned with.
pub open spec fn temp_is_configured(c: MarsConfig, t: u64) -> bool {
    exists|i: int|
        0 <= i < c.num_agents && t == crate::config::effective_temperature(c, i)
}

/// Some answer text is shared by at least two solutions.
pub open spec fn has_majority(sols: Seq<Solution>) -> bool {
    exists|i: int|
        0 <= i < sols.len() && answer_count(sols, (#[trigger] sols[i]).answer@) >= 2
}

/// Position `i` holds the first solution whose answer has at least two
/// supporters.
pub open spec fn majority_at(sols: Seq<Solution>, i: int) -> bool {
    &&& 0 <= i < sols.len()
    &&& answer_count(sols, sols[i].answer@) >= 2
    &&& forall|j: int|
        0 <= j < i ==> answer_count(sols, (#[trigger] sols[j]).answer@) < 2
}

/// At least one solution is verified.
pub open spec fn has_any_verified(sols: Seq<Solution>) -> bool {
    exists|i: int| 0 <= i < sols.len() && (#[trigger] sols[i]).is_verified
}

/// Position `k` holds the first solution of maximal verification score
/// among those at neither excluded position.
pub open spec fn top_pick(sols: Seq<Solution>, e1: int, e2: int, k: int) -> bool {
    &&& 0 <= k < sols.len()
    &&& k != e1
    &&& k != e2
    &&& forall|j: int|
        0 <= j < sols.len() && j != e1 && j != e2 ==> (#[trigger] sols[j]).verification_score
            <= sols[k].verification_score
    &&& forall|j: int|
        0 <= j < k && j != e1 && j != e2 ==> (#[trigger] sols[j]).verification_score
            < sols[k].verification_score
}

/// The first-of-maximal-score choice is unique: given the same candidates
/// and exclusions there is exactly one position the synthesized fallback
/// can draw its answer from, so synthesis is deterministic.
pub proof fn lemma_top_pick_unique(sols: Seq<Solution>, e1: int, e2: int, k1: int, k2: int)
    requires
        top_pick(sols, e1, e2, k1),
        top_pick(sols, e1, e2, k2),
    ensures
        k1 == k2,
{
    if k1 < k2 {
        assert(sols[k1].verification_score < sols[k2].verification_score);
        assert(sols[k2].verification_score <= sols[k1].verification_score);
    }
    if k2 < k1 {
        assert(sols[k2].verification_score < sols[k1].verification_score);
        assert(sols[k1].verification_score <= sols[k2].verification_score);
    }
}

/// The excluded position an optional index stands for; none excludes
/// nothing.
pub open spec fn excl_view(e: Option<usize>) -> int {
    match e {
        Some(x) => x as int,
        None => -1,
    }
}
/// The number of solutions carrying this answer.
fn count_answer(sols: &Vec<Solution>, ans: &str) -> (c: usize)
    ensures
        c == answer_count(sols@, ans@),
{
    let mut c: usize = 0;
    let mut j: usize = 0;
    while j < sols.len()
        invariant
            j <= sols@.len(),
            c <= j,
            c == answer_count(sols@.subrange(0, j as int), ans@),
        decreases sols@.len() - j,
    {
        proof {
            assert(sols@.subrange(0, j + 1).drop_last() =~= sols@.subrange(0, j as int));
            assert(sols@.subrange(0, j + 1).last() == sols@[j as int]);
        }
        if str_eq(sols[j].answer.as_str(), ans) {
            c = c + 1;
        }
        j = j + 1;
    }
    proof {
        assert(sols@.subrange(0, sols@.len() as int) =~= sols@);
    }
    c
}

/// The token sum of the solutions, saturating at the largest machine word.
fn token_total(sols: &Vec<Solution>) -> (r: u64)
    ensures
        r as int == sat_token_sum(sols@),
{
    let mut total: u64 = 0;
    let mut j: usize = 0;
    while j < sols.len()
        invariant
            j <= sols@.len(),
            total as int == sat_token_sum(sols@.subrange(0, j as int)),
        decreases sols@.len() - j,
    {
        proof {
            assert(sols@.subrange(0, j + 1).drop_last() =~= sols@.subrange(0, j as int));
            assert(sols@.subrange(0, j + 1).last() == sols@[j as int]);
        }
        let t = sols[j].token_count;
        if total <= u64::MAX - t {
            total = total + t;
        } else {
            total = u64::MAX;
        }
        j = j + 1;
    }
    proof {
        assert(sols@.subrange(0, sols@.len() as int) =~= sols@);
    }
    total
}

/// Does `i` hit one of the excluded positions?
fn is_excluded(i: usize, e1: Option<usize>, e2: Option<usize>) -> (r: bool)
    ensures
        r == (i as int == excl_view(e1) || i as int == excl_view(e2)),
{
    let h1 = match e1 {
        Some(x) => x == i,
        None => false,
    };
    let h2 = match e2 {
        Some(x) => x == i,
        None => false,
    };
    h1 || h2
}

/// The first non-excluded solution of maximal verification score. At most
/// two positions can be excluded, so the length bounds keep a choice
/// possible.
fn pick_top(sols: &Vec<Solution>, e1: Option<usize>, e2: Option<usize>) -> (k: usize)
    requires
        e1 is None && e2 is None ==> sols@.len() >= 1,
        e1 is Some && e2 is None ==> sols@.len() >= 2,
        e2 is Some ==> e1 is Some,
        e1 is Some && e2 is Some ==> sols@.len() >= 3 && excl_view(e1) != excl_view(e2),
    ensures
        top_pick(sols@, excl_view(e1), excl_view(e2), k as int),
{
    // The first non-excluded index is among the first three.
    let start: usize = if !is_excluded(0, e1, e2) {
        0
    } else if !is_excluded(1, e1, e2) {
        1
    } else {
        2
    };
    let mut best: usize = start;
    let mut i: usize = start + 1;
    while i < sols.len()
        invariant
            best < i <= sols@.len(),
            best as int != excl_view(e1) && best as int != excl_view(e2),
            forall|j: int|
                0 <= j < i && j != excl_view(e1) && j != excl_view(e2) ==> (
                #[trigger] sols@[j]).verification_score <= sols@[best as int].verification_score,
            forall|j: int|
                0 <= j < best && j != excl_view(e1) && j != excl_view(e2) ==> (
                #[trigger] sols@[j]).verification_score < sols@[best as int].verification_score,
        decreases sols@.len() - i,
    {
        if !is_excluded(i, e1, e2) {
            if sols[i].verification_score > sols[best].verification_score {
                best = i;
            }
        }
        i = i + 1;
    }
    best
}

/// The reasoning text of a synthesized candidate built from one approach.
pub open spec fn combined_1(r1: Seq<char>) -> Seq<char> {
    "Approach 1:\n"@ + r1
}

/// ... from two approaches.
pub open spec fn combined_2(r1: Seq<char>, r2: Seq<char>) -> Seq<char> {
    combined_1(r1) + "\n\nApproach 2:\n"@ + r2
}

/// ... from three approaches.
pub open spec fn combined_3(r1: Seq<char>, r2: Seq<char>, r3: Seq<char>) -> Seq<char> {
    combined_2(r1, r2) + "\n\nApproach 3:\n"@ + r3
}

/// The texts of a synthesized fallback over `sols`: the answer comes from
/// the first highest-scoring solution, and the reasoning concatenates the
/// top one, two or three solutions — chosen by repeated first-maximum with
/// the earlier picks excluded — under per-approach labels.
pub open spec fn synthesized_texts_ok(
    sols: Seq<Solution>,
    answer: Seq<char>,
    reasoning: Seq<char>,
) -> bool {
    exists|k1: int|
        #![auto]
        {
            &&& top_pick(sols, -1, -1, k1)
            &&& answer == sols[k1].answer@
            &&& (sols.len() == 1 ==> reasoning == combined_1(sols[k1].reasoning@))
            &&& (sols.len() == 2 ==> exists|k2: int|
                (#[trigger] top_pick(sols, k1, -1, k2)) && reasoning == combined_2(
                    sols[k1].reasoning@,
                    sols[k2].reasoning@,
                ))
            &&& (sols.len() >= 3 ==> exists|k2: int, k3: int|
                (#[trigger] top_pick(sols, k1, -1, k2)) && (
                #[trigger] top_pick(sols, k1, k2, k3)) && reasoning == combined_3(
                    sols[k1].reasoning@,
                    sols[k2].reasoning@,
                    sols[k3].reasoning@,
                ))
        }
}

/// The selection guarantee of a finished run over the candidate set `ws`:
/// the selection method follows the strict order — majority voting exactly
/// when some answer has two supporters, else best-verified exactly when
/// some candidate is verified, else the synthesized fallback — and the
/// output's answer, reasoning and chosen id come from the candidate that
/// order picks; the total token count is the saturated sum over `ws`.
pub open spec fn selection_ok(ws: Seq<Solution>, out: MarsOutput) -> bool {
    &&& out.all_solutions@ == ws
    &&& out.total_tokens as int == sat_token_sum(ws)
    &&& out.selection_method == (if has_majority(ws) {
        SelectionMethod::MajorityVoting
    } else if has_any_verified(ws) {
        SelectionMethod::BestVerified
    } else {
        SelectionMethod::Synthesized
    })
    &&& (has_majority(ws) ==> exists|i: int|
        #![auto]
        {
            &&& majority_at(ws, i)
            &&& out.answer@ == ws[i].answer@
            &&& out.reasoning@ == ws[i].reasoning@
            &&& out.final_solution_id@ == ws[i].id@
        })
    &&& (!has_majority(ws) && has_any_verified(ws) ==> exists|k: int|
        #![auto]
        {
            &&& Verifier::best_verified_at(ws, k)
            &&& out.answer@ == ws[k].answer@
            &&& out.reasoning@ == ws[k].reasoning@
            &&& out.final_solution_id@ == ws[k].id@
        })
    &&& (!has_majority(ws) && !has_any_verified(ws) ==> synthesized_texts_ok(
        ws,
        out.answer@,
        out.reasoning@,
    ) && out.final_solution_id@.len() == 36)
}

/// The record's identity and texts are those of the solution at position
/// `q`, which carries the id `id`.
pub open spec fn texts_from(pre: Seq<Solution>, record: Solution, id: Seq<char>, q: int) -> bool {
    &&& 0 <= q < pre.len()
    &&& pre[q].id@ == id
    &&& record.answer@ == pre[q].answer@
    &&& record.reasoning@ == pre[q].reasoning@
    &&& record.agent_id@ == pre[q].agent_id@
    &&& record.phase == pre[q].phase
    &&& record.token_count == pre[q].token_count
    &&& record.temperature == pre[q].temperature
}

/// Only verification counters were rewritten: every position keeps its id,
/// and every stored record's identity and texts are those of some prior
/// record carrying that same id. Nothing was appended or removed.
pub open spec fn record_texts_ok(pre: Seq<Solution>, record: Solution, id: Seq<char>) -> bool {
    exists|q: int| texts_from(pre, record, id, q)
}

pub open spec fn counters_only_update(pre: Seq<Solution>, post: Seq<Solution>) -> bool {
    &&& post.len() == pre.len()
    &&& forall|p: int| 0 <= p < pre.len() ==> (#[trigger] post[p]).id@ == pre[p].id@
    &&& forall|p: int|
        0 <= p < pre.len() ==> record_texts_ok(pre, #[trigger] post[p], pre[p].id@)
}

proof fn lemma_counters_only_refl(ws: Seq<Solution>)
    ensures
        counters_only_update(ws, ws),
{
    assert forall|p: int| 0 <= p < ws.len() implies record_texts_ok(
        ws,
        #[trigger] ws[p],
        ws[p].id@,
    ) by {
        assert(texts_from(ws, ws[p], ws[p].id@, p));
    }
}

/// Coordinator of a complete run: holds the configuration, the candidate
/// workspace, the strategy registry, and the lifecycle events emitted so
/// far, which the caller reads back after (or during) the run.
pub struct MarsCoordinator {
    pub config: MarsConfig,
    pub workspace: Workspace,
    pub strategy_network: StrategyNetwork,
    pub events: Vec<MarsEvent>,
}

impl MarsCoordinator {
    /// A coordinator for one run: empty workspace, empty registry, no
    /// events yet.
    pub fn new(config: MarsConfig) -> (r: MarsCoordinator)
        ensures
            r.config == config,
            r.workspace@.len() == 0,
            r.strategy_network@.len() == 0,
            r.events@.len() == 0,
    {
        MarsCoordinator {
            config,
            workspace: Workspace::new(),
            strategy_network: StrategyNetwork::new(),
            events: Vec::new(),
        }
    }

    /// Majority voting: the first candidate (in scan order) whose exact
    /// answer text is shared by at least two candidates. Nothing is
    /// selected when no answer has two supporters — in particular a single
    /// candidate never wins by majority and the pipeline falls through.
    pub fn select_by_majority_voting(&self, solutions: &Vec<Solution>) -> (r: Option<Solution>)
        ensures
            (r is Some) == has_majority(solutions@),
            r matches Some(s) ==> exists|i: int|
                #![auto]
                majority_at(solutions@, i) && s == solutions@[i],
    {
        let mut i: usize = 0;
        while i < solutions.len()
            invariant
                i <= solutions@.len(),
                forall|j: int|
                    0 <= j < i ==> answer_count(
                        solutions@,
                        (#[trigger] solutions@[j]).answer@,
                    ) < 2,
            decreases solutions@.len() - i,
        {
            let c = count_answer(solutions, solutions[i].answer.as_str());
            if c >= 2 {
                return Some(solutions[i].duplicate());
            }
            i = i + 1;
        }
        None
    }

    /// Best-verified selection, delegated to the verifier: the earliest
    /// verified candidate of maximal verification score, if any candidate
    /// is verified at all.
    pub fn select_best_verified(&self, solutions: &Vec<Solution>) -> (r: Option<Solution>)
        ensures
            (r is Some) == (exists|i: int|
                0 <= i < solutions@.len() && (#[trigger] solutions@[i]).is_verified),
            r matches Some(s) ==> exists|k: int|
                #![auto]
                Verifier::best_verified_at(solutions@, k) && s == solutions@[k],
    {
        Verifier::find_best_verified(solutions)
    }

    /// The synthesized fallback: the answer of the highest-scoring
    /// candidate (earliest on ties), the reasoning of the top three
    /// candidates concatenated under per-approach labels, and the token
    /// counts of all candidates summed. Fails only on an empty candidate
    /// set, with the no-candidates error.
    pub fn synthesize_final_answer(&self, solutions: &Vec<Solution>) -> (r: Result<
        Solution,
        MarsError,
    >)
        ensures
            (r is Err) == (solutions@.len() == 0),
            r matches Err(e) ==> e is NoSolutions,
            r matches Ok(s) ==> {
                &&& s.phase == GenerationPhase::Synthesized
                &&& s.agent_id@ == "synthesizer"@
                &&& s.token_count as int == sat_token_sum(solutions@)
                &&& s.id@.len() == 36
                &&& synthesized_texts_ok(solutions@, s.answer@, s.reasoning@)
            },
    {
        if solutions.len() == 0 {
            return Err(MarsError::NoSolutions);
        }
        let total = token_total(solutions);
        let k1 = pick_top(solutions, None, None);
        let mut reasoning = String::new();
        reasoning.append("Approach 1:\n");
        reasoning.append(solutions[k1].reasoning.as_str());
        proof {
            assert(reasoning@ =~= combined_1(solutions@[k1 as int].reasoning@));
        }
        let ghost gk2: int = -1;
        let mut k2: usize = 0;
        if solutions.len() >= 2 {
            k2 = pick_top(solutions, Some(k1), None);
            reasoning.append("\n\nApproach 2:\n");
            reasoning.append(solutions[k2].reasoning.as_str());
            proof {
                assert(reasoning@ =~= combined_2(
                    solutions@[k1 as int].reasoning@,
                    solutions@[k2 as int].reasoning@,
                ));
            }
        }
        if solutions.len() >= 3 {
            let k3 = pick_top(solutions, Some(k1), Some(k2));
            reasoning.append("\n\nApproach 3:\n");
            reasoning.append(solutions[k3].reasoning.as_str());
            proof {
                assert(reasoning@ =~= combined_3(
                    solutions@[k1 as int].reasoning@,
                    solutions@[k2 as int].reasoning@,
                    solutions@[k3 as int].reasoning@,
                ));
            }
        }
        let answer = solutions[k1].answer.clone();
        let mut s = Solution::new("synthesizer".to_owned(), reasoning, answer, 500, total);
        s.phase = GenerationPhase::Synthesized;
        Ok(s)
    }

    /// Package a chosen candidate as the run's final output, stamped with
    /// the completion time; the total token count is the saturated sum
    /// over all candidates.
    pub fn create_output(
        &self,
        all_solutions: Vec<Solution>,
        final_solution: Solution,
        selection_method: SelectionMethod,
        iterations: u64,
    ) -> (r: MarsOutput)
        ensures
            r.answer == final_solution.answer,
            r.reasoning == final_solution.reasoning,
            r.final_solution_id == final_solution.id,
            r.all_solutions@ == all_solutions@,
            r.selection_method == selection_method,
            r.iterations == iterations,
            r.total_tokens as int == sat_token_sum(all_solutions@),
            r.completed_at >= 0,
    {
        let total_tokens = token_total(&all_solutions);
        MarsOutput {
            answer: final_solution.answer,
            reasoning: final_solution.reasoning,
            all_solutions,
            final_solution_id: final_solution.id,
            selection_method,
            iterations,
            total_tokens,
            completed_at: now_unix_millis(),
        }
    }

    /// Exploration: one agent per effective temperature — so exactly
    /// `num_agents` agents — each asked for a solution. A failed agent is
    /// reported as an error event and the phase continues; one event is
    /// emitted per agent either way, after the phase-start event.
    pub fn phase_exploration<P: LLMProvider>(&mut self, query: &str, provider: &P) -> (r:
        Result<(), MarsError>)
        ensures
            r is Ok,
            final(self).config == old(self).config,
            final(self).strategy_network@ == old(self).strategy_network@,
            old(self).workspace@.is_prefix_of(final(self).workspace@),
            final(self).workspace@.len() <= old(self).workspace@.len()
                + old(self).config.num_agents,
            forall|i: int|
                old(self).workspace@.len() <= i < final(self).workspace@.len() ==> (
                #[trigger] final(self).workspace@[i]).phase == GenerationPhase::Initial,
            forall|i: int|
                old(self).workspace@.len() <= i < final(self).workspace@.len()
                    ==> temp_is_configured(
                    old(self).config,
                    (#[trigger] final(self).workspace@[i]).temperature,
                ),
            final(self).events@.len() == old(self).events@.len() + 1
                + old(self).config.num_agents,
            final(self).events@[old(self).events@.len() as int] == (
            MarsEvent::ExplorationStarted { num_agents: old(self).config.num_agents }),
    {
        self.events.push(MarsEvent::ExplorationStarted { num_agents: self.config.num_agents });
        let temperatures = self.config.effective_temperatures();
        let ghost ws0 = self.workspace@;
        let ghost ev0 = old(self).events@;
        let mut i: usize = 0;
        while i < temperatures.len()
            invariant
                temperatures@.len() == self.config.num_agents,
                forall|j: int|
                    0 <= j < temperatures@.len() ==> (#[trigger] temperatures@[j])
                        == crate::config::effective_temperature(old(self).config, j),
                i <= temperatures@.len(),
                self.config == old(self).config,
                self.strategy_network@ == old(self).strategy_network@,
                ws0 == old(self).workspace@,
                ws0.is_prefix_of(self.workspace@),
                self.workspace@.len() <= ws0.len() + i,
                forall|k: int|
                    ws0.len() <= k < self.workspace@.len() ==> (
                    #[trigger] self.workspace@[k]).phase == GenerationPhase::Initial,
                forall|k: int|
                    ws0.len() <= k < self.workspace@.len() ==> temp_is_configured(
                        old(self).config,
                        (#[trigger] self.workspace@[k]).temperature,
                    ),
                self.events@.len() == ev0.len() + 1 + i,
                self.events@[ev0.len() as int] == (MarsEvent::ExplorationStarted {
                    num_agents: old(self).config.num_agents,
                }),
            decreases temperatures@.len() - i,
        {
            let agent = Agent::new(temperatures[i]);
            match agent.generate_solution(query, self.config.use_thinking_tags, provider) {
                Ok(solution) => {
                    self.events.push(
                        MarsEvent::SolutionGenerated {
                            solution_id: solution.id.clone(),
                            agent_id: solution.agent_id.clone(),
                        },
                    );
                    proof {
                        assert(solution.temperature == crate::config::effective_temperature(
                            old(self).config,
                            i as int,
                        ));
                        assert(temp_is_configured(old(self).config, solution.temperature));
                    }
                    self.workspace.add_solution(solution);
                    proof {
                        assert(ws0.is_prefix_of(self.workspace@));
                    }
                },
                Err(e) => {
                    self.events.push(MarsEvent::Error { message: e.message() });
                },
            }
            i = i + 1;
        }
        Ok(())
    }

    /// Aggregation: dispatch to the configured algorithm and merge every
    /// aggregated candidate into the workspace. Any failure here is fatal,
    /// surfaces as an aggregation error, and leaves the workspace exactly
    /// as it was; on success everything appended is a freshly aggregated
    /// candidate or a refinement survivor drawn from the prior workspace.
    pub fn phase_aggregation<P: LLMProvider>(&mut self, query: &str, provider: &P) -> (r:
        Result<(), MarsError>)
        ensures
            final(self).config == old(self).config,
            final(self).strategy_network@ == old(self).strategy_network@,
            old(self).workspace@.is_prefix_of(final(self).workspace@),
            r matches Err(e) ==> e is AggregationError && final(self).workspace@ == old(
                self,
            ).workspace@,
            r is Ok ==> forall|k: int|
                old(self).workspace@.len() <= k < final(self).workspace@.len() ==> (
                #[trigger] final(self).workspace@[k]).phase == GenerationPhase::Aggregated
                    || old(self).workspace@.contains(final(self).workspace@[k]),
    {
        self.events.push(MarsEvent::AggregationStarted);
        let aggregated: Vec<Solution> = match self.config.aggregation_method {
            AggregationMethod::MixtureOfAgents => {
                match Aggregator::aggregate_moa(
                    query,
                    prompts::mars_system_prompt(),
                    self.config.moa_num_completions,
                    self.config.moa_fallback_enabled,
                    provider,
                ) {
                    Ok(v) => v,
                    Err(e) => {
                        return Err(e);
                    },
                }
            },
            AggregationMethod::MonteCarloTreeSearch => {
                let mut mcts_config = self.config.get_mcts_config();
                // Defensive clamp: keep the simulation count inside the
                // range the search engine accepts.
                if mcts_config.num_simulations > 1_000_000_000 {
                    mcts_config.num_simulations = 1_000_000_000;
                }
                match Aggregator::aggregate_mcts(
                    query,
                    prompts::mars_system_prompt(),
                    mcts_config,
                    provider,
                ) {
                    Ok(v) => v,
                    Err(e) => {
                        return Err(e);
                    },
                }
            },
            AggregationMethod::RSA => {
                let current = self.workspace.get_all_solutions();
                match Aggregator::aggregate_rsa(
                    &current,
                    self.config.aggregation_population_size,
                    self.config.aggregation_selection_size,
                    self.config.aggregation_loops,
                    provider,
                ) {
                    Ok(v) => v,
                    Err(e) => {
                        return Err(e);
                    },
                }
            },
        };
        let ghost ws1 = self.workspace@;
        proof {
            assert(forall|k: int|
                0 <= k < aggregated@.len() ==> (#[trigger] aggregated@[k]).phase
                    == GenerationPhase::Aggregated || ws1.contains(aggregated@[k]));
        }
        let mut i: usize = 0;
        while i < aggregated.len()
            invariant
                i <= aggregated@.len(),
                self.config == old(self).config,
                self.strategy_network@ == old(self).strategy_network@,
                ws1 == old(self).workspace@,
                ws1.is_prefix_of(self.workspace@),
                forall|k: int|
                    0 <= k < aggregated@.len() ==> (#[trigger] aggregated@[k]).phase
                        == GenerationPhase::Aggregated || ws1.contains(aggregated@[k]),
                forall|k: int|
                    ws1.len() <= k < self.workspace@.len() ==> (
                    #[trigger] self.workspace@[k]).phase == GenerationPhase::Aggregated
                        || ws1.contains(self.workspace@[k]),
            decreases aggregated@.len() - i,
        {
            let solution = aggregated[i].duplicate();
            self.events.push(
                MarsEvent::SolutionsAggregated { result_solution_id: solution.id.clone() },
            );
            self.workspace.add_solution(solution);
            proof {
                assert(ws1.is_prefix_of(self.workspace@));
            }
            i = i + 1;
        }
        Ok(())
    }

    /// Strategy extraction: a low-temperature extraction call per
    /// candidate; each extracted strategy is registered under the
    /// candidate's producer. Failures are reported as events and skipped.
    pub fn phase_strategy_network<P: LLMProvider>(&mut self, provider: &P) -> (r: Result<
        (),
        MarsError,
    >)
        ensures
            r is Ok,
            final(self).config == old(self).config,
            final(self).workspace@ == old(self).workspace@,
            old(self).strategy_network@.is_prefix_of(final(self).strategy_network@),
    {
        self.events.push(MarsEvent::StrategyNetworkStarted);
        let solutions = self.workspace.get_all_solutions();
        let mut i: usize = 0;
        while i < solutions.len()
            invariant
                i <= solutions@.len(),
                self.config == old(self).config,
                self.workspace@ == old(self).workspace@,
                old(self).strategy_network@.is_prefix_of(self.strategy_network@),
            decreases solutions@.len() - i,
        {
            let agent = Agent::new(300);
            match agent.extract_strategies(&solutions[i], provider) {
                Ok(descriptions) => {
                    let ghost sn1 = self.strategy_network@;
                    let mut d: usize = 0;
                    while d < descriptions.len()
                        invariant
                            d <= descriptions@.len(),
                            i < solutions@.len(),
                            self.config == old(self).config,
                            self.workspace@ == old(self).workspace@,
                            sn1.is_prefix_of(self.strategy_network@),
                            old(self).strategy_network@.is_prefix_of(sn1),
                        decreases descriptions@.len() - d,
                    {
                        if self.strategy_network.count() < usize::MAX {
                            let mut provenance = String::new();
                            provenance.append("strategy from solution ");
                            provenance.append(solutions[i].id.as_str());
                            let strategy_id = self.strategy_network.register_strategy(
                                solutions[i].agent_id.clone(),
                                descriptions[d].clone(),
                                provenance,
                            );
                            self.events.push(MarsEvent::StrategyExtracted { strategy_id });
                            proof {
                                assert(sn1.is_prefix_of(self.strategy_network@));
                            }
                        }
                        d = d + 1;
                    }
                },
                Err(e) => {
                    self.events.push(MarsEvent::Error { message: e.message() });
                },
            }
            i = i + 1;
        }
        Ok(())
    }

    /// Verification: exactly two independent low-temperature passes per
    /// candidate — one event per pass after the phase-start event, whether
    /// the call succeeded or was reported as an error — where a pass adds
    /// to the candidate's pass count and score and a negative judgment
    /// adds a failure. Only counters are rewritten: ids stay in place and
    /// every stored record keeps the texts of a record with its id; the
    /// workspace keeps its size.
    pub fn phase_verification<P: LLMProvider>(&mut self, provider: &P) -> (r: Result<
        (),
        MarsError,
    >)
        ensures
            r is Ok,
            final(self).config == old(self).config,
            final(self).strategy_network@ == old(self).strategy_network@,
            final(self).workspace@.len() == old(self).workspace@.len(),
            counters_only_update(old(self).workspace@, final(self).workspace@),
            final(self).events@.len() == old(self).events@.len() + 1 + 2 * old(
                self,
            ).workspace@.len(),
    {
        self.events.push(MarsEvent::VerificationStarted);
        let solutions = self.workspace.get_all_solutions();
        let ghost pre = old(self).workspace@;
        let ghost ev0 = old(self).events@;
        proof {
            lemma_counters_only_refl(pre);
        }
        let mut i: usize = 0;
        while i < solutions.len()
            invariant
                i <= solutions@.len(),
                solutions@ == pre,
                pre == old(self).workspace@,
                ev0 == old(self).events@,
                self.config == old(self).config,
                self.strategy_network@ == old(self).strategy_network@,
                counters_only_update(pre, self.workspace@),
                self.events@.len() == ev0.len() + 1 + 2 * i,
            decreases solutions@.len() - i,
        {
            let mut current = solutions[i].duplicate();
            let mut pass: usize = 0;
            while pass < 2
                invariant
                    pass <= 2,
                    i < solutions@.len(),
                    solutions@ == pre,
                    pre == old(self).workspace@,
                    ev0 == old(self).events@,
                    self.config == old(self).config,
                    self.strategy_network@ == old(self).strategy_network@,
                    counters_only_update(pre, self.workspace@),
                    self.events@.len() == ev0.len() + 1 + 2 * i + pass,
                    texts_from(pre, current, pre[i as int].id@, i as int),
                    current.id@ == pre[i as int].id@,
                decreases 2 - pass,
            {
                let verifier_agent = Agent::new(300);
                match Verifier::verify_solution(
                    &current,
                    verifier_agent.id.as_str(),
                    provider,
                ) {
                    Ok(result) => {
                        if result.is_correct {
                            if current.verification_passes < u64::MAX
                                && current.verification_score <= u64::MAX - result.score {
                                current.add_verification_pass(
                                    result.score,
                                    self.config.consensus_threshold,
                                );
                            }
                        } else {
                            if current.verification_failures < u64::MAX {
                                current.add_verification_failure();
                            }
                        }
                        self.events.push(
                            MarsEvent::SolutionVerified {
                                solution_id: current.id.clone(),
                                is_correct: result.is_correct,
                                score: result.score,
                            },
                        );
                        let updated = current.duplicate();
                        let ghost sol = updated;
                        let ghost cur = self.workspace@;
                        let found = self.workspace.update_solution(updated);
                        proof {
                            let post = self.workspace@;
                            if found {
                                let t = choose|t: int|
                                    {
                                        &&& 0 <= t < cur.len()
                                        &&& (#[trigger] cur[t].id@) == sol.id@
                                        &&& forall|j: int| 0 <= j < t ==> cur[j].id@ != sol.id@
                                        &&& post == cur.update(t, sol)
                                    };
                                assert forall|p: int|
                                    0 <= p < pre.len() implies (#[trigger] post[p]).id@
                                    == pre[p].id@ by {
                                    if p != t {
                                        assert(post[p] == cur[p]);
                                    }
                                }
                                assert forall|p: int| 0 <= p < pre.len() implies record_texts_ok(
                                    pre,
                                    #[trigger] post[p],
                                    pre[p].id@,
                                ) by {
                                    if p == t {
                                        assert(cur[t].id@ == pre[t].id@);
                                        assert(sol.id@ == current.id@);
                                        assert(current.id@ == pre[i as int].id@);
                                        assert(pre[p].id@ == pre[i as int].id@);
                                        assert(texts_from(pre, current, pre[i as int].id@,
                                            i as int));
                                        assert(texts_from(pre, sol, pre[p].id@, i as int));
                                        assert(post[p] == sol);
                                    } else {
                                        assert(post[p] == cur[p]);
                                        assert(record_texts_ok(pre, cur[p], pre[p].id@));
                                        let q = choose|q: int|
                                            texts_from(pre, cur[p], pre[p].id@, q);
                                        assert(texts_from(pre, post[p], pre[p].id@, q));
                                    }
                                }
                                assert(post.len() == pre.len());
                                assert(counters_only_update(pre, post));
                            } else {
                                assert(post == cur);
                                assert(counters_only_update(pre, post));
                            }
                        }
                    },
                    Err(e) => {
                        self.events.push(MarsEvent::Error { message: e.message() });
                    },
                }
                pass = pass + 1;
            }
            i = i + 1;
        }
        Ok(())
    }

    /// Improvement: regenerate each candidate that is unverified and has
    /// fewer than two verification failures; a candidate that failed twice
    /// is abandoned. Reports whether any improved candidate was produced;
    /// when none was, the workspace is untouched and the caller exits the
    /// improvement loop early.
    pub fn phase_improvement<P: LLMProvider>(&mut self, iteration: usize, provider: &P) -> (r:
        Result<bool, MarsError>)
        ensures
            r is Ok,
            final(self).config == old(self).config,
            final(self).strategy_network@ == old(self).strategy_network@,
            old(self).workspace@.is_prefix_of(final(self).workspace@),
            r matches Ok(improved) && !improved ==> final(self).workspace@
                == old(self).workspace@,
            forall|k: int|
                old(self).workspace@.len() <= k < final(self).workspace@.len() ==> (
                #[trigger] final(self).workspace@[k]).phase == GenerationPhase::Improved,
            (forall|k: int|
                0 <= k < old(self).workspace@.len() ==> ((
                #[trigger] old(self).workspace@[k]).is_verified
                    || old(self).workspace@[k].verification_failures >= 2)) ==> (r matches Ok(
                improved,
            ) && !improved),
    {
        self.events.push(MarsEvent::ImprovementStarted { iteration });
        let solutions = self.workspace.get_all_solutions();
        let improvable = select_improvable(&solutions);
        if improvable.len() == 0 {
            return Ok(false);
        }
        proof {
            // Some candidate qualified: it came from the workspace and is
            // unverified with fewer than two failures.
            assert(solutions@.contains(improvable@[0]));
            let k = choose|k: int|
                0 <= k < solutions@.len() && solutions@[k] == improvable@[0];
            assert(!solutions@[k].is_verified && solutions@[k].verification_failures < 2);
        }
        let mut improvements_made = false;
        let ghost ws0 = self.workspace@;
        let mut i: usize = 0;
        while i < improvable.len()
            invariant
                i <= improvable@.len(),
                self.config == old(self).config,
                self.strategy_network@ == old(self).strategy_network@,
                ws0 == old(self).workspace@,
                ws0.is_prefix_of(self.workspace@),
                !improvements_made ==> self.workspace@ == ws0,
                forall|k: int|
                    ws0.len() <= k < self.workspace@.len() ==> (
                    #[trigger] self.workspace@[k]).phase == GenerationPhase::Improved,
            decreases improvable@.len() - i,
        {
            let agent = Agent::new(improvable[i].temperature);
            match agent.improve_solution(
                &improvable[i],
                "the solution did not pass verification",
                self.config.use_thinking_tags,
                provider,
            ) {
                Ok(improved) => {
                    self.events.push(
                        MarsEvent::SolutionImproved { solution_id: improved.id.clone() },
                    );
                    self.workspace.add_solution(improved);
                    improvements_made = true;
                    proof {
                        assert(ws0.is_prefix_of(self.workspace@));
                    }
                },
                Err(e) => {
                    self.events.push(MarsEvent::Error { message: e.message() });
                },
            }
            i = i + 1;
        }
        Ok(improvements_made)
    }

    /// Synthesis: try majority voting, then best-verified, then the
    /// synthesized fallback, in that strict order; the output carries the
    /// chosen candidate's texts and id and the saturated token sum.
    /// Succeeds exactly when the workspace holds any candidate; the one
    /// hard failure of a run is synthesis over an empty workspace.
    pub fn phase_synthesis(&mut self, iterations: u64) -> (r: Result<MarsOutput, MarsError>)
        ensures
            final(self).config == old(self).config,
            final(self).workspace@ == old(self).workspace@,
            final(self).strategy_network@ == old(self).strategy_network@,
            (r is Ok) == (old(self).workspace@.len() > 0),
            r matches Err(e) ==> e is NoSolutions,
            r matches Ok(out) ==> selection_ok(old(self).workspace@, out) && out.iterations
                == iterations,
    {
        self.events.push(MarsEvent::SynthesisStarted);
        let all_solutions = self.workspace.get_all_solutions();
        match self.select_by_majority_voting(&all_solutions) {
            Some(final_solution) => {
                self.events.push(
                    MarsEvent::AnswerSynthesized { answer: final_solution.answer.clone() },
                );
                return Ok(
                    self.create_output(
                        all_solutions,
                        final_solution,
                        SelectionMethod::MajorityVoting,
                        iterations,
                    ),
                );
            },
            None => {},
        }
        match self.select_best_verified(&all_solutions) {
            Some(final_solution) => {
                self.events.push(
                    MarsEvent::AnswerSynthesized { answer: final_solution.answer.clone() },
                );
                return Ok(
                    self.create_output(
                        all_solutions,
                        final_solution,
                        SelectionMethod::BestVerified,
                        iterations,
                    ),
                );
            },
            None => {},
        }
        match self.synthesize_final_answer(&all_solutions) {
            Ok(final_solution) => {
                self.events.push(
                    MarsEvent::AnswerSynthesized { answer: final_solution.answer.clone() },
                );
                Ok(
                    self.create_output(
                        all_solutions,
                        final_solution,
                        SelectionMethod::Synthesized,
                        iterations,
                    ),
                )
            },
            Err(e) => Err(e),
        }
    }

    /// A complete run: exploration, the optional aggregation and strategy
    /// phases, verification, improvement until the cap or an unproductive
    /// pass, then synthesis. The only terminal errors are a fatal
    /// aggregation failure and synthesis over an empty workspace; every
    /// other failure is an event.
    pub fn run<P: LLMProvider>(&mut self, query: &str, provider: &P) -> (r: Result<
        MarsOutput,
        MarsError,
    >)
        ensures
            final(self).config == old(self).config,
            r matches Err(e) ==> (e is NoSolutions || e is AggregationError),
            (r matches Err(e) && e is NoSolutions) ==> final(self).workspace@.len() == 0,
            final(self).workspace@.len() == 0 ==> r is Err,
            r matches Ok(out) ==> {
                &&& out.all_solutions@.len() > 0
                &&& selection_ok(final(self).workspace@, out)
                &&& out.iterations <= old(self).config.max_iterations as u64
            },
    {
        match self.phase_exploration(query, provider) {
            Ok(()) => {},
            Err(e) => {
                return Err(e);
            },
        }
        if self.config.enable_aggregation {
            match self.phase_aggregation(query, provider) {
                Ok(()) => {},
                Err(e) => {
                    return Err(e);
                },
            }
        }
        if self.config.enable_strategy_network {
            match self.phase_strategy_network(provider) {
                Ok(()) => {},
                Err(e) => {
                    return Err(e);
                },
            }
        }
        match self.phase_verification(provider) {
            Ok(()) => {},
            Err(e) => {
                return Err(e);
            },
        }
        let max_iterations = self.config.max_iterations;
        let mut iterations_run: u64 = 0;
        let mut it: usize = 0;
        while it < max_iterations
            invariant_except_break
                iterations_run <= it,
            invariant
                it <= max_iterations,
                iterations_run <= max_iterations,
                self.config == old(self).config,
                max_iterations == old(self).config.max_iterations,
            decreases max_iterations - it,
        {
            match self.phase_improvement(it, provider) {
                Ok(improved) => {
                    iterations_run = iterations_run + 1;
                    if !improved {
                        break;
                    }
                },
                Err(e) => {
                    return Err(e);
                },
            }
            it = it + 1;
        }
        self.phase_synthesis(iterations_run)
    }
}

/// The candidates that qualify for improvement: exactly those that are
/// unverified with fewer than two verification failures, in their original
/// order. A candidate with two failures never qualifies.
pub fn select_improvable(solutions: &Vec<Solution>) -> (r: Vec<Solution>)
    ensures
        forall|i: int|
            0 <= i < r@.len() ==> !(#[trigger] r@[i]).is_verified
                && r@[i].verification_failures < 2,
        forall|i: int| 0 <= i < r@.len() ==> solutions@.contains(#[trigger] r@[i]),
        forall|i: int|
            0 <= i < solutions@.len() && !(#[trigger] solutions@[i]).is_verified
                && solutions@[i].verification_failures < 2 ==> r@.contains(solutions@[i]),
{
    let mut out: Vec<Solution> = Vec::new();
    let mut i: usize = 0;
    while i < solutions.len()
        invariant
            i <= solutions@.len(),
            forall|k: int|
                0 <= k < out@.len() ==> !(#[trigger] out@[k]).is_verified
                    && out@[k].verification_failures < 2,
            forall|k: int| 0 <= k < out@.len() ==> solutions@.contains(#[trigger] out@[k]),
            forall|k: int|
                0 <= k < i && !(#[trigger] solutions@[k]).is_verified
                    && solutions@[k].verification_failures < 2 ==> out@.contains(solutions@[k]),
        decreases solutions@.len() - i,
    {
        if solutions[i].eligible_for_improvement() {
            let ghost out0 = out@;
            out.push(solutions[i].duplicate());
            proof {
                assert(out@[out@.len() - 1] == solutions@[i as int]);
                assert(out@.contains(solutions@[i as int]));
                assert forall|k: int|
                    0 <= k < i && !(#[trigger] solutions@[k]).is_verified
                        && solutions@[k].verification_failures < 2 implies out@.contains(
                    solutions@[k],
                ) by {
                    assert(out0.contains(solutions@[k]));
                    let w = choose|w: int| 0 <= w < out0.len() && out0[w] == solutions@[k];
                    assert(out@[w] == solutions@[k]);
                }
            }
        }
        i = i + 1;
    }
    out
}

} // verus!
