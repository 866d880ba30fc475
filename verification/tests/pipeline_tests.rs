use code_mars::agent::Agent;
use code_mars::aggregator::Aggregator;
use code_mars::config::MarsConfig;
use code_mars::coordinator::{select_improvable, MarsCoordinator};
use code_mars::model_router::{LLMProvider, ModelStream, MultiOutcome};
use code_mars::types::{GenerationPhase, MarsError, MarsEvent, SelectionMethod, Solution};
use code_mars::verification::Verifier;
use code_mars::workspace::Workspace;
use code_mars::text::{contains_sub, find_sub, starts_with, str_eq, substring_copy};
use code_mars::strategy::StrategyNetwork;
use code_mars::mcts::{DialogueState, MCTS, MCTSConfig};

/// Backend stub that answers every completion with the same text.
struct FixedProvider {
    reply: String,
}

impl LLMProvider for FixedProvider {
    fn complete(&self, _prompt: &str, _system: Option<&str>) -> Result<String, MarsError> {
        Ok(self.reply.clone())
    }

    fn stream(&self, _prompt: &str, _system: Option<&str>) -> Result<ModelStream, MarsError> {
        Ok(ModelStream::new(self.reply.clone()))
    }

    fn complete_many(&self, _prompt: &str, _system: Option<&str>, _n: usize) -> MultiOutcome {
        MultiOutcome::Unsupported
    }

    fn provider_name(&self) -> &str {
        "fixed"
    }

    fn model_name(&self) -> &str {
        "fixed-model"
    }
}

/// Backend stub that supports multi-completion.
struct MultiProvider {
    texts: Vec<String>,
}

impl LLMProvider for MultiProvider {
    fn complete(&self, _prompt: &str, _system: Option<&str>) -> Result<String, MarsError> {
        Ok("single".to_string())
    }

    fn stream(&self, _prompt: &str, _system: Option<&str>) -> Result<ModelStream, MarsError> {
        Ok(ModelStream::new("single".to_string()))
    }

    fn complete_many(&self, _prompt: &str, _system: Option<&str>, _n: usize) -> MultiOutcome {
        MultiOutcome::Completions(self.texts.clone())
    }

    fn provider_name(&self) -> &str {
        "multi"
    }

    fn model_name(&self) -> &str {
        "multi-model"
    }
}

/// Backend stub whose every call fails.
struct FailingProvider;

impl LLMProvider for FailingProvider {
    fn complete(&self, _prompt: &str, _system: Option<&str>) -> Result<String, MarsError> {
        Err(MarsError::BackendError("down".to_string()))
    }

    fn stream(&self, _prompt: &str, _system: Option<&str>) -> Result<ModelStream, MarsError> {
        Err(MarsError::BackendError("down".to_string()))
    }

    fn complete_many(&self, _prompt: &str, _system: Option<&str>, _n: usize) -> MultiOutcome {
        MultiOutcome::Failed("down".to_string())
    }

    fn provider_name(&self) -> &str {
        "failing"
    }

    fn model_name(&self) -> &str {
        "failing-model"
    }
}

fn solution(answer: &str, score: u64, tokens: u64) -> Solution {
    let mut s = Solution::new(
        "agent-test".to_string(),
        format!("reasoning for {}", answer),
        answer.to_string(),
        300,
        tokens,
    );
    s.verification_score = score;
    s
}

#[test]
fn test_agent_creation() {
    let agent = Agent::new(700);
    assert_eq!(agent.temperature, 700);
    assert!(!agent.id.is_empty());
}

#[test]
fn test_agent_id_shape() {
    let agent = Agent::new(300);
    assert!(agent.id.starts_with("agent-"));
    assert_eq!(agent.id.len(), 42);
    let other = Agent::new(300);
    assert_ne!(agent.id, other.id);
}

#[test]
fn test_solution_id_is_uuid_length() {
    let s = solution("42", 0, 0);
    assert_eq!(s.id.len(), 36);
    let t = solution("42", 0, 0);
    assert_ne!(s.id, t.id);
}

#[test]
fn test_parse_response_splits_at_separator() {
    let agent = Agent::new(300);
    let (reasoning, answer) = agent.parse_response("abc---def");
    assert_eq!(reasoning, "abc");
    assert_eq!(answer, "def");
}

#[test]
fn test_parse_response_answer_ends_at_second_separator() {
    let agent = Agent::new(300);
    let (reasoning, answer) = agent.parse_response("a---b---c");
    assert_eq!(reasoning, "a");
    assert_eq!(answer, "b");
}

#[test]
fn test_parse_response_without_separator_duplicates() {
    let agent = Agent::new(300);
    let (reasoning, answer) = agent.parse_response("just text");
    assert_eq!(reasoning, "just text");
    assert_eq!(answer, "just text");
}

#[test]
fn test_workspace_add_get_update() {
    let mut ws = Workspace::new();
    assert_eq!(ws.count(), 0);
    let a = solution("1", 0, 0);
    let a_id = a.id.clone();
    ws.add_solution(a);
    ws.add_solution(solution("2", 0, 0));
    assert_eq!(ws.count(), 2);

    let mut updated = ws.get_all_solutions()[0].clone();
    updated.answer = "one".to_string();
    assert!(ws.update_solution(updated));
    let all = ws.get_all_solutions();
    assert_eq!(all[0].answer, "one");
    assert_eq!(all[0].id, a_id);
    assert_eq!(all[1].answer, "2");
}

#[test]
fn test_workspace_update_absent_is_soft_failure() {
    let mut ws = Workspace::new();
    ws.add_solution(solution("1", 0, 0));
    let stranger = solution("9", 0, 0);
    assert!(!ws.update_solution(stranger));
    assert_eq!(ws.count(), 1);
    assert_eq!(ws.get_all_solutions()[0].answer, "1");
}

#[test]
fn test_strategy_network_registry() {
    let mut network = StrategyNetwork::new();
    let id0 = network.register_strategy(
        "agent-a".to_string(),
        "split the problem".to_string(),
        "note".to_string(),
    );
    let id1 = network.register_strategy(
        "agent-b".to_string(),
        "work backwards".to_string(),
        "note".to_string(),
    );
    assert_eq!(id0, 0);
    assert_eq!(id1, 1);
    assert_eq!(network.count(), 2);
    let entry = network.get_strategy(id0).unwrap();
    assert_eq!(entry.origin_agent_id, "agent-a");
    assert_eq!(entry.description, "split the problem");
    assert!(network.get_strategy(2).is_none());
}

#[test]
fn test_verification_bookkeeping() {
    // Two consecutive passes at consensus threshold 2 verify the candidate.
    let mut s = solution("42", 0, 0);
    s.add_verification_pass(900, 2);
    assert!(!s.is_verified);
    s.add_verification_pass(800, 2);
    assert!(s.is_verified);
    assert_eq!(s.verification_passes, 2);
    assert_eq!(s.verification_score, 1700);

    // One pass then one failure leaves the candidate unverified.
    let mut t = solution("42", 0, 0);
    t.add_verification_pass(900, 2);
    t.add_verification_failure();
    assert!(!t.is_verified);
    assert_eq!(t.verification_failures, 1);
    assert_eq!(t.verification_passes, 0);
}

#[test]
fn test_improvement_eligibility() {
    // A candidate with two verification failures is never selected,
    // whatever its verified flag says.
    let mut failed = solution("a", 0, 0);
    failed.add_verification_failure();
    failed.add_verification_failure();
    assert!(!failed.eligible_for_improvement());

    let fresh = solution("b", 0, 0);
    assert!(fresh.eligible_for_improvement());

    let mut verified = solution("c", 0, 0);
    verified.add_verification_pass(1000, 1);
    assert!(!verified.eligible_for_improvement());

    let picked = select_improvable(&vec![failed.clone(), fresh.clone(), verified]);
    assert_eq!(picked.len(), 1);
    assert_eq!(picked[0].answer, "b");
}

#[test]
fn test_majority_voting_selects_repeated_answer() {
    let coordinator = MarsCoordinator::new(MarsConfig::default());
    let solutions = vec![
        solution("42", 0, 0),
        solution("42", 0, 0),
        solution("43", 0, 0),
    ];
    let selected = coordinator.select_by_majority_voting(&solutions);
    assert_eq!(selected.unwrap().answer, "42");
}

#[test]
fn test_majority_voting_no_repeats_yields_nothing() {
    let coordinator = MarsCoordinator::new(MarsConfig::default());
    let solutions = vec![solution("1", 0, 0), solution("2", 0, 0), solution("3", 0, 0)];
    assert!(coordinator.select_by_majority_voting(&solutions).is_none());
}

#[test]
fn test_majority_voting_single_candidate_falls_through() {
    // One candidate has no answer with two supporters, so majority voting
    // selects nothing and synthesis must fall through.
    let coordinator = MarsCoordinator::new(MarsConfig::default());
    let solutions = vec![solution("only", 0, 0)];
    assert!(coordinator.select_by_majority_voting(&solutions).is_none());
}

#[test]
fn test_single_candidate_run_is_synthesized() {
    // A run that produces exactly one unverified candidate skips majority
    // voting and best-verified and lands on the synthesized fallback.
    let provider = FixedProvider { reply: "thinking---only".to_string() };
    let mut coordinator = MarsCoordinator::new(MarsConfig::default().with_num_agents(1));
    let output = coordinator.run("q", &provider).unwrap();
    assert_eq!(output.all_solutions.len(), 1);
    assert!(matches!(output.selection_method, SelectionMethod::Synthesized));
    assert_eq!(output.answer, "only");
}

#[test]
fn test_aggregate_rsa_zero_loops_returns_input() {
    let provider = FailingProvider;
    let input = vec![solution("a", 0, 0), solution("b", 0, 0)];
    // Zero refinement loops make no backend call, so success is owed even
    // with a failing backend, and the population is returned as it is.
    let result = Aggregator::aggregate_rsa(&input, 4, 2, 0, &provider).unwrap();
    assert_eq!(result.len(), 2);
    assert_eq!(result[0].answer, "a");
    assert_eq!(result[1].answer, "b");
}

#[test]
fn test_search_without_simulations_is_an_error() {
    let provider = FixedProvider { reply: "act".to_string() };
    let mut config = MCTSConfig::default();
    config.num_simulations = 0;
    let mut mcts = MCTS::new(config);
    let state = DialogueState::new("p".to_string(), vec![], "q".to_string());
    assert!(mcts.search(state, &provider).is_err());

    let mut config = MCTSConfig::default();
    config.num_actions = 0;
    let mut mcts = MCTS::new(config);
    let state = DialogueState::new("p".to_string(), vec![], "q".to_string());
    assert!(mcts.search(state, &provider).is_err());

    // A terminal initial state can never be expanded either.
    let mut mcts = MCTS::new(MCTSConfig::default());
    let state = DialogueState::new("p".to_string(), vec![], "goodbye".to_string());
    assert!(mcts.search(state, &provider).is_err());
}

#[test]
fn test_search_counts_backend_calls() {
    let provider = FixedProvider { reply: "act".to_string() };
    let mut mcts = MCTS::new(MCTSConfig::default());
    let state = DialogueState::new("p".to_string(), vec![], "q".to_string());
    assert_eq!(mcts.completion_tokens, 0);
    let result = mcts.search(state, &provider);
    assert!(result.is_ok());
    assert!(mcts.completion_tokens > 0);
}

#[test]
fn test_best_verified_prefers_earliest_on_tie() {
    let mut a = solution("a", 700, 0);
    a.is_verified = true;
    let mut b = solution("b", 700, 0);
    b.is_verified = true;
    let c = solution("c", 900, 0);
    // c has the top score but is unverified.
    let best = Verifier::find_best_verified(&vec![c, a.clone(), b]).unwrap();
    assert_eq!(best.answer, "a");
    assert!(Verifier::find_best_verified(&vec![solution("x", 900, 0)]).is_none());
}

#[test]
fn test_synthesis_fallback_determinism() {
    // Scores 0.9 / 0.5 / 0.1: the synthesized answer comes from the 0.9
    // candidate and the token count sums all three.
    let coordinator = MarsCoordinator::new(MarsConfig::default());
    let solutions = vec![
        solution("best", 900, 100),
        solution("middle", 500, 200),
        solution("worst", 100, 300),
    ];
    let s = coordinator.synthesize_final_answer(&solutions).unwrap();
    assert_eq!(s.answer, "best");
    assert_eq!(s.token_count, 600);
    assert!(matches!(s.phase, GenerationPhase::Synthesized));
    assert_eq!(s.agent_id, "synthesizer");
    assert_eq!(
        s.reasoning,
        "Approach 1:\nreasoning for best\n\nApproach 2:\nreasoning for middle\n\nApproach 3:\nreasoning for worst"
    );
}

#[test]
fn test_synthesis_on_empty_workspace_fails() {
    let coordinator = MarsCoordinator::new(MarsConfig::default());
    let err = coordinator.synthesize_final_answer(&vec![]).unwrap_err();
    assert!(matches!(err, MarsError::NoSolutions));
    assert_eq!(err.message(), "no candidates");
}

#[test]
fn test_moa_fallback_disabled_fails() {
    let provider = FixedProvider { reply: "t".to_string() };
    let result = Aggregator::aggregate_moa("q", "sys", 3, false, &provider);
    assert!(matches!(result, Err(MarsError::AggregationError(_))));
}

#[test]
fn test_moa_fallback_enabled_returns_requested_count() {
    let provider = FixedProvider { reply: "t".to_string() };
    let candidates = Aggregator::aggregate_moa("q", "sys", 3, true, &provider).unwrap();
    assert_eq!(candidates.len(), 3);
    for c in &candidates {
        assert!(matches!(c.phase, GenerationPhase::Aggregated));
    }
}

#[test]
fn test_moa_multi_completion_accepted_as_is() {
    let provider = MultiProvider {
        texts: vec!["one".to_string(), "two".to_string()],
    };
    let candidates = Aggregator::aggregate_moa("q", "sys", 2, false, &provider).unwrap();
    assert_eq!(candidates.len(), 2);
    assert_eq!(candidates[0].answer, "one");
    assert_eq!(candidates[1].answer, "two");
}

#[test]
fn test_aggregate_rsa_keeps_population_size() {
    let provider = FixedProvider { reply: "agg".to_string() };
    let input = vec![solution("a", 900, 0), solution("b", 100, 0)];
    let result = Aggregator::aggregate_rsa(&input, 4, 2, 1, &provider).unwrap();
    assert_eq!(result.len(), 4);
    // The two seeds survive ranked first; the rest are fresh aggregates.
    assert_eq!(result[0].answer, "a");
    assert_eq!(result[1].answer, "b");
    assert!(matches!(result[2].phase, GenerationPhase::Aggregated));
    assert!(matches!(result[3].phase, GenerationPhase::Aggregated));
}

#[test]
fn test_aggregate_mcts_wraps_chosen_action() {
    let provider = FixedProvider { reply: "next step".to_string() };
    let result =
        Aggregator::aggregate_mcts("q", "sys", MCTSConfig::default(), &provider).unwrap();
    assert_eq!(result.len(), 1);
    assert_eq!(result[0].answer, "next step");
    assert!(matches!(result[0].phase, GenerationPhase::Aggregated));
}

#[test]
fn test_full_run_with_advanced_features() {
    let provider = FixedProvider { reply: "thinking---42".to_string() };
    let mut coordinator = MarsCoordinator::new(MarsConfig::default().with_advanced_features());
    let output = coordinator.run("q", &provider).unwrap();
    // Three explored candidates, the refined population of six, and the
    // improved candidates added on top.
    assert!(output.all_solutions.len() >= 9);
    assert_eq!(output.answer, "42");
    // One strategy was extracted from each candidate's single-line reply;
    // extraction ran on the nine candidates present at that phase.
    assert_eq!(coordinator.strategy_network.count(), 9);
    assert!(coordinator
        .events
        .iter()
        .any(|e| matches!(e, MarsEvent::AggregationStarted)));
    assert!(coordinator
        .events
        .iter()
        .any(|e| matches!(e, MarsEvent::StrategyExtracted { .. })));
}

#[test]
fn test_improved_solution_gets_fresh_id() {
    let provider = FixedProvider { reply: "better---43".to_string() };
    let agent = Agent::new(600);
    let original = solution("42", 0, 7);
    let improved = agent
        .improve_solution(&original, "feedback", false, &provider)
        .unwrap();
    assert_ne!(improved.id, original.id);
    assert!(matches!(improved.phase, GenerationPhase::Improved));
    assert_eq!(improved.answer, "43");
    assert_eq!(improved.token_count, 7);
}

#[test]
fn test_agent_default_temperature() {
    let agent = Agent::default();
    assert_eq!(agent.temperature, 500);
}

#[test]
fn test_agent_verify_solution_scores_verdict() {
    let agent = Agent::new(300);
    let s = solution("42", 0, 0);
    let affirming = FixedProvider { reply: "CORRECT".to_string() };
    assert_eq!(agent.verify_solution(&s, &affirming).unwrap(), 1000);
    let denying = FixedProvider { reply: "INCORRECT".to_string() };
    assert_eq!(agent.verify_solution(&s, &denying).unwrap(), 0);
}

#[test]
fn test_extract_strategies_splits_nonempty_lines() {
    let agent = Agent::new(300);
    let s = solution("42", 0, 0);
    let provider = FixedProvider {
        reply: "one\ntwo\n\nthree".to_string(),
    };
    let strategies = agent.extract_strategies(&s, &provider).unwrap();
    assert_eq!(strategies, vec!["one", "two", "three"]);
}

#[test]
fn test_parse_verdict() {
    let v = Verifier::parse_verdict("CORRECT: well reasoned");
    assert!(v.is_correct);
    assert_eq!(v.score, 1000);
    let v = Verifier::parse_verdict("INCORRECT: flawed");
    assert!(!v.is_correct);
    assert_eq!(v.score, 0);
    let v = Verifier::parse_verdict("correct");
    assert!(!v.is_correct);
}

#[test]
fn test_full_run_selects_majority() {
    let provider = FixedProvider { reply: "thinking---42".to_string() };
    let mut coordinator = MarsCoordinator::new(MarsConfig::default());
    let output = coordinator.run("what is 6 times 7", &provider).unwrap();
    assert_eq!(output.answer, "42");
    assert!(matches!(output.selection_method, SelectionMethod::MajorityVoting));
    assert_eq!(output.all_solutions.len(), 3);
    assert!(output.completed_at > 0);
    assert!(matches!(
        coordinator.events[0],
        MarsEvent::ExplorationStarted { num_agents: 3 }
    ));
}

#[test]
fn test_run_with_all_agents_failing_reports_no_candidates() {
    let provider = FailingProvider;
    let mut coordinator = MarsCoordinator::new(MarsConfig::default());
    let err = coordinator.run("q", &provider).unwrap_err();
    assert!(matches!(err, MarsError::NoSolutions));
    // Each agent's failure was reported as an error event.
    let error_events = coordinator
        .events
        .iter()
        .filter(|e| matches!(e, MarsEvent::Error { .. }))
        .count();
    assert!(error_events >= 3);
}

#[test]
fn test_round_trip_idempotence() {
    // Feed a produced output's chosen candidate back through verification
    // with a backend that always affirms: the pass count rises and the
    // texts stay untouched.
    let provider = FixedProvider { reply: "thinking---42".to_string() };
    let mut coordinator = MarsCoordinator::new(MarsConfig::default());
    let output = coordinator.run("q", &provider).unwrap();
    let mut chosen = output
        .all_solutions
        .iter()
        .find(|s| s.id == output.final_solution_id)
        .unwrap()
        .clone();

    let affirming = FixedProvider { reply: "CORRECT".to_string() };
    let verdict = Verifier::verify_solution(&chosen, "verifier-1", &affirming).unwrap();
    assert!(verdict.is_correct);

    let passes_before = chosen.verification_passes;
    let answer_before = chosen.answer.clone();
    let reasoning_before = chosen.reasoning.clone();
    chosen.add_verification_pass(verdict.score, 2);
    assert_eq!(chosen.verification_passes, passes_before + 1);
    assert_eq!(chosen.answer, answer_before);
    assert_eq!(chosen.reasoning, reasoning_before);
}

#[test]
fn test_error_messages() {
    assert_eq!(MarsError::NoSolutions.message(), "no candidates");
    assert_eq!(
        MarsError::AggregationError("bad".to_string()).message(),
        "aggregation error: bad"
    );
    assert_eq!(
        MarsError::BackendError("down".to_string()).message(),
        "backend error: down"
    );
}

#[test]
fn test_text_helpers() {
    assert!(str_eq("abc", "abc"));
    assert!(!str_eq("abc", "abd"));
    assert!(starts_with("CORRECT: yes", "CORRECT"));
    assert!(!starts_with("INCORRECT", "CORRECT"));
    assert_eq!(find_sub("abcabc", "bc", 0), Some(1));
    assert_eq!(find_sub("abcabc", "bc", 2), Some(4));
    assert_eq!(find_sub("abcabc", "zz", 0), None);
    assert!(contains_sub("hello world", "lo w"));
    assert!(!contains_sub("hello", "world"));
    assert_eq!(substring_copy("hello", 1, 4), "ell");
}
