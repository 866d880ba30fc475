//! Run configuration: immutable for the duration of a run once started.
//! Temperatures and weights are carried in thousandths.
use vstd::prelude::*;
use crate::mcts::MCTSConfig;
use crate::provider_config::ProviderRoutingConfig;
use crate::types::AggregationMethod;

verus! {

/// Temperature used to pad a temperature list that is shorter than the
/// agent count, in thousandths.
pub const DEFAULT_TEMPERATURE: u64 = 1000;

/// Token ceiling at or under which a task counts as lightweight.
pub const LIGHTWEIGHT_TOKEN_THRESHOLD: usize = 4000;

/// The temperature the agent at position `i` receives: entry `i` of the
/// configured list, or the default where the list is shorter.
pub open spec fn effective_temperature(c: MarsConfig, i: int) -> u64 {
    if i < c.temperatures@.len() {
        c.temperatures@[i]
    } else {
        DEFAULT_TEMPERATURE
    }
}

/// All knobs of a run. Constructed by `Default` and refined through the
/// consuming builder methods; every numeric setter rejects non-positive
/// values, so the positivity the default establishes is kept.
#[derive(Clone, Debug)]
pub struct MarsConfig {
    /// Number of agents spawned during exploration.
    pub num_agents: usize,
    /// Temperature of each agent, in thousandths.
    pub temperatures: Vec<u64>,
    /// Passing verifications needed before a candidate counts as verified.
    pub consensus_threshold: u64,
    pub enable_aggregation: bool,
    pub enable_strategy_network: bool,
    /// Cap on improvement iterations.
    pub max_iterations: usize,
    pub use_thinking_tags: bool,
    pub token_budget_reasoning: usize,
    pub token_budget_lightweight: usize,
    pub auto_lightweight_mode: bool,
    pub aggregation_population_size: usize,
    pub aggregation_selection_size: usize,
    pub aggregation_loops: usize,
    pub aggregation_method: AggregationMethod,
    pub moa_num_completions: usize,
    pub moa_fallback_enabled: bool,
    pub provider_routing: Option<ProviderRoutingConfig>,
    pub enable_multi_provider: bool,
    pub timeout_seconds: u64,
    pub mcts_simulation_depth: usize,
    /// UCB exploration weight, in thousandths.
    pub mcts_exploration_weight: u64,
    pub mcts_num_simulations: usize,
    pub mcts_num_actions: usize,
    pub debug: bool,
}

impl Default for MarsConfig {
    /// Three agents at low, medium and high temperature; consensus after
    /// two passes; aggregation and the strategy network off.
    fn default() -> (r: MarsConfig)
        ensures
            r.num_agents == 3,
            r.temperatures@ == seq![300u64, 600u64, 1000u64],
            r.consensus_threshold == 2,
            !r.enable_aggregation,
            !r.enable_strategy_network,
            r.max_iterations == 5,
            r.use_thinking_tags,
            r.token_budget_reasoning == 64000,
            r.token_budget_lightweight == 4000,
            r.auto_lightweight_mode,
            r.aggregation_population_size == 6,
            r.aggregation_selection_size == 3,
            r.aggregation_loops == 3,
            r.aggregation_method == AggregationMethod::RSA,
            r.moa_num_completions == 3,
            r.moa_fallback_enabled,
            r.provider_routing is None,
            !r.enable_multi_provider,
            r.timeout_seconds == 300,
            r.mcts_simulation_depth == 1,
            r.mcts_exploration_weight == 200,
            r.mcts_num_simulations == 2,
            r.mcts_num_actions == 3,
            !r.debug,
    {
        let mut temperatures: Vec<u64> = Vec::new();
        temperatures.push(300);
        temperatures.push(600);
        temperatures.push(1000);
        proof {
            assert(temperatures@ =~= seq![300u64, 600u64, 1000u64]);
        }
        MarsConfig {
            num_agents: 3,
            temperatures,
            consensus_threshold: 2,
            enable_aggregation: false,
            enable_strategy_network: false,
            max_iterations: 5,
            use_thinking_tags: true,
            token_budget_reasoning: 64000,
            token_budget_lightweight: 4000,
            auto_lightweight_mode: true,
            aggregation_population_size: 6,
            aggregation_selection_size: 3,
            aggregation_loops: 3,
            aggregation_method: AggregationMethod::RSA,
            moa_num_completions: 3,
            moa_fallback_enabled: true,
            provider_routing: None,
            enable_multi_provider: false,
            timeout_seconds: 300,
            mcts_simulation_depth: 1,
            mcts_exploration_weight: 200,
            mcts_num_simulations: 2,
            mcts_num_actions: 3,
            debug: false,
        }
    }
}

impl MarsConfig {
    /// The default configuration.
    pub fn new() -> (r: MarsConfig)
        ensures
            r.num_agents == 3,
            r.temperatures@ == seq![300u64, 600u64, 1000u64],
            r.consensus_threshold == 2,
            !r.enable_aggregation,
            !r.enable_strategy_network,
            r.max_iterations == 5,
            r.moa_num_completions == 3,
            r.moa_fallback_enabled,
            r.aggregation_method == AggregationMethod::RSA,
            r.aggregation_population_size == 6,
            r.aggregation_selection_size == 3,
            r.aggregation_loops == 3,
            r.provider_routing is None,
            !r.enable_multi_provider,
            r.auto_lightweight_mode,
            r.token_budget_reasoning == 64000,
            r.token_budget_lightweight == 4000,
            r.use_thinking_tags,
            r.mcts_simulation_depth == 1,
            r.mcts_exploration_weight == 200,
            r.mcts_num_simulations == 2,
            r.mcts_num_actions == 3,
            r.timeout_seconds == 300,
            !r.debug,
    {
        MarsConfig::default()
    }

    /// Switch both optional phases on.
    pub fn with_advanced_features(self) -> (r: MarsConfig)
        ensures
            r == (MarsConfig {
                enable_aggregation: true,
                enable_strategy_network: true,
                ..self
            }),
    {
        MarsConfig { enable_aggregation: true, enable_strategy_network: true, ..self }
    }

    /// Fewer agents and iterations, optional phases off: for simple tasks.
    pub fn lightweight(self) -> (r: MarsConfig)
        ensures
            r == (MarsConfig {
                num_agents: 2,
                max_iterations: 2,
                enable_aggregation: false,
                enable_strategy_network: false,
                ..self
            }),
    {
        MarsConfig {
            num_agents: 2,
            max_iterations: 2,
            enable_aggregation: false,
            enable_strategy_network: false,
            ..self
        }
    }

    /// Set the agent count and keep the temperature list in step: excess
    /// entries are cut, missing ones are padded with the default
    /// temperature. Zero is rejected and leaves the configuration as it is.
    pub fn with_num_agents(self, num: usize) -> (r: MarsConfig)
        ensures
            num == 0 ==> r == self,
            num > 0 ==> {
                &&& r == (MarsConfig { num_agents: num, temperatures: r.temperatures, ..self })
                &&& r.num_agents == num
                &&& r.temperatures@.len() == num
                &&& forall|i: int|
                    0 <= i < num && i < self.temperatures@.len() ==> r.temperatures@[i]
                        == self.temperatures@[i]
                &&& forall|i: int|
                    self.temperatures@.len() <= i < num ==> r.temperatures@[i]
                        == DEFAULT_TEMPERATURE
            },
    {
        if num == 0 {
            return self;
        }
        let mut temperatures = self.temperatures;
        let ghost orig = temperatures@;
        if temperatures.len() > num {
            temperatures.truncate(num);
        } else {
            while temperatures.len() < num
                invariant
                    orig.len() <= temperatures@.len() <= num,
                    temperatures@.subrange(0, orig.len() as int) == orig,
                    forall|i: int|
                        orig.len() <= i < temperatures@.len() ==> temperatures@[i]
                            == DEFAULT_TEMPERATURE,
                decreases num - temperatures@.len(),
            {
                temperatures.push(DEFAULT_TEMPERATURE);
                proof {
                    assert(temperatures@.subrange(0, orig.len() as int) =~= orig);
                }
            }
        }
        proof {
            assert forall|i: int|
                0 <= i < num && i < orig.len() implies temperatures@[i] == orig[i] by {
                if orig.len() <= num {
                    assert(temperatures@.subrange(0, orig.len() as int)[i] == temperatures@[i]);
                }
            }
        }
        MarsConfig { num_agents: num, temperatures, ..self }
    }

    /// Replace the temperature list; an empty list is rejected.
    pub fn with_temperatures(self, temps: Vec<u64>) -> (r: MarsConfig)
        ensures
            temps@.len() == 0 ==> r == (MarsConfig { temperatures: r.temperatures, ..self })
                && r.temperatures@ == self.temperatures@,
            temps@.len() > 0 ==> r == (MarsConfig { temperatures: temps, ..self }),
    {
        if temps.len() == 0 {
            self
        } else {
            MarsConfig { temperatures: temps, ..self }
        }
    }

    /// Switch the aggregation phase on or off.
    pub fn with_aggregation(self, enabled: bool) -> (r: MarsConfig)
        ensures
            r == (MarsConfig { enable_aggregation: enabled, ..self }),
    {
        MarsConfig { enable_aggregation: enabled, ..self }
    }

    /// Switch the strategy-network phase on or off.
    pub fn with_strategy_network(self, enabled: bool) -> (r: MarsConfig)
        ensures
            r == (MarsConfig { enable_strategy_network: enabled, ..self }),
    {
        MarsConfig { enable_strategy_network: enabled, ..self }
    }

    /// Set the improvement-iteration cap; zero is rejected.
    pub fn with_max_iterations(self, max: usize) -> (r: MarsConfig)
        ensures
            max == 0 ==> r == self,
            max > 0 ==> r == (MarsConfig { max_iterations: max, ..self }),
    {
        if max == 0 {
            self
        } else {
            MarsConfig { max_iterations: max, ..self }
        }
    }

    /// Switch debug mode on or off.
    pub fn with_debug(self, debug: bool) -> (r: MarsConfig)
        ensures
            r == (MarsConfig { debug, ..self }),
    {
        MarsConfig { debug, ..self }
    }

    /// Choose the aggregation algorithm.
    pub fn with_aggregation_method(self, method: AggregationMethod) -> (r: MarsConfig)
        ensures
            r == (MarsConfig { aggregation_method: method, ..self }),
    {
        MarsConfig { aggregation_method: method, ..self }
    }

    /// Choose mixture-of-completions aggregation.
    pub fn with_moa_aggregation(self) -> (r: MarsConfig)
        ensures
            r == (MarsConfig {
                aggregation_method: AggregationMethod::MixtureOfAgents,
                ..self
            }),
    {
        MarsConfig { aggregation_method: AggregationMethod::MixtureOfAgents, ..self }
    }

    /// Set how many parallel completions mixture aggregation asks for;
    /// zero is rejected.
    pub fn with_moa_num_completions(self, num: usize) -> (r: MarsConfig)
        ensures
            num == 0 ==> r == self,
            num > 0 ==> r == (MarsConfig { moa_num_completions: num, ..self }),
    {
        if num == 0 {
            self
        } else {
            MarsConfig { moa_num_completions: num, ..self }
        }
    }

    /// Allow or forbid the single-completion fallback of mixture
    /// aggregation.
    pub fn with_moa_fallback_enabled(self, enabled: bool) -> (r: MarsConfig)
        ensures
            r == (MarsConfig { moa_fallback_enabled: enabled, ..self }),
    {
        MarsConfig { moa_fallback_enabled: enabled, ..self }
    }

    /// Install a multi-provider routing table.
    pub fn with_provider_routing(self, routing: ProviderRoutingConfig) -> (r: MarsConfig)
        ensures
            r == (MarsConfig { provider_routing: Some(routing), ..self }),
    {
        MarsConfig { provider_routing: Some(routing), ..self }
    }

    /// Switch multi-provider agent routing on or off.
    pub fn with_multi_provider_enabled(self, enabled: bool) -> (r: MarsConfig)
        ensures
            r == (MarsConfig { enable_multi_provider: enabled, ..self }),
    {
        MarsConfig { enable_multi_provider: enabled, ..self }
    }

    /// The token budget of the requested mode.
    pub fn get_token_budget(&self, is_lightweight: bool) -> (r: usize)
        ensures
            r == if is_lightweight {
                self.token_budget_lightweight
            } else {
                self.token_budget_reasoning
            },
    {
        if is_lightweight {
            self.token_budget_lightweight
        } else {
            self.token_budget_reasoning
        }
    }

    /// Lightweight mode applies exactly when it is switched on and the
    /// task's token cap is known and at most the lightweight threshold.
    pub fn should_use_lightweight(&self, max_tokens: Option<usize>) -> (r: bool)
        ensures
            r == (self.auto_lightweight_mode && (max_tokens matches Some(mt)
                && mt <= LIGHTWEIGHT_TOKEN_THRESHOLD)),
    {
        if !self.auto_lightweight_mode {
            return false;
        }
        match max_tokens {
            Some(mt) => mt <= LIGHTWEIGHT_TOKEN_THRESHOLD,
            None => false,
        }
    }

    /// Set the tree-search rollout depth.
    pub fn with_mcts_simulation_depth(self, depth: usize) -> (r: MarsConfig)
        ensures
            r == (MarsConfig { mcts_simulation_depth: depth, ..self }),
    {
        MarsConfig { mcts_simulation_depth: depth, ..self }
    }

    /// Set the UCB exploration weight, in thousandths.
    pub fn with_mcts_exploration_weight(self, weight: u64) -> (r: MarsConfig)
        ensures
            r == (MarsConfig { mcts_exploration_weight: weight, ..self }),
    {
        MarsConfig { mcts_exploration_weight: weight, ..self }
    }

    /// Set how many simulations each tree-search decision runs.
    pub fn with_mcts_num_simulations(self, num: usize) -> (r: MarsConfig)
        ensures
            r == (MarsConfig { mcts_num_simulations: num, ..self }),
    {
        MarsConfig { mcts_num_simulations: num, ..self }
    }

    /// Set how many candidate actions expansion generates.
    pub fn with_mcts_num_actions(self, num: usize) -> (r: MarsConfig)
        ensures
            r == (MarsConfig { mcts_num_actions: num, ..self }),
    {
        MarsConfig { mcts_num_actions: num, ..self }
    }

    /// The tree-search configuration this run configuration induces:
    /// its four tree-search knobs, generation at full temperature,
    /// evaluation at low temperature, and a ten-turn history cap.
    pub fn get_mcts_config(&self) -> (r: MCTSConfig)
        ensures
            r.simulation_depth == self.mcts_simulation_depth,
            r.exploration_weight == self.mcts_exploration_weight,
            r.num_simulations == self.mcts_num_simulations,
            r.num_actions == self.mcts_num_actions,
            r.generation_temperature == 1000,
            r.evaluation_temperature == 100,
            r.max_history_length == 10,
    {
        MCTSConfig {
            simulation_depth: self.mcts_simulation_depth,
            exploration_weight: self.mcts_exploration_weight,
            num_simulations: self.mcts_num_simulations,
            num_actions: self.mcts_num_actions,
            generation_temperature: 1000,
            evaluation_temperature: 100,
            max_history_length: 10,
        }
    }

    /// The temperature handed to each spawned agent: entry `i` of the
    /// configured list, or the default temperature where the list is
    /// shorter than the agent count. The result has length exactly
    /// `num_agents`, whatever the configured list's length.
    pub fn effective_temperatures(&self) -> (r: Vec<u64>)
        ensures
            r@.len() == self.num_agents,
            forall|i: int|
                0 <= i < self.num_agents ==> r@[i] == effective_temperature(*self, i),
            forall|i: int|
                0 <= i < self.num_agents && i < self.temperatures@.len() ==> r@[i]
                    == self.temperatures@[i],
            forall|i: int|
                self.temperatures@.len() <= i < self.num_agents ==> r@[i]
                    == DEFAULT_TEMPERATURE,
    {
        let mut out: Vec<u64> = Vec::new();
        let mut i: usize = 0;
        while i < self.num_agents
            invariant
                i <= self.num_agents,
                out@.len() == i,
                forall|j: int|
                    0 <= j < i && j < self.temperatures@.len() ==> out@[j]
                        == self.temperatures@[j],
                forall|j: int|
                    self.temperatures@.len() <= j < i ==> out@[j] == DEFAULT_TEMPERATURE,
            decreases self.num_agents - i,
        {
            if i < self.temperatures.len() {
                out.push(self.temperatures[i]);
            } else {
                out.push(DEFAULT_TEMPERATURE);
            }
            i = i + 1;
        }
        out
    }
}

} // verus!
