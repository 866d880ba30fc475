use code_mars::config::MarsConfig;

#[test]
fn test_default_config() {
    let config = MarsConfig::default();
    assert_eq!(config.num_agents, 3);
    assert_eq!(config.temperatures.len(), 3);
    assert!(!config.enable_aggregation);
    assert_eq!(config.max_iterations, 5);
}

#[test]
fn test_lightweight_config() {
    let config = MarsConfig::new().lightweight();
    assert_eq!(config.num_agents, 2);
    assert_eq!(config.max_iterations, 2);
    assert!(!config.enable_aggregation);
}

#[test]
fn test_advanced_features() {
    let config = MarsConfig::new().with_advanced_features();
    assert!(config.enable_aggregation);
    assert!(config.enable_strategy_network);
}

#[test]
fn test_token_budget() {
    let config = MarsConfig::default();
    assert_eq!(config.get_token_budget(false), 64000);
    assert_eq!(config.get_token_budget(true), 4000);
}

#[test]
fn test_with_num_agents_pads_temperatures() {
    let config = MarsConfig::new().with_num_agents(5);
    assert_eq!(config.num_agents, 5);
    assert_eq!(config.temperatures, vec![300, 600, 1000, 1000, 1000]);
}

#[test]
fn test_with_num_agents_truncates_temperatures() {
    let config = MarsConfig::new().with_num_agents(2);
    assert_eq!(config.num_agents, 2);
    assert_eq!(config.temperatures, vec![300, 600]);
}

#[test]
fn test_with_num_agents_rejects_zero() {
    let config = MarsConfig::new().with_num_agents(0);
    assert_eq!(config.num_agents, 3);
    assert_eq!(config.temperatures.len(), 3);
}

#[test]
fn test_effective_temperatures_length_matches_agents() {
    // The temperature list handed to the agents always has length
    // num_agents, whatever the configured list's length.
    let padded = MarsConfig::new()
        .with_temperatures(vec![250])
        .with_num_agents(4);
    assert_eq!(padded.effective_temperatures().len(), 4);

    let mut short = MarsConfig::new();
    short.num_agents = 4;
    short.temperatures = vec![250];
    let temps = short.effective_temperatures();
    assert_eq!(temps, vec![250, 1000, 1000, 1000]);

    let mut long = MarsConfig::new();
    long.num_agents = 1;
    let temps = long.effective_temperatures();
    assert_eq!(temps, vec![300]);
}

#[test]
fn test_with_temperatures_rejects_empty() {
    let config = MarsConfig::new().with_temperatures(vec![]);
    assert_eq!(config.temperatures, vec![300, 600, 1000]);
    let config = MarsConfig::new().with_temperatures(vec![700]);
    assert_eq!(config.temperatures, vec![700]);
}

#[test]
fn test_should_use_lightweight_threshold() {
    let config = MarsConfig::default();
    assert!(config.should_use_lightweight(Some(2000)));
    assert!(config.should_use_lightweight(Some(4000)));
    assert!(!config.should_use_lightweight(Some(5000)));
    assert!(!config.should_use_lightweight(None));
    let config = config.with_debug(false);
    let mut off = config;
    off.auto_lightweight_mode = false;
    assert!(!off.should_use_lightweight(Some(2000)));
}

#[test]
fn test_with_max_iterations_rejects_zero() {
    let config = MarsConfig::new().with_max_iterations(0);
    assert_eq!(config.max_iterations, 5);
    let config = MarsConfig::new().with_max_iterations(9);
    assert_eq!(config.max_iterations, 9);
}

#[test]
fn test_moa_builders() {
    let config = MarsConfig::new().with_moa_aggregation();
    assert!(matches!(
        config.aggregation_method,
        code_mars::types::AggregationMethod::MixtureOfAgents
    ));
    let config = MarsConfig::new().with_moa_num_completions(0);
    assert_eq!(config.moa_num_completions, 3);
}
