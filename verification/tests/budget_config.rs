use nesting_engine::budget::plan_phase_budget;
use nesting_engine::config::NestingConfig;
use nesting_engine::config::NestingInput;
use nesting_engine::config::ShrinkDecay;
use nesting_engine::config::build_phase_configs;

#[test]
fn test_budget_with_explicit_limit() {
    // 100 seconds split into the fixed ratios: 80 s exploring, 20 s
    // compressing, together never more than the limit.
    let b = plan_phase_budget(Some(100));
    assert_eq!(b.exploration_ms, 80_000);
    assert_eq!(b.compression_ms, 20_000);
    assert!(b.exploration_ms + b.compression_ms <= 100_000);
    assert!(!b.used_default);
}

#[test]
fn test_budget_substitutes_default() {
    // No limit given: the 600-second default is substituted and reported.
    let b = plan_phase_budget(None);
    assert_eq!(b.exploration_ms, 480_000);
    assert_eq!(b.compression_ms, 120_000);
    assert!(b.exploration_ms + b.compression_ms <= 600_000);
    assert!(b.used_default);
}

#[test]
fn test_budget_zero_limit() {
    let b = plan_phase_budget(Some(0));
    assert_eq!(b.exploration_ms, 0);
    assert_eq!(b.compression_ms, 0);
}

#[test]
fn test_config_default() {
    let c = NestingConfig::default();
    assert_eq!(c.time_limit, Some(300));
    assert_eq!(c.seed, None);
    assert!(!c.use_early_termination);
    assert_eq!(c.n_workers, 1);
}

#[test]
fn test_input_to_config_fallbacks() {
    let input = NestingInput {
        json_input: String::new(),
        time_limit: None,
        seed: None,
        use_early_termination: None,
        n_workers: None,
    };
    let c = input.to_config();
    assert_eq!(c.time_limit, Some(300));
    assert_eq!(c.seed, None);
    assert!(!c.use_early_termination);
    assert_eq!(c.n_workers, 1);
}

#[test]
fn test_input_to_config_explicit() {
    let input = NestingInput {
        json_input: String::new(),
        time_limit: Some(60),
        seed: Some(7),
        use_early_termination: Some(true),
        n_workers: Some(4),
    };
    let c = input.to_config();
    assert_eq!(c.time_limit, Some(60));
    assert_eq!(c.seed, Some(7));
    assert!(c.use_early_termination);
    assert_eq!(c.n_workers, 4);
}

#[test]
fn test_phase_configs_without_early_termination() {
    let c = NestingConfig {
        time_limit: Some(10),
        seed: None,
        use_early_termination: false,
        n_workers: 2,
    };
    let (expl, cmpr) = build_phase_configs(&c);
    assert_eq!(expl.time_limit_ms, 8_000);
    assert_eq!(cmpr.time_limit_ms, 2_000);
    assert_eq!(expl.n_workers, 2);
    assert_eq!(cmpr.n_workers, 2);
    assert_eq!(expl.max_conseq_failed_attempts, None);
    assert_eq!(cmpr.shrink_decay, ShrinkDecay::TimeBased);
}

#[test]
fn test_phase_configs_with_early_termination() {
    let c = NestingConfig {
        time_limit: Some(10),
        seed: None,
        use_early_termination: true,
        n_workers: 1,
    };
    let (expl, cmpr) = build_phase_configs(&c);
    assert_eq!(expl.max_conseq_failed_attempts, Some(200));
    assert_eq!(cmpr.shrink_decay, ShrinkDecay::FailureBased(980));
    // The budget shares themselves are untouched by the option.
    assert_eq!(expl.time_limit_ms, 8_000);
    assert_eq!(cmpr.time_limit_ms, 2_000);
}
