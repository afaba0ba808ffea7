use ferris::{
    concurrency_budget, fd_limit_for, verbosity_for, ConfigError, Configuration, Implementation,
    Platform, Verbosity, FALLBACK_FD_LIMIT, SAFETY_MARGIN,
};

#[test]
fn parses_names_ignoring_case() {
    assert_eq!(Implementation::parse("sequential"), Ok(Implementation::Sequential));
    assert_eq!(Implementation::parse("Rayon"), Ok(Implementation::Rayon));
    assert_eq!(Implementation::parse("THREADPOOL"), Ok(Implementation::ThreadPool));
    assert_eq!(Implementation::parse("aSyNc"), Ok(Implementation::Async));
    assert_eq!("async".parse::<Implementation>(), Ok(Implementation::Async));
}

#[test]
fn rejects_unknown_name() {
    assert_eq!(
        Implementation::parse("parallel"),
        Err("Invalid implementation: parallel".to_string())
    );
    assert_eq!(Implementation::parse(""), Err("Invalid implementation: ".to_string()));
    assert_eq!(
        Implementation::parse("thread pool"),
        Err("Invalid implementation: thread pool".to_string())
    );
}

#[test]
fn exact_lowercase_lookup() {
    assert_eq!(Implementation::from_lowercase(&"rayon".to_string()), Some(Implementation::Rayon));
    assert_eq!(Implementation::from_lowercase(&"Rayon".to_string()), None);
}

#[test]
fn labels_and_comparison_order() {
    let order = Implementation::comparison_order();
    let labels: Vec<&str> = order.iter().map(|i| i.label()).collect();
    assert_eq!(labels, vec!["Sequential", "Rayon", "ThreadPool", "Async"]);
}

#[test]
fn verbosity_levels() {
    assert_eq!(verbosity_for(0), Verbosity::Info);
    assert_eq!(verbosity_for(1), Verbosity::Debug);
    assert_eq!(verbosity_for(2), Verbosity::Trace);
    assert_eq!(verbosity_for(255), Verbosity::Trace);
}

#[test]
fn zero_buffer_size_is_rejected() {
    assert_eq!(
        Configuration::new(0, Implementation::Rayon, 0, false),
        Err(ConfigError::ZeroBufferSize)
    );
    let c = Configuration::new(8192, Implementation::Async, 1, false).unwrap();
    assert_eq!(c.buffer_size, 8192);
    assert_eq!(c.verbosity(), Verbosity::Debug);
}

#[test]
fn single_run_executes_the_selected_strategy() {
    let c = Configuration::new(1, Implementation::ThreadPool, 0, false).unwrap();
    assert_eq!(c.strategies(), vec![Implementation::ThreadPool]);
    assert!(!c.logs_elapsed());
    let v = Configuration::new(1, Implementation::ThreadPool, 2, false).unwrap();
    assert!(v.logs_elapsed());
}

#[test]
fn comparison_ignores_the_selected_strategy() {
    let c = Configuration::new(8192, Implementation::Async, 3, true).unwrap();
    assert_eq!(
        c.strategies(),
        vec![
            Implementation::Sequential,
            Implementation::Rayon,
            Implementation::ThreadPool,
            Implementation::Async
        ]
    );
    assert!(!c.logs_elapsed());
}

#[test]
fn budget_subtracts_margin_above_it() {
    assert_eq!(SAFETY_MARGIN, 100);
    assert_eq!(concurrency_budget(1024), 924);
    assert_eq!(concurrency_budget(101), 1);
    assert_eq!(concurrency_budget(u64::MAX), u64::MAX - 100);
}

#[test]
fn budget_keeps_small_limits() {
    assert_eq!(concurrency_budget(100), 100);
    assert_eq!(concurrency_budget(1), 1);
    assert_eq!(concurrency_budget(50), 50);
}

#[test]
fn budget_is_never_zero() {
    assert_eq!(concurrency_budget(0), 1);
    for limit in 0..300u64 {
        assert!(concurrency_budget(limit) >= 1);
    }
}

#[test]
fn fd_limit_per_platform() {
    assert_eq!(fd_limit_for(Platform::Posix, Some(4096)), 4096);
    assert_eq!(fd_limit_for(Platform::Posix, None), FALLBACK_FD_LIMIT);
    assert_eq!(FALLBACK_FD_LIMIT, 1024);
    assert_eq!(fd_limit_for(Platform::Windows, Some(4096)), 8192);
    assert_eq!(fd_limit_for(Platform::Windows, None), 8192);
    assert_eq!(fd_limit_for(Platform::Other, Some(4096)), 1024);
}
