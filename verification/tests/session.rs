use gpu_profiler::check_cupti;
use gpu_profiler::config::Config;
use gpu_profiler::registry::GlobalState;
use gpu_profiler::session::{ProfilerHost, RangeProfiler};
use gpu_profiler::tracing::EventIdCounter;

#[test]
fn test_check_cupti_macro() {
    assert!(check_cupti(0).is_ok());
    assert!(check_cupti(1).is_err());
}

#[test]
fn check_cupti_hands_the_code_back() {
    assert_eq!(check_cupti(7), Err(7));
    assert_eq!(check_cupti(0), Ok(()));
}

#[test]
fn test_profiler_host_initialization() {
    let host = ProfilerHost::new();
    assert!(!host.initialized, "Host object should be null initially");
    assert!(host.chip_name.is_empty());
    assert!(host.counter_availability_image.is_empty());
}

#[test]
fn test_range_profiler_initialization() {
    let profiler = RangeProfiler::new(0);
    assert!(
        profiler.config_image.is_empty(),
        "Config image should be empty initially"
    );
    assert_eq!(profiler.pass_index, 0, "Pass index should be 0");
    assert_eq!(
        profiler.target_nesting_level, 0,
        "Target nesting level should be 0"
    );
    assert!(
        !profiler.is_all_pass_submitted,
        "All pass submitted should be false"
    );
}

#[test]
fn test_get_next_event_id() {
    let mut counter = EventIdCounter::new();
    let id1 = counter.get_next_event_id();
    let id2 = counter.get_next_event_id();
    assert_eq!(id2, id1 + 1);
    assert!(id1 > 0);
}

#[test]
fn entry_point_initializes_once() {
    let mut state = GlobalState::new(Config::default());
    let first = state.begin_initialization();
    let second = state.begin_initialization();
    assert!(first);
    assert!(!second);
    assert!(state.injection_initialized);
}

#[test]
fn default_config_uses_the_catalog() {
    let config = Config::default();
    assert!(!config.verbose);
    assert_eq!(config.metrics.len(), 24);
    assert_eq!(config.metrics[0], "gpu__time_duration.sum");
}
