use gpu_profiler::metrics::{default_metrics, parse_metrics};

#[test]
fn test_parse_metrics_empty() {
    let metrics = parse_metrics("");
    assert_eq!(metrics.len(), default_metrics().len());
    assert_eq!(metrics[0], "gpu__time_duration.sum");
}

#[test]
fn test_parse_metrics_custom() {
    let input = "metric1; metric2, metric3";
    let metrics = parse_metrics(input);
    assert_eq!(metrics, vec!["metric1", "metric2", "metric3"]);
}

#[test]
fn test_parse_metrics_with_empty_segments() {
    let input = "metric1;;,metric2";
    let metrics = parse_metrics(input);
    assert_eq!(metrics, vec!["metric1", "metric2"]);
}

#[test]
fn parse_metrics_whitespace_only_yields_catalog() {
    let metrics = parse_metrics(" \t\n  ");
    assert_eq!(metrics.len(), 24);
    assert_eq!(metrics[0], "gpu__time_duration.sum");
}

#[test]
fn default_catalog_has_24_entries() {
    let metrics = default_metrics();
    assert_eq!(metrics.len(), 24);
    assert_eq!(metrics[0], "gpu__time_duration.sum");
    assert_eq!(metrics[23], "sm__warps_active.avg.per_cycle_active");
}

#[test]
fn parse_metrics_trims_unicode_whitespace() {
    let metrics = parse_metrics("\u{2003}alpha\u{2003}; beta");
    assert_eq!(metrics, vec!["alpha", "beta"]);
}

#[test]
fn parse_metrics_separators_only_yields_nothing() {
    let metrics = parse_metrics(";;,");
    assert!(metrics.is_empty());
}

#[test]
fn parse_metrics_single_name_no_separator() {
    let metrics = parse_metrics("  lts__t_sectors.sum  ");
    assert_eq!(metrics, vec!["lts__t_sectors.sum"]);
}
