//! Configuration consumed by the agent: the metric names to collect and a
//! verbosity flag. Loading from the environment is the embedder's job; the
//! default value is the built-in metric catalog.

use vstd::prelude::*;
use crate::metrics::{default_metrics, default_metrics_spec};

verus! {

/// Configuration for the profiling agent.
pub struct Config {
    /// Whether verbose logging is enabled.
    pub verbose: bool,
    /// List of metrics to be collected.
    pub metrics: Vec<String>,
}

impl Default for Config {
    /// Verbosity off, metrics the built-in catalog.
    fn default() -> (r: Config)
        ensures
            !r.verbose,
            r.metrics.deep_view() == default_metrics_spec(),
    {
        Config { verbose: false, metrics: default_metrics() }
    }
}

} // verus!
