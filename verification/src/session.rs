//! Models of the host-side profiling-engine objects and the engine result
//! convention.
//!
//! The hardware engine reports a numeric result code from every call; zero is
//! success. The core maps any non-success code to "abort this step only":
//! [`check_cupti`] is that guard. The structs here hold, as plain values, the
//! host-visible state of the engine objects (the range-profiler session and
//! the host-side metric evaluator); the engine's own opaque handles stay with
//! the embedder.

use vstd::prelude::*;

verus! {

/// Success code of the hardware profiling engine.
pub const CUPTI_SUCCESS: u32 = 0;

/// Maps an engine result code to `Ok(())` on success and `Err(code)` on any
/// other code, so a caller can abort just the step that failed.
pub fn check_cupti(code: u32) -> (r: Result<(), u32>)
    ensures
        r is Ok <==> code == CUPTI_SUCCESS,
        r is Err ==> r->Err_0 == code,
{
    if code == CUPTI_SUCCESS {
        Ok(())
    } else {
        Err(code)
    }
}

/// Host-visible state of one on-device range-profiling session, bound to one
/// logical context. The engine's session handle itself stays with the
/// embedder; this records what the core knows about the session.
pub struct RangeProfiler {
    /// Identifier of the context the session is bound to.
    pub ctx_id: u32,
    /// Configuration image built from the requested metric names; empty until
    /// the session has been configured.
    pub config_image: Vec<u8>,
    /// Index of the current replay pass, as last reported by a stop.
    pub pass_index: usize,
    /// Nesting level targeted by the next configure, as last reported by a
    /// stop.
    pub target_nesting_level: usize,
    /// Whether the last stop reported that all scheduled passes were
    /// submitted.
    pub is_all_pass_submitted: bool,
}

impl RangeProfiler {
    /// A fresh, not-yet-enabled session for the given context.
    pub fn new(ctx_id: u32) -> (r: RangeProfiler)
        ensures
            r.ctx_id == ctx_id,
            r.config_image@ =~= Seq::<u8>::empty(),
            r.pass_index == 0,
            r.target_nesting_level == 0,
            !r.is_all_pass_submitted,
    {
        RangeProfiler {
            ctx_id,
            config_image: Vec::new(),
            pass_index: 0,
            target_nesting_level: 0,
            is_all_pass_submitted: false,
        }
    }
}

/// Host-visible state of the host-side profiler object that evaluates metric
/// formulas: the chip it was set up for and the counter-availability image it
/// was given. Until `setup` succeeds in the engine, `initialized` is false.
pub struct ProfilerHost {
    /// Name of the chip the host object was set up for; empty until setup.
    pub chip_name: String,
    /// Counter-availability image handed to the engine at setup; empty until
    /// setup.
    pub counter_availability_image: Vec<u8>,
    /// Whether the engine-side host object exists.
    pub initialized: bool,
}

impl ProfilerHost {
    /// A fresh host object, not yet set up with the engine.
    pub fn new() -> (r: ProfilerHost)
        ensures
            r.chip_name@ =~= Seq::<char>::empty(),
            r.counter_availability_image@ =~= Seq::<u8>::empty(),
            !r.initialized,
    {
        ProfilerHost {
            chip_name: String::new(),
            counter_availability_image: Vec::new(),
            initialized: false,
        }
    }
}

/// Host-side evaluator that applies metric formulas to a decoded counter-data
/// image, one range at a time. It owns a host object; the evaluation results
/// themselves arrive from the engine as plain values.
pub struct MetricEvaluator {
    /// The host object the evaluator works through.
    pub host: ProfilerHost,
}

impl MetricEvaluator {
    /// An evaluator around a fresh host object.
    pub fn new() -> (r: MetricEvaluator)
        ensures
            !r.host.initialized,
    {
        MetricEvaluator { host: ProfilerHost::new() }
    }
}

} // verus!
