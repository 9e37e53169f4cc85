//! The context-session registry: per-context profiling state, the single
//! active-context marker, and the registry's well-formedness invariant.
//!
//! Each logical GPU context is, at any time, unregistered, registered and
//! inactive, or registered and active; across the whole registry at most one
//! context is active, and a context is active exactly when it holds a
//! range-profiling session.

use vstd::prelude::*;
use crate::config::Config;
use crate::records::{KernelActivity, KernelLaunch, RangeInfo};
use crate::session::{MetricEvaluator, RangeProfiler};

verus! {

/// Maximum number of ranges one counter-data image is sized for.
pub const MAX_NUM_RANGES: usize = 10;

/// Profiling data associated with one GPU context: device identity, the
/// session state, and the accumulated record lists that are correlated
/// positionally at drain time.
pub struct CtxProfilerData {
    /// Device the context lives on.
    pub device_id: u32,
    /// Number of streaming multiprocessors of that device.
    pub num_sms: u32,
    /// Range capacity the counter-data image is sized for.
    pub max_num_ranges: usize,
    /// Whether this context holds the enabled hardware session.
    pub is_active: bool,
    /// Opaque counter-data image bytes, exchanged with the engine.
    pub counter_data_image: Vec<u8>,
    /// Host-side evaluator bound to the context.
    pub metric_evaluator: Option<MetricEvaluator>,
    /// The range-profiling session, present exactly while active.
    pub range_profiler: Option<RangeProfiler>,
    /// Completed ranges, in pass order.
    pub range_info: Vec<RangeInfo>,
    /// Kernel launches, in callback order.
    pub kernel_launches: Vec<KernelLaunch>,
    /// Kernel activities, in delivery order.
    pub kernel_activities: Vec<KernelActivity>,
}

/// One registry entry: a context identifier and its profiling data.
pub struct CtxEntry {
    /// Identifier of the context.
    pub ctx_id: u32,
    /// The context's profiling data.
    pub data: CtxProfilerData,
}

/// The whole agent state: the registry of context sessions, the at-most-one
/// active-context marker, the one-shot initialization flag, and the
/// configuration.
pub struct GlobalState {
    /// Registered contexts, in registration order, with unique identifiers.
    pub context_data: Vec<CtxEntry>,
    /// The context currently holding the hardware session, if any.
    pub active_ctx: Option<u32>,
    /// Whether the process entry point has already run.
    pub injection_initialized: bool,
    /// The agent configuration.
    pub config: Config,
}

impl GlobalState {
    /// Number of registered contexts.
    pub open spec fn n(self) -> int {
        self.context_data@.len() as int
    }

    /// Context identifier of the entry at `i`.
    pub open spec fn key_at(self, i: int) -> u32 {
        self.context_data@[i].ctx_id
    }

    /// Profiling data of the entry at `i`.
    pub open spec fn data_at(self, i: int) -> CtxProfilerData {
        self.context_data@[i].data
    }

    /// No two entries share a context identifier.
    pub open spec fn keys_unique(self) -> bool {
        forall|i: int, j: int|
            0 <= i < j < self.n() ==> self.key_at(i) != self.key_at(j)
    }

    /// Whether `ctx` is registered.
    pub open spec fn has_ctx(self, ctx: u32) -> bool {
        exists|i: int| 0 <= i < self.n() && self.key_at(i) == ctx
    }

    /// Index of `ctx`'s entry; meaningful only when `ctx` is registered and
    /// keys are unique.
    pub open spec fn ctx_index(self, ctx: u32) -> int {
        choose|i: int| 0 <= i < self.n() && self.key_at(i) == ctx
    }

    /// The active marker and the per-entry flags tell one story: an entry is
    /// active exactly when the marker names it, and a session exists exactly
    /// while active.
    pub open spec fn flags_consistent(self) -> bool {
        forall|i: int|
            0 <= i < self.n() ==> {
                &&& (#[trigger] self.data_at(i)).is_active <==> self.active_ctx == Some(
                    self.key_at(i),
                )
                &&& self.data_at(i).is_active <==> self.data_at(i).range_profiler is Some
            }
    }

    /// Registry well-formedness: unique keys, a registered active context,
    /// and consistent session flags.
    pub open spec fn wf(self) -> bool {
        &&& self.keys_unique()
        &&& (self.active_ctx is Some ==> self.has_ctx(self.active_ctx->0))
        &&& self.flags_consistent()
    }

    /// A fresh state: no contexts, nothing active, not initialized, with the
    /// given configuration.
    pub fn new(config: Config) -> (r: GlobalState)
        ensures
            r.wf(),
            r.n() == 0,
            r.active_ctx is None,
            !r.injection_initialized,
            r.config == config,
    {
        GlobalState { context_data: Vec::new(), active_ctx: None, injection_initialized: false, config }
    }

    /// Finds the entry index of `ctx`.
    pub fn find_ctx(&self, ctx: u32) -> (r: Option<usize>)
        requires
            self.keys_unique(),
        ensures
            r is Some <==> self.has_ctx(ctx),
            r is Some ==> r->0 == self.ctx_index(ctx) && 0 <= r->0 < self.n() && self.key_at(
                r->0 as int,
            ) == ctx,
    {
        let mut i: usize = 0;
        while i < self.context_data.len()
            invariant
                self.keys_unique(),
                i <= self.n(),
                forall|k: int| 0 <= k < i ==> self.key_at(k) != ctx,
            decreases self.n() - i,
        {
            if self.context_data[i].ctx_id == ctx {
                proof {
                    assert(self.key_at(i as int) == ctx);
                    assert(self.has_ctx(ctx));
                    let w = self.ctx_index(ctx);
                    assert(0 <= w < self.n() && self.key_at(w) == ctx);
                    if (i as int) < w {
                        assert(self.key_at(i as int) != self.key_at(w));
                    }
                    if w < i as int {
                        assert(self.key_at(w) != self.key_at(i as int));
                    }
                }
                return Some(i);
            }
            i = i + 1;
        }
        None
    }

    /// Marks the state initialized; reports whether this call was the first.
    /// The process entry point registers its callbacks only when this returns
    /// true, so a second call registers nothing.
    pub fn begin_initialization(&mut self) -> (first: bool)
        ensures
            first == !old(self).injection_initialized,
            final(self).injection_initialized,
            final(self).context_data == old(self).context_data,
            final(self).active_ctx == old(self).active_ctx,
            final(self).config == old(self).config,
    {
        let first = !self.injection_initialized;
        self.injection_initialized = true;
        first
    }
}

/// With unique keys, an entry holding `ctx` is the entry `ctx_index` names.
pub proof fn lemma_index_unique(s: GlobalState, ctx: u32, i: int)
    requires
        s.keys_unique(),
        0 <= i < s.n(),
        s.key_at(i) == ctx,
    ensures
        s.has_ctx(ctx),
        s.ctx_index(ctx) == i,
{
    assert(s.has_ctx(ctx));
    let w = s.ctx_index(ctx);
    assert(0 <= w < s.n() && s.key_at(w) == ctx);
    if i < w {
        assert(s.key_at(i) != s.key_at(w));
    }
    if w < i {
        assert(s.key_at(w) != s.key_at(i));
    }
}

/// The registered/active state is mutually exclusive: in a well-formed
/// registry, any two active entries are the same entry. Together with every
/// handler preserving well-formedness, at most one context is active after
/// any sequence of callbacks.
pub proof fn lemma_at_most_one_active(s: GlobalState, i: int, j: int)
    requires
        s.wf(),
        0 <= i < s.n(),
        0 <= j < s.n(),
        s.data_at(i).is_active,
        s.data_at(j).is_active,
    ensures
        i == j,
{
    assert(s.active_ctx == Some(s.key_at(i)));
    assert(s.active_ctx == Some(s.key_at(j)));
    if i != j {
        assert(s.key_at(i) != s.key_at(j));
    }
}

} // verus!
