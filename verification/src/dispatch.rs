//! The callback dispatcher: one state-transition handler per runtime event.
//!
//! Each handler mutates the registry and returns the ordered engine commands
//! the embedder must perform; outcomes that later decisions depend on come
//! back as further events ([`GlobalState::on_session_enabled`],
//! [`GlobalState::on_ranges_evaluated`]). A context switch always quiesces
//! the outgoing session — stop, decode, evaluate, disable — before the
//! incoming session's start is issued; [`lemma_launch_switch_order`] and
//! [`lemma_created_switch_order`] state that law over the command sequences.

use vstd::prelude::*;
use crate::records::{clone_activity, KernelActivity, KernelLaunch, RangeInfo};
use crate::registry::{CtxEntry, CtxProfilerData, GlobalState, MAX_NUM_RANGES};
use crate::session::{MetricEvaluator, RangeProfiler};

verus! {

/// Size in bytes of the scratch buffer handed out for each activity-buffer
/// request: a fixed sixteen kibibytes.
pub const ACTIVITY_BUFFER_SIZE: usize = 16384;

/// One command to perform against the hardware engine, bound to a context.
#[derive(Clone, Copy, Debug, PartialEq, Eq, Structural)]
pub enum EngineCmd {
    /// End sampling of the context's session.
    Stop { ctx: u32 },
    /// Move the engine's counters into the context's counter-data image.
    Decode { ctx: u32 },
    /// Apply the metric formulas to every completed range and report the
    /// results back through a ranges-evaluated event.
    EvaluateAllRanges { ctx: u32 },
    /// Release the context's exclusive hardware bind.
    Disable { ctx: u32 },
    /// Bind the hardware exclusively to the context.
    Enable { ctx: u32 },
    /// Build the config image from the configured metric names and size the
    /// counter-data image for `max_num_ranges` ranges.
    Configure { ctx: u32, max_num_ranges: usize },
    /// Begin sampling.
    Start { ctx: u32 },
    /// Reinitialize the counter-data image for the next pass.
    InitializeCounterImage { ctx: u32 },
    /// The engine is unrecoverable: end the process.
    Terminate,
}

/// The full quiesce of an outgoing session: stop, then decode, then evaluate,
/// then disable.
pub open spec fn stop_seq(ctx: u32) -> Seq<EngineCmd> {
    seq![
        EngineCmd::Stop { ctx },
        EngineCmd::Decode { ctx },
        EngineCmd::EvaluateAllRanges { ctx },
        EngineCmd::Disable { ctx },
    ]
}

/// Construction of a session: enable, then configure, then start.
pub open spec fn start_seq(ctx: u32, max_num_ranges: usize) -> Seq<EngineCmd> {
    seq![
        EngineCmd::Enable { ctx },
        EngineCmd::Configure { ctx, max_num_ranges },
        EngineCmd::Start { ctx },
    ]
}

/// Harvest of the already-submitted pass of a running session: decode, then
/// evaluate, then reinitialize the counter-data image for the next pass.
pub open spec fn resume_seq(ctx: u32) -> Seq<EngineCmd> {
    seq![
        EngineCmd::Decode { ctx },
        EngineCmd::EvaluateAllRanges { ctx },
        EngineCmd::InitializeCounterImage { ctx },
    ]
}

/// The device identity, image and evaluator of a context are untouched.
pub open spec fn same_device(d: CtxProfilerData, d2: CtxProfilerData) -> bool {
    &&& d2.device_id == d.device_id
    &&& d2.num_sms == d.num_sms
    &&& d2.max_num_ranges == d.max_num_ranges
    &&& d2.counter_data_image == d.counter_data_image
    &&& d2.metric_evaluator == d.metric_evaluator
}

/// The accumulated record lists of a context are untouched.
pub open spec fn same_records(d: CtxProfilerData, d2: CtxProfilerData) -> bool {
    &&& d2.range_info == d.range_info
    &&& d2.kernel_launches == d.kernel_launches
    &&& d2.kernel_activities == d.kernel_activities
}

/// A quiesced context: session gone, inactive, everything else untouched.
pub open spec fn deactivated(d: CtxProfilerData, d2: CtxProfilerData) -> bool {
    &&& same_device(d, d2)
    &&& same_records(d, d2)
    &&& !d2.is_active
    &&& d2.range_profiler is None
}

/// A session as freshly constructed for `ctx`.
pub open spec fn fresh_session(rp: RangeProfiler, ctx: u32) -> bool {
    &&& rp.ctx_id == ctx
    &&& rp.config_image@ == Seq::<u8>::empty()
    &&& rp.pass_index == 0
    &&& rp.target_nesting_level == 0
    &&& !rp.is_all_pass_submitted
}

/// The launch handler's effect on the target context: a launch record is
/// appended, the context is active, and it keeps its session (when it already
/// had one: `resumed`) or holds a fresh one.
pub open spec fn launch_updated(
    d: CtxProfilerData,
    d2: CtxProfilerData,
    ctx: u32,
    function: u64,
    now: u64,
    resumed: bool,
) -> bool {
    &&& same_device(d, d2)
    &&& d2.range_info == d.range_info
    &&& d2.kernel_activities == d.kernel_activities
    &&& d2.kernel_launches@ == d.kernel_launches@.push(
        KernelLaunch { function, timestamp: now },
    )
    &&& d2.is_active
    &&& if resumed {
        d2.range_profiler == d.range_profiler
    } else {
        d2.range_profiler is Some && fresh_session(d2.range_profiler->0, ctx)
    }
}

/// Entry count, keys, initialization flag and configuration are untouched.
pub open spec fn same_shape(pre: GlobalState, post: GlobalState) -> bool {
    &&& post.n() == pre.n()
    &&& (forall|i: int| 0 <= i < pre.n() ==> post.key_at(i) == pre.key_at(i))
    &&& post.injection_initialized == pre.injection_initialized
    &&& post.config == pre.config
}

/// Every entry but `t` is untouched.
pub open spec fn unchanged_except(pre: GlobalState, post: GlobalState, t: int) -> bool {
    forall|k: int| 0 <= k < pre.n() && k != t ==> post.data_at(k) == pre.data_at(k)
}

/// Every entry but `t` and `j` is untouched.
pub open spec fn unchanged_except2(pre: GlobalState, post: GlobalState, t: int, j: int) -> bool {
    forall|k: int|
        0 <= k < pre.n() && k != t && k != j ==> post.data_at(k) == pre.data_at(k)
}

/// Whether a launch on `ctx` must first quiesce another context's session.
pub open spec fn switching(pre: GlobalState, ctx: u32) -> bool {
    pre.active_ctx is Some && pre.active_ctx != Some(ctx)
}

/// The engine commands a kernel launch on `ctx` issues: nothing for an
/// unregistered context; else the quiesce of a different active context,
/// followed by construction of a session (when `ctx` has none) or the harvest
/// of the running session's submitted pass.
pub open spec fn launch_cmds(pre: GlobalState, ctx: u32) -> Seq<EngineCmd> {
    if !pre.has_ctx(ctx) {
        Seq::empty()
    } else {
        let quiesce = if switching(pre, ctx) {
            stop_seq(pre.active_ctx->0)
        } else {
            Seq::empty()
        };
        let own = if pre.active_ctx == Some(ctx) {
            resume_seq(ctx)
        } else {
            start_seq(ctx, pre.data_at(pre.ctx_index(ctx)).max_num_ranges)
        };
        quiesce + own
    }
}

/// The launch handler's whole state transition.
pub open spec fn launch_post(
    pre: GlobalState,
    post: GlobalState,
    ctx: u32,
    function: u64,
    now: u64,
) -> bool {
    if !pre.has_ctx(ctx) {
        post == pre
    } else {
        let t = pre.ctx_index(ctx);
        &&& same_shape(pre, post)
        &&& post.active_ctx == Some(ctx)
        &&& launch_updated(
            pre.data_at(t),
            post.data_at(t),
            ctx,
            function,
            now,
            pre.active_ctx == Some(ctx),
        )
        &&& if switching(pre, ctx) {
            let j = pre.ctx_index(pre.active_ctx->0);
            deactivated(pre.data_at(j), post.data_at(j)) && unchanged_except2(pre, post, t, j)
        } else {
            unchanged_except(pre, post, t)
        }
    }
}

/// A context session as freshly registered: inactive, without a session,
/// with a new evaluator, empty image and empty record lists.
pub open spec fn fresh_entry(d: CtxProfilerData, device_id: u32, num_sms: u32) -> bool {
    &&& d.device_id == device_id
    &&& d.num_sms == num_sms
    &&& d.max_num_ranges == MAX_NUM_RANGES
    &&& !d.is_active
    &&& d.range_profiler is None
    &&& d.metric_evaluator is Some
    &&& !d.metric_evaluator->0.host.initialized
    &&& d.counter_data_image@ == Seq::<u8>::empty()
    &&& d.range_info@.len() == 0
    &&& d.kernel_launches@.len() == 0
    &&& d.kernel_activities@.len() == 0
}

/// The engine commands a context-created callback issues: the quiesce of
/// whatever context holds the session, then the attempt to construct the new
/// context's session. Whether the attempt succeeded arrives later as a
/// session-enabled event.
pub open spec fn created_cmds(pre: GlobalState, ctx: u32) -> Seq<EngineCmd> {
    let quiesce = if pre.active_ctx is Some {
        stop_seq(pre.active_ctx->0)
    } else {
        Seq::empty()
    };
    quiesce + start_seq(ctx, MAX_NUM_RANGES)
}

/// The context-created handler's whole state transition: the active session
/// (if any) is quiesced, and `ctx` is registered with a fresh entry —
/// replacing any entry it already had — but not yet marked active.
pub open spec fn created_post(
    pre: GlobalState,
    post: GlobalState,
    ctx: u32,
    device_id: u32,
    num_sms: u32,
) -> bool {
    let t = if pre.has_ctx(ctx) {
        pre.ctx_index(ctx)
    } else {
        pre.n()
    };
    &&& post.active_ctx is None
    &&& post.injection_initialized == pre.injection_initialized
    &&& post.config == pre.config
    &&& post.n() == (if pre.has_ctx(ctx) {
        pre.n()
    } else {
        pre.n() + 1
    })
    &&& (forall|i: int| 0 <= i < pre.n() ==> post.key_at(i) == pre.key_at(i))
    &&& post.key_at(t) == ctx
    &&& fresh_entry(post.data_at(t), device_id, num_sms)
    &&& if pre.active_ctx is Some && pre.ctx_index(pre.active_ctx->0) != t {
        let j = pre.ctx_index(pre.active_ctx->0);
        deactivated(pre.data_at(j), post.data_at(j)) && unchanged_except2(pre, post, t, j)
    } else {
        unchanged_except(pre, post, t)
    }
}

/// The engine commands a context-destroying callback issues: the quiesce of
/// the context's session if it is active, nothing otherwise.
pub open spec fn destroy_cmds(pre: GlobalState, ctx: u32) -> Seq<EngineCmd> {
    if pre.has_ctx(ctx) && pre.data_at(pre.ctx_index(ctx)).is_active {
        stop_seq(ctx)
    } else {
        Seq::empty()
    }
}

/// The context-destroying handler's whole state transition: an active
/// context is quiesced and marked inactive; its entry and accumulated data
/// are retained.
pub open spec fn destroy_post(pre: GlobalState, post: GlobalState, ctx: u32) -> bool {
    if pre.has_ctx(ctx) && pre.data_at(pre.ctx_index(ctx)).is_active {
        let t = pre.ctx_index(ctx);
        &&& same_shape(pre, post)
        &&& post.active_ctx is None
        &&& deactivated(pre.data_at(t), post.data_at(t))
        &&& unchanged_except(pre, post, t)
    } else {
        post == pre
    }
}

/// A context just marked active, holding a fresh session; everything else
/// untouched.
pub open spec fn activated(d: CtxProfilerData, d2: CtxProfilerData, ctx: u32) -> bool {
    &&& same_device(d, d2)
    &&& same_records(d, d2)
    &&& d2.is_active
    &&& d2.range_profiler is Some
    &&& fresh_session(d2.range_profiler->0, ctx)
}

/// The session-enabled handler's state transition: a successful enable of a
/// registered context, while nothing is active, marks that context active;
/// any other outcome changes nothing.
pub open spec fn enabled_post(pre: GlobalState, post: GlobalState, ctx: u32, ok: bool) -> bool {
    if ok && pre.active_ctx is None && pre.has_ctx(ctx) {
        let t = pre.ctx_index(ctx);
        &&& same_shape(pre, post)
        &&& post.active_ctx == Some(ctx)
        &&& activated(pre.data_at(t), post.data_at(t), ctx)
        &&& unchanged_except(pre, post, t)
    } else {
        post == pre
    }
}

/// Only the completed-range list of a context may differ.
pub open spec fn same_except_ranges(d: CtxProfilerData, d2: CtxProfilerData) -> bool {
    &&& same_device(d, d2)
    &&& d2.is_active == d.is_active
    &&& d2.range_profiler == d.range_profiler
    &&& d2.kernel_launches == d.kernel_launches
    &&& d2.kernel_activities == d.kernel_activities
}

/// The ranges-evaluated handler's state transition: the evaluated ranges are
/// appended to the context's list, in order; an unregistered context drops
/// them.
pub open spec fn ranges_post(
    pre: GlobalState,
    post: GlobalState,
    ctx: u32,
    ranges: Seq<RangeInfo>,
) -> bool {
    if pre.has_ctx(ctx) {
        let t = pre.ctx_index(ctx);
        &&& same_shape(pre, post)
        &&& post.active_ctx == pre.active_ctx
        &&& same_except_ranges(pre.data_at(t), post.data_at(t))
        &&& post.data_at(t).range_info@ == pre.data_at(t).range_info@ + ranges
        &&& unchanged_except(pre, post, t)
    } else {
        post == pre
    }
}

/// Only the kernel-activity list of a context may differ.
pub open spec fn same_except_activities(d: CtxProfilerData, d2: CtxProfilerData) -> bool {
    &&& same_device(d, d2)
    &&& d2.is_active == d.is_active
    &&& d2.range_profiler == d.range_profiler
    &&& d2.range_info == d.range_info
    &&& d2.kernel_launches == d.kernel_launches
}

/// The activity-record handler's state transition: the record is appended to
/// the owning context's list; an unregistered context drops it.
pub open spec fn activity_post(
    pre: GlobalState,
    post: GlobalState,
    ctx: u32,
    activity: KernelActivity,
) -> bool {
    if pre.has_ctx(ctx) {
        let t = pre.ctx_index(ctx);
        &&& same_shape(pre, post)
        &&& post.active_ctx == pre.active_ctx
        &&& same_except_activities(pre.data_at(t), post.data_at(t))
        &&& post.data_at(t).kernel_activities@ == pre.data_at(t).kernel_activities@.push(activity)
        &&& unchanged_except(pre, post, t)
    } else {
        post == pre
    }
}

/// One kernel-execution record extracted from a completed activity buffer:
/// the context it belongs to and the captured geometry.
pub struct ActivityRecord {
    /// Identifier of the owning context, as embedded in the record.
    pub ctx_id: u32,
    /// The captured launch geometry.
    pub activity: KernelActivity,
}

/// The activities among `rs` that belong to context `ctx`, in delivery order.
pub open spec fn activities_for(rs: Seq<ActivityRecord>, ctx: u32) -> Seq<KernelActivity>
    decreases rs.len(),
{
    if rs.len() == 0 {
        Seq::empty()
    } else {
        activities_for(rs.drop_last(), ctx) + (if rs.last().ctx_id == ctx {
            seq![rs.last().activity]
        } else {
            Seq::empty()
        })
    }
}

/// The buffer-completed handler's state transition: each record lands at the
/// end of its owning context's activity list; records of unregistered
/// contexts are dropped; nothing else changes.
pub open spec fn buffer_post(pre: GlobalState, post: GlobalState, rs: Seq<ActivityRecord>) -> bool {
    &&& same_shape(pre, post)
    &&& post.active_ctx == pre.active_ctx
    &&& forall|i: int|
        0 <= i < pre.n() ==> same_except_activities(pre.data_at(i), #[trigger] post.data_at(i))
            && post.data_at(i).kernel_activities@ == pre.data_at(i).kernel_activities@
            + activities_for(rs, pre.key_at(i))
}

/// The engine commands the end-of-process drain issues: the active session,
/// if any, is stopped, decoded and evaluated so its pending counters flush;
/// no disable follows, the process is exiting.
pub open spec fn drain_cmds_spec(pre: GlobalState) -> Seq<EngineCmd> {
    if pre.active_ctx is Some {
        let a = pre.active_ctx->0;
        seq![EngineCmd::Stop { ctx: a }, EngineCmd::Decode { ctx: a }, EngineCmd::EvaluateAllRanges { ctx: a }]
    } else {
        Seq::empty()
    }
}

impl GlobalState {
    /// Handles a kernel-launch-enter callback on `ctx` at time `now`.
    ///
    /// A launch on an unregistered context is a complete no-op. Otherwise, a
    /// different context holding the session is fully quiesced first; then
    /// the target context's session is constructed (and the context becomes
    /// active), or, if it was already running, its submitted pass is
    /// harvested before the next one; finally the launch is recorded.
    pub fn on_kernel_launch_enter(&mut self, ctx: u32, function: u64, now: u64) -> (cmds: Vec<
        EngineCmd,
    >)
        requires
            old(self).wf(),
        ensures
            final(self).wf(),
            launch_post(*old(self), *final(self), ctx, function, now),
            cmds@ == launch_cmds(*old(self), ctx),
    {
        let ghost pre = *self;
        let target = self.find_ctx(ctx);
        let t: usize = match target {
            None => {
                return Vec::new();
            },
            Some(t) => t,
        };
        let mut cmds: Vec<EngineCmd> = Vec::new();
        let was_active = self.active_ctx;
        match was_active {
            Some(a) if a != ctx => {
                cmds.push(EngineCmd::Stop { ctx: a });
                cmds.push(EngineCmd::Decode { ctx: a });
                cmds.push(EngineCmd::EvaluateAllRanges { ctx: a });
                cmds.push(EngineCmd::Disable { ctx: a });
                if let Some(j) = self.find_ctx(a) {
                    self.context_data[j].data.is_active = false;
                    self.context_data[j].data.range_profiler = None;
                }
                self.active_ctx = None;
            },
            _ => {},
        }
        self.active_ctx = Some(ctx);
        if self.context_data[t].data.range_profiler.is_none() {
            let max_num_ranges = self.context_data[t].data.max_num_ranges;
            cmds.push(EngineCmd::Enable { ctx });
            cmds.push(EngineCmd::Configure { ctx, max_num_ranges });
            cmds.push(EngineCmd::Start { ctx });
            self.context_data[t].data.range_profiler = Some(RangeProfiler::new(ctx));
            self.context_data[t].data.is_active = true;
        } else {
            cmds.push(EngineCmd::Decode { ctx });
            cmds.push(EngineCmd::EvaluateAllRanges { ctx });
            cmds.push(EngineCmd::InitializeCounterImage { ctx });
        }
        self.context_data[t].data.kernel_launches.push(
            KernelLaunch { function, timestamp: now },
        );
        proof {
            assert(cmds@ =~= launch_cmds(pre, ctx));
            let t_ = t as int;
            crate::registry::lemma_index_unique(pre, ctx, t_);
            assert(self.n() == pre.n());
            assert(forall|i: int| 0 <= i < self.n() ==> self.key_at(i) == pre.key_at(i));
            assert(self.active_ctx == Some(ctx));
            assert(self.data_at(t_).is_active);
            assert(self.data_at(t_).range_profiler is Some);
            assert forall|i: int, j: int| 0 <= i < j < self.n() implies self.key_at(i)
                != self.key_at(j) by {
                assert(self.key_at(i) == pre.key_at(i));
                assert(self.key_at(j) == pre.key_at(j));
            }
            assert(self.key_at(t_) == ctx);
            assert(self.has_ctx(ctx));
            assert forall|i: int| 0 <= i < self.n() implies {
                &&& ((#[trigger] self.data_at(i)).is_active <==> self.active_ctx == Some(
                    self.key_at(i),
                ))
                &&& (self.data_at(i).is_active <==> self.data_at(i).range_profiler is Some)
            } by {
                if i != t_ {
                    if self.key_at(i) == ctx {
                        crate::registry::lemma_index_unique(pre, ctx, i);
                    }
                    assert(self.key_at(i) != ctx);
                    if switching(pre, ctx) {
                        let a = pre.active_ctx->0;
                        if pre.key_at(i) == a {
                            crate::registry::lemma_index_unique(pre, a, i);
                            assert(!self.data_at(i).is_active);
                            assert(self.data_at(i).range_profiler is None);
                        } else {
                            assert(self.data_at(i) == pre.data_at(i));
                            assert(!pre.data_at(i).is_active);
                        }
                    } else {
                        assert(self.data_at(i) == pre.data_at(i));
                        assert(!pre.data_at(i).is_active);
                    }
                }
            }
        }
        cmds
    }

    /// Handles a context-created callback for `ctx` on the given device.
    ///
    /// Whatever context holds the session is fully quiesced first. The new
    /// context is registered — inactive, with a fresh evaluator — whether or
    /// not the engine will accept the session: the returned commands attempt
    /// to enable, configure and start one, and the embedder reports the
    /// outcome through [`GlobalState::on_session_enabled`]. A failed attempt
    /// leaves the context registered-but-inactive, with no automatic retry.
    pub fn on_context_created(&mut self, ctx: u32, device_id: u32, num_sms: u32) -> (cmds: Vec<
        EngineCmd,
    >)
        requires
            old(self).wf(),
        ensures
            final(self).wf(),
            created_post(*old(self), *final(self), ctx, device_id, num_sms),
            cmds@ == created_cmds(*old(self), ctx),
    {
        let ghost pre = *self;
        let mut cmds: Vec<EngineCmd> = Vec::new();
        let was_active = self.active_ctx;
        if let Some(a) = was_active {
            cmds.push(EngineCmd::Stop { ctx: a });
            cmds.push(EngineCmd::Decode { ctx: a });
            cmds.push(EngineCmd::EvaluateAllRanges { ctx: a });
            cmds.push(EngineCmd::Disable { ctx: a });
            if let Some(j) = self.find_ctx(a) {
                self.context_data[j].data.is_active = false;
                self.context_data[j].data.range_profiler = None;
            }
            self.active_ctx = None;
        }
        let data = CtxProfilerData {
            device_id,
            num_sms,
            max_num_ranges: MAX_NUM_RANGES,
            is_active: false,
            counter_data_image: Vec::new(),
            metric_evaluator: Some(MetricEvaluator::new()),
            range_profiler: None,
            range_info: Vec::new(),
            kernel_launches: Vec::new(),
            kernel_activities: Vec::new(),
        };
        proof {
            assert(forall|i: int| 0 <= i < self.n() ==> self.key_at(i) == pre.key_at(i));
            assert forall|i: int, j: int| 0 <= i < j < self.n() implies self.key_at(i)
                != self.key_at(j) by {
                assert(self.key_at(i) == pre.key_at(i));
                assert(self.key_at(j) == pre.key_at(j));
            }
        }
        let ghost t_: int;
        match self.find_ctx(ctx) {
            Some(t) => {
                proof {
                    crate::registry::lemma_index_unique(pre, ctx, t as int);
                    t_ = t as int;
                }
                self.context_data[t].data = data;
            },
            None => {
                proof {
                    t_ = pre.n();
                }
                self.context_data.push(CtxEntry { ctx_id: ctx, data });
            },
        }
        cmds.push(EngineCmd::Enable { ctx });
        cmds.push(EngineCmd::Configure { ctx, max_num_ranges: MAX_NUM_RANGES });
        cmds.push(EngineCmd::Start { ctx });
        proof {
            assert(cmds@ =~= created_cmds(pre, ctx));
            assert forall|i: int, j: int| 0 <= i < j < self.n() implies self.key_at(i)
                != self.key_at(j) by {
                if j < self.n() - 1 || pre.has_ctx(ctx) {
                    assert(self.key_at(i) == pre.key_at(i));
                    assert(self.key_at(j) == pre.key_at(j));
                } else {
                    assert(self.key_at(i) == pre.key_at(i));
                    assert(self.key_at(j) == ctx);
                    if pre.key_at(i) == ctx {
                        crate::registry::lemma_index_unique(pre, ctx, i);
                    }
                }
            }
            assert(self.key_at(t_) == ctx);
            assert forall|i: int| 0 <= i < self.n() implies {
                &&& ((#[trigger] self.data_at(i)).is_active <==> self.active_ctx == Some(
                    self.key_at(i),
                ))
                &&& (self.data_at(i).is_active <==> self.data_at(i).range_profiler is Some)
            } by {
                if i != t_ {
                    if pre.active_ctx is Some {
                        let a = pre.active_ctx->0;
                        if pre.key_at(i) == a {
                            crate::registry::lemma_index_unique(pre, a, i);
                            assert(!self.data_at(i).is_active);
                            assert(self.data_at(i).range_profiler is None);
                        } else {
                            assert(self.data_at(i) == pre.data_at(i));
                            assert(!pre.data_at(i).is_active);
                        }
                    } else {
                        assert(self.data_at(i) == pre.data_at(i));
                        assert(!pre.data_at(i).is_active);
                    }
                }
            }
        }
        cmds
    }

    /// Handles a context-destroying callback for `ctx`.
    ///
    /// An active context is fully quiesced and marked inactive. The registry
    /// entry and its accumulated data are retained, not evicted.
    pub fn on_context_destroying(&mut self, ctx: u32) -> (cmds: Vec<EngineCmd>)
        requires
            old(self).wf(),
        ensures
            final(self).wf(),
            destroy_post(*old(self), *final(self), ctx),
            cmds@ == destroy_cmds(*old(self), ctx),
    {
        let ghost pre = *self;
        let mut cmds: Vec<EngineCmd> = Vec::new();
        if let Some(t) = self.find_ctx(ctx) {
            if self.context_data[t].data.is_active {
                cmds.push(EngineCmd::Stop { ctx });
                cmds.push(EngineCmd::Decode { ctx });
                cmds.push(EngineCmd::EvaluateAllRanges { ctx });
                cmds.push(EngineCmd::Disable { ctx });
                self.context_data[t].data.is_active = false;
                self.context_data[t].data.range_profiler = None;
                self.active_ctx = None;
                proof {
                    assert(cmds@ =~= destroy_cmds(pre, ctx));
                    assert forall|i: int, j: int| 0 <= i < j < self.n() implies self.key_at(i)
                        != self.key_at(j) by {
                        assert(self.key_at(i) == pre.key_at(i));
                        assert(self.key_at(j) == pre.key_at(j));
                    }
                    assert forall|i: int| 0 <= i < self.n() implies {
                        &&& ((#[trigger] self.data_at(i)).is_active <==> self.active_ctx == Some(
                            self.key_at(i),
                        ))
                        &&& (self.data_at(i).is_active <==> self.data_at(
                            i,
                        ).range_profiler is Some)
                    } by {
                        if i != t as int {
                            assert(self.data_at(i) == pre.data_at(i));
                            assert(!pre.data_at(i).is_active) by {
                                if pre.data_at(i).is_active {
                                    crate::registry::lemma_at_most_one_active(pre, t as int, i);
                                }
                            }
                        }
                    }
                }
            }
        }
        cmds
    }

    /// Records the outcome of a session construction attempted by a
    /// context-created callback: on success, while nothing else is active,
    /// the context becomes active; on failure it stays registered-but-
    /// inactive.
    pub fn on_session_enabled(&mut self, ctx: u32, ok: bool)
        requires
            old(self).wf(),
        ensures
            final(self).wf(),
            enabled_post(*old(self), *final(self), ctx, ok),
    {
        let ghost pre = *self;
        if !ok {
            return;
        }
        if self.active_ctx.is_some() {
            return;
        }
        if let Some(t) = self.find_ctx(ctx) {
            self.context_data[t].data.range_profiler = Some(RangeProfiler::new(ctx));
            self.context_data[t].data.is_active = true;
            self.active_ctx = Some(ctx);
            proof {
                assert forall|i: int, j: int| 0 <= i < j < self.n() implies self.key_at(i)
                    != self.key_at(j) by {
                    assert(self.key_at(i) == pre.key_at(i));
                    assert(self.key_at(j) == pre.key_at(j));
                }
                assert(self.key_at(t as int) == ctx);
                assert forall|i: int| 0 <= i < self.n() implies {
                    &&& ((#[trigger] self.data_at(i)).is_active <==> self.active_ctx == Some(
                        self.key_at(i),
                    ))
                    &&& (self.data_at(i).is_active <==> self.data_at(i).range_profiler is Some)
                } by {
                    if i != t as int {
                        assert(self.data_at(i) == pre.data_at(i));
                        assert(!pre.data_at(i).is_active);
                        if pre.key_at(i) == ctx {
                            crate::registry::lemma_index_unique(pre, ctx, i);
                        }
                    }
                }
            }
        }
    }

    /// Records the ranges an evaluate-all-ranges command produced for `ctx`:
    /// they land, in order, at the end of the context's completed-range list.
    pub fn on_ranges_evaluated(&mut self, ctx: u32, ranges: Vec<RangeInfo>)
        requires
            old(self).wf(),
        ensures
            final(self).wf(),
            ranges_post(*old(self), *final(self), ctx, ranges@),
    {
        let ghost pre = *self;
        let mut rs = ranges;
        if let Some(t) = self.find_ctx(ctx) {
            self.context_data[t].data.range_info.append(&mut rs);
            proof {
                assert forall|i: int, j: int| 0 <= i < j < self.n() implies self.key_at(i)
                    != self.key_at(j) by {
                    assert(self.key_at(i) == pre.key_at(i));
                    assert(self.key_at(j) == pre.key_at(j));
                }
                assert forall|i: int| 0 <= i < self.n() implies {
                    &&& ((#[trigger] self.data_at(i)).is_active <==> self.active_ctx == Some(
                        self.key_at(i),
                    ))
                    &&& (self.data_at(i).is_active <==> self.data_at(i).range_profiler is Some)
                } by {
                    assert(self.data_at(i).is_active == pre.data_at(i).is_active);
                    assert(self.data_at(i).range_profiler == pre.data_at(i).range_profiler);
                    assert(self.key_at(i) == pre.key_at(i));
                }
                if pre.active_ctx is Some {
                    let a = pre.active_ctx->0;
                    let w = choose|w: int| 0 <= w < pre.n() && pre.key_at(w) == a;
                    assert(self.key_at(w) == a);
                    assert(self.has_ctx(a));
                }
            }
        }
    }

    /// Appends one asynchronously delivered kernel activity to the owning
    /// context's list; an unregistered owner drops the record.
    pub fn add_kernel_activity(&mut self, ctx: u32, activity: KernelActivity)
        requires
            old(self).wf(),
        ensures
            final(self).wf(),
            activity_post(*old(self), *final(self), ctx, activity),
    {
        let ghost pre = *self;
        if let Some(t) = self.find_ctx(ctx) {
            self.context_data[t].data.kernel_activities.push(activity);
            proof {
                assert forall|i: int, j: int| 0 <= i < j < self.n() implies self.key_at(i)
                    != self.key_at(j) by {
                    assert(self.key_at(i) == pre.key_at(i));
                    assert(self.key_at(j) == pre.key_at(j));
                }
                assert forall|i: int| 0 <= i < self.n() implies {
                    &&& ((#[trigger] self.data_at(i)).is_active <==> self.active_ctx == Some(
                        self.key_at(i),
                    ))
                    &&& (self.data_at(i).is_active <==> self.data_at(i).range_profiler is Some)
                } by {
                    assert(self.data_at(i).is_active == pre.data_at(i).is_active);
                    assert(self.data_at(i).range_profiler == pre.data_at(i).range_profiler);
                    assert(self.key_at(i) == pre.key_at(i));
                }
                if pre.active_ctx is Some {
                    let a = pre.active_ctx->0;
                    let w = choose|w: int| 0 <= w < pre.n() && pre.key_at(w) == a;
                    assert(self.key_at(w) == a);
                    assert(self.has_ctx(a));
                }
            }
        }
    }

    /// Handles a completed activity buffer: every kernel-execution record in
    /// it is appended to its owning context's activity list, in delivery
    /// order; records of unregistered contexts are dropped. A buffer with no
    /// valid records appends nothing.
    pub fn on_buffer_completed(&mut self, records: Vec<ActivityRecord>)
        requires
            old(self).wf(),
        ensures
            final(self).wf(),
            buffer_post(*old(self), *final(self), records@),
    {
        let ghost pre = *self;
        let mut k: usize = 0;
        proof {
            assert(records@.subrange(0, 0) =~= Seq::<ActivityRecord>::empty());
            assert forall|i: int| 0 <= i < pre.n() implies pre.data_at(i).kernel_activities@
                == pre.data_at(i).kernel_activities@ + activities_for(
                records@.subrange(0, 0),
                pre.key_at(i),
            ) by {
                assert(pre.data_at(i).kernel_activities@ + Seq::<KernelActivity>::empty()
                    =~= pre.data_at(i).kernel_activities@);
            }
        }
        while k < records.len()
            invariant
                k <= records@.len(),
                self.wf(),
                same_shape(pre, *self),
                self.active_ctx == pre.active_ctx,
                forall|i: int|
                    0 <= i < pre.n() ==> same_except_activities(
                        pre.data_at(i),
                        #[trigger] self.data_at(i),
                    ) && self.data_at(i).kernel_activities@ == pre.data_at(i).kernel_activities@
                        + activities_for(records@.subrange(0, k as int), pre.key_at(i)),
            decreases records@.len() - k,
        {
            let ctx = records[k].ctx_id;
            let act = clone_activity(&records[k].activity);
            let ghost mid = *self;
            self.add_kernel_activity(ctx, act);
            proof {
                let sub1 = records@.subrange(0, k + 1);
                let sub0 = records@.subrange(0, k as int);
                assert(sub1.drop_last() =~= sub0);
                assert(sub1.last() == records@[k as int]);
                assert forall|i: int| 0 <= i < pre.n() implies same_except_activities(
                    pre.data_at(i),
                    #[trigger] self.data_at(i),
                ) && self.data_at(i).kernel_activities@ == pre.data_at(i).kernel_activities@
                    + activities_for(sub1, pre.key_at(i)) by {
                    let c = pre.key_at(i);
                    assert(activities_for(sub1, c) == activities_for(sub0, c) + (if records@[
                        k as int
                    ].ctx_id == c {
                        seq![records@[k as int].activity]
                    } else {
                        Seq::<KernelActivity>::empty()
                    }));
                    assert(mid.key_at(i) == c);
                    if c == ctx {
                        crate::registry::lemma_index_unique(mid, ctx, i);
                        assert(mid.has_ctx(ctx));
                        assert(self.data_at(i).kernel_activities@ == mid.data_at(
                            i,
                        ).kernel_activities@.push(act));
                        assert(pre.data_at(i).kernel_activities@ + activities_for(sub1, c) =~= (
                        pre.data_at(i).kernel_activities@ + activities_for(sub0, c)).push(
                            records@[k as int].activity,
                        ));
                    } else {
                        if mid.has_ctx(ctx) {
                            let t = mid.ctx_index(ctx);
                            assert(mid.key_at(t) == ctx);
                            assert(i != t);
                            assert(self.data_at(i) == mid.data_at(i));
                        } else {
                            assert(self.data_at(i) == mid.data_at(i));
                        }
                        assert(pre.data_at(i).kernel_activities@ + activities_for(sub1, c)
                            =~= pre.data_at(i).kernel_activities@ + activities_for(sub0, c));
                    }
                }
            }
            k = k + 1;
        }
        proof {
            assert(records@.subrange(0, records@.len() as int) =~= records@);
        }
    }

    /// Returns the end-of-process drain commands: a final stop, decode and
    /// evaluate for the still-active session, flushing its pending counters.
    pub fn drain_cmds(&self) -> (cmds: Vec<EngineCmd>)
        requires
            self.wf(),
        ensures
            cmds@ == drain_cmds_spec(*self),
    {
        let mut cmds: Vec<EngineCmd> = Vec::new();
        if let Some(a) = self.active_ctx {
            cmds.push(EngineCmd::Stop { ctx: a });
            cmds.push(EngineCmd::Decode { ctx: a });
            cmds.push(EngineCmd::EvaluateAllRanges { ctx: a });
        }
        proof {
            assert(cmds@ =~= drain_cmds_spec(*self));
        }
        cmds
    }

    /// Dispatches one runtime event through the matching handler and returns
    /// the engine commands to perform. This is the closed event set of the
    /// agent: every state transition goes through here or through the
    /// handlers it names.
    pub fn dispatch(&mut self, e: ProfilerEvent) -> (cmds: Vec<EngineCmd>)
        requires
            old(self).wf(),
        ensures
            final(self).wf(),
            dispatch_post(*old(self), *final(self), e),
            cmds@ == dispatch_cmds(*old(self), e),
    {
        match e {
            ProfilerEvent::KernelLaunchEnter { ctx, function, now } => self.on_kernel_launch_enter(
                ctx,
                function,
                now,
            ),
            ProfilerEvent::ContextCreated { ctx, device_id, num_sms } => self.on_context_created(
                ctx,
                device_id,
                num_sms,
            ),
            ProfilerEvent::ContextDestroying { ctx } => self.on_context_destroying(ctx),
            ProfilerEvent::SessionEnabled { ctx, ok } => {
                self.on_session_enabled(ctx, ok);
                let r: Vec<EngineCmd> = Vec::new();
                r
            },
            ProfilerEvent::RangesEvaluated { ctx, ranges } => {
                self.on_ranges_evaluated(ctx, ranges);
                let r: Vec<EngineCmd> = Vec::new();
                r
            },
            ProfilerEvent::BufferCompleted { records } => {
                self.on_buffer_completed(records);
                let r: Vec<EngineCmd> = Vec::new();
                r
            },
            ProfilerEvent::FatalError { .. } => {
                let mut r: Vec<EngineCmd> = Vec::new();
                r.push(EngineCmd::Terminate);
                proof {
                    assert(r@ =~= seq![EngineCmd::Terminate]);
                }
                r
            },
        }
    }
}

/// One runtime event, as decoded at the callback boundary: the closed set of
/// happenings the agent reacts to.
pub enum ProfilerEvent {
    /// The application is about to launch a kernel on `ctx`.
    KernelLaunchEnter { ctx: u32, function: u64, now: u64 },
    /// A context came into existence on the given device.
    ContextCreated { ctx: u32, device_id: u32, num_sms: u32 },
    /// A context is about to be destroyed.
    ContextDestroying { ctx: u32 },
    /// Outcome of the session construction a context-created event commanded.
    SessionEnabled { ctx: u32, ok: bool },
    /// Ranges an evaluate-all-ranges command produced.
    RangesEvaluated { ctx: u32, ranges: Vec<RangeInfo> },
    /// Kernel-execution records of a completed activity buffer.
    BufferCompleted { records: Vec<ActivityRecord> },
    /// The engine reported an unrecoverable error; the message is surfaced
    /// by the embedder before the process ends.
    FatalError { message: String },
}

/// The commands each event issues.
pub open spec fn dispatch_cmds(pre: GlobalState, e: ProfilerEvent) -> Seq<EngineCmd> {
    match e {
        ProfilerEvent::KernelLaunchEnter { ctx, .. } => launch_cmds(pre, ctx),
        ProfilerEvent::ContextCreated { ctx, .. } => created_cmds(pre, ctx),
        ProfilerEvent::ContextDestroying { ctx } => destroy_cmds(pre, ctx),
        ProfilerEvent::SessionEnabled { .. } => Seq::empty(),
        ProfilerEvent::RangesEvaluated { .. } => Seq::empty(),
        ProfilerEvent::BufferCompleted { .. } => Seq::empty(),
        ProfilerEvent::FatalError { .. } => seq![EngineCmd::Terminate],
    }
}

/// The state transition each event makes. A fatal engine error changes no
/// state: the commands alone say the process must end.
pub open spec fn dispatch_post(pre: GlobalState, post: GlobalState, e: ProfilerEvent) -> bool {
    match e {
        ProfilerEvent::KernelLaunchEnter { ctx, function, now } => launch_post(
            pre,
            post,
            ctx,
            function,
            now,
        ),
        ProfilerEvent::ContextCreated { ctx, device_id, num_sms } => created_post(
            pre,
            post,
            ctx,
            device_id,
            num_sms,
        ),
        ProfilerEvent::ContextDestroying { ctx } => destroy_post(pre, post, ctx),
        ProfilerEvent::SessionEnabled { ctx, ok } => enabled_post(pre, post, ctx, ok),
        ProfilerEvent::RangesEvaluated { ctx, ranges } => ranges_post(pre, post, ctx, ranges@),
        ProfilerEvent::BufferCompleted { records } => buffer_post(pre, post, records@),
        ProfilerEvent::FatalError { .. } => post == pre,
    }
}

/// Law: when a kernel launch switches the session from the active context
/// `c1` to a different registered context `c2`, the issued commands complete
/// the quiesce of `c1` — stop, then decode, then evaluate, then disable, in
/// that order — before `c2`'s start, the last command, is issued.
pub proof fn lemma_launch_switch_order(pre: GlobalState, c2: u32)
    requires
        pre.wf(),
        pre.has_ctx(c2),
        switching(pre, c2),
    ensures
        ({
            let c1 = pre.active_ctx->0;
            let cs = launch_cmds(pre, c2);
            &&& cs.len() == 7
            &&& cs[0] == (EngineCmd::Stop { ctx: c1 })
            &&& cs[1] == (EngineCmd::Decode { ctx: c1 })
            &&& cs[2] == (EngineCmd::EvaluateAllRanges { ctx: c1 })
            &&& cs[3] == (EngineCmd::Disable { ctx: c1 })
            &&& cs[4] == (EngineCmd::Enable { ctx: c2 })
            &&& cs[6] == (EngineCmd::Start { ctx: c2 })
        }),
{
}

/// Law: a context-created callback arriving while `c1` holds the session
/// likewise completes the quiesce of `c1` — stop, decode, evaluate, disable,
/// in that order — before the new context's start, the last command, is
/// issued.
pub proof fn lemma_created_switch_order(pre: GlobalState, c2: u32)
    requires
        pre.wf(),
        pre.active_ctx is Some,
    ensures
        ({
            let c1 = pre.active_ctx->0;
            let cs = created_cmds(pre, c2);
            &&& cs.len() == 7
            &&& cs[0] == (EngineCmd::Stop { ctx: c1 })
            &&& cs[1] == (EngineCmd::Decode { ctx: c1 })
            &&& cs[2] == (EngineCmd::EvaluateAllRanges { ctx: c1 })
            &&& cs[3] == (EngineCmd::Disable { ctx: c1 })
            &&& cs[4] == (EngineCmd::Enable { ctx: c2 })
            &&& cs[6] == (EngineCmd::Start { ctx: c2 })
        }),
{
}

} // verus!
