//! The correlation and derived-metrics pass: aligning completed ranges with
//! launch and activity records, and computing occupancy-derived quantities
//! from device limits and launch geometry.
//!
//! Ratios that are not integers (waves per multiprocessor, the active-warp
//! percentage) are carried as exact numerator/denominator pairs; the embedder
//! formats them.

use vstd::prelude::*;
use vstd::arithmetic::mul::lemma_mul_upper_bound;
use crate::demangle::{demangle_kernel_name, demangled_of};
use crate::records::{clone_metrics, KernelActivity, KernelLaunch, MetricValuePair, RangeInfo};
use crate::registry::CtxProfilerData;

verus! {

/// An exact non-negative rational, `num / den`; a zero denominator never
/// arises, zero is written `0 / 1`.
#[derive(Clone, Copy, Debug, PartialEq, Eq, Structural)]
pub struct Ratio {
    /// Numerator.
    pub num: u64,
    /// Denominator.
    pub den: u64,
}

/// Device limits, read once per context from the driver.
#[derive(Clone, Copy, Debug, PartialEq, Eq, Structural)]
pub struct DeviceProps {
    /// Threads per warp.
    pub warp_size: u32,
    /// Maximum resident threads per multiprocessor.
    pub max_threads_per_sm: u32,
    /// Maximum resident blocks per multiprocessor.
    pub max_blocks_per_sm: u32,
    /// Registers per multiprocessor.
    pub registers_per_sm: u32,
    /// Shared memory per multiprocessor, in bytes.
    pub shared_memory_per_sm: u32,
    /// Compute capability, major part.
    pub compute_capability_major: u32,
    /// Compute capability, minor part.
    pub compute_capability_minor: u32,
}

/// Attributes of one launched function, queried from the engine per launch.
#[derive(Clone, Copy, Debug, PartialEq, Eq, Structural)]
pub struct FuncProps {
    /// The engine's occupancy answer: maximum active blocks per
    /// multiprocessor for this function and launch configuration.
    pub max_active_blocks: u32,
    /// Registers per thread, as the driver reports for the function.
    pub registers_per_thread: u32,
    /// The function's cache configuration preference.
    pub cache_mode: u32,
}

/// One finalized performance record: one kernel launch with its counter
/// values and derived occupancy figures, ready for the trace sink.
pub struct PerfRecord {
    /// Name the engine gave the counter range.
    pub range_name: String,
    /// Launch timestamp in nanoseconds.
    pub timestamp: u64,
    /// The duration metric's value, as a raw double bit pattern.
    pub duration_bits: u64,
    /// The duration metric's value truncated to nanoseconds.
    pub duration_int: u64,
    /// Kernel name as captured.
    pub kernel_name: String,
    /// Kernel name demangled.
    pub demangled_name: String,
    /// Grid dimensions.
    pub grid_x: u32,
    pub grid_y: u32,
    pub grid_z: u32,
    /// Block dimensions.
    pub block_x: u32,
    pub block_y: u32,
    pub block_z: u32,
    /// Product of the grid dimensions.
    pub grid_volume: u64,
    /// Product of the block dimensions.
    pub block_volume: u64,
    /// Grid volume times block volume.
    pub thread_count: u64,
    /// Registers per thread, as captured in the activity record.
    pub registers_per_thread: u32,
    /// Dynamic shared memory per block, in bytes.
    pub dynamic_shared_memory: u32,
    /// Static shared memory per block, in bytes.
    pub static_shared_memory: u32,
    /// Dynamic plus static shared memory per block.
    pub shared_memory_per_block: u64,
    /// Block volume divided by the warp size.
    pub warps_per_block: u64,
    /// The engine's occupancy answer for this launch.
    pub max_active_blocks: u32,
    /// Active blocks times warps per block.
    pub max_active_warps: u64,
    /// Device threads per multiprocessor divided by the warp size.
    pub max_warps_per_sm: u64,
    /// A hundred times the active warps, over the warps a multiprocessor
    /// holds.
    pub max_active_warps_pct: Ratio,
    /// Grid volume over multiprocessors times active blocks.
    pub waves_per_multiprocessor: Ratio,
    /// How many blocks the shared memory of a multiprocessor admits.
    pub occupancy_limit_shared_mem: u64,
    /// How many blocks the warp capacity of a multiprocessor admits.
    pub occupancy_limit_warps: u64,
    /// The device's resident-block limit.
    pub occupancy_limit_blocks: u32,
    /// How many blocks the registers of a multiprocessor admit.
    pub occupancy_limit_registers: u64,
    /// Compute capability, major part.
    pub compute_capability_major: u32,
    /// Compute capability, minor part.
    pub compute_capability_minor: u32,
    /// The function's cache configuration preference.
    pub cache_mode: u32,
    /// Every evaluated metric of the range, in request order.
    pub metrics: Vec<MetricValuePair>,
}

/// Product of three dimensions.
pub open spec fn vol3(x: u32, y: u32, z: u32) -> int {
    x * y * z
}

/// The metric whose presence decides whether a triple becomes a record, and
/// whose value is the record's duration.
pub open spec fn duration_metric_name() -> Seq<char> {
    "gpu__time_duration.sum"@
}

/// Index of the first metric named `name`, or -1 when none is.
pub open spec fn find_metric(ms: Seq<MetricValuePair>, name: Seq<char>) -> int
    decreases ms.len(),
{
    if ms.len() == 0 {
        -1
    } else if ms[0].metric_name@ == name {
        0
    } else {
        let r = find_metric(ms.drop_first(), name);
        if r < 0 {
            -1
        } else {
            1 + r
        }
    }
}

/// Whether some metric is named `name`.
pub open spec fn has_metric(ms: Seq<MetricValuePair>, name: Seq<char>) -> bool {
    find_metric(ms, name) >= 0
}

/// A scan that saw no match up to `i` pins `find_metric` down: the first
/// match at `i`, or no match at all.
proof fn lemma_find_metric_at(ms: Seq<MetricValuePair>, name: Seq<char>, i: int)
    requires
        0 <= i <= ms.len(),
        forall|k: int| 0 <= k < i ==> ms[k].metric_name@ != name,
        i < ms.len() ==> ms[i].metric_name@ == name,
    ensures
        find_metric(ms, name) == if i < ms.len() {
            i
        } else {
            -1
        },
    decreases ms.len(),
{
    if ms.len() == 0 {
    } else if i == 0 {
    } else {
        assert(ms[0].metric_name@ != name);
        let tail = ms.drop_first();
        assert forall|k: int| 0 <= k < i - 1 implies tail[k].metric_name@ != name by {
            assert(tail[k] == ms[k + 1]);
        }
        assert(i - 1 < tail.len() ==> tail[i - 1].metric_name@ == name);
        lemma_find_metric_at(tail, name, i - 1);
    }
}

/// Finds the first duration metric of a range.
pub fn find_duration_metric(ms: &Vec<MetricValuePair>) -> (r: Option<usize>)
    ensures
        match r {
            Some(i) => find_metric(ms@, duration_metric_name()) == i && i < ms@.len(),
            None => find_metric(ms@, duration_metric_name()) == -1,
        },
{
    let name: String = "gpu__time_duration.sum".to_owned();
    let mut i: usize = 0;
    while i < ms.len()
        invariant
            i <= ms@.len(),
            name@ == duration_metric_name(),
            forall|k: int| 0 <= k < i ==> ms@[k].metric_name@ != duration_metric_name(),
        decreases ms@.len() - i,
    {
        if ms[i].metric_name == name {
            proof {
                lemma_find_metric_at(ms@, duration_metric_name(), i as int);
            }
            return Some(i);
        }
        i = i + 1;
    }
    proof {
        lemma_find_metric_at(ms@, duration_metric_name(), ms@.len() as int);
    }
    None
}

/// Whether every derived quantity of a triple fits the record's fields.
pub open spec fn derived_in_range(a: KernelActivity, fp: FuncProps, dev: DeviceProps) -> bool {
    let gv = vol3(a.grid_x, a.grid_y, a.grid_z);
    let bv = vol3(a.block_x, a.block_y, a.block_z);
    let wpb = if dev.warp_size > 0 {
        bv / dev.warp_size as int
    } else {
        0
    };
    &&& gv <= u64::MAX
    &&& bv <= u64::MAX
    &&& gv * bv <= u64::MAX
    &&& fp.registers_per_thread * bv <= u64::MAX
    &&& 100 * (fp.max_active_blocks * wpb) <= u64::MAX
}

/// What one finalized record holds, field by field, of its aligned triple,
/// the function attributes, the device limits and the multiprocessor count.
pub open spec fn record_matches(
    r: PerfRecord,
    range: RangeInfo,
    l: KernelLaunch,
    a: KernelActivity,
    fp: FuncProps,
    dev: DeviceProps,
    num_sms: u32,
) -> bool {
    let gv = vol3(a.grid_x, a.grid_y, a.grid_z);
    let bv = vol3(a.block_x, a.block_y, a.block_z);
    let ws = dev.warp_size as int;
    let wpb = if ws > 0 {
        bv / ws
    } else {
        0
    };
    let mws = if ws > 0 {
        dev.max_threads_per_sm as int / ws
    } else {
        0
    };
    let maw = fp.max_active_blocks * wpb;
    let rpb = fp.registers_per_thread * bv;
    let spb = a.dynamic_shared_memory + a.static_shared_memory;
    let di = find_metric(range.metric_and_values@, duration_metric_name());
    &&& r.range_name@ == range.range_name@
    &&& r.timestamp == l.timestamp
    &&& 0 <= di < range.metric_and_values@.len()
    &&& r.duration_bits == range.metric_and_values@[di].value_bits
    &&& r.duration_int == range.metric_and_values@[di].value_int
    &&& r.kernel_name@ == a.kernel_name@
    &&& r.demangled_name@ == demangled_of(a.kernel_name@)
    &&& r.grid_x == a.grid_x && r.grid_y == a.grid_y && r.grid_z == a.grid_z
    &&& r.block_x == a.block_x && r.block_y == a.block_y && r.block_z == a.block_z
    &&& r.grid_volume == gv
    &&& r.block_volume == bv
    &&& r.thread_count == gv * bv
    &&& r.registers_per_thread == a.registers_per_thread
    &&& r.dynamic_shared_memory == a.dynamic_shared_memory
    &&& r.static_shared_memory == a.static_shared_memory
    &&& r.shared_memory_per_block == spb
    &&& r.warps_per_block == wpb
    &&& r.max_active_blocks == fp.max_active_blocks
    &&& r.max_active_warps == maw
    &&& r.max_warps_per_sm == mws
    &&& r.max_active_warps_pct == (if mws > 0 {
        Ratio { num: (100 * maw) as u64, den: mws as u64 }
    } else {
        Ratio { num: 0, den: 1 }
    })
    &&& r.waves_per_multiprocessor == (if num_sms > 0 && fp.max_active_blocks > 0 {
        Ratio { num: gv as u64, den: (num_sms * fp.max_active_blocks) as u64 }
    } else {
        Ratio { num: 0, den: 1 }
    })
    &&& r.occupancy_limit_shared_mem == (if spb != 0 {
        dev.shared_memory_per_sm as int / spb
    } else {
        16
    })
    &&& r.occupancy_limit_warps == (if wpb > 0 {
        mws / wpb
    } else {
        0
    })
    &&& r.occupancy_limit_blocks == dev.max_blocks_per_sm
    &&& r.occupancy_limit_registers == (if rpb != 0 {
        dev.registers_per_sm as int / rpb
    } else {
        16
    })
    &&& r.compute_capability_major == dev.compute_capability_major
    &&& r.compute_capability_minor == dev.compute_capability_minor
    &&& r.cache_mode == fp.cache_mode
    &&& r.metrics@ == range.metric_and_values@
}

/// Multiplies three dimensions, refusing a product past the record's field.
fn mul3_checked(x: u32, y: u32, z: u32) -> (r: Option<u64>)
    ensures
        match r {
            Some(v) => v == vol3(x, y, z) && vol3(x, y, z) <= u64::MAX,
            None => vol3(x, y, z) > u64::MAX,
        },
{
    proof {
        lemma_mul_upper_bound(x as int, u32::MAX as int, y as int, u32::MAX as int);
        lemma_mul_upper_bound(
            (x as int) * (y as int),
            (u32::MAX as int) * (u32::MAX as int),
            z as int,
            u32::MAX as int,
        );
    }
    let p: u128 = (x as u128) * (y as u128) * (z as u128);
    if p > u64::MAX as u128 {
        None
    } else {
        Some(p as u64)
    }
}

/// Multiplies two quantities, refusing a product past the record's field.
fn mul2_checked(x: u64, y: u64) -> (r: Option<u64>)
    ensures
        match r {
            Some(v) => v == x * y && x * y <= u64::MAX,
            None => x * y > u64::MAX,
        },
{
    proof {
        lemma_mul_upper_bound(x as int, u64::MAX as int, y as int, u64::MAX as int);
    }
    let p: u128 = (x as u128) * (y as u128);
    if p > u64::MAX as u128 {
        None
    } else {
        Some(p as u64)
    }
}

/// Builds one finalized record from an aligned triple, or nothing when the
/// range lacks the duration metric or a derived quantity cannot be held.
pub fn build_record(
    range: &RangeInfo,
    launch: &KernelLaunch,
    activity: &KernelActivity,
    fp: &FuncProps,
    dev: &DeviceProps,
    num_sms: u32,
) -> (r: Option<PerfRecord>)
    ensures
        r is Some <==> has_metric(range.metric_and_values@, duration_metric_name())
            && derived_in_range(*activity, *fp, *dev),
        r is Some ==> record_matches(r->0, *range, *launch, *activity, *fp, *dev, num_sms),
{
    let di = match find_duration_metric(&range.metric_and_values) {
        None => {
            return None;
        },
        Some(di) => di,
    };
    let gv = match mul3_checked(activity.grid_x, activity.grid_y, activity.grid_z) {
        None => {
            return None;
        },
        Some(v) => v,
    };
    let bv = match mul3_checked(activity.block_x, activity.block_y, activity.block_z) {
        None => {
            return None;
        },
        Some(v) => v,
    };
    let thread_count = match mul2_checked(gv, bv) {
        None => {
            return None;
        },
        Some(v) => v,
    };
    if mul2_checked(fp.registers_per_thread as u64, bv).is_none() {
        return None;
    }
    let rpb = fp.registers_per_thread as u64 * bv;
    let wpb: u64 = if dev.warp_size > 0 {
        bv / dev.warp_size as u64
    } else {
        0
    };
    let maw = match mul2_checked(fp.max_active_blocks as u64, wpb) {
        None => {
            return None;
        },
        Some(v) => v,
    };
    let pct_num = match mul2_checked(100, maw) {
        None => {
            return None;
        },
        Some(v) => v,
    };
    let mws: u64 = if dev.warp_size > 0 {
        (dev.max_threads_per_sm / dev.warp_size) as u64
    } else {
        0
    };
    let spb: u64 = activity.dynamic_shared_memory as u64 + activity.static_shared_memory as u64;
    let waves = if num_sms > 0 && fp.max_active_blocks > 0 {
        proof {
            lemma_mul_upper_bound(
                num_sms as int,
                u32::MAX as int,
                fp.max_active_blocks as int,
                u32::MAX as int,
            );
        }
        Ratio { num: gv, den: num_sms as u64 * fp.max_active_blocks as u64 }
    } else {
        Ratio { num: 0, den: 1 }
    };
    let duration = &range.metric_and_values[di];
    let record = PerfRecord {
        range_name: range.range_name.clone(),
        timestamp: launch.timestamp,
        duration_bits: duration.value_bits,
        duration_int: duration.value_int,
        kernel_name: activity.kernel_name.clone(),
        demangled_name: demangle_kernel_name(activity.kernel_name.as_str()),
        grid_x: activity.grid_x,
        grid_y: activity.grid_y,
        grid_z: activity.grid_z,
        block_x: activity.block_x,
        block_y: activity.block_y,
        block_z: activity.block_z,
        grid_volume: gv,
        block_volume: bv,
        thread_count,
        registers_per_thread: activity.registers_per_thread,
        dynamic_shared_memory: activity.dynamic_shared_memory,
        static_shared_memory: activity.static_shared_memory,
        shared_memory_per_block: spb,
        warps_per_block: wpb,
        max_active_blocks: fp.max_active_blocks,
        max_active_warps: maw,
        max_warps_per_sm: mws,
        max_active_warps_pct: if mws > 0 {
            Ratio { num: pct_num, den: mws }
        } else {
            Ratio { num: 0, den: 1 }
        },
        waves_per_multiprocessor: waves,
        occupancy_limit_shared_mem: if spb != 0 {
            dev.shared_memory_per_sm as u64 / spb
        } else {
            16
        },
        occupancy_limit_warps: if wpb > 0 {
            mws / wpb
        } else {
            0
        },
        occupancy_limit_blocks: dev.max_blocks_per_sm,
        occupancy_limit_registers: if rpb != 0 {
            dev.registers_per_sm as u64 / rpb
        } else {
            16
        },
        compute_capability_major: dev.compute_capability_major,
        compute_capability_minor: dev.compute_capability_minor,
        cache_mode: fp.cache_mode,
        metrics: clone_metrics(&range.metric_and_values),
    };
    Some(record)
}

/// The block volume of a captured launch: what the engine's occupancy query
/// is asked about, or nothing when the product cannot be held.
pub fn block_volume(a: &KernelActivity) -> (r: Option<u64>)
    ensures
        match r {
            Some(v) => v == vol3(a.block_x, a.block_y, a.block_z),
            None => vol3(a.block_x, a.block_y, a.block_z) > u64::MAX,
        },
{
    mul3_checked(a.block_x, a.block_y, a.block_z)
}

/// Number of aligned triples of a context: ranges, launches and activities
/// are zipped positionally, so the shortest list decides.
pub open spec fn triple_count_spec(d: CtxProfilerData) -> int {
    let a = d.range_info@.len() as int;
    let b = d.kernel_launches@.len() as int;
    let c = d.kernel_activities@.len() as int;
    if a <= b && a <= c {
        a
    } else if b <= c {
        b
    } else {
        c
    }
}

/// Counts the aligned triples of a context.
pub fn triple_count(d: &CtxProfilerData) -> (r: usize)
    ensures
        r == triple_count_spec(*d),
{
    let a = d.range_info.len();
    let b = d.kernel_launches.len();
    let c = d.kernel_activities.len();
    if a <= b && a <= c {
        a
    } else if b <= c {
        b
    } else {
        c
    }
}

/// Whether the triple at `i` becomes a record: its range holds the duration
/// metric and its derived quantities can be held.
pub open spec fn triple_ok(
    d: CtxProfilerData,
    fps: Seq<FuncProps>,
    dev: DeviceProps,
    i: int,
) -> bool {
    &&& has_metric(d.range_info@[i].metric_and_values@, duration_metric_name())
    &&& derived_in_range(d.kernel_activities@[i], fps[i], dev)
}

/// The triple indices from `upto` on that become records, in order.
pub open spec fn emitted(
    d: CtxProfilerData,
    fps: Seq<FuncProps>,
    dev: DeviceProps,
    upto: int,
) -> Seq<int>
    decreases triple_count_spec(d) - upto,
{
    if upto < 0 || upto >= triple_count_spec(d) {
        Seq::empty()
    } else {
        (if triple_ok(d, fps, dev, upto) {
            seq![upto]
        } else {
            Seq::empty()
        }) + emitted(d, fps, dev, upto + 1)
    }
}

/// Correlates one context's accumulated data into finalized records: the
/// three lists zip positionally, a triple whose range lacks the duration
/// metric is skipped, and every other triple yields exactly one record, in
/// order. `fps` holds the per-launch function attributes, one per triple.
pub fn correlate_context(data: &CtxProfilerData, fps: &Vec<FuncProps>, dev: &DeviceProps) -> (rs:
    Vec<PerfRecord>)
    requires
        fps@.len() >= triple_count_spec(*data),
    ensures
        ({
            let idxs = emitted(*data, fps@, *dev, 0);
            &&& rs@.len() == idxs.len()
            &&& forall|j: int|
                0 <= j < idxs.len() ==> record_matches(
                    rs@[j],
                    data.range_info@[idxs[j]],
                    data.kernel_launches@[idxs[j]],
                    data.kernel_activities@[idxs[j]],
                    fps@[idxs[j]],
                    *dev,
                    data.num_sms,
                )
        }),
{
    let n = triple_count(data);
    let mut rs: Vec<PerfRecord> = Vec::new();
    let ghost mut done: Seq<int> = Seq::empty();
    let mut i: usize = 0;
    proof {
        assert(done + emitted(*data, fps@, *dev, 0) =~= emitted(*data, fps@, *dev, 0));
    }
    while i < n
        invariant
            i <= n,
            n == triple_count_spec(*data),
            fps@.len() >= triple_count_spec(*data),
            emitted(*data, fps@, *dev, 0) == done + emitted(*data, fps@, *dev, i as int),
            done.len() == rs@.len(),
            forall|j: int|
                0 <= j < done.len() ==> 0 <= #[trigger] done[j] < triple_count_spec(*data)
                    && record_matches(
                    rs@[j],
                    data.range_info@[done[j]],
                    data.kernel_launches@[done[j]],
                    data.kernel_activities@[done[j]],
                    fps@[done[j]],
                    *dev,
                    data.num_sms,
                ),
        decreases n - i,
    {
        let rec = build_record(
            &data.range_info[i],
            &data.kernel_launches[i],
            &data.kernel_activities[i],
            &fps[i],
            dev,
            data.num_sms,
        );
        let ghost done0 = done;
        match rec {
            Some(rec) => {
                rs.push(rec);
                proof {
                    done = done + seq![i as int];
                    assert(triple_ok(*data, fps@, *dev, i as int));
                    assert(emitted(*data, fps@, *dev, i as int) == seq![i as int] + emitted(
                        *data,
                        fps@,
                        *dev,
                        i + 1,
                    ));
                    assert(done0 + emitted(*data, fps@, *dev, i as int) =~= done + emitted(
                        *data,
                        fps@,
                        *dev,
                        i + 1,
                    ));
                }
            },
            None => {
                proof {
                    assert(!triple_ok(*data, fps@, *dev, i as int));
                    assert(emitted(*data, fps@, *dev, i as int) == emitted(
                        *data,
                        fps@,
                        *dev,
                        i + 1,
                    ));
                }
            },
        }
        i = i + 1;
    }
    proof {
        assert(emitted(*data, fps@, *dev, n as int) == Seq::<int>::empty());
        assert(done + Seq::<int>::empty() =~= done);
    }
    rs
}

/// The name the trace shows for a function's cache preference: the four
/// driver preferences in order, and `n/a` for anything else.
pub open spec fn cache_config_name_spec(mode: u32) -> Seq<char> {
    if mode == 0 {
        "CachePreferNone"@
    } else if mode == 1 {
        "CachePreferShared"@
    } else if mode == 2 {
        "CachePreferL1"@
    } else if mode == 3 {
        "CachePreferEqual"@
    } else {
        "n/a"@
    }
}

/// Names a function's cache preference for the trace.
pub fn cache_config_name(mode: u32) -> (r: &'static str)
    ensures
        r@ == cache_config_name_spec(mode),
{
    if mode == 0 {
        "CachePreferNone"
    } else if mode == 1 {
        "CachePreferShared"
    } else if mode == 2 {
        "CachePreferL1"
    } else if mode == 3 {
        "CachePreferEqual"
    } else {
        "n/a"
    }
}

} // verus!
