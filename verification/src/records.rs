//! Raw records captured from the host application and the evaluated counter
//! ranges they are correlated with.
//!
//! Metric values are computed by the engine as IEEE doubles; the core never
//! does arithmetic on them, so each value is carried through as its raw bit
//! pattern together with its integer truncation (used where a duration feeds
//! a timestamp).

use vstd::prelude::*;

verus! {

/// One kernel launch, captured synchronously at the launch callback.
pub struct KernelLaunch {
    /// Opaque handle of the launched device function; never dereferenced,
    /// only handed back to the engine.
    pub function: u64,
    /// Launch timestamp in nanoseconds.
    pub timestamp: u64,
}

/// Launch geometry of one kernel execution, delivered asynchronously in an
/// activity buffer and correlated with launches only by arrival order.
pub struct KernelActivity {
    /// Possibly mangled kernel name.
    pub kernel_name: String,
    /// Grid dimensions.
    pub grid_x: u32,
    pub grid_y: u32,
    pub grid_z: u32,
    /// Block dimensions.
    pub block_x: u32,
    pub block_y: u32,
    pub block_z: u32,
    /// Registers used per thread.
    pub registers_per_thread: u32,
    /// Dynamic shared memory per block, in bytes.
    pub dynamic_shared_memory: u32,
    /// Static shared memory per block, in bytes.
    pub static_shared_memory: u32,
}

/// One evaluated metric of one range: the metric's name, the engine's value
/// as a raw double bit pattern, and the value truncated to an integer.
pub struct MetricValuePair {
    /// Name of the metric.
    pub metric_name: String,
    /// The engine's value, as the bit pattern of an IEEE double.
    pub value_bits: u64,
    /// The engine's value truncated towards zero to an integer.
    pub value_int: u64,
}

/// Profiling results of one completed range: the range's name and its
/// evaluated metrics, in the order the metrics were requested.
pub struct RangeInfo {
    /// Name the engine gave the range.
    pub range_name: String,
    /// The evaluated metrics.
    pub metric_and_values: Vec<MetricValuePair>,
}

/// Assembles the evaluation results of one range: the engine's values, in
/// request order, paired with the metric names they answer. `value_bits` and
/// `value_ints` carry each value's double bit pattern and integer truncation,
/// index for index.
pub fn make_range_info(
    range_name: String,
    metric_names: &Vec<String>,
    value_bits: &Vec<u64>,
    value_ints: &Vec<u64>,
) -> (r: RangeInfo)
    requires
        value_bits@.len() == metric_names@.len(),
        value_ints@.len() == metric_names@.len(),
    ensures
        r.range_name == range_name,
        r.metric_and_values@.len() == metric_names@.len(),
        forall|i: int|
            0 <= i < metric_names@.len() ==> {
                &&& (#[trigger] r.metric_and_values@[i]).metric_name == metric_names@[i]
                &&& r.metric_and_values@[i].value_bits == value_bits@[i]
                &&& r.metric_and_values@[i].value_int == value_ints@[i]
            },
{
    let mut pairs: Vec<MetricValuePair> = Vec::new();
    let mut i: usize = 0;
    while i < metric_names.len()
        invariant
            i <= metric_names@.len(),
            value_bits@.len() == metric_names@.len(),
            value_ints@.len() == metric_names@.len(),
            pairs@.len() == i,
            forall|k: int|
                0 <= k < i ==> {
                    &&& (#[trigger] pairs@[k]).metric_name == metric_names@[k]
                    &&& pairs@[k].value_bits == value_bits@[k]
                    &&& pairs@[k].value_int == value_ints@[k]
                },
        decreases metric_names@.len() - i,
    {
        pairs.push(
            MetricValuePair {
                metric_name: metric_names[i].clone(),
                value_bits: value_bits[i],
                value_int: value_ints[i],
            },
        );
        i = i + 1;
    }
    RangeInfo { range_name, metric_and_values: pairs }
}

/// Copies one kernel activity record.
pub fn clone_activity(a: &KernelActivity) -> (r: KernelActivity)
    ensures
        r == *a,
{
    KernelActivity {
        kernel_name: a.kernel_name.clone(),
        grid_x: a.grid_x,
        grid_y: a.grid_y,
        grid_z: a.grid_z,
        block_x: a.block_x,
        block_y: a.block_y,
        block_z: a.block_z,
        registers_per_thread: a.registers_per_thread,
        dynamic_shared_memory: a.dynamic_shared_memory,
        static_shared_memory: a.static_shared_memory,
    }
}

/// Copies one evaluated metric.
pub fn clone_metric(m: &MetricValuePair) -> (r: MetricValuePair)
    ensures
        r == *m,
{
    MetricValuePair {
        metric_name: m.metric_name.clone(),
        value_bits: m.value_bits,
        value_int: m.value_int,
    }
}

/// Copies the evaluated metrics of a range.
pub fn clone_metrics(ms: &Vec<MetricValuePair>) -> (r: Vec<MetricValuePair>)
    ensures
        r@ =~= ms@,
{
    let mut out: Vec<MetricValuePair> = Vec::new();
    let mut i: usize = 0;
    while i < ms.len()
        invariant
            i <= ms.len(),
            out@ =~= ms@.subrange(0, i as int),
        decreases ms.len() - i,
    {
        out.push(clone_metric(&ms[i]));
        i = i + 1;
    }
    out
}

} // verus!
