use gpu_profiler::occupancy::{
    build_record, cache_config_name, correlate_context, find_duration_metric, triple_count,
    DeviceProps, FuncProps,
};
use gpu_profiler::records::{KernelActivity, KernelLaunch, MetricValuePair, RangeInfo};
use gpu_profiler::registry::CtxProfilerData;

fn metric(name: &str, value: f64) -> MetricValuePair {
    MetricValuePair {
        metric_name: name.to_owned(),
        value_bits: value.to_bits(),
        value_int: value as u64,
    }
}

fn range_with_duration(ns: f64) -> RangeInfo {
    RangeInfo {
        range_name: "kernel/0".to_owned(),
        metric_and_values: vec![
            metric("sm__cycles_active.avg", 123.5),
            metric("gpu__time_duration.sum", ns),
        ],
    }
}

fn range_without_duration() -> RangeInfo {
    RangeInfo {
        range_name: "kernel/1".to_owned(),
        metric_and_values: vec![metric("sm__cycles_active.avg", 99.0)],
    }
}

fn device() -> DeviceProps {
    DeviceProps {
        warp_size: 32,
        max_threads_per_sm: 1536,
        max_blocks_per_sm: 16,
        registers_per_sm: 65536,
        shared_memory_per_sm: 102400,
        compute_capability_major: 8,
        compute_capability_minor: 6,
    }
}

fn activity(grid: (u32, u32, u32), block: (u32, u32, u32)) -> KernelActivity {
    KernelActivity {
        kernel_name: "_ZN5space3fooEibc".to_owned(),
        grid_x: grid.0,
        grid_y: grid.1,
        grid_z: grid.2,
        block_x: block.0,
        block_y: block.1,
        block_z: block.2,
        registers_per_thread: 32,
        dynamic_shared_memory: 256,
        static_shared_memory: 512,
    }
}

#[test]
fn derived_quantities_for_a_small_launch() {
    let range = range_with_duration(2048.0);
    let launch = KernelLaunch { function: 11, timestamp: 5000 };
    let act = activity((2, 1, 1), (128, 1, 1));
    let fp = FuncProps { max_active_blocks: 4, registers_per_thread: 32, cache_mode: 0 };
    let rec = build_record(&range, &launch, &act, &fp, &device(), 10).unwrap();
    assert_eq!(rec.thread_count, 256);
    assert_eq!(rec.grid_volume, 2);
    assert_eq!(rec.block_volume, 128);
    let waves = rec.waves_per_multiprocessor;
    assert_eq!(waves.num as f64 / waves.den as f64, 0.05);
    assert_eq!(rec.warps_per_block, 4);
    assert_eq!(rec.max_active_warps, 16);
    assert_eq!(rec.max_warps_per_sm, 48);
    assert_eq!(rec.shared_memory_per_block, 768);
    assert_eq!(rec.occupancy_limit_shared_mem, 102400 / 768);
    assert_eq!(rec.occupancy_limit_warps, 12);
    assert_eq!(rec.occupancy_limit_blocks, 16);
    assert_eq!(rec.occupancy_limit_registers, 65536 / (32 * 128));
    assert_eq!(rec.timestamp, 5000);
    assert_eq!(rec.duration_int, 2048);
    assert_eq!(rec.duration_bits, 2048.0f64.to_bits());
    assert_eq!(rec.range_name, "kernel/0");
    assert_eq!(rec.metrics.len(), 2);
    assert_eq!(rec.metrics[1].metric_name, "gpu__time_duration.sum");
}

#[test]
fn zero_shared_memory_and_registers_use_the_constant_limit() {
    let range = range_with_duration(10.0);
    let launch = KernelLaunch { function: 1, timestamp: 1 };
    let mut act = activity((1, 1, 1), (64, 1, 1));
    act.dynamic_shared_memory = 0;
    act.static_shared_memory = 0;
    let fp = FuncProps { max_active_blocks: 0, registers_per_thread: 0, cache_mode: 9 };
    let rec = build_record(&range, &launch, &act, &fp, &device(), 10).unwrap();
    assert_eq!(rec.occupancy_limit_shared_mem, 16);
    assert_eq!(rec.occupancy_limit_registers, 16);
    // a zero occupancy answer makes the wave ratio exactly zero
    assert_eq!(rec.waves_per_multiprocessor.num, 0);
    assert_eq!(rec.waves_per_multiprocessor.den, 1);
}

#[test]
fn missing_duration_metric_yields_no_record() {
    let range = range_without_duration();
    let launch = KernelLaunch { function: 1, timestamp: 1 };
    let act = activity((1, 1, 1), (32, 1, 1));
    let fp = FuncProps { max_active_blocks: 1, registers_per_thread: 1, cache_mode: 0 };
    assert!(build_record(&range, &launch, &act, &fp, &device(), 10).is_none());
}

#[test]
fn drain_with_three_triples_and_one_gap_emits_two_records() {
    let data = CtxProfilerData {
        device_id: 0,
        num_sms: 10,
        max_num_ranges: 10,
        is_active: false,
        counter_data_image: Vec::new(),
        metric_evaluator: None,
        range_profiler: None,
        range_info: vec![
            range_without_duration(),
            range_with_duration(100.0),
            range_with_duration(200.0),
        ],
        kernel_launches: vec![
            KernelLaunch { function: 1, timestamp: 10 },
            KernelLaunch { function: 2, timestamp: 20 },
            KernelLaunch { function: 3, timestamp: 30 },
        ],
        kernel_activities: vec![
            activity((1, 1, 1), (32, 1, 1)),
            activity((2, 1, 1), (64, 1, 1)),
            activity((4, 1, 1), (128, 1, 1)),
        ],
    };
    let fps = vec![
        FuncProps { max_active_blocks: 4, registers_per_thread: 32, cache_mode: 0 };
        3
    ];
    assert_eq!(triple_count(&data), 3);
    let records = correlate_context(&data, &fps, &device());
    assert_eq!(records.len(), 2);
    assert_eq!(records[0].timestamp, 20);
    assert_eq!(records[0].thread_count, 128);
    assert_eq!(records[1].timestamp, 30);
    assert_eq!(records[1].thread_count, 512);
}

#[test]
fn correlation_zips_to_the_shortest_list() {
    let data = CtxProfilerData {
        device_id: 0,
        num_sms: 10,
        max_num_ranges: 10,
        is_active: false,
        counter_data_image: Vec::new(),
        metric_evaluator: None,
        range_profiler: None,
        range_info: vec![range_with_duration(100.0), range_with_duration(200.0)],
        kernel_launches: vec![KernelLaunch { function: 1, timestamp: 10 }],
        kernel_activities: vec![
            activity((1, 1, 1), (32, 1, 1)),
            activity((2, 1, 1), (64, 1, 1)),
            activity((4, 1, 1), (128, 1, 1)),
        ],
    };
    assert_eq!(triple_count(&data), 1);
    let fps = vec![FuncProps { max_active_blocks: 4, registers_per_thread: 32, cache_mode: 0 }];
    let records = correlate_context(&data, &fps, &device());
    assert_eq!(records.len(), 1);
    assert_eq!(records[0].timestamp, 10);
}

#[test]
fn kernel_names_come_back_demangled() {
    let range = range_with_duration(10.0);
    let launch = KernelLaunch { function: 1, timestamp: 1 };
    let act = activity((1, 1, 1), (32, 1, 1));
    let fp = FuncProps { max_active_blocks: 1, registers_per_thread: 1, cache_mode: 0 };
    let rec = build_record(&range, &launch, &act, &fp, &device(), 10).unwrap();
    assert_eq!(rec.kernel_name, "_ZN5space3fooEibc");
    assert_eq!(rec.demangled_name, "space::foo(int, bool, char)");
}

#[test]
fn unmangled_names_pass_through_unchanged() {
    let range = range_with_duration(10.0);
    let launch = KernelLaunch { function: 1, timestamp: 1 };
    let mut act = activity((1, 1, 1), (32, 1, 1));
    act.kernel_name = "plain_c_kernel".to_owned();
    let fp = FuncProps { max_active_blocks: 1, registers_per_thread: 1, cache_mode: 0 };
    let rec = build_record(&range, &launch, &act, &fp, &device(), 10).unwrap();
    assert_eq!(rec.demangled_name, "plain_c_kernel");
}

#[test]
fn cache_preferences_have_their_names() {
    assert_eq!(cache_config_name(0), "CachePreferNone");
    assert_eq!(cache_config_name(1), "CachePreferShared");
    assert_eq!(cache_config_name(2), "CachePreferL1");
    assert_eq!(cache_config_name(3), "CachePreferEqual");
    assert_eq!(cache_config_name(77), "n/a");
}

#[test]
fn range_assembly_pairs_names_with_values() {
    let names = vec!["a".to_owned(), "b".to_owned()];
    let bits = vec![1.5f64.to_bits(), 2.5f64.to_bits()];
    let ints = vec![1u64, 2u64];
    let info = gpu_profiler::records::make_range_info("r0".to_owned(), &names, &bits, &ints);
    assert_eq!(info.range_name, "r0");
    assert_eq!(info.metric_and_values.len(), 2);
    assert_eq!(info.metric_and_values[0].metric_name, "a");
    assert_eq!(info.metric_and_values[0].value_bits, 1.5f64.to_bits());
    assert_eq!(info.metric_and_values[1].metric_name, "b");
    assert_eq!(info.metric_and_values[1].value_int, 2);
}

#[test]
fn duration_lookup_finds_the_first_match() {
    let ms = vec![
        metric("other", 1.0),
        metric("gpu__time_duration.sum", 2.0),
        metric("gpu__time_duration.sum", 3.0),
    ];
    assert_eq!(find_duration_metric(&ms), Some(1));
    let none = vec![metric("other", 1.0)];
    assert_eq!(find_duration_metric(&none), None);
    let empty: Vec<MetricValuePair> = Vec::new();
    assert_eq!(find_duration_metric(&empty), None);
}
