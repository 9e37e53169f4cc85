use gpu_profiler::config::Config;
use gpu_profiler::dispatch::{ActivityRecord, EngineCmd, ProfilerEvent};
use gpu_profiler::records::KernelActivity;
use gpu_profiler::registry::GlobalState;

fn activity(name: &str) -> KernelActivity {
    KernelActivity {
        kernel_name: name.to_owned(),
        grid_x: 1,
        grid_y: 1,
        grid_z: 1,
        block_x: 32,
        block_y: 1,
        block_z: 1,
        registers_per_thread: 16,
        dynamic_shared_memory: 0,
        static_shared_memory: 0,
    }
}

fn active_count(state: &GlobalState) -> usize {
    state
        .context_data
        .iter()
        .filter(|e| e.data.is_active)
        .count()
}

#[test]
fn at_most_one_context_active_over_any_sequence() {
    let mut state = GlobalState::new(Config::default());
    let events = vec![
        ProfilerEvent::ContextCreated { ctx: 1, device_id: 0, num_sms: 10 },
        ProfilerEvent::SessionEnabled { ctx: 1, ok: true },
        ProfilerEvent::ContextCreated { ctx: 2, device_id: 0, num_sms: 10 },
        ProfilerEvent::SessionEnabled { ctx: 2, ok: true },
        ProfilerEvent::KernelLaunchEnter { ctx: 1, function: 7, now: 100 },
        ProfilerEvent::KernelLaunchEnter { ctx: 2, function: 8, now: 200 },
        ProfilerEvent::ContextDestroying { ctx: 2 },
        ProfilerEvent::KernelLaunchEnter { ctx: 1, function: 7, now: 300 },
        ProfilerEvent::ContextDestroying { ctx: 1 },
    ];
    for e in events {
        let _ = state.dispatch(e);
        assert!(active_count(&state) <= 1);
    }
}

#[test]
fn launch_switch_quiesces_before_start() {
    let mut state = GlobalState::new(Config::default());
    let _ = state.on_context_created(1, 0, 10);
    state.on_session_enabled(1, true);
    let _ = state.on_context_created(2, 0, 10);
    state.on_session_enabled(2, true);
    // context 2 is active; a launch on context 1 must quiesce 2 first
    let cmds = state.on_kernel_launch_enter(1, 42, 1000);
    assert_eq!(
        cmds,
        vec![
            EngineCmd::Stop { ctx: 2 },
            EngineCmd::Decode { ctx: 2 },
            EngineCmd::EvaluateAllRanges { ctx: 2 },
            EngineCmd::Disable { ctx: 2 },
            EngineCmd::Enable { ctx: 1 },
            EngineCmd::Configure { ctx: 1, max_num_ranges: 10 },
            EngineCmd::Start { ctx: 1 },
        ]
    );
}

#[test]
fn created_switch_quiesces_before_start() {
    let mut state = GlobalState::new(Config::default());
    let _ = state.on_context_created(1, 0, 10);
    state.on_session_enabled(1, true);
    let cmds = state.on_context_created(2, 0, 10);
    assert_eq!(
        cmds,
        vec![
            EngineCmd::Stop { ctx: 1 },
            EngineCmd::Decode { ctx: 1 },
            EngineCmd::EvaluateAllRanges { ctx: 1 },
            EngineCmd::Disable { ctx: 1 },
            EngineCmd::Enable { ctx: 2 },
            EngineCmd::Configure { ctx: 2, max_num_ranges: 10 },
            EngineCmd::Start { ctx: 2 },
        ]
    );
}

#[test]
fn launch_on_unregistered_context_is_a_no_op() {
    let mut state = GlobalState::new(Config::default());
    let _ = state.on_context_created(1, 0, 10);
    state.on_session_enabled(1, true);
    let cmds = state.on_kernel_launch_enter(99, 42, 1000);
    assert!(cmds.is_empty());
    assert_eq!(state.active_ctx, Some(1));
    assert_eq!(state.context_data.len(), 1);
    assert!(state.context_data[0].data.kernel_launches.is_empty());
}

#[test]
fn launch_on_running_context_harvests_the_pass() {
    let mut state = GlobalState::new(Config::default());
    let _ = state.on_context_created(1, 0, 10);
    state.on_session_enabled(1, true);
    let cmds = state.on_kernel_launch_enter(1, 42, 1000);
    assert_eq!(
        cmds,
        vec![
            EngineCmd::Decode { ctx: 1 },
            EngineCmd::EvaluateAllRanges { ctx: 1 },
            EngineCmd::InitializeCounterImage { ctx: 1 },
        ]
    );
    assert_eq!(state.context_data[0].data.kernel_launches.len(), 1);
    assert_eq!(state.context_data[0].data.kernel_launches[0].function, 42);
    assert_eq!(state.context_data[0].data.kernel_launches[0].timestamp, 1000);
}

#[test]
fn failed_enable_leaves_context_registered_inactive() {
    let mut state = GlobalState::new(Config::default());
    let _ = state.on_context_created(1, 0, 10);
    state.on_session_enabled(1, false);
    assert_eq!(state.context_data.len(), 1);
    assert!(!state.context_data[0].data.is_active);
    assert_eq!(state.active_ctx, None);
    // a later launch on it constructs a session
    let cmds = state.on_kernel_launch_enter(1, 5, 50);
    assert_eq!(
        cmds,
        vec![
            EngineCmd::Enable { ctx: 1 },
            EngineCmd::Configure { ctx: 1, max_num_ranges: 10 },
            EngineCmd::Start { ctx: 1 },
        ]
    );
    assert!(state.context_data[0].data.is_active);
}

#[test]
fn destroy_retains_the_entry_and_its_data() {
    let mut state = GlobalState::new(Config::default());
    let _ = state.on_context_created(1, 0, 10);
    state.on_session_enabled(1, true);
    let _ = state.on_kernel_launch_enter(1, 42, 1000);
    let cmds = state.on_context_destroying(1);
    assert_eq!(
        cmds,
        vec![
            EngineCmd::Stop { ctx: 1 },
            EngineCmd::Decode { ctx: 1 },
            EngineCmd::EvaluateAllRanges { ctx: 1 },
            EngineCmd::Disable { ctx: 1 },
        ]
    );
    assert_eq!(state.context_data.len(), 1);
    assert!(!state.context_data[0].data.is_active);
    assert_eq!(state.context_data[0].data.kernel_launches.len(), 1);
    // destroying an inactive context issues nothing
    let cmds = state.on_context_destroying(1);
    assert!(cmds.is_empty());
}

#[test]
fn empty_activity_buffer_appends_nothing() {
    let mut state = GlobalState::new(Config::default());
    let _ = state.on_context_created(1, 0, 10);
    state.on_buffer_completed(Vec::new());
    assert!(state.context_data[0].data.kernel_activities.is_empty());
    assert_eq!(state.context_data.len(), 1);
}

#[test]
fn activity_records_land_with_their_owners() {
    let mut state = GlobalState::new(Config::default());
    let _ = state.on_context_created(1, 0, 10);
    let _ = state.on_context_created(2, 0, 10);
    let records = vec![
        ActivityRecord { ctx_id: 1, activity: activity("a") },
        ActivityRecord { ctx_id: 99, activity: activity("dropped") },
        ActivityRecord { ctx_id: 2, activity: activity("b") },
        ActivityRecord { ctx_id: 1, activity: activity("c") },
    ];
    state.on_buffer_completed(records);
    let one = &state.context_data[0].data.kernel_activities;
    let two = &state.context_data[1].data.kernel_activities;
    assert_eq!(one.len(), 2);
    assert_eq!(one[0].kernel_name, "a");
    assert_eq!(one[1].kernel_name, "c");
    assert_eq!(two.len(), 1);
    assert_eq!(two[0].kernel_name, "b");
}

#[test]
fn drain_stops_the_active_session_only() {
    let mut state = GlobalState::new(Config::default());
    let _ = state.on_context_created(1, 0, 10);
    state.on_session_enabled(1, true);
    let cmds = state.drain_cmds();
    assert_eq!(
        cmds,
        vec![
            EngineCmd::Stop { ctx: 1 },
            EngineCmd::Decode { ctx: 1 },
            EngineCmd::EvaluateAllRanges { ctx: 1 },
        ]
    );
    let _ = state.on_context_destroying(1);
    assert!(state.drain_cmds().is_empty());
}

#[test]
fn fatal_error_commands_termination() {
    let mut state = GlobalState::new(Config::default());
    let cmds = state.dispatch(ProfilerEvent::FatalError { message: "bad state".to_owned() });
    assert_eq!(cmds, vec![EngineCmd::Terminate]);
    assert_eq!(state.context_data.len(), 0);
}
