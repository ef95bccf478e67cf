use gpu_harness::bindings::{bind_spec, check_bindings, BindingEntry};
use gpu_harness::buffers::{plan_buffers, BufferInit};
use gpu_harness::dispatch::{record_commands, Command};
use gpu_harness::error::HarnessError;
use gpu_harness::grid::{size_for, ElementLayout, GridConfig};
use gpu_harness::invocation::{Action, Event, HarnessConfig, Invocation, Stage};
use gpu_harness::pipeline::{check_entry_point, entry_point, overrides, OverrideName};

fn layout(min_size: u64) -> ElementLayout {
    ElementLayout { min_size, align: 4 }
}

fn scenario_grid() -> GridConfig {
    GridConfig::new(8, 8, 4, 32, 32, 32).unwrap()
}

fn small_config() -> HarnessConfig {
    HarnessConfig {
        grid: GridConfig::new(2, 1, 1, 2, 1, 1).unwrap(),
        in_layout: layout(4),
        out_layout: layout(16),
        input_len: 4,
    }
}

fn kernel(names: &[&str], slots: &[u32]) -> Event {
    Event::KernelInspected {
        entry_points: names.iter().map(|n| n.to_string()).collect(),
        slots: slots.to_vec(),
    }
}

/// Drives a run in which every device step succeeds and the staging buffer
/// holds `bytes`.
fn successful_run(config: HarnessConfig, bytes: Vec<u8>) -> (Invocation, Vec<Action>) {
    let (mut inv, first) = Invocation::new(config);
    let mut actions = vec![first];
    let events = vec![
        Event::DeviceAcquired { max_buffer_size: 1 << 28 },
        Event::BuffersCreated,
        kernel(&["main"], &[0, 1]),
        Event::CommandsRecorded,
        Event::Submitted,
        Event::MapGranted,
        Event::BytesRead { bytes },
        Event::Unmapped,
    ];
    for ev in events {
        actions.push(inv.step(ev));
    }
    (inv, actions)
}

#[test]
fn scenario_grid_total_invocations() {
    let g = scenario_grid();
    assert_eq!(g.total_invocation_count(), Some(8_388_608));
}

#[test]
fn scenario_output_length() {
    let g = scenario_grid();
    // a runtime array of 3-component u32 vectors has a 16-byte stride
    let out = layout(16);
    assert_eq!(size_for(&out, &g), Some(8_388_608 * 16));
    let plan = plan_buffers(4, &out, &g, 1 << 28).unwrap();
    assert_eq!(plan.output.size, 134_217_728);
    assert_eq!(plan.staging.size, 134_217_728);
    assert_eq!(plan.input.size, 4);
}

#[test]
fn grid_rejects_zero_and_wide_components() {
    assert!(GridConfig::new(0, 1, 1, 1, 1, 1).is_none());
    assert!(GridConfig::new(1, 1, 1, 1, 1, 0).is_none());
    assert!(GridConfig::new(1, 1, 1, 1 << 32, 1, 1).is_none());
    assert!(GridConfig::new(1, 1, 1, u32::MAX as u64, 1, 1).is_some());
}

#[test]
fn size_overflow_is_none() {
    let g = GridConfig::new(
        u32::MAX as u64,
        u32::MAX as u64,
        u32::MAX as u64,
        1,
        1,
        1,
    )
    .unwrap();
    assert_eq!(g.total_invocation_count(), None);
    assert_eq!(size_for(&layout(4), &g), None);
    assert_eq!(
        plan_buffers(4, &layout(4), &g, u64::MAX),
        Err(HarnessError::BufferSizeExceedsLimit)
    );
}

#[test]
fn plan_usages_and_init() {
    let g = GridConfig::new(1, 1, 1, 3, 1, 1).unwrap();
    let plan = plan_buffers(12, &layout(8), &g, 1024).unwrap();
    assert_eq!(plan.output.size, 24);
    assert!(plan.input.usage.storage && plan.input.usage.uniform);
    assert!(!plan.input.usage.map_read);
    assert_eq!(plan.input.init, BufferInit::FromContents);
    assert!(plan.output.usage.storage && plan.output.usage.copy_src);
    assert!(!plan.output.usage.map_read);
    assert_eq!(plan.output.init, BufferInit::Zeroed);
    assert!(plan.staging.usage.copy_dst && plan.staging.usage.map_read);
    assert!(!plan.staging.usage.storage);
}

#[test]
fn oversize_output_is_refused() {
    let g = scenario_grid();
    assert_eq!(
        plan_buffers(4, &layout(16), &g, (1 << 27) - 1),
        Err(HarnessError::BufferSizeExceedsLimit)
    );
    assert!(plan_buffers(4, &layout(16), &g, 1 << 27).is_ok());
}

#[test]
fn bind_spec_has_two_slots() {
    let b = bind_spec(&layout(4), &layout(16));
    assert_eq!(
        b,
        vec![
            BindingEntry { slot: 0, read_only: true, min_size: 4 },
            BindingEntry { slot: 1, read_only: false, min_size: 16 },
        ]
    );
}

#[test]
fn bindings_agree_in_any_order() {
    let b = bind_spec(&layout(4), &layout(16));
    assert_eq!(check_bindings(&b, &vec![1, 0]), Ok(()));
    assert_eq!(check_bindings(&b, &vec![0]), Err(HarnessError::BindGroupMismatch));
    assert_eq!(check_bindings(&b, &vec![0, 1, 2]), Err(HarnessError::BindGroupMismatch));
}

#[test]
fn three_declared_slots_against_two_is_mismatch() {
    let mut b = bind_spec(&layout(4), &layout(16));
    b.push(BindingEntry { slot: 2, read_only: true, min_size: 4 });
    assert_eq!(check_bindings(&b, &vec![0, 1]), Err(HarnessError::BindGroupMismatch));
}

#[test]
fn entry_point_must_be_main() {
    assert_eq!(entry_point(), "main");
    assert_eq!(check_entry_point(&vec!["main".to_string()]), Ok(()));
    assert_eq!(
        check_entry_point(&vec!["compute_main".to_string()]),
        Err(HarnessError::ShaderCompileError)
    );
    assert_eq!(check_entry_point(&vec![]), Err(HarnessError::ShaderCompileError));
}

#[test]
fn overrides_carry_the_grid() {
    let o = overrides(&scenario_grid());
    let names: Vec<&str> = o.iter().map(|(n, _)| n.name()).collect();
    assert_eq!(
        names,
        vec![
            "workgroup_size_x",
            "workgroup_size_y",
            "workgroup_size_z",
            "dispatch_count_x",
            "dispatch_count_y",
            "dispatch_count_z",
        ]
    );
    let values: Vec<u64> = o.iter().map(|(_, v)| *v).collect();
    assert_eq!(values, vec![8, 8, 4, 32, 32, 32]);
    assert_eq!(values.iter().product::<u64>(), 8_388_608);
    assert_eq!(o[3].0, OverrideName::DispatchCountX);
}

#[test]
fn commands_copy_after_dispatch() {
    let g = scenario_grid();
    let plan = plan_buffers(4, &layout(16), &g, 1 << 28).unwrap();
    assert_eq!(
        record_commands(&g, &plan),
        vec![
            Command::SetPipeline,
            Command::SetBindGroup { index: 0 },
            Command::Dispatch { x: 32, y: 32, z: 32 },
            Command::CopyOutputToStaging { size: 134_217_728 },
        ]
    );
}

#[test]
fn successful_invocation_returns_read_bytes() {
    let bytes: Vec<u8> = (0..64).collect();
    let (inv, actions) = successful_run(small_config(), bytes.clone());
    let plan = plan_buffers(4, &layout(16), &small_config().grid, 1 << 28).unwrap();
    assert_eq!(
        actions,
        vec![
            Action::AcquireDevice,
            Action::CreateBuffers(plan),
            Action::InspectKernel,
            Action::BuildAndRecord,
            Action::Submit,
            Action::WaitAndMap,
            Action::ReadMapped,
            Action::Unmap,
            Action::Finish,
        ]
    );
    assert_eq!(inv.stage(), Stage::Unmapped);
    assert_eq!(inv.into_output(), Some(bytes));
}

#[test]
fn output_length_is_invocations_times_element_size() {
    let (inv, _) = successful_run(small_config(), vec![0; 64]);
    assert_eq!(inv.output().len(), 4 * 16);
}

#[test]
fn identical_runs_give_identical_output() {
    let bytes: Vec<u8> = (0..64).map(|i| (i * 7) as u8).collect();
    let (a, _) = successful_run(small_config(), bytes.clone());
    let (b, _) = successful_run(small_config(), bytes);
    assert_eq!(a.into_output(), b.into_output());
}

#[test]
fn short_read_is_map_failure() {
    let (inv, actions) = successful_run(small_config(), vec![0; 63]);
    assert_eq!(inv.stage(), Stage::Failed(HarnessError::MapFailed));
    assert_eq!(actions[7], Action::Abort(HarnessError::MapFailed));
    assert_eq!(inv.into_output(), None);
}

#[test]
fn rejected_map_fails() {
    let (mut inv, _) = Invocation::new(small_config());
    inv.step(Event::DeviceAcquired { max_buffer_size: 1024 });
    inv.step(Event::BuffersCreated);
    inv.step(kernel(&["main"], &[0, 1]));
    inv.step(Event::CommandsRecorded);
    inv.step(Event::Submitted);
    assert_eq!(inv.step(Event::MapRejected), Action::Abort(HarnessError::MapFailed));
}

#[test]
fn missing_adapter_and_device_fail() {
    let (mut a, _) = Invocation::new(small_config());
    assert_eq!(
        a.step(Event::AdapterUnavailable),
        Action::Abort(HarnessError::AdapterUnavailable)
    );
    let (mut d, _) = Invocation::new(small_config());
    assert_eq!(
        d.step(Event::DeviceCreationFailed),
        Action::Abort(HarnessError::DeviceCreationFailed)
    );
    assert_eq!(HarnessError::DeviceCreationFailed.name(), "DeviceCreationFailed");
}

#[test]
fn oversize_fails_before_allocation() {
    let config = HarnessConfig {
        grid: scenario_grid(),
        in_layout: layout(4),
        out_layout: layout(16),
        input_len: 4,
    };
    let (mut inv, _) = Invocation::new(config);
    assert_eq!(
        inv.step(Event::DeviceAcquired { max_buffer_size: 1 << 26 }),
        Action::Abort(HarnessError::BufferSizeExceedsLimit)
    );
    assert_eq!(inv.plan(), None);
    assert_eq!(
        inv.step(Event::BuffersCreated),
        Action::Abort(HarnessError::BufferSizeExceedsLimit)
    );
}

#[test]
fn wrong_entry_point_fails_before_dispatch() {
    let (mut inv, _) = Invocation::new(small_config());
    inv.step(Event::DeviceAcquired { max_buffer_size: 1024 });
    inv.step(Event::BuffersCreated);
    assert_eq!(
        inv.step(kernel(&["compute_main"], &[0, 1])),
        Action::Abort(HarnessError::ShaderCompileError)
    );
    assert_eq!(
        inv.step(Event::CommandsRecorded),
        Action::Abort(HarnessError::ShaderCompileError)
    );
    assert_eq!(inv.stage(), Stage::Failed(HarnessError::ShaderCompileError));
}

#[test]
fn unused_binding_fails_at_build() {
    let (mut inv, _) = Invocation::new(small_config());
    inv.step(Event::DeviceAcquired { max_buffer_size: 1024 });
    inv.step(Event::BuffersCreated);
    assert_eq!(
        inv.step(kernel(&["main"], &[0])),
        Action::Abort(HarnessError::BindGroupMismatch)
    );
}

#[test]
fn out_of_order_event_changes_nothing() {
    let (mut inv, _) = Invocation::new(small_config());
    assert_eq!(inv.step(Event::Submitted), Action::AcquireDevice);
    assert_eq!(inv.stage(), Stage::Uninitialized);
    assert_eq!(inv.config(), small_config());
}
