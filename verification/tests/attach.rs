use honeybeepf::attach::{
    attach_outcome, attach_plan, engine_outcome, next_attachment, probe_status, spawns_consumer,
    tracepoint_exists, tracepoint_path, tracepoint_paths, AttachError, AttachStep, BlockIoProbe,
    GpuOpenProbe, NetworkLatencyProbe, Probe, ProbeKind, ProbeStatus, TracepointConfig,
};
use honeybeepf::settings::{enabled, BuiltinProbes, Settings};

fn settings(block_io: Option<bool>, network: Option<bool>, gpu: Option<bool>) -> Settings {
    Settings {
        otel_exporter_otlp_endpoint: None,
        otel_exporter_otlp_protocol: None,
        builtin_probes: BuiltinProbes {
            block_io,
            network_latency: network,
            gpu_open: gpu,
            interval: Some(5),
        },
        custom_probe_config: None,
    }
}

#[test]
fn probes_name_their_tracepoints() {
    assert_eq!(NetworkLatencyProbe.kind(), ProbeKind::NetworkLatency);
    assert_eq!(BlockIoProbe.kind(), ProbeKind::BlockIo);
    assert_eq!(GpuOpenProbe.kind(), ProbeKind::GpuOpen);
    assert_eq!(
        ProbeKind::NetworkLatency.tracepoints(),
        vec![TracepointConfig {
            program_name: "honeybeepf",
            category: "syscalls",
            name: "sys_enter_connect",
        }]
    );
    assert_eq!(
        ProbeKind::BlockIo.tracepoints(),
        vec![
            TracepointConfig {
                program_name: "honeybeepf_block_io_start",
                category: "block",
                name: "block_io_start",
            },
            TracepointConfig {
                program_name: "honeybeepf_block_io_done",
                category: "block",
                name: "block_io_done",
            },
        ]
    );
    assert_eq!(
        ProbeKind::GpuOpen.tracepoints(),
        vec![TracepointConfig {
            program_name: "honeybeepf_gpu_open_enter",
            category: "syscalls",
            name: "sys_enter_openat",
        }]
    );
    assert_eq!(ProbeKind::NetworkLatency.map_name(), "NETWORK_EVENTS");
    assert_eq!(ProbeKind::BlockIo.map_name(), "BLOCK_IO_EVENTS");
    assert_eq!(ProbeKind::GpuOpen.map_name(), "GPU_OPEN_EVENTS");
}

#[test]
fn switches_default_to_off() {
    assert!(!enabled(None));
    assert!(!enabled(Some(false)));
    assert!(enabled(Some(true)));
}

#[test]
fn attach_plan_follows_the_settings() {
    assert_eq!(attach_plan(&settings(None, None, None)), vec![]);
    assert_eq!(attach_plan(&settings(Some(true), Some(false), None)), vec![ProbeKind::BlockIo]);
    assert_eq!(
        attach_plan(&settings(Some(true), Some(true), Some(true))),
        vec![ProbeKind::NetworkLatency, ProbeKind::BlockIo, ProbeKind::GpuOpen]
    );
    assert_eq!(
        attach_plan(&settings(Some(false), Some(true), Some(true))),
        vec![ProbeKind::NetworkLatency, ProbeKind::GpuOpen]
    );
}

#[test]
fn tracepoint_paths_cover_both_mounts() {
    assert_eq!(
        tracepoint_path("/sys/kernel/tracing", "block", "block_io_start"),
        "/sys/kernel/tracing/events/block/block_io_start"
    );
    assert_eq!(
        tracepoint_paths("syscalls", "sys_enter_connect"),
        vec![
            "/sys/kernel/tracing/events/syscalls/sys_enter_connect".to_string(),
            "/sys/kernel/debug/tracing/events/syscalls/sys_enter_connect".to_string(),
        ]
    );
}

#[test]
fn one_mount_is_enough() {
    assert!(!tracepoint_exists(&[]));
    assert!(!tracepoint_exists(&[false, false]));
    assert!(tracepoint_exists(&[true, false]));
    assert!(tracepoint_exists(&[false, true]));
    assert!(tracepoint_exists(&[true, true]));
}

#[test]
fn absent_tracepoint_is_skipped_and_present_failure_is_an_error() {
    let steps =
        [AttachStep::FindProgram, AttachStep::ProgramType, AttachStep::Load, AttachStep::Attach];
    assert_eq!(attach_outcome(false, None), Ok(false));
    assert_eq!(attach_outcome(true, None), Ok(true));
    for step in steps {
        assert_eq!(attach_outcome(false, Some(step)), Ok(false));
        assert_eq!(attach_outcome(true, Some(step)), Err(AttachError { step }));
    }
}

#[test]
fn probe_status_sums_up_its_attachments() {
    let load = AttachError { step: AttachStep::Load };
    let attach = AttachError { step: AttachStep::Attach };
    assert_eq!(probe_status(&[]), ProbeStatus::Skipped);
    assert_eq!(probe_status(&[Ok(false)]), ProbeStatus::Skipped);
    assert_eq!(probe_status(&[Ok(false), Ok(false)]), ProbeStatus::Skipped);
    assert_eq!(probe_status(&[Ok(true)]), ProbeStatus::Active);
    assert_eq!(probe_status(&[Ok(true), Ok(true)]), ProbeStatus::Active);
    assert_eq!(probe_status(&[Ok(false), Ok(true)]), ProbeStatus::Skipped);
    assert_eq!(probe_status(&[Ok(true), Ok(false)]), ProbeStatus::Skipped);
    assert_eq!(probe_status(&[Ok(true), Err(load)]), ProbeStatus::Failed(load));
    assert_eq!(probe_status(&[Err(attach), Err(load)]), ProbeStatus::Failed(attach));
    assert_eq!(probe_status(&[Ok(false), Err(load), Ok(true)]), ProbeStatus::Failed(load));
    assert!(spawns_consumer(ProbeStatus::Active));
    assert!(!spawns_consumer(ProbeStatus::Skipped));
    assert!(!spawns_consumer(ProbeStatus::Failed(load)));
}

#[test]
fn absent_tracepoint_leaves_the_probe_without_a_consumer() {
    for outcomes in [vec![Ok(false), Ok(true)], vec![Ok(true), Ok(false)], vec![Ok(false)]] {
        let status = probe_status(&outcomes);
        assert_eq!(status, ProbeStatus::Skipped);
        assert!(!spawns_consumer(status));
    }
    assert!(spawns_consumer(probe_status(&[Ok(true), Ok(true)])));
}

#[test]
fn attachments_stop_at_the_first_error() {
    let load = AttachError { step: AttachStep::Load };
    assert_eq!(next_attachment(&[], 0), None);
    assert_eq!(next_attachment(&[], 2), Some(0));
    assert_eq!(next_attachment(&[Ok(true)], 2), Some(1));
    assert_eq!(next_attachment(&[Ok(false)], 2), Some(1));
    assert_eq!(next_attachment(&[Ok(true), Ok(true)], 2), None);
    assert_eq!(next_attachment(&[Err(load)], 2), None);
    assert_eq!(next_attachment(&[Ok(true), Err(load)], 3), None);
    assert_eq!(next_attachment(&[Ok(true)], 1), None);
    assert_eq!(next_attachment(&[Ok(true), Ok(false)], 1), None);
}

#[test]
fn attaching_ends_with_the_first_failed_probe() {
    let load = AttachError { step: AttachStep::Load };
    let find = AttachError { step: AttachStep::FindProgram };
    assert_eq!(engine_outcome(&[]), None);
    assert_eq!(engine_outcome(&[ProbeStatus::Active, ProbeStatus::Skipped]), None);
    assert_eq!(engine_outcome(&[ProbeStatus::Failed(load)]), Some(load));
    assert_eq!(
        engine_outcome(&[ProbeStatus::Active, ProbeStatus::Failed(find), ProbeStatus::Failed(load)]),
        Some(find)
    );
    assert_eq!(
        engine_outcome(&[ProbeStatus::Skipped, ProbeStatus::Failed(load), ProbeStatus::Active]),
        Some(load)
    );
}
