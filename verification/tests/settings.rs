use honeybeepf::settings::{BuiltinProbes, Settings, DEFAULT_PROBE_INTERVAL_SECONDS};

#[test]
fn test_to_common_config() {
    let settings = Settings {
        otel_exporter_otlp_endpoint: None,
        otel_exporter_otlp_protocol: None,
        builtin_probes: BuiltinProbes {
            block_io: Some(true),
            network_latency: None,
            gpu_open: None,
            interval: None,
        },
        custom_probe_config: None,
    };

    let common = settings.to_common_config();

    assert_eq!(common.probe_block_io, 1);
    assert_eq!(common.probe_network_latency, 0);
    assert_eq!(common.probe_interval, DEFAULT_PROBE_INTERVAL_SECONDS);
}
