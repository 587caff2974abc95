//! The options that decide which probes run, and the record that carries
//! them to the probe side.

use crate::schema::CommonConfig;
use vstd::prelude::*;

verus! {

/// Poll interval in seconds where none is configured.
pub const DEFAULT_PROBE_INTERVAL_SECONDS: u32 = 60;

/// Switches of the built-in probes. An option that is not set counts as off.
#[derive(Clone, Debug, PartialEq, Eq)]
pub struct BuiltinProbes {
    pub block_io: Option<bool>,
    pub network_latency: Option<bool>,
    pub gpu_open: Option<bool>,
    pub interval: Option<u32>,
}

/// Everything that is read once at startup.
#[derive(Clone, Debug, PartialEq, Eq)]
pub struct Settings {
    pub otel_exporter_otlp_endpoint: Option<String>,
    pub otel_exporter_otlp_protocol: Option<String>,
    pub builtin_probes: BuiltinProbes,
    pub custom_probe_config: Option<String>,
}

/// A switch as it is meant: off unless set to on.
pub open spec fn spec_enabled(switch: Option<bool>) -> bool {
    switch == Some(true)
}

/// A switch as the flag byte that the probe side reads.
pub open spec fn spec_flag(switch: Option<bool>) -> u8 {
    if spec_enabled(switch) {
        1
    } else {
        0
    }
}

/// Reads a switch: off unless set to on.
pub fn enabled(switch: Option<bool>) -> (on: bool)
    ensures
        on == spec_enabled(switch),
{
    match switch {
        Some(on) => on,
        None => false,
    }
}

impl BuiltinProbes {
    /// The poll interval: the configured one, or the default.
    pub open spec fn spec_interval(self) -> u32 {
        match self.interval {
            Some(seconds) => seconds,
            None => DEFAULT_PROBE_INTERVAL_SECONDS,
        }
    }
}

impl Settings {
    /// The record for the probe side: a flag byte per probe and the interval.
    pub open spec fn spec_common_config(self) -> CommonConfig {
        CommonConfig {
            probe_block_io: spec_flag(self.builtin_probes.block_io),
            probe_network_latency: spec_flag(self.builtin_probes.network_latency),
            probe_interval: self.builtin_probes.spec_interval(),
        }
    }

    /// Packs the switches and the interval for the probe side.
    pub fn to_common_config(&self) -> (c: CommonConfig)
        ensures
            c == self.spec_common_config(),
    {
        let probe_block_io: u8 = if enabled(self.builtin_probes.block_io) {
            1
        } else {
            0
        };
        let probe_network_latency: u8 = if enabled(self.builtin_probes.network_latency) {
            1
        } else {
            0
        };
        let probe_interval: u32 = match self.builtin_probes.interval {
            Some(seconds) => seconds,
            None => DEFAULT_PROBE_INTERVAL_SECONDS,
        };
        CommonConfig { probe_block_io, probe_network_latency, probe_interval }
    }
}

} // verus!
