//! Fixed-layout event records shared by the probe side and the consumer side.
//!
//! Every record is plain, copyable data with fixed-size buffers in place of
//! strings, so that a probe can fill one in place without allocating.

use vstd::prelude::*;
use vstd::std_specs::convert::FromSpecImpl;

verus! {

/// Address family of IPv4 sockets.
pub const AF_INET: u16 = 2;

/// Header carried by every event.
#[derive(Clone, Copy, Debug, PartialEq, Eq)]
pub struct EventMetadata {
    /// Process id of the task that hit the tracepoint.
    pub pid: u32,
    pub _pad: u32,
    /// Control group of the task at capture time.
    pub cgroup_id: u64,
    /// Monotonic clock at capture time, in nanoseconds.
    pub timestamp: u64,
}

impl Default for EventMetadata {
    fn default() -> (m: Self)
        ensures
            m == (EventMetadata { pid: 0, _pad: 0, cgroup_id: 0, timestamp: 0 }),
    {
        EventMetadata { pid: 0, _pad: 0, cgroup_id: 0, timestamp: 0 }
    }
}

/// An attempt to connect a socket.
#[derive(Clone, Copy, Debug, PartialEq, Eq)]
pub struct ConnectionEvent {
    pub metadata: EventMetadata,
    /// IPv4 destination in network byte order; zero for other families.
    pub dest_addr: u32,
    /// Destination port in network byte order; zero for other families.
    pub dest_port: u16,
    pub address_family: u16,
}

/// Which probes are enabled, and how often they are polled.
#[derive(Clone, Copy, Debug, PartialEq, Eq)]
pub struct CommonConfig {
    pub probe_block_io: u8,
    pub probe_network_latency: u8,
    pub probe_interval: u32,
}

impl Default for CommonConfig {
    fn default() -> (c: Self)
        ensures
            c == (CommonConfig { probe_block_io: 0, probe_network_latency: 0, probe_interval: 0 }),
    {
        CommonConfig { probe_block_io: 0, probe_network_latency: 0, probe_interval: 0 }
    }
}

/// Phase of a block request that an event reports.
#[derive(Clone, Copy, Debug, PartialEq, Eq)]
pub enum BlockIoEventType {
    Unknown,
    Start,
    Done,
}

impl BlockIoEventType {
    /// The tag byte stored in a record.
    pub open spec fn spec_tag(self) -> u8 {
        match self {
            BlockIoEventType::Unknown => 0u8,
            BlockIoEventType::Start => 1u8,
            BlockIoEventType::Done => 2u8,
        }
    }

    /// The phase a tag byte stands for; every unassigned byte is `Unknown`.
    pub open spec fn spec_from_tag(v: u8) -> BlockIoEventType {
        if v == 1 {
            BlockIoEventType::Start
        } else if v == 2 {
            BlockIoEventType::Done
        } else {
            BlockIoEventType::Unknown
        }
    }

    pub fn tag(self) -> (t: u8)
        ensures
            t == self.spec_tag(),
    {
        match self {
            BlockIoEventType::Unknown => 0,
            BlockIoEventType::Start => 1,
            BlockIoEventType::Done => 2,
        }
    }
}

impl From<u8> for BlockIoEventType {
    fn from(v: u8) -> (t: Self) {
        match v {
            1 => BlockIoEventType::Start,
            2 => BlockIoEventType::Done,
            _ => BlockIoEventType::Unknown,
        }
    }
}

impl FromSpecImpl<u8> for BlockIoEventType {
    open spec fn obeys_from_spec() -> bool {
        true
    }

    open spec fn from_spec(v: u8) -> Self {
        BlockIoEventType::spec_from_tag(v)
    }
}

/// A tag survives the trip through its byte.
pub proof fn lemma_tag_round_trip(t: BlockIoEventType)
    ensures
        BlockIoEventType::spec_from_tag(t.spec_tag()) == t,
{
}

/// Start or completion of a block request.
#[derive(Clone, Copy, Debug, PartialEq, Eq)]
pub struct BlockIoEvent {
    pub metadata: EventMetadata,
    /// Device number: major in the bits above the low twenty, minor in those.
    pub dev: u32,
    pub sector: u64,
    pub nr_sector: u32,
    pub bytes: u32,
    /// Request flags as ASCII, padded with NUL.
    pub rwbs: [u8; 8],
    /// Name of the process, padded with NUL.
    pub comm: [u8; 16],
    /// Tag of a `BlockIoEventType`.
    pub event_type: u8,
}

/// Length of the path buffer in a `GpuOpenEvent`.
pub const GPU_FILENAME_LEN: usize = 64;

/// An open of a device file that may belong to a GPU.
#[derive(Clone, Copy, Debug, PartialEq, Eq)]
pub struct GpuOpenEvent {
    pub metadata: EventMetadata,
    /// Path that was opened, padded with NUL.
    pub filename: [u8; 64],
    /// Name of the process, padded with NUL; all NUL where it was not captured.
    pub comm: [u8; 16],
    pub gpu_index: i32,
}

} // verus!
