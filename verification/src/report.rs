//! What the consumer derives from a drained record before it hands the event
//! to logging and metrics: labels, device names, addresses in host order.

use crate::schema::{BlockIoEvent, BlockIoEventType, ConnectionEvent, GpuOpenEvent};
use crate::text::{buffer_text, decimal, has_prefix, spec_buffer_text, starts_with, u64_to_decimal};
use vstd::prelude::*;
use vstd::string::*;

verus! {

/// Major number of a device: the bits above the low twenty.
pub open spec fn spec_major(dev: u32) -> u32 {
    dev >> 20
}

/// Minor number of a device: the low twenty bits.
pub open spec fn spec_minor(dev: u32) -> u32 {
    dev & 0xFFFFF
}

/// The device number that packs `major` and `minor`.
pub open spec fn spec_make_dev(major: u32, minor: u32) -> u32 {
    (major << 20) | minor
}

/// Packing a major below 4096 and a minor below 2^20 and taking the number
/// apart again gives both back.
pub proof fn lemma_device_decomposition(major: u32, minor: u32)
    requires
        major < 0x1000,
        minor < 0x100000,
    ensures
        spec_major(spec_make_dev(major, minor)) == major,
        spec_minor(spec_make_dev(major, minor)) == minor,
{
    assert(((major << 20) | minor) >> 20 == major) by (bit_vector)
        requires
            major < 0x1000,
            minor < 0x100000,
    ;
    assert(((major << 20) | minor) & 0xFFFFF == minor) by (bit_vector)
        requires
            major < 0x1000,
            minor < 0x100000,
    ;
}

/// The name `major:minor` of a device, both in decimal.
pub open spec fn spec_device_name(dev: u32) -> Seq<char> {
    decimal(spec_major(dev) as nat) + seq![':'] + decimal(spec_minor(dev) as nat)
}

/// Names a device as `major:minor`.
pub fn device_name(dev: u32) -> (s: String)
    ensures
        s@ == spec_device_name(dev),
{
    let major: u32 = dev >> 20;
    let minor: u32 = dev & 0xFFFFF;
    let minor_text = u64_to_decimal(minor as u64);
    proof {
        reveal_strlit(":");
        assert(":"@ =~= seq![':']);
    }
    u64_to_decimal(major as u64).concat(":").concat(minor_text.as_str())
}

/// The label of a phase as it appears in logs and metric attributes.
pub open spec fn spec_type_label(t: BlockIoEventType) -> Seq<char> {
    match t {
        BlockIoEventType::Start => "START"@,
        BlockIoEventType::Done => "DONE"@,
        BlockIoEventType::Unknown => "UNKNOWN"@,
    }
}

/// Labels a phase.
pub fn type_label(t: BlockIoEventType) -> (s: &'static str)
    ensures
        s@ == spec_type_label(t),
{
    match t {
        BlockIoEventType::Start => "START",
        BlockIoEventType::Done => "DONE",
        BlockIoEventType::Unknown => "UNKNOWN",
    }
}

/// A block I/O event as the handler sees it.
#[derive(Clone, Debug, PartialEq, Eq)]
pub struct BlockIoReport {
    pub kind: BlockIoEventType,
    pub type_str: String,
    pub pid: u32,
    pub device: String,
    pub sector: u64,
    pub nr_sector: u32,
    pub bytes: u32,
    pub rwbs: String,
    pub comm: String,
}

/// Derives the report of a block I/O event. A tag that names no phase reads
/// as `Unknown`; a buffer that is not UTF-8 reads as `<invalid>`.
pub fn describe_block_io(event: &BlockIoEvent) -> (r: BlockIoReport)
    ensures
        r.kind == BlockIoEventType::spec_from_tag(event.event_type),
        r.type_str@ == spec_type_label(r.kind),
        r.pid == event.metadata.pid,
        r.device@ == spec_device_name(event.dev),
        r.sector == event.sector,
        r.nr_sector == event.nr_sector,
        r.bytes == event.bytes,
        r.rwbs@ == spec_buffer_text(event.rwbs@, "<invalid>"@),
        r.comm@ == spec_buffer_text(event.comm@, "<invalid>"@),
{
    let kind = BlockIoEventType::from(event.event_type);
    BlockIoReport {
        kind,
        type_str: String::from_str(type_label(kind)),
        pid: event.metadata.pid,
        device: device_name(event.dev),
        sector: event.sector,
        nr_sector: event.nr_sector,
        bytes: event.bytes,
        rwbs: buffer_text(event.rwbs.as_slice(), "<invalid>"),
        comm: buffer_text(event.comm.as_slice(), "<invalid>"),
    }
}

/// The four octets of an IPv4 address held in network byte order, first
/// octet first.
pub open spec fn spec_addr_octets(addr: u32) -> Seq<u8> {
    seq![
        (addr & 0xff) as u8,
        ((addr >> 8) & 0xff) as u8,
        ((addr >> 16) & 0xff) as u8,
        (addr >> 24) as u8,
    ]
}

/// The network-order word of the address `a.b.c.d`.
pub open spec fn spec_network_addr(a: u8, b: u8, c: u8, d: u8) -> u32 {
    (a as u32) | ((b as u32) << 8) | ((c as u32) << 16) | ((d as u32) << 24)
}

/// A 16-bit word with its two bytes exchanged: the step between host order
/// and network order, in either direction.
pub open spec fn spec_swap_port(p: u16) -> u16 {
    (p >> 8) | ((p & 0xff) << 8)
}

/// Dotted-quad text of four octets.
pub open spec fn spec_dotted_quad(o: Seq<u8>) -> Seq<char>
    recommends
        o.len() == 4,
{
    decimal(o[0] as nat) + seq!['.'] + decimal(o[1] as nat) + seq!['.'] + decimal(o[2] as nat)
        + seq!['.'] + decimal(o[3] as nat)
}

/// The text `a.b.c.d:port` of a destination given in network byte order.
pub open spec fn spec_endpoint(addr: u32, port: u16) -> Seq<char> {
    spec_dotted_quad(spec_addr_octets(addr)) + seq![':'] + decimal(spec_swap_port(port) as nat)
}

/// Puts the address `a.b.c.d` in network byte order.
pub fn network_addr(a: u8, b: u8, c: u8, d: u8) -> (addr: u32)
    ensures
        addr == spec_network_addr(a, b, c, d),
{
    (a as u32) | ((b as u32) << 8) | ((c as u32) << 16) | ((d as u32) << 24)
}

/// Exchanges the two bytes of a port: host order to network order and back.
pub fn swap_port(p: u16) -> (q: u16)
    ensures
        q == spec_swap_port(p),
{
    (p >> 8) | ((p & 0xff) << 8)
}

/// The octets of an address in network byte order.
pub fn addr_octets(addr: u32) -> (o: [u8; 4])
    ensures
        o@ == spec_addr_octets(addr),
{
    let o = [
        (addr & 0xff) as u8,
        ((addr >> 8) & 0xff) as u8,
        ((addr >> 16) & 0xff) as u8,
        (addr >> 24) as u8,
    ];
    assert(o@ =~= spec_addr_octets(addr));
    o
}

/// An address and a port put in network byte order read back, in host order,
/// as the octets and the port they were made from.
pub proof fn lemma_byte_order_round_trip(a: u8, b: u8, c: u8, d: u8, port: u16)
    ensures
        spec_addr_octets(spec_network_addr(a, b, c, d)) == seq![a, b, c, d],
        spec_swap_port(spec_swap_port(port)) == port,
        spec_endpoint(spec_network_addr(a, b, c, d), spec_swap_port(port)) == spec_dotted_quad(
            seq![a, b, c, d],
        ) + seq![':'] + decimal(port as nat),
{
    let addr = spec_network_addr(a, b, c, d);
    assert((addr & 0xff) as u8 == a && ((addr >> 8) & 0xff) as u8 == b && ((addr >> 16)
        & 0xff) as u8 == c && (addr >> 24) as u8 == d) by (bit_vector)
        requires
            addr == (a as u32) | ((b as u32) << 8) | ((c as u32) << 16) | ((d as u32) << 24),
    ;
    assert(spec_addr_octets(addr) =~= seq![a, b, c, d]);
    let q = spec_swap_port(port);
    assert((q >> 8) | ((q & 0xff) << 8) == port) by (bit_vector)
        requires
            q == (port >> 8) | ((port & 0xff) << 8),
    ;
}

/// Writes four octets as a dotted quad.
pub fn dotted_quad(o: &[u8; 4]) -> (s: String)
    ensures
        s@ == spec_dotted_quad(o@),
{
    proof {
        reveal_strlit(".");
        assert("."@ =~= seq!['.']);
    }
    let t1 = u64_to_decimal(o[1] as u64);
    let t2 = u64_to_decimal(o[2] as u64);
    let t3 = u64_to_decimal(o[3] as u64);
    u64_to_decimal(o[0] as u64).concat(".").concat(t1.as_str()).concat(".").concat(
        t2.as_str(),
    ).concat(".").concat(t3.as_str())
}

/// A connection attempt as the handler sees it, with the destination in
/// host order.
#[derive(Clone, Debug, PartialEq, Eq)]
pub struct ConnectionReport {
    pub pid: u32,
    pub dest_ip: [u8; 4],
    pub dest_port: u16,
    /// The destination as `a.b.c.d:port`.
    pub endpoint: String,
    pub address_family: u16,
    pub cgroup_id: u64,
    pub timestamp: u64,
}

/// Derives the report of a connection attempt: the byte order of address and
/// port is changed here, at the point of display, and nowhere before.
pub fn describe_connection(event: &ConnectionEvent) -> (r: ConnectionReport)
    ensures
        r.pid == event.metadata.pid,
        r.dest_ip@ == spec_addr_octets(event.dest_addr),
        r.dest_port == spec_swap_port(event.dest_port),
        r.endpoint@ == spec_endpoint(event.dest_addr, event.dest_port),
        r.address_family == event.address_family,
        r.cgroup_id == event.metadata.cgroup_id,
        r.timestamp == event.metadata.timestamp,
{
    let dest_ip = addr_octets(event.dest_addr);
    let dest_port = swap_port(event.dest_port);
    let port_text = u64_to_decimal(dest_port as u64);
    proof {
        reveal_strlit(":");
        assert(":"@ =~= seq![':']);
    }
    let endpoint = dotted_quad(&dest_ip).concat(":").concat(port_text.as_str());
    ConnectionReport {
        pid: event.metadata.pid,
        dest_ip,
        dest_port,
        endpoint,
        address_family: event.address_family,
        cgroup_id: event.metadata.cgroup_id,
        timestamp: event.metadata.timestamp,
    }
}

/// Family of device that an opened path belongs to.
#[derive(Clone, Copy, Debug, PartialEq, Eq)]
pub enum GpuKind {
    Nvidia,
    Dri,
    Unknown,
}

/// The family of a path: NVIDIA below `/dev/nvidia`, DRI below `/dev/dri/`.
pub open spec fn spec_gpu_kind(filename: Seq<char>) -> GpuKind {
    if has_prefix(filename, "/dev/nvidia"@) {
        GpuKind::Nvidia
    } else if has_prefix(filename, "/dev/dri/"@) {
        GpuKind::Dri
    } else {
        GpuKind::Unknown
    }
}

/// The label of a device family.
pub open spec fn spec_gpu_label(kind: GpuKind) -> Seq<char> {
    match kind {
        GpuKind::Nvidia => "NVIDIA"@,
        GpuKind::Dri => "DRI"@,
        GpuKind::Unknown => "Unknown"@,
    }
}

/// Classifies an opened path by its prefix.
pub fn classify_gpu(filename: &str) -> (kind: GpuKind)
    ensures
        kind == spec_gpu_kind(filename@),
{
    if starts_with(filename, "/dev/nvidia") {
        GpuKind::Nvidia
    } else if starts_with(filename, "/dev/dri/") {
        GpuKind::Dri
    } else {
        GpuKind::Unknown
    }
}

/// Labels a device family.
pub fn gpu_label(kind: GpuKind) -> (s: &'static str)
    ensures
        s@ == spec_gpu_label(kind),
{
    match kind {
        GpuKind::Nvidia => "NVIDIA",
        GpuKind::Dri => "DRI",
        GpuKind::Unknown => "Unknown",
    }
}

/// A device open as the handler sees it.
#[derive(Clone, Debug, PartialEq, Eq)]
pub struct GpuOpenReport {
    pub pid: u32,
    /// Name of the process; `None` where the probe captured none and the
    /// name has to be looked up by pid.
    pub comm: Option<String>,
    pub gpu_index: i32,
    pub kind: GpuKind,
    pub gpu_type: String,
    pub filename: String,
    pub cgroup_id: u64,
}

/// The process name a record carries, if it carries one.
pub open spec fn spec_captured_comm(comm: Seq<u8>) -> Option<Seq<char>> {
    let text = spec_buffer_text(comm, Seq::empty());
    if text.len() == 0 {
        None
    } else {
        Some(text)
    }
}

/// Derives the report of a device open. A path that is not UTF-8 reads as
/// `<invalid>`; a process name that is empty or not UTF-8 is left open.
pub fn describe_gpu_open(event: &GpuOpenEvent) -> (r: GpuOpenReport)
    ensures
        r.pid == event.metadata.pid,
        r.cgroup_id == event.metadata.cgroup_id,
        r.gpu_index == event.gpu_index,
        r.filename@ == spec_buffer_text(event.filename@, "<invalid>"@),
        r.kind == spec_gpu_kind(r.filename@),
        r.gpu_type@ == spec_gpu_label(r.kind),
        match spec_captured_comm(event.comm@) {
            Some(text) => r.comm is Some && r.comm.unwrap()@ == text,
            None => r.comm is None,
        },
{
    proof {
        reveal_strlit("");
        assert(""@ =~= Seq::<char>::empty());
    }
    let captured = buffer_text(event.comm.as_slice(), "");
    let comm = if captured.as_str().unicode_len() == 0 {
        None
    } else {
        Some(captured)
    };
    let filename = buffer_text(event.filename.as_slice(), "<invalid>");
    let kind = classify_gpu(filename.as_str());
    GpuOpenReport {
        pid: event.metadata.pid,
        comm,
        gpu_index: event.gpu_index,
        kind,
        gpu_type: String::from_str(gpu_label(kind)),
        filename,
        cgroup_id: event.metadata.cgroup_id,
    }
}

/// Completes a report with a process name found by pid; a name that the
/// probe captured stays.
pub fn with_process_name(report: GpuOpenReport, name: String) -> (r: GpuOpenReport)
    ensures
        r.comm is Some,
        report.comm is Some ==> r == report,
        report.comm is None ==> r == (GpuOpenReport { comm: Some(name), ..report }),
{
    if report.comm.is_some() {
        report
    } else {
        GpuOpenReport { comm: Some(name), ..report }
    }
}

} // verus!
