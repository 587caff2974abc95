use honeybeepf::report::{
    addr_octets, classify_gpu, describe_block_io, describe_connection, describe_gpu_open,
    device_name, dotted_quad, gpu_label, network_addr, swap_port, type_label, with_process_name,
    GpuKind,
};
use honeybeepf::schema::{
    BlockIoEvent, BlockIoEventType, ConnectionEvent, EventMetadata, GpuOpenEvent,
};

fn metadata(pid: u32) -> EventMetadata {
    EventMetadata { pid, _pad: 0, cgroup_id: 77, timestamp: 123_456 }
}

fn block_event(event_type: u8) -> BlockIoEvent {
    let mut rwbs = [0u8; 8];
    rwbs[..2].copy_from_slice(b"WS");
    let mut comm = [0u8; 16];
    comm[..4].copy_from_slice(b"fsck");
    BlockIoEvent {
        metadata: metadata(4242),
        dev: (8 << 20) | 1,
        sector: 2048,
        nr_sector: 8,
        bytes: 4096,
        rwbs,
        comm,
        event_type,
    }
}

fn gpu_event(filename: &[u8], comm: &[u8]) -> GpuOpenEvent {
    let mut f = [0u8; 64];
    f[..filename.len()].copy_from_slice(filename);
    let mut c = [0u8; 16];
    c[..comm.len()].copy_from_slice(comm);
    GpuOpenEvent { metadata: metadata(31), filename: f, comm: c, gpu_index: 2 }
}

#[test]
fn device_decomposition() {
    assert_eq!(device_name((8 << 20) | 1), "8:1");
    assert_eq!(device_name(0), "0:0");
    assert_eq!(device_name((259 << 20) | 7), "259:7");
    assert_eq!(device_name(u32::MAX), "4095:1048575");
    assert_eq!(device_name(0xFFFFF), "0:1048575");
    assert_eq!(device_name(1 << 20), "1:0");
}

#[test]
fn type_labels() {
    assert_eq!(type_label(BlockIoEventType::Start), "START");
    assert_eq!(type_label(BlockIoEventType::Done), "DONE");
    assert_eq!(type_label(BlockIoEventType::Unknown), "UNKNOWN");
}

#[test]
fn block_io_report_carries_the_fields() {
    let report = describe_block_io(&block_event(1));
    assert_eq!(report.kind, BlockIoEventType::Start);
    assert_eq!(report.type_str, "START");
    assert_eq!(report.pid, 4242);
    assert_eq!(report.device, "8:1");
    assert_eq!(report.sector, 2048);
    assert_eq!(report.nr_sector, 8);
    assert_eq!(report.bytes, 4096);
    assert_eq!(report.rwbs, "WS");
    assert_eq!(report.comm, "fsck");
    assert_eq!(describe_block_io(&block_event(2)).type_str, "DONE");
}

#[test]
fn unknown_event_type_is_no_error() {
    let report = describe_block_io(&block_event(99));
    assert_eq!(report.kind, BlockIoEventType::Unknown);
    assert_eq!(report.type_str, "UNKNOWN");
    assert_eq!(report.device, "8:1");
    assert_eq!(describe_block_io(&block_event(0)).type_str, "UNKNOWN");
    assert_eq!(describe_block_io(&block_event(255)).type_str, "UNKNOWN");
}

#[test]
fn block_io_buffers_that_are_not_utf8_read_as_invalid() {
    let mut event = block_event(1);
    event.rwbs = [0xff; 8];
    event.comm[0] = 0x80;
    let report = describe_block_io(&event);
    assert_eq!(report.rwbs, "<invalid>");
    assert_eq!(report.comm, "<invalid>");
}

#[test]
fn byte_order_round_trip() {
    let event = ConnectionEvent {
        metadata: metadata(900),
        dest_addr: u32::from_ne_bytes([93, 184, 216, 34]),
        dest_port: 443u16.to_be(),
        address_family: 2,
    };
    let report = describe_connection(&event);
    assert_eq!(report.endpoint, "93.184.216.34:443");
    assert_eq!(report.dest_ip, [93, 184, 216, 34]);
    assert_eq!(report.dest_port, 443);
    assert_eq!(report.pid, 900);
    assert_eq!(report.cgroup_id, 77);
    assert_eq!(report.timestamp, 123_456);
    assert_eq!(report.address_family, 2);
}

#[test]
fn network_order_helpers_agree_with_std() {
    for octets in [[0u8, 0, 0, 0], [127, 0, 0, 1], [10, 20, 30, 40], [255, 255, 255, 255]] {
        let addr = network_addr(octets[0], octets[1], octets[2], octets[3]);
        assert_eq!(addr, u32::from_be_bytes(octets).to_be());
        assert_eq!(addr_octets(addr), octets);
        assert_eq!(
            dotted_quad(&octets),
            format!("{}.{}.{}.{}", octets[0], octets[1], octets[2], octets[3])
        );
    }
    for port in [0u16, 1, 80, 443, 8080, 65535] {
        assert_eq!(swap_port(port), port.to_be());
        assert_eq!(swap_port(swap_port(port)), port);
        assert_eq!(swap_port(port.to_be()), u16::from_be(port.to_be()));
    }
    assert_eq!(swap_port(0x1234), 0x3412);
    assert_eq!(network_addr(1, 2, 3, 4), 0x0403_0201);
}

#[test]
fn zeroed_destination_displays_as_zero() {
    let event = ConnectionEvent {
        metadata: metadata(1),
        dest_addr: 0,
        dest_port: 0,
        address_family: 10,
    };
    let report = describe_connection(&event);
    assert_eq!(report.endpoint, "0.0.0.0:0");
    assert_eq!(report.address_family, 10);
}

#[test]
fn gpu_paths_are_classified_by_prefix() {
    assert_eq!(classify_gpu("/dev/nvidia0"), GpuKind::Nvidia);
    assert_eq!(classify_gpu("/dev/nvidiactl"), GpuKind::Nvidia);
    assert_eq!(classify_gpu("/dev/nvidia-uvm"), GpuKind::Nvidia);
    assert_eq!(classify_gpu("/dev/dri/card0"), GpuKind::Dri);
    assert_eq!(classify_gpu("/dev/dri/renderD128"), GpuKind::Dri);
    assert_eq!(classify_gpu("/dev/dri"), GpuKind::Unknown);
    assert_eq!(classify_gpu("/dev/null"), GpuKind::Unknown);
    assert_eq!(classify_gpu(""), GpuKind::Unknown);
    assert_eq!(gpu_label(GpuKind::Nvidia), "NVIDIA");
    assert_eq!(gpu_label(GpuKind::Dri), "DRI");
    assert_eq!(gpu_label(GpuKind::Unknown), "Unknown");
}

#[test]
fn gpu_open_report() {
    let report = describe_gpu_open(&gpu_event(b"/dev/nvidia0", b"python3"));
    assert_eq!(report.pid, 31);
    assert_eq!(report.cgroup_id, 77);
    assert_eq!(report.gpu_index, 2);
    assert_eq!(report.filename, "/dev/nvidia0");
    assert_eq!(report.kind, GpuKind::Nvidia);
    assert_eq!(report.gpu_type, "NVIDIA");
    assert_eq!(report.comm, Some("python3".to_string()));

    let dri = describe_gpu_open(&gpu_event(b"/dev/dri/card1", b"Xorg"));
    assert_eq!(dri.gpu_type, "DRI");
    let other = describe_gpu_open(&gpu_event(b"/etc/passwd", b"cat"));
    assert_eq!(other.gpu_type, "Unknown");
    let invalid = describe_gpu_open(&gpu_event(&[0xff, 0xff], b"cat"));
    assert_eq!(invalid.filename, "<invalid>");
    assert_eq!(invalid.kind, GpuKind::Unknown);
}

#[test]
fn missing_process_name_is_filled_in_by_lookup() {
    let report = describe_gpu_open(&gpu_event(b"/dev/nvidia0", b""));
    assert_eq!(report.comm, None);
    let named = with_process_name(report.clone(), "trainer".to_string());
    assert_eq!(named.comm, Some("trainer".to_string()));
    assert_eq!(named.filename, report.filename);
    assert_eq!(named.pid, report.pid);

    let garbled = describe_gpu_open(&gpu_event(b"/dev/nvidia0", &[0xff, 0xfe]));
    assert_eq!(garbled.comm, None);

    let captured = describe_gpu_open(&gpu_event(b"/dev/nvidia0", b"python3"));
    let kept = with_process_name(captured.clone(), "other".to_string());
    assert_eq!(kept, captured);
}
