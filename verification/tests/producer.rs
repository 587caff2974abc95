use honeybeepf::context::{SockaddrIn, TaskInfo, TraceContext};
use honeybeepf::producer::{
    connect_target, BlockIoDone, BlockIoStart, EmitStatus, HoneyBeeEvent, READ_FAILED,
};
use honeybeepf::schema::{BlockIoEvent, ConnectionEvent, EventMetadata, AF_INET};

const USER_ADDR: u64 = 0x7ffd_1000;

fn task() -> TaskInfo {
    TaskInfo { pid_tgid: (4321u64 << 32) | 4400, cgroup_id: 55, ktime_ns: 1_000_000_007 }
}

fn connect_record(ptr: u64) -> Vec<u8> {
    let mut record = vec![0u8; 24];
    record.extend_from_slice(&ptr.to_le_bytes());
    record.extend_from_slice(&16u64.to_le_bytes());
    record
}

fn sockaddr_in(port: u16, ip: [u8; 4]) -> Vec<u8> {
    let mut bytes = Vec::new();
    bytes.extend_from_slice(&2u16.to_le_bytes());
    bytes.extend_from_slice(&port.to_be_bytes());
    bytes.extend_from_slice(&ip);
    bytes.extend_from_slice(&[0u8; 8]);
    bytes
}

fn block_record() -> Vec<u8> {
    let mut record = vec![0u8; 8];
    record.extend_from_slice(&((8u32 << 20) | 1).to_le_bytes());
    record.extend_from_slice(&[0u8; 4]);
    record.extend_from_slice(&2048u64.to_le_bytes());
    record.extend_from_slice(&8u32.to_le_bytes());
    record.extend_from_slice(&4096u32.to_le_bytes());
    record.extend_from_slice(b"WS\0\0\0\0\0\0");
    record.extend_from_slice(b"postgres\0\0\0\0\0\0\0\0");
    record.extend_from_slice(&[0u8; 8]);
    record
}

fn garbage_connection() -> ConnectionEvent {
    ConnectionEvent {
        metadata: EventMetadata { pid: 9, _pad: 0xabcd, cgroup_id: 9, timestamp: 9 },
        dest_addr: 0xdead_beef,
        dest_port: 0xbeef,
        address_family: 0x7777,
    }
}

#[test]
fn status_codes() {
    assert_eq!(EmitStatus::Success.code(), 0);
    assert_eq!(EmitStatus::Failure.code(), 1);
    assert_eq!(READ_FAILED, 1);
}

#[test]
fn context_reads() {
    let record = connect_record(USER_ADDR);
    let user = sockaddr_in(443, [93, 184, 216, 34]);
    let ctx = TraceContext { task: task(), record: &record, user_addr: USER_ADDR, user: &user };
    assert_eq!(ctx.read_at_u64(24), Some(USER_ADDR));
    assert_eq!(ctx.read_at_u64(32), Some(16));
    assert_eq!(ctx.read_at_u64(33), None);
    assert_eq!(ctx.read_at_u32(36), Some(0));
    assert_eq!(ctx.read_at_u32(37), None);
    assert_eq!(ctx.read_user_u16(USER_ADDR), Some(2));
    assert_eq!(ctx.read_user_u16(USER_ADDR + 2), Some(443u16.to_be()));
    assert_eq!(ctx.read_user_u16(USER_ADDR + 14), Some(0));
    assert_eq!(ctx.read_user_u16(USER_ADDR + 15), None);
    assert_eq!(ctx.read_user_u16(USER_ADDR - 1), None);
    assert_eq!(ctx.read_user_u16(0), None);
    assert_eq!(ctx.read_user_u16(u64::MAX), None);
    assert_eq!(
        ctx.read_user_sockaddr(USER_ADDR),
        Some(SockaddrIn {
            sin_family: 2,
            sin_port: 443u16.to_be(),
            sin_addr: u32::from_ne_bytes([93, 184, 216, 34]),
            sin_zero: [0; 8],
        })
    );
    assert_eq!(ctx.read_user_sockaddr(USER_ADDR + 1), None);
    assert_eq!(ctx.read_user_sockaddr(USER_ADDR - 1), None);
}

#[test]
fn connection_fill_reads_an_ipv4_destination() {
    let record = connect_record(USER_ADDR);
    let user = sockaddr_in(443, [93, 184, 216, 34]);
    let ctx = TraceContext { task: task(), record: &record, user_addr: USER_ADDR, user: &user };
    let mut event = garbage_connection();
    assert_eq!(event.fill(&ctx), Ok(()));
    assert_eq!(
        event,
        ConnectionEvent {
            metadata: EventMetadata {
                pid: 4321,
                _pad: 0xabcd,
                cgroup_id: 55,
                timestamp: 1_000_000_007,
            },
            dest_addr: u32::from_ne_bytes([93, 184, 216, 34]),
            dest_port: 443u16.to_be(),
            address_family: AF_INET,
        }
    );
    assert_eq!(connect_target(&ctx), Ok((USER_ADDR, 2)));
}

#[test]
fn non_ipv4_passthrough() {
    let record = connect_record(USER_ADDR);
    let mut user = vec![0u8; 28];
    user[..2].copy_from_slice(&10u16.to_le_bytes());
    user[2..].fill(0xee);
    let ctx = TraceContext { task: task(), record: &record, user_addr: USER_ADDR, user: &user };
    let mut event = garbage_connection();
    assert_eq!(event.fill(&ctx), Ok(()));
    assert_eq!(event.address_family, 10);
    assert_eq!(event.dest_addr, 0);
    assert_eq!(event.dest_port, 0);
    assert_eq!(event.metadata.pid, 4321);

    let short = 1u16.to_le_bytes();
    let unix = TraceContext { task: task(), record: &record, user_addr: USER_ADDR, user: &short };
    let mut event = garbage_connection();
    assert_eq!(event.fill(&unix), Ok(()));
    assert_eq!(event.address_family, 1);
    assert_eq!(event.dest_addr, 0);
    assert_eq!(event.dest_port, 0);
}

#[test]
fn connection_fill_fails_on_unreadable_fields() {
    let user = sockaddr_in(80, [10, 0, 0, 1]);

    let short_record = vec![0u8; 31];
    let ctx =
        TraceContext { task: task(), record: &short_record, user_addr: USER_ADDR, user: &user };
    let mut event = garbage_connection();
    assert_eq!(event.fill(&ctx), Err(1));
    assert_eq!(event.metadata.pid, 4321);
    assert_eq!(event.metadata.cgroup_id, 55);
    assert_eq!(event.metadata.timestamp, 1_000_000_007);
    assert_eq!(event.address_family, 0x7777);
    assert_eq!(connect_target(&ctx), Err(1));

    let null = connect_record(0);
    let ctx = TraceContext { task: task(), record: &null, user_addr: 0, user: &user };
    let mut event = garbage_connection();
    assert_eq!(event.fill(&ctx), Err(1));
    assert_eq!(event.dest_addr, 0xdead_beef);

    let record = connect_record(USER_ADDR);
    let ctx = TraceContext { task: task(), record: &record, user_addr: USER_ADDR, user: &[] };
    let mut event = garbage_connection();
    assert_eq!(event.fill(&ctx), Err(1));
    assert_eq!(event.address_family, 0x7777);

    let ctx =
        TraceContext { task: task(), record: &record, user_addr: USER_ADDR, user: &user[..15] };
    let mut event = garbage_connection();
    assert_eq!(event.fill(&ctx), Err(1));
    assert_eq!(event.address_family, AF_INET);
    assert_eq!(event.dest_addr, 0);
    assert_eq!(event.dest_port, 0);
}

#[test]
fn block_io_fill_copies_the_request() {
    let record = block_record();
    let ctx = TraceContext { task: task(), record: &record, user_addr: 0, user: &[] };
    let mut event = BlockIoEvent::blank();
    event.event_type = 7;
    assert_eq!(event.fill(&ctx), Ok(()));
    assert_eq!(event.metadata.pid, 4321);
    assert_eq!(event.metadata.cgroup_id, 55);
    assert_eq!(event.metadata.timestamp, 1_000_000_007);
    assert_eq!(event.dev, (8 << 20) | 1);
    assert_eq!(event.sector, 2048);
    assert_eq!(event.nr_sector, 8);
    assert_eq!(event.bytes, 4096);
    assert_eq!(&event.rwbs, b"WS\0\0\0\0\0\0");
    assert_eq!(&event.comm, b"postgres\0\0\0\0\0\0\0\0");
    assert_eq!(event.event_type, 0);
}

#[test]
fn block_io_start_and_done_set_their_tag() {
    let record = block_record();
    let ctx = TraceContext { task: task(), record: &record, user_addr: 0, user: &[] };
    let mut start = BlockIoStart::blank();
    assert_eq!(start.fill(&ctx), Ok(()));
    assert_eq!(start.0.event_type, 1);
    assert_eq!(start.0.sector, 2048);
    let mut done = BlockIoDone::blank();
    assert_eq!(done.fill(&ctx), Ok(()));
    assert_eq!(done.0.event_type, 2);
    assert_eq!(done.0.dev, start.0.dev);
    assert_eq!(done.metadata(), start.metadata());
}

#[test]
fn block_io_fill_stops_at_the_first_unreadable_field() {
    let record = block_record();
    let cuts = [(11, 0u32, 0u64), (23, (8 << 20) | 1, 0), (27, (8 << 20) | 1, 2048)];
    for (len, dev, sector) in cuts {
        let ctx = TraceContext { task: task(), record: &record[..len], user_addr: 0, user: &[] };
        let mut event = BlockIoStart::blank();
        assert_eq!(event.fill(&ctx), Err(1));
        assert_eq!(event.0.metadata.pid, 4321);
        assert_eq!(event.0.dev, dev);
        assert_eq!(event.0.sector, sector);
        assert_eq!(event.0.nr_sector, 0);
        assert_eq!(event.0.event_type, 0);
    }
    for len in [31, 39, 55] {
        let ctx = TraceContext { task: task(), record: &record[..len], user_addr: 0, user: &[] };
        let mut event = BlockIoDone::blank();
        assert_eq!(event.fill(&ctx), Err(1));
        assert_eq!(event.0.event_type, 0);
        assert_eq!(event.0.comm, [0u8; 16]);
    }
    let ctx = TraceContext { task: task(), record: &record[..56], user_addr: 0, user: &[] };
    let mut event = BlockIoDone::blank();
    assert_eq!(event.fill(&ctx), Ok(()));
}

#[test]
fn init_base_leaves_the_padding() {
    let mut event = garbage_connection();
    event.init_base(&task());
    assert_eq!(
        event.metadata,
        EventMetadata { pid: 4321, _pad: 0xabcd, cgroup_id: 55, timestamp: 1_000_000_007 }
    );
    assert_eq!(event.dest_addr, 0xdead_beef);
    let big = TaskInfo { pid_tgid: u64::MAX, cgroup_id: u64::MAX, ktime_ns: 0 };
    event.init_base(&big);
    assert_eq!(event.metadata.pid, u32::MAX);
    assert_eq!(event.metadata.timestamp, 0);
}
