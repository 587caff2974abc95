//! The probe side: how one firing of a tracepoint becomes at most one record
//! in a ring buffer.
//!
//! A probe reserves a slot, fills it, and then either submits it or discards
//! it. It never blocks, never retries, and never leaves a slot reserved.

use crate::context::{TaskInfo, TraceContext};
use crate::schema::{BlockIoEvent, BlockIoEventType, ConnectionEvent, EventMetadata, AF_INET};
use vstd::prelude::*;

verus! {

/// Status of a probe that read something it could not read.
pub const READ_FAILED: u32 = 1;

/// Offset of the socket address argument in the record of a connect call.
pub const CONNECT_SOCKADDR_OFFSET: usize = 24;

/// Offsets of the fields of a block request in its tracepoint record.
pub const BLOCK_DEV_OFFSET: usize = 8;

pub const BLOCK_SECTOR_OFFSET: usize = 16;

pub const BLOCK_NR_SECTOR_OFFSET: usize = 24;

pub const BLOCK_BYTES_OFFSET: usize = 28;

pub const BLOCK_RWBS_OFFSET: usize = 32;

pub const BLOCK_COMM_OFFSET: usize = 40;

/// Status word a tracepoint program hands back.
#[derive(Clone, Copy, Debug, PartialEq, Eq)]
pub enum EmitStatus {
    Success,
    Failure,
}

impl EmitStatus {
    /// The numeric status: zero for success, one for failure.
    pub open spec fn spec_code(self) -> u32 {
        match self {
            EmitStatus::Success => 0u32,
            EmitStatus::Failure => 1u32,
        }
    }

    pub fn code(self) -> (c: u32)
        ensures
            c == self.spec_code(),
    {
        match self {
            EmitStatus::Success => 0,
            EmitStatus::Failure => 1,
        }
    }
}

/// The process id in a combined thread group and thread id.
pub open spec fn spec_pid(pid_tgid: u64) -> u32 {
    (pid_tgid >> 32) as u32
}

/// A header after the task's identity and the time were written to it. The
/// padding is not touched.
pub open spec fn spec_init_base(m: EventMetadata, task: TaskInfo) -> EventMetadata {
    EventMetadata {
        pid: spec_pid(task.pid_tgid),
        cgroup_id: task.cgroup_id,
        timestamp: task.ktime_ns,
        ..m
    }
}

/// A record that a probe can fill from a tracepoint firing.
pub trait HoneyBeeEvent: Sized {
    /// The record a fresh slot starts as.
    spec fn spec_blank() -> Self;

    /// The header of the record.
    spec fn spec_metadata(self) -> EventMetadata;

    /// The record with its header replaced.
    spec fn spec_with_metadata(self, m: EventMetadata) -> Self;

    /// The record after an attempt to fill it, and how the attempt ended.
    spec fn spec_fill(self, ctx: TraceContext) -> (Self, Result<(), u32>);

    /// The bytes of the record.
    spec fn spec_encode(self) -> Seq<u8>;

    /// A header put into a record is the header of that record.
    proof fn lemma_metadata_replaced(self, m: EventMetadata)
        ensures
            self.spec_with_metadata(m).spec_metadata() == m,
    ;

    fn blank() -> (e: Self)
        ensures
            e == Self::spec_blank(),
    ;

    fn metadata(&self) -> (m: EventMetadata)
        ensures
            m == self.spec_metadata(),
    ;

    fn set_metadata(&mut self, m: EventMetadata)
        ensures
            *final(self) == old(self).spec_with_metadata(m),
    ;

    /// Fills the record from what the firing lets the probe read. The header
    /// comes first and is written on every path; an unreadable field ends
    /// the attempt with an error and leaves the later fields as they were.
    fn fill(&mut self, ctx: &TraceContext) -> (r: Result<(), u32>)
        ensures
            (*final(self), r) == old(self).spec_fill(*ctx),
    ;

    fn encode(&self) -> (v: Vec<u8>)
        ensures
            v@ == self.spec_encode(),
    ;

    /// Writes the identity of the current task and the time to the header;
    /// nothing but the header changes.
    fn init_base(&mut self, task: &TaskInfo)
        ensures
            *final(self) == old(self).spec_with_metadata(
                spec_init_base(old(self).spec_metadata(), *task),
            ),
            final(self).spec_metadata() == spec_init_base(old(self).spec_metadata(), *task),
    {
        proof {
            self.lemma_metadata_replaced(spec_init_base(self.spec_metadata(), *task));
        }
        let m = self.metadata();
        self.set_metadata(
            EventMetadata {
                pid: (task.pid_tgid >> 32) as u32,
                _pad: m._pad,
                cgroup_id: task.cgroup_id,
                timestamp: task.ktime_ns,
            },
        );
    }
}

/// What a connect probe learns before it looks at the address itself: where
/// the socket address lies in user memory, and its family. `None` where the
/// argument cannot be read, is null, or points at unreadable memory.
pub open spec fn spec_connect_target(ctx: TraceContext) -> Option<(u64, u16)> {
    match ctx.spec_read_at_u64(CONNECT_SOCKADDR_OFFSET as int) {
        None => None,
        Some(ptr) => if ptr == 0 {
            None
        } else {
            match ctx.spec_read_user_u16(ptr) {
                None => None,
                Some(family) => Some((ptr, family)),
            }
        },
    }
}

/// Reads where the socket address of a connect call lies, and its family.
pub fn connect_target(ctx: &TraceContext) -> (r: Result<(u64, u16), u32>)
    ensures
        match spec_connect_target(*ctx) {
            Some(target) => r == Ok::<(u64, u16), u32>(target),
            None => r == Err::<(u64, u16), u32>(READ_FAILED),
        },
{
    let ptr = match ctx.read_at_u64(CONNECT_SOCKADDR_OFFSET) {
        Some(ptr) => ptr,
        None => {
            return Err(READ_FAILED);
        },
    };
    if ptr == 0 {
        return Err(READ_FAILED);
    }
    match ctx.read_user_u16(ptr) {
        Some(family) => Ok((ptr, family)),
        None => Err(READ_FAILED),
    }
}

impl ConnectionEvent {
    /// The record after the destination behind `ptr` was entered for a
    /// socket of `family`. Only IPv4 addresses are read; any other family
    /// succeeds with a zeroed destination.
    pub open spec fn spec_with_destination(self, ctx: TraceContext, ptr: u64, family: u16) -> (
        ConnectionEvent,
        Result<(), u32>,
    ) {
        let plain = ConnectionEvent { address_family: family, dest_addr: 0, dest_port: 0, ..self };
        if family != AF_INET {
            (plain, Ok(()))
        } else {
            match ctx.spec_read_user_sockaddr(ptr) {
                None => (plain, Err(READ_FAILED)),
                Some(sa) => (
                    ConnectionEvent { dest_port: sa.sin_port, dest_addr: sa.sin_addr, ..plain },
                    Ok(()),
                ),
            }
        }
    }

    /// Enters family and destination of the socket address at `ptr`.
    pub fn set_destination(&mut self, ctx: &TraceContext, ptr: u64, family: u16) -> (r: Result<
        (),
        u32,
    >)
        ensures
            (*final(self), r) == old(self).spec_with_destination(*ctx, ptr, family),
    {
        self.address_family = family;
        self.dest_addr = 0;
        self.dest_port = 0;
        if family == AF_INET {
            match ctx.read_user_sockaddr(ptr) {
                Some(sa) => {
                    self.dest_port = sa.sin_port;
                    self.dest_addr = sa.sin_addr;
                },
                None => {
                    return Err(READ_FAILED);
                },
            }
        }
        Ok(())
    }
}

impl HoneyBeeEvent for ConnectionEvent {
    open spec fn spec_blank() -> Self {
        ConnectionEvent {
            metadata: EventMetadata { pid: 0, _pad: 0, cgroup_id: 0, timestamp: 0 },
            dest_addr: 0,
            dest_port: 0,
            address_family: 0,
        }
    }

    open spec fn spec_metadata(self) -> EventMetadata {
        self.metadata
    }

    open spec fn spec_with_metadata(self, m: EventMetadata) -> Self {
        ConnectionEvent { metadata: m, ..self }
    }

    open spec fn spec_fill(self, ctx: TraceContext) -> (Self, Result<(), u32>) {
        let based = ConnectionEvent {
            metadata: spec_init_base(self.metadata, ctx.task),
            ..self
        };
        match spec_connect_target(ctx) {
            None => (based, Err(READ_FAILED)),
            Some(target) => based.spec_with_destination(ctx, target.0, target.1),
        }
    }

    open spec fn spec_encode(self) -> Seq<u8> {
        ConnectionEvent::spec_encode(self)
    }

    proof fn lemma_metadata_replaced(self, m: EventMetadata) {
    }

    fn blank() -> (e: Self) {
        ConnectionEvent {
            metadata: EventMetadata { pid: 0, _pad: 0, cgroup_id: 0, timestamp: 0 },
            dest_addr: 0,
            dest_port: 0,
            address_family: 0,
        }
    }

    fn metadata(&self) -> (m: EventMetadata) {
        self.metadata
    }

    fn set_metadata(&mut self, m: EventMetadata) {
        self.metadata = m;
    }

    fn fill(&mut self, ctx: &TraceContext) -> (r: Result<(), u32>) {
        self.init_base(&ctx.task);
        match connect_target(ctx) {
            Ok(target) => self.set_destination(ctx, target.0, target.1),
            Err(code) => Err(code),
        }
    }

    fn encode(&self) -> (v: Vec<u8>) {
        ConnectionEvent::encode(self)
    }
}

impl BlockIoEvent {
    /// The record after the fields of the block request were copied from
    /// the tracepoint record, one after the other: device, sector, sector
    /// count, byte count, flags, process name. The first field that cannot
    /// be read ends the attempt. The tag is left `Unknown`.
    pub open spec fn spec_with_request(self, ctx: TraceContext) -> (BlockIoEvent, Result<(), u32>) {
        match ctx.spec_read_at_u32(BLOCK_DEV_OFFSET as int) {
            None => (self, Err(READ_FAILED)),
            Some(dev) => {
                let e1 = BlockIoEvent { dev, ..self };
                match ctx.spec_read_at_u64(BLOCK_SECTOR_OFFSET as int) {
                    None => (e1, Err(READ_FAILED)),
                    Some(sector) => {
                        let e2 = BlockIoEvent { sector, ..e1 };
                        match ctx.spec_read_at_u32(BLOCK_NR_SECTOR_OFFSET as int) {
                            None => (e2, Err(READ_FAILED)),
                            Some(nr_sector) => {
                                let e3 = BlockIoEvent { nr_sector, ..e2 };
                                match ctx.spec_read_at_u32(BLOCK_BYTES_OFFSET as int) {
                                    None => (e3, Err(READ_FAILED)),
                                    Some(bytes) => {
                                        let e4 = BlockIoEvent { bytes, ..e3 };
                                        match ctx.spec_read_at_bytes8(BLOCK_RWBS_OFFSET as int) {
                                            None => (e4, Err(READ_FAILED)),
                                            Some(rwbs) => {
                                                let e5 = BlockIoEvent { rwbs, ..e4 };
                                                match ctx.spec_read_at_bytes16(
                                                    BLOCK_COMM_OFFSET as int,
                                                ) {
                                                    None => (e5, Err(READ_FAILED)),
                                                    Some(comm) => (
                                                        BlockIoEvent {
                                                            comm,
                                                            event_type: 0,
                                                            ..e5
                                                        },
                                                        Ok(()),
                                                    ),
                                                }
                                            },
                                        }
                                    },
                                }
                            },
                        }
                    },
                }
            },
        }
    }

    /// The record with its tag set to `kind` where `outcome` is a success,
    /// and untouched where it is not.
    pub open spec fn spec_tagged(
        outcome: (BlockIoEvent, Result<(), u32>),
        kind: BlockIoEventType,
    ) -> (BlockIoEvent, Result<(), u32>) {
        match outcome.1 {
            Ok(_) => (BlockIoEvent { event_type: kind.spec_tag(), ..outcome.0 }, Ok(())),
            Err(code) => (outcome.0, Err(code)),
        }
    }

    /// Copies the fields of the block request from the tracepoint record.
    pub fn set_request(&mut self, ctx: &TraceContext) -> (r: Result<(), u32>)
        ensures
            (*final(self), r) == old(self).spec_with_request(*ctx),
    {
        match ctx.read_at_u32(BLOCK_DEV_OFFSET) {
            Some(dev) => {
                self.dev = dev;
            },
            None => {
                return Err(READ_FAILED);
            },
        }
        match ctx.read_at_u64(BLOCK_SECTOR_OFFSET) {
            Some(sector) => {
                self.sector = sector;
            },
            None => {
                return Err(READ_FAILED);
            },
        }
        match ctx.read_at_u32(BLOCK_NR_SECTOR_OFFSET) {
            Some(nr_sector) => {
                self.nr_sector = nr_sector;
            },
            None => {
                return Err(READ_FAILED);
            },
        }
        match ctx.read_at_u32(BLOCK_BYTES_OFFSET) {
            Some(bytes) => {
                self.bytes = bytes;
            },
            None => {
                return Err(READ_FAILED);
            },
        }
        match ctx.read_at_bytes8(BLOCK_RWBS_OFFSET) {
            Some(rwbs) => {
                self.rwbs = rwbs;
            },
            None => {
                return Err(READ_FAILED);
            },
        }
        match ctx.read_at_bytes16(BLOCK_COMM_OFFSET) {
            Some(comm) => {
                self.comm = comm;
            },
            None => {
                return Err(READ_FAILED);
            },
        }
        self.event_type = BlockIoEventType::Unknown.tag();
        Ok(())
    }
}

impl HoneyBeeEvent for BlockIoEvent {
    open spec fn spec_blank() -> Self {
        BlockIoEvent {
            metadata: EventMetadata { pid: 0, _pad: 0, cgroup_id: 0, timestamp: 0 },
            dev: 0,
            sector: 0,
            nr_sector: 0,
            bytes: 0,
            rwbs: [0u8, 0u8, 0u8, 0u8, 0u8, 0u8, 0u8, 0u8],
            comm: [0u8, 0u8, 0u8, 0u8, 0u8, 0u8, 0u8, 0u8, 0u8, 0u8, 0u8, 0u8, 0u8, 0u8, 0u8, 0u8],
            event_type: 0,
        }
    }

    open spec fn spec_metadata(self) -> EventMetadata {
        self.metadata
    }

    open spec fn spec_with_metadata(self, m: EventMetadata) -> Self {
        BlockIoEvent { metadata: m, ..self }
    }

    open spec fn spec_fill(self, ctx: TraceContext) -> (Self, Result<(), u32>) {
        BlockIoEvent { metadata: spec_init_base(self.metadata, ctx.task), ..self }.spec_with_request(
            ctx,
        )
    }

    open spec fn spec_encode(self) -> Seq<u8> {
        BlockIoEvent::spec_encode(self)
    }

    proof fn lemma_metadata_replaced(self, m: EventMetadata) {
    }

    fn blank() -> (e: Self) {
        BlockIoEvent {
            metadata: EventMetadata { pid: 0, _pad: 0, cgroup_id: 0, timestamp: 0 },
            dev: 0,
            sector: 0,
            nr_sector: 0,
            bytes: 0,
            rwbs: [0u8, 0u8, 0u8, 0u8, 0u8, 0u8, 0u8, 0u8],
            comm: [0u8, 0u8, 0u8, 0u8, 0u8, 0u8, 0u8, 0u8, 0u8, 0u8, 0u8, 0u8, 0u8, 0u8, 0u8, 0u8],
            event_type: 0,
        }
    }

    fn metadata(&self) -> (m: EventMetadata) {
        self.metadata
    }

    fn set_metadata(&mut self, m: EventMetadata) {
        self.metadata = m;
    }

    fn fill(&mut self, ctx: &TraceContext) -> (r: Result<(), u32>) {
        self.init_base(&ctx.task);
        self.set_request(ctx)
    }

    fn encode(&self) -> (v: Vec<u8>) {
        BlockIoEvent::encode(self)
    }
}

/// A block I/O record that the probe at the start of a request fills.
#[derive(Clone, Copy, Debug, PartialEq, Eq)]
pub struct BlockIoStart(pub BlockIoEvent);

/// A block I/O record that the probe at the completion of a request fills.
#[derive(Clone, Copy, Debug, PartialEq, Eq)]
pub struct BlockIoDone(pub BlockIoEvent);

impl HoneyBeeEvent for BlockIoStart {
    open spec fn spec_blank() -> Self {
        BlockIoStart(BlockIoEvent::spec_blank())
    }

    open spec fn spec_metadata(self) -> EventMetadata {
        self.0.metadata
    }

    open spec fn spec_with_metadata(self, m: EventMetadata) -> Self {
        BlockIoStart(self.0.spec_with_metadata(m))
    }

    open spec fn spec_fill(self, ctx: TraceContext) -> (Self, Result<(), u32>) {
        let tagged = BlockIoEvent::spec_tagged(self.0.spec_fill(ctx), BlockIoEventType::Start);
        (BlockIoStart(tagged.0), tagged.1)
    }

    open spec fn spec_encode(self) -> Seq<u8> {
        self.0.spec_encode()
    }

    proof fn lemma_metadata_replaced(self, m: EventMetadata) {
    }

    fn blank() -> (e: Self) {
        BlockIoStart(BlockIoEvent::blank())
    }

    fn metadata(&self) -> (m: EventMetadata) {
        self.0.metadata
    }

    fn set_metadata(&mut self, m: EventMetadata) {
        self.0.metadata = m;
    }

    fn fill(&mut self, ctx: &TraceContext) -> (r: Result<(), u32>) {
        match self.0.fill(ctx) {
            Ok(_) => {
                self.0.event_type = BlockIoEventType::Start.tag();
                Ok(())
            },
            Err(code) => Err(code),
        }
    }

    fn encode(&self) -> (v: Vec<u8>) {
        self.0.encode()
    }
}

impl HoneyBeeEvent for BlockIoDone {
    open spec fn spec_blank() -> Self {
        BlockIoDone(BlockIoEvent::spec_blank())
    }

    open spec fn spec_metadata(self) -> EventMetadata {
        self.0.metadata
    }

    open spec fn spec_with_metadata(self, m: EventMetadata) -> Self {
        BlockIoDone(self.0.spec_with_metadata(m))
    }

    open spec fn spec_fill(self, ctx: TraceContext) -> (Self, Result<(), u32>) {
        let tagged = BlockIoEvent::spec_tagged(self.0.spec_fill(ctx), BlockIoEventType::Done);
        (BlockIoDone(tagged.0), tagged.1)
    }

    open spec fn spec_encode(self) -> Seq<u8> {
        self.0.spec_encode()
    }

    proof fn lemma_metadata_replaced(self, m: EventMetadata) {
    }

    fn blank() -> (e: Self) {
        BlockIoDone(BlockIoEvent::blank())
    }

    fn metadata(&self) -> (m: EventMetadata) {
        self.0.metadata
    }

    fn set_metadata(&mut self, m: EventMetadata) {
        self.0.metadata = m;
    }

    fn fill(&mut self, ctx: &TraceContext) -> (r: Result<(), u32>) {
        match self.0.fill(ctx) {
            Ok(_) => {
                self.0.event_type = BlockIoEventType::Done.tag();
                Ok(())
            },
            Err(code) => Err(code),
        }
    }

    fn encode(&self) -> (v: Vec<u8>) {
        self.0.encode()
    }
}

} // verus!
