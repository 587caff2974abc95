//! The byte layout of each record: field order, sizes and padding as the
//! probe side lays a record out in a ring buffer slot.

use crate::schema::{BlockIoEvent, ConnectionEvent, EventMetadata, GpuOpenEvent};
use crate::wire::{
    lemma_i32_round_trip, lemma_u16_round_trip, lemma_u32_at_window, lemma_u32_round_trip,
    lemma_u64_round_trip, put_i32, put_u16, put_u32, put_u64, read_bytes16, read_bytes64,
    read_bytes8, read_i32, read_u16, read_u32, read_u64, spec_i32_at, spec_i32_bytes,
    spec_u16_at, spec_u16_bytes, spec_u32_at, spec_u32_bytes, spec_u64_at, spec_u64_bytes,
};
use vstd::prelude::*;

verus! {

/// Bytes of an `EventMetadata`.
pub const EVENT_METADATA_SIZE: usize = 24;

/// Bytes of a `ConnectionEvent`.
pub const CONNECTION_EVENT_SIZE: usize = 32;

/// Bytes of a `BlockIoEvent`, padding included.
pub const BLOCK_IO_EVENT_SIZE: usize = 80;

/// Bytes of a `GpuOpenEvent`, padding included.
pub const GPU_OPEN_EVENT_SIZE: usize = 112;

/// `n` zero bytes.
pub open spec fn zeros(n: nat) -> Seq<u8> {
    Seq::new(n, |i: int| 0u8)
}

fn put_zeros(buf: &mut Vec<u8>, n: usize)
    ensures
        final(buf)@ == old(buf)@ + zeros(n as nat),
{
    let mut i: usize = 0;
    while i < n
        invariant
            i <= n,
            buf@ == old(buf)@ + zeros(i as nat),
        decreases n - i,
    {
        buf.push(0);
        i = i + 1;
        assert(buf@ =~= old(buf)@ + zeros(i as nat));
    }
}

fn put_bytes(buf: &mut Vec<u8>, bytes: &[u8])
    ensures
        final(buf)@ == old(buf)@ + bytes@,
{
    let mut i: usize = 0;
    while i < bytes.len()
        invariant
            i <= bytes@.len(),
            buf@ == old(buf)@ + bytes@.subrange(0, i as int),
        decreases bytes@.len() - i,
    {
        buf.push(bytes[i]);
        i = i + 1;
        assert(buf@ =~= old(buf)@ + bytes@.subrange(0, i as int));
    }
    assert(bytes@.subrange(0, bytes@.len() as int) =~= bytes@);
}

impl EventMetadata {
    /// The bytes of the header: pid, padding, cgroup id, timestamp.
    pub open spec fn spec_encode(self) -> Seq<u8> {
        spec_u32_bytes(self.pid) + spec_u32_bytes(self._pad) + spec_u64_bytes(self.cgroup_id)
            + spec_u64_bytes(self.timestamp)
    }

    /// The header stored at the start of `s`.
    pub open spec fn spec_decode(s: Seq<u8>) -> EventMetadata {
        EventMetadata {
            pid: spec_u32_at(s, 0),
            _pad: spec_u32_at(s, 4),
            cgroup_id: spec_u64_at(s, 8),
            timestamp: spec_u64_at(s, 16),
        }
    }

    fn put(&self, buf: &mut Vec<u8>)
        ensures
            final(buf)@ == old(buf)@ + self.spec_encode(),
    {
        put_u32(buf, self.pid);
        put_u32(buf, self._pad);
        put_u64(buf, self.cgroup_id);
        put_u64(buf, self.timestamp);
        assert(buf@ =~= old(buf)@ + self.spec_encode());
    }

    fn take(s: &[u8]) -> (m: EventMetadata)
        requires
            s@.len() >= 24,
        ensures
            m == EventMetadata::spec_decode(s@),
    {
        match (read_u32(s, 0), read_u32(s, 4), read_u64(s, 8), read_u64(s, 16)) {
            (Some(pid), Some(_pad), Some(cgroup_id), Some(timestamp)) => EventMetadata {
                pid,
                _pad,
                cgroup_id,
                timestamp,
            },
            _ => EventMetadata { pid: 0, _pad: 0, cgroup_id: 0, timestamp: 0 },
        }
    }
}

/// The 64-bit word at `at` of `s` is the word that `part` holds at `u`, where
/// `s` holds `part` there.
proof fn lemma_u64_at_window(s: Seq<u8>, at: int, t: Seq<u8>, u: int)
    requires
        0 <= at && at + 8 <= s.len(),
        0 <= u && u + 8 <= t.len(),
        s.subrange(at, at + 8) == t.subrange(u, u + 8),
    ensures
        spec_u64_at(s, at) == spec_u64_at(t, u),
{
    assert(s.subrange(at, at + 4) =~= s.subrange(at, at + 8).subrange(0, 4));
    assert(t.subrange(u, u + 4) =~= t.subrange(u, u + 8).subrange(0, 4));
    assert(s.subrange(at + 4, at + 8) =~= s.subrange(at, at + 8).subrange(4, 8));
    assert(t.subrange(u + 4, u + 8) =~= t.subrange(u, u + 8).subrange(4, 8));
    lemma_u32_at_window(s, at, t, u);
    lemma_u32_at_window(s, at + 4, t, u + 4);
}

/// A 32-bit word written at `at` of `s` reads back from there.
proof fn lemma_u32_stored(s: Seq<u8>, at: int, x: u32)
    requires
        0 <= at && at + 4 <= s.len(),
        s.subrange(at, at + 4) == spec_u32_bytes(x),
    ensures
        spec_u32_at(s, at) == x,
{
    lemma_u32_round_trip(x);
    assert(spec_u32_bytes(x).subrange(0, 4) =~= spec_u32_bytes(x));
    lemma_u32_at_window(s, at, spec_u32_bytes(x), 0);
}

/// A 64-bit word written at `at` of `s` reads back from there.
proof fn lemma_u64_stored(s: Seq<u8>, at: int, x: u64)
    requires
        0 <= at && at + 8 <= s.len(),
        s.subrange(at, at + 8) == spec_u64_bytes(x),
    ensures
        spec_u64_at(s, at) == x,
{
    lemma_u64_round_trip(x);
    assert(spec_u64_bytes(x).subrange(0, 8) =~= spec_u64_bytes(x));
    lemma_u64_at_window(s, at, spec_u64_bytes(x), 0);
}

/// A 16-bit word written at `at` of `s` reads back from there.
proof fn lemma_u16_stored(s: Seq<u8>, at: int, x: u16)
    requires
        0 <= at && at + 2 <= s.len(),
        s.subrange(at, at + 2) == spec_u16_bytes(x),
    ensures
        spec_u16_at(s, at) == x,
{
    lemma_u16_round_trip(x);
    let t = s.subrange(at, at + 2);
    assert(t[0] == s[at] && t[1] == s[at + 1]);
}

/// A header reads back from any byte string that starts with its bytes.
pub proof fn lemma_metadata_round_trip(m: EventMetadata, rest: Seq<u8>)
    ensures
        m.spec_encode().len() == 24,
        EventMetadata::spec_decode(m.spec_encode() + rest) == m,
{
    let s = m.spec_encode() + rest;
    lemma_u64_round_trip(m.cgroup_id);
    lemma_u64_round_trip(m.timestamp);
    assert(s.subrange(0, 4) =~= spec_u32_bytes(m.pid));
    assert(s.subrange(4, 8) =~= spec_u32_bytes(m._pad));
    assert(s.subrange(8, 16) =~= spec_u64_bytes(m.cgroup_id));
    assert(s.subrange(16, 24) =~= spec_u64_bytes(m.timestamp));
    lemma_u32_stored(s, 0, m.pid);
    lemma_u32_stored(s, 4, m._pad);
    lemma_u64_stored(s, 8, m.cgroup_id);
    lemma_u64_stored(s, 16, m.timestamp);
}

impl ConnectionEvent {
    /// The bytes of the record: header, address, port, family.
    pub open spec fn spec_encode(self) -> Seq<u8> {
        self.metadata.spec_encode() + spec_u32_bytes(self.dest_addr) + spec_u16_bytes(
            self.dest_port,
        ) + spec_u16_bytes(self.address_family)
    }

    /// The record stored at the start of `s`.
    pub open spec fn spec_decode(s: Seq<u8>) -> ConnectionEvent {
        ConnectionEvent {
            metadata: EventMetadata::spec_decode(s),
            dest_addr: spec_u32_at(s, 24),
            dest_port: spec_u16_at(s, 28),
            address_family: spec_u16_at(s, 30),
        }
    }

    /// Lays the record out as bytes.
    pub fn encode(&self) -> (v: Vec<u8>)
        ensures
            v@ == self.spec_encode(),
    {
        let mut v: Vec<u8> = Vec::new();
        self.metadata.put(&mut v);
        put_u32(&mut v, self.dest_addr);
        put_u16(&mut v, self.dest_port);
        put_u16(&mut v, self.address_family);
        assert(v@ =~= self.spec_encode());
        v
    }

    /// Reads the record at the start of `bytes`; `None` where `bytes` are
    /// shorter than a record.
    pub fn decode(bytes: &[u8]) -> (r: Option<ConnectionEvent>)
        ensures
            r == if bytes@.len() >= CONNECTION_EVENT_SIZE {
                Some(ConnectionEvent::spec_decode(bytes@))
            } else {
                None
            },
    {
        if bytes.len() < CONNECTION_EVENT_SIZE {
            return None;
        }
        let metadata = EventMetadata::take(bytes);
        match (read_u32(bytes, 24), read_u16(bytes, 28), read_u16(bytes, 30)) {
            (Some(dest_addr), Some(dest_port), Some(address_family)) => Some(
                ConnectionEvent { metadata, dest_addr, dest_port, address_family },
            ),
            _ => None,
        }
    }
}

/// A connection record reads back from its bytes.
pub proof fn lemma_connection_round_trip(e: ConnectionEvent)
    ensures
        e.spec_encode().len() == CONNECTION_EVENT_SIZE,
        ConnectionEvent::spec_decode(e.spec_encode()) == e,
{
    let s = e.spec_encode();
    let rest = spec_u32_bytes(e.dest_addr) + spec_u16_bytes(e.dest_port) + spec_u16_bytes(
        e.address_family,
    );
    assert(s =~= e.metadata.spec_encode() + rest);
    lemma_metadata_round_trip(e.metadata, rest);
    assert(s.subrange(24, 28) =~= spec_u32_bytes(e.dest_addr));
    assert(s.subrange(28, 30) =~= spec_u16_bytes(e.dest_port));
    assert(s.subrange(30, 32) =~= spec_u16_bytes(e.address_family));
    lemma_u32_stored(s, 24, e.dest_addr);
    lemma_u16_stored(s, 28, e.dest_port);
    lemma_u16_stored(s, 30, e.address_family);
}

impl BlockIoEvent {
    /// The bytes of the record: header, device, four bytes of padding,
    /// sector, sector count, byte count, flags, process name, tag, seven
    /// bytes of padding.
    pub open spec fn spec_encode(self) -> Seq<u8> {
        self.metadata.spec_encode() + spec_u32_bytes(self.dev) + zeros(4) + spec_u64_bytes(
            self.sector,
        ) + spec_u32_bytes(self.nr_sector) + spec_u32_bytes(self.bytes) + self.rwbs@ + self.comm@
            + seq![self.event_type] + zeros(7)
    }

    /// Whether the record at the start of `s` reads as `e`.
    pub open spec fn spec_reads_as(s: Seq<u8>, e: BlockIoEvent) -> bool {
        &&& s.len() >= BLOCK_IO_EVENT_SIZE
        &&& e.metadata == EventMetadata::spec_decode(s)
        &&& e.dev == spec_u32_at(s, 24)
        &&& e.sector == spec_u64_at(s, 32)
        &&& e.nr_sector == spec_u32_at(s, 40)
        &&& e.bytes == spec_u32_at(s, 44)
        &&& e.rwbs@ == s.subrange(48, 56)
        &&& e.comm@ == s.subrange(56, 72)
        &&& e.event_type == s[72]
    }

    /// Lays the record out as bytes, with zeroed padding.
    pub fn encode(&self) -> (v: Vec<u8>)
        ensures
            v@ == self.spec_encode(),
    {
        let mut v: Vec<u8> = Vec::new();
        self.metadata.put(&mut v);
        put_u32(&mut v, self.dev);
        put_zeros(&mut v, 4);
        put_u64(&mut v, self.sector);
        put_u32(&mut v, self.nr_sector);
        put_u32(&mut v, self.bytes);
        put_bytes(&mut v, self.rwbs.as_slice());
        put_bytes(&mut v, self.comm.as_slice());
        v.push(self.event_type);
        put_zeros(&mut v, 7);
        assert(v@ =~= self.spec_encode());
        v
    }

    /// Reads the record at the start of `bytes`; `None` where `bytes` are
    /// shorter than a record. A tag byte of any value is taken as it is.
    pub fn decode(bytes: &[u8]) -> (r: Option<BlockIoEvent>)
        ensures
            r is Some <==> bytes@.len() >= BLOCK_IO_EVENT_SIZE,
            r matches Some(e) ==> BlockIoEvent::spec_reads_as(bytes@, e),
    {
        if bytes.len() < BLOCK_IO_EVENT_SIZE {
            return None;
        }
        let metadata = EventMetadata::take(bytes);
        match (
            read_u32(bytes, 24),
            read_u64(bytes, 32),
            read_u32(bytes, 40),
            read_u32(bytes, 44),
            read_bytes8(bytes, 48),
            read_bytes16(bytes, 56),
        ) {
            (Some(dev), Some(sector), Some(nr_sector), Some(nr_bytes), Some(rwbs), Some(comm)) => {
                Some(
                    BlockIoEvent {
                        metadata,
                        dev,
                        sector,
                        nr_sector,
                        bytes: nr_bytes,
                        rwbs,
                        comm,
                        event_type: bytes[72],
                    },
                )
            },
            _ => None,
        }
    }
}

/// A byte string reads as at most one block I/O record.
pub proof fn lemma_block_io_reading_unique(s: Seq<u8>, a: BlockIoEvent, b: BlockIoEvent)
    requires
        BlockIoEvent::spec_reads_as(s, a),
        BlockIoEvent::spec_reads_as(s, b),
    ensures
        a == b,
{
    assert(a.rwbs =~= b.rwbs);
    assert(a.comm =~= b.comm);
}

/// A block I/O record reads back from its bytes.
pub proof fn lemma_block_io_round_trip(e: BlockIoEvent)
    ensures
        e.spec_encode().len() == BLOCK_IO_EVENT_SIZE,
        BlockIoEvent::spec_reads_as(e.spec_encode(), e),
{
    let s = e.spec_encode();
    let rest = spec_u32_bytes(e.dev) + zeros(4) + spec_u64_bytes(e.sector) + spec_u32_bytes(
        e.nr_sector,
    ) + spec_u32_bytes(e.bytes) + e.rwbs@ + e.comm@ + seq![e.event_type] + zeros(7);
    lemma_u64_round_trip(e.sector);
    lemma_u64_round_trip(e.metadata.cgroup_id);
    lemma_u64_round_trip(e.metadata.timestamp);
    assert(s =~= e.metadata.spec_encode() + rest);
    lemma_metadata_round_trip(e.metadata, rest);
    assert(s.subrange(24, 28) =~= spec_u32_bytes(e.dev));
    assert(s.subrange(32, 40) =~= spec_u64_bytes(e.sector));
    assert(s.subrange(40, 44) =~= spec_u32_bytes(e.nr_sector));
    assert(s.subrange(44, 48) =~= spec_u32_bytes(e.bytes));
    assert(s.subrange(48, 56) =~= e.rwbs@);
    assert(s.subrange(56, 72) =~= e.comm@);
    lemma_u32_stored(s, 24, e.dev);
    lemma_u64_stored(s, 32, e.sector);
    lemma_u32_stored(s, 40, e.nr_sector);
    lemma_u32_stored(s, 44, e.bytes);
}

impl GpuOpenEvent {
    /// The bytes of the record: header, path, process name, index, four
    /// bytes of padding.
    pub open spec fn spec_encode(self) -> Seq<u8> {
        self.metadata.spec_encode() + self.filename@ + self.comm@ + spec_i32_bytes(self.gpu_index)
            + zeros(4)
    }

    /// Whether the record at the start of `s` reads as `e`.
    pub open spec fn spec_reads_as(s: Seq<u8>, e: GpuOpenEvent) -> bool {
        &&& s.len() >= GPU_OPEN_EVENT_SIZE
        &&& e.metadata == EventMetadata::spec_decode(s)
        &&& e.filename@ == s.subrange(24, 88)
        &&& e.comm@ == s.subrange(88, 104)
        &&& e.gpu_index == spec_i32_at(s, 104)
    }

    /// Lays the record out as bytes, with zeroed padding.
    pub fn encode(&self) -> (v: Vec<u8>)
        ensures
            v@ == self.spec_encode(),
    {
        let mut v: Vec<u8> = Vec::new();
        self.metadata.put(&mut v);
        put_bytes(&mut v, self.filename.as_slice());
        put_bytes(&mut v, self.comm.as_slice());
        put_i32(&mut v, self.gpu_index);
        put_zeros(&mut v, 4);
        assert(v@ =~= self.spec_encode());
        v
    }

    /// Reads the record at the start of `bytes`; `None` where `bytes` are
    /// shorter than a record.
    pub fn decode(bytes: &[u8]) -> (r: Option<GpuOpenEvent>)
        ensures
            r is Some <==> bytes@.len() >= GPU_OPEN_EVENT_SIZE,
            r matches Some(e) ==> GpuOpenEvent::spec_reads_as(bytes@, e),
    {
        if bytes.len() < GPU_OPEN_EVENT_SIZE {
            return None;
        }
        let metadata = EventMetadata::take(bytes);
        match (read_bytes64(bytes, 24), read_bytes16(bytes, 88), read_i32(bytes, 104)) {
            (Some(filename), Some(comm), Some(gpu_index)) => Some(
                GpuOpenEvent { metadata, filename, comm, gpu_index },
            ),
            _ => None,
        }
    }
}

/// A byte string reads as at most one device-open record.
pub proof fn lemma_gpu_open_reading_unique(s: Seq<u8>, a: GpuOpenEvent, b: GpuOpenEvent)
    requires
        GpuOpenEvent::spec_reads_as(s, a),
        GpuOpenEvent::spec_reads_as(s, b),
    ensures
        a == b,
{
    assert(a.filename =~= b.filename);
    assert(a.comm =~= b.comm);
}

/// A device-open record reads back from its bytes.
pub proof fn lemma_gpu_open_round_trip(e: GpuOpenEvent)
    ensures
        e.spec_encode().len() == GPU_OPEN_EVENT_SIZE,
        GpuOpenEvent::spec_reads_as(e.spec_encode(), e),
{
    let s = e.spec_encode();
    let rest = e.filename@ + e.comm@ + spec_i32_bytes(e.gpu_index) + zeros(4);
    lemma_u64_round_trip(e.metadata.cgroup_id);
    lemma_u64_round_trip(e.metadata.timestamp);
    assert(s =~= e.metadata.spec_encode() + rest);
    lemma_metadata_round_trip(e.metadata, rest);
    assert(s.subrange(24, 88) =~= e.filename@);
    assert(s.subrange(88, 104) =~= e.comm@);
    assert(s.subrange(104, 108) =~= spec_u32_bytes(e.gpu_index as u32));
    lemma_i32_round_trip(e.gpu_index);
    lemma_u32_stored(s, 104, e.gpu_index as u32);
}

} // verus!
