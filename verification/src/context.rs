//! What one firing of a tracepoint lets a probe read, as plain values: the
//! identity of the current task, the tracepoint's record, and the stretch of
//! user memory that an argument of the call points into.
//!
//! A read outside what is held here fails, as a probe read of unmapped
//! memory does; it never faults.

use crate::wire::{
    in_bounds, read_bytes16, read_bytes8, read_u16, read_u32, read_u64, spec_array16,
    spec_array8, spec_u16_at, spec_u32_at, spec_u64_at,
};
use vstd::prelude::*;

verus! {

/// Identity of the task that hit the tracepoint, and the time.
#[derive(Clone, Copy, Debug, PartialEq, Eq)]
pub struct TaskInfo {
    /// Thread group id in the upper half, thread id in the lower.
    pub pid_tgid: u64,
    pub cgroup_id: u64,
    /// Monotonic clock in nanoseconds.
    pub ktime_ns: u64,
}

/// An IPv4 socket address as the kernel lays it out.
#[derive(Clone, Copy, Debug, PartialEq, Eq)]
pub struct SockaddrIn {
    pub sin_family: u16,
    /// Port in network byte order.
    pub sin_port: u16,
    /// Address in network byte order.
    pub sin_addr: u32,
    pub sin_zero: [u8; 8],
}

/// Size of a `SockaddrIn` in memory.
pub const SOCKADDR_IN_SIZE: usize = 16;

/// The readable surroundings of one tracepoint firing.
#[derive(Clone, Copy, Debug)]
pub struct TraceContext<'a> {
    pub task: TaskInfo,
    /// The tracepoint's record, as far as it can be read.
    pub record: &'a [u8],
    /// User address of the first byte of `user`.
    pub user_addr: u64,
    /// The readable user memory at `user_addr`.
    pub user: &'a [u8],
}

impl<'a> TraceContext<'a> {
    /// Where in `user` the user address `addr` lies, if it is not below it.
    pub open spec fn spec_user_offset(self, addr: u64) -> int {
        addr - self.user_addr
    }

    /// Whether `len` bytes of user memory at `addr` can be read.
    pub open spec fn user_readable(self, addr: u64, len: int) -> bool {
        in_bounds(self.user@.len() as int, self.spec_user_offset(addr), len)
    }

    /// The 64-bit word at `offset` of the record, if it can be read.
    pub open spec fn spec_read_at_u64(self, offset: int) -> Option<u64> {
        if in_bounds(self.record@.len() as int, offset, 8) {
            Some(spec_u64_at(self.record@, offset))
        } else {
            None
        }
    }

    /// The 32-bit word at `offset` of the record, if it can be read.
    pub open spec fn spec_read_at_u32(self, offset: int) -> Option<u32> {
        if in_bounds(self.record@.len() as int, offset, 4) {
            Some(spec_u32_at(self.record@, offset))
        } else {
            None
        }
    }

    /// The eight bytes at `offset` of the record, if they can be read.
    pub open spec fn spec_read_at_bytes8(self, offset: int) -> Option<[u8; 8]> {
        if in_bounds(self.record@.len() as int, offset, 8) {
            Some(spec_array8(self.record@, offset))
        } else {
            None
        }
    }

    /// The sixteen bytes at `offset` of the record, if they can be read.
    pub open spec fn spec_read_at_bytes16(self, offset: int) -> Option<[u8; 16]> {
        if in_bounds(self.record@.len() as int, offset, 16) {
            Some(spec_array16(self.record@, offset))
        } else {
            None
        }
    }

    /// The 16-bit word of user memory at `addr`, if it can be read.
    pub open spec fn spec_read_user_u16(self, addr: u64) -> Option<u16> {
        if self.user_readable(addr, 2) {
            Some(spec_u16_at(self.user@, self.spec_user_offset(addr)))
        } else {
            None
        }
    }

    /// The socket address in user memory at `addr`, if all of it can be read.
    pub open spec fn spec_read_user_sockaddr(self, addr: u64) -> Option<SockaddrIn> {
        if self.user_readable(addr, 16) {
            let at = self.spec_user_offset(addr);
            Some(
                SockaddrIn {
                    sin_family: spec_u16_at(self.user@, at),
                    sin_port: spec_u16_at(self.user@, at + 2),
                    sin_addr: spec_u32_at(self.user@, at + 4),
                    sin_zero: spec_array8(self.user@, at + 8),
                },
            )
        } else {
            None
        }
    }

    /// Reads a 64-bit word of the record.
    pub fn read_at_u64(&self, offset: usize) -> (r: Option<u64>)
        ensures
            r == self.spec_read_at_u64(offset as int),
    {
        read_u64(self.record, offset)
    }

    /// Reads a 32-bit word of the record.
    pub fn read_at_u32(&self, offset: usize) -> (r: Option<u32>)
        ensures
            r == self.spec_read_at_u32(offset as int),
    {
        read_u32(self.record, offset)
    }

    /// Reads eight bytes of the record.
    pub fn read_at_bytes8(&self, offset: usize) -> (r: Option<[u8; 8]>)
        ensures
            r == self.spec_read_at_bytes8(offset as int),
    {
        read_bytes8(self.record, offset)
    }

    /// Reads sixteen bytes of the record.
    pub fn read_at_bytes16(&self, offset: usize) -> (r: Option<[u8; 16]>)
        ensures
            r == self.spec_read_at_bytes16(offset as int),
    {
        read_bytes16(self.record, offset)
    }

    /// The index into `user` of the user address `addr`; an index past the
    /// end where `addr` lies outside.
    fn user_index(&self, addr: u64) -> (at: usize)
        ensures
            self.user_addr <= addr && addr - self.user_addr <= self.user@.len() ==> at
                == self.spec_user_offset(addr),
            !(self.user_addr <= addr && addr - self.user_addr <= self.user@.len()) ==> at
                == self.user@.len(),
    {
        if addr < self.user_addr {
            return self.user.len();
        }
        let d: u64 = addr - self.user_addr;
        if d > self.user.len() as u64 {
            self.user.len()
        } else {
            d as usize
        }
    }

    /// Reads a 16-bit word of user memory.
    pub fn read_user_u16(&self, addr: u64) -> (r: Option<u16>)
        ensures
            r == self.spec_read_user_u16(addr),
    {
        read_u16(self.user, self.user_index(addr))
    }

    /// Reads a socket address from user memory.
    pub fn read_user_sockaddr(&self, addr: u64) -> (r: Option<SockaddrIn>)
        ensures
            r == self.spec_read_user_sockaddr(addr),
    {
        let at = self.user_index(addr);
        if self.user.len() < 16 || at > self.user.len() - 16 {
            return None;
        }
        let family = read_u16(self.user, at);
        let port = read_u16(self.user, at + 2);
        let ip = read_u32(self.user, at + 4);
        let zero = read_bytes8(self.user, at + 8);
        match (family, port, ip, zero) {
            (Some(sin_family), Some(sin_port), Some(sin_addr), Some(sin_zero)) => Some(
                SockaddrIn { sin_family, sin_port, sin_addr, sin_zero },
            ),
            _ => None,
        }
    }
}

} // verus!
