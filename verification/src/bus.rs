//! Memory regions: fixed-size owned byte buffers with per-width access
//! latencies, supporting little-endian loads and stores at 8/16/32-bit
//! widths and byte-slice views.
//!
//! An access that would run past the buffer's end reads a fixed fallback
//! value of zero and leaves the buffer unchanged, instead of failing.

use vstd::prelude::*;
use vstd::slice::slice_subrange;

verus! {

/// The width of one memory access.
#[derive(Clone, Copy, PartialEq, Eq, Structural, Debug)]
pub enum MemoryAccessWidth {
    MemoryAccess8,
    MemoryAccess16,
    MemoryAccess32,
}

/// The cycle cost of an access to a region, one count per access width.
/// Attached to a region at construction and never mutated.
#[derive(Clone, Copy, PartialEq, Eq, Structural, Debug)]
pub struct WaitState {
    pub access8: usize,
    pub access16: usize,
    pub access32: usize,
}

impl WaitState {
    /// A wait-state record with the given per-width costs.
    pub fn new(access8: usize, access16: usize, access32: usize) -> (r: WaitState)
        ensures
            r == (WaitState { access8, access16, access32 }),
    {
        WaitState { access8, access16, access32 }
    }
}

impl Default for WaitState {
    /// One cycle for every width.
    fn default() -> (r: WaitState)
        ensures
            r == (WaitState { access8: 1, access16: 1, access32: 1 }),
    {
        WaitState::new(1, 1, 1)
    }
}

/// The cost a wait-state record attributes to an access of the given
/// width.
pub open spec fn spec_ws_cost(ws: WaitState, width: MemoryAccessWidth) -> usize {
    match width {
        MemoryAccessWidth::MemoryAccess8 => ws.access8,
        MemoryAccessWidth::MemoryAccess16 => ws.access16,
        MemoryAccessWidth::MemoryAccess32 => ws.access32,
    }
}

/// The byte at an offset, or the fallback 0 past the end.
pub open spec fn spec_byte_at(s: Seq<u8>, i: int) -> u8 {
    if 0 <= i < s.len() {
        s[i]
    } else {
        0
    }
}

/// The little-endian 16-bit value at an offset, or 0 when the two bytes do
/// not fit.
pub open spec fn spec_read_16(s: Seq<u8>, i: int) -> u16 {
    if 0 <= i && i + 2 <= s.len() {
        (s[i] as u16) | ((s[i + 1] as u16) << 8)
    } else {
        0
    }
}

/// The little-endian 32-bit value at an offset, or 0 when the four bytes
/// do not fit.
pub open spec fn spec_read_32(s: Seq<u8>, i: int) -> u32 {
    if 0 <= i && i + 4 <= s.len() {
        (s[i] as u32) | ((s[i + 1] as u32) << 8) | ((s[i + 2] as u32) << 16) | ((s[i + 3] as u32)
            << 24)
    } else {
        0
    }
}

/// The buffer after storing one byte; unchanged when the offset is out of
/// range.
pub open spec fn spec_write_8(s: Seq<u8>, i: int, value: u8) -> Seq<u8> {
    if 0 <= i < s.len() {
        s.update(i, value)
    } else {
        s
    }
}

/// The buffer after a little-endian 16-bit store; unchanged when the two
/// bytes do not fit.
pub open spec fn spec_write_16(s: Seq<u8>, i: int, value: u16) -> Seq<u8> {
    if 0 <= i && i + 2 <= s.len() {
        s.update(i, (value & 0xff) as u8).update(i + 1, ((value >> 8) & 0xff) as u8)
    } else {
        s
    }
}

/// The buffer after a little-endian 32-bit store; unchanged when the four
/// bytes do not fit.
pub open spec fn spec_write_32(s: Seq<u8>, i: int, value: u32) -> Seq<u8> {
    if 0 <= i && i + 4 <= s.len() {
        s.update(i, (value & 0xff) as u8).update(i + 1, ((value >> 8) & 0xff) as u8).update(
            i + 2,
            ((value >> 16) & 0xff) as u8,
        ).update(i + 3, ((value >> 24) & 0xff) as u8)
    } else {
        s
    }
}

/// The bytes from an offset to the buffer's end; empty when the offset is
/// past the end.
pub open spec fn spec_bytes_from(s: Seq<u8>, i: int) -> Seq<u8> {
    if 0 <= i <= s.len() {
        s.subrange(i, s.len() as int)
    } else {
        Seq::empty()
    }
}

/// A fixed-size owned byte buffer with its wait-state record: the backing
/// store of one bus region. The buffer never resizes after construction.
#[derive(Debug)]
pub struct BoxedMemory {
    pub data: Vec<u8>,
    pub ws: WaitState,
}

impl BoxedMemory {
    /// A region over the given bytes with the default one-cycle latency.
    pub fn new(data: Vec<u8>) -> (r: BoxedMemory)
        ensures
            r.data@ == data@,
            r.ws == (WaitState { access8: 1, access16: 1, access32: 1 }),
    {
        BoxedMemory { data, ws: WaitState::new(1, 1, 1) }
    }

    /// A region over the given bytes with the given latency.
    pub fn new_with_waitstate(data: Vec<u8>, ws: WaitState) -> (r: BoxedMemory)
        ensures
            r.data@ == data@,
            r.ws == ws,
    {
        BoxedMemory { data, ws }
    }

    /// Load one byte; 0 past the end.
    pub fn read_8(&self, addr: u32) -> (r: u8)
        ensures
            r == spec_byte_at(self.data@, addr as int),
    {
        if (addr as u64) < self.data.len() as u64 {
            self.data[addr as usize]
        } else {
            0
        }
    }

    /// Little-endian 16-bit load; 0 when the two bytes do not fit.
    pub fn read_16(&self, addr: u32) -> (r: u16)
        ensures
            r == spec_read_16(self.data@, addr as int),
    {
        if (addr as u64) + 2 <= self.data.len() as u64 {
            let i = addr as usize;
            (self.data[i] as u16) | ((self.data[i + 1] as u16) << 8)
        } else {
            0
        }
    }

    /// Little-endian 32-bit load; 0 when the four bytes do not fit.
    pub fn read_32(&self, addr: u32) -> (r: u32)
        ensures
            r == spec_read_32(self.data@, addr as int),
    {
        if (addr as u64) + 4 <= self.data.len() as u64 {
            let i = addr as usize;
            (self.data[i] as u32) | ((self.data[i + 1] as u32) << 8) | ((self.data[i + 2] as u32)
                << 16) | ((self.data[i + 3] as u32) << 24)
        } else {
            0
        }
    }

    /// Store one byte; ignored past the end.
    pub fn write_8(&mut self, addr: u32, value: u8)
        ensures
            final(self).data@ == spec_write_8(old(self).data@, addr as int, value),
            final(self).ws == old(self).ws,
    {
        if (addr as u64) < self.data.len() as u64 {
            self.data[addr as usize] = value;
        }
    }

    /// Little-endian 16-bit store; ignored when the two bytes do not fit.
    pub fn write_16(&mut self, addr: u32, value: u16)
        ensures
            final(self).data@ == spec_write_16(old(self).data@, addr as int, value),
            final(self).ws == old(self).ws,
    {
        if (addr as u64) + 2 <= self.data.len() as u64 {
            let i = addr as usize;
            self.data[i] = (value & 0xff) as u8;
            self.data[i + 1] = ((value >> 8) & 0xff) as u8;
        }
    }

    /// Little-endian 32-bit store; ignored when the four bytes do not fit.
    pub fn write_32(&mut self, addr: u32, value: u32)
        ensures
            final(self).data@ == spec_write_32(old(self).data@, addr as int, value),
            final(self).ws == old(self).ws,
    {
        if (addr as u64) + 4 <= self.data.len() as u64 {
            let i = addr as usize;
            self.data[i] = (value & 0xff) as u8;
            self.data[i + 1] = ((value >> 8) & 0xff) as u8;
            self.data[i + 2] = ((value >> 16) & 0xff) as u8;
            self.data[i + 3] = ((value >> 24) & 0xff) as u8;
        }
    }

    /// The bytes from an offset to the region's end; empty past the end.
    pub fn get_bytes(&self, addr: u32) -> (r: &[u8])
        ensures
            r@ == spec_bytes_from(self.data@, addr as int),
    {
        if (addr as u64) <= self.data.len() as u64 {
            slice_subrange(self.data.as_slice(), addr as usize, self.data.len())
        } else {
            let r = slice_subrange(self.data.as_slice(), self.data.len(), self.data.len());
            proof {
                assert(r@ =~= Seq::<u8>::empty());
            }
            r
        }
    }

    /// The region's cycle cost for an access of the given width.
    pub fn get_cycles(&self, _addr: u32, width: MemoryAccessWidth) -> (r: usize)
        ensures
            r == spec_ws_cost(self.ws, width),
    {
        match width {
            MemoryAccessWidth::MemoryAccess8 => self.ws.access8,
            MemoryAccessWidth::MemoryAccess16 => self.ws.access16,
            MemoryAccessWidth::MemoryAccess32 => self.ws.access32,
        }
    }
}

} // verus!
