//! Plain memory: a flat array of bytes.

use vstd::prelude::*;
use crate::bits::{half_from_le, half_le, lane, lane_of, word_from_le, word_le};
use crate::bus_objects::{BusObject, MemoryMapping};

verus! {

/// A memory device. Half-words and words are laid out least significant byte first.
#[derive(Debug)]
pub struct Memory {
    mem: Vec<u8>,
    mapping: MemoryMapping,
}

/// The state of a memory device: its bytes and its position.
pub struct MemoryModel {
    pub bytes: Seq<u8>,
    pub mapping: MemoryMapping,
}

impl MemoryModel {
    /// The bytes with `val` stored at `addr`.
    pub open spec fn store_byte(self, addr: u32, val: u8) -> MemoryModel {
        MemoryModel { bytes: self.bytes.update(addr as int, val), mapping: self.mapping }
    }

    /// The bytes with the two bytes of `val` stored from `addr` on, least significant
    /// first.
    pub open spec fn store_hw(self, addr: u32, val: u16) -> MemoryModel {
        MemoryModel {
            bytes: self.bytes.update(addr as int, (val % 0x100) as u8).update(
                addr + 1,
                (val / 0x100) as u8,
            ),
            mapping: self.mapping,
        }
    }

    /// The bytes with the four bytes of `val` stored from `addr` on, least significant
    /// first.
    pub open spec fn store_w(self, addr: u32, val: u32) -> MemoryModel {
        MemoryModel {
            bytes: self.bytes.update(addr as int, lane(val, 0)).update(
                addr + 1,
                lane(val, 1),
            ).update(addr + 2, lane(val, 2)).update(addr + 3, lane(val, 3)),
            mapping: self.mapping,
        }
    }

    /// The half-word whose bytes lie from `addr` on, least significant first.
    pub open spec fn load_hw(self, addr: u32) -> u16 {
        half_le(self.bytes[addr as int], self.bytes[addr + 1])
    }

    /// The word whose bytes lie from `addr` on, least significant first.
    pub open spec fn load_w(self, addr: u32) -> u32 {
        word_le(
            self.bytes[addr as int],
            self.bytes[addr + 1],
            self.bytes[addr + 2],
            self.bytes[addr + 3],
        )
    }
}

impl Memory {
    /// A memory device over the bytes of `mem`, at the position `mapping`.
    pub fn new(mem: Box<[u8]>, mapping: MemoryMapping) -> (r: Memory)
        requires
            mem@.len() == mapping.size,
        ensures
            r.model() == (MemoryModel { bytes: mem@, mapping }),
            Self::inv(r.model()),
    {
        Memory { mem: mem.into_vec(), mapping }
    }

    /// A memory device over the bytes of `mem`, at the position `mapping`.
    pub fn from_vec(mem: Vec<u8>, mapping: MemoryMapping) -> (r: Memory)
        requires
            mem@.len() == mapping.size,
        ensures
            r.model() == (MemoryModel { bytes: mem@, mapping }),
            Self::inv(r.model()),
    {
        Memory { mem, mapping }
    }

    /// The number of bytes that the device holds.
    pub fn len(&self) -> (n: usize)
        ensures
            n == self.model().bytes.len(),
    {
        self.mem.len()
    }
}

impl BusObject for Memory {
    type Model = MemoryModel;

    closed spec fn model(&self) -> MemoryModel {
        MemoryModel { bytes: self.mem@, mapping: self.mapping }
    }

    open spec fn inv(m: MemoryModel) -> bool {
        m.bytes.len() == m.mapping.size
    }

    open spec fn spec_mapping(m: MemoryModel) -> MemoryMapping {
        m.mapping
    }

    open spec fn serves(m: MemoryModel, addr: u32, width: u32) -> bool {
        addr + width <= m.bytes.len()
    }

    open spec fn spec_read_byte(m: MemoryModel, addr: u32) -> u8 {
        m.bytes[addr as int]
    }

    open spec fn spec_read_hw(m: MemoryModel, addr: u32) -> u16 {
        m.load_hw(addr)
    }

    open spec fn spec_read_w(m: MemoryModel, addr: u32) -> u32 {
        m.load_w(addr)
    }

    open spec fn spec_write_byte(m: MemoryModel, addr: u32, val: u8) -> MemoryModel {
        m.store_byte(addr, val)
    }

    open spec fn spec_write_hw(m: MemoryModel, addr: u32, val: u16) -> MemoryModel {
        m.store_hw(addr, val)
    }

    open spec fn spec_write_w(m: MemoryModel, addr: u32, val: u32) -> MemoryModel {
        m.store_w(addr, val)
    }

    proof fn write_byte_keeps(m: MemoryModel, addr: u32, val: u8) {
    }

    proof fn write_hw_keeps(m: MemoryModel, addr: u32, val: u16) {
    }

    proof fn write_w_keeps(m: MemoryModel, addr: u32, val: u32) {
    }

    fn mapping(&self) -> (r: MemoryMapping) {
        self.mapping
    }

    fn accepts(&self, addr: u32, width: u32) -> (b: bool) {
        let len: usize = self.mem.len();
        (width as usize) <= len && (addr as usize) <= len - (width as usize)
    }

    fn read_byte(&self, addr: u32) -> (v: u8) {
        self.mem[addr as usize]
    }

    fn read_hw(&self, addr: u32) -> (v: u16) {
        let at: usize = addr as usize;
        half_from_le(self.mem[at], self.mem[at + 1])
    }

    fn read_w(&self, addr: u32) -> (v: u32) {
        let at: usize = addr as usize;
        word_from_le(self.mem[at], self.mem[at + 1], self.mem[at + 2], self.mem[at + 3])
    }

    fn write_byte(&mut self, addr: u32, val: u8) {
        self.mem[addr as usize] = val;
    }

    fn write_hw(&mut self, addr: u32, val: u16) {
        let at: usize = addr as usize;
        self.mem[at] = (val % 0x100) as u8;
        self.mem[at + 1] = (val / 0x100) as u8;
    }

    fn write_w(&mut self, addr: u32, val: u32) {
        let at: usize = addr as usize;
        self.mem[at] = lane_of(val, 0);
        self.mem[at + 1] = lane_of(val, 1);
        self.mem[at + 2] = lane_of(val, 2);
        self.mem[at + 3] = lane_of(val, 3);
    }
}

/// A byte, half-word or word written to memory is read back unchanged from the same
/// address.
pub proof fn memory_round_trip(m: MemoryModel, addr: u32, byte: u8, half: u16, word: u32)
    requires
        Memory::inv(m),
    ensures
        Memory::serves(m, addr, 1) ==> Memory::spec_read_byte(
            Memory::spec_write_byte(m, addr, byte),
            addr,
        ) == byte,
        Memory::serves(m, addr, 2) ==> Memory::spec_read_hw(
            Memory::spec_write_hw(m, addr, half),
            addr,
        ) == half,
        Memory::serves(m, addr, 4) ==> Memory::spec_read_w(
            Memory::spec_write_w(m, addr, word),
            addr,
        ) == word,
{
    crate::bits::word_of_own_lanes(word);
}

/// A write to memory changes no byte outside the bytes written.
pub proof fn memory_write_is_local(m: MemoryModel, addr: u32, byte: u8, half: u16, word: u32, other: int)
    requires
        Memory::inv(m),
        0 <= other < m.bytes.len(),
    ensures
        Memory::serves(m, addr, 1) && other != addr ==> Memory::spec_write_byte(
            m,
            addr,
            byte,
        ).bytes[other] == m.bytes[other],
        Memory::serves(m, addr, 2) && !(addr <= other < addr + 2) ==> Memory::spec_write_hw(
            m,
            addr,
            half,
        ).bytes[other] == m.bytes[other],
        Memory::serves(m, addr, 4) && !(addr <= other < addr + 4) ==> Memory::spec_write_w(
            m,
            addr,
            word,
        ).bytes[other] == m.bytes[other],
{
}

} // verus!
