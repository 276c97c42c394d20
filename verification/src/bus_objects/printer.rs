//! The console sink: a two-byte device that collects characters and hands them out when
//! it is flushed.

use vstd::prelude::*;
use crate::bits::{lane, lane_of};
use crate::bus_objects::{BusObject, MemoryMapping};

verus! {

/// The console sink. A write at offset 0 appends the low byte of the value that the
/// processor stores to the buffer; a write at offset 1 flushes: it moves the buffer to the
/// printed text, which waits there until it is taken.
///
/// A half-word or a word reaches the device as the processor lays it out in memory, most
/// significant byte first, so the low byte of the stored value is the last of its bytes.
#[derive(Debug)]
pub struct Printer {
    buffer: Vec<u8>,
    printed: Vec<u8>,
    mapping: MemoryMapping,
}

/// The state of the console sink.
pub struct PrinterModel {
    /// The characters written since the last flush.
    pub buffer: Seq<u8>,
    /// The characters flushed and not yet taken.
    pub printed: Seq<u8>,
    pub mapping: MemoryMapping,
}

impl PrinterModel {
    /// The state after a write at `addr` of a value that the processor stored with the low
    /// byte `low`.
    pub open spec fn written(self, addr: u32, low: u8) -> PrinterModel {
        if addr == 0 {
            PrinterModel {
                buffer: self.buffer.push(low),
                printed: self.printed,
                mapping: self.mapping,
            }
        } else {
            self.flushed()
        }
    }

    /// The state after a flush.
    pub open spec fn flushed(self) -> PrinterModel {
        PrinterModel {
            buffer: Seq::empty(),
            printed: self.printed + self.buffer,
            mapping: self.mapping,
        }
    }
}

impl Printer {
    /// A console sink at the address `addr`, with nothing buffered and nothing printed.
    pub fn new(addr: u32) -> (r: Self)
        ensures
            r.model() == (PrinterModel {
                buffer: Seq::empty(),
                printed: Seq::empty(),
                mapping: MemoryMapping { start: addr, size: 2 },
            }),
            Self::inv(r.model()),
    {
        Printer {
            buffer: Vec::new(),
            printed: Vec::new(),
            mapping: MemoryMapping { start: addr, size: 2 },
        }
    }

    /// Moves the buffer to the printed text.
    pub fn flush(&mut self)
        ensures
            final(self).model() == old(self).model().flushed(),
    {
        self.printed.append(&mut self.buffer);
    }

    /// Hands out the printed text and leaves none behind.
    pub fn take_printed(&mut self) -> (text: Vec<u8>)
        ensures
            text@ == old(self).model().printed,
            final(self).model() == (PrinterModel {
                buffer: old(self).model().buffer,
                printed: Seq::empty(),
                mapping: old(self).model().mapping,
            }),
    {
        let mut text: Vec<u8> = Vec::new();
        text.append(&mut self.printed);
        text
    }
}

impl BusObject for Printer {
    type Model = PrinterModel;

    closed spec fn model(&self) -> PrinterModel {
        PrinterModel { buffer: self.buffer@, printed: self.printed@, mapping: self.mapping }
    }

    open spec fn inv(m: PrinterModel) -> bool {
        m.mapping.size == 2
    }

    open spec fn spec_mapping(m: PrinterModel) -> MemoryMapping {
        m.mapping
    }

    open spec fn serves(m: PrinterModel, addr: u32, width: u32) -> bool {
        addr < 2
    }

    open spec fn spec_read_byte(m: PrinterModel, addr: u32) -> u8 {
        0
    }

    open spec fn spec_read_hw(m: PrinterModel, addr: u32) -> u16 {
        0
    }

    open spec fn spec_read_w(m: PrinterModel, addr: u32) -> u32 {
        0
    }

    open spec fn spec_write_byte(m: PrinterModel, addr: u32, val: u8) -> PrinterModel {
        m.written(addr, val)
    }

    open spec fn spec_write_hw(m: PrinterModel, addr: u32, val: u16) -> PrinterModel {
        m.written(addr, (val / 0x100) as u8)
    }

    open spec fn spec_write_w(m: PrinterModel, addr: u32, val: u32) -> PrinterModel {
        m.written(addr, lane(val, 3))
    }

    proof fn write_byte_keeps(m: PrinterModel, addr: u32, val: u8) {
    }

    proof fn write_hw_keeps(m: PrinterModel, addr: u32, val: u16) {
    }

    proof fn write_w_keeps(m: PrinterModel, addr: u32, val: u32) {
    }

    fn mapping(&self) -> (r: MemoryMapping) {
        self.mapping
    }

    fn accepts(&self, addr: u32, width: u32) -> (b: bool) {
        addr < 2
    }

    fn read_byte(&self, _addr: u32) -> (v: u8) {
        0
    }

    fn read_hw(&self, _addr: u32) -> (v: u16) {
        0
    }

    fn read_w(&self, _addr: u32) -> (v: u32) {
        0
    }

    fn write_byte(&mut self, addr: u32, val: u8) {
        if addr == 0 {
            self.buffer.push(val);
        } else {
            self.flush();
        }
    }

    fn write_hw(&mut self, addr: u32, val: u16) {
        if addr == 0 {
            self.buffer.push((val / 0x100) as u8);
        } else {
            self.flush();
        }
    }

    fn write_w(&mut self, addr: u32, val: u32) {
        if addr == 0 {
            self.buffer.push(lane_of(val, 3));
        } else {
            self.flush();
        }
    }
}

} // verus!
