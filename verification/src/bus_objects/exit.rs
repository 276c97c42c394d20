//! The halt signal: a one-byte device that a program writes to when it ends.

use vstd::prelude::*;
use crate::bus_objects::{BusObject, MemoryMapping};

verus! {

/// The halt signal. Any non-zero write sets `exit`, and nothing clears it again.
#[derive(Debug)]
pub struct Exit {
    pub exit: bool,
    mapping: MemoryMapping,
}

/// The state of the halt signal.
pub struct ExitModel {
    pub exit: bool,
    pub mapping: MemoryMapping,
}

impl ExitModel {
    /// The state after a write of a value that is non-zero exactly if `raised` holds.
    pub open spec fn written(self, raised: bool) -> ExitModel {
        ExitModel { exit: self.exit || raised, mapping: self.mapping }
    }

    /// What a read returns: 1 once the signal is set, else 0.
    pub open spec fn level(self) -> u8 {
        if self.exit {
            1
        } else {
            0
        }
    }
}

impl Exit {
    /// A halt signal at the address `addr`, not yet set.
    pub fn new(addr: u32) -> (r: Self)
        ensures
            r.model() == (ExitModel { exit: false, mapping: MemoryMapping { start: addr, size: 1 } }),
            Self::inv(r.model()),
    {
        Exit { exit: false, mapping: MemoryMapping { start: addr, size: 1 } }
    }

    /// Whether the signal is set.
    pub fn is_set(&self) -> (b: bool)
        ensures
            b == self.model().exit,
    {
        self.exit
    }
}

impl BusObject for Exit {
    type Model = ExitModel;

    closed spec fn model(&self) -> ExitModel {
        ExitModel { exit: self.exit, mapping: self.mapping }
    }

    open spec fn inv(m: ExitModel) -> bool {
        m.mapping.size == 1
    }

    open spec fn spec_mapping(m: ExitModel) -> MemoryMapping {
        m.mapping
    }

    open spec fn serves(m: ExitModel, addr: u32, width: u32) -> bool {
        addr == 0
    }

    open spec fn spec_read_byte(m: ExitModel, addr: u32) -> u8 {
        m.level()
    }

    open spec fn spec_read_hw(m: ExitModel, addr: u32) -> u16 {
        m.level() as u16
    }

    open spec fn spec_read_w(m: ExitModel, addr: u32) -> u32 {
        m.level() as u32
    }

    open spec fn spec_write_byte(m: ExitModel, addr: u32, val: u8) -> ExitModel {
        m.written(val > 0)
    }

    open spec fn spec_write_hw(m: ExitModel, addr: u32, val: u16) -> ExitModel {
        m.written(val > 0)
    }

    open spec fn spec_write_w(m: ExitModel, addr: u32, val: u32) -> ExitModel {
        m.written(val > 0)
    }

    proof fn write_byte_keeps(m: ExitModel, addr: u32, val: u8) {
    }

    proof fn write_hw_keeps(m: ExitModel, addr: u32, val: u16) {
    }

    proof fn write_w_keeps(m: ExitModel, addr: u32, val: u32) {
    }

    fn mapping(&self) -> (r: MemoryMapping) {
        self.mapping
    }

    fn accepts(&self, addr: u32, width: u32) -> (b: bool) {
        addr == 0
    }

    fn read_byte(&self, _addr: u32) -> (v: u8) {
        if self.exit {
            1
        } else {
            0
        }
    }

    fn read_hw(&self, _addr: u32) -> (v: u16) {
        if self.exit {
            1
        } else {
            0
        }
    }

    fn read_w(&self, _addr: u32) -> (v: u32) {
        if self.exit {
            1
        } else {
            0
        }
    }

    fn write_byte(&mut self, _addr: u32, val: u8) {
        if val > 0 {
            self.exit = true;
        }
    }

    fn write_hw(&mut self, _addr: u32, val: u16) {
        if val > 0 {
            self.exit = true;
        }
    }

    fn write_w(&mut self, _addr: u32, val: u32) {
        if val > 0 {
            self.exit = true;
        }
    }
}

/// Once the halt signal is set, no write clears it.
pub proof fn exit_stays_set(m: ExitModel, addr: u32, byte: u8, half: u16, word: u32)
    requires
        m.exit,
    ensures
        Exit::spec_write_byte(m, addr, byte).exit,
        Exit::spec_write_hw(m, addr, half).exit,
        Exit::spec_write_w(m, addr, word).exit,
{
}

} // verus!
