//! The devices that this library brings, as one type, so that a bus can hold them side
//! by side.

use vstd::prelude::*;
use crate::bus_objects::{BusObject, MemoryMapping};
use crate::bus_objects::exit::{Exit, ExitModel};
use crate::bus_objects::memory::{Memory, MemoryModel};
use crate::bus_objects::printer::{Printer, PrinterModel};

verus! {

/// A memory, a console sink or a halt signal.
#[derive(Debug)]
pub enum Device {
    Memory(Memory),
    Printer(Printer),
    Exit(Exit),
}

/// The state of a memory, a console sink or a halt signal.
pub enum DeviceModel {
    Memory(MemoryModel),
    Printer(PrinterModel),
    Exit(ExitModel),
}

impl BusObject for Device {
    type Model = DeviceModel;

    open spec fn model(&self) -> DeviceModel {
        match self {
            Device::Memory(d) => DeviceModel::Memory(d.model()),
            Device::Printer(d) => DeviceModel::Printer(d.model()),
            Device::Exit(d) => DeviceModel::Exit(d.model()),
        }
    }

    open spec fn inv(m: DeviceModel) -> bool {
        match m {
            DeviceModel::Memory(d) => Memory::inv(d),
            DeviceModel::Printer(d) => Printer::inv(d),
            DeviceModel::Exit(d) => Exit::inv(d),
        }
    }

    open spec fn spec_mapping(m: DeviceModel) -> MemoryMapping {
        match m {
            DeviceModel::Memory(d) => Memory::spec_mapping(d),
            DeviceModel::Printer(d) => Printer::spec_mapping(d),
            DeviceModel::Exit(d) => Exit::spec_mapping(d),
        }
    }

    open spec fn serves(m: DeviceModel, addr: u32, width: u32) -> bool {
        match m {
            DeviceModel::Memory(d) => Memory::serves(d, addr, width),
            DeviceModel::Printer(d) => Printer::serves(d, addr, width),
            DeviceModel::Exit(d) => Exit::serves(d, addr, width),
        }
    }

    open spec fn spec_read_byte(m: DeviceModel, addr: u32) -> u8 {
        match m {
            DeviceModel::Memory(d) => Memory::spec_read_byte(d, addr),
            DeviceModel::Printer(d) => Printer::spec_read_byte(d, addr),
            DeviceModel::Exit(d) => Exit::spec_read_byte(d, addr),
        }
    }

    open spec fn spec_read_hw(m: DeviceModel, addr: u32) -> u16 {
        match m {
            DeviceModel::Memory(d) => Memory::spec_read_hw(d, addr),
            DeviceModel::Printer(d) => Printer::spec_read_hw(d, addr),
            DeviceModel::Exit(d) => Exit::spec_read_hw(d, addr),
        }
    }

    open spec fn spec_read_w(m: DeviceModel, addr: u32) -> u32 {
        match m {
            DeviceModel::Memory(d) => Memory::spec_read_w(d, addr),
            DeviceModel::Printer(d) => Printer::spec_read_w(d, addr),
            DeviceModel::Exit(d) => Exit::spec_read_w(d, addr),
        }
    }

    open spec fn spec_write_byte(m: DeviceModel, addr: u32, val: u8) -> DeviceModel {
        match m {
            DeviceModel::Memory(d) => DeviceModel::Memory(Memory::spec_write_byte(d, addr, val)),
            DeviceModel::Printer(d) => DeviceModel::Printer(Printer::spec_write_byte(d, addr, val)),
            DeviceModel::Exit(d) => DeviceModel::Exit(Exit::spec_write_byte(d, addr, val)),
        }
    }

    open spec fn spec_write_hw(m: DeviceModel, addr: u32, val: u16) -> DeviceModel {
        match m {
            DeviceModel::Memory(d) => DeviceModel::Memory(Memory::spec_write_hw(d, addr, val)),
            DeviceModel::Printer(d) => DeviceModel::Printer(Printer::spec_write_hw(d, addr, val)),
            DeviceModel::Exit(d) => DeviceModel::Exit(Exit::spec_write_hw(d, addr, val)),
        }
    }

    open spec fn spec_write_w(m: DeviceModel, addr: u32, val: u32) -> DeviceModel {
        match m {
            DeviceModel::Memory(d) => DeviceModel::Memory(Memory::spec_write_w(d, addr, val)),
            DeviceModel::Printer(d) => DeviceModel::Printer(Printer::spec_write_w(d, addr, val)),
            DeviceModel::Exit(d) => DeviceModel::Exit(Exit::spec_write_w(d, addr, val)),
        }
    }

    proof fn write_byte_keeps(m: DeviceModel, addr: u32, val: u8) {
        match m {
            DeviceModel::Memory(d) => Memory::write_byte_keeps(d, addr, val),
            DeviceModel::Printer(d) => Printer::write_byte_keeps(d, addr, val),
            DeviceModel::Exit(d) => Exit::write_byte_keeps(d, addr, val),
        }
    }

    proof fn write_hw_keeps(m: DeviceModel, addr: u32, val: u16) {
        match m {
            DeviceModel::Memory(d) => Memory::write_hw_keeps(d, addr, val),
            DeviceModel::Printer(d) => Printer::write_hw_keeps(d, addr, val),
            DeviceModel::Exit(d) => Exit::write_hw_keeps(d, addr, val),
        }
    }

    proof fn write_w_keeps(m: DeviceModel, addr: u32, val: u32) {
        match m {
            DeviceModel::Memory(d) => Memory::write_w_keeps(d, addr, val),
            DeviceModel::Printer(d) => Printer::write_w_keeps(d, addr, val),
            DeviceModel::Exit(d) => Exit::write_w_keeps(d, addr, val),
        }
    }

    fn mapping(&self) -> (r: MemoryMapping) {
        match self {
            Device::Memory(d) => d.mapping(),
            Device::Printer(d) => d.mapping(),
            Device::Exit(d) => d.mapping(),
        }
    }

    fn accepts(&self, addr: u32, width: u32) -> (b: bool) {
        match self {
            Device::Memory(d) => d.accepts(addr, width),
            Device::Printer(d) => d.accepts(addr, width),
            Device::Exit(d) => d.accepts(addr, width),
        }
    }

    fn read_byte(&self, addr: u32) -> (v: u8) {
        match self {
            Device::Memory(d) => d.read_byte(addr),
            Device::Printer(d) => d.read_byte(addr),
            Device::Exit(d) => d.read_byte(addr),
        }
    }

    fn read_hw(&self, addr: u32) -> (v: u16) {
        match self {
            Device::Memory(d) => d.read_hw(addr),
            Device::Printer(d) => d.read_hw(addr),
            Device::Exit(d) => d.read_hw(addr),
        }
    }

    fn read_w(&self, addr: u32) -> (v: u32) {
        match self {
            Device::Memory(d) => d.read_w(addr),
            Device::Printer(d) => d.read_w(addr),
            Device::Exit(d) => d.read_w(addr),
        }
    }

    fn write_byte(&mut self, addr: u32, val: u8) {
        match self {
            Device::Memory(d) => d.write_byte(addr, val),
            Device::Printer(d) => d.write_byte(addr, val),
            Device::Exit(d) => d.write_byte(addr, val),
        }
    }

    fn write_hw(&mut self, addr: u32, val: u16) {
        match self {
            Device::Memory(d) => d.write_hw(addr, val),
            Device::Printer(d) => d.write_hw(addr, val),
            Device::Exit(d) => d.write_hw(addr, val),
        }
    }

    fn write_w(&mut self, addr: u32, val: u32) {
        match self {
            Device::Memory(d) => d.write_w(addr, val),
            Device::Printer(d) => d.write_w(addr, val),
            Device::Exit(d) => d.write_w(addr, val),
        }
    }
}

impl DeviceModel {
    /// The text that the device has printed and nobody has taken: none unless it is a
    /// console sink.
    pub open spec fn printed(self) -> Seq<u8> {
        match self {
            DeviceModel::Printer(p) => p.printed,
            _ => Seq::empty(),
        }
    }

    /// The state after the printed text is taken.
    pub open spec fn taken(self) -> DeviceModel {
        match self {
            DeviceModel::Printer(p) => DeviceModel::Printer(
                PrinterModel { buffer: p.buffer, printed: Seq::empty(), mapping: p.mapping },
            ),
            other => other,
        }
    }
}

/// The printed texts of the devices, one after the other.
pub open spec fn printed_by(devices: Seq<DeviceModel>) -> Seq<u8>
    decreases devices.len(),
{
    if devices.len() == 0 {
        Seq::empty()
    } else {
        printed_by(devices.drop_last()) + devices.last().printed()
    }
}

impl Device {
    /// Hands out the text that the device has printed and leaves none behind.
    pub fn take_printed(&mut self) -> (text: Vec<u8>)
        ensures
            text@ == old(self).model().printed(),
            final(self).model() == old(self).model().taken(),
    {
        match self {
            Device::Printer(p) => p.take_printed(),
            _ => Vec::new(),
        }
    }
}

} // verus!
