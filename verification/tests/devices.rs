use mips_sim::bus_objects::device::Device;
use mips_sim::bus_objects::exit::Exit;
use mips_sim::bus_objects::memory::Memory;
use mips_sim::bus_objects::printer::Printer;
use mips_sim::bus_objects::BusObject;
use mips_sim::bus_objects::MemoryMapping;

#[test]
fn exit_starts_clear_at_its_address() {
    let exit = Exit::new(0x40);
    assert_eq!(exit.mapping().start, 0x40);
    assert_eq!(exit.mapping().size, 1);
    assert!(!exit.exit);
    assert!(!exit.is_set());
    assert_eq!(exit.read_byte(0), 0);
    assert_eq!(exit.read_hw(0), 0);
    assert_eq!(exit.read_w(0), 0);
}

#[test]
fn exit_latches_on_any_non_zero_write() {
    let mut exit = Exit::new(1);
    exit.write_byte(0, 0);
    assert!(!exit.is_set());
    exit.write_hw(0, 0);
    exit.write_w(0, 0);
    assert!(!exit.is_set());
    exit.write_byte(0, 7);
    assert!(exit.is_set());
    assert_eq!(exit.read_byte(0), 1);
    assert_eq!(exit.read_hw(0), 1);
    assert_eq!(exit.read_w(0), 1);
}

#[test]
fn exit_never_clears_again() {
    let mut exit = Exit::new(1);
    exit.write_w(0, 0x8000_0000);
    assert!(exit.is_set());
    exit.write_byte(0, 0);
    exit.write_hw(0, 0);
    exit.write_w(0, 0);
    assert!(exit.is_set());
    let mut other = Exit::new(1);
    other.write_hw(0, 0x0100);
    assert!(other.is_set());
}

#[test]
fn exit_serves_only_its_one_byte() {
    let exit = Exit::new(9);
    assert!(exit.accepts(0, 1));
    assert!(exit.accepts(0, 4));
    assert!(!exit.accepts(1, 1));
}

#[test]
fn printer_collects_until_flushed() {
    let mut printer = Printer::new(0x10);
    assert_eq!(printer.mapping().start, 0x10);
    assert_eq!(printer.mapping().size, 2);
    printer.write_byte(0, b'h');
    printer.write_byte(0, b'i');
    assert_eq!(printer.take_printed(), Vec::<u8>::new());
    printer.write_byte(1, 0);
    assert_eq!(printer.take_printed(), vec![b'h', b'i']);
    assert_eq!(printer.take_printed(), Vec::<u8>::new());
    printer.write_byte(0, b'!');
    printer.flush();
    assert_eq!(printer.take_printed(), vec![b'!']);
}

#[test]
fn printer_flush_keeps_the_order_of_the_text() {
    let mut printer = Printer::new(0);
    printer.write_byte(0, 1);
    printer.write_byte(1, 9);
    printer.write_byte(0, 2);
    printer.write_hw(1, 0);
    printer.write_byte(0, 3);
    printer.write_w(1, 0xFFFF_FFFF);
    assert_eq!(printer.take_printed(), vec![1, 2, 3]);
}

#[test]
fn printer_takes_the_last_byte_of_a_wide_value() {
    let mut printer = Printer::new(0);
    printer.write_w(0, 0x4100_0000);
    printer.write_hw(0, 0x4200);
    printer.write_w(0, 0x0000_0043);
    printer.write_hw(0, 0x0044);
    printer.flush();
    assert_eq!(printer.take_printed(), vec![0x41, 0x42, 0, 0]);
}

#[test]
fn printer_reads_zero_and_serves_two_bytes() {
    let mut printer = Printer::new(0);
    printer.write_byte(0, 0x55);
    assert_eq!(printer.read_byte(0), 0);
    assert_eq!(printer.read_hw(1), 0);
    assert_eq!(printer.read_w(0), 0);
    assert!(printer.accepts(0, 1));
    assert!(printer.accepts(1, 4));
    assert!(!printer.accepts(2, 1));
}

#[test]
fn device_forwards_to_what_it_holds() {
    let mut memory = Device::Memory(Memory::from_vec(vec![0; 8], MemoryMapping { start: 0x20, size: 8 }));
    let mut printer = Device::Printer(Printer::new(0x30));
    let mut exit = Device::Exit(Exit::new(0x40));
    assert_eq!(memory.mapping().start, 0x20);
    assert_eq!(printer.mapping().size, 2);
    assert_eq!(exit.mapping().size, 1);
    memory.write_w(4, 0xCAFE_F00D);
    assert_eq!(memory.read_w(4), 0xCAFE_F00D);
    assert_eq!(memory.read_hw(4), 0xF00D);
    assert_eq!(memory.read_byte(7), 0xCA);
    assert!(!memory.accepts(5, 4));
    printer.write_byte(0, b'x');
    printer.write_byte(1, 1);
    assert_eq!(printer.take_printed(), vec![b'x']);
    assert_eq!(memory.take_printed(), Vec::<u8>::new());
    exit.write_hw(0, 3);
    assert_eq!(exit.read_byte(0), 1);
    assert_eq!(exit.take_printed(), Vec::<u8>::new());
}
