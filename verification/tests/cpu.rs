use mips_sim::bus_objects::device::Device;
use mips_sim::bus_objects::exit::Exit;
use mips_sim::bus_objects::memory::Memory;
use mips_sim::bus_objects::printer::Printer;
use mips_sim::bus_objects::Bus;
use mips_sim::bus_objects::MemoryMapping;
use mips_sim::cpu::instruction_info::DecodeError;
use mips_sim::cpu::instruction_info::InstructionInfos;
use mips_sim::cpu::instruction_info::Operation;
use mips_sim::cpu::instructions::{ITypeInstruction, JTypeInstruction, RTypeInstruction};
use mips_sim::cpu::register_name;
use mips_sim::cpu::Fault;
use mips_sim::cpu::MipsCpu;

const PRINTER: u32 = 0x2000;
const EXIT: u32 = 0x3000;

fn program(at: u32, words: &[u32]) -> Bus<Device> {
    let mut bytes = vec![0u8; 0x400];
    for (k, word) in words.iter().enumerate() {
        bytes[4 * k..4 * k + 4].copy_from_slice(&word.to_be_bytes());
    }
    let ram = Memory::from_vec(bytes, MemoryMapping { start: at, size: 0x400 });
    Bus::new(
        0,
        0,
        vec![Device::Memory(ram), Device::Printer(Printer::new(PRINTER)), Device::Exit(Exit::new(EXIT))],
    )
    .unwrap()
}

fn i_type(op: u32, rs: u32, rt: u32, immediate: u32) -> u32 {
    (op << 26) | (rs << 21) | (rt << 16) | (immediate & 0xFFFF)
}

fn r_type(rs: u32, rt: u32, rd: u32, shamt: u32, funct: u32) -> u32 {
    (rs << 21) | (rt << 16) | (rd << 11) | (shamt << 6) | funct
}

fn addi(rt: u32, rs: u32, immediate: u32) -> u32 {
    i_type(0b001000, rs, rt, immediate)
}

fn operation(info: InstructionInfos) -> Operation {
    match info {
        InstructionInfos::IType(i) => i.f,
        InstructionInfos::JType(i) => i.f,
        InstructionInfos::RType(i) => i.f,
    }
}

#[test]
fn a_new_processor_is_cleared() {
    let mut bus = program(0, &[]);
    let cpu = MipsCpu::new(&mut bus, 0xBFC0_0000);
    assert_eq!(cpu.pc(), 0xBFC0_0000);
    assert_eq!(cpu.hi(), 0);
    assert_eq!(cpu.lo(), 0);
    assert_eq!(cpu.pending_branch(), None);
    for index in 0..32 {
        assert_eq!(cpu.get_register(index), 0);
        assert_eq!(cpu.get_register_nc(index), 0);
    }
}

#[test]
fn register_zero_stays_zero() {
    let mut bus = program(0, &[addi(0, 0, 5), i_type(0b001111, 0, 0, 0xFFFF), r_type(0, 0, 0, 0, 0b100111)]);
    let mut cpu = MipsCpu::new(&mut bus, 0);
    for value in [0u32, 1, 0x8000_0000, 0xFFFF_FFFF, 0x1234_5678] {
        cpu.set_register(0, value);
        assert_eq!(cpu.get_register(0), 0);
        cpu.set_register_nc(0, value);
        assert_eq!(cpu.get_register(0), 0);
        assert_eq!(cpu.get_register_nc(0), 0);
    }
    for _ in 0..3 {
        cpu.step().unwrap();
        assert_eq!(cpu.get_register(0), 0);
    }
    assert_eq!(cpu.pc(), 12);
}

#[test]
fn registers_keep_what_is_written() {
    let mut bus = program(0, &[]);
    let mut cpu = MipsCpu::new(&mut bus, 0);
    for index in 1..32u8 {
        cpu.set_register(index, 0x0100_0000 + index as u32);
    }
    for index in 1..32u8 {
        assert_eq!(cpu.get_register(index), 0x0100_0000 + index as u32);
        assert_eq!(cpu.get_register_nc(index), ((index as u32) << 24) + 1);
    }
    cpu.set_register_nc(7, 0x1122_3344);
    assert_eq!(cpu.get_register(7), 0x4433_2211);
    assert_eq!(cpu.get_register_nc(7), 0x1122_3344);
    assert_eq!(cpu.get_register(6), 0x0100_0006);
    assert_eq!(cpu.get_register(8), 0x0100_0008);
}

#[test]
fn stack_and_global_pointer() {
    let mut bus = program(0, &[]);
    let mut cpu = MipsCpu::new(&mut bus, 0);
    cpu.set_stack_start(0x7FFF_FFF0);
    assert_eq!(cpu.get_register(29), 0x7FFF_FFF0);
    assert_eq!(cpu.get_register(30), 0x7FFF_FFF0);
    assert_eq!(cpu.get_register(28), 0);
    for value in [1u32, 0x0041_8000, 0x1000_8FF0, 0x8000_0000, 0xFFFF_FFFF, 0] {
        cpu.init_gp(value);
        assert_eq!(cpu.get_register(28), value);
        assert_eq!(cpu.get_register_nc(28), value.swap_bytes());
        assert_eq!(cpu.get_register(29), 0x7FFF_FFF0);
        assert_eq!(cpu.get_register(27), 0);
    }
}

#[test]
fn a_step_executes_one_instruction_and_moves_on() {
    let mut bus = program(0x100, &[addi(1, 0, 5), addi(1, 1, 0xFFFF), r_type(1, 1, 2, 0, 0b100001)]);
    let mut cpu = MipsCpu::new(&mut bus, 0x100);
    let first = cpu.step().unwrap();
    assert_eq!(operation(first), Operation::Addi);
    match first {
        InstructionInfos::IType(i) => {
            assert_eq!(i.memonic, "addi");
            assert_eq!(i.decoded_instruction.rt(), 1);
            assert_eq!(i.decoded_instruction.rs(), 0);
            assert_eq!(i.decoded_instruction.immediate(), 5);
        },
        _ => panic!("addi is a register-immediate instruction"),
    }
    assert_eq!(cpu.get_register(1), 5);
    assert_eq!(cpu.pc(), 0x104);
    cpu.step().unwrap();
    assert_eq!(cpu.get_register(1), 4);
    assert_eq!(operation(cpu.step().unwrap()), Operation::Addu);
    assert_eq!(cpu.get_register(2), 8);
    assert_eq!(cpu.pc(), 0x10C);
    assert_eq!(operation(cpu.fetch().unwrap()), Operation::Sll);
}

#[test]
fn branch_takes_effect_after_the_delay_slot() {
    let beq = i_type(0b000100, 0, 0, 3);
    let mut bus = program(0x100, &[beq, addi(1, 1, 1), addi(3, 0, 9), addi(3, 0, 9), addi(2, 0, 7)]);
    let mut cpu = MipsCpu::new(&mut bus, 0x100);
    cpu.step().unwrap();
    assert_eq!(cpu.pc(), 0x104);
    assert_eq!(cpu.pending_branch(), Some(0x110));
    assert_eq!(cpu.get_register(1), 0);
    cpu.step().unwrap();
    assert_eq!(cpu.pc(), 0x110);
    assert_eq!(cpu.pending_branch(), None);
    assert_eq!(cpu.get_register(1), 1);
    cpu.step().unwrap();
    assert_eq!(cpu.pc(), 0x114);
    assert_eq!(cpu.get_register(1), 1);
    assert_eq!(cpu.get_register(2), 7);
    assert_eq!(cpu.get_register(3), 0);
}

#[test]
fn a_branch_not_taken_goes_straight_on() {
    let bne = i_type(0b000101, 0, 0, 3);
    let mut bus = program(0, &[bne, addi(1, 1, 1), addi(1, 1, 1)]);
    let mut cpu = MipsCpu::new(&mut bus, 0);
    cpu.step().unwrap();
    assert_eq!((cpu.pc(), cpu.pending_branch()), (4, None));
    cpu.step().unwrap();
    cpu.step().unwrap();
    assert_eq!(cpu.pc(), 12);
    assert_eq!(cpu.get_register(1), 2);
}

#[test]
fn jump_and_link_returns_past_the_delay_slot() {
    let jal = (0b000011 << 26) | (0x40 >> 2);
    let jr_ra = r_type(31, 0, 0, 0, 0b001000);
    let mut words = vec![0u32; 0x20];
    words[0] = jal;
    words[1] = addi(1, 0, 1);
    words[2] = addi(3, 0, 3);
    words[0x10] = addi(2, 0, 2);
    words[0x11] = jr_ra;
    words[0x12] = addi(4, 0, 4);
    let mut bus = program(0, &words);
    let mut cpu = MipsCpu::new(&mut bus, 0);
    cpu.step().unwrap();
    assert_eq!(cpu.get_register(31), 8);
    cpu.step().unwrap();
    assert_eq!(cpu.pc(), 0x40);
    cpu.step().unwrap();
    cpu.step().unwrap();
    assert_eq!(cpu.pending_branch(), Some(8));
    cpu.step().unwrap();
    assert_eq!(cpu.pc(), 8);
    cpu.step().unwrap();
    assert_eq!(
        (cpu.get_register(1), cpu.get_register(2), cpu.get_register(3), cpu.get_register(4)),
        (1, 2, 3, 4)
    );
    assert_eq!(cpu.pc(), 12);
}

#[test]
fn end_to_end_prints_one_character() {
    let sw = i_type(0b101011, 0, 1, PRINTER);
    let flush = i_type(0b101000, 0, 1, PRINTER + 1);
    let mut bus = program(0, &[addi(1, 0, 5), sw, flush]);
    let mut cpu = MipsCpu::new(&mut bus, 0);
    let mut output: Vec<u8> = Vec::new();
    for _ in 0..3 {
        cpu.step().unwrap();
        output.extend(cpu.bus.take_printed());
    }
    assert_eq!(output, vec![5u8]);
    assert_eq!(cpu.pc(), 12);
    assert_eq!(cpu.get_register(1), 5);
}

#[test]
fn a_program_halts_through_the_exit_device() {
    let sb_exit = i_type(0b101000, 0, 1, EXIT);
    let mut bus = program(0, &[addi(1, 0, 1), sb_exit, addi(2, 0, 2)]);
    let mut cpu = MipsCpu::new(&mut bus, 0);
    let mut steps = 0;
    while cpu.read_byte(EXIT) == Ok(0) {
        cpu.step().unwrap();
        steps += 1;
    }
    assert_eq!(steps, 2);
    assert_eq!(cpu.get_register(2), 0);
    assert!(cpu.accepts(EXIT, 1));
    assert!(!cpu.accepts(EXIT + 1, 1));
}

#[test]
fn fetch_outside_every_device_is_a_fault() {
    let mut bus = program(0x100, &[addi(1, 0, 5)]);
    let mut cpu = MipsCpu::new(&mut bus, 0x8000);
    assert_eq!(cpu.step().unwrap_err(), Fault::InvalidAddress { addr: 0x8000 });
    assert_eq!(cpu.pc(), 0x8000);
    assert_eq!(cpu.fetch().unwrap_err(), Fault::InvalidAddress { addr: 0x8000 });
    assert_eq!(cpu.read_w(0x8000), Err(Fault::InvalidAddress { addr: 0x8000 }));
    assert_eq!(cpu.read_hw(0x4FE), Ok(0));
    assert_eq!(cpu.read_hw(0x4FF), Err(Fault::InvalidAddress { addr: 0x4FF }));
}

#[test]
fn an_illegal_instruction_is_a_fault_with_word_and_address() {
    let mut bus = program(0x100, &[addi(1, 0, 5), 0x0000_000C, 0x4000_0000, 0xFFFF_FFFF, 0x0000_000D]);
    let mut cpu = MipsCpu::new(&mut bus, 0x100);
    cpu.step().unwrap();
    assert_eq!(
        cpu.step().unwrap_err(),
        Fault::IllegalInstruction { word: 0xC, pc: 0x104, reason: DecodeError::Syscall }
    );
    assert_eq!(cpu.pc(), 0x104);
    assert_eq!(cpu.get_register(1), 5);
    let expected = [
        (0x108, 0x4000_0000, DecodeError::Coprocessor),
        (0x10C, 0xFFFF_FFFF, DecodeError::Unknown),
        (0x110, 0x0000_000D, DecodeError::Break),
    ];
    for (pc, word, reason) in expected {
        let mut other_bus = program(0x100, &[addi(1, 0, 5), 0x0000_000C, 0x4000_0000, 0xFFFF_FFFF, 0x0000_000D]);
        let mut other = MipsCpu::new(&mut other_bus, pc);
        assert_eq!(other.step().unwrap_err(), Fault::IllegalInstruction { word, pc, reason });
    }
}

#[test]
fn a_fault_in_an_instruction_leaves_the_state() {
    let lw = i_type(0b100011, 0, 1, 0x7000);
    let div = r_type(1, 0, 0, 0, 0b011010);
    let mut bus = program(0, &[lw, div]);
    let mut cpu = MipsCpu::new(&mut bus, 0);
    assert_eq!(cpu.step().unwrap_err(), Fault::InvalidAddress { addr: 0x7000 });
    assert_eq!(cpu.pc(), 0);
    let mut second_bus = program(0, &[lw, div]);
    let mut second = MipsCpu::new(&mut second_bus, 4);
    assert_eq!(second.step().unwrap_err(), Fault::DivideByZero);
    assert_eq!(second.pc(), 4);
}

#[test]
fn the_program_counter_wraps() {
    let mut bus = program(0xFFFF_FC00, &[]);
    let mut cpu = MipsCpu::new(&mut bus, 0xFFFF_FFFC);
    cpu.step().unwrap();
    assert_eq!(cpu.pc(), 0);
}

#[test]
fn execute_runs_a_decoded_instruction() {
    let mut bus = program(0, &[i_type(0b001101, 0, 9, 0xBEEF)]);
    let mut cpu = MipsCpu::new(&mut bus, 0);
    let info = cpu.fetch().unwrap();
    assert_eq!(cpu.execute(info), Ok(()));
    assert_eq!(cpu.get_register(9), 0xBEEF);
    assert_eq!(cpu.pc(), 0);
    assert_eq!(cpu.execute(info), Ok(()));
    assert_eq!(cpu.write_w(0x200, 0x0102_0304), Ok(()));
    assert_eq!(cpu.read_w(0x200), Ok(0x0102_0304));
    assert_eq!(cpu.write_hw(0x7000, 1), Err(Fault::InvalidAddress { addr: 0x7000 }));
    assert_eq!(cpu.write_w(0x3FE, 1), Err(Fault::InvalidAddress { addr: 0x3FE }));
    assert_eq!(cpu.write_hw(0x3FE, 0xABCD), Ok(()));
    assert_eq!(cpu.read_byte(0x3FF), Ok(0xAB));
}

#[test]
fn each_shape_of_operands_has_its_own_executor() {
    let mut bus = program(0, &[]);
    let mut cpu = MipsCpu::new(&mut bus, 0x1000_0000);
    let load = ITypeInstruction { op: 0b001111, rs: 0, rt: 4, immediate: 0x00AB };
    assert_eq!(cpu.execute_i(Operation::Lui, load), Ok(()));
    assert_eq!(cpu.get_register(4), 0x00AB_0000);
    let shift = RTypeInstruction { op: 0, rs: 0, rt: 4, rd: 5, shamt: 16, funct: 0b000010 };
    assert_eq!(cpu.execute_r(Operation::Srl, shift), Ok(()));
    assert_eq!(cpu.get_register(5), 0xAB);
    let divide = RTypeInstruction { op: 0, rs: 4, rt: 0, rd: 0, shamt: 0, funct: 0b011011 };
    assert_eq!(cpu.execute_r(Operation::Divu, divide), Err(Fault::DivideByZero));
    let jump = JTypeInstruction { op: 0b000011, target: 0x10 };
    assert_eq!(cpu.execute_j(Operation::Jal, jump), Ok(()));
    assert_eq!(cpu.pending_branch(), Some(0x1000_0040));
    assert_eq!(cpu.get_register(31), 0x1000_0008);
    let store = ITypeInstruction { op: 0b101011, rs: 0, rt: 4, immediate: 0x7000 };
    assert_eq!(cpu.execute_i(Operation::Sw, store), Err(Fault::InvalidAddress { addr: 0x7000 }));
}

#[test]
fn registers_have_their_conventional_names() {
    let names = [
        "zero", "at", "v0", "v1", "a0", "a1", "a2", "a3", "t0", "t1", "t2", "t3", "t4", "t5", "t6",
        "t7", "s0", "s1", "s2", "s3", "s4", "s5", "s6", "s7", "t8", "t9", "k0", "k1", "gp", "sp",
        "s8|fp", "ra",
    ];
    for (index, name) in names.iter().enumerate() {
        assert_eq!(register_name(index as u8), *name);
    }
}
