use mips_sim::bus_objects::device::Device;
use mips_sim::bus_objects::exit::Exit;
use mips_sim::bus_objects::memory::Memory;
use mips_sim::bus_objects::printer::Printer;
use mips_sim::bus_objects::Bus;
use mips_sim::bus_objects::MemoryMapping;
use mips_sim::cpu::instructions;
use mips_sim::cpu::instructions::ITypeInstruction;
use mips_sim::cpu::instructions::JTypeInstruction;
use mips_sim::cpu::instructions::RTypeInstruction;
use mips_sim::cpu::Fault;
use mips_sim::cpu::MipsCpu;

fn machine() -> Bus<Device> {
    let ram = Memory::from_vec(vec![0; 0x1002], MemoryMapping { start: 0, size: 0x1002 });
    Bus::new(
        0,
        0,
        vec![Device::Printer(Printer::new(0x2000)), Device::Memory(ram), Device::Exit(Exit::new(0x3000))],
    )
    .unwrap()
}

fn imm(rs: u8, rt: u8, immediate: u16) -> ITypeInstruction {
    ITypeInstruction { op: 0, rs, rt, immediate }
}

fn reg(rs: u8, rt: u8, rd: u8) -> RTypeInstruction {
    RTypeInstruction { op: 0, rs, rt, rd, shamt: 0, funct: 0 }
}

fn shift(rt: u8, rd: u8, shamt: u8) -> RTypeInstruction {
    RTypeInstruction { op: 0, rs: 0, rt, rd, shamt, funct: 0 }
}

fn registers(cpu: &MipsCpu<'_, Device>) -> Vec<u32> {
    (0..32).map(|i| cpu.get_register(i)).collect()
}

fn fill(cpu: &mut MipsCpu<'_, Device>, at: u32, bytes: &[u8]) {
    for (k, b) in bytes.iter().enumerate() {
        cpu.write_byte(at + k as u32, *b).unwrap();
    }
}

fn bytes_at(cpu: &MipsCpu<'_, Device>, at: u32, n: u32) -> Vec<u8> {
    (0..n).map(|k| cpu.read_byte(at + k).unwrap()).collect()
}

#[test]
fn sign_extension_of_addi_against_andi() {
    let mut bus = machine();
    let mut cpu = MipsCpu::new(&mut bus, 0);
    cpu.set_register(2, 5);
    instructions::addi(&mut cpu, imm(2, 1, 0xFFFF));
    assert_eq!(cpu.get_register(1), 4);
    instructions::andi(&mut cpu, imm(2, 1, 0xFFFF));
    assert_eq!(cpu.get_register(1), 5);
}

#[test]
fn immediate_arithmetic_and_logic() {
    let mut bus = machine();
    let mut cpu = MipsCpu::new(&mut bus, 0);
    cpu.set_register(2, 0xFFFF_FFFF);
    instructions::addiu(&mut cpu, imm(2, 1, 1));
    assert_eq!(cpu.get_register(1), 0);
    cpu.set_register(2, 0x0001_0000);
    instructions::addiu(&mut cpu, imm(2, 1, 0x8000));
    assert_eq!(cpu.get_register(1), 0x0000_8000);
    instructions::addi(&mut cpu, imm(0, 1, 0x7FFF));
    assert_eq!(cpu.get_register(1), 0x7FFF);
    cpu.set_register(2, 0xF0F0_F0F0);
    instructions::andi(&mut cpu, imm(2, 1, 0xFF00));
    assert_eq!(cpu.get_register(1), 0x0000_F000);
    instructions::ori(&mut cpu, imm(2, 1, 0x0F0F));
    assert_eq!(cpu.get_register(1), 0xF0F0_FFFF);
    instructions::xori(&mut cpu, imm(2, 1, 0xFFFF));
    assert_eq!(cpu.get_register(1), 0xF0F0_0F0F);
    instructions::lui(&mut cpu, imm(0, 1, 0x1234));
    assert_eq!(cpu.get_register(1), 0x1234_0000);
    instructions::lui(&mut cpu, imm(0, 1, 0xFFFF));
    assert_eq!(cpu.get_register(1), 0xFFFF_0000);
}

#[test]
fn register_arithmetic_and_logic() {
    let mut bus = machine();
    let mut cpu = MipsCpu::new(&mut bus, 0);
    cpu.set_register(1, 5);
    cpu.set_register(2, 7);
    instructions::add(&mut cpu, reg(1, 2, 3));
    assert_eq!(cpu.get_register(3), 12);
    instructions::addu(&mut cpu, reg(1, 2, 3));
    assert_eq!(cpu.get_register(3), 12);
    instructions::sub(&mut cpu, reg(1, 2, 3));
    assert_eq!(cpu.get_register(3), 0xFFFF_FFFE);
    instructions::subu(&mut cpu, reg(2, 1, 3));
    assert_eq!(cpu.get_register(3), 2);
    cpu.set_register(1, 0x7FFF_FFFF);
    cpu.set_register(2, 1);
    instructions::add(&mut cpu, reg(1, 2, 3));
    assert_eq!(cpu.get_register(3), 0x8000_0000);
    cpu.set_register(1, 0xFFFF_FFFF);
    instructions::addu(&mut cpu, reg(1, 2, 3));
    assert_eq!(cpu.get_register(3), 0);
    cpu.set_register(1, 0x0F0F_00FF);
    cpu.set_register(2, 0x00FF_0F0F);
    instructions::and(&mut cpu, reg(1, 2, 3));
    assert_eq!(cpu.get_register(3), 0x000F_000F);
    instructions::or(&mut cpu, reg(1, 2, 3));
    assert_eq!(cpu.get_register(3), 0x0FFF_0FFF);
    instructions::xor(&mut cpu, reg(1, 2, 3));
    assert_eq!(cpu.get_register(3), 0x0FF0_0FF0);
    instructions::nor(&mut cpu, reg(1, 2, 3));
    assert_eq!(cpu.get_register(3), 0xF000_F000);
}

#[test]
fn shifts() {
    let mut bus = machine();
    let mut cpu = MipsCpu::new(&mut bus, 0);
    cpu.set_register(2, 1);
    instructions::sll(&mut cpu, shift(2, 3, 31));
    assert_eq!(cpu.get_register(3), 0x8000_0000);
    instructions::sll(&mut cpu, shift(2, 3, 0));
    assert_eq!(cpu.get_register(3), 1);
    cpu.set_register(2, 0x8000_0001);
    instructions::sll(&mut cpu, shift(2, 3, 1));
    assert_eq!(cpu.get_register(3), 2);
    instructions::srl(&mut cpu, shift(2, 3, 31));
    assert_eq!(cpu.get_register(3), 1);
    instructions::srl(&mut cpu, shift(2, 3, 4));
    assert_eq!(cpu.get_register(3), 0x0800_0000);
    instructions::sra(&mut cpu, shift(2, 3, 31));
    assert_eq!(cpu.get_register(3), 0xFFFF_FFFF);
    instructions::sra(&mut cpu, shift(2, 3, 4));
    assert_eq!(cpu.get_register(3), 0xF800_0000);
    cpu.set_register(2, 0x4000_0000);
    instructions::sra(&mut cpu, shift(2, 3, 30));
    assert_eq!(cpu.get_register(3), 1);
}

#[test]
fn variable_shifts_use_the_low_five_bits() {
    let mut bus = machine();
    let mut cpu = MipsCpu::new(&mut bus, 0);
    cpu.set_register(2, 0x8000_0003);
    cpu.set_register(1, 33);
    instructions::sllv(&mut cpu, reg(1, 2, 3));
    assert_eq!(cpu.get_register(3), 6);
    instructions::srlv(&mut cpu, reg(1, 2, 3));
    assert_eq!(cpu.get_register(3), 0x4000_0001);
    instructions::srav(&mut cpu, reg(1, 2, 3));
    assert_eq!(cpu.get_register(3), 0xC000_0001);
    cpu.set_register(1, 0xFFFF_FFE0);
    instructions::sllv(&mut cpu, reg(1, 2, 3));
    assert_eq!(cpu.get_register(3), 0x8000_0003);
    instructions::srav(&mut cpu, reg(1, 2, 3));
    assert_eq!(cpu.get_register(3), 0x8000_0003);
    cpu.set_register(1, 4);
    instructions::srlv(&mut cpu, reg(1, 2, 3));
    assert_eq!(cpu.get_register(3), 0x0800_0000);
}

#[test]
fn comparisons() {
    let mut bus = machine();
    let mut cpu = MipsCpu::new(&mut bus, 0);
    cpu.set_register(1, 0xFFFF_FFFF);
    cpu.set_register(2, 1);
    instructions::slt(&mut cpu, reg(1, 2, 3));
    assert_eq!(cpu.get_register(3), 1);
    instructions::slt(&mut cpu, reg(2, 1, 3));
    assert_eq!(cpu.get_register(3), 0);
    instructions::slt(&mut cpu, reg(1, 1, 3));
    assert_eq!(cpu.get_register(3), 0);
    instructions::sltu(&mut cpu, reg(1, 2, 3));
    assert_eq!(cpu.get_register(3), 0);
    instructions::sltu(&mut cpu, reg(2, 1, 3));
    assert_eq!(cpu.get_register(3), 1);
    cpu.set_register(1, 0xFFFF_FFFB);
    instructions::slti(&mut cpu, imm(1, 3, 0xFFFD));
    assert_eq!(cpu.get_register(3), 1);
    instructions::slti(&mut cpu, imm(1, 3, 0xFFFB));
    assert_eq!(cpu.get_register(3), 0);
    instructions::slti(&mut cpu, imm(2, 3, 0xFFFF));
    assert_eq!(cpu.get_register(3), 0);
    instructions::slti(&mut cpu, imm(2, 3, 2));
    assert_eq!(cpu.get_register(3), 1);
    instructions::sltiu(&mut cpu, imm(2, 3, 0xFFFF));
    assert_eq!(cpu.get_register(3), 1);
    instructions::sltiu(&mut cpu, imm(1, 3, 0x7FFF));
    assert_eq!(cpu.get_register(3), 0);
    instructions::sltiu(&mut cpu, imm(2, 3, 1));
    assert_eq!(cpu.get_register(3), 0);
}

#[test]
fn multiply_widening() {
    let mut bus = machine();
    let mut cpu = MipsCpu::new(&mut bus, 0);
    cpu.set_register(1, 0xFFFF_FFFF);
    cpu.set_register(2, 0xFFFF_FFFF);
    instructions::multu(&mut cpu, reg(1, 2, 0));
    assert_eq!(cpu.hi(), 0xFFFF_FFFE);
    assert_eq!(cpu.lo(), 0x0000_0001);
    instructions::mult(&mut cpu, reg(1, 2, 0));
    assert_eq!(cpu.hi(), 0);
    assert_eq!(cpu.lo(), 1);
}

#[test]
fn multiply_signed_and_unsigned() {
    let mut bus = machine();
    let mut cpu = MipsCpu::new(&mut bus, 0);
    cpu.set_register(1, 0xFFFF_FFFE);
    cpu.set_register(2, 3);
    instructions::mult(&mut cpu, reg(1, 2, 0));
    assert_eq!((cpu.hi(), cpu.lo()), (0xFFFF_FFFF, 0xFFFF_FFFA));
    instructions::multu(&mut cpu, reg(1, 2, 0));
    assert_eq!((cpu.hi(), cpu.lo()), (2, 0xFFFF_FFFA));
    cpu.set_register(1, 0x8000_0000);
    cpu.set_register(2, 0x8000_0000);
    instructions::mult(&mut cpu, reg(1, 2, 0));
    assert_eq!((cpu.hi(), cpu.lo()), (0x4000_0000, 0));
    instructions::multu(&mut cpu, reg(1, 2, 0));
    assert_eq!((cpu.hi(), cpu.lo()), (0x4000_0000, 0));
    cpu.set_register(2, 0x7FFF_FFFF);
    instructions::mult(&mut cpu, reg(1, 2, 0));
    assert_eq!((cpu.hi(), cpu.lo()), (0xC000_0000, 0x8000_0000));
    cpu.set_register(1, 0x0001_0000);
    cpu.set_register(2, 0x0001_0000);
    instructions::mult(&mut cpu, reg(1, 2, 0));
    assert_eq!((cpu.hi(), cpu.lo()), (1, 0));
    cpu.set_register(2, 0);
    instructions::mult(&mut cpu, reg(1, 2, 0));
    assert_eq!((cpu.hi(), cpu.lo()), (0, 0));
}

#[test]
fn division_rounds_towards_zero() {
    let mut bus = machine();
    let mut cpu = MipsCpu::new(&mut bus, 0);
    cpu.set_register(1, 7);
    cpu.set_register(2, 0xFFFF_FFFE);
    assert_eq!(instructions::div(&mut cpu, reg(1, 2, 0)), Ok(()));
    assert_eq!((cpu.lo(), cpu.hi()), (0xFFFF_FFFD, 1));
    cpu.set_register(1, 0xFFFF_FFF9);
    cpu.set_register(2, 2);
    assert_eq!(instructions::div(&mut cpu, reg(1, 2, 0)), Ok(()));
    assert_eq!((cpu.lo(), cpu.hi()), (0xFFFF_FFFD, 0xFFFF_FFFF));
    cpu.set_register(2, 0xFFFF_FFFE);
    assert_eq!(instructions::div(&mut cpu, reg(1, 2, 0)), Ok(()));
    assert_eq!((cpu.lo(), cpu.hi()), (3, 0xFFFF_FFFF));
    cpu.set_register(1, 42);
    cpu.set_register(2, 5);
    assert_eq!(instructions::div(&mut cpu, reg(1, 2, 0)), Ok(()));
    assert_eq!((cpu.lo(), cpu.hi()), (8, 2));
    cpu.set_register(1, 0);
    assert_eq!(instructions::div(&mut cpu, reg(1, 2, 0)), Ok(()));
    assert_eq!((cpu.lo(), cpu.hi()), (0, 0));
}

#[test]
fn division_of_the_most_negative_value_by_minus_one_wraps() {
    let mut bus = machine();
    let mut cpu = MipsCpu::new(&mut bus, 0);
    cpu.set_register(1, 0x8000_0000);
    cpu.set_register(2, 0xFFFF_FFFF);
    assert_eq!(instructions::div(&mut cpu, reg(1, 2, 0)), Ok(()));
    assert_eq!((cpu.lo(), cpu.hi()), (0x8000_0000, 0));
    cpu.set_register(2, 0xFFFF_FFFE);
    assert_eq!(instructions::div(&mut cpu, reg(1, 2, 0)), Ok(()));
    assert_eq!((cpu.lo(), cpu.hi()), (0x4000_0000, 0));
}

#[test]
fn unsigned_division() {
    let mut bus = machine();
    let mut cpu = MipsCpu::new(&mut bus, 0);
    cpu.set_register(1, 0xFFFF_FFFF);
    cpu.set_register(2, 2);
    assert_eq!(instructions::divu(&mut cpu, reg(1, 2, 0)), Ok(()));
    assert_eq!((cpu.lo(), cpu.hi()), (0x7FFF_FFFF, 1));
    cpu.set_register(2, 0xFFFF_FFFF);
    assert_eq!(instructions::divu(&mut cpu, reg(1, 2, 0)), Ok(()));
    assert_eq!((cpu.lo(), cpu.hi()), (1, 0));
    cpu.set_register(1, 3);
    assert_eq!(instructions::divu(&mut cpu, reg(1, 2, 0)), Ok(()));
    assert_eq!((cpu.lo(), cpu.hi()), (0, 3));
}

#[test]
fn division_by_zero_is_a_fault() {
    let mut bus = machine();
    let mut cpu = MipsCpu::new(&mut bus, 0);
    cpu.set_register(1, 9);
    cpu.set_hi(0x11);
    cpu.set_lo(0x22);
    assert_eq!(instructions::div(&mut cpu, reg(1, 0, 0)), Err(Fault::DivideByZero));
    assert_eq!((cpu.lo(), cpu.hi()), (0x22, 0x11));
    assert_eq!(instructions::divu(&mut cpu, reg(1, 2, 0)), Err(Fault::DivideByZero));
    assert_eq!((cpu.lo(), cpu.hi()), (0x22, 0x11));
}

#[test]
fn accumulator_moves() {
    let mut bus = machine();
    let mut cpu = MipsCpu::new(&mut bus, 0);
    cpu.set_register(1, 0xAAAA_0001);
    cpu.set_register(2, 0xBBBB_0002);
    instructions::mthi(&mut cpu, reg(1, 0, 0));
    instructions::mtlo(&mut cpu, reg(2, 0, 0));
    assert_eq!((cpu.hi(), cpu.lo()), (0xAAAA_0001, 0xBBBB_0002));
    instructions::mfhi(&mut cpu, reg(0, 0, 5));
    instructions::mflo(&mut cpu, reg(0, 0, 6));
    assert_eq!(cpu.get_register(5), 0xAAAA_0001);
    assert_eq!(cpu.get_register(6), 0xBBBB_0002);
}

#[test]
fn branches_latch_their_target() {
    let mut bus = machine();
    let mut cpu = MipsCpu::new(&mut bus, 0x100);
    cpu.set_register(1, 5);
    cpu.set_register(2, 5);
    instructions::bne(&mut cpu, imm(1, 2, 3));
    assert_eq!(cpu.pending_branch(), None);
    instructions::beq(&mut cpu, imm(1, 2, 3));
    assert_eq!(cpu.pending_branch(), Some(0x110));
    assert_eq!(cpu.pc(), 0x100);
    instructions::beq(&mut cpu, imm(1, 2, 0xFFFF));
    assert_eq!(cpu.pending_branch(), Some(0x100));
    instructions::beq(&mut cpu, imm(1, 2, 0x8000));
    assert_eq!(cpu.pending_branch(), Some(0xFFFE_0104));
    instructions::beq(&mut cpu, imm(1, 2, 0x7FFF));
    assert_eq!(cpu.pending_branch(), Some(0x0002_0100));
    instructions::beq(&mut cpu, imm(1, 2, 0));
    assert_eq!(cpu.pending_branch(), Some(0x104));
}

#[test]
fn branch_conditions() {
    let cases: [(u32, [bool; 6]); 5] = [
        (0, [true, false, true, false, true, false]),
        (1, [true, true, false, false, false, true]),
        (0x7FFF_FFFF, [true, true, false, false, false, true]),
        (0x8000_0000, [false, false, true, true, false, true]),
        (0xFFFF_FFFF, [false, false, true, true, false, true]),
    ];
    for (value, taken) in cases {
        let handlers: [fn(&mut MipsCpu<'_, Device>, ITypeInstruction); 6] = [
            instructions::bgez,
            instructions::bgtz,
            instructions::blez,
            instructions::bltz,
            instructions::beq,
            instructions::bne,
        ];
        for (handler, expected) in handlers.iter().zip(taken) {
            let mut bus = machine();
            let mut cpu = MipsCpu::new(&mut bus, 0x40);
            cpu.set_register(1, value);
            handler(&mut cpu, imm(1, 0, 4));
            let pending = if expected { Some(0x54) } else { None };
            assert_eq!(cpu.pending_branch(), pending, "value {value:#x}");
        }
    }
}

#[test]
fn linking_branches_always_link() {
    let mut bus = machine();
    let mut cpu = MipsCpu::new(&mut bus, 0x200);
    cpu.set_register(1, 0xFFFF_FFFF);
    instructions::bgezal(&mut cpu, imm(1, 0, 2));
    assert_eq!(cpu.pending_branch(), None);
    assert_eq!(cpu.get_register(31), 0x208);
    cpu.set_register(31, 0);
    instructions::bltzal(&mut cpu, imm(1, 0, 2));
    assert_eq!(cpu.pending_branch(), Some(0x20C));
    assert_eq!(cpu.get_register(31), 0x208);
    let mut other_bus = machine();
    let mut other = MipsCpu::new(&mut other_bus, 0xFFFF_FFFC);
    instructions::bltzal(&mut other, imm(0, 0, 2));
    assert_eq!(other.pending_branch(), None);
    assert_eq!(other.get_register(31), 4);
    instructions::bgezal(&mut other, imm(0, 0, 1));
    assert_eq!(other.pending_branch(), Some(4));
}

#[test]
fn jumps_stay_in_the_region_of_the_program_counter() {
    let mut bus = machine();
    let mut cpu = MipsCpu::new(&mut bus, 0x1000_0100);
    instructions::j(&mut cpu, JTypeInstruction { op: 2, target: 0x40 });
    assert_eq!(cpu.pending_branch(), Some(0x1000_0100));
    instructions::j(&mut cpu, JTypeInstruction { op: 2, target: 0x03FF_FFFF });
    assert_eq!(cpu.pending_branch(), Some(0x1FFF_FFFC));
    instructions::jal(&mut cpu, JTypeInstruction { op: 3, target: 1 });
    assert_eq!(cpu.pending_branch(), Some(0x1000_0004));
    assert_eq!(cpu.get_register(31), 0x1000_0108);
    let mut high_bus = machine();
    let mut high = MipsCpu::new(&mut high_bus, 0xF123_4568);
    instructions::j(&mut high, JTypeInstruction { op: 2, target: 0 });
    assert_eq!(high.pending_branch(), Some(0xF000_0000));
}

#[test]
fn register_jumps() {
    let mut bus = machine();
    let mut cpu = MipsCpu::new(&mut bus, 0x300);
    cpu.set_register(4, 0xDEAD_BEE0);
    instructions::jr(&mut cpu, reg(4, 0, 0));
    assert_eq!(cpu.pending_branch(), Some(0xDEAD_BEE0));
    assert_eq!(registers(&cpu)[31], 0);
    instructions::jalr(&mut cpu, reg(4, 0, 7));
    assert_eq!(cpu.pending_branch(), Some(0xDEAD_BEE0));
    assert_eq!(cpu.get_register(7), 0x308);
    cpu.set_register(5, 0x80);
    instructions::jalr(&mut cpu, reg(5, 0, 5));
    assert_eq!(cpu.pending_branch(), Some(0x80));
    assert_eq!(cpu.get_register(5), 0x308);
}

#[test]
fn loads_are_big_endian() {
    let mut bus = machine();
    let mut cpu = MipsCpu::new(&mut bus, 0);
    fill(&mut cpu, 0x20, &[0x11, 0x22, 0x33, 0x44, 0x80, 0x01, 0x7F, 0xFF]);
    cpu.set_register(1, 0x10);
    assert_eq!(instructions::lw(&mut cpu, imm(1, 2, 0x10)), Ok(()));
    assert_eq!(cpu.get_register(2), 0x1122_3344);
    assert_eq!(instructions::lh(&mut cpu, imm(1, 2, 0x14)), Ok(()));
    assert_eq!(cpu.get_register(2), 0xFFFF_8001);
    assert_eq!(instructions::lhu(&mut cpu, imm(1, 2, 0x14)), Ok(()));
    assert_eq!(cpu.get_register(2), 0x0000_8001);
    assert_eq!(instructions::lh(&mut cpu, imm(1, 2, 0x16)), Ok(()));
    assert_eq!(cpu.get_register(2), 0x0000_7FFF);
    assert_eq!(instructions::lb(&mut cpu, imm(1, 2, 0x14)), Ok(()));
    assert_eq!(cpu.get_register(2), 0xFFFF_FF80);
    assert_eq!(instructions::lbu(&mut cpu, imm(1, 2, 0x14)), Ok(()));
    assert_eq!(cpu.get_register(2), 0x80);
    assert_eq!(instructions::lb(&mut cpu, imm(1, 2, 0x16)), Ok(()));
    assert_eq!(cpu.get_register(2), 0x7F);
    cpu.set_register(1, 0x30);
    assert_eq!(instructions::lw(&mut cpu, imm(1, 2, 0xFFF0)), Ok(()));
    assert_eq!(cpu.get_register(2), 0x1122_3344);
    assert_eq!(instructions::lw(&mut cpu, imm(1, 0, 0xFFF0)), Ok(()));
    assert_eq!(cpu.get_register(0), 0);
}

#[test]
fn stores_are_big_endian() {
    let mut bus = machine();
    let mut cpu = MipsCpu::new(&mut bus, 0);
    cpu.set_register(1, 0x40);
    cpu.set_register(2, 0x1234_5678);
    assert_eq!(instructions::sw(&mut cpu, imm(1, 2, 0)), Ok(()));
    assert_eq!(bytes_at(&cpu, 0x40, 4), vec![0x12, 0x34, 0x56, 0x78]);
    assert_eq!(instructions::sh(&mut cpu, imm(1, 2, 8)), Ok(()));
    assert_eq!(bytes_at(&cpu, 0x48, 4), vec![0x56, 0x78, 0, 0]);
    assert_eq!(instructions::sb(&mut cpu, imm(1, 2, 0xFFFF)), Ok(()));
    assert_eq!(bytes_at(&cpu, 0x3E, 3), vec![0, 0x78, 0x12]);
    assert_eq!(instructions::lw(&mut cpu, imm(1, 3, 0)), Ok(()));
    assert_eq!(cpu.get_register(3), 0x1234_5678);
}

#[test]
fn what_is_stored_is_loaded_back() {
    let mut bus = machine();
    let mut cpu = MipsCpu::new(&mut bus, 0);
    cpu.set_register(1, 0x80);
    for value in [0u32, 1, 0x8000_0000, 0xFFFF_FFFF, 0x1234_5678, 0x00FF_FF00] {
        cpu.set_register(2, value);
        assert_eq!(instructions::sw(&mut cpu, imm(1, 2, 0xFFFC)), Ok(()));
        assert_eq!(instructions::lw(&mut cpu, imm(1, 3, 0xFFFC)), Ok(()));
        assert_eq!(cpu.get_register(3), value);
        assert_eq!(instructions::sh(&mut cpu, imm(1, 2, 6)), Ok(()));
        assert_eq!(instructions::lhu(&mut cpu, imm(1, 3, 6)), Ok(()));
        assert_eq!(cpu.get_register(3), value & 0xFFFF);
        assert_eq!(instructions::sb(&mut cpu, imm(1, 2, 9)), Ok(()));
        assert_eq!(instructions::lbu(&mut cpu, imm(1, 3, 9)), Ok(()));
        assert_eq!(cpu.get_register(3), value & 0xFF);
    }
}

#[test]
fn load_left_and_right_merge_with_the_register() {
    let mut bus = machine();
    let mut cpu = MipsCpu::new(&mut bus, 0);
    fill(&mut cpu, 0x10, &[0xA0, 0xA1, 0xA2, 0xA3, 0xB0]);
    cpu.set_register(1, 0x10);
    cpu.set_register(2, 0x1122_3344);
    assert_eq!(instructions::lwl(&mut cpu, imm(1, 2, 1)), Ok(()));
    assert_eq!(cpu.get_register(2), 0x11A3_A2A1);
    cpu.set_register(2, 0x1122_3344);
    assert_eq!(instructions::lwl(&mut cpu, imm(1, 2, 2)), Ok(()));
    assert_eq!(cpu.get_register(2), 0x1122_A3A2);
    cpu.set_register(2, 0x1122_3344);
    assert_eq!(instructions::lwl(&mut cpu, imm(1, 2, 3)), Ok(()));
    assert_eq!(cpu.get_register(2), 0x1122_33A3);
    cpu.set_register(2, 0x1122_3344);
    assert_eq!(instructions::lwl(&mut cpu, imm(1, 2, 0)), Ok(()));
    assert_eq!(cpu.get_register(2), 0x1122_3344);
    assert_eq!(instructions::lwr(&mut cpu, imm(1, 2, 0)), Ok(()));
    assert_eq!(cpu.get_register(2), 0x1122_3344);
    assert_eq!(instructions::lwr(&mut cpu, imm(1, 2, 1)), Ok(()));
    assert_eq!(cpu.get_register(2), 0xA122_3344);
    cpu.set_register(2, 0x1122_3344);
    assert_eq!(instructions::lwr(&mut cpu, imm(1, 2, 2)), Ok(()));
    assert_eq!(cpu.get_register(2), 0xA2A1_3344);
    cpu.set_register(2, 0x1122_3344);
    assert_eq!(instructions::lwr(&mut cpu, imm(1, 2, 3)), Ok(()));
    assert_eq!(cpu.get_register(2), 0xA3A2_A144);
}

#[test]
fn store_left_and_right_write_only_their_lanes() {
    let mut bus = machine();
    let mut cpu = MipsCpu::new(&mut bus, 0);
    let prior = [0xC0, 0xC1, 0xC2, 0xC3, 0xC4, 0xC5, 0xC6, 0xC7, 0xC8, 0xC9, 0xCA, 0xCB];
    cpu.set_register(1, 0x14);
    cpu.set_register(2, 0x1122_3344);
    fill(&mut cpu, 0x10, &prior);
    assert_eq!(instructions::swl(&mut cpu, imm(1, 2, 1)), Ok(()));
    assert_eq!(bytes_at(&cpu, 0x10, 12), vec![0xC0, 0xC1, 0xC2, 0xC3, 0xC4, 0x44, 0x33, 0x22, 0xC8, 0xC9, 0xCA, 0xCB]);
    fill(&mut cpu, 0x10, &prior);
    assert_eq!(instructions::swl(&mut cpu, imm(1, 2, 3)), Ok(()));
    assert_eq!(bytes_at(&cpu, 0x10, 12), vec![0xC0, 0xC1, 0xC2, 0xC3, 0xC4, 0xC5, 0xC6, 0x44, 0xC8, 0xC9, 0xCA, 0xCB]);
    fill(&mut cpu, 0x10, &prior);
    assert_eq!(instructions::swl(&mut cpu, imm(1, 2, 0)), Ok(()));
    assert_eq!(bytes_at(&cpu, 0x10, 12), prior.to_vec());
    assert_eq!(instructions::swr(&mut cpu, imm(1, 2, 0)), Ok(()));
    assert_eq!(bytes_at(&cpu, 0x10, 12), prior.to_vec());
    assert_eq!(instructions::swr(&mut cpu, imm(1, 2, 1)), Ok(()));
    assert_eq!(bytes_at(&cpu, 0x10, 12), vec![0xC0, 0xC1, 0xC2, 0xC3, 0xC4, 0x11, 0xC6, 0xC7, 0xC8, 0xC9, 0xCA, 0xCB]);
    fill(&mut cpu, 0x10, &prior);
    assert_eq!(instructions::swr(&mut cpu, imm(1, 2, 3)), Ok(()));
    assert_eq!(bytes_at(&cpu, 0x10, 12), vec![0xC0, 0xC1, 0xC2, 0xC3, 0xC4, 0x33, 0x22, 0x11, 0xC8, 0xC9, 0xCA, 0xCB]);
}

#[test]
fn unaligned_stores_match_an_aligned_store_of_the_merged_word() {
    let prior = [0xC0, 0xC1, 0xC2, 0xC3, 0xC4, 0xC5, 0xC6, 0xC7, 0xC8, 0xC9, 0xCA, 0xCB];
    let pattern = 0x1122_3344u32;
    let left_words = [0x2233_44C4u32, 0x3344_C5C4, 0x44C6_C5C4];
    let right_words = [0xC7C6_11C4u32, 0xC711_22C4, 0x1122_33C4];
    for k in 1..4u16 {
        let mut left_bus = machine();
        let mut left = MipsCpu::new(&mut left_bus, 0);
        fill(&mut left, 0x10, &prior);
        left.set_register(1, 0x14);
        left.set_register(2, pattern);
        assert_eq!(instructions::swl(&mut left, imm(1, 2, k)), Ok(()));
        let mut right_bus = machine();
        let mut right = MipsCpu::new(&mut right_bus, 0);
        fill(&mut right, 0x10, &prior);
        right.set_register(1, 0x14);
        right.set_register(2, pattern);
        assert_eq!(instructions::swr(&mut right, imm(1, 2, k)), Ok(()));
        let mut aligned_bus = machine();
        let mut aligned = MipsCpu::new(&mut aligned_bus, 0);
        fill(&mut aligned, 0x10, &prior);
        aligned.write_w(0x14, left_words[k as usize - 1]).unwrap();
        assert_eq!(bytes_at(&left, 0, 0x40), bytes_at(&aligned, 0, 0x40), "swl at offset {k}");
        aligned.write_w(0x14, 0xC7C6_C5C4).unwrap();
        aligned.write_w(0x14, right_words[k as usize - 1]).unwrap();
        assert_eq!(bytes_at(&right, 0, 0x40), bytes_at(&aligned, 0, 0x40), "swr at offset {k}");
    }
}

#[test]
fn access_outside_every_device_is_a_fault() {
    let mut bus = machine();
    let mut cpu = MipsCpu::new(&mut bus, 0);
    cpu.set_register(1, 0x5000);
    cpu.set_register(2, 0x7777_7777);
    let before = registers(&cpu);
    let invalid = Err(Fault::InvalidAddress { addr: 0x5004 });
    assert_eq!(instructions::lw(&mut cpu, imm(1, 2, 4)), invalid);
    assert_eq!(instructions::lh(&mut cpu, imm(1, 2, 4)), invalid);
    assert_eq!(instructions::lhu(&mut cpu, imm(1, 2, 4)), invalid);
    assert_eq!(instructions::lb(&mut cpu, imm(1, 2, 4)), invalid);
    assert_eq!(instructions::lbu(&mut cpu, imm(1, 2, 4)), invalid);
    assert_eq!(instructions::sw(&mut cpu, imm(1, 2, 4)), invalid);
    assert_eq!(instructions::sh(&mut cpu, imm(1, 2, 4)), invalid);
    assert_eq!(instructions::sb(&mut cpu, imm(1, 2, 4)), invalid);
    assert_eq!(instructions::lwl(&mut cpu, imm(1, 2, 5)), Err(Fault::InvalidAddress { addr: 0x5005 }));
    assert_eq!(instructions::lwr(&mut cpu, imm(1, 2, 6)), Err(Fault::InvalidAddress { addr: 0x5005 }));
    assert_eq!(instructions::swl(&mut cpu, imm(1, 2, 7)), Err(Fault::InvalidAddress { addr: 0x5007 }));
    assert_eq!(instructions::swr(&mut cpu, imm(1, 2, 7)), Err(Fault::InvalidAddress { addr: 0x5005 }));
    assert_eq!(instructions::lwl(&mut cpu, imm(1, 2, 4)), Ok(()));
    assert_eq!(instructions::swr(&mut cpu, imm(1, 2, 4)), Ok(()));
    assert_eq!(registers(&cpu), before);
}

#[test]
fn access_across_the_end_of_a_memory_is_a_fault() {
    let mut bus = machine();
    let mut cpu = MipsCpu::new(&mut bus, 0);
    cpu.set_register(1, 0x1000);
    cpu.set_register(2, 0x0102_0304);
    assert_eq!(instructions::lw(&mut cpu, imm(1, 3, 0)), Err(Fault::InvalidAddress { addr: 0x1000 }));
    assert_eq!(instructions::sw(&mut cpu, imm(1, 2, 0)), Err(Fault::InvalidAddress { addr: 0x1000 }));
    assert_eq!(instructions::sh(&mut cpu, imm(1, 2, 1)), Err(Fault::InvalidAddress { addr: 0x1001 }));
    assert_eq!(instructions::sh(&mut cpu, imm(1, 2, 0)), Ok(()));
    assert_eq!(bytes_at(&cpu, 0x1000, 2), vec![0x03, 0x04]);
    assert_eq!(instructions::sb(&mut cpu, imm(1, 2, 2)), Err(Fault::InvalidAddress { addr: 0x1002 }));
}

#[test]
fn unaligned_store_writes_all_its_bytes_or_none() {
    let mut bus = machine();
    let mut cpu = MipsCpu::new(&mut bus, 0);
    fill(&mut cpu, 0x1000, &[0xEE, 0xEF]);
    cpu.set_register(1, 0x1001);
    cpu.set_register(2, 0x0102_0304);
    assert_eq!(instructions::swl(&mut cpu, imm(1, 2, 0)), Err(Fault::InvalidAddress { addr: 0x1002 }));
    assert_eq!(bytes_at(&cpu, 0x1000, 2), vec![0xEE, 0xEF]);
    assert_eq!(instructions::swr(&mut cpu, imm(1, 2, 2)), Err(Fault::InvalidAddress { addr: 0x1002 }));
    assert_eq!(bytes_at(&cpu, 0x1000, 2), vec![0xEE, 0xEF]);
    assert_eq!(instructions::lwl(&mut cpu, imm(1, 2, 0)), Err(Fault::InvalidAddress { addr: 0x1002 }));
    assert_eq!(cpu.get_register(2), 0x0102_0304);
    assert_eq!(instructions::swr(&mut cpu, imm(1, 2, 0)), Ok(()));
    assert_eq!(bytes_at(&cpu, 0x1000, 2), vec![0xEE, 0x01]);
}

#[test]
fn stores_reach_the_other_devices() {
    let mut bus = machine();
    let mut cpu = MipsCpu::new(&mut bus, 0);
    cpu.set_register(1, 0x2000);
    cpu.set_register(2, 0x0000_0041);
    assert_eq!(instructions::sb(&mut cpu, imm(1, 2, 0)), Ok(()));
    cpu.set_register(2, 0x0000_0042);
    assert_eq!(instructions::sh(&mut cpu, imm(1, 2, 0)), Ok(()));
    cpu.set_register(2, 0x0000_0043);
    assert_eq!(instructions::sw(&mut cpu, imm(1, 2, 0)), Ok(()));
    assert_eq!(instructions::sb(&mut cpu, imm(1, 0, 1)), Ok(()));
    assert_eq!(cpu.bus.take_printed(), vec![0x41, 0x42, 0x43]);
    assert_eq!(cpu.read_byte(0x3000), Ok(0));
    cpu.set_register(1, 0x3000);
    assert_eq!(instructions::sw(&mut cpu, imm(1, 0, 0)), Ok(()));
    assert_eq!(cpu.read_byte(0x3000), Ok(0));
    assert_eq!(instructions::sw(&mut cpu, imm(1, 2, 0)), Ok(()));
    assert_eq!(cpu.read_byte(0x3000), Ok(1));
    assert_eq!(instructions::lbu(&mut cpu, imm(1, 5, 0)), Ok(()));
    assert_eq!(cpu.get_register(5), 1);
    assert_eq!(instructions::sb(&mut cpu, imm(1, 2, 1)), Err(Fault::InvalidAddress { addr: 0x3001 }));
}

#[test]
fn helpers_of_the_handlers() {
    assert_eq!(instructions::target_of_branch(0x100, 3), 0x110);
    assert_eq!(instructions::target_of_branch(0, 0xFFFE), 0xFFFF_FFFC);
    assert_eq!(instructions::target_of_branch(0xFFFF_FFFC, 0), 0);
    assert_eq!(instructions::link_of(0x100), 0x108);
    assert_eq!(instructions::link_of(0xFFFF_FFF8), 0);
    assert_eq!(instructions::shift_arithmetic(0x8000_0000, 1), 0xC000_0000);
    assert_eq!(instructions::shift_arithmetic(0x7000_0000, 28), 7);
}
