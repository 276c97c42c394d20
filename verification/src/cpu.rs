//! The processor core: the register file, the program counter, the accumulator pair and
//! the pending-branch latch, over an exclusively borrowed bus.

use vstd::prelude::*;
use crate::bits::{add32, swap32, swap32_involutive, swap_word};
use crate::bus_objects::{Bus, BusModel, BusObject};
use crate::cpu::instruction_info::{
    decode_opcode, decode_opcode_spec, decoded_is_well_formed, DecodeError, InstructionClass,
    InstructionInfos, Operation,
};
use crate::cpu::instructions::{
    add_spec, addi_spec, addiu_spec, addu_spec, and_spec, andi_spec, beq_spec, bgez_spec,
    bgezal_spec, bgtz_spec, blez_spec, bltz_spec, bltzal_spec, bne_spec, div_spec, divu_spec,
    follows, ITypeInstruction, j_spec, jal_spec, jalr_spec, jr_spec, JTypeInstruction, lb_spec,
    lbu_spec, lh_spec, lhu_spec, lui_spec, lw_spec, lwl_spec, lwr_spec, mfhi_spec, mflo_spec,
    mthi_spec, mtlo_spec, mult_spec, multu_spec, nor_spec, OpDecodedInstruction, or_spec, ori_spec,
    RTypeInstruction, sb_spec, sh_spec, sll_spec, sllv_spec, slt_spec, slti_spec, sltiu_spec,
    sltu_spec, sra_spec, srav_spec, srl_spec, srlv_spec, sub_spec, subu_spec, sw_spec, swl_spec,
    swr_spec, xor_spec, xori_spec,
};
use crate::cpu::laws::execute_keeps_inv;

pub mod instruction_info;
pub mod instructions;
pub mod laws;
pub mod stores;

verus! {

/// Why the processor cannot go on.
#[derive(Clone, Copy, Debug, PartialEq, Eq, Structural)]
pub enum Fault {
    /// No device serves an access at this address.
    InvalidAddress { addr: u32 },
    /// The word fetched at `pc` names no operation that the processor executes.
    IllegalInstruction { word: u32, pc: u32, reason: DecodeError },
    /// A division by zero.
    DivideByZero,
}

/// The conventional name of a general register.
pub open spec fn register_name_spec(index: u8) -> &'static str {
    match index {
        0 => "zero",
        1 => "at",
        2 => "v0",
        3 => "v1",
        4 => "a0",
        5 => "a1",
        6 => "a2",
        7 => "a3",
        8 => "t0",
        9 => "t1",
        10 => "t2",
        11 => "t3",
        12 => "t4",
        13 => "t5",
        14 => "t6",
        15 => "t7",
        16 => "s0",
        17 => "s1",
        18 => "s2",
        19 => "s3",
        20 => "s4",
        21 => "s5",
        22 => "s6",
        23 => "s7",
        24 => "t8",
        25 => "t9",
        26 => "k0",
        27 => "k1",
        28 => "gp",
        29 => "sp",
        30 => "s8|fp",
        _ => "ra",
    }
}

/// The conventional name of a general register.
pub fn register_name(index: u8) -> (name: &'static str)
    requires
        index < 32,
    ensures
        name == register_name_spec(index),
{
    match index {
        0 => "zero",
        1 => "at",
        2 => "v0",
        3 => "v1",
        4 => "a0",
        5 => "a1",
        6 => "a2",
        7 => "a3",
        8 => "t0",
        9 => "t1",
        10 => "t2",
        11 => "t3",
        12 => "t4",
        13 => "t5",
        14 => "t6",
        15 => "t7",
        16 => "s0",
        17 => "s1",
        18 => "s2",
        19 => "s3",
        20 => "s4",
        21 => "s5",
        22 => "s6",
        23 => "s7",
        24 => "t8",
        25 => "t9",
        26 => "k0",
        27 => "k1",
        28 => "gp",
        29 => "sp",
        30 => "s8|fp",
        _ => "ra",
    }
}

/// The state of the processor and of the bus that it drives.
pub struct CpuState<M> {
    /// The values of the 32 general registers. Register 0 is always 0.
    pub registers: Seq<u32>,
    pub hi: u32,
    pub lo: u32,
    pub pc: u32,
    /// Whether a branch is pending: set by a branch or jump, it takes effect after the
    /// next instruction.
    pub branch: bool,
    pub branch_target: u32,
    pub bus: BusModel<M>,
}

impl<M> CpuState<M> {
    /// The value of a general register.
    pub open spec fn reg(self, index: u8) -> u32 {
        self.registers[index as int]
    }

    /// The state after a write of `value` to a general register. A write to register 0 is
    /// discarded.
    pub open spec fn with_register(self, index: u8, value: u32) -> Self {
        if index == 0 {
            self
        } else {
            CpuState { registers: self.registers.update(index as int, value), ..self }
        }
    }

    pub open spec fn with_hi(self, value: u32) -> Self {
        CpuState { hi: value, ..self }
    }

    pub open spec fn with_lo(self, value: u32) -> Self {
        CpuState { lo: value, ..self }
    }

    pub open spec fn with_pc(self, value: u32) -> Self {
        CpuState { pc: value, ..self }
    }

    /// The state with a branch to `target` pending.
    pub open spec fn with_branch(self, target: u32) -> Self {
        CpuState { branch: true, branch_target: target, ..self }
    }

    /// The state with no branch pending.
    pub open spec fn without_branch(self) -> Self {
        CpuState { branch: false, ..self }
    }

    pub open spec fn with_bus(self, bus: BusModel<M>) -> Self {
        CpuState { bus, ..self }
    }

    /// There are 32 general registers, and register 0 holds 0.
    pub open spec fn registers_wf(self) -> bool {
        self.registers.len() == 32 && self.registers[0] == 0
    }
}

/// The states that a processor over a bus of devices of kind `D` can be in.
pub open spec fn cpu_inv<D: BusObject>(s: CpuState<D::Model>) -> bool {
    s.registers_wf() && Bus::<D>::inv(s.bus)
}

/// The state of a processor at the address `pc` with every register cleared.
pub open spec fn reset_state<M>(bus: BusModel<M>, pc: u32) -> CpuState<M> {
    CpuState {
        registers: Seq::new(32, |i: int| 0u32),
        hi: 0,
        lo: 0,
        pc,
        branch: false,
        branch_target: 0,
        bus,
    }
}

/// What a read of a byte at `addr` gives.
pub open spec fn load_byte<D: BusObject>(s: CpuState<D::Model>, addr: u32) -> Result<u8, Fault> {
    if Bus::<D>::serves(s.bus, addr, 1) {
        Ok(Bus::<D>::spec_read_byte(s.bus, addr))
    } else {
        Err(Fault::InvalidAddress { addr })
    }
}

/// What a read of a half-word at `addr` gives.
pub open spec fn load_half<D: BusObject>(s: CpuState<D::Model>, addr: u32) -> Result<u16, Fault> {
    if Bus::<D>::serves(s.bus, addr, 2) {
        Ok(Bus::<D>::spec_read_hw(s.bus, addr))
    } else {
        Err(Fault::InvalidAddress { addr })
    }
}

/// What a read of a word at `addr` gives.
pub open spec fn load_word<D: BusObject>(s: CpuState<D::Model>, addr: u32) -> Result<u32, Fault> {
    if Bus::<D>::serves(s.bus, addr, 4) {
        Ok(Bus::<D>::spec_read_w(s.bus, addr))
    } else {
        Err(Fault::InvalidAddress { addr })
    }
}

/// The state after a write of a byte at `addr`.
pub open spec fn store_byte<D: BusObject>(s: CpuState<D::Model>, addr: u32, val: u8) -> Result<
    CpuState<D::Model>,
    Fault,
> {
    if Bus::<D>::serves(s.bus, addr, 1) {
        Ok(s.with_bus(Bus::<D>::spec_write_byte(s.bus, addr, val)))
    } else {
        Err(Fault::InvalidAddress { addr })
    }
}

/// The state after a write of a half-word at `addr`.
pub open spec fn store_half<D: BusObject>(s: CpuState<D::Model>, addr: u32, val: u16) -> Result<
    CpuState<D::Model>,
    Fault,
> {
    if Bus::<D>::serves(s.bus, addr, 2) {
        Ok(s.with_bus(Bus::<D>::spec_write_hw(s.bus, addr, val)))
    } else {
        Err(Fault::InvalidAddress { addr })
    }
}

/// The state after a write of a word at `addr`.
pub open spec fn store_word<D: BusObject>(s: CpuState<D::Model>, addr: u32, val: u32) -> Result<
    CpuState<D::Model>,
    Fault,
> {
    if Bus::<D>::serves(s.bus, addr, 4) {
        Ok(s.with_bus(Bus::<D>::spec_write_w(s.bus, addr, val)))
    } else {
        Err(Fault::InvalidAddress { addr })
    }
}

/// The state after the register-immediate operation `f` on the operands `i`. It is meant for the
/// register-immediate operations only.
pub open spec fn execute_i_spec<D: BusObject>(s: CpuState<D::Model>, f: Operation, i: ITypeInstruction) -> Result<
    CpuState<D::Model>,
    Fault,
>
    recommends
        f.class() == InstructionClass::Immediate,
{
    match f {
        Operation::Addi => Ok(addi_spec(s, i)),
        Operation::Addiu => Ok(addiu_spec(s, i)),
        Operation::Andi => Ok(andi_spec(s, i)),
        Operation::Beq => Ok(beq_spec(s, i)),
        Operation::Bgez => Ok(bgez_spec(s, i)),
        Operation::Bgezal => Ok(bgezal_spec(s, i)),
        Operation::Bgtz => Ok(bgtz_spec(s, i)),
        Operation::Blez => Ok(blez_spec(s, i)),
        Operation::Bltz => Ok(bltz_spec(s, i)),
        Operation::Bltzal => Ok(bltzal_spec(s, i)),
        Operation::Bne => Ok(bne_spec(s, i)),
        Operation::Lb => lb_spec::<D>(s, i),
        Operation::Lbu => lbu_spec::<D>(s, i),
        Operation::Lh => lh_spec::<D>(s, i),
        Operation::Lhu => lhu_spec::<D>(s, i),
        Operation::Lui => Ok(lui_spec(s, i)),
        Operation::Lw => lw_spec::<D>(s, i),
        Operation::Lwl => lwl_spec::<D>(s, i),
        Operation::Lwr => lwr_spec::<D>(s, i),
        Operation::Ori => Ok(ori_spec(s, i)),
        Operation::Sb => sb_spec::<D>(s, i),
        Operation::Sh => sh_spec::<D>(s, i),
        Operation::Slti => Ok(slti_spec(s, i)),
        Operation::Sltiu => Ok(sltiu_spec(s, i)),
        Operation::Sw => sw_spec::<D>(s, i),
        Operation::Swl => swl_spec::<D>(s, i),
        Operation::Swr => swr_spec::<D>(s, i),
        Operation::Xori => Ok(xori_spec(s, i)),
        _ => Ok(s),
    }
}

/// The state after the jump operation `f` on the operands `i`. It is meant for the
/// jump operations only.
pub open spec fn execute_j_spec<D: BusObject>(s: CpuState<D::Model>, f: Operation, i: JTypeInstruction) -> Result<
    CpuState<D::Model>,
    Fault,
>
    recommends
        f.class() == InstructionClass::Jump,
{
    match f {
        Operation::J => Ok(j_spec(s, i)),
        Operation::Jal => Ok(jal_spec(s, i)),
        _ => Ok(s),
    }
}

/// The state after the register-register operation `f` on the operands `i`. It is meant for the
/// register-register operations only.
pub open spec fn execute_r_spec<D: BusObject>(s: CpuState<D::Model>, f: Operation, i: RTypeInstruction) -> Result<
    CpuState<D::Model>,
    Fault,
>
    recommends
        f.class() == InstructionClass::Register,
{
    match f {
        Operation::Add => Ok(add_spec(s, i)),
        Operation::Addu => Ok(addu_spec(s, i)),
        Operation::And => Ok(and_spec(s, i)),
        Operation::Div => div_spec(s, i),
        Operation::Divu => divu_spec(s, i),
        Operation::Jalr => Ok(jalr_spec(s, i)),
        Operation::Jr => Ok(jr_spec(s, i)),
        Operation::Mfhi => Ok(mfhi_spec(s, i)),
        Operation::Mflo => Ok(mflo_spec(s, i)),
        Operation::Mthi => Ok(mthi_spec(s, i)),
        Operation::Mtlo => Ok(mtlo_spec(s, i)),
        Operation::Mult => Ok(mult_spec(s, i)),
        Operation::Multu => Ok(multu_spec(s, i)),
        Operation::Nor => Ok(nor_spec(s, i)),
        Operation::Or => Ok(or_spec(s, i)),
        Operation::Sll => Ok(sll_spec(s, i)),
        Operation::Sllv => Ok(sllv_spec(s, i)),
        Operation::Slt => Ok(slt_spec(s, i)),
        Operation::Sltu => Ok(sltu_spec(s, i)),
        Operation::Sra => Ok(sra_spec(s, i)),
        Operation::Srav => Ok(srav_spec(s, i)),
        Operation::Srl => Ok(srl_spec(s, i)),
        Operation::Srlv => Ok(srlv_spec(s, i)),
        Operation::Sub => Ok(sub_spec(s, i)),
        Operation::Subu => Ok(subu_spec(s, i)),
        Operation::Xor => Ok(xor_spec(s, i)),
        _ => Ok(s),
    }
}

/// The state after the instruction `info`.
pub open spec fn execute_spec<D: BusObject>(s: CpuState<D::Model>, info: InstructionInfos) -> Result<
    CpuState<D::Model>,
    Fault,
> {
    match info {
        InstructionInfos::IType(x) => execute_i_spec::<D>(s, x.f, x.decoded_instruction),
        InstructionInfos::JType(x) => execute_j_spec::<D>(s, x.f, x.decoded_instruction),
        InstructionInfos::RType(x) => execute_r_spec::<D>(s, x.f, x.decoded_instruction),
    }
}

/// The instruction at the program counter: the word there, its first byte being the most
/// significant, decoded.
pub open spec fn fetch_spec<D: BusObject>(s: CpuState<D::Model>) -> Result<InstructionInfos, Fault> {
    match load_word::<D>(s, s.pc) {
        Ok(raw) => match decode_opcode_spec(OpDecodedInstruction::decode_spec(swap32(raw))) {
            Ok(info) => Ok(info),
            Err(reason) => Err(Fault::IllegalInstruction { word: swap32(raw), pc: s.pc, reason }),
        },
        Err(e) => Err(e),
    }
}

/// The state after the program counter moves on from an executed instruction: to the
/// latched target if a branch was pending before the instruction, which clears the
/// latch, else to the next word.
pub open spec fn advance<M>(pending: bool, after: CpuState<M>) -> CpuState<M> {
    if pending {
        after.with_pc(after.branch_target).without_branch()
    } else {
        after.with_pc(add32(after.pc, 4))
    }
}

/// The state after one step: the instruction at the program counter is fetched, decoded
/// and executed, and the program counter moves on.
pub open spec fn step_spec<D: BusObject>(s: CpuState<D::Model>) -> Result<CpuState<D::Model>, Fault> {
    match fetch_spec::<D>(s) {
        Ok(info) => match execute_spec::<D>(s, info) {
            Ok(after) => Ok(advance(s.branch, after)),
            Err(e) => Err(e),
        },
        Err(e) => Err(e),
    }
}

/// The processor. The general registers 1 to 31 are kept with their bytes in the order
/// in which a word lies in memory, so that a word moves between a register and memory
/// as it is; every other access reverses the bytes.
///
/// The processor borrows its bus for as long as it lives. No operation exchanges the
/// borrow, so when the processor is gone the bus holds what the last state of the
/// processor says.
pub struct MipsCpu<'a, D: BusObject> {
    pub general_registers: [u32; 31],
    pub hi: u32,
    pub lo: u32,
    pub pc: u32,
    pub bus: &'a mut Bus<D>,
    pub branch: bool,
    pub branch_target: u32,
}

impl<'a, D: BusObject> View for MipsCpu<'a, D> {
    type V = CpuState<D::Model>;

    open spec fn view(&self) -> CpuState<D::Model> {
        CpuState {
            registers: Seq::new(
                32,
                |i: int|
                    if i == 0 {
                        0u32
                    } else {
                        swap32(self.general_registers[i - 1])
                    },
            ),
            hi: self.hi,
            lo: self.lo,
            pc: self.pc,
            branch: self.branch,
            branch_target: self.branch_target,
            bus: self.bus.model(),
        }
    }
}

impl<'a, D: BusObject> MipsCpu<'a, D> {
    /// A processor over `bus` that starts at the address `pc`, with every register cleared.
    pub fn new(bus: &'a mut Bus<D>, pc: u32) -> (cpu: Self)
        ensures
            cpu@ == reset_state(old(bus).model(), pc),
            *final(bus) == *final(cpu.bus),
    {
        let cpu = MipsCpu {
            general_registers: [0; 31],
            hi: 0,
            lo: 0,
            pc,
            bus,
            branch: false,
            branch_target: 0,
        };
        proof {
            assert(swap32(0) == 0);
            assert(cpu@.registers =~= reset_state(cpu.bus.model(), pc).registers);
        }
        cpu
    }

    /// Every processor has 32 general registers, and its register 0 holds 0.
    pub proof fn registers_are_well_formed(&self)
        ensures
            self@.registers_wf(),
    {
    }

    /// Sets the stack pointer and the frame pointer, registers 29 and 30.
    #[inline]
    pub fn set_stack_start(&mut self, v: u32)
        ensures
            final(self)@ == old(self)@.with_register(29, v).with_register(30, v),
            *final(final(self).bus) == *final(old(self).bus),
    {
        self.set_register(29, v);
        self.set_register(30, v);
    }

    /// Sets the global pointer, register 28.
    pub fn init_gp(&mut self, v: u32)
        ensures
            final(self)@ == old(self)@.with_register(28, v),
            *final(final(self).bus) == *final(old(self).bus),
    {
        self.set_register(28, v);
    }

    /// The value of a general register.
    #[inline]
    pub fn get_register(&self, index: u8) -> (r: u32)
        requires
            index < 32,
        ensures
            r == self@.reg(index),
    {
        if index == 0 {
            0
        } else {
            swap_word(self.general_registers[(index as usize) - 1])
        }
    }

    /// The word that the bytes of a general register make in memory order.
    #[inline]
    pub fn get_register_nc(&self, index: u8) -> (r: u32)
        requires
            index < 32,
        ensures
            r == swap32(self@.reg(index)),
    {
        if index == 0 {
            0
        } else {
            proof {
                swap32_involutive(self.general_registers[index as int - 1]);
            }
            self.general_registers[(index as usize) - 1]
        }
    }

    /// Writes a general register. A write to register 0 is discarded.
    #[inline]
    pub fn set_register(&mut self, index: u8, value: u32)
        requires
            index < 32,
        ensures
            final(self)@ == old(self)@.with_register(index, value),
            *final(final(self).bus) == *final(old(self).bus),
    {
        proof {
            swap32_involutive(value);
        }
        self.set_register_nc(index, swap_word(value));
    }

    /// Writes to a general register the value whose bytes in memory order make the word
    /// `value`. A write to register 0 is discarded.
    #[inline]
    pub fn set_register_nc(&mut self, index: u8, value: u32)
        requires
            index < 32,
        ensures
            final(self)@ == old(self)@.with_register(index, swap32(value)),
            *final(final(self).bus) == *final(old(self).bus),
    {
        if index != 0 {
            self.general_registers[(index as usize) - 1] = value;
            assert(final(self)@.registers =~= old(self)@.registers.update(index as int, swap32(value)));
        }
    }

    /// The high word of the accumulator pair.
    pub fn hi(&self) -> (r: u32)
        ensures
            r == self@.hi,
    {
        self.hi
    }

    /// The low word of the accumulator pair.
    pub fn lo(&self) -> (r: u32)
        ensures
            r == self@.lo,
    {
        self.lo
    }

    /// The program counter.
    pub fn pc(&self) -> (r: u32)
        ensures
            r == self@.pc,
    {
        self.pc
    }

    /// Whether a branch is pending, and where to.
    pub fn pending_branch(&self) -> (r: Option<u32>)
        ensures
            r == if self@.branch {
                Some(self@.branch_target)
            } else {
                None
            },
    {
        if self.branch {
            Some(self.branch_target)
        } else {
            None
        }
    }

    /// Sets the high word of the accumulator pair.
    pub fn set_hi(&mut self, value: u32)
        ensures
            final(self)@ == old(self)@.with_hi(value),
            *final(final(self).bus) == *final(old(self).bus),
    {
        self.hi = value;
    }

    /// Sets the low word of the accumulator pair.
    pub fn set_lo(&mut self, value: u32)
        ensures
            final(self)@ == old(self)@.with_lo(value),
            *final(final(self).bus) == *final(old(self).bus),
    {
        self.lo = value;
    }

    /// Latches a branch to `target`.
    pub fn set_branch(&mut self, target: u32)
        ensures
            final(self)@ == old(self)@.with_branch(target),
            *final(final(self).bus) == *final(old(self).bus),
    {
        self.branch = true;
        self.branch_target = target;
    }

    /// Whether a device serves an access of `width` bytes at `addr`.
    pub fn accepts(&self, addr: u32, width: u32) -> (b: bool)
        requires
            cpu_inv::<D>(self@),
        ensures
            b == Bus::<D>::serves(self@.bus, addr, width),
    {
        self.bus.accepts(addr, width)
    }

    /// Reads a byte from the bus, if a device serves the access.
    pub fn read_byte(&self, addr: u32) -> (r: Result<u8, Fault>)
        requires
            cpu_inv::<D>(self@),
        ensures
            r == load_byte::<D>(self@, addr),
    {
        if self.bus.accepts(addr, 1) {
            Ok(self.bus.read_byte(addr))
        } else {
            Err(Fault::InvalidAddress { addr })
        }
    }

    /// Reads a half-word from the bus, if a device serves the access.
    pub fn read_hw(&self, addr: u32) -> (r: Result<u16, Fault>)
        requires
            cpu_inv::<D>(self@),
        ensures
            r == load_half::<D>(self@, addr),
    {
        if self.bus.accepts(addr, 2) {
            Ok(self.bus.read_hw(addr))
        } else {
            Err(Fault::InvalidAddress { addr })
        }
    }

    /// Reads a word from the bus, if a device serves the access.
    pub fn read_w(&self, addr: u32) -> (r: Result<u32, Fault>)
        requires
            cpu_inv::<D>(self@),
        ensures
            r == load_word::<D>(self@, addr),
    {
        if self.bus.accepts(addr, 4) {
            Ok(self.bus.read_w(addr))
        } else {
            Err(Fault::InvalidAddress { addr })
        }
    }

    /// Writes a byte to the bus, if a device serves the access; else nothing changes.
    pub fn write_byte(&mut self, addr: u32, val: u8) -> (r: Result<(), Fault>)
        requires
            cpu_inv::<D>(old(self)@),
        ensures
            match store_byte::<D>(old(self)@, addr, val) {
                Ok(s) => r is Ok && final(self)@ == s,
                Err(e) => r == Err::<(), Fault>(e) && final(self)@ == old(self)@,
            },
            cpu_inv::<D>(final(self)@),
            *final(final(self).bus) == *final(old(self).bus),
    {
        if self.bus.accepts(addr, 1) {
            proof {
                Bus::<D>::write_byte_keeps(self@.bus, addr, val);
            }
            self.bus.write_byte(addr, val);
            Ok(())
        } else {
            Err(Fault::InvalidAddress { addr })
        }
    }

    /// Writes a half-word to the bus, if a device serves the access; else nothing changes.
    pub fn write_hw(&mut self, addr: u32, val: u16) -> (r: Result<(), Fault>)
        requires
            cpu_inv::<D>(old(self)@),
        ensures
            match store_half::<D>(old(self)@, addr, val) {
                Ok(s) => r is Ok && final(self)@ == s,
                Err(e) => r == Err::<(), Fault>(e) && final(self)@ == old(self)@,
            },
            cpu_inv::<D>(final(self)@),
            *final(final(self).bus) == *final(old(self).bus),
    {
        if self.bus.accepts(addr, 2) {
            proof {
                Bus::<D>::write_hw_keeps(self@.bus, addr, val);
            }
            self.bus.write_hw(addr, val);
            Ok(())
        } else {
            Err(Fault::InvalidAddress { addr })
        }
    }

    /// Writes a word to the bus, if a device serves the access; else nothing changes.
    pub fn write_w(&mut self, addr: u32, val: u32) -> (r: Result<(), Fault>)
        requires
            cpu_inv::<D>(old(self)@),
        ensures
            match store_word::<D>(old(self)@, addr, val) {
                Ok(s) => r is Ok && final(self)@ == s,
                Err(e) => r == Err::<(), Fault>(e) && final(self)@ == old(self)@,
            },
            cpu_inv::<D>(final(self)@),
            *final(final(self).bus) == *final(old(self).bus),
    {
        if self.bus.accepts(addr, 4) {
            proof {
                Bus::<D>::write_w_keeps(self@.bus, addr, val);
            }
            self.bus.write_w(addr, val);
            Ok(())
        } else {
            Err(Fault::InvalidAddress { addr })
        }
    }

    /// Executes the register-immediate operation `f` on the operands `i`. Only the register-immediate
    /// operations take operands of this shape.
    pub fn execute_i(&mut self, f: Operation, i: ITypeInstruction) -> (r: Result<(), Fault>)
        requires
            i.wf(),
            f.class() == InstructionClass::Immediate,
            cpu_inv::<D>(old(self)@),
        ensures
            follows(execute_i_spec::<D>(old(self)@, f, i), r, old(self)@, final(self)@),
            *final(final(self).bus) == *final(old(self).bus),
    {
        match f {
            Operation::Addi => {
                crate::cpu::instructions::addi(self, i);
                Ok(())
            },
            Operation::Addiu => {
                crate::cpu::instructions::addiu(self, i);
                Ok(())
            },
            Operation::Andi => {
                crate::cpu::instructions::andi(self, i);
                Ok(())
            },
            Operation::Beq => {
                crate::cpu::instructions::beq(self, i);
                Ok(())
            },
            Operation::Bgez => {
                crate::cpu::instructions::bgez(self, i);
                Ok(())
            },
            Operation::Bgezal => {
                crate::cpu::instructions::bgezal(self, i);
                Ok(())
            },
            Operation::Bgtz => {
                crate::cpu::instructions::bgtz(self, i);
                Ok(())
            },
            Operation::Blez => {
                crate::cpu::instructions::blez(self, i);
                Ok(())
            },
            Operation::Bltz => {
                crate::cpu::instructions::bltz(self, i);
                Ok(())
            },
            Operation::Bltzal => {
                crate::cpu::instructions::bltzal(self, i);
                Ok(())
            },
            Operation::Bne => {
                crate::cpu::instructions::bne(self, i);
                Ok(())
            },
            Operation::Lb => crate::cpu::instructions::lb(self, i),
            Operation::Lbu => crate::cpu::instructions::lbu(self, i),
            Operation::Lh => crate::cpu::instructions::lh(self, i),
            Operation::Lhu => crate::cpu::instructions::lhu(self, i),
            Operation::Lui => {
                crate::cpu::instructions::lui(self, i);
                Ok(())
            },
            Operation::Lw => crate::cpu::instructions::lw(self, i),
            Operation::Lwl => crate::cpu::instructions::lwl(self, i),
            Operation::Lwr => crate::cpu::instructions::lwr(self, i),
            Operation::Ori => {
                crate::cpu::instructions::ori(self, i);
                Ok(())
            },
            Operation::Sb => crate::cpu::instructions::sb(self, i),
            Operation::Sh => crate::cpu::instructions::sh(self, i),
            Operation::Slti => {
                crate::cpu::instructions::slti(self, i);
                Ok(())
            },
            Operation::Sltiu => {
                crate::cpu::instructions::sltiu(self, i);
                Ok(())
            },
            Operation::Sw => crate::cpu::instructions::sw(self, i),
            Operation::Swl => crate::cpu::instructions::swl(self, i),
            Operation::Swr => crate::cpu::instructions::swr(self, i),
            Operation::Xori => {
                crate::cpu::instructions::xori(self, i);
                Ok(())
            },
            _ => unreached(),
        }
    }

    /// Executes the jump operation `f` on the operands `i`. Only the jump
    /// operations take operands of this shape.
    pub fn execute_j(&mut self, f: Operation, i: JTypeInstruction) -> (r: Result<(), Fault>)
        requires
            i.wf(),
            f.class() == InstructionClass::Jump,
            cpu_inv::<D>(old(self)@),
        ensures
            follows(execute_j_spec::<D>(old(self)@, f, i), r, old(self)@, final(self)@),
            *final(final(self).bus) == *final(old(self).bus),
    {
        match f {
            Operation::J => {
                crate::cpu::instructions::j(self, i);
                Ok(())
            },
            Operation::Jal => {
                crate::cpu::instructions::jal(self, i);
                Ok(())
            },
            _ => unreached(),
        }
    }

    /// Executes the register-register operation `f` on the operands `i`. Only the register-register
    /// operations take operands of this shape.
    pub fn execute_r(&mut self, f: Operation, i: RTypeInstruction) -> (r: Result<(), Fault>)
        requires
            i.wf(),
            f.class() == InstructionClass::Register,
            cpu_inv::<D>(old(self)@),
        ensures
            follows(execute_r_spec::<D>(old(self)@, f, i), r, old(self)@, final(self)@),
            *final(final(self).bus) == *final(old(self).bus),
    {
        match f {
            Operation::Add => {
                crate::cpu::instructions::add(self, i);
                Ok(())
            },
            Operation::Addu => {
                crate::cpu::instructions::addu(self, i);
                Ok(())
            },
            Operation::And => {
                crate::cpu::instructions::and(self, i);
                Ok(())
            },
            Operation::Div => crate::cpu::instructions::div(self, i),
            Operation::Divu => crate::cpu::instructions::divu(self, i),
            Operation::Jalr => {
                crate::cpu::instructions::jalr(self, i);
                Ok(())
            },
            Operation::Jr => {
                crate::cpu::instructions::jr(self, i);
                Ok(())
            },
            Operation::Mfhi => {
                crate::cpu::instructions::mfhi(self, i);
                Ok(())
            },
            Operation::Mflo => {
                crate::cpu::instructions::mflo(self, i);
                Ok(())
            },
            Operation::Mthi => {
                crate::cpu::instructions::mthi(self, i);
                Ok(())
            },
            Operation::Mtlo => {
                crate::cpu::instructions::mtlo(self, i);
                Ok(())
            },
            Operation::Mult => {
                crate::cpu::instructions::mult(self, i);
                Ok(())
            },
            Operation::Multu => {
                crate::cpu::instructions::multu(self, i);
                Ok(())
            },
            Operation::Nor => {
                crate::cpu::instructions::nor(self, i);
                Ok(())
            },
            Operation::Or => {
                crate::cpu::instructions::or(self, i);
                Ok(())
            },
            Operation::Sll => {
                crate::cpu::instructions::sll(self, i);
                Ok(())
            },
            Operation::Sllv => {
                crate::cpu::instructions::sllv(self, i);
                Ok(())
            },
            Operation::Slt => {
                crate::cpu::instructions::slt(self, i);
                Ok(())
            },
            Operation::Sltu => {
                crate::cpu::instructions::sltu(self, i);
                Ok(())
            },
            Operation::Sra => {
                crate::cpu::instructions::sra(self, i);
                Ok(())
            },
            Operation::Srav => {
                crate::cpu::instructions::srav(self, i);
                Ok(())
            },
            Operation::Srl => {
                crate::cpu::instructions::srl(self, i);
                Ok(())
            },
            Operation::Srlv => {
                crate::cpu::instructions::srlv(self, i);
                Ok(())
            },
            Operation::Sub => {
                crate::cpu::instructions::sub(self, i);
                Ok(())
            },
            Operation::Subu => {
                crate::cpu::instructions::subu(self, i);
                Ok(())
            },
            Operation::Xor => {
                crate::cpu::instructions::xor(self, i);
                Ok(())
            },
            _ => unreached(),
        }
    }

    /// Executes a decoded instruction.
    pub fn execute(&mut self, info: InstructionInfos) -> (r: Result<(), Fault>)
        requires
            info.wf(),
            cpu_inv::<D>(old(self)@),
        ensures
            follows(execute_spec::<D>(old(self)@, info), r, old(self)@, final(self)@),
            cpu_inv::<D>(final(self)@),
            *final(final(self).bus) == *final(old(self).bus),
    {
        proof {
            execute_keeps_inv::<D>(self@, info);
        }
        match info {
            InstructionInfos::IType(x) => self.execute_i(x.f, x.decoded_instruction),
            InstructionInfos::JType(x) => self.execute_j(x.f, x.decoded_instruction),
            InstructionInfos::RType(x) => self.execute_r(x.f, x.decoded_instruction),
        }
    }

    /// Fetches and decodes the instruction at the program counter.
    pub fn fetch(&self) -> (r: Result<InstructionInfos, Fault>)
        requires
            cpu_inv::<D>(self@),
        ensures
            r == fetch_spec::<D>(self@),
            r is Ok ==> r->Ok_0.wf(),
    {
        let raw: u32 = match self.read_w(self.pc) {
            Ok(raw) => raw,
            Err(e) => {
                return Err(e);
            },
        };
        let i_w: u32 = swap_word(raw);
        let first_stage = OpDecodedInstruction::decode(i_w);
        proof {
            decoded_is_well_formed(first_stage);
        }
        match decode_opcode(first_stage) {
            Ok(info) => Ok(info),
            Err(reason) => Err(Fault::IllegalInstruction { word: i_w, pc: self.pc, reason }),
        }
    }

    /// Performs one step: fetches, decodes and executes the instruction at the program
    /// counter, then moves the program counter on. Returns the instruction that was
    /// executed. On a fault nothing changes.
    pub fn step(&mut self) -> (r: Result<InstructionInfos, Fault>)
        requires
            cpu_inv::<D>(old(self)@),
        ensures
            match step_spec::<D>(old(self)@) {
                Ok(s) => r == fetch_spec::<D>(old(self)@) && r is Ok && final(self)@ == s,
                Err(e) => r == Err::<InstructionInfos, Fault>(e) && final(self)@ == old(self)@,
            },
            cpu_inv::<D>(final(self)@),
            *final(final(self).bus) == *final(old(self).bus),
    {
        let second_stage = match self.fetch() {
            Ok(info) => info,
            Err(e) => {
                return Err(e);
            },
        };
        let branch: bool = self.branch;
        match self.execute(second_stage) {
            Ok(_) => {},
            Err(e) => {
                return Err(e);
            },
        }
        if branch {
            self.pc = self.branch_target;
            self.branch = false;
        } else {
            self.pc = self.pc.wrapping_add(4);
        }
        Ok(second_stage)
    }
}

} // verus!
