//! What holds of every instruction and of every step: the states that the processor can
//! be in are kept, register 0 stays 0, and a branch takes effect one instruction late.

use vstd::prelude::*;
use crate::bits::{add32, lane, lanes, swap16, swap32};
use crate::bus_objects::{Bus, BusObject};
use crate::cpu::{
    cpu_inv, CpuState, execute_i_spec, execute_j_spec, execute_r_spec, execute_spec, fetch_spec,
    load_word, step_spec,
};
use crate::cpu::instruction_info::{
    decoded_is_well_formed, InstructionClass, InstructionInfos, Operation,
};
use crate::cpu::instructions::{
    add_spec, addi_spec, addiu_spec, addu_spec, and_spec, andi_spec, beq_spec, bgez_spec,
    bgezal_spec, bgtz_spec, blez_spec, bltz_spec, bltzal_spec, bne_spec, bytes_past_boundary,
    bytes_to_boundary, div_spec, divu_spec, effective_address, ITypeInstruction, j_spec, jal_spec,
    jalr_spec, jr_spec, JTypeInstruction, lb_spec, lbu_spec, lh_spec, lhu_spec, lui_spec, lw_spec,
    lwl_spec, lwr_spec, mfhi_spec, mflo_spec, mthi_spec, mtlo_spec, mult_spec, multu_spec, nor_spec,
    OpDecodedInstruction, or_spec, ori_spec, RTypeInstruction, run_served, sb_spec, sh_spec,
    sll_spec, sllv_spec, slt_spec, slti_spec, sltiu_spec, sltu_spec, sra_spec, srav_spec, srl_spec,
    srlv_spec, sub_spec, subu_spec, sw_spec, swl_spec, swr_spec, write_run_keeps, xor_spec,
    xori_spec,
};

verus! {

/// Whether the operation latches a branch: the conditional branches and the jumps.
pub open spec fn is_branch(f: Operation) -> bool {
    match f {
        Operation::Beq
        | Operation::Bgez
        | Operation::Bgezal
        | Operation::Bgtz
        | Operation::Blez
        | Operation::Bltz
        | Operation::Bltzal
        | Operation::Bne
        | Operation::J
        | Operation::Jal
        | Operation::Jalr
        | Operation::Jr => true,
        _ => false,
    }
}

/// Whether the operation writes to the bus.
pub open spec fn is_store(f: Operation) -> bool {
    match f {
        Operation::Sb | Operation::Sh | Operation::Sw | Operation::Swl | Operation::Swr => true,
        _ => false,
    }
}

/// Whether `after` has the bus and the program counter of `s`, and 0 in register 0.
pub open spec fn keeps_bus<M>(s: CpuState<M>, after: CpuState<M>) -> bool {
    after.bus == s.bus && after.pc == s.pc && after.registers_wf()
}

/// Whether `after` has the program counter and the branch latch of `s`.
pub open spec fn keeps_latch<M>(s: CpuState<M>, after: CpuState<M>) -> bool {
    after.pc == s.pc && after.branch == s.branch && after.branch_target == s.branch_target
}

/// The arithmetic with an immediate changes registers only.
pub proof fn immediate_arithmetic_is_plain<M>(s: CpuState<M>, i: ITypeInstruction)
    requires
        s.registers_wf(),
        i.wf(),
    ensures
        keeps_bus(s, addi_spec(s, i)) && keeps_latch(s, addi_spec(s, i)),
        keeps_bus(s, addiu_spec(s, i)) && keeps_latch(s, addiu_spec(s, i)),
        keeps_bus(s, andi_spec(s, i)) && keeps_latch(s, andi_spec(s, i)),
        keeps_bus(s, ori_spec(s, i)) && keeps_latch(s, ori_spec(s, i)),
        keeps_bus(s, xori_spec(s, i)) && keeps_latch(s, xori_spec(s, i)),
        keeps_bus(s, slti_spec(s, i)) && keeps_latch(s, slti_spec(s, i)),
        keeps_bus(s, sltiu_spec(s, i)) && keeps_latch(s, sltiu_spec(s, i)),
        keeps_bus(s, lui_spec(s, i)) && keeps_latch(s, lui_spec(s, i)),
{
}

/// The conditional branches change the branch latch and register 31 only.
pub proof fn branches_keep_the_bus<M>(s: CpuState<M>, i: ITypeInstruction)
    requires
        s.registers_wf(),
        i.wf(),
    ensures
        keeps_bus(s, beq_spec(s, i)),
        keeps_bus(s, bgez_spec(s, i)),
        keeps_bus(s, bgezal_spec(s, i)),
        keeps_bus(s, bgtz_spec(s, i)),
        keeps_bus(s, blez_spec(s, i)),
        keeps_bus(s, bltz_spec(s, i)),
        keeps_bus(s, bltzal_spec(s, i)),
        keeps_bus(s, bne_spec(s, i)),
{
}

/// The loads change registers only.
pub proof fn loads_are_plain<D: BusObject>(s: CpuState<D::Model>, i: ITypeInstruction)
    requires
        s.registers_wf(),
        i.wf(),
    ensures
        lb_spec::<D>(s, i) matches Ok(after) ==> keeps_bus(s, after) && keeps_latch(s, after),
        lbu_spec::<D>(s, i) matches Ok(after) ==> keeps_bus(s, after) && keeps_latch(s, after),
        lh_spec::<D>(s, i) matches Ok(after) ==> keeps_bus(s, after) && keeps_latch(s, after),
        lhu_spec::<D>(s, i) matches Ok(after) ==> keeps_bus(s, after) && keeps_latch(s, after),
        lw_spec::<D>(s, i) matches Ok(after) ==> keeps_bus(s, after) && keeps_latch(s, after),
        lwl_spec::<D>(s, i) matches Ok(after) ==> keeps_bus(s, after) && keeps_latch(s, after),
        lwr_spec::<D>(s, i) matches Ok(after) ==> keeps_bus(s, after) && keeps_latch(s, after),
{
}

/// The arithmetic on registers changes registers and the accumulator pair only.
pub proof fn register_arithmetic_is_plain<M>(s: CpuState<M>, i: RTypeInstruction)
    requires
        s.registers_wf(),
        i.wf(),
    ensures
        keeps_bus(s, add_spec(s, i)) && keeps_latch(s, add_spec(s, i)),
        keeps_bus(s, addu_spec(s, i)) && keeps_latch(s, addu_spec(s, i)),
        keeps_bus(s, and_spec(s, i)) && keeps_latch(s, and_spec(s, i)),
        keeps_bus(s, mfhi_spec(s, i)) && keeps_latch(s, mfhi_spec(s, i)),
        keeps_bus(s, mflo_spec(s, i)) && keeps_latch(s, mflo_spec(s, i)),
        keeps_bus(s, mthi_spec(s, i)) && keeps_latch(s, mthi_spec(s, i)),
        keeps_bus(s, mtlo_spec(s, i)) && keeps_latch(s, mtlo_spec(s, i)),
        keeps_bus(s, mult_spec(s, i)) && keeps_latch(s, mult_spec(s, i)),
        keeps_bus(s, multu_spec(s, i)) && keeps_latch(s, multu_spec(s, i)),
        keeps_bus(s, nor_spec(s, i)) && keeps_latch(s, nor_spec(s, i)),
        keeps_bus(s, or_spec(s, i)) && keeps_latch(s, or_spec(s, i)),
        keeps_bus(s, sll_spec(s, i)) && keeps_latch(s, sll_spec(s, i)),
        keeps_bus(s, sllv_spec(s, i)) && keeps_latch(s, sllv_spec(s, i)),
        keeps_bus(s, slt_spec(s, i)) && keeps_latch(s, slt_spec(s, i)),
        keeps_bus(s, sltu_spec(s, i)) && keeps_latch(s, sltu_spec(s, i)),
        keeps_bus(s, sra_spec(s, i)) && keeps_latch(s, sra_spec(s, i)),
        keeps_bus(s, srav_spec(s, i)) && keeps_latch(s, srav_spec(s, i)),
        keeps_bus(s, srl_spec(s, i)) && keeps_latch(s, srl_spec(s, i)),
        keeps_bus(s, srlv_spec(s, i)) && keeps_latch(s, srlv_spec(s, i)),
        keeps_bus(s, sub_spec(s, i)) && keeps_latch(s, sub_spec(s, i)),
        keeps_bus(s, subu_spec(s, i)) && keeps_latch(s, subu_spec(s, i)),
        keeps_bus(s, xor_spec(s, i)) && keeps_latch(s, xor_spec(s, i)),
{
}

/// The divisions change the accumulator pair only.
pub proof fn divisions_are_plain<M>(s: CpuState<M>, i: RTypeInstruction)
    requires
        s.registers_wf(),
        i.wf(),
    ensures
        div_spec(s, i) matches Ok(after) ==> keeps_bus(s, after) && keeps_latch(s, after),
        divu_spec(s, i) matches Ok(after) ==> keeps_bus(s, after) && keeps_latch(s, after),
{
}

/// The jumps through a register change the branch latch and a register only.
pub proof fn register_jumps_keep_the_bus<M>(s: CpuState<M>, i: RTypeInstruction)
    requires
        s.registers_wf(),
        i.wf(),
    ensures
        keeps_bus(s, jalr_spec(s, i)),
        keeps_bus(s, jr_spec(s, i)),
{
}

/// The jumps change the branch latch and register 31 only.
pub proof fn jumps_keep_the_bus<M>(s: CpuState<M>, i: JTypeInstruction)
    requires
        s.registers_wf(),
        i.wf(),
    ensures
        keeps_bus(s, j_spec(s, i)),
        keeps_bus(s, jal_spec(s, i)),
{
}

/// Every store leaves the registers, the program counter and the branch latch as they
/// are, and a bus that keeps its invariant.
pub proof fn stores_keep_inv<D: BusObject>(s: CpuState<D::Model>, i: ITypeInstruction)
    requires
        cpu_inv::<D>(s),
        i.wf(),
    ensures
        sb_spec::<D>(s, i) matches Ok(after) ==> cpu_inv::<D>(after) && keeps_latch(s, after),
        sh_spec::<D>(s, i) matches Ok(after) ==> cpu_inv::<D>(after) && keeps_latch(s, after),
        sw_spec::<D>(s, i) matches Ok(after) ==> cpu_inv::<D>(after) && keeps_latch(s, after),
        swl_spec::<D>(s, i) matches Ok(after) ==> cpu_inv::<D>(after) && keeps_latch(s, after),
        swr_spec::<D>(s, i) matches Ok(after) ==> cpu_inv::<D>(after) && keeps_latch(s, after),
{
    let addr = effective_address(s, i);
    if Bus::<D>::serves(s.bus, addr, 1) {
        Bus::<D>::write_byte_keeps(s.bus, addr, lane(s.reg(i.rt), 0));
    }
    if Bus::<D>::serves(s.bus, addr, 2) {
        Bus::<D>::write_hw_keeps(s.bus, addr, swap16((s.reg(i.rt) % 0x1_0000) as u16));
    }
    if Bus::<D>::serves(s.bus, addr, 4) {
        Bus::<D>::write_w_keeps(s.bus, addr, swap32(s.reg(i.rt)));
    }
    let left = lanes(s.reg(i.rt)).take(bytes_to_boundary(addr) as int);
    if run_served::<D>(s, addr, left.len()) is Ok {
        write_run_keeps::<D>(s, addr, left);
    }
    let n = bytes_past_boundary(addr);
    let right = lanes(s.reg(i.rt)).skip(4 - n);
    if run_served::<D>(s, (addr - n + 1) as u32, right.len()) is Ok {
        write_run_keeps::<D>(s, (addr - n + 1) as u32, right);
    }
}

/// Whether `after` is a state that an instruction with the operation `f` may leave of
/// `s`: one that the processor can be in, at the same program counter, and with the same
/// branch latch unless `f` is a branch.
pub open spec fn may_follow<D: BusObject>(s: CpuState<D::Model>, f: Operation, after: CpuState<D::Model>) -> bool {
    &&& cpu_inv::<D>(after)
    &&& after.pc == s.pc
    &&& !is_branch(f) ==> keeps_latch(s, after)
}

/// Every register-immediate instruction but a store leaves the bus as it is.
pub proof fn execute_i_keeps_bus<D: BusObject>(s: CpuState<D::Model>, f: Operation, i: ITypeInstruction)
    requires
        s.registers_wf(),
        i.wf(),
        !is_store(f),
    ensures
        execute_i_spec::<D>(s, f, i) matches Ok(after) ==> keeps_bus(s, after) && (!is_branch(f)
            ==> keeps_latch(s, after)),
{
    immediate_arithmetic_is_plain(s, i);
    branches_keep_the_bus(s, i);
    loads_are_plain::<D>(s, i);
}

/// Every store leaves a state that the processor can be in.
pub proof fn execute_store_keeps_inv<D: BusObject>(s: CpuState<D::Model>, f: Operation, i: ITypeInstruction)
    requires
        cpu_inv::<D>(s),
        i.wf(),
        is_store(f),
    ensures
        execute_i_spec::<D>(s, f, i) matches Ok(after) ==> cpu_inv::<D>(after) && keeps_latch(s, after),
{
    stores_keep_inv::<D>(s, i);
}

/// Every register-immediate instruction leaves a state that the processor can be in.
pub proof fn execute_i_keeps_inv<D: BusObject>(s: CpuState<D::Model>, f: Operation, i: ITypeInstruction)
    requires
        cpu_inv::<D>(s),
        i.wf(),
    ensures
        execute_i_spec::<D>(s, f, i) matches Ok(after) ==> may_follow::<D>(s, f, after),
{
    if is_store(f) {
        execute_store_keeps_inv::<D>(s, f, i);
    } else {
        execute_i_keeps_bus::<D>(s, f, i);
    }
}

/// Every jump leaves a state that the processor can be in.
pub proof fn execute_j_keeps_inv<D: BusObject>(s: CpuState<D::Model>, f: Operation, i: JTypeInstruction)
    requires
        cpu_inv::<D>(s),
        i.wf(),
    ensures
        execute_j_spec::<D>(s, f, i) matches Ok(after) ==> may_follow::<D>(s, f, after),
        f.class() == InstructionClass::Jump ==> is_branch(f),
{
    jumps_keep_the_bus(s, i);
}

/// Every register-register instruction leaves a state that the processor can be in.
pub proof fn execute_r_keeps_inv<D: BusObject>(s: CpuState<D::Model>, f: Operation, i: RTypeInstruction)
    requires
        cpu_inv::<D>(s),
        i.wf(),
    ensures
        execute_r_spec::<D>(s, f, i) matches Ok(after) ==> may_follow::<D>(s, f, after),
{
    register_arithmetic_is_plain(s, i);
    divisions_are_plain(s, i);
    register_jumps_keep_the_bus(s, i);
}

/// Every instruction leaves a state that the processor can be in, at the same program
/// counter, and an instruction that is no branch leaves the branch latch as it is.
pub proof fn execute_keeps_inv<D: BusObject>(s: CpuState<D::Model>, info: InstructionInfos)
    requires
        cpu_inv::<D>(s),
        info.wf(),
    ensures
        execute_spec::<D>(s, info) matches Ok(after) ==> may_follow::<D>(s, info.operation(), after),
{
    match info {
        InstructionInfos::IType(x) => execute_i_keeps_inv::<D>(s, x.f, x.decoded_instruction),
        InstructionInfos::JType(x) => execute_j_keeps_inv::<D>(s, x.f, x.decoded_instruction),
        InstructionInfos::RType(x) => execute_r_keeps_inv::<D>(s, x.f, x.decoded_instruction),
    }
}

/// A write to register 0 is discarded: whatever is written, and to whichever register,
/// register 0 reads as 0 afterwards.
pub proof fn register_zero_stays_zero<M>(s: CpuState<M>, index: u8, value: u32)
    requires
        s.registers_wf(),
        index < 32,
    ensures
        s.with_register(0, value) == s,
        s.with_register(index, value).registers_wf(),
        s.with_register(index, value).reg(0) == 0,
{
}

/// Every instruction that is fetched is well formed.
pub proof fn fetched_is_well_formed<D: BusObject>(s: CpuState<D::Model>)
    ensures
        fetch_spec::<D>(s) matches Ok(info) ==> info.wf(),
{
    if load_word::<D>(s, s.pc) is Ok {
        decoded_is_well_formed(OpDecodedInstruction::decode_spec(swap32(load_word::<D>(s, s.pc)->Ok_0)));
    }
}

/// Every step leaves a state that the processor can be in; in particular register 0
/// reads as 0 after every instruction.
pub proof fn step_keeps_inv<D: BusObject>(s: CpuState<D::Model>)
    requires
        cpu_inv::<D>(s),
    ensures
        step_spec::<D>(s) matches Ok(after) ==> cpu_inv::<D>(after) && after.reg(0) == 0,
{
    fetched_is_well_formed::<D>(s);
    if fetch_spec::<D>(s) is Ok {
        execute_keeps_inv::<D>(s, fetch_spec::<D>(s)->Ok_0);
    }
}

/// A branch takes effect one instruction late. Let no branch be pending, let the
/// instruction at the program counter latch a branch, and let the instruction after it be
/// no branch. Then the first step moves the program counter to the next word with the
/// branch pending, and the second step executes that next instruction once, on the state
/// that the first step left, and then moves the program counter to the branch target and
/// clears the latch.
pub proof fn branch_takes_effect_after_delay_slot<D: BusObject>(s0: CpuState<D::Model>)
    requires
        cpu_inv::<D>(s0),
        !s0.branch,
        step_spec::<D>(s0) is Ok,
        step_spec::<D>(s0)->Ok_0.branch,
        step_spec::<D>(step_spec::<D>(s0)->Ok_0) is Ok,
        !is_branch(fetch_spec::<D>(step_spec::<D>(s0)->Ok_0)->Ok_0.operation()),
    ensures
        ({
            let s1 = step_spec::<D>(s0)->Ok_0;
            let s2 = step_spec::<D>(s1)->Ok_0;
            let slot = fetch_spec::<D>(s1)->Ok_0;
            let target = s1.branch_target;
            &&& s1.pc == add32(s0.pc, 4)
            &&& execute_spec::<D>(s1, slot) is Ok
            &&& s2 == execute_spec::<D>(s1, slot)->Ok_0.with_pc(target).without_branch()
            &&& s2.pc == target
            &&& !s2.branch
        }),
{
    let s1 = step_spec::<D>(s0)->Ok_0;
    let first = fetch_spec::<D>(s0)->Ok_0;
    let slot = fetch_spec::<D>(s1)->Ok_0;
    fetched_is_well_formed::<D>(s0);
    execute_keeps_inv::<D>(s0, first);
    step_keeps_inv::<D>(s0);
    fetched_is_well_formed::<D>(s1);
    execute_keeps_inv::<D>(s1, slot);
}

} // verus!
