//! The three decoded instruction records, and one execution handler per mnemonic.

use vstd::prelude::*;
use crate::bits::{
    add32, add_words, extend_byte, extend_half, from_signed, lane, lane_of, lanes, pattern,
    quotient, remainder, sign_extend_16, sign_extend_8, signed, signed_less, sub32, sub_words,
    swap16, swap32, swap_half, to_signed, word_from_le, word_of_lanes,
};
use crate::bus_objects::{Bus, BusObject};
use crate::cpu::{
    cpu_inv, CpuState, Fault, load_byte, load_half, load_word, MipsCpu, store_byte, store_half,
    store_word,
};

verus! {

/// A raw instruction word with its primary opcode extracted.
#[derive(Clone, Copy, Debug)]
pub struct OpDecodedInstruction {
    pub op: u8,
    pub other: u32,
}

/// The primary opcode of an instruction word: its top 6 bits.
pub open spec fn opcode_field(word: u32) -> u8 {
    (word / 0x400_0000) as u8
}

/// The first register field of an instruction word: bits 21 to 25.
pub open spec fn rs_field(word: u32) -> u8 {
    ((word / 0x20_0000) % 32) as u8
}

/// The second register field of an instruction word: bits 16 to 20.
pub open spec fn rt_field(word: u32) -> u8 {
    ((word / 0x1_0000) % 32) as u8
}

/// The third register field of an instruction word: bits 11 to 15.
pub open spec fn rd_field(word: u32) -> u8 {
    ((word / 0x800) % 32) as u8
}

/// The shift amount of an instruction word: bits 6 to 10.
pub open spec fn shamt_field(word: u32) -> u8 {
    ((word / 0x40) % 32) as u8
}

/// The function code of an instruction word: its low 6 bits.
pub open spec fn funct_field(word: u32) -> u8 {
    (word % 0x40) as u8
}

/// The immediate of an instruction word: its low 16 bits.
pub open spec fn immediate_field(word: u32) -> u16 {
    (word % 0x1_0000) as u16
}

/// The jump target of an instruction word: its low 26 bits.
pub open spec fn target_field(word: u32) -> u32 {
    word % 0x400_0000
}

proof fn lemma_fields(w: u32)
    by (bit_vector)
    ensures
        (w & 0xFC00_0000) >> 26 == w / 0x400_0000,
        (w & 0x03E0_0000) >> 21 == (w / 0x20_0000) % 32,
        (w & 0x001F_0000) >> 16 == (w / 0x1_0000) % 32,
        (w & 0x0000_F800) >> 11 == (w / 0x800) % 32,
        (w & 0x0000_07C0) >> 6 == (w / 0x40) % 32,
        w & 0x0000_003F == w % 0x40,
        w & 0x0000_FFFF == w % 0x1_0000,
        w & 0x03FF_FFFF == w % 0x400_0000,
{
}

impl OpDecodedInstruction {
    /// The record that `decode` makes of an instruction word.
    pub open spec fn decode_spec(i: u32) -> Self {
        OpDecodedInstruction { op: opcode_field(i), other: i }
    }

    /// Extracts the primary opcode and keeps the whole word for the second stage.
    pub fn decode(i: u32) -> (r: Self)
        ensures
            r == Self::decode_spec(i),
    {
        proof {
            lemma_fields(i);
        }
        OpDecodedInstruction { op: ((i & 0xFC00_0000) >> 26) as u8, other: i }
    }
}

/// A record that the second decode stage makes from the first stage's record.
pub trait FromOpDecodedInstruction: Sized {
    /// The record that `decode` makes.
    spec fn decode_spec(i: OpDecodedInstruction) -> Self;

    fn decode(i: OpDecodedInstruction) -> (r: Self)
        ensures
            r == Self::decode_spec(i),
    ;
}

/// A register-immediate instruction. For a register-immediate branch `rt` selects the
/// branch instead of naming a register.
#[derive(Clone, Copy, Debug)]
pub struct ITypeInstruction {
    pub op: u8,
    pub rs: u8,
    pub rt: u8,
    pub immediate: u16,
}

impl ITypeInstruction {
    /// Both register fields are 5-bit register indices.
    pub open spec fn wf(&self) -> bool {
        self.rs < 32 && self.rt < 32
    }

    #[inline]
    pub fn rs(&self) -> (r: u8)
        ensures
            r == self.rs,
    {
        self.rs
    }

    #[inline]
    pub fn rt(&self) -> (r: u8)
        ensures
            r == self.rt,
    {
        self.rt
    }

    #[inline]
    pub fn immediate(&self) -> (r: u16)
        ensures
            r == self.immediate,
    {
        self.immediate
    }
}

impl FromOpDecodedInstruction for ITypeInstruction {
    open spec fn decode_spec(i: OpDecodedInstruction) -> Self {
        ITypeInstruction {
            op: i.op,
            rs: rs_field(i.other),
            rt: rt_field(i.other),
            immediate: immediate_field(i.other),
        }
    }

    fn decode(i: OpDecodedInstruction) -> (r: Self)
        ensures
            r.wf(),
    {
        proof {
            lemma_fields(i.other);
        }
        let im = i.other & 0x0000_FFFF;
        let rt = (i.other & 0x001F_0000) >> 16;
        let rs = (i.other & 0x03E0_0000) >> 21;
        ITypeInstruction { op: i.op, rs: rs as u8, rt: rt as u8, immediate: im as u16 }
    }
}

/// A jump instruction.
#[derive(Clone, Copy, Debug)]
pub struct JTypeInstruction {
    pub op: u8,
    pub target: u32,
}

impl JTypeInstruction {
    /// The target is a 26-bit field.
    pub open spec fn wf(&self) -> bool {
        self.target < 0x400_0000
    }

    #[inline]
    pub fn target(&self) -> (r: u32)
        ensures
            r == self.target,
    {
        self.target
    }
}

impl FromOpDecodedInstruction for JTypeInstruction {
    open spec fn decode_spec(i: OpDecodedInstruction) -> Self {
        JTypeInstruction { op: i.op, target: target_field(i.other) }
    }

    fn decode(i: OpDecodedInstruction) -> (r: Self)
        ensures
            r.wf(),
    {
        proof {
            lemma_fields(i.other);
        }
        JTypeInstruction { op: i.op, target: i.other & 0x03FF_FFFF }
    }
}

/// A register-register instruction.
#[derive(Clone, Copy, Debug)]
pub struct RTypeInstruction {
    pub op: u8,
    pub rs: u8,
    pub rt: u8,
    pub rd: u8,
    pub shamt: u8,
    pub funct: u8,
}

impl RTypeInstruction {
    /// The register fields and the shift amount are 5-bit values, the function code is a
    /// 6-bit value.
    pub open spec fn wf(&self) -> bool {
        self.rs < 32 && self.rt < 32 && self.rd < 32 && self.shamt < 32 && self.funct < 64
    }

    #[inline]
    pub fn rs(&self) -> (r: u8)
        ensures
            r == self.rs,
    {
        self.rs
    }

    #[inline]
    pub fn rt(&self) -> (r: u8)
        ensures
            r == self.rt,
    {
        self.rt
    }

    #[inline]
    pub fn rd(&self) -> (r: u8)
        ensures
            r == self.rd,
    {
        self.rd
    }
}

impl FromOpDecodedInstruction for RTypeInstruction {
    open spec fn decode_spec(i: OpDecodedInstruction) -> Self {
        RTypeInstruction {
            op: i.op,
            rs: rs_field(i.other),
            rt: rt_field(i.other),
            rd: rd_field(i.other),
            shamt: shamt_field(i.other),
            funct: funct_field(i.other),
        }
    }

    fn decode(i: OpDecodedInstruction) -> (r: Self)
        ensures
            r.wf(),
    {
        proof {
            lemma_fields(i.other);
        }
        let rs = (i.other & 0x03E0_0000) >> 21;
        let rt = (i.other & 0x001F_0000) >> 16;
        let rd = (i.other & 0x0000_F800) >> 11;
        let shamt = (i.other & 0x0000_07C0) >> 6;
        let funct = i.other & 0x0000_003F;
        RTypeInstruction {
            op: i.op,
            rs: rs as u8,
            rt: rt as u8,
            rd: rd as u8,
            shamt: shamt as u8,
            funct: funct as u8,
        }
    }
}

/// The low and the high word of a signed 64-bit product of two 32-bit values.
fn split_product(r: i64) -> (words: (u32, u32))
    requires
        -0x4000_0000_0000_0000 <= r <= 0x4000_0000_0000_0000,
    ensures
        words.0 == pattern(r as int),
        words.1 == pattern(r as int / 0x1_0000_0000),
{
    let low: i64 = r.checked_rem_euclid(0x1_0000_0000).unwrap();
    let high: i64 = r.checked_div_euclid(0x1_0000_0000).unwrap();
    let high_word: u32 = if high < 0 {
        (high + 0x1_0000_0000) as u32
    } else {
        high as u32
    };
    (low as u32, high_word)
}

/// `x` shifted right by `by` bits, with copies of its sign bit coming in.
pub open spec fn arithmetic_shift(x: u32, by: u32) -> u32 {
    ((x as i32) >> by) as u32
}

/// Shifts `x` right by `by` bits, with copies of its sign bit coming in.
pub fn shift_arithmetic(x: u32, by: u32) -> (r: u32)
    requires
        by < 32,
    ensures
        r == arithmetic_shift(x, by),
{
    #[verifier::truncate]
    ((#[verifier::truncate]
    (x as i32) >> by) as u32)
}

/// The address that a load or store accesses: the base register plus the sign-extended
/// immediate, modulo 2^32.
pub open spec fn effective_address<M>(s: CpuState<M>, i: ITypeInstruction) -> u32 {
    add32(s.reg(i.rs), sign_extend_16(i.immediate))
}

/// Four times the signed value of a 16-bit immediate, as a 32-bit two's-complement
/// pattern.
pub open spec fn branch_offset(immediate: u16) -> u32 {
    if immediate < 0x8000 {
        (4 * immediate) as u32
    } else {
        (0xFFFC_0000 + 4 * immediate) as u32
    }
}

/// The target of a conditional branch: the address of the instruction after the branch
/// plus four times the sign-extended immediate, modulo 2^32.
pub open spec fn branch_target(pc: u32, immediate: u16) -> u32 {
    add32(add32(pc, 4), branch_offset(immediate))
}

/// The target of a conditional branch is the pattern of the address of the branch plus
/// 4 plus four times the signed value of the immediate.
pub proof fn branch_target_is_modular(pc: u32, immediate: u16)
    ensures
        branch_target(pc, immediate) == pattern(pc + 4 + 4 * signed(sign_extend_16(immediate))),
        branch_offset(immediate) == pattern(4 * signed(sign_extend_16(immediate))),
{
}

/// The target of a jump: four times the 26-bit field, in the 256 MB region of the
/// program counter.
pub open spec fn jump_target(pc: u32, target: u32) -> u32 {
    ((pc / 0x1000_0000) * 0x1000_0000 + 4 * target) as u32
}

/// The return address that a linking branch or jump leaves: two instructions past the
/// program counter.
pub open spec fn link_address(pc: u32) -> u32 {
    add32(pc, 8)
}

/// 1 if `b` holds, else 0.
pub open spec fn flag(b: bool) -> u32 {
    if b {
        1
    } else {
        0
    }
}

/// The state after a conditional branch: the branch is latched if `cond` holds.
pub open spec fn branch_spec<M>(s: CpuState<M>, i: ITypeInstruction, cond: bool) -> CpuState<M> {
    if cond {
        s.with_branch(branch_target(s.pc, i.immediate))
    } else {
        s
    }
}

/// Latches a branch to the target of `i` if `cond` holds.
fn generic_branch<D: BusObject>(cpu: &mut MipsCpu<'_, D>, i: ITypeInstruction, cond: bool)
    ensures
        final(cpu)@ == branch_spec(old(cpu)@, i, cond),
        *final(final(cpu).bus) == *final(old(cpu).bus),
{
    if cond {
        let target: u32 = target_of_branch(cpu.pc(), i.immediate);
        cpu.set_branch(target);
    }
}

/// The target of a conditional branch at `pc` with the given immediate.
pub fn target_of_branch(pc: u32, immediate: u16) -> (target: u32)
    ensures
        target == branch_target(pc, immediate),
{
    let offset: u32 = if immediate < 0x8000 {
        4 * (immediate as u32)
    } else {
        0xFFFC_0000 + 4 * (immediate as u32)
    };
    pc.wrapping_add(4).wrapping_add(offset)
}

/// The return address that a linking branch or jump at `pc` leaves.
pub fn link_of(pc: u32) -> (link: u32)
    ensures
        link == link_address(pc),
{
    pc.wrapping_add(8)
}


/// The state after `add`: as `addu`; a signed overflow does not trap.
pub open spec fn add_spec<M>(s: CpuState<M>, i: RTypeInstruction) -> CpuState<M> {
    addu_spec(s, i)
}

/// Executes `add`: as `addu`; a signed overflow does not trap.
pub fn add<D: BusObject>(cpu: &mut MipsCpu<'_, D>, i: RTypeInstruction)
    requires
        i.wf(),
    ensures
        final(cpu)@ == add_spec(old(cpu)@, i),
        *final(final(cpu).bus) == *final(old(cpu).bus),
{
    self::addu(cpu, i);
}

/// The state after `addi`: as `addiu`; a signed overflow does not trap.
pub open spec fn addi_spec<M>(s: CpuState<M>, i: ITypeInstruction) -> CpuState<M> {
    addiu_spec(s, i)
}

/// Executes `addi`: as `addiu`; a signed overflow does not trap.
pub fn addi<D: BusObject>(cpu: &mut MipsCpu<'_, D>, i: ITypeInstruction)
    requires
        i.wf(),
    ensures
        final(cpu)@ == addi_spec(old(cpu)@, i),
        *final(final(cpu).bus) == *final(old(cpu).bus),
{
    self::addiu(cpu, i);
}

/// The state after `addiu`: `rt` gets `rs` plus the sign-extended immediate, modulo 2^32.
pub open spec fn addiu_spec<M>(s: CpuState<M>, i: ITypeInstruction) -> CpuState<M> {
    s.with_register(i.rt, add32(s.reg(i.rs), sign_extend_16(i.immediate)))
}

/// Executes `addiu`: `rt` gets `rs` plus the sign-extended immediate, modulo 2^32.
pub fn addiu<D: BusObject>(cpu: &mut MipsCpu<'_, D>, i: ITypeInstruction)
    requires
        i.wf(),
    ensures
        final(cpu)@ == addiu_spec(old(cpu)@, i),
        *final(final(cpu).bus) == *final(old(cpu).bus),
{
    let x: u32 = cpu.get_register(i.rs);
    cpu.set_register(i.rt, add_words(x, extend_half(i.immediate)));
}

/// The state after `addu`: `rd` gets `rs` plus `rt`, modulo 2^32.
pub open spec fn addu_spec<M>(s: CpuState<M>, i: RTypeInstruction) -> CpuState<M> {
    s.with_register(i.rd, add32(s.reg(i.rs), s.reg(i.rt)))
}

/// Executes `addu`: `rd` gets `rs` plus `rt`, modulo 2^32.
pub fn addu<D: BusObject>(cpu: &mut MipsCpu<'_, D>, i: RTypeInstruction)
    requires
        i.wf(),
    ensures
        final(cpu)@ == addu_spec(old(cpu)@, i),
        *final(final(cpu).bus) == *final(old(cpu).bus),
{
    let x: u32 = cpu.get_register(i.rs);
    let y: u32 = cpu.get_register(i.rt);
    cpu.set_register(i.rd, add_words(x, y));
}

/// The state after `and`: `rd` gets the bitwise and of `rs` and `rt`.
pub open spec fn and_spec<M>(s: CpuState<M>, i: RTypeInstruction) -> CpuState<M> {
    s.with_register(i.rd, s.reg(i.rs) & s.reg(i.rt))
}

/// Executes `and`: `rd` gets the bitwise and of `rs` and `rt`.
pub fn and<D: BusObject>(cpu: &mut MipsCpu<'_, D>, i: RTypeInstruction)
    requires
        i.wf(),
    ensures
        final(cpu)@ == and_spec(old(cpu)@, i),
        *final(final(cpu).bus) == *final(old(cpu).bus),
{
    let x: u32 = cpu.get_register(i.rs);
    let y: u32 = cpu.get_register(i.rt);
    cpu.set_register(i.rd, x & y);
}

/// The state after `andi`: `rt` gets the bitwise and of `rs` and the zero-extended
/// immediate.
pub open spec fn andi_spec<M>(s: CpuState<M>, i: ITypeInstruction) -> CpuState<M> {
    s.with_register(i.rt, s.reg(i.rs) & (i.immediate as u32))
}

/// Executes `andi`: `rt` gets the bitwise and of `rs` and the zero-extended immediate.
pub fn andi<D: BusObject>(cpu: &mut MipsCpu<'_, D>, i: ITypeInstruction)
    requires
        i.wf(),
    ensures
        final(cpu)@ == andi_spec(old(cpu)@, i),
        *final(final(cpu).bus) == *final(old(cpu).bus),
{
    let x: u32 = cpu.get_register(i.rs);
    cpu.set_register(i.rt, x & (i.immediate as u32));
}

/// The state after `beq`: branches if `rs` equals `rt`.
pub open spec fn beq_spec<M>(s: CpuState<M>, i: ITypeInstruction) -> CpuState<M> {
    branch_spec(s, i, s.reg(i.rs) == s.reg(i.rt))
}

/// Executes `beq`: branches if `rs` equals `rt`.
pub fn beq<D: BusObject>(cpu: &mut MipsCpu<'_, D>, i: ITypeInstruction)
    requires
        i.wf(),
    ensures
        final(cpu)@ == beq_spec(old(cpu)@, i),
        *final(final(cpu).bus) == *final(old(cpu).bus),
{
    let cond: bool = cpu.get_register(i.rs) == cpu.get_register(i.rt);
    generic_branch(cpu, i, cond);
}

/// The state after `bgez`: branches if `rs` is not negative.
pub open spec fn bgez_spec<M>(s: CpuState<M>, i: ITypeInstruction) -> CpuState<M> {
    branch_spec(s, i, signed(s.reg(i.rs)) >= 0)
}

/// Executes `bgez`: branches if `rs` is not negative.
pub fn bgez<D: BusObject>(cpu: &mut MipsCpu<'_, D>, i: ITypeInstruction)
    requires
        i.wf(),
    ensures
        final(cpu)@ == bgez_spec(old(cpu)@, i),
        *final(final(cpu).bus) == *final(old(cpu).bus),
{
    let cond: bool = cpu.get_register(i.rs) < 0x8000_0000;
    generic_branch(cpu, i, cond);
}

/// The state after `bgezal`: branches if `rs` is not negative, and in either case leaves
/// the return address in register 31.
pub open spec fn bgezal_spec<M>(s: CpuState<M>, i: ITypeInstruction) -> CpuState<M> {
    branch_spec(s, i, signed(s.reg(i.rs)) >= 0).with_register(31, link_address(s.pc))
}

/// Executes `bgezal`: branches if `rs` is not negative, and in either case leaves the
/// return address in register 31.
pub fn bgezal<D: BusObject>(cpu: &mut MipsCpu<'_, D>, i: ITypeInstruction)
    requires
        i.wf(),
    ensures
        final(cpu)@ == bgezal_spec(old(cpu)@, i),
        *final(final(cpu).bus) == *final(old(cpu).bus),
{
    let cond: bool = cpu.get_register(i.rs) < 0x8000_0000;
    generic_branch(cpu, i, cond);
    let link: u32 = link_of(cpu.pc());
    cpu.set_register(31, link);
}

/// The state after `bgtz`: branches if `rs` is positive.
pub open spec fn bgtz_spec<M>(s: CpuState<M>, i: ITypeInstruction) -> CpuState<M> {
    branch_spec(s, i, signed(s.reg(i.rs)) > 0)
}

/// Executes `bgtz`: branches if `rs` is positive.
pub fn bgtz<D: BusObject>(cpu: &mut MipsCpu<'_, D>, i: ITypeInstruction)
    requires
        i.wf(),
    ensures
        final(cpu)@ == bgtz_spec(old(cpu)@, i),
        *final(final(cpu).bus) == *final(old(cpu).bus),
{
    let cond: bool = 0 < cpu.get_register(i.rs) && cpu.get_register(i.rs) < 0x8000_0000;
    generic_branch(cpu, i, cond);
}

/// The state after `blez`: branches if `rs` is zero or negative.
pub open spec fn blez_spec<M>(s: CpuState<M>, i: ITypeInstruction) -> CpuState<M> {
    branch_spec(s, i, signed(s.reg(i.rs)) <= 0)
}

/// Executes `blez`: branches if `rs` is zero or negative.
pub fn blez<D: BusObject>(cpu: &mut MipsCpu<'_, D>, i: ITypeInstruction)
    requires
        i.wf(),
    ensures
        final(cpu)@ == blez_spec(old(cpu)@, i),
        *final(final(cpu).bus) == *final(old(cpu).bus),
{
    let cond: bool = cpu.get_register(i.rs) == 0 || cpu.get_register(i.rs) >= 0x8000_0000;
    generic_branch(cpu, i, cond);
}

/// The state after `bltz`: branches if `rs` is negative.
pub open spec fn bltz_spec<M>(s: CpuState<M>, i: ITypeInstruction) -> CpuState<M> {
    branch_spec(s, i, signed(s.reg(i.rs)) < 0)
}

/// Executes `bltz`: branches if `rs` is negative.
pub fn bltz<D: BusObject>(cpu: &mut MipsCpu<'_, D>, i: ITypeInstruction)
    requires
        i.wf(),
    ensures
        final(cpu)@ == bltz_spec(old(cpu)@, i),
        *final(final(cpu).bus) == *final(old(cpu).bus),
{
    let cond: bool = cpu.get_register(i.rs) >= 0x8000_0000;
    generic_branch(cpu, i, cond);
}

/// The state after `bltzal`: branches if `rs` is negative, and in either case leaves the
/// return address in register 31.
pub open spec fn bltzal_spec<M>(s: CpuState<M>, i: ITypeInstruction) -> CpuState<M> {
    branch_spec(s, i, signed(s.reg(i.rs)) < 0).with_register(31, link_address(s.pc))
}

/// Executes `bltzal`: branches if `rs` is negative, and in either case leaves the return
/// address in register 31.
pub fn bltzal<D: BusObject>(cpu: &mut MipsCpu<'_, D>, i: ITypeInstruction)
    requires
        i.wf(),
    ensures
        final(cpu)@ == bltzal_spec(old(cpu)@, i),
        *final(final(cpu).bus) == *final(old(cpu).bus),
{
    let cond: bool = cpu.get_register(i.rs) >= 0x8000_0000;
    generic_branch(cpu, i, cond);
    let link: u32 = link_of(cpu.pc());
    cpu.set_register(31, link);
}

/// The state after `bne`: branches if `rs` differs from `rt`.
pub open spec fn bne_spec<M>(s: CpuState<M>, i: ITypeInstruction) -> CpuState<M> {
    branch_spec(s, i, s.reg(i.rs) != s.reg(i.rt))
}

/// Executes `bne`: branches if `rs` differs from `rt`.
pub fn bne<D: BusObject>(cpu: &mut MipsCpu<'_, D>, i: ITypeInstruction)
    requires
        i.wf(),
    ensures
        final(cpu)@ == bne_spec(old(cpu)@, i),
        *final(final(cpu).bus) == *final(old(cpu).bus),
{
    let cond: bool = cpu.get_register(i.rs) != cpu.get_register(i.rt);
    generic_branch(cpu, i, cond);
}

/// The state after `j`: latches a jump to the target in the region of the program counter.
pub open spec fn j_spec<M>(s: CpuState<M>, i: JTypeInstruction) -> CpuState<M> {
    s.with_branch(jump_target(s.pc, i.target))
}

/// Executes `j`: latches a jump to the target in the region of the program counter.
pub fn j<D: BusObject>(cpu: &mut MipsCpu<'_, D>, i: JTypeInstruction)
    requires
        i.wf(),
    ensures
        final(cpu)@ == j_spec(old(cpu)@, i),
        *final(final(cpu).bus) == *final(old(cpu).bus),
{
    let target: u32 = (cpu.pc() / 0x1000_0000) * 0x1000_0000 + 4 * i.target;
    cpu.set_branch(target);
}

/// The state after `jal`: as `j`, and leaves the return address in register 31.
pub open spec fn jal_spec<M>(s: CpuState<M>, i: JTypeInstruction) -> CpuState<M> {
    s.with_branch(jump_target(s.pc, i.target)).with_register(31, link_address(s.pc))
}

/// Executes `jal`: as `j`, and leaves the return address in register 31.
pub fn jal<D: BusObject>(cpu: &mut MipsCpu<'_, D>, i: JTypeInstruction)
    requires
        i.wf(),
    ensures
        final(cpu)@ == jal_spec(old(cpu)@, i),
        *final(final(cpu).bus) == *final(old(cpu).bus),
{
    self::j(cpu, i);
    let link: u32 = link_of(cpu.pc());
    cpu.set_register(31, link);
}

/// The state after `jalr`: as `jr`, and leaves the return address in `rd`.
pub open spec fn jalr_spec<M>(s: CpuState<M>, i: RTypeInstruction) -> CpuState<M> {
    s.with_branch(s.reg(i.rs)).with_register(i.rd, link_address(s.pc))
}

/// Executes `jalr`: as `jr`, and leaves the return address in `rd`.
pub fn jalr<D: BusObject>(cpu: &mut MipsCpu<'_, D>, i: RTypeInstruction)
    requires
        i.wf(),
    ensures
        final(cpu)@ == jalr_spec(old(cpu)@, i),
        *final(final(cpu).bus) == *final(old(cpu).bus),
{
    let target: u32 = cpu.get_register(i.rs);
    let link: u32 = link_of(cpu.pc());
    cpu.set_branch(target);
    cpu.set_register(i.rd, link);
}

/// The state after `jr`: latches a jump to the address in `rs`.
pub open spec fn jr_spec<M>(s: CpuState<M>, i: RTypeInstruction) -> CpuState<M> {
    s.with_branch(s.reg(i.rs))
}

/// Executes `jr`: latches a jump to the address in `rs`.
pub fn jr<D: BusObject>(cpu: &mut MipsCpu<'_, D>, i: RTypeInstruction)
    requires
        i.wf(),
    ensures
        final(cpu)@ == jr_spec(old(cpu)@, i),
        *final(final(cpu).bus) == *final(old(cpu).bus),
{
    let target: u32 = cpu.get_register(i.rs);
    cpu.set_branch(target);
}

/// The state after `lui`: `rt` gets the immediate in its upper half and zero in its lower
/// half.
pub open spec fn lui_spec<M>(s: CpuState<M>, i: ITypeInstruction) -> CpuState<M> {
    s.with_register(i.rt, (i.immediate * 0x1_0000) as u32)
}

/// Executes `lui`: `rt` gets the immediate in its upper half and zero in its lower half.
pub fn lui<D: BusObject>(cpu: &mut MipsCpu<'_, D>, i: ITypeInstruction)
    requires
        i.wf(),
    ensures
        final(cpu)@ == lui_spec(old(cpu)@, i),
        *final(final(cpu).bus) == *final(old(cpu).bus),
{
    let to_load: u32 = (i.immediate as u32) * 0x1_0000;
    cpu.set_register(i.rt, to_load);
}

/// The state after `mfhi`: `rd` gets the high word of the accumulator pair.
pub open spec fn mfhi_spec<M>(s: CpuState<M>, i: RTypeInstruction) -> CpuState<M> {
    s.with_register(i.rd, s.hi)
}

/// Executes `mfhi`: `rd` gets the high word of the accumulator pair.
pub fn mfhi<D: BusObject>(cpu: &mut MipsCpu<'_, D>, i: RTypeInstruction)
    requires
        i.wf(),
    ensures
        final(cpu)@ == mfhi_spec(old(cpu)@, i),
        *final(final(cpu).bus) == *final(old(cpu).bus),
{
    let value: u32 = cpu.hi();
    cpu.set_register(i.rd, value);
}

/// The state after `mflo`: `rd` gets the low word of the accumulator pair.
pub open spec fn mflo_spec<M>(s: CpuState<M>, i: RTypeInstruction) -> CpuState<M> {
    s.with_register(i.rd, s.lo)
}

/// Executes `mflo`: `rd` gets the low word of the accumulator pair.
pub fn mflo<D: BusObject>(cpu: &mut MipsCpu<'_, D>, i: RTypeInstruction)
    requires
        i.wf(),
    ensures
        final(cpu)@ == mflo_spec(old(cpu)@, i),
        *final(final(cpu).bus) == *final(old(cpu).bus),
{
    let value: u32 = cpu.lo();
    cpu.set_register(i.rd, value);
}

/// The state after `mthi`: the high word of the accumulator pair gets `rs`.
pub open spec fn mthi_spec<M>(s: CpuState<M>, i: RTypeInstruction) -> CpuState<M> {
    s.with_hi(s.reg(i.rs))
}

/// Executes `mthi`: the high word of the accumulator pair gets `rs`.
pub fn mthi<D: BusObject>(cpu: &mut MipsCpu<'_, D>, i: RTypeInstruction)
    requires
        i.wf(),
    ensures
        final(cpu)@ == mthi_spec(old(cpu)@, i),
        *final(final(cpu).bus) == *final(old(cpu).bus),
{
    let value: u32 = cpu.get_register(i.rs);
    cpu.set_hi(value);
}

/// The state after `mtlo`: the low word of the accumulator pair gets `rs`.
pub open spec fn mtlo_spec<M>(s: CpuState<M>, i: RTypeInstruction) -> CpuState<M> {
    s.with_lo(s.reg(i.rs))
}

/// Executes `mtlo`: the low word of the accumulator pair gets `rs`.
pub fn mtlo<D: BusObject>(cpu: &mut MipsCpu<'_, D>, i: RTypeInstruction)
    requires
        i.wf(),
    ensures
        final(cpu)@ == mtlo_spec(old(cpu)@, i),
        *final(final(cpu).bus) == *final(old(cpu).bus),
{
    let value: u32 = cpu.get_register(i.rs);
    cpu.set_lo(value);
}

/// The state after `mult`: the accumulator pair gets the 64-bit product of the signed
/// values of `rs` and `rt`: `lo` its low word, `hi` its high word.
pub open spec fn mult_spec<M>(s: CpuState<M>, i: RTypeInstruction) -> CpuState<M> {
    let product = signed(s.reg(i.rs)) * signed(s.reg(i.rt));
    s.with_lo(pattern(product)).with_hi(pattern(product / 0x1_0000_0000))
}

/// Executes `mult`: the accumulator pair gets the 64-bit product of the signed values of
/// `rs` and `rt`: `lo` its low word, `hi` its high word.
pub fn mult<D: BusObject>(cpu: &mut MipsCpu<'_, D>, i: RTypeInstruction)
    requires
        i.wf(),
    ensures
        final(cpu)@ == mult_spec(old(cpu)@, i),
        *final(final(cpu).bus) == *final(old(cpu).bus),
{
    let x: i64 = to_signed(cpu.get_register(i.rs)) as i64;
    let y: i64 = to_signed(cpu.get_register(i.rt)) as i64;
    assert(-0x4000_0000_0000_0000 <= x * y <= 0x4000_0000_0000_0000) by (nonlinear_arith)
        requires
            -0x8000_0000 <= x < 0x8000_0000,
            -0x8000_0000 <= y < 0x8000_0000,
    ;
    let (low, high) = split_product(x * y);
    cpu.set_lo(low);
    cpu.set_hi(high);
}

/// The state after `multu`: the accumulator pair gets the 64-bit product of `rs` and
/// `rt`: `lo` its low word, `hi` its high word.
pub open spec fn multu_spec<M>(s: CpuState<M>, i: RTypeInstruction) -> CpuState<M> {
    let product = s.reg(i.rs) * s.reg(i.rt);
    s.with_lo(pattern(product)).with_hi((product / 0x1_0000_0000) as u32)
}

/// Executes `multu`: the accumulator pair gets the 64-bit product of `rs` and `rt`: `lo`
/// its low word, `hi` its high word.
pub fn multu<D: BusObject>(cpu: &mut MipsCpu<'_, D>, i: RTypeInstruction)
    requires
        i.wf(),
    ensures
        final(cpu)@ == multu_spec(old(cpu)@, i),
        *final(final(cpu).bus) == *final(old(cpu).bus),
{
    let x: u64 = cpu.get_register(i.rs) as u64;
    let y: u64 = cpu.get_register(i.rt) as u64;
    assert(0 <= x * y <= 0xFFFF_FFFE_0000_0001) by (nonlinear_arith)
        requires
            0 <= x <= 0xFFFF_FFFF,
            0 <= y <= 0xFFFF_FFFF,
    ;
    let r: u64 = x * y;
    cpu.set_lo((r % 0x1_0000_0000) as u32);
    cpu.set_hi((r / 0x1_0000_0000) as u32);
}

/// The state after `nor`: `rd` gets the complement of the bitwise or of `rs` and `rt`.
pub open spec fn nor_spec<M>(s: CpuState<M>, i: RTypeInstruction) -> CpuState<M> {
    s.with_register(i.rd, !(s.reg(i.rs) | s.reg(i.rt)))
}

/// Executes `nor`: `rd` gets the complement of the bitwise or of `rs` and `rt`.
pub fn nor<D: BusObject>(cpu: &mut MipsCpu<'_, D>, i: RTypeInstruction)
    requires
        i.wf(),
    ensures
        final(cpu)@ == nor_spec(old(cpu)@, i),
        *final(final(cpu).bus) == *final(old(cpu).bus),
{
    let x: u32 = cpu.get_register(i.rs);
    let y: u32 = cpu.get_register(i.rt);
    cpu.set_register(i.rd, !(x | y));
}

/// The state after `or`: `rd` gets the bitwise or of `rs` and `rt`.
pub open spec fn or_spec<M>(s: CpuState<M>, i: RTypeInstruction) -> CpuState<M> {
    s.with_register(i.rd, s.reg(i.rs) | s.reg(i.rt))
}

/// Executes `or`: `rd` gets the bitwise or of `rs` and `rt`.
pub fn or<D: BusObject>(cpu: &mut MipsCpu<'_, D>, i: RTypeInstruction)
    requires
        i.wf(),
    ensures
        final(cpu)@ == or_spec(old(cpu)@, i),
        *final(final(cpu).bus) == *final(old(cpu).bus),
{
    let x: u32 = cpu.get_register(i.rs);
    let y: u32 = cpu.get_register(i.rt);
    cpu.set_register(i.rd, x | y);
}

/// The state after `ori`: `rt` gets the bitwise or of `rs` and the zero-extended immediate.
pub open spec fn ori_spec<M>(s: CpuState<M>, i: ITypeInstruction) -> CpuState<M> {
    s.with_register(i.rt, s.reg(i.rs) | (i.immediate as u32))
}

/// Executes `ori`: `rt` gets the bitwise or of `rs` and the zero-extended immediate.
pub fn ori<D: BusObject>(cpu: &mut MipsCpu<'_, D>, i: ITypeInstruction)
    requires
        i.wf(),
    ensures
        final(cpu)@ == ori_spec(old(cpu)@, i),
        *final(final(cpu).bus) == *final(old(cpu).bus),
{
    let x: u32 = cpu.get_register(i.rs);
    cpu.set_register(i.rt, x | (i.immediate as u32));
}

/// The state after `sll`: `rd` gets `rt` shifted left by the shift amount.
pub open spec fn sll_spec<M>(s: CpuState<M>, i: RTypeInstruction) -> CpuState<M> {
    s.with_register(i.rd, s.reg(i.rt) << i.shamt)
}

/// Executes `sll`: `rd` gets `rt` shifted left by the shift amount.
pub fn sll<D: BusObject>(cpu: &mut MipsCpu<'_, D>, i: RTypeInstruction)
    requires
        i.wf(),
    ensures
        final(cpu)@ == sll_spec(old(cpu)@, i),
        *final(final(cpu).bus) == *final(old(cpu).bus),
{
    let x: u32 = cpu.get_register(i.rs);
    let y: u32 = cpu.get_register(i.rt);
    cpu.set_register(i.rd, y << i.shamt);
}

/// The state after `sllv`: `rd` gets `rt` shifted left by the low five bits of `rs`.
pub open spec fn sllv_spec<M>(s: CpuState<M>, i: RTypeInstruction) -> CpuState<M> {
    s.with_register(i.rd, s.reg(i.rt) << (s.reg(i.rs) % 32))
}

/// Executes `sllv`: `rd` gets `rt` shifted left by the low five bits of `rs`.
pub fn sllv<D: BusObject>(cpu: &mut MipsCpu<'_, D>, i: RTypeInstruction)
    requires
        i.wf(),
    ensures
        final(cpu)@ == sllv_spec(old(cpu)@, i),
        *final(final(cpu).bus) == *final(old(cpu).bus),
{
    let x: u32 = cpu.get_register(i.rs);
    let y: u32 = cpu.get_register(i.rt);
    cpu.set_register(i.rd, y << (x % 32));
}

/// The state after `slt`: `rd` gets 1 if the signed value of `rs` is below that of `rt`,
/// else 0.
pub open spec fn slt_spec<M>(s: CpuState<M>, i: RTypeInstruction) -> CpuState<M> {
    s.with_register(i.rd, flag(signed(s.reg(i.rs)) < signed(s.reg(i.rt))))
}

/// Executes `slt`: `rd` gets 1 if the signed value of `rs` is below that of `rt`, else 0.
pub fn slt<D: BusObject>(cpu: &mut MipsCpu<'_, D>, i: RTypeInstruction)
    requires
        i.wf(),
    ensures
        final(cpu)@ == slt_spec(old(cpu)@, i),
        *final(final(cpu).bus) == *final(old(cpu).bus),
{
    let x: u32 = cpu.get_register(i.rs);
    let y: u32 = cpu.get_register(i.rt);
    cpu.set_register(i.rd, if signed_less(x, y) { 1 } else { 0 });
}

/// The state after `slti`: `rt` gets 1 if the signed value of `rs` is below the signed
/// immediate, else 0.
pub open spec fn slti_spec<M>(s: CpuState<M>, i: ITypeInstruction) -> CpuState<M> {
    s.with_register(i.rt, flag(signed(s.reg(i.rs)) < signed(sign_extend_16(i.immediate))))
}

/// Executes `slti`: `rt` gets 1 if the signed value of `rs` is below the signed
/// immediate, else 0.
pub fn slti<D: BusObject>(cpu: &mut MipsCpu<'_, D>, i: ITypeInstruction)
    requires
        i.wf(),
    ensures
        final(cpu)@ == slti_spec(old(cpu)@, i),
        *final(final(cpu).bus) == *final(old(cpu).bus),
{
    let x: u32 = cpu.get_register(i.rs);
    cpu.set_register(i.rt, if signed_less(x, extend_half(i.immediate)) { 1 } else { 0 });
}

/// The state after `sltiu`: `rt` gets 1 if `rs` is below the sign-extended immediate,
/// both taken as unsigned, else 0.
pub open spec fn sltiu_spec<M>(s: CpuState<M>, i: ITypeInstruction) -> CpuState<M> {
    s.with_register(i.rt, flag(s.reg(i.rs) < sign_extend_16(i.immediate)))
}

/// Executes `sltiu`: `rt` gets 1 if `rs` is below the sign-extended immediate, both taken
/// as unsigned, else 0.
pub fn sltiu<D: BusObject>(cpu: &mut MipsCpu<'_, D>, i: ITypeInstruction)
    requires
        i.wf(),
    ensures
        final(cpu)@ == sltiu_spec(old(cpu)@, i),
        *final(final(cpu).bus) == *final(old(cpu).bus),
{
    let x: u32 = cpu.get_register(i.rs);
    cpu.set_register(i.rt, if x < extend_half(i.immediate) { 1 } else { 0 });
}

/// The state after `sltu`: `rd` gets 1 if `rs` is below `rt`, both taken as unsigned,
/// else 0.
pub open spec fn sltu_spec<M>(s: CpuState<M>, i: RTypeInstruction) -> CpuState<M> {
    s.with_register(i.rd, flag(s.reg(i.rs) < s.reg(i.rt)))
}

/// Executes `sltu`: `rd` gets 1 if `rs` is below `rt`, both taken as unsigned, else 0.
pub fn sltu<D: BusObject>(cpu: &mut MipsCpu<'_, D>, i: RTypeInstruction)
    requires
        i.wf(),
    ensures
        final(cpu)@ == sltu_spec(old(cpu)@, i),
        *final(final(cpu).bus) == *final(old(cpu).bus),
{
    let x: u32 = cpu.get_register(i.rs);
    let y: u32 = cpu.get_register(i.rt);
    cpu.set_register(i.rd, if x < y { 1 } else { 0 });
}

/// The state after `sra`: `rd` gets `rt` shifted right by the shift amount, with copies
/// of its sign bit coming in.
pub open spec fn sra_spec<M>(s: CpuState<M>, i: RTypeInstruction) -> CpuState<M> {
    s.with_register(i.rd, arithmetic_shift(s.reg(i.rt), i.shamt as u32))
}

/// Executes `sra`: `rd` gets `rt` shifted right by the shift amount, with copies of its
/// sign bit coming in.
pub fn sra<D: BusObject>(cpu: &mut MipsCpu<'_, D>, i: RTypeInstruction)
    requires
        i.wf(),
    ensures
        final(cpu)@ == sra_spec(old(cpu)@, i),
        *final(final(cpu).bus) == *final(old(cpu).bus),
{
    let x: u32 = cpu.get_register(i.rs);
    let y: u32 = cpu.get_register(i.rt);
    cpu.set_register(i.rd, shift_arithmetic(y, i.shamt as u32));
}

/// The state after `srav`: `rd` gets `rt` shifted right by the low five bits of `rs`,
/// with copies of its sign bit coming in.
pub open spec fn srav_spec<M>(s: CpuState<M>, i: RTypeInstruction) -> CpuState<M> {
    s.with_register(i.rd, arithmetic_shift(s.reg(i.rt), s.reg(i.rs) % 32))
}

/// Executes `srav`: `rd` gets `rt` shifted right by the low five bits of `rs`, with
/// copies of its sign bit coming in.
pub fn srav<D: BusObject>(cpu: &mut MipsCpu<'_, D>, i: RTypeInstruction)
    requires
        i.wf(),
    ensures
        final(cpu)@ == srav_spec(old(cpu)@, i),
        *final(final(cpu).bus) == *final(old(cpu).bus),
{
    let x: u32 = cpu.get_register(i.rs);
    let y: u32 = cpu.get_register(i.rt);
    cpu.set_register(i.rd, shift_arithmetic(y, x % 32));
}

/// The state after `srl`: `rd` gets `rt` shifted right by the shift amount, with zeros
/// coming in.
pub open spec fn srl_spec<M>(s: CpuState<M>, i: RTypeInstruction) -> CpuState<M> {
    s.with_register(i.rd, s.reg(i.rt) >> i.shamt)
}

/// Executes `srl`: `rd` gets `rt` shifted right by the shift amount, with zeros coming in.
pub fn srl<D: BusObject>(cpu: &mut MipsCpu<'_, D>, i: RTypeInstruction)
    requires
        i.wf(),
    ensures
        final(cpu)@ == srl_spec(old(cpu)@, i),
        *final(final(cpu).bus) == *final(old(cpu).bus),
{
    let x: u32 = cpu.get_register(i.rs);
    let y: u32 = cpu.get_register(i.rt);
    cpu.set_register(i.rd, y >> i.shamt);
}

/// The state after `srlv`: `rd` gets `rt` shifted right by the low five bits of `rs`,
/// with zeros coming in.
pub open spec fn srlv_spec<M>(s: CpuState<M>, i: RTypeInstruction) -> CpuState<M> {
    s.with_register(i.rd, s.reg(i.rt) >> (s.reg(i.rs) % 32))
}

/// Executes `srlv`: `rd` gets `rt` shifted right by the low five bits of `rs`, with zeros
/// coming in.
pub fn srlv<D: BusObject>(cpu: &mut MipsCpu<'_, D>, i: RTypeInstruction)
    requires
        i.wf(),
    ensures
        final(cpu)@ == srlv_spec(old(cpu)@, i),
        *final(final(cpu).bus) == *final(old(cpu).bus),
{
    let x: u32 = cpu.get_register(i.rs);
    let y: u32 = cpu.get_register(i.rt);
    cpu.set_register(i.rd, y >> (x % 32));
}

/// The state after `sub`: `rd` gets `rs` minus `rt`, modulo 2^32.
pub open spec fn sub_spec<M>(s: CpuState<M>, i: RTypeInstruction) -> CpuState<M> {
    s.with_register(i.rd, sub32(s.reg(i.rs), s.reg(i.rt)))
}

/// Executes `sub`: `rd` gets `rs` minus `rt`, modulo 2^32.
pub fn sub<D: BusObject>(cpu: &mut MipsCpu<'_, D>, i: RTypeInstruction)
    requires
        i.wf(),
    ensures
        final(cpu)@ == sub_spec(old(cpu)@, i),
        *final(final(cpu).bus) == *final(old(cpu).bus),
{
    let x: u32 = cpu.get_register(i.rs);
    let y: u32 = cpu.get_register(i.rt);
    cpu.set_register(i.rd, sub_words(x, y));
}

/// The state after `subu`: as `sub`.
pub open spec fn subu_spec<M>(s: CpuState<M>, i: RTypeInstruction) -> CpuState<M> {
    sub_spec(s, i)
}

/// Executes `subu`: as `sub`.
pub fn subu<D: BusObject>(cpu: &mut MipsCpu<'_, D>, i: RTypeInstruction)
    requires
        i.wf(),
    ensures
        final(cpu)@ == subu_spec(old(cpu)@, i),
        *final(final(cpu).bus) == *final(old(cpu).bus),
{
    self::sub(cpu, i);
}

/// The state after `xor`: `rd` gets the bitwise exclusive or of `rs` and `rt`.
pub open spec fn xor_spec<M>(s: CpuState<M>, i: RTypeInstruction) -> CpuState<M> {
    s.with_register(i.rd, s.reg(i.rs) ^ s.reg(i.rt))
}

/// Executes `xor`: `rd` gets the bitwise exclusive or of `rs` and `rt`.
pub fn xor<D: BusObject>(cpu: &mut MipsCpu<'_, D>, i: RTypeInstruction)
    requires
        i.wf(),
    ensures
        final(cpu)@ == xor_spec(old(cpu)@, i),
        *final(final(cpu).bus) == *final(old(cpu).bus),
{
    let x: u32 = cpu.get_register(i.rs);
    let y: u32 = cpu.get_register(i.rt);
    cpu.set_register(i.rd, x ^ y);
}

/// The state after `xori`: `rt` gets the bitwise exclusive or of `rs` and the
/// zero-extended immediate.
pub open spec fn xori_spec<M>(s: CpuState<M>, i: ITypeInstruction) -> CpuState<M> {
    s.with_register(i.rt, s.reg(i.rs) ^ (i.immediate as u32))
}

/// Executes `xori`: `rt` gets the bitwise exclusive or of `rs` and the zero-extended
/// immediate.
pub fn xori<D: BusObject>(cpu: &mut MipsCpu<'_, D>, i: ITypeInstruction)
    requires
        i.wf(),
    ensures
        final(cpu)@ == xori_spec(old(cpu)@, i),
        *final(final(cpu).bus) == *final(old(cpu).bus),
{
    let x: u32 = cpu.get_register(i.rs);
    cpu.set_register(i.rt, x ^ (i.immediate as u32));
}

/// Whether a handler that can fail did what `expected` says: on success it leaves the
/// expected state, on a fault it reports the fault and leaves the state as it was.
pub open spec fn follows<M>(
    expected: Result<CpuState<M>, Fault>,
    r: Result<(), Fault>,
    before: CpuState<M>,
    after: CpuState<M>,
) -> bool {
    match expected {
        Ok(s) => r is Ok && after == s,
        Err(e) => r == Err::<(), Fault>(e) && after == before,
    }
}


/// The state after `lb`: `rt` gets the sign-extended byte at the effective address.
pub open spec fn lb_spec<D: BusObject>(s: CpuState<D::Model>, i: ITypeInstruction) -> Result<
    CpuState<D::Model>,
    Fault,
> {
    match load_byte::<D>(s, effective_address(s, i)) {
        Ok(v) => Ok(s.with_register(i.rt, sign_extend_8(v))),
        Err(e) => Err(e),
    }
}

/// Executes `lb`: `rt` gets the sign-extended byte at the effective address.
pub fn lb<D: BusObject>(cpu: &mut MipsCpu<'_, D>, i: ITypeInstruction) -> (r: Result<(), Fault>)
    requires
        i.wf(),
        cpu_inv::<D>(old(cpu)@),
    ensures
        follows(lb_spec::<D>(old(cpu)@, i), r, old(cpu)@, final(cpu)@),
        *final(final(cpu).bus) == *final(old(cpu).bus),
{
    let addr: u32 = add_words(cpu.get_register(i.rs), extend_half(i.immediate));
    match cpu.read_byte(addr) {
        Ok(v) => {
            cpu.set_register(i.rt, extend_byte(v));
            Ok(())
        },
        Err(e) => Err(e),
    }
}

/// The state after `lbu`: `rt` gets the zero-extended byte at the effective address.
pub open spec fn lbu_spec<D: BusObject>(s: CpuState<D::Model>, i: ITypeInstruction) -> Result<
    CpuState<D::Model>,
    Fault,
> {
    match load_byte::<D>(s, effective_address(s, i)) {
        Ok(v) => Ok(s.with_register(i.rt, v as u32)),
        Err(e) => Err(e),
    }
}

/// Executes `lbu`: `rt` gets the zero-extended byte at the effective address.
pub fn lbu<D: BusObject>(cpu: &mut MipsCpu<'_, D>, i: ITypeInstruction) -> (r: Result<(), Fault>)
    requires
        i.wf(),
        cpu_inv::<D>(old(cpu)@),
    ensures
        follows(lbu_spec::<D>(old(cpu)@, i), r, old(cpu)@, final(cpu)@),
        *final(final(cpu).bus) == *final(old(cpu).bus),
{
    let addr: u32 = add_words(cpu.get_register(i.rs), extend_half(i.immediate));
    match cpu.read_byte(addr) {
        Ok(v) => {
            cpu.set_register(i.rt, v as u32);
            Ok(())
        },
        Err(e) => Err(e),
    }
}

/// The state after `lh`: `rt` gets the sign-extended half-word at the effective address,
/// its first byte being the more significant.
pub open spec fn lh_spec<D: BusObject>(s: CpuState<D::Model>, i: ITypeInstruction) -> Result<
    CpuState<D::Model>,
    Fault,
> {
    match load_half::<D>(s, effective_address(s, i)) {
        Ok(v) => Ok(s.with_register(i.rt, sign_extend_16(swap16(v)))),
        Err(e) => Err(e),
    }
}

/// Executes `lh`: `rt` gets the sign-extended half-word at the effective address, its
/// first byte being the more significant.
pub fn lh<D: BusObject>(cpu: &mut MipsCpu<'_, D>, i: ITypeInstruction) -> (r: Result<(), Fault>)
    requires
        i.wf(),
        cpu_inv::<D>(old(cpu)@),
    ensures
        follows(lh_spec::<D>(old(cpu)@, i), r, old(cpu)@, final(cpu)@),
        *final(final(cpu).bus) == *final(old(cpu).bus),
{
    let addr: u32 = add_words(cpu.get_register(i.rs), extend_half(i.immediate));
    match cpu.read_hw(addr) {
        Ok(v) => {
            cpu.set_register(i.rt, extend_half(swap_half(v)));
            Ok(())
        },
        Err(e) => Err(e),
    }
}

/// The state after `lhu`: `rt` gets the zero-extended half-word at the effective address,
/// its first byte being the more significant.
pub open spec fn lhu_spec<D: BusObject>(s: CpuState<D::Model>, i: ITypeInstruction) -> Result<
    CpuState<D::Model>,
    Fault,
> {
    match load_half::<D>(s, effective_address(s, i)) {
        Ok(v) => Ok(s.with_register(i.rt, swap16(v) as u32)),
        Err(e) => Err(e),
    }
}

/// Executes `lhu`: `rt` gets the zero-extended half-word at the effective address, its
/// first byte being the more significant.
pub fn lhu<D: BusObject>(cpu: &mut MipsCpu<'_, D>, i: ITypeInstruction) -> (r: Result<(), Fault>)
    requires
        i.wf(),
        cpu_inv::<D>(old(cpu)@),
    ensures
        follows(lhu_spec::<D>(old(cpu)@, i), r, old(cpu)@, final(cpu)@),
        *final(final(cpu).bus) == *final(old(cpu).bus),
{
    let addr: u32 = add_words(cpu.get_register(i.rs), extend_half(i.immediate));
    match cpu.read_hw(addr) {
        Ok(v) => {
            cpu.set_register(i.rt, swap_half(v) as u32);
            Ok(())
        },
        Err(e) => Err(e),
    }
}

/// The state after `lw`: `rt` gets the word at the effective address, its first byte
/// being the most significant.
pub open spec fn lw_spec<D: BusObject>(s: CpuState<D::Model>, i: ITypeInstruction) -> Result<
    CpuState<D::Model>,
    Fault,
> {
    match load_word::<D>(s, effective_address(s, i)) {
        Ok(v) => Ok(s.with_register(i.rt, swap32(v))),
        Err(e) => Err(e),
    }
}

/// Executes `lw`: `rt` gets the word at the effective address, its first byte being the
/// most significant.
pub fn lw<D: BusObject>(cpu: &mut MipsCpu<'_, D>, i: ITypeInstruction) -> (r: Result<(), Fault>)
    requires
        i.wf(),
        cpu_inv::<D>(old(cpu)@),
    ensures
        follows(lw_spec::<D>(old(cpu)@, i), r, old(cpu)@, final(cpu)@),
        *final(final(cpu).bus) == *final(old(cpu).bus),
{
    let addr: u32 = add_words(cpu.get_register(i.rs), extend_half(i.immediate));
    match cpu.read_w(addr) {
        Ok(v) => {
            cpu.set_register_nc(i.rt, v);
            Ok(())
        },
        Err(e) => Err(e),
    }
}

/// The state after `sb`: the low byte of `rt` is written at the effective address.
pub open spec fn sb_spec<D: BusObject>(s: CpuState<D::Model>, i: ITypeInstruction) -> Result<
    CpuState<D::Model>,
    Fault,
> {
    store_byte::<D>(s, effective_address(s, i), lane(s.reg(i.rt), 0))
}

/// Executes `sb`: the low byte of `rt` is written at the effective address.
pub fn sb<D: BusObject>(cpu: &mut MipsCpu<'_, D>, i: ITypeInstruction) -> (r: Result<(), Fault>)
    requires
        i.wf(),
        cpu_inv::<D>(old(cpu)@),
    ensures
        follows(sb_spec::<D>(old(cpu)@, i), r, old(cpu)@, final(cpu)@),
        *final(final(cpu).bus) == *final(old(cpu).bus),
{
    let addr: u32 = add_words(cpu.get_register(i.rs), extend_half(i.immediate));
    let value: u8 = lane_of(cpu.get_register(i.rt), 0);
    cpu.write_byte(addr, value)
}

/// The state after `sh`: the low half-word of `rt` is written at the effective address,
/// its more significant byte first.
pub open spec fn sh_spec<D: BusObject>(s: CpuState<D::Model>, i: ITypeInstruction) -> Result<
    CpuState<D::Model>,
    Fault,
> {
    store_half::<D>(s, effective_address(s, i), swap16((s.reg(i.rt) % 0x1_0000) as u16))
}

/// Executes `sh`: the low half-word of `rt` is written at the effective address, its more
/// significant byte first.
pub fn sh<D: BusObject>(cpu: &mut MipsCpu<'_, D>, i: ITypeInstruction) -> (r: Result<(), Fault>)
    requires
        i.wf(),
        cpu_inv::<D>(old(cpu)@),
    ensures
        follows(sh_spec::<D>(old(cpu)@, i), r, old(cpu)@, final(cpu)@),
        *final(final(cpu).bus) == *final(old(cpu).bus),
{
    let addr: u32 = add_words(cpu.get_register(i.rs), extend_half(i.immediate));
    let value: u16 = swap_half((cpu.get_register(i.rt) % 0x1_0000) as u16);
    cpu.write_hw(addr, value)
}

/// The state after `sw`: `rt` is written at the effective address, its most significant
/// byte first.
pub open spec fn sw_spec<D: BusObject>(s: CpuState<D::Model>, i: ITypeInstruction) -> Result<
    CpuState<D::Model>,
    Fault,
> {
    store_word::<D>(s, effective_address(s, i), swap32(s.reg(i.rt)))
}

/// Executes `sw`: `rt` is written at the effective address, its most significant byte
/// first.
pub fn sw<D: BusObject>(cpu: &mut MipsCpu<'_, D>, i: ITypeInstruction) -> (r: Result<(), Fault>)
    requires
        i.wf(),
        cpu_inv::<D>(old(cpu)@),
    ensures
        follows(sw_spec::<D>(old(cpu)@, i), r, old(cpu)@, final(cpu)@),
        *final(final(cpu).bus) == *final(old(cpu).bus),
{
    let addr: u32 = add_words(cpu.get_register(i.rs), extend_half(i.immediate));
    let value: u32 = cpu.get_register_nc(i.rt);
    cpu.write_w(addr, value)
}

/// The number of bytes from `addr` up to the next word boundary: none if `addr` is
/// aligned.
pub open spec fn bytes_to_boundary(addr: u32) -> nat {
    ((4 - addr % 4) % 4) as nat
}

/// The number of bytes from the last word boundary to `addr`, the byte at `addr` counted
/// and the byte at the boundary not: none if `addr` is aligned.
pub open spec fn bytes_past_boundary(addr: u32) -> nat {
    (addr % 4) as nat
}

/// The `n` bytes read one by one at `first` and the addresses after it, or the fault at
/// the lowest of these addresses that no device serves.
pub open spec fn load_run<D: BusObject>(s: CpuState<D::Model>, first: u32, n: nat) -> Result<
    Seq<u8>,
    Fault,
>
    decreases n,
{
    if n == 0 {
        Ok(Seq::empty())
    } else {
        match load_run::<D>(s, first, (n - 1) as nat) {
            Ok(bytes) => match load_byte::<D>(s, (first + n - 1) as u32) {
                Ok(b) => Ok(bytes.push(b)),
                Err(e) => Err(e),
            },
            Err(e) => Err(e),
        }
    }
}

/// The fault at the lowest of the `n` addresses from `first` on at which no device serves
/// a byte, if there is one.
pub open spec fn run_served<D: BusObject>(s: CpuState<D::Model>, first: u32, n: nat) -> Result<
    (),
    Fault,
>
    decreases n,
{
    if n == 0 {
        Ok(())
    } else {
        match run_served::<D>(s, first, (n - 1) as nat) {
            Ok(_) => if Bus::<D>::serves(s.bus, (first + n - 1) as u32, 1) {
                Ok(())
            } else {
                Err(Fault::InvalidAddress { addr: (first + n - 1) as u32 })
            },
            Err(e) => Err(e),
        }
    }
}

/// The state after the bytes of `bytes` are written one by one at `first` and the
/// addresses after it.
pub open spec fn write_run<D: BusObject>(s: CpuState<D::Model>, first: u32, bytes: Seq<u8>) -> CpuState<
    D::Model,
>
    decreases bytes.len(),
{
    if bytes.len() == 0 {
        s
    } else {
        let before = write_run::<D>(s, first, bytes.drop_last());
        before.with_bus(
            Bus::<D>::spec_write_byte(before.bus, (first + bytes.len() - 1) as u32, bytes.last()),
        )
    }
}

/// The state after a store of the bytes of `bytes` at `first` and the addresses after
/// it: all of them are written, or, where no device serves one of the addresses, none.
pub open spec fn store_run<D: BusObject>(s: CpuState<D::Model>, first: u32, bytes: Seq<u8>) -> Result<
    CpuState<D::Model>,
    Fault,
> {
    match run_served::<D>(s, first, bytes.len()) {
        Ok(_) => Ok(write_run::<D>(s, first, bytes)),
        Err(e) => Err(e),
    }
}

/// Writing a run of served bytes leaves a processor state that serves the same accesses.
pub proof fn write_run_keeps<D: BusObject>(s: CpuState<D::Model>, first: u32, bytes: Seq<u8>)
    requires
        cpu_inv::<D>(s),
        run_served::<D>(s, first, bytes.len()) is Ok,
    ensures
        cpu_inv::<D>(write_run::<D>(s, first, bytes)),
        forall|a: u32, w: u32| #[trigger]
            Bus::<D>::serves(write_run::<D>(s, first, bytes).bus, a, w) == Bus::<D>::serves(s.bus, a, w),
        write_run::<D>(s, first, bytes) == s.with_bus(write_run::<D>(s, first, bytes).bus),
    decreases bytes.len(),
{
    if bytes.len() > 0 {
        write_run_keeps::<D>(s, first, bytes.drop_last());
        let before = write_run::<D>(s, first, bytes.drop_last());
        let addr = (first + bytes.len() - 1) as u32;
        assert(Bus::<D>::serves(s.bus, addr, 1));
        assert(Bus::<D>::serves(before.bus, addr, 1));
        Bus::<D>::write_byte_keeps(before.bus, addr, bytes.last());
    }
}

/// The number of bytes from `addr` up to the next word boundary.
fn to_boundary(addr: u32) -> (n: u8)
    ensures
        n == bytes_to_boundary(addr),
        n < 4,
        addr + n <= 0x1_0000_0000,
{
    let r: u32 = addr % 4;
    assert(addr == 4 * (addr / 4) + r);
    if r == 0 {
        0
    } else {
        (4 - r) as u8
    }
}

/// The number of bytes from the last word boundary to `addr`.
fn past_boundary(addr: u32) -> (n: u8)
    ensures
        n == bytes_past_boundary(addr),
        n < 4,
        n <= addr,
{
    (addr % 4) as u8
}

/// The `n` least significant bytes of `x`, least significant first.
fn low_lanes(x: u32, n: u8) -> (bytes: Vec<u8>)
    requires
        n < 4,
    ensures
        bytes@ == lanes(x).take(n as int),
{
    let mut bytes: Vec<u8> = Vec::new();
    let mut k: u8 = 0;
    while k < n
        invariant
            k <= n,
            n < 4,
            bytes@ =~= lanes(x).take(k as int),
        decreases n - k,
    {
        bytes.push(lane_of(x, k));
        k += 1;
    }
    bytes
}

/// The `n` most significant bytes of `x`, least significant first.
fn high_lanes(x: u32, n: u8) -> (bytes: Vec<u8>)
    requires
        n < 4,
    ensures
        bytes@ == lanes(x).skip(4 - n),
{
    let mut bytes: Vec<u8> = Vec::new();
    let mut k: u8 = 0;
    while k < n
        invariant
            k <= n,
            n < 4,
            bytes@ =~= lanes(x).skip(4 - n).take(k as int),
        decreases n - k,
    {
        bytes.push(lane_of(x, 4 - n + k));
        k += 1;
    }
    assert(bytes@ =~= lanes(x).skip(4 - n));
    bytes
}

/// Reads `n` bytes one by one at `first` and the addresses after it.
fn read_run<D: BusObject>(cpu: &MipsCpu<'_, D>, first: u32, n: u8) -> (r: Result<Vec<u8>, Fault>)
    requires
        cpu_inv::<D>(cpu@),
        first + n <= 0x1_0000_0000,
    ensures
        match load_run::<D>(cpu@, first, n as nat) {
            Ok(bytes) => r is Ok && r->Ok_0@ == bytes,
            Err(e) => r == Err::<Vec<u8>, Fault>(e),
        },
        r is Ok ==> r->Ok_0@.len() == n,
{
    let mut bytes: Vec<u8> = Vec::new();
    let mut k: u8 = 0;
    while k < n
        invariant
            k <= n,
            first + n <= 0x1_0000_0000,
            cpu_inv::<D>(cpu@),
            load_run::<D>(cpu@, first, k as nat) == Ok::<Seq<u8>, Fault>(bytes@),
            bytes@.len() == k,
        decreases n - k,
    {
        match cpu.read_byte(first + k as u32) {
            Ok(b) => {
                bytes.push(b);
            },
            Err(e) => {
                proof {
                    lemma_load_run_fails::<D>(cpu@, first, (k + 1) as nat, n as nat);
                }
                return Err(e);
            },
        }
        k += 1;
    }
    Ok(bytes)
}

proof fn lemma_load_run_fails<D: BusObject>(s: CpuState<D::Model>, first: u32, k: nat, n: nat)
    requires
        k <= n,
        load_run::<D>(s, first, k) is Err,
    ensures
        load_run::<D>(s, first, n) == load_run::<D>(s, first, k),
    decreases n - k,
{
    if k < n {
        lemma_load_run_fails::<D>(s, first, k, (n - 1) as nat);
    }
}

proof fn lemma_run_served_fails<D: BusObject>(s: CpuState<D::Model>, first: u32, k: nat, n: nat)
    requires
        k <= n,
        run_served::<D>(s, first, k) is Err,
    ensures
        run_served::<D>(s, first, n) == run_served::<D>(s, first, k),
    decreases n - k,
{
    if k < n {
        lemma_run_served_fails::<D>(s, first, k, (n - 1) as nat);
    }
}

/// Writes the bytes of `bytes` one by one at `first` and the addresses after it, if a
/// device serves each of these addresses; else nothing changes.
fn write_bytes<D: BusObject>(cpu: &mut MipsCpu<'_, D>, first: u32, bytes: &Vec<u8>) -> (r: Result<
    (),
    Fault,
>)
    requires
        cpu_inv::<D>(old(cpu)@),
        first + bytes@.len() <= 0x1_0000_0000,
        bytes@.len() <= 4,
    ensures
        follows(store_run::<D>(old(cpu)@, first, bytes@), r, old(cpu)@, final(cpu)@),
        *final(final(cpu).bus) == *final(old(cpu).bus),
{
    let n: usize = bytes.len();
    let mut k: usize = 0;
    while k < n
        invariant
            k <= n,
            n == bytes@.len(),
            n <= 4,
            first + n <= 0x1_0000_0000,
            cpu@ == old(cpu)@,
            *final(cpu.bus) == *final(old(cpu).bus),
            cpu_inv::<D>(cpu@),
            run_served::<D>(cpu@, first, k as nat) is Ok,
        decreases n - k,
    {
        if !cpu.accepts(first + k as u32, 1) {
            proof {
                lemma_run_served_fails::<D>(cpu@, first, (k + 1) as nat, n as nat);
            }
            return Err(Fault::InvalidAddress { addr: first + k as u32 });
        }
        k += 1;
    }
    let mut k: usize = 0;
    while k < n
        invariant
            k <= n,
            n == bytes@.len(),
            n <= 4,
            first + n <= 0x1_0000_0000,
            cpu_inv::<D>(old(cpu)@),
            run_served::<D>(old(cpu)@, first, n as nat) is Ok,
            cpu@ == write_run::<D>(old(cpu)@, first, bytes@.take(k as int)),
            *final(cpu.bus) == *final(old(cpu).bus),
            cpu_inv::<D>(cpu@),
        decreases n - k,
    {
        proof {
            lemma_run_served_prefix::<D>(old(cpu)@, first, (k + 1) as nat, n as nat);
            lemma_run_served_prefix::<D>(old(cpu)@, first, k as nat, n as nat);
            write_run_keeps::<D>(old(cpu)@, first, bytes@.take(k as int));
            assert(bytes@.take(k + 1).drop_last() =~= bytes@.take(k as int));
            assert(bytes@.take(k + 1).last() == bytes@[k as int]);
        }
        // Every address of the run is served, so the write succeeds.
        let _ = cpu.write_byte(first + k as u32, bytes[k]);
        k += 1;
    }
    proof {
        assert(bytes@.take(n as int) =~= bytes@);
    }
    Ok(())
}

proof fn lemma_run_served_prefix<D: BusObject>(s: CpuState<D::Model>, first: u32, k: nat, n: nat)
    requires
        k <= n,
        run_served::<D>(s, first, n) is Ok,
    ensures
        run_served::<D>(s, first, k) is Ok,
        k > 0 ==> Bus::<D>::serves(s.bus, (first + k - 1) as u32, 1),
    decreases n - k,
{
    if k < n {
        lemma_run_served_prefix::<D>(s, first, (k + 1) as nat, n);
    }
}


/// The state after `lwl`: the bytes from the effective address up to the next word
/// boundary replace the bytes of `rt` from the least significant on; the other bytes of
/// `rt` stay. At an aligned address nothing is loaded.
pub open spec fn lwl_spec<D: BusObject>(s: CpuState<D::Model>, i: ITypeInstruction) -> Result<
    CpuState<D::Model>,
    Fault,
> {
    let addr = effective_address(s, i);
    let n = bytes_to_boundary(addr);
    match load_run::<D>(s, addr, n) {
        Ok(bytes) => Ok(
            s.with_register(
                i.rt,
                word_of_lanes(
                    Seq::new(
                        4,
                        |k: int|
                            if k < n {
                                bytes[k]
                            } else {
                                lane(s.reg(i.rt), k)
                            },
                    ),
                ),
            ),
        ),
        Err(e) => Err(e),
    }
}

/// Executes `lwl`: the bytes from the effective address up to the next word boundary
/// replace the bytes of `rt` from the least significant on; the other bytes of `rt` stay.
/// At an aligned address nothing is loaded.
pub fn lwl<D: BusObject>(cpu: &mut MipsCpu<'_, D>, i: ITypeInstruction) -> (r: Result<(), Fault>)
    requires
        i.wf(),
        cpu_inv::<D>(old(cpu)@),
    ensures
        follows(lwl_spec::<D>(old(cpu)@, i), r, old(cpu)@, final(cpu)@),
        *final(final(cpu).bus) == *final(old(cpu).bus),
{
    let addr: u32 = add_words(cpu.get_register(i.rs), extend_half(i.immediate));
    let n: u8 = to_boundary(addr);
    let register: u32 = cpu.get_register(i.rt);
    match read_run(cpu, addr, n) {
        Ok(bytes) => {
            let b0: u8 = if 0 < n { bytes[0] } else { lane_of(register, 0) };
            let b1: u8 = if 1 < n { bytes[1] } else { lane_of(register, 1) };
            let b2: u8 = if 2 < n { bytes[2] } else { lane_of(register, 2) };
            let b3: u8 = lane_of(register, 3);
            cpu.set_register(i.rt, word_from_le(b0, b1, b2, b3));
            Ok(())
        },
        Err(e) => Err(e),
    }
}

/// The state after `lwr`: the bytes after the last word boundary up to the effective
/// address replace the bytes of `rt` up to the most significant, the byte at the
/// effective address becoming the most significant; the other bytes of `rt` stay. At an
/// aligned address nothing is loaded.
pub open spec fn lwr_spec<D: BusObject>(s: CpuState<D::Model>, i: ITypeInstruction) -> Result<
    CpuState<D::Model>,
    Fault,
> {
    let addr = effective_address(s, i);
    let n = bytes_past_boundary(addr);
    match load_run::<D>(s, (addr - n + 1) as u32, n) {
        Ok(bytes) => Ok(
            s.with_register(
                i.rt,
                word_of_lanes(
                    Seq::new(
                        4,
                        |k: int|
                            if k >= 4 - n {
                                bytes[k + n - 4]
                            } else {
                                lane(s.reg(i.rt), k)
                            },
                    ),
                ),
            ),
        ),
        Err(e) => Err(e),
    }
}

/// Executes `lwr`: the bytes after the last word boundary up to the effective address
/// replace the bytes of `rt` up to the most significant, the byte at the effective
/// address becoming the most significant; the other bytes of `rt` stay. At an aligned
/// address nothing is loaded.
pub fn lwr<D: BusObject>(cpu: &mut MipsCpu<'_, D>, i: ITypeInstruction) -> (r: Result<(), Fault>)
    requires
        i.wf(),
        cpu_inv::<D>(old(cpu)@),
    ensures
        follows(lwr_spec::<D>(old(cpu)@, i), r, old(cpu)@, final(cpu)@),
        *final(final(cpu).bus) == *final(old(cpu).bus),
{
    let addr: u32 = add_words(cpu.get_register(i.rs), extend_half(i.immediate));
    let n: u8 = past_boundary(addr);
    let register: u32 = cpu.get_register(i.rt);
    // Where nothing is to be moved the first address is not used.
    let first: u32 = if n == 0 {
        1
    } else {
        addr - (n as u32) + 1
    };
    proof {
        if n == 0 {
            assert(load_run::<D>(cpu@, first, 0) == load_run::<D>(cpu@, (addr - 0 + 1) as u32, 0));
        }
    }
    match read_run(cpu, first, n) {
        Ok(bytes) => {
            let b0: u8 = lane_of(register, 0);
            let b1: u8 = if n >= 3 { bytes[0] } else { lane_of(register, 1) };
            let b2: u8 = if n >= 2 { bytes[(n - 2) as usize] } else { lane_of(register, 2) };
            let b3: u8 = if n >= 1 { bytes[(n - 1) as usize] } else { lane_of(register, 3) };
            cpu.set_register(i.rt, word_from_le(b0, b1, b2, b3));
            Ok(())
        },
        Err(e) => Err(e),
    }
}

/// The state after `swl`: the bytes of `rt` from the least significant on are written
/// from the effective address up to the next word boundary. At an aligned address nothing
/// is written.
pub open spec fn swl_spec<D: BusObject>(s: CpuState<D::Model>, i: ITypeInstruction) -> Result<
    CpuState<D::Model>,
    Fault,
> {
    let addr = effective_address(s, i);
    store_run::<D>(s, addr, lanes(s.reg(i.rt)).take(bytes_to_boundary(addr) as int))
}

/// Executes `swl`: the bytes of `rt` from the least significant on are written from the
/// effective address up to the next word boundary. At an aligned address nothing is
/// written.
pub fn swl<D: BusObject>(cpu: &mut MipsCpu<'_, D>, i: ITypeInstruction) -> (r: Result<(), Fault>)
    requires
        i.wf(),
        cpu_inv::<D>(old(cpu)@),
    ensures
        follows(swl_spec::<D>(old(cpu)@, i), r, old(cpu)@, final(cpu)@),
        *final(final(cpu).bus) == *final(old(cpu).bus),
{
    let addr: u32 = add_words(cpu.get_register(i.rs), extend_half(i.immediate));
    let n: u8 = to_boundary(addr);
    let bytes: Vec<u8> = low_lanes(cpu.get_register(i.rt), n);
    write_bytes(cpu, addr, &bytes)
}

/// The state after `swr`: the bytes of `rt` up to the most significant are written after
/// the last word boundary up to the effective address, the most significant byte at the
/// effective address. At an aligned address nothing is written.
pub open spec fn swr_spec<D: BusObject>(s: CpuState<D::Model>, i: ITypeInstruction) -> Result<
    CpuState<D::Model>,
    Fault,
> {
    let addr = effective_address(s, i);
    let n = bytes_past_boundary(addr);
    store_run::<D>(s, (addr - n + 1) as u32, lanes(s.reg(i.rt)).skip(4 - n))
}

/// Executes `swr`: the bytes of `rt` up to the most significant are written after the
/// last word boundary up to the effective address, the most significant byte at the
/// effective address. At an aligned address nothing is written.
pub fn swr<D: BusObject>(cpu: &mut MipsCpu<'_, D>, i: ITypeInstruction) -> (r: Result<(), Fault>)
    requires
        i.wf(),
        cpu_inv::<D>(old(cpu)@),
    ensures
        follows(swr_spec::<D>(old(cpu)@, i), r, old(cpu)@, final(cpu)@),
        *final(final(cpu).bus) == *final(old(cpu).bus),
{
    let addr: u32 = add_words(cpu.get_register(i.rs), extend_half(i.immediate));
    let n: u8 = past_boundary(addr);
    // Where nothing is to be moved the first address is not used.
    let first: u32 = if n == 0 {
        1
    } else {
        addr - (n as u32) + 1
    };
    let bytes: Vec<u8> = high_lanes(cpu.get_register(i.rt), n);
    proof {
        if n == 0 {
            assert(store_run::<D>(cpu@, first, bytes@) == store_run::<D>(cpu@, (addr - 0 + 1) as u32, bytes@));
        }
    }
    write_bytes(cpu, first, &bytes)
}

/// The quotient and the remainder of the signed values of two words, the division
/// rounding towards zero, as 32-bit patterns.
fn divide_signed(x: u32, y: u32) -> (r: (u32, u32))
    requires
        y != 0,
    ensures
        r.0 == pattern(quotient(signed(x), signed(y))),
        r.1 == pattern(remainder(signed(x), signed(y))),
{
    let a: i32 = to_signed(x);
    let b: i32 = to_signed(y);
    proof {
        lemma_quotient_bounds(a as int, b as int);
        assert(a * -1 == -a && b * -1 == -b);
    }
    if a == i32::MIN && b == -1 {
        assert(quotient(a as int, b as int) == 0x8000_0000) by {
            assert(0x8000_0000int / 1 == 0x8000_0000int);
        }
        (0x8000_0000, 0)
    } else {
        assert(i32::MIN <= quotient(a as int, b as int) <= i32::MAX);
        let q: i32 = a.checked_div(b).unwrap();
        assert(q == quotient(a as int, b as int));
        let m: i32 = a.checked_rem(b).unwrap();
        assert(m == remainder(a as int, b as int));
        (from_signed(q), from_signed(m))
    }
}

proof fn lemma_quotient_bounds(a: int, b: int)
    requires
        b != 0,
    ensures
        a >= 0 ==> 0 <= remainder(a, b) <= a,
        a <= 0 ==> a <= remainder(a, b) <= 0,
        a >= 0 && b > 0 ==> 0 <= quotient(a, b) <= a && remainder(a, b) == a % b,
        a >= 0 && b < 0 ==> -a <= quotient(a, b) <= 0 && remainder(a, b) == a % (-b),
        a < 0 && b > 0 ==> a <= quotient(a, b) <= 0 && remainder(a, b) == -((-a) % b),
        a < 0 && b < 0 ==> 0 <= quotient(a, b) <= -a && remainder(a, b) == -((-a) % (-b)),
        a < 0 && b < -1 ==> quotient(a, b) < -a,
{
    let x = if a >= 0 { a } else { -a };
    let d = if b > 0 { b } else { -b };
    vstd::arithmetic::div_mod::lemma_fundamental_div_mod(x, d);
    vstd::arithmetic::div_mod::lemma_div_pos_is_pos(x, d);
    vstd::arithmetic::div_mod::lemma_mod_bound(x, d);
    assert(0 <= x / d <= x) by (nonlinear_arith)
        requires
            x >= 0,
            d > 0,
            x == d * (x / d) + x % d,
            0 <= x % d < d,
            0 <= x / d,
    ;
    assert(d >= 2 && x > 0 ==> x / d < x) by (nonlinear_arith)
        requires
            x >= 0,
            d > 0,
            x == d * (x / d) + x % d,
            0 <= x % d < d,
            0 <= x / d,
    ;
    assert(b * quotient(a, b) == (if a >= 0 { d * (x / d) } else { -(d * (x / d)) })) by (nonlinear_arith)
        requires
            quotient(a, b) == (if (a >= 0) == (b > 0) { x / d } else { -(x / d) }),
            d == (if b > 0 { b } else { -b }),
    ;
}


/// The state after `div`: the accumulator pair gets the quotient (`lo`) and the
/// remainder (`hi`) of the signed values of `rs` and `rt`, the division rounding towards
/// zero; the quotient of the most negative value by -1 wraps to the most negative value.
/// A division by zero is a fault.
pub open spec fn div_spec<M>(s: CpuState<M>, i: RTypeInstruction) -> Result<CpuState<M>, Fault> {
    if s.reg(i.rt) == 0 {
        Err(Fault::DivideByZero)
    } else {
        Ok(
            s.with_lo(pattern(quotient(signed(s.reg(i.rs)), signed(s.reg(i.rt))))).with_hi(
                pattern(remainder(signed(s.reg(i.rs)), signed(s.reg(i.rt)))),
            ),
        )
    }
}

/// Executes `div`: the accumulator pair gets the quotient (`lo`) and the remainder (`hi`)
/// of the signed values of `rs` and `rt`. A division by zero is a fault.
pub fn div<D: BusObject>(cpu: &mut MipsCpu<'_, D>, i: RTypeInstruction) -> (r: Result<(), Fault>)
    requires
        i.wf(),
    ensures
        follows(div_spec(old(cpu)@, i), r, old(cpu)@, final(cpu)@),
        *final(final(cpu).bus) == *final(old(cpu).bus),
{
    let x: u32 = cpu.get_register(i.rs);
    let y: u32 = cpu.get_register(i.rt);
    if y == 0 {
        return Err(Fault::DivideByZero);
    }
    let (q, m) = divide_signed(x, y);
    cpu.set_lo(q);
    cpu.set_hi(m);
    Ok(())
}

/// The state after `divu`: the accumulator pair gets the quotient (`lo`) and the
/// remainder (`hi`) of `rs` and `rt`, both taken as unsigned. A division by zero is a
/// fault.
pub open spec fn divu_spec<M>(s: CpuState<M>, i: RTypeInstruction) -> Result<CpuState<M>, Fault> {
    if s.reg(i.rt) == 0 {
        Err(Fault::DivideByZero)
    } else {
        Ok(s.with_lo(s.reg(i.rs) / s.reg(i.rt)).with_hi(s.reg(i.rs) % s.reg(i.rt)))
    }
}

/// Executes `divu`: the accumulator pair gets the quotient (`lo`) and the remainder
/// (`hi`) of `rs` and `rt`, both taken as unsigned. A division by zero is a fault.
pub fn divu<D: BusObject>(cpu: &mut MipsCpu<'_, D>, i: RTypeInstruction) -> (r: Result<(), Fault>)
    requires
        i.wf(),
    ensures
        follows(divu_spec(old(cpu)@, i), r, old(cpu)@, final(cpu)@),
        *final(final(cpu).bus) == *final(old(cpu).bus),
{
    let x: u32 = cpu.get_register(i.rs);
    let y: u32 = cpu.get_register(i.rt);
    if y == 0 {
        return Err(Fault::DivideByZero);
    }
    cpu.set_lo(x / y);
    cpu.set_hi(x % y);
    Ok(())
}

} // verus!
