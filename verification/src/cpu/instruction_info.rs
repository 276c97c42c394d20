//! The dispatcher: from an instruction word's opcode, function code or branch selector to
//! the operation it names, together with the operands decoded in the shape that the
//! operation takes.

use vstd::prelude::*;
use super::instructions::{
    FromOpDecodedInstruction, funct_field, ITypeInstruction, JTypeInstruction, OpDecodedInstruction,
    rt_field, RTypeInstruction,
};

verus! {

/// The shape of an operation's operands.
#[derive(Clone, Copy, Debug, PartialEq, Eq, Structural)]
pub enum InstructionClass {
    /// Two registers and a 16-bit immediate.
    Immediate,
    /// A 26-bit jump target.
    Jump,
    /// Three registers, a shift amount and a function code.
    Register,
}

/// The operations that the processor executes, one per mnemonic.
#[derive(Clone, Copy, Debug, PartialEq, Eq, Structural)]
pub enum Operation {
    Add,
    Addi,
    Addiu,
    Addu,
    And,
    Andi,
    Beq,
    Bgez,
    Bgezal,
    Bgtz,
    Blez,
    Bltz,
    Bltzal,
    Bne,
    Div,
    Divu,
    J,
    Jal,
    Jalr,
    Jr,
    Lb,
    Lbu,
    Lh,
    Lhu,
    Lui,
    Lw,
    Lwl,
    Lwr,
    Mfhi,
    Mflo,
    Mthi,
    Mtlo,
    Mult,
    Multu,
    Nor,
    Or,
    Ori,
    Sb,
    Sh,
    Sll,
    Sllv,
    Slt,
    Slti,
    Sltiu,
    Sltu,
    Sra,
    Srav,
    Srl,
    Srlv,
    Sub,
    Subu,
    Sw,
    Swl,
    Swr,
    Xor,
    Xori,
}

/// Why an instruction word names no operation that the processor executes.
#[derive(Clone, Copy, Debug, PartialEq, Eq, Structural)]
pub enum DecodeError {
    /// A coprocessor operation, or a move from or to a coprocessor.
    Coprocessor,
    /// A load of a word to a coprocessor.
    CoprocessorLoad,
    /// A store of a word from a coprocessor.
    CoprocessorStore,
    /// The breakpoint trap.
    Break,
    /// The system-call trap.
    Syscall,
    /// No instruction has this opcode, function code or branch selector.
    Unknown,
}

impl Operation {
    /// The shape of the operands that the operation takes.
    pub open spec fn class(self) -> InstructionClass {
        match self {
            Operation::J | Operation::Jal => InstructionClass::Jump,
            Operation::Add | Operation::Addu | Operation::And | Operation::Div | Operation::Divu | Operation::Jalr | Operation::Jr | Operation::Mfhi | Operation::Mflo | Operation::Mthi | Operation::Mtlo | Operation::Mult | Operation::Multu | Operation::Nor | Operation::Or | Operation::Sll | Operation::Sllv | Operation::Slt | Operation::Sltu | Operation::Sra | Operation::Srav | Operation::Srl | Operation::Srlv | Operation::Sub | Operation::Subu | Operation::Xor => InstructionClass::Register,
            _ => InstructionClass::Immediate,
        }
    }

    /// The mnemonic of the operation.
    pub open spec fn name(self) -> &'static str {
        match self {
            Operation::Add => "add",
            Operation::Addi => "addi",
            Operation::Addiu => "addiu",
            Operation::Addu => "addu",
            Operation::And => "and",
            Operation::Andi => "andi",
            Operation::Beq => "beq",
            Operation::Bgez => "bgez",
            Operation::Bgezal => "bgezal",
            Operation::Bgtz => "bgtz",
            Operation::Blez => "blez",
            Operation::Bltz => "bltz",
            Operation::Bltzal => "bltzal",
            Operation::Bne => "bne",
            Operation::Div => "div",
            Operation::Divu => "divu",
            Operation::J => "j",
            Operation::Jal => "jal",
            Operation::Jalr => "jalr",
            Operation::Jr => "jr",
            Operation::Lb => "lb",
            Operation::Lbu => "lbu",
            Operation::Lh => "lh",
            Operation::Lhu => "lhu",
            Operation::Lui => "lui",
            Operation::Lw => "lw",
            Operation::Lwl => "lwl",
            Operation::Lwr => "lwr",
            Operation::Mfhi => "mfhi",
            Operation::Mflo => "mflo",
            Operation::Mthi => "mthi",
            Operation::Mtlo => "mtlo",
            Operation::Mult => "mult",
            Operation::Multu => "multu",
            Operation::Nor => "nor",
            Operation::Or => "or",
            Operation::Ori => "ori",
            Operation::Sb => "sb",
            Operation::Sh => "sh",
            Operation::Sll => "sll",
            Operation::Sllv => "sllv",
            Operation::Slt => "slt",
            Operation::Slti => "slti",
            Operation::Sltiu => "sltiu",
            Operation::Sltu => "sltu",
            Operation::Sra => "sra",
            Operation::Srav => "srav",
            Operation::Srl => "srl",
            Operation::Srlv => "srlv",
            Operation::Sub => "sub",
            Operation::Subu => "subu",
            Operation::Sw => "sw",
            Operation::Swl => "swl",
            Operation::Swr => "swr",
            Operation::Xor => "xor",
            Operation::Xori => "xori",
        }
    }

    /// The mnemonic of the operation.
    pub fn mnemonic(self) -> (s: &'static str)
        ensures
            s == self.name(),
    {
        match self {
            Operation::Add => "add",
            Operation::Addi => "addi",
            Operation::Addiu => "addiu",
            Operation::Addu => "addu",
            Operation::And => "and",
            Operation::Andi => "andi",
            Operation::Beq => "beq",
            Operation::Bgez => "bgez",
            Operation::Bgezal => "bgezal",
            Operation::Bgtz => "bgtz",
            Operation::Blez => "blez",
            Operation::Bltz => "bltz",
            Operation::Bltzal => "bltzal",
            Operation::Bne => "bne",
            Operation::Div => "div",
            Operation::Divu => "divu",
            Operation::J => "j",
            Operation::Jal => "jal",
            Operation::Jalr => "jalr",
            Operation::Jr => "jr",
            Operation::Lb => "lb",
            Operation::Lbu => "lbu",
            Operation::Lh => "lh",
            Operation::Lhu => "lhu",
            Operation::Lui => "lui",
            Operation::Lw => "lw",
            Operation::Lwl => "lwl",
            Operation::Lwr => "lwr",
            Operation::Mfhi => "mfhi",
            Operation::Mflo => "mflo",
            Operation::Mthi => "mthi",
            Operation::Mtlo => "mtlo",
            Operation::Mult => "mult",
            Operation::Multu => "multu",
            Operation::Nor => "nor",
            Operation::Or => "or",
            Operation::Ori => "ori",
            Operation::Sb => "sb",
            Operation::Sh => "sh",
            Operation::Sll => "sll",
            Operation::Sllv => "sllv",
            Operation::Slt => "slt",
            Operation::Slti => "slti",
            Operation::Sltiu => "sltiu",
            Operation::Sltu => "sltu",
            Operation::Sra => "sra",
            Operation::Srav => "srav",
            Operation::Srl => "srl",
            Operation::Srlv => "srlv",
            Operation::Sub => "sub",
            Operation::Subu => "subu",
            Operation::Sw => "sw",
            Operation::Swl => "swl",
            Operation::Swr => "swr",
            Operation::Xor => "xor",
            Operation::Xori => "xori",
        }
    }
}

/// The operation that a primary opcode other than 0 and 1 names.
pub open spec fn primary_operation(op: u8) -> Result<Operation, DecodeError> {
    match op {
        0b001000 => Ok(Operation::Addi),
        0b001001 => Ok(Operation::Addiu),
        0b001100 => Ok(Operation::Andi),
        0b000100 => Ok(Operation::Beq),
        0b000111 => Ok(Operation::Bgtz),
        0b000110 => Ok(Operation::Blez),
        0b000101 => Ok(Operation::Bne),
        0b000010 => Ok(Operation::J),
        0b000011 => Ok(Operation::Jal),
        0b100000 => Ok(Operation::Lb),
        0b100100 => Ok(Operation::Lbu),
        0b100001 => Ok(Operation::Lh),
        0b100101 => Ok(Operation::Lhu),
        0b001111 => Ok(Operation::Lui),
        0b100011 => Ok(Operation::Lw),
        0b100010 => Ok(Operation::Lwl),
        0b100110 => Ok(Operation::Lwr),
        0b001101 => Ok(Operation::Ori),
        0b101000 => Ok(Operation::Sb),
        0b101001 => Ok(Operation::Sh),
        0b001010 => Ok(Operation::Slti),
        0b001011 => Ok(Operation::Sltiu),
        0b101011 => Ok(Operation::Sw),
        0b101010 => Ok(Operation::Swl),
        0b101110 => Ok(Operation::Swr),
        0b001110 => Ok(Operation::Xori),
        0b010000 | 0b010001 | 0b010010 | 0b010011 => Err(DecodeError::Coprocessor),
        0b110000 | 0b110001 | 0b110010 | 0b110011 => Err(DecodeError::CoprocessorLoad),
        0b111000 | 0b111001 | 0b111010 | 0b111011 => Err(DecodeError::CoprocessorStore),
        _ => Err(DecodeError::Unknown),
    }
}

/// The operation that a function code names under primary opcode 0.
pub open spec fn special_operation(funct: u8) -> Result<Operation, DecodeError> {
    match funct {
        0b100000 => Ok(Operation::Add),
        0b100001 => Ok(Operation::Addu),
        0b100100 => Ok(Operation::And),
        0b011010 => Ok(Operation::Div),
        0b011011 => Ok(Operation::Divu),
        0b001001 => Ok(Operation::Jalr),
        0b001000 => Ok(Operation::Jr),
        0b010000 => Ok(Operation::Mfhi),
        0b010010 => Ok(Operation::Mflo),
        0b010001 => Ok(Operation::Mthi),
        0b010011 => Ok(Operation::Mtlo),
        0b011000 => Ok(Operation::Mult),
        0b011001 => Ok(Operation::Multu),
        0b100111 => Ok(Operation::Nor),
        0b100101 => Ok(Operation::Or),
        0b000000 => Ok(Operation::Sll),
        0b000100 => Ok(Operation::Sllv),
        0b101010 => Ok(Operation::Slt),
        0b101011 => Ok(Operation::Sltu),
        0b000011 => Ok(Operation::Sra),
        0b000111 => Ok(Operation::Srav),
        0b000010 => Ok(Operation::Srl),
        0b000110 => Ok(Operation::Srlv),
        0b100010 => Ok(Operation::Sub),
        0b100011 => Ok(Operation::Subu),
        0b100110 => Ok(Operation::Xor),
        0b001101 => Err(DecodeError::Break),
        0b001100 => Err(DecodeError::Syscall),
        _ => Err(DecodeError::Unknown),
    }
}

/// The branch that a selector names under primary opcode 1.
pub open spec fn regimm_operation(selector: u8) -> Result<Operation, DecodeError> {
    match selector {
        0b00001 => Ok(Operation::Bgez),
        0b10001 => Ok(Operation::Bgezal),
        0b00000 => Ok(Operation::Bltz),
        0b10000 => Ok(Operation::Bltzal),
        _ => Err(DecodeError::Unknown),
    }
}

/// The operation that an instruction word names: by its function code under primary
/// opcode 0, by its branch selector under primary opcode 1, else by its primary opcode.
pub open spec fn operation_of(i: OpDecodedInstruction) -> Result<Operation, DecodeError> {
    if i.op == 0 {
        special_operation(funct_field(i.other))
    } else if i.op == 1 {
        regimm_operation(rt_field(i.other))
    } else {
        primary_operation(i.op)
    }
}

/// An operation with its mnemonic and its decoded operands.
#[derive(Debug)]
pub struct InstructionInfo<T> {
    pub memonic: &'static str,
    pub decoded_instruction: T,
    pub f: Operation,
}

impl<T: Copy> Clone for InstructionInfo<T> {
    fn clone(&self) -> (r: Self)
        ensures
            r == *self,
    {
        *self
    }
}

impl<T: Copy> Copy for InstructionInfo<T> {

}

impl<T> InstructionInfo<T> {
    pub fn new(memonic: &'static str, decoded_instruction: T, f: Operation) -> (r: Self)
        ensures
            r == (InstructionInfo { memonic, decoded_instruction, f }),
    {
        InstructionInfo { memonic, decoded_instruction, f }
    }
}

/// A decoded instruction of any of the three shapes.
#[derive(Clone, Copy, Debug)]
pub enum InstructionInfos {
    IType(InstructionInfo<ITypeInstruction>),
    JType(InstructionInfo<JTypeInstruction>),
    RType(InstructionInfo<RTypeInstruction>),
}

impl InstructionInfos {
    pub fn new_i(i: InstructionInfo<ITypeInstruction>) -> (r: Self)
        ensures
            r == InstructionInfos::IType(i),
    {
        InstructionInfos::IType(i)
    }

    pub fn new_j(i: InstructionInfo<JTypeInstruction>) -> (r: Self)
        ensures
            r == InstructionInfos::JType(i),
    {
        InstructionInfos::JType(i)
    }

    pub fn new_r(i: InstructionInfo<RTypeInstruction>) -> (r: Self)
        ensures
            r == InstructionInfos::RType(i),
    {
        InstructionInfos::RType(i)
    }

    /// The operation that the instruction names.
    pub open spec fn operation(self) -> Operation {
        match self {
            InstructionInfos::IType(i) => i.f,
            InstructionInfos::JType(i) => i.f,
            InstructionInfos::RType(i) => i.f,
        }
    }

    /// The operands have the shape that the operation takes, and every register field is a
    /// 5-bit register index.
    pub open spec fn wf(self) -> bool {
        match self {
            InstructionInfos::IType(i) => i.f.class() == InstructionClass::Immediate
                && i.decoded_instruction.wf(),
            InstructionInfos::JType(i) => i.f.class() == InstructionClass::Jump
                && i.decoded_instruction.wf(),
            InstructionInfos::RType(i) => i.f.class() == InstructionClass::Register
                && i.decoded_instruction.wf(),
        }
    }

    /// The operation `f` with the operands of the word `i`, decoded in the shape that `f`
    /// takes.
    pub open spec fn of(f: Operation, i: OpDecodedInstruction) -> Self {
        match f.class() {
            InstructionClass::Immediate => InstructionInfos::IType(
                InstructionInfo {
                    memonic: f.name(),
                    decoded_instruction: ITypeInstruction::decode_spec(i),
                    f,
                },
            ),
            InstructionClass::Jump => InstructionInfos::JType(
                InstructionInfo {
                    memonic: f.name(),
                    decoded_instruction: JTypeInstruction::decode_spec(i),
                    f,
                },
            ),
            InstructionClass::Register => InstructionInfos::RType(
                InstructionInfo {
                    memonic: f.name(),
                    decoded_instruction: RTypeInstruction::decode_spec(i),
                    f,
                },
            ),
        }
    }
}

/// What the dispatcher makes of an instruction word: the operation that it names, with
/// its operands, or the reason why it names none.
pub open spec fn decode_opcode_spec(op_i: OpDecodedInstruction) -> Result<
    InstructionInfos,
    DecodeError,
> {
    match operation_of(op_i) {
        Ok(f) => Ok(InstructionInfos::of(f, op_i)),
        Err(e) => Err(e),
    }
}

/// Every decoded instruction is well formed.
pub proof fn decoded_is_well_formed(op_i: OpDecodedInstruction)
    ensures
        decode_opcode_spec(op_i) is Ok ==> decode_opcode_spec(op_i)->Ok_0.wf(),
{
}

/// Selects the operation of an instruction word and decodes its operands.
pub fn decode_opcode(op_i: OpDecodedInstruction) -> (r: Result<InstructionInfos, DecodeError>)
    ensures
        r == decode_opcode_spec(op_i),
{
    match op_i.op {
        0b000000 => decode_rtype(op_i),
        0b000001 => decode_regimm(op_i),
        0b001000 => Ok(
            InstructionInfos::new_i(
                InstructionInfo::new("addi", ITypeInstruction::decode(op_i), Operation::Addi),
            ),
        ),
        0b001001 => Ok(
            InstructionInfos::new_i(
                InstructionInfo::new("addiu", ITypeInstruction::decode(op_i), Operation::Addiu),
            ),
        ),
        0b001100 => Ok(
            InstructionInfos::new_i(
                InstructionInfo::new("andi", ITypeInstruction::decode(op_i), Operation::Andi),
            ),
        ),
        0b000100 => Ok(
            InstructionInfos::new_i(
                InstructionInfo::new("beq", ITypeInstruction::decode(op_i), Operation::Beq),
            ),
        ),
        0b000111 => Ok(
            InstructionInfos::new_i(
                InstructionInfo::new("bgtz", ITypeInstruction::decode(op_i), Operation::Bgtz),
            ),
        ),
        0b000110 => Ok(
            InstructionInfos::new_i(
                InstructionInfo::new("blez", ITypeInstruction::decode(op_i), Operation::Blez),
            ),
        ),
        0b000101 => Ok(
            InstructionInfos::new_i(
                InstructionInfo::new("bne", ITypeInstruction::decode(op_i), Operation::Bne),
            ),
        ),
        0b000010 => Ok(
            InstructionInfos::new_j(
                InstructionInfo::new("j", JTypeInstruction::decode(op_i), Operation::J),
            ),
        ),
        0b000011 => Ok(
            InstructionInfos::new_j(
                InstructionInfo::new("jal", JTypeInstruction::decode(op_i), Operation::Jal),
            ),
        ),
        0b100000 => Ok(
            InstructionInfos::new_i(
                InstructionInfo::new("lb", ITypeInstruction::decode(op_i), Operation::Lb),
            ),
        ),
        0b100100 => Ok(
            InstructionInfos::new_i(
                InstructionInfo::new("lbu", ITypeInstruction::decode(op_i), Operation::Lbu),
            ),
        ),
        0b100001 => Ok(
            InstructionInfos::new_i(
                InstructionInfo::new("lh", ITypeInstruction::decode(op_i), Operation::Lh),
            ),
        ),
        0b100101 => Ok(
            InstructionInfos::new_i(
                InstructionInfo::new("lhu", ITypeInstruction::decode(op_i), Operation::Lhu),
            ),
        ),
        0b001111 => Ok(
            InstructionInfos::new_i(
                InstructionInfo::new("lui", ITypeInstruction::decode(op_i), Operation::Lui),
            ),
        ),
        0b100011 => Ok(
            InstructionInfos::new_i(
                InstructionInfo::new("lw", ITypeInstruction::decode(op_i), Operation::Lw),
            ),
        ),
        0b100010 => Ok(
            InstructionInfos::new_i(
                InstructionInfo::new("lwl", ITypeInstruction::decode(op_i), Operation::Lwl),
            ),
        ),
        0b100110 => Ok(
            InstructionInfos::new_i(
                InstructionInfo::new("lwr", ITypeInstruction::decode(op_i), Operation::Lwr),
            ),
        ),
        0b001101 => Ok(
            InstructionInfos::new_i(
                InstructionInfo::new("ori", ITypeInstruction::decode(op_i), Operation::Ori),
            ),
        ),
        0b101000 => Ok(
            InstructionInfos::new_i(
                InstructionInfo::new("sb", ITypeInstruction::decode(op_i), Operation::Sb),
            ),
        ),
        0b101001 => Ok(
            InstructionInfos::new_i(
                InstructionInfo::new("sh", ITypeInstruction::decode(op_i), Operation::Sh),
            ),
        ),
        0b001010 => Ok(
            InstructionInfos::new_i(
                InstructionInfo::new("slti", ITypeInstruction::decode(op_i), Operation::Slti),
            ),
        ),
        0b001011 => Ok(
            InstructionInfos::new_i(
                InstructionInfo::new("sltiu", ITypeInstruction::decode(op_i), Operation::Sltiu),
            ),
        ),
        0b101011 => Ok(
            InstructionInfos::new_i(
                InstructionInfo::new("sw", ITypeInstruction::decode(op_i), Operation::Sw),
            ),
        ),
        0b101010 => Ok(
            InstructionInfos::new_i(
                InstructionInfo::new("swl", ITypeInstruction::decode(op_i), Operation::Swl),
            ),
        ),
        0b101110 => Ok(
            InstructionInfos::new_i(
                InstructionInfo::new("swr", ITypeInstruction::decode(op_i), Operation::Swr),
            ),
        ),
        0b001110 => Ok(
            InstructionInfos::new_i(
                InstructionInfo::new("xori", ITypeInstruction::decode(op_i), Operation::Xori),
            ),
        ),
        0b010000 | 0b010001 | 0b010010 | 0b010011 => Err(DecodeError::Coprocessor),
        0b110000 | 0b110001 | 0b110010 | 0b110011 => Err(DecodeError::CoprocessorLoad),
        0b111000 | 0b111001 | 0b111010 | 0b111011 => Err(DecodeError::CoprocessorStore),
        _ => Err(DecodeError::Unknown),
    }
}

/// Selects the register-register operation that the function code of `op_i` names.
pub fn decode_rtype(op_i: OpDecodedInstruction) -> (r: Result<InstructionInfos, DecodeError>)
    ensures
        r == match special_operation(funct_field(op_i.other)) {
            Ok(f) => Ok(InstructionInfos::of(f, op_i)),
            Err(e) => Err(e),
        },
{
    let decoded = RTypeInstruction::decode(op_i);
    match decoded.funct {
        0b100000 => Ok(InstructionInfos::new_r(InstructionInfo::new("add", decoded, Operation::Add))),
        0b100001 => Ok(InstructionInfos::new_r(InstructionInfo::new("addu", decoded, Operation::Addu))),
        0b100100 => Ok(InstructionInfos::new_r(InstructionInfo::new("and", decoded, Operation::And))),
        0b011010 => Ok(InstructionInfos::new_r(InstructionInfo::new("div", decoded, Operation::Div))),
        0b011011 => Ok(InstructionInfos::new_r(InstructionInfo::new("divu", decoded, Operation::Divu))),
        0b001001 => Ok(InstructionInfos::new_r(InstructionInfo::new("jalr", decoded, Operation::Jalr))),
        0b001000 => Ok(InstructionInfos::new_r(InstructionInfo::new("jr", decoded, Operation::Jr))),
        0b010000 => Ok(InstructionInfos::new_r(InstructionInfo::new("mfhi", decoded, Operation::Mfhi))),
        0b010010 => Ok(InstructionInfos::new_r(InstructionInfo::new("mflo", decoded, Operation::Mflo))),
        0b010001 => Ok(InstructionInfos::new_r(InstructionInfo::new("mthi", decoded, Operation::Mthi))),
        0b010011 => Ok(InstructionInfos::new_r(InstructionInfo::new("mtlo", decoded, Operation::Mtlo))),
        0b011000 => Ok(InstructionInfos::new_r(InstructionInfo::new("mult", decoded, Operation::Mult))),
        0b011001 => Ok(InstructionInfos::new_r(InstructionInfo::new("multu", decoded, Operation::Multu))),
        0b100111 => Ok(InstructionInfos::new_r(InstructionInfo::new("nor", decoded, Operation::Nor))),
        0b100101 => Ok(InstructionInfos::new_r(InstructionInfo::new("or", decoded, Operation::Or))),
        0b000000 => Ok(InstructionInfos::new_r(InstructionInfo::new("sll", decoded, Operation::Sll))),
        0b000100 => Ok(InstructionInfos::new_r(InstructionInfo::new("sllv", decoded, Operation::Sllv))),
        0b101010 => Ok(InstructionInfos::new_r(InstructionInfo::new("slt", decoded, Operation::Slt))),
        0b101011 => Ok(InstructionInfos::new_r(InstructionInfo::new("sltu", decoded, Operation::Sltu))),
        0b000011 => Ok(InstructionInfos::new_r(InstructionInfo::new("sra", decoded, Operation::Sra))),
        0b000111 => Ok(InstructionInfos::new_r(InstructionInfo::new("srav", decoded, Operation::Srav))),
        0b000010 => Ok(InstructionInfos::new_r(InstructionInfo::new("srl", decoded, Operation::Srl))),
        0b000110 => Ok(InstructionInfos::new_r(InstructionInfo::new("srlv", decoded, Operation::Srlv))),
        0b100010 => Ok(InstructionInfos::new_r(InstructionInfo::new("sub", decoded, Operation::Sub))),
        0b100011 => Ok(InstructionInfos::new_r(InstructionInfo::new("subu", decoded, Operation::Subu))),
        0b100110 => Ok(InstructionInfos::new_r(InstructionInfo::new("xor", decoded, Operation::Xor))),
        0b001101 => Err(DecodeError::Break),
        0b001100 => Err(DecodeError::Syscall),
        _ => Err(DecodeError::Unknown),
    }
}

/// Selects the register-immediate branch that the second register field of `op_i` names.
pub fn decode_regimm(op_i: OpDecodedInstruction) -> (r: Result<InstructionInfos, DecodeError>)
    ensures
        r == match regimm_operation(rt_field(op_i.other)) {
            Ok(f) => Ok(InstructionInfos::of(f, op_i)),
            Err(e) => Err(e),
        },
{
    let decoded = ITypeInstruction::decode(op_i);
    match decoded.rt {
        0b00001 => Ok(InstructionInfos::new_i(InstructionInfo::new("bgez", decoded, Operation::Bgez))),
        0b10001 => Ok(InstructionInfos::new_i(InstructionInfo::new("bgezal", decoded, Operation::Bgezal))),
        0b00000 => Ok(InstructionInfos::new_i(InstructionInfo::new("bltz", decoded, Operation::Bltz))),
        0b10000 => Ok(InstructionInfos::new_i(InstructionInfo::new("bltzal", decoded, Operation::Bltzal))),
        _ => Err(DecodeError::Unknown),
    }
}

} // verus!
