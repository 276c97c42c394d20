use mips_sim::cpu::instruction_info::decode_opcode;
use mips_sim::cpu::instruction_info::decode_regimm;
use mips_sim::cpu::instruction_info::decode_rtype;
use mips_sim::cpu::instruction_info::DecodeError;
use mips_sim::cpu::instruction_info::InstructionInfo;
use mips_sim::cpu::instruction_info::InstructionInfos;
use mips_sim::cpu::instruction_info::Operation;
use mips_sim::cpu::instructions::FromOpDecodedInstruction;
use mips_sim::cpu::instructions::ITypeInstruction;
use mips_sim::cpu::instructions::JTypeInstruction;
use mips_sim::cpu::instructions::OpDecodedInstruction;
use mips_sim::cpu::instructions::RTypeInstruction;

fn dispatch(word: u32) -> Result<InstructionInfos, DecodeError> {
    decode_opcode(OpDecodedInstruction::decode(word))
}

fn operation_of(word: u32) -> Operation {
    match dispatch(word).unwrap() {
        InstructionInfos::IType(i) => i.f,
        InstructionInfos::JType(i) => i.f,
        InstructionInfos::RType(i) => i.f,
    }
}

#[test]
fn first_stage_takes_the_top_six_bits() {
    let d = OpDecodedInstruction::decode(0xFC00_0000);
    assert_eq!(d.op, 0x3F);
    assert_eq!(d.other, 0xFC00_0000);
    assert_eq!(OpDecodedInstruction::decode(0x03FF_FFFF).op, 0);
    assert_eq!(OpDecodedInstruction::decode(0x2001_0005).op, 8);
    assert_eq!(OpDecodedInstruction::decode(0x8C00_0000).op, 0x23);
}

#[test]
fn register_immediate_fields() {
    let i = ITypeInstruction::decode(OpDecodedInstruction::decode(0x2149_FFFE));
    assert_eq!(i.op, 8);
    assert_eq!(i.rs(), 10);
    assert_eq!(i.rt(), 9);
    assert_eq!(i.immediate(), 0xFFFE);
    let all = ITypeInstruction::decode(OpDecodedInstruction::decode(0xFFFF_FFFF));
    assert_eq!((all.op, all.rs, all.rt, all.immediate), (0x3F, 31, 31, 0xFFFF));
    let none = ITypeInstruction::decode(OpDecodedInstruction::decode(0));
    assert_eq!((none.op, none.rs, none.rt, none.immediate), (0, 0, 0, 0));
}

#[test]
fn register_register_fields() {
    let word = (17 << 21) | (18 << 16) | (19 << 11) | (20 << 6) | 0x21;
    let r = RTypeInstruction::decode(OpDecodedInstruction::decode(word));
    assert_eq!(r.op, 0);
    assert_eq!(r.rs(), 17);
    assert_eq!(r.rt(), 18);
    assert_eq!(r.rd(), 19);
    assert_eq!(r.shamt, 20);
    assert_eq!(r.funct, 0x21);
    let all = RTypeInstruction::decode(OpDecodedInstruction::decode(0xFFFF_FFFF));
    assert_eq!((all.rs, all.rt, all.rd, all.shamt, all.funct), (31, 31, 31, 31, 63));
    let one_field = RTypeInstruction::decode(OpDecodedInstruction::decode(0x0000_F800));
    assert_eq!((one_field.rs, one_field.rt, one_field.rd, one_field.shamt, one_field.funct), (0, 0, 31, 0, 0));
}

#[test]
fn jump_field() {
    let j = JTypeInstruction::decode(OpDecodedInstruction::decode(0x0BFF_FFFF));
    assert_eq!(j.op, 2);
    assert_eq!(j.target(), 0x03FF_FFFF);
    assert_eq!(JTypeInstruction::decode(OpDecodedInstruction::decode(0x0C00_0040)).target(), 0x40);
}

#[test]
fn primary_opcodes_name_their_operations() {
    let table: [(u32, Operation, &str); 26] = [
        (0b001000, Operation::Addi, "addi"),
        (0b001001, Operation::Addiu, "addiu"),
        (0b001100, Operation::Andi, "andi"),
        (0b000100, Operation::Beq, "beq"),
        (0b000111, Operation::Bgtz, "bgtz"),
        (0b000110, Operation::Blez, "blez"),
        (0b000101, Operation::Bne, "bne"),
        (0b000010, Operation::J, "j"),
        (0b000011, Operation::Jal, "jal"),
        (0b100000, Operation::Lb, "lb"),
        (0b100100, Operation::Lbu, "lbu"),
        (0b100001, Operation::Lh, "lh"),
        (0b100101, Operation::Lhu, "lhu"),
        (0b001111, Operation::Lui, "lui"),
        (0b100011, Operation::Lw, "lw"),
        (0b100010, Operation::Lwl, "lwl"),
        (0b100110, Operation::Lwr, "lwr"),
        (0b001101, Operation::Ori, "ori"),
        (0b101000, Operation::Sb, "sb"),
        (0b101001, Operation::Sh, "sh"),
        (0b001010, Operation::Slti, "slti"),
        (0b001011, Operation::Sltiu, "sltiu"),
        (0b101011, Operation::Sw, "sw"),
        (0b101010, Operation::Swl, "swl"),
        (0b101110, Operation::Swr, "swr"),
        (0b001110, Operation::Xori, "xori"),
    ];
    for (op, operation, name) in table {
        let word = (op << 26) | 0x0123_4567;
        assert_eq!(operation_of(word), operation);
        assert_eq!(operation.mnemonic(), name);
        match dispatch(word).unwrap() {
            InstructionInfos::IType(i) => {
                assert_eq!(i.memonic, name);
                assert_eq!(i.decoded_instruction.immediate, 0x4567);
                assert_eq!(i.decoded_instruction.op as u32, op);
            },
            InstructionInfos::JType(j) => {
                assert_eq!(j.memonic, name);
                assert_eq!(j.decoded_instruction.target, 0x0123_4567);
                assert!(op == 2 || op == 3);
            },
            InstructionInfos::RType(_) => panic!("a primary opcode gave a register-register record"),
        }
    }
}

#[test]
fn function_codes_name_their_operations() {
    let table: [(u32, Operation, &str); 26] = [
        (0b100000, Operation::Add, "add"),
        (0b100001, Operation::Addu, "addu"),
        (0b100100, Operation::And, "and"),
        (0b011010, Operation::Div, "div"),
        (0b011011, Operation::Divu, "divu"),
        (0b001001, Operation::Jalr, "jalr"),
        (0b001000, Operation::Jr, "jr"),
        (0b010000, Operation::Mfhi, "mfhi"),
        (0b010010, Operation::Mflo, "mflo"),
        (0b010001, Operation::Mthi, "mthi"),
        (0b010011, Operation::Mtlo, "mtlo"),
        (0b011000, Operation::Mult, "mult"),
        (0b011001, Operation::Multu, "multu"),
        (0b100111, Operation::Nor, "nor"),
        (0b100101, Operation::Or, "or"),
        (0b000000, Operation::Sll, "sll"),
        (0b000100, Operation::Sllv, "sllv"),
        (0b101010, Operation::Slt, "slt"),
        (0b101011, Operation::Sltu, "sltu"),
        (0b000011, Operation::Sra, "sra"),
        (0b000111, Operation::Srav, "srav"),
        (0b000010, Operation::Srl, "srl"),
        (0b000110, Operation::Srlv, "srlv"),
        (0b100010, Operation::Sub, "sub"),
        (0b100011, Operation::Subu, "subu"),
        (0b100110, Operation::Xor, "xor"),
    ];
    for (funct, operation, name) in table {
        let word = (1 << 21) | (2 << 16) | (3 << 11) | (4 << 6) | funct;
        match dispatch(word).unwrap() {
            InstructionInfos::RType(r) => {
                assert_eq!(r.f, operation);
                assert_eq!(r.memonic, name);
                let d = r.decoded_instruction;
                assert_eq!((d.rs, d.rt, d.rd, d.shamt, d.funct as u32), (1, 2, 3, 4, funct));
            },
            _ => panic!("opcode 0 gave no register-register record"),
        }
        match decode_rtype(OpDecodedInstruction::decode(word)).unwrap() {
            InstructionInfos::RType(r) => assert_eq!(r.f, operation),
            _ => panic!("decode_rtype gave no register-register record"),
        }
    }
}

#[test]
fn branch_selectors_name_their_operations() {
    let table: [(u32, Operation, &str); 4] = [
        (0b00001, Operation::Bgez, "bgez"),
        (0b10001, Operation::Bgezal, "bgezal"),
        (0b00000, Operation::Bltz, "bltz"),
        (0b10000, Operation::Bltzal, "bltzal"),
    ];
    for (selector, operation, name) in table {
        let word = (1 << 26) | (7 << 21) | (selector << 16) | 0x0010;
        match dispatch(word).unwrap() {
            InstructionInfos::IType(i) => {
                assert_eq!(i.f, operation);
                assert_eq!(i.memonic, name);
                assert_eq!(i.decoded_instruction.rs, 7);
                assert_eq!(i.decoded_instruction.rt as u32, selector);
                assert_eq!(i.decoded_instruction.immediate, 0x10);
            },
            _ => panic!("opcode 1 gave no register-immediate record"),
        }
        assert!(decode_regimm(OpDecodedInstruction::decode(word)).is_ok());
    }
}

#[test]
fn unsupported_words_are_decode_errors() {
    for op in [0b010000u32, 0b010001, 0b010010, 0b010011] {
        assert_eq!(dispatch(op << 26).unwrap_err(), DecodeError::Coprocessor);
    }
    for op in [0b110000u32, 0b110001, 0b110010, 0b110011] {
        assert_eq!(dispatch(op << 26).unwrap_err(), DecodeError::CoprocessorLoad);
    }
    for op in [0b111000u32, 0b111001, 0b111010, 0b111011] {
        assert_eq!(dispatch(op << 26).unwrap_err(), DecodeError::CoprocessorStore);
    }
    assert_eq!(dispatch(0x0000_000D).unwrap_err(), DecodeError::Break);
    assert_eq!(dispatch(0x0000_000C).unwrap_err(), DecodeError::Syscall);
    assert_eq!(dispatch(0x0000_0001).unwrap_err(), DecodeError::Unknown);
    assert_eq!(dispatch(0x0000_003F).unwrap_err(), DecodeError::Unknown);
    assert_eq!(dispatch(0xFC00_0000).unwrap_err(), DecodeError::Unknown);
    assert_eq!(dispatch((1 << 26) | (2 << 16)).unwrap_err(), DecodeError::Unknown);
    assert_eq!(dispatch((1 << 26) | (31 << 16)).unwrap_err(), DecodeError::Unknown);
    assert_eq!(
        decode_rtype(OpDecodedInstruction::decode(0x0000_000D)).unwrap_err(),
        DecodeError::Break
    );
    assert_eq!(
        decode_regimm(OpDecodedInstruction::decode(3 << 16)).unwrap_err(),
        DecodeError::Unknown
    );
}

#[test]
fn every_word_decodes_or_is_refused() {
    let mut decoded = 0;
    for op in 0..64u32 {
        for low in [0u32, 0x3F, 0x001F_0000, 0x0011_0021] {
            if dispatch((op << 26) | low).is_ok() {
                decoded += 1;
            }
        }
    }
    assert!(decoded > 26 * 4);
}

#[test]
fn builders_keep_what_they_are_given() {
    let record = ITypeInstruction { op: 8, rs: 1, rt: 2, immediate: 3 };
    let info = InstructionInfo::new("addi", record, Operation::Addi);
    assert_eq!(info.memonic, "addi");
    assert_eq!(info.f, Operation::Addi);
    assert_eq!(info.decoded_instruction.rt, 2);
    assert!(matches!(InstructionInfos::new_i(info), InstructionInfos::IType(_)));
    let jump = InstructionInfo::new("j", JTypeInstruction { op: 2, target: 5 }, Operation::J);
    assert!(matches!(InstructionInfos::new_j(jump), InstructionInfos::JType(_)));
    let reg = InstructionInfo::new(
        "or",
        RTypeInstruction { op: 0, rs: 1, rt: 2, rd: 3, shamt: 0, funct: 0x25 },
        Operation::Or,
    );
    assert!(matches!(InstructionInfos::new_r(reg), InstructionInfos::RType(_)));
}
