use c64_assembler::instruction::operation::Operation;
use c64_assembler::isa::{InstructionDef, ISA_6502_LEN};

const NO: u8 = 0xFF;

/// The opcodes of a definition in the order implied, immediate, accumulator,
/// absolute, absolute x, absolute y, zeropage, zeropage x, zeropage y,
/// relative, indirect, indexed indirect, indirect indexed.
fn opcodes(definition: &InstructionDef) -> [u8; 13] {
    [
        definition.implied,
        definition.immediate,
        definition.accumulator,
        definition.absolute,
        definition.absolute_x,
        definition.absolute_y,
        definition.zeropage,
        definition.zeropage_x,
        definition.zeropage_y,
        definition.relative,
        definition.indirect,
        definition.indexed_indirect,
        definition.indirect_indexed,
    ]
}

fn implied(opcode: u8) -> [u8; 13] {
    [opcode, NO, NO, NO, NO, NO, NO, NO, NO, NO, NO, NO, NO]
}

fn relative(opcode: u8) -> [u8; 13] {
    [NO, NO, NO, NO, NO, NO, NO, NO, NO, opcode, NO, NO, NO]
}

fn table() -> Vec<(Operation, &'static str, [u8; 13])> {
    vec![
        (
            Operation::ADC,
            "adc",
            [NO, 0x69, NO, 0x6D, 0x7D, 0x79, 0x65, 0x75, NO, NO, NO, 0x61, 0x71],
        ),
        (
            Operation::AND,
            "and",
            [NO, 0x29, NO, 0x2D, 0x3D, 0x39, 0x25, 0x35, NO, NO, NO, 0x21, 0x01],
        ),
        (Operation::ASL, "asl", [NO, NO, 0x0A, 0x0E, 0x1E, NO, 0x06, 0x16, NO, NO, NO, NO, NO]),
        (Operation::BCC, "bcc", relative(0x90)),
        (Operation::BCS, "bcs", relative(0xB0)),
        (Operation::BEQ, "beq", relative(0xF0)),
        (Operation::BIT, "bit", [NO, NO, NO, 0x2C, NO, NO, 0x24, NO, NO, NO, NO, NO, NO]),
        (Operation::BMI, "bmi", relative(0x30)),
        (Operation::BNE, "bne", relative(0xD0)),
        (Operation::BPL, "bpl", relative(0x10)),
        (Operation::BRK, "brk", implied(0x00)),
        (Operation::BVC, "bvc", relative(0x50)),
        (Operation::BVS, "bvs", relative(0x70)),
        (Operation::CLC, "clc", implied(0x18)),
        (Operation::CLD, "cld", implied(0xD8)),
        (Operation::CLI, "cli", implied(0x58)),
        (Operation::CLV, "clv", implied(0xB8)),
        (
            Operation::CMP,
            "cmp",
            [NO, 0xC9, NO, 0xCD, 0xDD, 0xD9, 0xC5, 0xD5, NO, NO, NO, 0xC1, 0xD1],
        ),
        (Operation::CPX, "cpx", [NO, 0xE0, NO, 0xEC, NO, NO, 0xE4, NO, NO, NO, NO, NO, NO]),
        (Operation::CPY, "cpy", [NO, 0xC0, NO, 0xCC, NO, NO, 0xC4, NO, NO, NO, NO, NO, NO]),
        (Operation::DEC, "dec", [NO, NO, NO, 0xCE, 0xDE, NO, 0xC6, 0xD6, NO, NO, NO, NO, NO]),
        (Operation::DEX, "dex", implied(0xCA)),
        (Operation::DEY, "dey", implied(0x88)),
        (
            Operation::EOR,
            "eor",
            [NO, 0x49, NO, 0x4D, 0x5D, 0x59, 0x45, 0x55, NO, NO, NO, 0x41, 0x51],
        ),
        (Operation::INC, "inc", [NO, NO, NO, 0xEE, 0xFE, NO, 0xE6, 0xF6, NO, NO, NO, NO, NO]),
        (Operation::INX, "inx", implied(0xE8)),
        (Operation::INY, "iny", implied(0xC8)),
        (Operation::JMP, "jmp", [NO, NO, NO, 0x4C, NO, NO, NO, NO, NO, NO, 0x6C, NO, NO]),
        (Operation::JSR, "jsr", [NO, NO, NO, 0x20, NO, NO, NO, NO, NO, NO, NO, NO, NO]),
        (
            Operation::LDA,
            "lda",
            [NO, 0xA9, NO, 0xAD, 0xBD, 0xB9, 0xA5, 0xB5, NO, NO, NO, 0xA1, 0xB1],
        ),
        (Operation::LDX, "ldx", [NO, 0xA2, NO, 0xAE, NO, 0xBE, 0xA6, NO, 0xB6, NO, NO, NO, NO]),
        (Operation::LDY, "ldy", [NO, 0xA0, NO, 0xAC, 0xBC, NO, 0xA4, 0xB4, NO, NO, NO, NO, NO]),
        (Operation::LSR, "lsr", [NO, NO, 0x4A, 0x4E, 0x5E, NO, 0x46, 0x56, NO, NO, NO, NO, NO]),
        (Operation::NOP, "nop", implied(0xEA)),
        (
            Operation::ORA,
            "ora",
            [NO, 0x09, NO, 0x0D, 0x1D, 0x19, 0x05, 0x15, NO, NO, NO, 0x01, 0x11],
        ),
        (Operation::PHA, "pha", implied(0x48)),
        (Operation::PHP, "php", implied(0x08)),
        (Operation::PLA, "pla", implied(0x68)),
        (Operation::PLP, "plp", implied(0x28)),
        (Operation::ROL, "rol", [NO, NO, 0x2A, 0x2E, 0x3E, NO, 0x26, 0x36, NO, NO, NO, NO, NO]),
        (Operation::ROR, "ror", [NO, NO, 0x6A, 0x6E, 0x7E, NO, 0x66, 0x76, NO, NO, NO, NO, NO]),
        (Operation::RTI, "rti", implied(0x40)),
        (Operation::RTS, "rts", implied(0x60)),
        (
            Operation::SBC,
            "sbc",
            [NO, 0xE9, NO, 0xED, 0xFD, 0xF9, 0xE5, 0xF5, NO, NO, NO, 0xE1, 0xF1],
        ),
        (Operation::SEC, "sec", implied(0x38)),
        (Operation::SED, "sed", implied(0xF8)),
        (Operation::SEI, "sei", implied(0x78)),
        (Operation::STA, "sta", [NO, NO, NO, 0x8D, 0x9D, 0x99, 0x85, 0x95, NO, NO, NO, 0x81, 0x91]),
        (Operation::STX, "stx", [NO, NO, NO, 0x8E, NO, NO, 0x86, NO, 0x96, NO, NO, NO, NO]),
        (Operation::STY, "sty", [NO, NO, NO, 0x8C, NO, NO, 0x84, 0x94, NO, NO, NO, NO, NO]),
        (Operation::TAX, "tax", implied(0xAA)),
        (Operation::TAY, "tay", implied(0xA8)),
        (Operation::TSX, "tsx", implied(0xBA)),
        (Operation::TXA, "txa", implied(0x8A)),
        (Operation::TXS, "txs", implied(0x9A)),
        (Operation::TYA, "tya", implied(0x98)),
    ]
}

#[test]
fn every_operation_has_its_definition() {
    let table = table();
    assert_eq!(ISA_6502_LEN, table.len());
    for (operation, mnemonic, expected) in table {
        let definition = operation.definition().unwrap();
        assert_eq!(mnemonic, definition.instruction);
        assert_eq!(expected, opcodes(&definition), "{mnemonic}");
    }
}

#[test]
fn definitions_are_those_of_the_instruction_set_in_its_order() {
    let instruction_set = c64_assembler_6502::isa_6502();
    let table = table();
    assert_eq!(ISA_6502_LEN, instruction_set.len());
    for (index, (operation, _, _)) in table.iter().enumerate() {
        let definition = operation.definition().unwrap();
        let listed = &instruction_set[index];
        assert_eq!(listed.instruction, definition.instruction);
        assert_eq!(
            [
                listed.implied,
                listed.immediate,
                listed.accumulator,
                listed.absolute,
                listed.absolute_x,
                listed.absolute_y,
                listed.zeropage,
                listed.zeropage_x,
                listed.zeropage_y,
                listed.relative,
                listed.indirect,
                listed.indexed_indirect,
                listed.indirect_indexed,
            ],
            opcodes(&definition)
        );
    }
}

#[test]
fn labels_and_raw_bytes_have_no_definition() {
    assert!(Operation::Label("name".to_string()).definition().is_none());
    assert!(Operation::Raw(vec![1, 2]).definition().is_none());
    assert!(Operation::Raw(vec![]).definition().is_none());
}

#[test]
fn operations_keep_what_they_hold_when_cloned() {
    for (operation, _, _) in table() {
        assert_eq!(operation, operation.clone());
    }
    let label = Operation::Label("name".to_string());
    assert_eq!(label, label.clone());
    let raw = Operation::Raw(vec![1, 2, 3]);
    assert_eq!(raw, raw.clone());
}
