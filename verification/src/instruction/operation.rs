//! The operations an instruction can perform.
use crate::isa::{isa_6502_entry, isa_6502_row, InstructionDef, ISA_6502_LEN};
use vstd::prelude::*;

verus! {

/// What an instruction does: one of the instructions of the 6502, a label
/// that marks an address, or bytes that are copied as they are.
#[derive(Debug, PartialEq)]
pub enum Operation {
    /// Add with carry
    ADC,
    /// Bitwise and with the accumulator
    AND,
    /// Arithmetic shift left
    ASL,
    /// Branch if carry clear
    BCC,
    /// Branch if carry set
    BCS,
    /// Branch if equal
    BEQ,
    /// Test bits
    BIT,
    /// Branch if minus
    BMI,
    /// Branch if not equal
    BNE,
    /// Branch if plus
    BPL,
    /// Break
    BRK,
    /// Branch if overflow clear
    BVC,
    /// Branch if overflow set
    BVS,
    /// Clear carry
    CLC,
    /// Clear decimal mode
    CLD,
    /// Clear interrupt disable
    CLI,
    /// Clear overflow
    CLV,
    /// Compare with the accumulator
    CMP,
    /// Compare with X
    CPX,
    /// Compare with Y
    CPY,
    /// Decrement memory
    DEC,
    /// Decrement X
    DEX,
    /// Decrement Y
    DEY,
    /// Bitwise exclusive or with the accumulator
    EOR,
    /// Increment memory
    INC,
    /// Increment X
    INX,
    /// Increment Y
    INY,
    /// Jump
    JMP,
    /// Jump to subroutine
    JSR,
    /// Load the accumulator
    LDA,
    /// Load X
    LDX,
    /// Load Y
    LDY,
    /// Logical shift right
    LSR,
    /// No operation
    NOP,
    /// Bitwise or with the accumulator
    ORA,
    /// Push the accumulator
    PHA,
    /// Push the processor status
    PHP,
    /// Pull the accumulator
    PLA,
    /// Pull the processor status
    PLP,
    /// Rotate left
    ROL,
    /// Rotate right
    ROR,
    /// Return from interrupt
    RTI,
    /// Return from subroutine
    RTS,
    /// Subtract with carry
    SBC,
    /// Set carry
    SEC,
    /// Set decimal mode
    SED,
    /// Set interrupt disable
    SEI,
    /// Store the accumulator
    STA,
    /// Store X
    STX,
    /// Store Y
    STY,
    /// Transfer the accumulator to X
    TAX,
    /// Transfer the accumulator to Y
    TAY,
    /// Transfer the stack pointer to X
    TSX,
    /// Transfer X to the accumulator
    TXA,
    /// Transfer X to the stack pointer
    TXS,
    /// Transfer Y to the accumulator
    TYA,
    /// Bytes that are part of the program as they are.
    Raw(Vec<u8>),
    /// Name for the address of the instruction that follows.
    Label(String),
}

/// An [`Operation`] as a mathematical value.
pub enum OperationView {
    /// An instruction of the 6502, by its place in the opcode table.
    Mnemonic(nat),
    /// Bytes that are part of the program as they are.
    Raw(Seq<u8>),
    /// Name for the address of the instruction that follows.
    Label(Seq<char>),
}

impl View for Operation {
    type V = OperationView;

    open spec fn view(&self) -> OperationView {
        match self {
            Operation::Raw(bytes) => OperationView::Raw(bytes@),
            Operation::Label(name) => OperationView::Label(name@),
            Operation::ADC => OperationView::Mnemonic(0),
            Operation::AND => OperationView::Mnemonic(1),
            Operation::ASL => OperationView::Mnemonic(2),
            Operation::BCC => OperationView::Mnemonic(3),
            Operation::BCS => OperationView::Mnemonic(4),
            Operation::BEQ => OperationView::Mnemonic(5),
            Operation::BIT => OperationView::Mnemonic(6),
            Operation::BMI => OperationView::Mnemonic(7),
            Operation::BNE => OperationView::Mnemonic(8),
            Operation::BPL => OperationView::Mnemonic(9),
            Operation::BRK => OperationView::Mnemonic(10),
            Operation::BVC => OperationView::Mnemonic(11),
            Operation::BVS => OperationView::Mnemonic(12),
            Operation::CLC => OperationView::Mnemonic(13),
            Operation::CLD => OperationView::Mnemonic(14),
            Operation::CLI => OperationView::Mnemonic(15),
            Operation::CLV => OperationView::Mnemonic(16),
            Operation::CMP => OperationView::Mnemonic(17),
            Operation::CPX => OperationView::Mnemonic(18),
            Operation::CPY => OperationView::Mnemonic(19),
            Operation::DEC => OperationView::Mnemonic(20),
            Operation::DEX => OperationView::Mnemonic(21),
            Operation::DEY => OperationView::Mnemonic(22),
            Operation::EOR => OperationView::Mnemonic(23),
            Operation::INC => OperationView::Mnemonic(24),
            Operation::INX => OperationView::Mnemonic(25),
            Operation::INY => OperationView::Mnemonic(26),
            Operation::JMP => OperationView::Mnemonic(27),
            Operation::JSR => OperationView::Mnemonic(28),
            Operation::LDA => OperationView::Mnemonic(29),
            Operation::LDX => OperationView::Mnemonic(30),
            Operation::LDY => OperationView::Mnemonic(31),
            Operation::LSR => OperationView::Mnemonic(32),
            Operation::NOP => OperationView::Mnemonic(33),
            Operation::ORA => OperationView::Mnemonic(34),
            Operation::PHA => OperationView::Mnemonic(35),
            Operation::PHP => OperationView::Mnemonic(36),
            Operation::PLA => OperationView::Mnemonic(37),
            Operation::PLP => OperationView::Mnemonic(38),
            Operation::ROL => OperationView::Mnemonic(39),
            Operation::ROR => OperationView::Mnemonic(40),
            Operation::RTI => OperationView::Mnemonic(41),
            Operation::RTS => OperationView::Mnemonic(42),
            Operation::SBC => OperationView::Mnemonic(43),
            Operation::SEC => OperationView::Mnemonic(44),
            Operation::SED => OperationView::Mnemonic(45),
            Operation::SEI => OperationView::Mnemonic(46),
            Operation::STA => OperationView::Mnemonic(47),
            Operation::STX => OperationView::Mnemonic(48),
            Operation::STY => OperationView::Mnemonic(49),
            Operation::TAX => OperationView::Mnemonic(50),
            Operation::TAY => OperationView::Mnemonic(51),
            Operation::TSX => OperationView::Mnemonic(52),
            Operation::TXA => OperationView::Mnemonic(53),
            Operation::TXS => OperationView::Mnemonic(54),
            Operation::TYA => OperationView::Mnemonic(55),
        }
    }
}

impl Clone for Operation {
    fn clone(&self) -> (copy: Self)
        ensures
            copy@ == self@,
    {
        match self {
            Operation::Raw(bytes) => Operation::Raw(bytes.clone()),
            Operation::Label(name) => Operation::Label(name.clone()),
            Operation::ADC => Operation::ADC,
            Operation::AND => Operation::AND,
            Operation::ASL => Operation::ASL,
            Operation::BCC => Operation::BCC,
            Operation::BCS => Operation::BCS,
            Operation::BEQ => Operation::BEQ,
            Operation::BIT => Operation::BIT,
            Operation::BMI => Operation::BMI,
            Operation::BNE => Operation::BNE,
            Operation::BPL => Operation::BPL,
            Operation::BRK => Operation::BRK,
            Operation::BVC => Operation::BVC,
            Operation::BVS => Operation::BVS,
            Operation::CLC => Operation::CLC,
            Operation::CLD => Operation::CLD,
            Operation::CLI => Operation::CLI,
            Operation::CLV => Operation::CLV,
            Operation::CMP => Operation::CMP,
            Operation::CPX => Operation::CPX,
            Operation::CPY => Operation::CPY,
            Operation::DEC => Operation::DEC,
            Operation::DEX => Operation::DEX,
            Operation::DEY => Operation::DEY,
            Operation::EOR => Operation::EOR,
            Operation::INC => Operation::INC,
            Operation::INX => Operation::INX,
            Operation::INY => Operation::INY,
            Operation::JMP => Operation::JMP,
            Operation::JSR => Operation::JSR,
            Operation::LDA => Operation::LDA,
            Operation::LDX => Operation::LDX,
            Operation::LDY => Operation::LDY,
            Operation::LSR => Operation::LSR,
            Operation::NOP => Operation::NOP,
            Operation::ORA => Operation::ORA,
            Operation::PHA => Operation::PHA,
            Operation::PHP => Operation::PHP,
            Operation::PLA => Operation::PLA,
            Operation::PLP => Operation::PLP,
            Operation::ROL => Operation::ROL,
            Operation::ROR => Operation::ROR,
            Operation::RTI => Operation::RTI,
            Operation::RTS => Operation::RTS,
            Operation::SBC => Operation::SBC,
            Operation::SEC => Operation::SEC,
            Operation::SED => Operation::SED,
            Operation::SEI => Operation::SEI,
            Operation::STA => Operation::STA,
            Operation::STX => Operation::STX,
            Operation::STY => Operation::STY,
            Operation::TAX => Operation::TAX,
            Operation::TAY => Operation::TAY,
            Operation::TSX => Operation::TSX,
            Operation::TXA => Operation::TXA,
            Operation::TXS => Operation::TXS,
            Operation::TYA => Operation::TYA,
        }
    }
}

impl Default for Operation {
    fn default() -> (operation: Self)
        ensures
            operation@ == Operation::NOP@,
    {
        Operation::NOP
    }
}

impl Operation {
    /// Place of the operation in the opcode table. Labels and raw bytes have
    /// none.
    fn table_index(&self) -> (index: Option<usize>)
        ensures
            match self@ {
                OperationView::Mnemonic(row) => index == Some(row as usize) && row < ISA_6502_LEN,
                _ => index is None,
            },
    {
        match self {
            Operation::Raw(_) | Operation::Label(_) => None,
            Operation::ADC => Some(0),
            Operation::AND => Some(1),
            Operation::ASL => Some(2),
            Operation::BCC => Some(3),
            Operation::BCS => Some(4),
            Operation::BEQ => Some(5),
            Operation::BIT => Some(6),
            Operation::BMI => Some(7),
            Operation::BNE => Some(8),
            Operation::BPL => Some(9),
            Operation::BRK => Some(10),
            Operation::BVC => Some(11),
            Operation::BVS => Some(12),
            Operation::CLC => Some(13),
            Operation::CLD => Some(14),
            Operation::CLI => Some(15),
            Operation::CLV => Some(16),
            Operation::CMP => Some(17),
            Operation::CPX => Some(18),
            Operation::CPY => Some(19),
            Operation::DEC => Some(20),
            Operation::DEX => Some(21),
            Operation::DEY => Some(22),
            Operation::EOR => Some(23),
            Operation::INC => Some(24),
            Operation::INX => Some(25),
            Operation::INY => Some(26),
            Operation::JMP => Some(27),
            Operation::JSR => Some(28),
            Operation::LDA => Some(29),
            Operation::LDX => Some(30),
            Operation::LDY => Some(31),
            Operation::LSR => Some(32),
            Operation::NOP => Some(33),
            Operation::ORA => Some(34),
            Operation::PHA => Some(35),
            Operation::PHP => Some(36),
            Operation::PLA => Some(37),
            Operation::PLP => Some(38),
            Operation::ROL => Some(39),
            Operation::ROR => Some(40),
            Operation::RTI => Some(41),
            Operation::RTS => Some(42),
            Operation::SBC => Some(43),
            Operation::SEC => Some(44),
            Operation::SED => Some(45),
            Operation::SEI => Some(46),
            Operation::STA => Some(47),
            Operation::STX => Some(48),
            Operation::STY => Some(49),
            Operation::TAX => Some(50),
            Operation::TAY => Some(51),
            Operation::TSX => Some(52),
            Operation::TXA => Some(53),
            Operation::TXS => Some(54),
            Operation::TYA => Some(55),
        }
    }

    /// The opcodes of the operation, one per addressing mode. Labels and raw
    /// bytes have none.
    pub fn definition(&self) -> (definition: Option<InstructionDef>)
        ensures
            match self@ {
                OperationView::Mnemonic(row) => definition == Some(isa_6502_row(row as int)),
                _ => definition is None,
            },
    {
        match self.table_index() {
            Some(index) => Some(isa_6502_entry(index)),
            None => None,
        }
    }
}

} // verus!
