//! The opcode table of the 6502, as the crate `c64_assembler_6502` holds it.
use c64_assembler_6502::opcodes::{
    NO_ABSOLUTE, NO_ABSOLUTE_X, NO_ABSOLUTE_Y, NO_ACCUMULATOR, NO_IMMEDIATE, NO_IMPLIED,
    NO_INDEXED_INDIRECT, NO_INDIRECT, NO_INDIRECT_INDEXED, NO_RELATIVE, NO_ZEROPAGE,
    NO_ZEROPAGE_X, NO_ZEROPAGE_Y,
};
use vstd::prelude::*;

verus! {

/// Opcode of an instruction in one addressing mode.
pub type OpCode = u8;

/// Number of instructions of the 6502.
pub const ISA_6502_LEN: usize = 56;

/// An instruction of the 6502 and its opcode in each addressing mode.
///
/// Where the instruction does not have an addressing mode, the opcode is
/// [`no_opcode`].
#[derive(Clone, Copy, Debug)]
pub struct InstructionDef {
    /// Instruction as lowercase str (lda, sta, ...)
    pub instruction: &'static str,
    pub implied: OpCode,
    pub immediate: OpCode,
    pub accumulator: OpCode,
    pub absolute: OpCode,
    pub absolute_x: OpCode,
    pub absolute_y: OpCode,
    pub zeropage: OpCode,
    pub zeropage_x: OpCode,
    pub zeropage_y: OpCode,
    pub relative: OpCode,
    pub indirect: OpCode,
    pub indexed_indirect: OpCode,
    pub indirect_indexed: OpCode,
}

/// What the opcode table holds in place of an opcode that does not exist. It
/// is no opcode of the 6502.
pub open spec fn no_opcode() -> OpCode {
    0xFF
}

/// The instruction that `c64_assembler_6502::isa_6502` lists at `index`.
pub uninterp spec fn isa_6502_row(index: int) -> InstructionDef;

/// Reads the instruction at `index` of the list that
/// `c64_assembler_6502::isa_6502` returns, field by field. The list has
/// [`ISA_6502_LEN`] entries and is the same at every call.
#[verifier::external_body]
pub(crate) fn isa_6502_entry(index: usize) -> (entry: InstructionDef)
    requires
        index < ISA_6502_LEN,
    ensures
        entry == isa_6502_row(index as int),
{
    let def = &c64_assembler_6502::isa_6502()[index];
    InstructionDef {
        instruction: def.instruction, implied: def.implied, immediate: def.immediate,
        accumulator: def.accumulator, absolute: def.absolute, absolute_x: def.absolute_x,
        absolute_y: def.absolute_y, zeropage: def.zeropage, zeropage_x: def.zeropage_x,
        zeropage_y: def.zeropage_y, relative: def.relative, indirect: def.indirect,
        indexed_indirect: def.indexed_indirect, indirect_indexed: def.indirect_indexed,
    }
}

/// Reads the constants of `c64_assembler_6502::opcodes` that stand for an
/// opcode that does not exist, one per addressing mode. Each of them is 0xFF.
#[verifier::external_body]
pub(crate) fn unused_opcodes() -> (unused: InstructionDef)
    ensures
        unused.implied == no_opcode(),
        unused.immediate == no_opcode(),
        unused.accumulator == no_opcode(),
        unused.absolute == no_opcode(),
        unused.absolute_x == no_opcode(),
        unused.absolute_y == no_opcode(),
        unused.zeropage == no_opcode(),
        unused.zeropage_x == no_opcode(),
        unused.zeropage_y == no_opcode(),
        unused.relative == no_opcode(),
        unused.indirect == no_opcode(),
        unused.indexed_indirect == no_opcode(),
        unused.indirect_indexed == no_opcode(),
{
    InstructionDef {
        instruction: "", implied: NO_IMPLIED, immediate: NO_IMMEDIATE,
        accumulator: NO_ACCUMULATOR, absolute: NO_ABSOLUTE, absolute_x: NO_ABSOLUTE_X,
        absolute_y: NO_ABSOLUTE_Y, zeropage: NO_ZEROPAGE, zeropage_x: NO_ZEROPAGE_X,
        zeropage_y: NO_ZEROPAGE_Y, relative: NO_RELATIVE, indirect: NO_INDIRECT,
        indexed_indirect: NO_INDEXED_INDIRECT, indirect_indexed: NO_INDIRECT_INDEXED,
    }
}

} // verus!
