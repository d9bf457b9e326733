//! Building a stream of instructions.
use crate::instruction::operation::Operation;
use crate::instruction::{Instruction, InstructionView};
use crate::memory::address_mode::{AddressMode, AddressModeView, Immediate, ImmediateView};
use crate::memory::label::{AddressReference, AddressReferenceView};
use crate::memory::Address;
use crate::Instructions;
use vstd::prelude::*;

verus! {

/// Builder for a stream of instructions.
///
/// There is a method for every instruction of the 6502 in every addressing
/// mode that it has. Each adds one instruction to the end of the stream.
pub struct InstructionBuilder {
    instructions: Instructions,
}

/// The stream with a comment added to its last instruction. A stream without
/// instructions stays as it is.
pub open spec fn with_comment(stream: Seq<InstructionView>, comment: Seq<char>) -> Seq<
    InstructionView,
> {
    if stream.len() == 0 {
        stream
    } else {
        stream.drop_last().push(stream.last().with_comment(comment))
    }
}

/// The stream with the bytes that make the program start when it is run
/// from BASIC: the line `10 SYS 2062`. The first instruction after them stands
/// at address 2062 when the stream starts at 0x0800.
pub open spec fn with_basic_header(stream: Seq<InstructionView>) -> Seq<InstructionView> {
    stream.push(
        InstructionView::raw(seq![0x00u8, 0x0C, 0x08]).with_comment("New basic line"@),
    ).push(
        InstructionView::raw(
            seq![0x0Au8, 0x00, 0x9E, 0x20, 0x32, 0x30, 0x36, 0x32],
        ).with_comment("10 SYS 2062"@),
    ).push(InstructionView::raw(seq![0x00u8, 0x00, 0x00]).with_comment("End basic program"@))
}

impl View for InstructionBuilder {
    type V = Seq<InstructionView>;

    /// The stream as it has been built so far.
    closed spec fn view(&self) -> Seq<InstructionView> {
        self.instructions@
    }
}

impl Default for InstructionBuilder {
    fn default() -> (builder: Self)
        ensures
            builder@ == Seq::<InstructionView>::empty(),
    {
        InstructionBuilder { instructions: Instructions::default() }
    }
}

impl Clone for InstructionBuilder {
    fn clone(&self) -> (copy: Self)
        ensures
            copy@ == self@,
    {
        InstructionBuilder { instructions: self.instructions.clone() }
    }
}

impl InstructionBuilder {
    /// Add an instruction to the end of the stream.
    pub fn add_instruction(&mut self, operation: Operation, address_mode: AddressMode)
        ensures
            final(self)@ == old(self)@.push(InstructionView::new(operation@, address_mode@)),
    {
        let ghost before = self@;
        let instruction = Instruction { operation, address_mode, comments: Vec::new() };
        assert(instruction@.comments =~= Seq::empty());
        self.instructions.instructions.push(instruction);
        assert(self@ =~= before.push(InstructionView::new(operation@, address_mode@)));
    }

    /// Add the bytes that make the program start when it is run from BASIC.
    ///
    /// The application has to keep the entry point 0x0800 for them to work.
    pub fn add_basic_header(&mut self) -> (builder: &mut Self)
        ensures
            builder@ == with_basic_header(old(self)@),
            *final(self) == *final(builder),
    {
        self.raw(&[0x00, 0x0C, 0x08]);
        self.comment("New basic line");
        self.raw(&[0x0A, 0x00, 0x9E, 0x20, 0x32, 0x30, 0x36, 0x32]);
        self.comment("10 SYS 2062");
        self.raw(&[0x00, 0x00, 0x00]);
        self.comment("End basic program");
        proof {
            let first = old(self)@.push(
                InstructionView::raw(seq![0x00u8, 0x0C, 0x08]).with_comment("New basic line"@),
            );
            let second = first.push(
                InstructionView::raw(
                    seq![0x0Au8, 0x00, 0x9E, 0x20, 0x32, 0x30, 0x36, 0x32],
                ).with_comment("10 SYS 2062"@),
            );
            assert(self@ =~= with_basic_header(old(self)@));
        }
        self
    }

    /// Add bytes that become part of the program as they are.
    pub fn raw(&mut self, data: &[u8]) -> (builder: &mut Self)
        ensures
            builder@ == old(self)@.push(InstructionView::raw(data@)),
            *final(self) == *final(builder),
    {
        let mut bytes: Vec<u8> = Vec::new();
        let mut index: usize = 0;
        while index < data.len()
            invariant
                index <= data.len(),
                bytes@ == data@.take(index as int),
            decreases data.len() - index,
        {
            bytes.push(data[index]);
            assert(data@.take(index + 1) =~= data@.take(index as int).push(data@[index as int]));
            index += 1;
        }
        assert(data@.take(index as int) =~= data@);
        self.add_instruction(Operation::Raw(bytes), AddressMode::Implied);
        self
    }

    /// Add a label: a name for the address of the instruction that follows.
    pub fn label(&mut self, label: &str) -> (builder: &mut Self)
        ensures
            builder@ == old(self)@.push(InstructionView::label(label@)),
            *final(self) == *final(builder),
    {
        self.add_instruction(Operation::Label(label.to_string()), AddressMode::Implied);
        self
    }

    /// Add a comment to the instruction that was added last.
    pub fn comment(&mut self, comment: &str) -> (builder: &mut Self)
        ensures
            builder@ == with_comment(old(self)@, comment@),
            *final(self) == *final(builder),
    {
        let count = self.instructions.instructions.len();
        if count > 0 {
            let ghost before = self.instructions.instructions@;
            self.instructions.instructions[count - 1].comments.push(comment.to_string());
            proof {
                let after = self.instructions.instructions@;
                assert(after.len() == before.len());
                assert(after[count - 1].operation == before[count - 1].operation);
                assert(after[count - 1].address_mode == before[count - 1].address_mode);
                assert(after[count - 1]@.comments =~= before[count - 1]@.comments.push(comment@));
                assert(after[count - 1]@ == before[count - 1]@.with_comment(comment@));
                assert forall|index: int| 0 <= index < count - 1 implies after[index]
                    == before[index] by {}
                assert(self@ =~= with_comment(old(self)@, comment@));
            }
        }
        self
    }

    /// The stream that has been built.
    pub fn finalize(&self) -> (instructions: Instructions)
        ensures
            instructions@ == self@,
    {
        self.instructions.clone()
    }

    /// Add the instruction `adc` with the given addressing mode.
    fn adc(&mut self, addressing_mode: AddressMode) -> (builder: &mut Self)
        ensures
            builder@ == old(self)@.push(InstructionView::new(Operation::ADC@, addressing_mode@)),
            *final(self) == *final(builder),
    {
        self.add_instruction(Operation::ADC, addressing_mode);
        self
    }

    /// Add `adc` with a byte as operand.
    pub fn adc_imm(&mut self, byte: u8) -> (builder: &mut Self)
        ensures
            builder@ == old(self)@.push(
                InstructionView::new(
                    Operation::ADC@,
                    AddressModeView::Immediate(ImmediateView::Byte(byte)),
                ),
            ),
            *final(self) == *final(builder),
    {
        self.adc(AddressMode::Immediate(Immediate::Byte(byte)))
    }

    /// Add `adc` with the low byte of an address as operand.
    pub fn adc_imm_low(&mut self, address_name: &str) -> (builder: &mut Self)
        ensures
            builder@ == old(self)@.push(
                InstructionView::new(
                    Operation::ADC@,
                    AddressModeView::Immediate(
                        ImmediateView::Low(AddressReferenceView::new(address_name@)),
                    ),
                ),
            ),
            *final(self) == *final(builder),
    {
        self.adc(AddressMode::Immediate(Immediate::Low(AddressReference::new(address_name))))
    }

    /// Add `adc` with the high byte of an address as operand.
    pub fn adc_imm_high(&mut self, address_name: &str) -> (builder: &mut Self)
        ensures
            builder@ == old(self)@.push(
                InstructionView::new(
                    Operation::ADC@,
                    AddressModeView::Immediate(
                        ImmediateView::High(AddressReferenceView::new(address_name@)),
                    ),
                ),
            ),
            *final(self) == *final(builder),
    {
        self.adc(AddressMode::Immediate(Immediate::High(AddressReference::new(address_name))))
    }

    /// Add `adc` on an address.
    pub fn adc_addr(&mut self, address_name: &str) -> (builder: &mut Self)
        ensures
            builder@ == old(self)@.push(
                InstructionView::new(
                    Operation::ADC@,
                    AddressModeView::Absolute(AddressReferenceView::new(address_name@)),
                ),
            ),
            *final(self) == *final(builder),
    {
        self.adc(AddressMode::Absolute(AddressReference::new(address_name)))
    }

    /// Add `adc` on the address `offset` bytes behind an address.
    pub fn adc_addr_offs(&mut self, address_name: &str, offset: Address) -> (builder: &mut Self)
        ensures
            builder@ == old(self)@.push(
                InstructionView::new(
                    Operation::ADC@,
                    AddressModeView::Absolute(
                        AddressReferenceView::with_offset(address_name@, offset),
                    ),
                ),
            ),
            *final(self) == *final(builder),
    {
        self.adc(AddressMode::Absolute(AddressReference::with_offset(address_name, offset)))
    }

    /// Add `adc` on an address that is indexed by X.
    pub fn adc_addr_x(&mut self, address_name: &str) -> (builder: &mut Self)
        ensures
            builder@ == old(self)@.push(
                InstructionView::new(
                    Operation::ADC@,
                    AddressModeView::AbsoluteX(AddressReferenceView::new(address_name@)),
                ),
            ),
            *final(self) == *final(builder),
    {
        self.adc(AddressMode::AbsoluteX(AddressReference::new(address_name)))
    }

    /// Add `adc` on an address that is indexed by Y.
    pub fn adc_addr_y(&mut self, address_name: &str) -> (builder: &mut Self)
        ensures
            builder@ == old(self)@.push(
                InstructionView::new(
                    Operation::ADC@,
                    AddressModeView::AbsoluteY(AddressReferenceView::new(address_name@)),
                ),
            ),
            *final(self) == *final(builder),
    {
        self.adc(AddressMode::AbsoluteY(AddressReference::new(address_name)))
    }

    /// Add `adc` on the address that is stored at an address of the zero page,
    /// which is indexed by X.
    pub fn adc_ind_x(&mut self, address_name: &str) -> (builder: &mut Self)
        ensures
            builder@ == old(self)@.push(
                InstructionView::new(
                    Operation::ADC@,
                    AddressModeView::IndexedIndirect(AddressReferenceView::new(address_name@)),
                ),
            ),
            *final(self) == *final(builder),
    {
        self.adc(AddressMode::IndexedIndirect(AddressReference::new(address_name)))
    }

    /// Add `adc` on the address that is stored at an address of the zero page,
    /// indexed by Y.
    pub fn adc_ind_y(&mut self, address_name: &str) -> (builder: &mut Self)
        ensures
            builder@ == old(self)@.push(
                InstructionView::new(
                    Operation::ADC@,
                    AddressModeView::IndirectIndexed(AddressReferenceView::new(address_name@)),
                ),
            ),
            *final(self) == *final(builder),
    {
        self.adc(AddressMode::IndirectIndexed(AddressReference::new(address_name)))
    }

    /// Add the instruction `and` with the given addressing mode.
    fn and(&mut self, addressing_mode: AddressMode) -> (builder: &mut Self)
        ensures
            builder@ == old(self)@.push(InstructionView::new(Operation::AND@, addressing_mode@)),
            *final(self) == *final(builder),
    {
        self.add_instruction(Operation::AND, addressing_mode);
        self
    }

    /// Add `and` with a byte as operand.
    pub fn and_imm(&mut self, byte: u8) -> (builder: &mut Self)
        ensures
            builder@ == old(self)@.push(
                InstructionView::new(
                    Operation::AND@,
                    AddressModeView::Immediate(ImmediateView::Byte(byte)),
                ),
            ),
            *final(self) == *final(builder),
    {
        self.and(AddressMode::Immediate(Immediate::Byte(byte)))
    }

    /// Add `and` with the low byte of an address as operand.
    pub fn and_imm_low(&mut self, address_name: &str) -> (builder: &mut Self)
        ensures
            builder@ == old(self)@.push(
                InstructionView::new(
                    Operation::AND@,
                    AddressModeView::Immediate(
                        ImmediateView::Low(AddressReferenceView::new(address_name@)),
                    ),
                ),
            ),
            *final(self) == *final(builder),
    {
        self.and(AddressMode::Immediate(Immediate::Low(AddressReference::new(address_name))))
    }

    /// Add `and` with the high byte of an address as operand.
    pub fn and_imm_high(&mut self, address_name: &str) -> (builder: &mut Self)
        ensures
            builder@ == old(self)@.push(
                InstructionView::new(
                    Operation::AND@,
                    AddressModeView::Immediate(
                        ImmediateView::High(AddressReferenceView::new(address_name@)),
                    ),
                ),
            ),
            *final(self) == *final(builder),
    {
        self.and(AddressMode::Immediate(Immediate::High(AddressReference::new(address_name))))
    }

    /// Add `and` on an address.
    pub fn and_addr(&mut self, address_name: &str) -> (builder: &mut Self)
        ensures
            builder@ == old(self)@.push(
                InstructionView::new(
                    Operation::AND@,
                    AddressModeView::Absolute(AddressReferenceView::new(address_name@)),
                ),
            ),
            *final(self) == *final(builder),
    {
        self.and(AddressMode::Absolute(AddressReference::new(address_name)))
    }

    /// Add `and` on the address `offset` bytes behind an address.
    pub fn and_addr_offs(&mut self, address_name: &str, offset: Address) -> (builder: &mut Self)
        ensures
            builder@ == old(self)@.push(
                InstructionView::new(
                    Operation::AND@,
                    AddressModeView::Absolute(
                        AddressReferenceView::with_offset(address_name@, offset),
                    ),
                ),
            ),
            *final(self) == *final(builder),
    {
        self.and(AddressMode::Absolute(AddressReference::with_offset(address_name, offset)))
    }

    /// Add `and` on an address that is indexed by X.
    pub fn and_addr_x(&mut self, address_name: &str) -> (builder: &mut Self)
        ensures
            builder@ == old(self)@.push(
                InstructionView::new(
                    Operation::AND@,
                    AddressModeView::AbsoluteX(AddressReferenceView::new(address_name@)),
                ),
            ),
            *final(self) == *final(builder),
    {
        self.and(AddressMode::AbsoluteX(AddressReference::new(address_name)))
    }

    /// Add `and` on an address that is indexed by Y.
    pub fn and_addr_y(&mut self, address_name: &str) -> (builder: &mut Self)
        ensures
            builder@ == old(self)@.push(
                InstructionView::new(
                    Operation::AND@,
                    AddressModeView::AbsoluteY(AddressReferenceView::new(address_name@)),
                ),
            ),
            *final(self) == *final(builder),
    {
        self.and(AddressMode::AbsoluteY(AddressReference::new(address_name)))
    }

    /// Add `and` on the address that is stored at an address of the zero page,
    /// which is indexed by X.
    pub fn and_ind_x(&mut self, address_name: &str) -> (builder: &mut Self)
        ensures
            builder@ == old(self)@.push(
                InstructionView::new(
                    Operation::AND@,
                    AddressModeView::IndexedIndirect(AddressReferenceView::new(address_name@)),
                ),
            ),
            *final(self) == *final(builder),
    {
        self.and(AddressMode::IndexedIndirect(AddressReference::new(address_name)))
    }

    /// Add `and` on the address that is stored at an address of the zero page,
    /// indexed by Y.
    pub fn and_ind_y(&mut self, address_name: &str) -> (builder: &mut Self)
        ensures
            builder@ == old(self)@.push(
                InstructionView::new(
                    Operation::AND@,
                    AddressModeView::IndirectIndexed(AddressReferenceView::new(address_name@)),
                ),
            ),
            *final(self) == *final(builder),
    {
        self.and(AddressMode::IndirectIndexed(AddressReference::new(address_name)))
    }

    /// Add the instruction `asl` with the given addressing mode.
    fn asl(&mut self, addressing_mode: AddressMode) -> (builder: &mut Self)
        ensures
            builder@ == old(self)@.push(InstructionView::new(Operation::ASL@, addressing_mode@)),
            *final(self) == *final(builder),
    {
        self.add_instruction(Operation::ASL, addressing_mode);
        self
    }

    /// Add `asl` on the accumulator.
    pub fn asl_acc(&mut self) -> (builder: &mut Self)
        ensures
            builder@ == old(self)@.push(
                InstructionView::new(
                    Operation::ASL@,
                    AddressModeView::Accumulator,
                ),
            ),
            *final(self) == *final(builder),
    {
        self.asl(AddressMode::Accumulator)
    }

    /// Add `asl` on an address.
    pub fn asl_addr(&mut self, address_name: &str) -> (builder: &mut Self)
        ensures
            builder@ == old(self)@.push(
                InstructionView::new(
                    Operation::ASL@,
                    AddressModeView::Absolute(AddressReferenceView::new(address_name@)),
                ),
            ),
            *final(self) == *final(builder),
    {
        self.asl(AddressMode::Absolute(AddressReference::new(address_name)))
    }

    /// Add `asl` on the address `offset` bytes behind an address.
    pub fn asl_addr_offs(&mut self, address_name: &str, offset: Address) -> (builder: &mut Self)
        ensures
            builder@ == old(self)@.push(
                InstructionView::new(
                    Operation::ASL@,
                    AddressModeView::Absolute(
                        AddressReferenceView::with_offset(address_name@, offset),
                    ),
                ),
            ),
            *final(self) == *final(builder),
    {
        self.asl(AddressMode::Absolute(AddressReference::with_offset(address_name, offset)))
    }

    /// Add `asl` on an address that is indexed by X.
    pub fn asl_addr_x(&mut self, address_name: &str) -> (builder: &mut Self)
        ensures
            builder@ == old(self)@.push(
                InstructionView::new(
                    Operation::ASL@,
                    AddressModeView::AbsoluteX(AddressReferenceView::new(address_name@)),
                ),
            ),
            *final(self) == *final(builder),
    {
        self.asl(AddressMode::AbsoluteX(AddressReference::new(address_name)))
    }

    /// Add the instruction `bcc` with the given addressing mode.
    fn bcc(&mut self, addressing_mode: AddressMode) -> (builder: &mut Self)
        ensures
            builder@ == old(self)@.push(InstructionView::new(Operation::BCC@, addressing_mode@)),
            *final(self) == *final(builder),
    {
        self.add_instruction(Operation::BCC, addressing_mode);
        self
    }

    /// Add the branch `bcc` to an address.
    pub fn bcc_addr(&mut self, address_name: &str) -> (builder: &mut Self)
        ensures
            builder@ == old(self)@.push(
                InstructionView::new(
                    Operation::BCC@,
                    AddressModeView::Relative(AddressReferenceView::new(address_name@)),
                ),
            ),
            *final(self) == *final(builder),
    {
        self.bcc(AddressMode::Relative(AddressReference::new(address_name)))
    }

    /// Add the branch `bcc` to the address `offset` bytes behind an address.
    pub fn bcc_addr_offs(&mut self, address_name: &str, offset: Address) -> (builder: &mut Self)
        ensures
            builder@ == old(self)@.push(
                InstructionView::new(
                    Operation::BCC@,
                    AddressModeView::Relative(
                        AddressReferenceView::with_offset(address_name@, offset),
                    ),
                ),
            ),
            *final(self) == *final(builder),
    {
        self.bcc(AddressMode::Relative(AddressReference::with_offset(address_name, offset)))
    }

    /// Add the instruction `bcs` with the given addressing mode.
    fn bcs(&mut self, addressing_mode: AddressMode) -> (builder: &mut Self)
        ensures
            builder@ == old(self)@.push(InstructionView::new(Operation::BCS@, addressing_mode@)),
            *final(self) == *final(builder),
    {
        self.add_instruction(Operation::BCS, addressing_mode);
        self
    }

    /// Add the branch `bcs` to an address.
    pub fn bcs_addr(&mut self, address_name: &str) -> (builder: &mut Self)
        ensures
            builder@ == old(self)@.push(
                InstructionView::new(
                    Operation::BCS@,
                    AddressModeView::Relative(AddressReferenceView::new(address_name@)),
                ),
            ),
            *final(self) == *final(builder),
    {
        self.bcs(AddressMode::Relative(AddressReference::new(address_name)))
    }

    /// Add the branch `bcs` to the address `offset` bytes behind an address.
    pub fn bcs_addr_offs(&mut self, address_name: &str, offset: Address) -> (builder: &mut Self)
        ensures
            builder@ == old(self)@.push(
                InstructionView::new(
                    Operation::BCS@,
                    AddressModeView::Relative(
                        AddressReferenceView::with_offset(address_name@, offset),
                    ),
                ),
            ),
            *final(self) == *final(builder),
    {
        self.bcs(AddressMode::Relative(AddressReference::with_offset(address_name, offset)))
    }

    /// Add the instruction `beq` with the given addressing mode.
    fn beq(&mut self, addressing_mode: AddressMode) -> (builder: &mut Self)
        ensures
            builder@ == old(self)@.push(InstructionView::new(Operation::BEQ@, addressing_mode@)),
            *final(self) == *final(builder),
    {
        self.add_instruction(Operation::BEQ, addressing_mode);
        self
    }

    /// Add the branch `beq` to an address.
    pub fn beq_addr(&mut self, address_name: &str) -> (builder: &mut Self)
        ensures
            builder@ == old(self)@.push(
                InstructionView::new(
                    Operation::BEQ@,
                    AddressModeView::Relative(AddressReferenceView::new(address_name@)),
                ),
            ),
            *final(self) == *final(builder),
    {
        self.beq(AddressMode::Relative(AddressReference::new(address_name)))
    }

    /// Add the branch `beq` to the address `offset` bytes behind an address.
    pub fn beq_addr_offs(&mut self, address_name: &str, offset: Address) -> (builder: &mut Self)
        ensures
            builder@ == old(self)@.push(
                InstructionView::new(
                    Operation::BEQ@,
                    AddressModeView::Relative(
                        AddressReferenceView::with_offset(address_name@, offset),
                    ),
                ),
            ),
            *final(self) == *final(builder),
    {
        self.beq(AddressMode::Relative(AddressReference::with_offset(address_name, offset)))
    }

    /// Add the instruction `bit` with the given addressing mode.
    fn bit(&mut self, addressing_mode: AddressMode) -> (builder: &mut Self)
        ensures
            builder@ == old(self)@.push(InstructionView::new(Operation::BIT@, addressing_mode@)),
            *final(self) == *final(builder),
    {
        self.add_instruction(Operation::BIT, addressing_mode);
        self
    }

    /// Add `bit` on an address.
    pub fn bit_addr(&mut self, address_name: &str) -> (builder: &mut Self)
        ensures
            builder@ == old(self)@.push(
                InstructionView::new(
                    Operation::BIT@,
                    AddressModeView::Absolute(AddressReferenceView::new(address_name@)),
                ),
            ),
            *final(self) == *final(builder),
    {
        self.bit(AddressMode::Absolute(AddressReference::new(address_name)))
    }

    /// Add `bit` on the address `offset` bytes behind an address.
    pub fn bit_addr_offs(&mut self, address_name: &str, offset: Address) -> (builder: &mut Self)
        ensures
            builder@ == old(self)@.push(
                InstructionView::new(
                    Operation::BIT@,
                    AddressModeView::Absolute(
                        AddressReferenceView::with_offset(address_name@, offset),
                    ),
                ),
            ),
            *final(self) == *final(builder),
    {
        self.bit(AddressMode::Absolute(AddressReference::with_offset(address_name, offset)))
    }

    /// Add the instruction `bmi` with the given addressing mode.
    fn bmi(&mut self, addressing_mode: AddressMode) -> (builder: &mut Self)
        ensures
            builder@ == old(self)@.push(InstructionView::new(Operation::BMI@, addressing_mode@)),
            *final(self) == *final(builder),
    {
        self.add_instruction(Operation::BMI, addressing_mode);
        self
    }

    /// Add the branch `bmi` to an address.
    pub fn bmi_addr(&mut self, address_name: &str) -> (builder: &mut Self)
        ensures
            builder@ == old(self)@.push(
                InstructionView::new(
                    Operation::BMI@,
                    AddressModeView::Relative(AddressReferenceView::new(address_name@)),
                ),
            ),
            *final(self) == *final(builder),
    {
        self.bmi(AddressMode::Relative(AddressReference::new(address_name)))
    }

    /// Add the branch `bmi` to the address `offset` bytes behind an address.
    pub fn bmi_addr_offs(&mut self, address_name: &str, offset: Address) -> (builder: &mut Self)
        ensures
            builder@ == old(self)@.push(
                InstructionView::new(
                    Operation::BMI@,
                    AddressModeView::Relative(
                        AddressReferenceView::with_offset(address_name@, offset),
                    ),
                ),
            ),
            *final(self) == *final(builder),
    {
        self.bmi(AddressMode::Relative(AddressReference::with_offset(address_name, offset)))
    }

    /// Add the instruction `bne` with the given addressing mode.
    fn bne(&mut self, addressing_mode: AddressMode) -> (builder: &mut Self)
        ensures
            builder@ == old(self)@.push(InstructionView::new(Operation::BNE@, addressing_mode@)),
            *final(self) == *final(builder),
    {
        self.add_instruction(Operation::BNE, addressing_mode);
        self
    }

    /// Add the branch `bne` to an address.
    pub fn bne_addr(&mut self, address_name: &str) -> (builder: &mut Self)
        ensures
            builder@ == old(self)@.push(
                InstructionView::new(
                    Operation::BNE@,
                    AddressModeView::Relative(AddressReferenceView::new(address_name@)),
                ),
            ),
            *final(self) == *final(builder),
    {
        self.bne(AddressMode::Relative(AddressReference::new(address_name)))
    }

    /// Add the branch `bne` to the address `offset` bytes behind an address.
    pub fn bne_addr_offs(&mut self, address_name: &str, offset: Address) -> (builder: &mut Self)
        ensures
            builder@ == old(self)@.push(
                InstructionView::new(
                    Operation::BNE@,
                    AddressModeView::Relative(
                        AddressReferenceView::with_offset(address_name@, offset),
                    ),
                ),
            ),
            *final(self) == *final(builder),
    {
        self.bne(AddressMode::Relative(AddressReference::with_offset(address_name, offset)))
    }

    /// Add the instruction `bpl` with the given addressing mode.
    fn bpl(&mut self, addressing_mode: AddressMode) -> (builder: &mut Self)
        ensures
            builder@ == old(self)@.push(InstructionView::new(Operation::BPL@, addressing_mode@)),
            *final(self) == *final(builder),
    {
        self.add_instruction(Operation::BPL, addressing_mode);
        self
    }

    /// Add the branch `bpl` to an address.
    pub fn bpl_addr(&mut self, address_name: &str) -> (builder: &mut Self)
        ensures
            builder@ == old(self)@.push(
                InstructionView::new(
                    Operation::BPL@,
                    AddressModeView::Relative(AddressReferenceView::new(address_name@)),
                ),
            ),
            *final(self) == *final(builder),
    {
        self.bpl(AddressMode::Relative(AddressReference::new(address_name)))
    }

    /// Add the branch `bpl` to the address `offset` bytes behind an address.
    pub fn bpl_addr_offs(&mut self, address_name: &str, offset: Address) -> (builder: &mut Self)
        ensures
            builder@ == old(self)@.push(
                InstructionView::new(
                    Operation::BPL@,
                    AddressModeView::Relative(
                        AddressReferenceView::with_offset(address_name@, offset),
                    ),
                ),
            ),
            *final(self) == *final(builder),
    {
        self.bpl(AddressMode::Relative(AddressReference::with_offset(address_name, offset)))
    }

    /// Add the instruction `brk`.
    pub fn brk(&mut self) -> (builder: &mut Self)
        ensures
            builder@ == old(self)@.push(
                InstructionView::new(Operation::BRK@, AddressModeView::Implied),
            ),
            *final(self) == *final(builder),
    {
        self.add_instruction(Operation::BRK, AddressMode::Implied);
        self
    }

    /// Add the instruction `bvc` with the given addressing mode.
    fn bvc(&mut self, addressing_mode: AddressMode) -> (builder: &mut Self)
        ensures
            builder@ == old(self)@.push(InstructionView::new(Operation::BVC@, addressing_mode@)),
            *final(self) == *final(builder),
    {
        self.add_instruction(Operation::BVC, addressing_mode);
        self
    }

    /// Add the branch `bvc` to an address.
    pub fn bvc_addr(&mut self, address_name: &str) -> (builder: &mut Self)
        ensures
            builder@ == old(self)@.push(
                InstructionView::new(
                    Operation::BVC@,
                    AddressModeView::Relative(AddressReferenceView::new(address_name@)),
                ),
            ),
            *final(self) == *final(builder),
    {
        self.bvc(AddressMode::Relative(AddressReference::new(address_name)))
    }

    /// Add the branch `bvc` to the address `offset` bytes behind an address.
    pub fn bvc_addr_offs(&mut self, address_name: &str, offset: Address) -> (builder: &mut Self)
        ensures
            builder@ == old(self)@.push(
                InstructionView::new(
                    Operation::BVC@,
                    AddressModeView::Relative(
                        AddressReferenceView::with_offset(address_name@, offset),
                    ),
                ),
            ),
            *final(self) == *final(builder),
    {
        self.bvc(AddressMode::Relative(AddressReference::with_offset(address_name, offset)))
    }

    /// Add the instruction `bvs` with the given addressing mode.
    fn bvs(&mut self, addressing_mode: AddressMode) -> (builder: &mut Self)
        ensures
            builder@ == old(self)@.push(InstructionView::new(Operation::BVS@, addressing_mode@)),
            *final(self) == *final(builder),
    {
        self.add_instruction(Operation::BVS, addressing_mode);
        self
    }

    /// Add the branch `bvs` to an address.
    pub fn bvs_addr(&mut self, address_name: &str) -> (builder: &mut Self)
        ensures
            builder@ == old(self)@.push(
                InstructionView::new(
                    Operation::BVS@,
                    AddressModeView::Relative(AddressReferenceView::new(address_name@)),
                ),
            ),
            *final(self) == *final(builder),
    {
        self.bvs(AddressMode::Relative(AddressReference::new(address_name)))
    }

    /// Add the branch `bvs` to the address `offset` bytes behind an address.
    pub fn bvs_addr_offs(&mut self, address_name: &str, offset: Address) -> (builder: &mut Self)
        ensures
            builder@ == old(self)@.push(
                InstructionView::new(
                    Operation::BVS@,
                    AddressModeView::Relative(
                        AddressReferenceView::with_offset(address_name@, offset),
                    ),
                ),
            ),
            *final(self) == *final(builder),
    {
        self.bvs(AddressMode::Relative(AddressReference::with_offset(address_name, offset)))
    }

    /// Add the instruction `clc`.
    pub fn clc(&mut self) -> (builder: &mut Self)
        ensures
            builder@ == old(self)@.push(
                InstructionView::new(Operation::CLC@, AddressModeView::Implied),
            ),
            *final(self) == *final(builder),
    {
        self.add_instruction(Operation::CLC, AddressMode::Implied);
        self
    }

    /// Add the instruction `cld`.
    pub fn cld(&mut self) -> (builder: &mut Self)
        ensures
            builder@ == old(self)@.push(
                InstructionView::new(Operation::CLD@, AddressModeView::Implied),
            ),
            *final(self) == *final(builder),
    {
        self.add_instruction(Operation::CLD, AddressMode::Implied);
        self
    }

    /// Add the instruction `cli`.
    pub fn cli(&mut self) -> (builder: &mut Self)
        ensures
            builder@ == old(self)@.push(
                InstructionView::new(Operation::CLI@, AddressModeView::Implied),
            ),
            *final(self) == *final(builder),
    {
        self.add_instruction(Operation::CLI, AddressMode::Implied);
        self
    }

    /// Add the instruction `clv`.
    pub fn clv(&mut self) -> (builder: &mut Self)
        ensures
            builder@ == old(self)@.push(
                InstructionView::new(Operation::CLV@, AddressModeView::Implied),
            ),
            *final(self) == *final(builder),
    {
        self.add_instruction(Operation::CLV, AddressMode::Implied);
        self
    }

    /// Add the instruction `cmp` with the given addressing mode.
    fn cmp(&mut self, addressing_mode: AddressMode) -> (builder: &mut Self)
        ensures
            builder@ == old(self)@.push(InstructionView::new(Operation::CMP@, addressing_mode@)),
            *final(self) == *final(builder),
    {
        self.add_instruction(Operation::CMP, addressing_mode);
        self
    }

    /// Add `cmp` with a byte as operand.
    pub fn cmp_imm(&mut self, byte: u8) -> (builder: &mut Self)
        ensures
            builder@ == old(self)@.push(
                InstructionView::new(
                    Operation::CMP@,
                    AddressModeView::Immediate(ImmediateView::Byte(byte)),
                ),
            ),
            *final(self) == *final(builder),
    {
        self.cmp(AddressMode::Immediate(Immediate::Byte(byte)))
    }

    /// Add `cmp` with the low byte of an address as operand.
    pub fn cmp_imm_low(&mut self, address_name: &str) -> (builder: &mut Self)
        ensures
            builder@ == old(self)@.push(
                InstructionView::new(
                    Operation::CMP@,
                    AddressModeView::Immediate(
                        ImmediateView::Low(AddressReferenceView::new(address_name@)),
                    ),
                ),
            ),
            *final(self) == *final(builder),
    {
        self.cmp(AddressMode::Immediate(Immediate::Low(AddressReference::new(address_name))))
    }

    /// Add `cmp` with the high byte of an address as operand.
    pub fn cmp_imm_high(&mut self, address_name: &str) -> (builder: &mut Self)
        ensures
            builder@ == old(self)@.push(
                InstructionView::new(
                    Operation::CMP@,
                    AddressModeView::Immediate(
                        ImmediateView::High(AddressReferenceView::new(address_name@)),
                    ),
                ),
            ),
            *final(self) == *final(builder),
    {
        self.cmp(AddressMode::Immediate(Immediate::High(AddressReference::new(address_name))))
    }

    /// Add `cmp` on an address.
    pub fn cmp_addr(&mut self, address_name: &str) -> (builder: &mut Self)
        ensures
            builder@ == old(self)@.push(
                InstructionView::new(
                    Operation::CMP@,
                    AddressModeView::Absolute(AddressReferenceView::new(address_name@)),
                ),
            ),
            *final(self) == *final(builder),
    {
        self.cmp(AddressMode::Absolute(AddressReference::new(address_name)))
    }

    /// Add `cmp` on the address `offset` bytes behind an address.
    pub fn cmp_addr_offs(&mut self, address_name: &str, offset: Address) -> (builder: &mut Self)
        ensures
            builder@ == old(self)@.push(
                InstructionView::new(
                    Operation::CMP@,
                    AddressModeView::Absolute(
                        AddressReferenceView::with_offset(address_name@, offset),
                    ),
                ),
            ),
            *final(self) == *final(builder),
    {
        self.cmp(AddressMode::Absolute(AddressReference::with_offset(address_name, offset)))
    }

    /// Add `cmp` on an address that is indexed by X.
    pub fn cmp_addr_x(&mut self, address_name: &str) -> (builder: &mut Self)
        ensures
            builder@ == old(self)@.push(
                InstructionView::new(
                    Operation::CMP@,
                    AddressModeView::AbsoluteX(AddressReferenceView::new(address_name@)),
                ),
            ),
            *final(self) == *final(builder),
    {
        self.cmp(AddressMode::AbsoluteX(AddressReference::new(address_name)))
    }

    /// Add `cmp` on an address that is indexed by Y.
    pub fn cmp_addr_y(&mut self, address_name: &str) -> (builder: &mut Self)
        ensures
            builder@ == old(self)@.push(
                InstructionView::new(
                    Operation::CMP@,
                    AddressModeView::AbsoluteY(AddressReferenceView::new(address_name@)),
                ),
            ),
            *final(self) == *final(builder),
    {
        self.cmp(AddressMode::AbsoluteY(AddressReference::new(address_name)))
    }

    /// Add `cmp` on the address that is stored at an address of the zero page,
    /// which is indexed by X.
    pub fn cmp_ind_x(&mut self, address_name: &str) -> (builder: &mut Self)
        ensures
            builder@ == old(self)@.push(
                InstructionView::new(
                    Operation::CMP@,
                    AddressModeView::IndexedIndirect(AddressReferenceView::new(address_name@)),
                ),
            ),
            *final(self) == *final(builder),
    {
        self.cmp(AddressMode::IndexedIndirect(AddressReference::new(address_name)))
    }

    /// Add `cmp` on the address that is stored at an address of the zero page,
    /// indexed by Y.
    pub fn cmp_ind_y(&mut self, address_name: &str) -> (builder: &mut Self)
        ensures
            builder@ == old(self)@.push(
                InstructionView::new(
                    Operation::CMP@,
                    AddressModeView::IndirectIndexed(AddressReferenceView::new(address_name@)),
                ),
            ),
            *final(self) == *final(builder),
    {
        self.cmp(AddressMode::IndirectIndexed(AddressReference::new(address_name)))
    }

    /// Add the instruction `cpx` with the given addressing mode.
    fn cpx(&mut self, addressing_mode: AddressMode) -> (builder: &mut Self)
        ensures
            builder@ == old(self)@.push(InstructionView::new(Operation::CPX@, addressing_mode@)),
            *final(self) == *final(builder),
    {
        self.add_instruction(Operation::CPX, addressing_mode);
        self
    }

    /// Add `cpx` with a byte as operand.
    pub fn cpx_imm(&mut self, byte: u8) -> (builder: &mut Self)
        ensures
            builder@ == old(self)@.push(
                InstructionView::new(
                    Operation::CPX@,
                    AddressModeView::Immediate(ImmediateView::Byte(byte)),
                ),
            ),
            *final(self) == *final(builder),
    {
        self.cpx(AddressMode::Immediate(Immediate::Byte(byte)))
    }

    /// Add `cpx` with the low byte of an address as operand.
    pub fn cpx_imm_low(&mut self, address_name: &str) -> (builder: &mut Self)
        ensures
            builder@ == old(self)@.push(
                InstructionView::new(
                    Operation::CPX@,
                    AddressModeView::Immediate(
                        ImmediateView::Low(AddressReferenceView::new(address_name@)),
                    ),
                ),
            ),
            *final(self) == *final(builder),
    {
        self.cpx(AddressMode::Immediate(Immediate::Low(AddressReference::new(address_name))))
    }

    /// Add `cpx` with the high byte of an address as operand.
    pub fn cpx_imm_high(&mut self, address_name: &str) -> (builder: &mut Self)
        ensures
            builder@ == old(self)@.push(
                InstructionView::new(
                    Operation::CPX@,
                    AddressModeView::Immediate(
                        ImmediateView::High(AddressReferenceView::new(address_name@)),
                    ),
                ),
            ),
            *final(self) == *final(builder),
    {
        self.cpx(AddressMode::Immediate(Immediate::High(AddressReference::new(address_name))))
    }

    /// Add `cpx` on an address.
    pub fn cpx_addr(&mut self, address_name: &str) -> (builder: &mut Self)
        ensures
            builder@ == old(self)@.push(
                InstructionView::new(
                    Operation::CPX@,
                    AddressModeView::Absolute(AddressReferenceView::new(address_name@)),
                ),
            ),
            *final(self) == *final(builder),
    {
        self.cpx(AddressMode::Absolute(AddressReference::new(address_name)))
    }

    /// Add `cpx` on the address `offset` bytes behind an address.
    pub fn cpx_addr_offs(&mut self, address_name: &str, offset: Address) -> (builder: &mut Self)
        ensures
            builder@ == old(self)@.push(
                InstructionView::new(
                    Operation::CPX@,
                    AddressModeView::Absolute(
                        AddressReferenceView::with_offset(address_name@, offset),
                    ),
                ),
            ),
            *final(self) == *final(builder),
    {
        self.cpx(AddressMode::Absolute(AddressReference::with_offset(address_name, offset)))
    }

    /// Add the instruction `cpy` with the given addressing mode.
    fn cpy(&mut self, addressing_mode: AddressMode) -> (builder: &mut Self)
        ensures
            builder@ == old(self)@.push(InstructionView::new(Operation::CPY@, addressing_mode@)),
            *final(self) == *final(builder),
    {
        self.add_instruction(Operation::CPY, addressing_mode);
        self
    }

    /// Add `cpy` with a byte as operand.
    pub fn cpy_imm(&mut self, byte: u8) -> (builder: &mut Self)
        ensures
            builder@ == old(self)@.push(
                InstructionView::new(
                    Operation::CPY@,
                    AddressModeView::Immediate(ImmediateView::Byte(byte)),
                ),
            ),
            *final(self) == *final(builder),
    {
        self.cpy(AddressMode::Immediate(Immediate::Byte(byte)))
    }

    /// Add `cpy` with the low byte of an address as operand.
    pub fn cpy_imm_low(&mut self, address_name: &str) -> (builder: &mut Self)
        ensures
            builder@ == old(self)@.push(
                InstructionView::new(
                    Operation::CPY@,
                    AddressModeView::Immediate(
                        ImmediateView::Low(AddressReferenceView::new(address_name@)),
                    ),
                ),
            ),
            *final(self) == *final(builder),
    {
        self.cpy(AddressMode::Immediate(Immediate::Low(AddressReference::new(address_name))))
    }

    /// Add `cpy` with the high byte of an address as operand.
    pub fn cpy_imm_high(&mut self, address_name: &str) -> (builder: &mut Self)
        ensures
            builder@ == old(self)@.push(
                InstructionView::new(
                    Operation::CPY@,
                    AddressModeView::Immediate(
                        ImmediateView::High(AddressReferenceView::new(address_name@)),
                    ),
                ),
            ),
            *final(self) == *final(builder),
    {
        self.cpy(AddressMode::Immediate(Immediate::High(AddressReference::new(address_name))))
    }

    /// Add `cpy` on an address.
    pub fn cpy_addr(&mut self, address_name: &str) -> (builder: &mut Self)
        ensures
            builder@ == old(self)@.push(
                InstructionView::new(
                    Operation::CPY@,
                    AddressModeView::Absolute(AddressReferenceView::new(address_name@)),
                ),
            ),
            *final(self) == *final(builder),
    {
        self.cpy(AddressMode::Absolute(AddressReference::new(address_name)))
    }

    /// Add `cpy` on the address `offset` bytes behind an address.
    pub fn cpy_addr_offs(&mut self, address_name: &str, offset: Address) -> (builder: &mut Self)
        ensures
            builder@ == old(self)@.push(
                InstructionView::new(
                    Operation::CPY@,
                    AddressModeView::Absolute(
                        AddressReferenceView::with_offset(address_name@, offset),
                    ),
                ),
            ),
            *final(self) == *final(builder),
    {
        self.cpy(AddressMode::Absolute(AddressReference::with_offset(address_name, offset)))
    }

    /// Add the instruction `dec` with the given addressing mode.
    fn dec(&mut self, addressing_mode: AddressMode) -> (builder: &mut Self)
        ensures
            builder@ == old(self)@.push(InstructionView::new(Operation::DEC@, addressing_mode@)),
            *final(self) == *final(builder),
    {
        self.add_instruction(Operation::DEC, addressing_mode);
        self
    }

    /// Add `dec` on an address.
    pub fn dec_addr(&mut self, address_name: &str) -> (builder: &mut Self)
        ensures
            builder@ == old(self)@.push(
                InstructionView::new(
                    Operation::DEC@,
                    AddressModeView::Absolute(AddressReferenceView::new(address_name@)),
                ),
            ),
            *final(self) == *final(builder),
    {
        self.dec(AddressMode::Absolute(AddressReference::new(address_name)))
    }

    /// Add `dec` on the address `offset` bytes behind an address.
    pub fn dec_addr_offs(&mut self, address_name: &str, offset: Address) -> (builder: &mut Self)
        ensures
            builder@ == old(self)@.push(
                InstructionView::new(
                    Operation::DEC@,
                    AddressModeView::Absolute(
                        AddressReferenceView::with_offset(address_name@, offset),
                    ),
                ),
            ),
            *final(self) == *final(builder),
    {
        self.dec(AddressMode::Absolute(AddressReference::with_offset(address_name, offset)))
    }

    /// Add `dec` on an address that is indexed by X.
    pub fn dec_addr_x(&mut self, address_name: &str) -> (builder: &mut Self)
        ensures
            builder@ == old(self)@.push(
                InstructionView::new(
                    Operation::DEC@,
                    AddressModeView::AbsoluteX(AddressReferenceView::new(address_name@)),
                ),
            ),
            *final(self) == *final(builder),
    {
        self.dec(AddressMode::AbsoluteX(AddressReference::new(address_name)))
    }

    /// Add the instruction `dex`.
    pub fn dex(&mut self) -> (builder: &mut Self)
        ensures
            builder@ == old(self)@.push(
                InstructionView::new(Operation::DEX@, AddressModeView::Implied),
            ),
            *final(self) == *final(builder),
    {
        self.add_instruction(Operation::DEX, AddressMode::Implied);
        self
    }

    /// Add the instruction `dey`.
    pub fn dey(&mut self) -> (builder: &mut Self)
        ensures
            builder@ == old(self)@.push(
                InstructionView::new(Operation::DEY@, AddressModeView::Implied),
            ),
            *final(self) == *final(builder),
    {
        self.add_instruction(Operation::DEY, AddressMode::Implied);
        self
    }

    /// Add the instruction `eor` with the given addressing mode.
    fn eor(&mut self, addressing_mode: AddressMode) -> (builder: &mut Self)
        ensures
            builder@ == old(self)@.push(InstructionView::new(Operation::EOR@, addressing_mode@)),
            *final(self) == *final(builder),
    {
        self.add_instruction(Operation::EOR, addressing_mode);
        self
    }

    /// Add `eor` with a byte as operand.
    pub fn eor_imm(&mut self, byte: u8) -> (builder: &mut Self)
        ensures
            builder@ == old(self)@.push(
                InstructionView::new(
                    Operation::EOR@,
                    AddressModeView::Immediate(ImmediateView::Byte(byte)),
                ),
            ),
            *final(self) == *final(builder),
    {
        self.eor(AddressMode::Immediate(Immediate::Byte(byte)))
    }

    /// Add `eor` with the low byte of an address as operand.
    pub fn eor_imm_low(&mut self, address_name: &str) -> (builder: &mut Self)
        ensures
            builder@ == old(self)@.push(
                InstructionView::new(
                    Operation::EOR@,
                    AddressModeView::Immediate(
                        ImmediateView::Low(AddressReferenceView::new(address_name@)),
                    ),
                ),
            ),
            *final(self) == *final(builder),
    {
        self.eor(AddressMode::Immediate(Immediate::Low(AddressReference::new(address_name))))
    }

    /// Add `eor` with the high byte of an address as operand.
    pub fn eor_imm_high(&mut self, address_name: &str) -> (builder: &mut Self)
        ensures
            builder@ == old(self)@.push(
                InstructionView::new(
                    Operation::EOR@,
                    AddressModeView::Immediate(
                        ImmediateView::High(AddressReferenceView::new(address_name@)),
                    ),
                ),
            ),
            *final(self) == *final(builder),
    {
        self.eor(AddressMode::Immediate(Immediate::High(AddressReference::new(address_name))))
    }

    /// Add `eor` on an address.
    pub fn eor_addr(&mut self, address_name: &str) -> (builder: &mut Self)
        ensures
            builder@ == old(self)@.push(
                InstructionView::new(
                    Operation::EOR@,
                    AddressModeView::Absolute(AddressReferenceView::new(address_name@)),
                ),
            ),
            *final(self) == *final(builder),
    {
        self.eor(AddressMode::Absolute(AddressReference::new(address_name)))
    }

    /// Add `eor` on the address `offset` bytes behind an address.
    pub fn eor_addr_offs(&mut self, address_name: &str, offset: Address) -> (builder: &mut Self)
        ensures
            builder@ == old(self)@.push(
                InstructionView::new(
                    Operation::EOR@,
                    AddressModeView::Absolute(
                        AddressReferenceView::with_offset(address_name@, offset),
                    ),
                ),
            ),
            *final(self) == *final(builder),
    {
        self.eor(AddressMode::Absolute(AddressReference::with_offset(address_name, offset)))
    }

    /// Add `eor` on an address that is indexed by X.
    pub fn eor_addr_x(&mut self, address_name: &str) -> (builder: &mut Self)
        ensures
            builder@ == old(self)@.push(
                InstructionView::new(
                    Operation::EOR@,
                    AddressModeView::AbsoluteX(AddressReferenceView::new(address_name@)),
                ),
            ),
            *final(self) == *final(builder),
    {
        self.eor(AddressMode::AbsoluteX(AddressReference::new(address_name)))
    }

    /// Add `eor` on an address that is indexed by Y.
    pub fn eor_addr_y(&mut self, address_name: &str) -> (builder: &mut Self)
        ensures
            builder@ == old(self)@.push(
                InstructionView::new(
                    Operation::EOR@,
                    AddressModeView::AbsoluteY(AddressReferenceView::new(address_name@)),
                ),
            ),
            *final(self) == *final(builder),
    {
        self.eor(AddressMode::AbsoluteY(AddressReference::new(address_name)))
    }

    /// Add `eor` on the address that is stored at an address of the zero page,
    /// which is indexed by X.
    pub fn eor_ind_x(&mut self, address_name: &str) -> (builder: &mut Self)
        ensures
            builder@ == old(self)@.push(
                InstructionView::new(
                    Operation::EOR@,
                    AddressModeView::IndexedIndirect(AddressReferenceView::new(address_name@)),
                ),
            ),
            *final(self) == *final(builder),
    {
        self.eor(AddressMode::IndexedIndirect(AddressReference::new(address_name)))
    }

    /// Add `eor` on the address that is stored at an address of the zero page,
    /// indexed by Y.
    pub fn eor_ind_y(&mut self, address_name: &str) -> (builder: &mut Self)
        ensures
            builder@ == old(self)@.push(
                InstructionView::new(
                    Operation::EOR@,
                    AddressModeView::IndirectIndexed(AddressReferenceView::new(address_name@)),
                ),
            ),
            *final(self) == *final(builder),
    {
        self.eor(AddressMode::IndirectIndexed(AddressReference::new(address_name)))
    }

    /// Add the instruction `inc` with the given addressing mode.
    fn inc(&mut self, addressing_mode: AddressMode) -> (builder: &mut Self)
        ensures
            builder@ == old(self)@.push(InstructionView::new(Operation::INC@, addressing_mode@)),
            *final(self) == *final(builder),
    {
        self.add_instruction(Operation::INC, addressing_mode);
        self
    }

    /// Add `inc` on an address.
    pub fn inc_addr(&mut self, address_name: &str) -> (builder: &mut Self)
        ensures
            builder@ == old(self)@.push(
                InstructionView::new(
                    Operation::INC@,
                    AddressModeView::Absolute(AddressReferenceView::new(address_name@)),
                ),
            ),
            *final(self) == *final(builder),
    {
        self.inc(AddressMode::Absolute(AddressReference::new(address_name)))
    }

    /// Add `inc` on the address `offset` bytes behind an address.
    pub fn inc_addr_offs(&mut self, address_name: &str, offset: Address) -> (builder: &mut Self)
        ensures
            builder@ == old(self)@.push(
                InstructionView::new(
                    Operation::INC@,
                    AddressModeView::Absolute(
                        AddressReferenceView::with_offset(address_name@, offset),
                    ),
                ),
            ),
            *final(self) == *final(builder),
    {
        self.inc(AddressMode::Absolute(AddressReference::with_offset(address_name, offset)))
    }

    /// Add `inc` on an address that is indexed by X.
    pub fn inc_addr_x(&mut self, address_name: &str) -> (builder: &mut Self)
        ensures
            builder@ == old(self)@.push(
                InstructionView::new(
                    Operation::INC@,
                    AddressModeView::AbsoluteX(AddressReferenceView::new(address_name@)),
                ),
            ),
            *final(self) == *final(builder),
    {
        self.inc(AddressMode::AbsoluteX(AddressReference::new(address_name)))
    }

    /// Add the instruction `inx`.
    pub fn inx(&mut self) -> (builder: &mut Self)
        ensures
            builder@ == old(self)@.push(
                InstructionView::new(Operation::INX@, AddressModeView::Implied),
            ),
            *final(self) == *final(builder),
    {
        self.add_instruction(Operation::INX, AddressMode::Implied);
        self
    }

    /// Add the instruction `iny`.
    pub fn iny(&mut self) -> (builder: &mut Self)
        ensures
            builder@ == old(self)@.push(
                InstructionView::new(Operation::INY@, AddressModeView::Implied),
            ),
            *final(self) == *final(builder),
    {
        self.add_instruction(Operation::INY, AddressMode::Implied);
        self
    }

    /// Add the instruction `jmp` with the given addressing mode.
    fn jmp(&mut self, addressing_mode: AddressMode) -> (builder: &mut Self)
        ensures
            builder@ == old(self)@.push(InstructionView::new(Operation::JMP@, addressing_mode@)),
            *final(self) == *final(builder),
    {
        self.add_instruction(Operation::JMP, addressing_mode);
        self
    }

    /// Add `jmp` on an address.
    pub fn jmp_addr(&mut self, address_name: &str) -> (builder: &mut Self)
        ensures
            builder@ == old(self)@.push(
                InstructionView::new(
                    Operation::JMP@,
                    AddressModeView::Absolute(AddressReferenceView::new(address_name@)),
                ),
            ),
            *final(self) == *final(builder),
    {
        self.jmp(AddressMode::Absolute(AddressReference::new(address_name)))
    }

    /// Add `jmp` on the address `offset` bytes behind an address.
    pub fn jmp_addr_offs(&mut self, address_name: &str, offset: Address) -> (builder: &mut Self)
        ensures
            builder@ == old(self)@.push(
                InstructionView::new(
                    Operation::JMP@,
                    AddressModeView::Absolute(
                        AddressReferenceView::with_offset(address_name@, offset),
                    ),
                ),
            ),
            *final(self) == *final(builder),
    {
        self.jmp(AddressMode::Absolute(AddressReference::with_offset(address_name, offset)))
    }

    /// Add `jmp` on the address that is stored at an address.
    pub fn jmp_ind(&mut self, address_name: &str) -> (builder: &mut Self)
        ensures
            builder@ == old(self)@.push(
                InstructionView::new(
                    Operation::JMP@,
                    AddressModeView::Indirect(AddressReferenceView::new(address_name@)),
                ),
            ),
            *final(self) == *final(builder),
    {
        self.jmp(AddressMode::Indirect(AddressReference::new(address_name)))
    }

    /// Add the instruction `jsr` with the given addressing mode.
    fn jsr(&mut self, addressing_mode: AddressMode) -> (builder: &mut Self)
        ensures
            builder@ == old(self)@.push(InstructionView::new(Operation::JSR@, addressing_mode@)),
            *final(self) == *final(builder),
    {
        self.add_instruction(Operation::JSR, addressing_mode);
        self
    }

    /// Add `jsr` on an address.
    pub fn jsr_addr(&mut self, address_name: &str) -> (builder: &mut Self)
        ensures
            builder@ == old(self)@.push(
                InstructionView::new(
                    Operation::JSR@,
                    AddressModeView::Absolute(AddressReferenceView::new(address_name@)),
                ),
            ),
            *final(self) == *final(builder),
    {
        self.jsr(AddressMode::Absolute(AddressReference::new(address_name)))
    }

    /// Add `jsr` on the address `offset` bytes behind an address.
    pub fn jsr_addr_offs(&mut self, address_name: &str, offset: Address) -> (builder: &mut Self)
        ensures
            builder@ == old(self)@.push(
                InstructionView::new(
                    Operation::JSR@,
                    AddressModeView::Absolute(
                        AddressReferenceView::with_offset(address_name@, offset),
                    ),
                ),
            ),
            *final(self) == *final(builder),
    {
        self.jsr(AddressMode::Absolute(AddressReference::with_offset(address_name, offset)))
    }

    /// Add the instruction `lda` with the given addressing mode.
    fn lda(&mut self, addressing_mode: AddressMode) -> (builder: &mut Self)
        ensures
            builder@ == old(self)@.push(InstructionView::new(Operation::LDA@, addressing_mode@)),
            *final(self) == *final(builder),
    {
        self.add_instruction(Operation::LDA, addressing_mode);
        self
    }

    /// Add `lda` with a byte as operand.
    pub fn lda_imm(&mut self, byte: u8) -> (builder: &mut Self)
        ensures
            builder@ == old(self)@.push(
                InstructionView::new(
                    Operation::LDA@,
                    AddressModeView::Immediate(ImmediateView::Byte(byte)),
                ),
            ),
            *final(self) == *final(builder),
    {
        self.lda(AddressMode::Immediate(Immediate::Byte(byte)))
    }

    /// Add `lda` with the low byte of an address as operand.
    pub fn lda_imm_low(&mut self, address_name: &str) -> (builder: &mut Self)
        ensures
            builder@ == old(self)@.push(
                InstructionView::new(
                    Operation::LDA@,
                    AddressModeView::Immediate(
                        ImmediateView::Low(AddressReferenceView::new(address_name@)),
                    ),
                ),
            ),
            *final(self) == *final(builder),
    {
        self.lda(AddressMode::Immediate(Immediate::Low(AddressReference::new(address_name))))
    }

    /// Add `lda` with the high byte of an address as operand.
    pub fn lda_imm_high(&mut self, address_name: &str) -> (builder: &mut Self)
        ensures
            builder@ == old(self)@.push(
                InstructionView::new(
                    Operation::LDA@,
                    AddressModeView::Immediate(
                        ImmediateView::High(AddressReferenceView::new(address_name@)),
                    ),
                ),
            ),
            *final(self) == *final(builder),
    {
        self.lda(AddressMode::Immediate(Immediate::High(AddressReference::new(address_name))))
    }

    /// Add `lda` on an address.
    pub fn lda_addr(&mut self, address_name: &str) -> (builder: &mut Self)
        ensures
            builder@ == old(self)@.push(
                InstructionView::new(
                    Operation::LDA@,
                    AddressModeView::Absolute(AddressReferenceView::new(address_name@)),
                ),
            ),
            *final(self) == *final(builder),
    {
        self.lda(AddressMode::Absolute(AddressReference::new(address_name)))
    }

    /// Add `lda` on the address `offset` bytes behind an address.
    pub fn lda_addr_offs(&mut self, address_name: &str, offset: Address) -> (builder: &mut Self)
        ensures
            builder@ == old(self)@.push(
                InstructionView::new(
                    Operation::LDA@,
                    AddressModeView::Absolute(
                        AddressReferenceView::with_offset(address_name@, offset),
                    ),
                ),
            ),
            *final(self) == *final(builder),
    {
        self.lda(AddressMode::Absolute(AddressReference::with_offset(address_name, offset)))
    }

    /// Add `lda` on an address that is indexed by X.
    pub fn lda_addr_x(&mut self, address_name: &str) -> (builder: &mut Self)
        ensures
            builder@ == old(self)@.push(
                InstructionView::new(
                    Operation::LDA@,
                    AddressModeView::AbsoluteX(AddressReferenceView::new(address_name@)),
                ),
            ),
            *final(self) == *final(builder),
    {
        self.lda(AddressMode::AbsoluteX(AddressReference::new(address_name)))
    }

    /// Add `lda` on an address that is indexed by Y.
    pub fn lda_addr_y(&mut self, address_name: &str) -> (builder: &mut Self)
        ensures
            builder@ == old(self)@.push(
                InstructionView::new(
                    Operation::LDA@,
                    AddressModeView::AbsoluteY(AddressReferenceView::new(address_name@)),
                ),
            ),
            *final(self) == *final(builder),
    {
        self.lda(AddressMode::AbsoluteY(AddressReference::new(address_name)))
    }

    /// Add `lda` on the address that is stored at an address of the zero page,
    /// which is indexed by X.
    pub fn lda_ind_x(&mut self, address_name: &str) -> (builder: &mut Self)
        ensures
            builder@ == old(self)@.push(
                InstructionView::new(
                    Operation::LDA@,
                    AddressModeView::IndexedIndirect(AddressReferenceView::new(address_name@)),
                ),
            ),
            *final(self) == *final(builder),
    {
        self.lda(AddressMode::IndexedIndirect(AddressReference::new(address_name)))
    }

    /// Add `lda` on the address that is stored at an address of the zero page,
    /// indexed by Y.
    pub fn lda_ind_y(&mut self, address_name: &str) -> (builder: &mut Self)
        ensures
            builder@ == old(self)@.push(
                InstructionView::new(
                    Operation::LDA@,
                    AddressModeView::IndirectIndexed(AddressReferenceView::new(address_name@)),
                ),
            ),
            *final(self) == *final(builder),
    {
        self.lda(AddressMode::IndirectIndexed(AddressReference::new(address_name)))
    }

    /// Add the instruction `ldx` with the given addressing mode.
    fn ldx(&mut self, addressing_mode: AddressMode) -> (builder: &mut Self)
        ensures
            builder@ == old(self)@.push(InstructionView::new(Operation::LDX@, addressing_mode@)),
            *final(self) == *final(builder),
    {
        self.add_instruction(Operation::LDX, addressing_mode);
        self
    }

    /// Add `ldx` with a byte as operand.
    pub fn ldx_imm(&mut self, byte: u8) -> (builder: &mut Self)
        ensures
            builder@ == old(self)@.push(
                InstructionView::new(
                    Operation::LDX@,
                    AddressModeView::Immediate(ImmediateView::Byte(byte)),
                ),
            ),
            *final(self) == *final(builder),
    {
        self.ldx(AddressMode::Immediate(Immediate::Byte(byte)))
    }

    /// Add `ldx` with the low byte of an address as operand.
    pub fn ldx_imm_low(&mut self, address_name: &str) -> (builder: &mut Self)
        ensures
            builder@ == old(self)@.push(
                InstructionView::new(
                    Operation::LDX@,
                    AddressModeView::Immediate(
                        ImmediateView::Low(AddressReferenceView::new(address_name@)),
                    ),
                ),
            ),
            *final(self) == *final(builder),
    {
        self.ldx(AddressMode::Immediate(Immediate::Low(AddressReference::new(address_name))))
    }

    /// Add `ldx` with the high byte of an address as operand.
    pub fn ldx_imm_high(&mut self, address_name: &str) -> (builder: &mut Self)
        ensures
            builder@ == old(self)@.push(
                InstructionView::new(
                    Operation::LDX@,
                    AddressModeView::Immediate(
                        ImmediateView::High(AddressReferenceView::new(address_name@)),
                    ),
                ),
            ),
            *final(self) == *final(builder),
    {
        self.ldx(AddressMode::Immediate(Immediate::High(AddressReference::new(address_name))))
    }

    /// Add `ldx` on an address.
    pub fn ldx_addr(&mut self, address_name: &str) -> (builder: &mut Self)
        ensures
            builder@ == old(self)@.push(
                InstructionView::new(
                    Operation::LDX@,
                    AddressModeView::Absolute(AddressReferenceView::new(address_name@)),
                ),
            ),
            *final(self) == *final(builder),
    {
        self.ldx(AddressMode::Absolute(AddressReference::new(address_name)))
    }

    /// Add `ldx` on the address `offset` bytes behind an address.
    pub fn ldx_addr_offs(&mut self, address_name: &str, offset: Address) -> (builder: &mut Self)
        ensures
            builder@ == old(self)@.push(
                InstructionView::new(
                    Operation::LDX@,
                    AddressModeView::Absolute(
                        AddressReferenceView::with_offset(address_name@, offset),
                    ),
                ),
            ),
            *final(self) == *final(builder),
    {
        self.ldx(AddressMode::Absolute(AddressReference::with_offset(address_name, offset)))
    }

    /// Add `ldx` on an address that is indexed by Y.
    pub fn ldx_addr_y(&mut self, address_name: &str) -> (builder: &mut Self)
        ensures
            builder@ == old(self)@.push(
                InstructionView::new(
                    Operation::LDX@,
                    AddressModeView::AbsoluteY(AddressReferenceView::new(address_name@)),
                ),
            ),
            *final(self) == *final(builder),
    {
        self.ldx(AddressMode::AbsoluteY(AddressReference::new(address_name)))
    }

    /// Add the instruction `ldy` with the given addressing mode.
    fn ldy(&mut self, addressing_mode: AddressMode) -> (builder: &mut Self)
        ensures
            builder@ == old(self)@.push(InstructionView::new(Operation::LDY@, addressing_mode@)),
            *final(self) == *final(builder),
    {
        self.add_instruction(Operation::LDY, addressing_mode);
        self
    }

    /// Add `ldy` with a byte as operand.
    pub fn ldy_imm(&mut self, byte: u8) -> (builder: &mut Self)
        ensures
            builder@ == old(self)@.push(
                InstructionView::new(
                    Operation::LDY@,
                    AddressModeView::Immediate(ImmediateView::Byte(byte)),
                ),
            ),
            *final(self) == *final(builder),
    {
        self.ldy(AddressMode::Immediate(Immediate::Byte(byte)))
    }

    /// Add `ldy` with the low byte of an address as operand.
    pub fn ldy_imm_low(&mut self, address_name: &str) -> (builder: &mut Self)
        ensures
            builder@ == old(self)@.push(
                InstructionView::new(
                    Operation::LDY@,
                    AddressModeView::Immediate(
                        ImmediateView::Low(AddressReferenceView::new(address_name@)),
                    ),
                ),
            ),
            *final(self) == *final(builder),
    {
        self.ldy(AddressMode::Immediate(Immediate::Low(AddressReference::new(address_name))))
    }

    /// Add `ldy` with the high byte of an address as operand.
    pub fn ldy_imm_high(&mut self, address_name: &str) -> (builder: &mut Self)
        ensures
            builder@ == old(self)@.push(
                InstructionView::new(
                    Operation::LDY@,
                    AddressModeView::Immediate(
                        ImmediateView::High(AddressReferenceView::new(address_name@)),
                    ),
                ),
            ),
            *final(self) == *final(builder),
    {
        self.ldy(AddressMode::Immediate(Immediate::High(AddressReference::new(address_name))))
    }

    /// Add `ldy` on an address.
    pub fn ldy_addr(&mut self, address_name: &str) -> (builder: &mut Self)
        ensures
            builder@ == old(self)@.push(
                InstructionView::new(
                    Operation::LDY@,
                    AddressModeView::Absolute(AddressReferenceView::new(address_name@)),
                ),
            ),
            *final(self) == *final(builder),
    {
        self.ldy(AddressMode::Absolute(AddressReference::new(address_name)))
    }

    /// Add `ldy` on the address `offset` bytes behind an address.
    pub fn ldy_addr_offs(&mut self, address_name: &str, offset: Address) -> (builder: &mut Self)
        ensures
            builder@ == old(self)@.push(
                InstructionView::new(
                    Operation::LDY@,
                    AddressModeView::Absolute(
                        AddressReferenceView::with_offset(address_name@, offset),
                    ),
                ),
            ),
            *final(self) == *final(builder),
    {
        self.ldy(AddressMode::Absolute(AddressReference::with_offset(address_name, offset)))
    }

    /// Add `ldy` on an address that is indexed by X.
    pub fn ldy_addr_x(&mut self, address_name: &str) -> (builder: &mut Self)
        ensures
            builder@ == old(self)@.push(
                InstructionView::new(
                    Operation::LDY@,
                    AddressModeView::AbsoluteX(AddressReferenceView::new(address_name@)),
                ),
            ),
            *final(self) == *final(builder),
    {
        self.ldy(AddressMode::AbsoluteX(AddressReference::new(address_name)))
    }

    /// Add the instruction `lsr` with the given addressing mode.
    fn lsr(&mut self, addressing_mode: AddressMode) -> (builder: &mut Self)
        ensures
            builder@ == old(self)@.push(InstructionView::new(Operation::LSR@, addressing_mode@)),
            *final(self) == *final(builder),
    {
        self.add_instruction(Operation::LSR, addressing_mode);
        self
    }

    /// Add `lsr` on the accumulator.
    pub fn lsr_acc(&mut self) -> (builder: &mut Self)
        ensures
            builder@ == old(self)@.push(
                InstructionView::new(
                    Operation::LSR@,
                    AddressModeView::Accumulator,
                ),
            ),
            *final(self) == *final(builder),
    {
        self.lsr(AddressMode::Accumulator)
    }

    /// Add `lsr` on an address.
    pub fn lsr_addr(&mut self, address_name: &str) -> (builder: &mut Self)
        ensures
            builder@ == old(self)@.push(
                InstructionView::new(
                    Operation::LSR@,
                    AddressModeView::Absolute(AddressReferenceView::new(address_name@)),
                ),
            ),
            *final(self) == *final(builder),
    {
        self.lsr(AddressMode::Absolute(AddressReference::new(address_name)))
    }

    /// Add `lsr` on the address `offset` bytes behind an address.
    pub fn lsr_addr_offs(&mut self, address_name: &str, offset: Address) -> (builder: &mut Self)
        ensures
            builder@ == old(self)@.push(
                InstructionView::new(
                    Operation::LSR@,
                    AddressModeView::Absolute(
                        AddressReferenceView::with_offset(address_name@, offset),
                    ),
                ),
            ),
            *final(self) == *final(builder),
    {
        self.lsr(AddressMode::Absolute(AddressReference::with_offset(address_name, offset)))
    }

    /// Add `lsr` on an address that is indexed by X.
    pub fn lsr_addr_x(&mut self, address_name: &str) -> (builder: &mut Self)
        ensures
            builder@ == old(self)@.push(
                InstructionView::new(
                    Operation::LSR@,
                    AddressModeView::AbsoluteX(AddressReferenceView::new(address_name@)),
                ),
            ),
            *final(self) == *final(builder),
    {
        self.lsr(AddressMode::AbsoluteX(AddressReference::new(address_name)))
    }

    /// Add the instruction `nop`.
    pub fn nop(&mut self) -> (builder: &mut Self)
        ensures
            builder@ == old(self)@.push(
                InstructionView::new(Operation::NOP@, AddressModeView::Implied),
            ),
            *final(self) == *final(builder),
    {
        self.add_instruction(Operation::NOP, AddressMode::Implied);
        self
    }

    /// Add the instruction `ora` with the given addressing mode.
    fn ora(&mut self, addressing_mode: AddressMode) -> (builder: &mut Self)
        ensures
            builder@ == old(self)@.push(InstructionView::new(Operation::ORA@, addressing_mode@)),
            *final(self) == *final(builder),
    {
        self.add_instruction(Operation::ORA, addressing_mode);
        self
    }

    /// Add `ora` with a byte as operand.
    pub fn ora_imm(&mut self, byte: u8) -> (builder: &mut Self)
        ensures
            builder@ == old(self)@.push(
                InstructionView::new(
                    Operation::ORA@,
                    AddressModeView::Immediate(ImmediateView::Byte(byte)),
                ),
            ),
            *final(self) == *final(builder),
    {
        self.ora(AddressMode::Immediate(Immediate::Byte(byte)))
    }

    /// Add `ora` with the low byte of an address as operand.
    pub fn ora_imm_low(&mut self, address_name: &str) -> (builder: &mut Self)
        ensures
            builder@ == old(self)@.push(
                InstructionView::new(
                    Operation::ORA@,
                    AddressModeView::Immediate(
                        ImmediateView::Low(AddressReferenceView::new(address_name@)),
                    ),
                ),
            ),
            *final(self) == *final(builder),
    {
        self.ora(AddressMode::Immediate(Immediate::Low(AddressReference::new(address_name))))
    }

    /// Add `ora` with the high byte of an address as operand.
    pub fn ora_imm_high(&mut self, address_name: &str) -> (builder: &mut Self)
        ensures
            builder@ == old(self)@.push(
                InstructionView::new(
                    Operation::ORA@,
                    AddressModeView::Immediate(
                        ImmediateView::High(AddressReferenceView::new(address_name@)),
                    ),
                ),
            ),
            *final(self) == *final(builder),
    {
        self.ora(AddressMode::Immediate(Immediate::High(AddressReference::new(address_name))))
    }

    /// Add `ora` on an address.
    pub fn ora_addr(&mut self, address_name: &str) -> (builder: &mut Self)
        ensures
            builder@ == old(self)@.push(
                InstructionView::new(
                    Operation::ORA@,
                    AddressModeView::Absolute(AddressReferenceView::new(address_name@)),
                ),
            ),
            *final(self) == *final(builder),
    {
        self.ora(AddressMode::Absolute(AddressReference::new(address_name)))
    }

    /// Add `ora` on the address `offset` bytes behind an address.
    pub fn ora_addr_offs(&mut self, address_name: &str, offset: Address) -> (builder: &mut Self)
        ensures
            builder@ == old(self)@.push(
                InstructionView::new(
                    Operation::ORA@,
                    AddressModeView::Absolute(
                        AddressReferenceView::with_offset(address_name@, offset),
                    ),
                ),
            ),
            *final(self) == *final(builder),
    {
        self.ora(AddressMode::Absolute(AddressReference::with_offset(address_name, offset)))
    }

    /// Add `ora` on an address that is indexed by X.
    pub fn ora_addr_x(&mut self, address_name: &str) -> (builder: &mut Self)
        ensures
            builder@ == old(self)@.push(
                InstructionView::new(
                    Operation::ORA@,
                    AddressModeView::AbsoluteX(AddressReferenceView::new(address_name@)),
                ),
            ),
            *final(self) == *final(builder),
    {
        self.ora(AddressMode::AbsoluteX(AddressReference::new(address_name)))
    }

    /// Add `ora` on an address that is indexed by Y.
    pub fn ora_addr_y(&mut self, address_name: &str) -> (builder: &mut Self)
        ensures
            builder@ == old(self)@.push(
                InstructionView::new(
                    Operation::ORA@,
                    AddressModeView::AbsoluteY(AddressReferenceView::new(address_name@)),
                ),
            ),
            *final(self) == *final(builder),
    {
        self.ora(AddressMode::AbsoluteY(AddressReference::new(address_name)))
    }

    /// Add `ora` on the address that is stored at an address of the zero page,
    /// which is indexed by X.
    pub fn ora_ind_x(&mut self, address_name: &str) -> (builder: &mut Self)
        ensures
            builder@ == old(self)@.push(
                InstructionView::new(
                    Operation::ORA@,
                    AddressModeView::IndexedIndirect(AddressReferenceView::new(address_name@)),
                ),
            ),
            *final(self) == *final(builder),
    {
        self.ora(AddressMode::IndexedIndirect(AddressReference::new(address_name)))
    }

    /// Add `ora` on the address that is stored at an address of the zero page,
    /// indexed by Y.
    pub fn ora_ind_y(&mut self, address_name: &str) -> (builder: &mut Self)
        ensures
            builder@ == old(self)@.push(
                InstructionView::new(
                    Operation::ORA@,
                    AddressModeView::IndirectIndexed(AddressReferenceView::new(address_name@)),
                ),
            ),
            *final(self) == *final(builder),
    {
        self.ora(AddressMode::IndirectIndexed(AddressReference::new(address_name)))
    }

    /// Add the instruction `pha`.
    pub fn pha(&mut self) -> (builder: &mut Self)
        ensures
            builder@ == old(self)@.push(
                InstructionView::new(Operation::PHA@, AddressModeView::Implied),
            ),
            *final(self) == *final(builder),
    {
        self.add_instruction(Operation::PHA, AddressMode::Implied);
        self
    }

    /// Add the instruction `php`.
    pub fn php(&mut self) -> (builder: &mut Self)
        ensures
            builder@ == old(self)@.push(
                InstructionView::new(Operation::PHP@, AddressModeView::Implied),
            ),
            *final(self) == *final(builder),
    {
        self.add_instruction(Operation::PHP, AddressMode::Implied);
        self
    }

    /// Add the instruction `pla`.
    pub fn pla(&mut self) -> (builder: &mut Self)
        ensures
            builder@ == old(self)@.push(
                InstructionView::new(Operation::PLA@, AddressModeView::Implied),
            ),
            *final(self) == *final(builder),
    {
        self.add_instruction(Operation::PLA, AddressMode::Implied);
        self
    }

    /// Add the instruction `plp`.
    pub fn plp(&mut self) -> (builder: &mut Self)
        ensures
            builder@ == old(self)@.push(
                InstructionView::new(Operation::PLP@, AddressModeView::Implied),
            ),
            *final(self) == *final(builder),
    {
        self.add_instruction(Operation::PLP, AddressMode::Implied);
        self
    }

    /// Add the instruction `rol` with the given addressing mode.
    fn rol(&mut self, addressing_mode: AddressMode) -> (builder: &mut Self)
        ensures
            builder@ == old(self)@.push(InstructionView::new(Operation::ROL@, addressing_mode@)),
            *final(self) == *final(builder),
    {
        self.add_instruction(Operation::ROL, addressing_mode);
        self
    }

    /// Add `rol` on the accumulator.
    pub fn rol_acc(&mut self) -> (builder: &mut Self)
        ensures
            builder@ == old(self)@.push(
                InstructionView::new(
                    Operation::ROL@,
                    AddressModeView::Accumulator,
                ),
            ),
            *final(self) == *final(builder),
    {
        self.rol(AddressMode::Accumulator)
    }

    /// Add `rol` on an address.
    pub fn rol_addr(&mut self, address_name: &str) -> (builder: &mut Self)
        ensures
            builder@ == old(self)@.push(
                InstructionView::new(
                    Operation::ROL@,
                    AddressModeView::Absolute(AddressReferenceView::new(address_name@)),
                ),
            ),
            *final(self) == *final(builder),
    {
        self.rol(AddressMode::Absolute(AddressReference::new(address_name)))
    }

    /// Add `rol` on the address `offset` bytes behind an address.
    pub fn rol_addr_offs(&mut self, address_name: &str, offset: Address) -> (builder: &mut Self)
        ensures
            builder@ == old(self)@.push(
                InstructionView::new(
                    Operation::ROL@,
                    AddressModeView::Absolute(
                        AddressReferenceView::with_offset(address_name@, offset),
                    ),
                ),
            ),
            *final(self) == *final(builder),
    {
        self.rol(AddressMode::Absolute(AddressReference::with_offset(address_name, offset)))
    }

    /// Add `rol` on an address that is indexed by X.
    pub fn rol_addr_x(&mut self, address_name: &str) -> (builder: &mut Self)
        ensures
            builder@ == old(self)@.push(
                InstructionView::new(
                    Operation::ROL@,
                    AddressModeView::AbsoluteX(AddressReferenceView::new(address_name@)),
                ),
            ),
            *final(self) == *final(builder),
    {
        self.rol(AddressMode::AbsoluteX(AddressReference::new(address_name)))
    }

    /// Add the instruction `ror` with the given addressing mode.
    fn ror(&mut self, addressing_mode: AddressMode) -> (builder: &mut Self)
        ensures
            builder@ == old(self)@.push(InstructionView::new(Operation::ROR@, addressing_mode@)),
            *final(self) == *final(builder),
    {
        self.add_instruction(Operation::ROR, addressing_mode);
        self
    }

    /// Add `ror` on the accumulator.
    pub fn ror_acc(&mut self) -> (builder: &mut Self)
        ensures
            builder@ == old(self)@.push(
                InstructionView::new(
                    Operation::ROR@,
                    AddressModeView::Accumulator,
                ),
            ),
            *final(self) == *final(builder),
    {
        self.ror(AddressMode::Accumulator)
    }

    /// Add `ror` on an address.
    pub fn ror_addr(&mut self, address_name: &str) -> (builder: &mut Self)
        ensures
            builder@ == old(self)@.push(
                InstructionView::new(
                    Operation::ROR@,
                    AddressModeView::Absolute(AddressReferenceView::new(address_name@)),
                ),
            ),
            *final(self) == *final(builder),
    {
        self.ror(AddressMode::Absolute(AddressReference::new(address_name)))
    }

    /// Add `ror` on the address `offset` bytes behind an address.
    pub fn ror_addr_offs(&mut self, address_name: &str, offset: Address) -> (builder: &mut Self)
        ensures
            builder@ == old(self)@.push(
                InstructionView::new(
                    Operation::ROR@,
                    AddressModeView::Absolute(
                        AddressReferenceView::with_offset(address_name@, offset),
                    ),
                ),
            ),
            *final(self) == *final(builder),
    {
        self.ror(AddressMode::Absolute(AddressReference::with_offset(address_name, offset)))
    }

    /// Add `ror` on an address that is indexed by X.
    pub fn ror_addr_x(&mut self, address_name: &str) -> (builder: &mut Self)
        ensures
            builder@ == old(self)@.push(
                InstructionView::new(
                    Operation::ROR@,
                    AddressModeView::AbsoluteX(AddressReferenceView::new(address_name@)),
                ),
            ),
            *final(self) == *final(builder),
    {
        self.ror(AddressMode::AbsoluteX(AddressReference::new(address_name)))
    }

    /// Add the instruction `rti`.
    pub fn rti(&mut self) -> (builder: &mut Self)
        ensures
            builder@ == old(self)@.push(
                InstructionView::new(Operation::RTI@, AddressModeView::Implied),
            ),
            *final(self) == *final(builder),
    {
        self.add_instruction(Operation::RTI, AddressMode::Implied);
        self
    }

    /// Add the instruction `rts`.
    pub fn rts(&mut self) -> (builder: &mut Self)
        ensures
            builder@ == old(self)@.push(
                InstructionView::new(Operation::RTS@, AddressModeView::Implied),
            ),
            *final(self) == *final(builder),
    {
        self.add_instruction(Operation::RTS, AddressMode::Implied);
        self
    }

    /// Add the instruction `sbc` with the given addressing mode.
    fn sbc(&mut self, addressing_mode: AddressMode) -> (builder: &mut Self)
        ensures
            builder@ == old(self)@.push(InstructionView::new(Operation::SBC@, addressing_mode@)),
            *final(self) == *final(builder),
    {
        self.add_instruction(Operation::SBC, addressing_mode);
        self
    }

    /// Add `sbc` with a byte as operand.
    pub fn sbc_imm(&mut self, byte: u8) -> (builder: &mut Self)
        ensures
            builder@ == old(self)@.push(
                InstructionView::new(
                    Operation::SBC@,
                    AddressModeView::Immediate(ImmediateView::Byte(byte)),
                ),
            ),
            *final(self) == *final(builder),
    {
        self.sbc(AddressMode::Immediate(Immediate::Byte(byte)))
    }

    /// Add `sbc` with the low byte of an address as operand.
    pub fn sbc_imm_low(&mut self, address_name: &str) -> (builder: &mut Self)
        ensures
            builder@ == old(self)@.push(
                InstructionView::new(
                    Operation::SBC@,
                    AddressModeView::Immediate(
                        ImmediateView::Low(AddressReferenceView::new(address_name@)),
                    ),
                ),
            ),
            *final(self) == *final(builder),
    {
        self.sbc(AddressMode::Immediate(Immediate::Low(AddressReference::new(address_name))))
    }

    /// Add `sbc` with the high byte of an address as operand.
    pub fn sbc_imm_high(&mut self, address_name: &str) -> (builder: &mut Self)
        ensures
            builder@ == old(self)@.push(
                InstructionView::new(
                    Operation::SBC@,
                    AddressModeView::Immediate(
                        ImmediateView::High(AddressReferenceView::new(address_name@)),
                    ),
                ),
            ),
            *final(self) == *final(builder),
    {
        self.sbc(AddressMode::Immediate(Immediate::High(AddressReference::new(address_name))))
    }

    /// Add `sbc` on an address.
    pub fn sbc_addr(&mut self, address_name: &str) -> (builder: &mut Self)
        ensures
            builder@ == old(self)@.push(
                InstructionView::new(
                    Operation::SBC@,
                    AddressModeView::Absolute(AddressReferenceView::new(address_name@)),
                ),
            ),
            *final(self) == *final(builder),
    {
        self.sbc(AddressMode::Absolute(AddressReference::new(address_name)))
    }

    /// Add `sbc` on the address `offset` bytes behind an address.
    pub fn sbc_addr_offs(&mut self, address_name: &str, offset: Address) -> (builder: &mut Self)
        ensures
            builder@ == old(self)@.push(
                InstructionView::new(
                    Operation::SBC@,
                    AddressModeView::Absolute(
                        AddressReferenceView::with_offset(address_name@, offset),
                    ),
                ),
            ),
            *final(self) == *final(builder),
    {
        self.sbc(AddressMode::Absolute(AddressReference::with_offset(address_name, offset)))
    }

    /// Add `sbc` on an address that is indexed by X.
    pub fn sbc_addr_x(&mut self, address_name: &str) -> (builder: &mut Self)
        ensures
            builder@ == old(self)@.push(
                InstructionView::new(
                    Operation::SBC@,
                    AddressModeView::AbsoluteX(AddressReferenceView::new(address_name@)),
                ),
            ),
            *final(self) == *final(builder),
    {
        self.sbc(AddressMode::AbsoluteX(AddressReference::new(address_name)))
    }

    /// Add `sbc` on an address that is indexed by Y.
    pub fn sbc_addr_y(&mut self, address_name: &str) -> (builder: &mut Self)
        ensures
            builder@ == old(self)@.push(
                InstructionView::new(
                    Operation::SBC@,
                    AddressModeView::AbsoluteY(AddressReferenceView::new(address_name@)),
                ),
            ),
            *final(self) == *final(builder),
    {
        self.sbc(AddressMode::AbsoluteY(AddressReference::new(address_name)))
    }

    /// Add `sbc` on the address that is stored at an address of the zero page,
    /// which is indexed by X.
    pub fn sbc_ind_x(&mut self, address_name: &str) -> (builder: &mut Self)
        ensures
            builder@ == old(self)@.push(
                InstructionView::new(
                    Operation::SBC@,
                    AddressModeView::IndexedIndirect(AddressReferenceView::new(address_name@)),
                ),
            ),
            *final(self) == *final(builder),
    {
        self.sbc(AddressMode::IndexedIndirect(AddressReference::new(address_name)))
    }

    /// Add `sbc` on the address that is stored at an address of the zero page,
    /// indexed by Y.
    pub fn sbc_ind_y(&mut self, address_name: &str) -> (builder: &mut Self)
        ensures
            builder@ == old(self)@.push(
                InstructionView::new(
                    Operation::SBC@,
                    AddressModeView::IndirectIndexed(AddressReferenceView::new(address_name@)),
                ),
            ),
            *final(self) == *final(builder),
    {
        self.sbc(AddressMode::IndirectIndexed(AddressReference::new(address_name)))
    }

    /// Add the instruction `sec`.
    pub fn sec(&mut self) -> (builder: &mut Self)
        ensures
            builder@ == old(self)@.push(
                InstructionView::new(Operation::SEC@, AddressModeView::Implied),
            ),
            *final(self) == *final(builder),
    {
        self.add_instruction(Operation::SEC, AddressMode::Implied);
        self
    }

    /// Add the instruction `sed`.
    pub fn sed(&mut self) -> (builder: &mut Self)
        ensures
            builder@ == old(self)@.push(
                InstructionView::new(Operation::SED@, AddressModeView::Implied),
            ),
            *final(self) == *final(builder),
    {
        self.add_instruction(Operation::SED, AddressMode::Implied);
        self
    }

    /// Add the instruction `sei`.
    pub fn sei(&mut self) -> (builder: &mut Self)
        ensures
            builder@ == old(self)@.push(
                InstructionView::new(Operation::SEI@, AddressModeView::Implied),
            ),
            *final(self) == *final(builder),
    {
        self.add_instruction(Operation::SEI, AddressMode::Implied);
        self
    }

    /// Add the instruction `sta` with the given addressing mode.
    fn sta(&mut self, addressing_mode: AddressMode) -> (builder: &mut Self)
        ensures
            builder@ == old(self)@.push(InstructionView::new(Operation::STA@, addressing_mode@)),
            *final(self) == *final(builder),
    {
        self.add_instruction(Operation::STA, addressing_mode);
        self
    }

    /// Add `sta` on an address.
    pub fn sta_addr(&mut self, address_name: &str) -> (builder: &mut Self)
        ensures
            builder@ == old(self)@.push(
                InstructionView::new(
                    Operation::STA@,
                    AddressModeView::Absolute(AddressReferenceView::new(address_name@)),
                ),
            ),
            *final(self) == *final(builder),
    {
        self.sta(AddressMode::Absolute(AddressReference::new(address_name)))
    }

    /// Add `sta` on the address `offset` bytes behind an address.
    pub fn sta_addr_offs(&mut self, address_name: &str, offset: Address) -> (builder: &mut Self)
        ensures
            builder@ == old(self)@.push(
                InstructionView::new(
                    Operation::STA@,
                    AddressModeView::Absolute(
                        AddressReferenceView::with_offset(address_name@, offset),
                    ),
                ),
            ),
            *final(self) == *final(builder),
    {
        self.sta(AddressMode::Absolute(AddressReference::with_offset(address_name, offset)))
    }

    /// Add `sta` on an address that is indexed by X.
    pub fn sta_addr_x(&mut self, address_name: &str) -> (builder: &mut Self)
        ensures
            builder@ == old(self)@.push(
                InstructionView::new(
                    Operation::STA@,
                    AddressModeView::AbsoluteX(AddressReferenceView::new(address_name@)),
                ),
            ),
            *final(self) == *final(builder),
    {
        self.sta(AddressMode::AbsoluteX(AddressReference::new(address_name)))
    }

    /// Add `sta` on an address that is indexed by Y.
    pub fn sta_addr_y(&mut self, address_name: &str) -> (builder: &mut Self)
        ensures
            builder@ == old(self)@.push(
                InstructionView::new(
                    Operation::STA@,
                    AddressModeView::AbsoluteY(AddressReferenceView::new(address_name@)),
                ),
            ),
            *final(self) == *final(builder),
    {
        self.sta(AddressMode::AbsoluteY(AddressReference::new(address_name)))
    }

    /// Add `sta` on the address that is stored at an address of the zero page,
    /// which is indexed by X.
    pub fn sta_ind_x(&mut self, address_name: &str) -> (builder: &mut Self)
        ensures
            builder@ == old(self)@.push(
                InstructionView::new(
                    Operation::STA@,
                    AddressModeView::IndexedIndirect(AddressReferenceView::new(address_name@)),
                ),
            ),
            *final(self) == *final(builder),
    {
        self.sta(AddressMode::IndexedIndirect(AddressReference::new(address_name)))
    }

    /// Add `sta` on the address that is stored at an address of the zero page,
    /// indexed by Y.
    pub fn sta_ind_y(&mut self, address_name: &str) -> (builder: &mut Self)
        ensures
            builder@ == old(self)@.push(
                InstructionView::new(
                    Operation::STA@,
                    AddressModeView::IndirectIndexed(AddressReferenceView::new(address_name@)),
                ),
            ),
            *final(self) == *final(builder),
    {
        self.sta(AddressMode::IndirectIndexed(AddressReference::new(address_name)))
    }

    /// Add the instruction `stx` with the given addressing mode.
    fn stx(&mut self, addressing_mode: AddressMode) -> (builder: &mut Self)
        ensures
            builder@ == old(self)@.push(InstructionView::new(Operation::STX@, addressing_mode@)),
            *final(self) == *final(builder),
    {
        self.add_instruction(Operation::STX, addressing_mode);
        self
    }

    /// Add `stx` on an address.
    pub fn stx_addr(&mut self, address_name: &str) -> (builder: &mut Self)
        ensures
            builder@ == old(self)@.push(
                InstructionView::new(
                    Operation::STX@,
                    AddressModeView::Absolute(AddressReferenceView::new(address_name@)),
                ),
            ),
            *final(self) == *final(builder),
    {
        self.stx(AddressMode::Absolute(AddressReference::new(address_name)))
    }

    /// Add `stx` on the address `offset` bytes behind an address.
    pub fn stx_addr_offs(&mut self, address_name: &str, offset: Address) -> (builder: &mut Self)
        ensures
            builder@ == old(self)@.push(
                InstructionView::new(
                    Operation::STX@,
                    AddressModeView::Absolute(
                        AddressReferenceView::with_offset(address_name@, offset),
                    ),
                ),
            ),
            *final(self) == *final(builder),
    {
        self.stx(AddressMode::Absolute(AddressReference::with_offset(address_name, offset)))
    }

    /// Add `stx` on an address that is indexed by Y.
    pub fn stx_addr_y(&mut self, address_name: &str) -> (builder: &mut Self)
        ensures
            builder@ == old(self)@.push(
                InstructionView::new(
                    Operation::STX@,
                    AddressModeView::AbsoluteY(AddressReferenceView::new(address_name@)),
                ),
            ),
            *final(self) == *final(builder),
    {
        self.stx(AddressMode::AbsoluteY(AddressReference::new(address_name)))
    }

    /// Add the instruction `sty` with the given addressing mode.
    fn sty(&mut self, addressing_mode: AddressMode) -> (builder: &mut Self)
        ensures
            builder@ == old(self)@.push(InstructionView::new(Operation::STY@, addressing_mode@)),
            *final(self) == *final(builder),
    {
        self.add_instruction(Operation::STY, addressing_mode);
        self
    }

    /// Add `sty` on an address.
    pub fn sty_addr(&mut self, address_name: &str) -> (builder: &mut Self)
        ensures
            builder@ == old(self)@.push(
                InstructionView::new(
                    Operation::STY@,
                    AddressModeView::Absolute(AddressReferenceView::new(address_name@)),
                ),
            ),
            *final(self) == *final(builder),
    {
        self.sty(AddressMode::Absolute(AddressReference::new(address_name)))
    }

    /// Add `sty` on the address `offset` bytes behind an address.
    pub fn sty_addr_offs(&mut self, address_name: &str, offset: Address) -> (builder: &mut Self)
        ensures
            builder@ == old(self)@.push(
                InstructionView::new(
                    Operation::STY@,
                    AddressModeView::Absolute(
                        AddressReferenceView::with_offset(address_name@, offset),
                    ),
                ),
            ),
            *final(self) == *final(builder),
    {
        self.sty(AddressMode::Absolute(AddressReference::with_offset(address_name, offset)))
    }

    /// Add `sty` on an address that is indexed by X.
    pub fn sty_addr_x(&mut self, address_name: &str) -> (builder: &mut Self)
        ensures
            builder@ == old(self)@.push(
                InstructionView::new(
                    Operation::STY@,
                    AddressModeView::AbsoluteX(AddressReferenceView::new(address_name@)),
                ),
            ),
            *final(self) == *final(builder),
    {
        self.sty(AddressMode::AbsoluteX(AddressReference::new(address_name)))
    }

    /// Add the instruction `tax`.
    pub fn tax(&mut self) -> (builder: &mut Self)
        ensures
            builder@ == old(self)@.push(
                InstructionView::new(Operation::TAX@, AddressModeView::Implied),
            ),
            *final(self) == *final(builder),
    {
        self.add_instruction(Operation::TAX, AddressMode::Implied);
        self
    }

    /// Add the instruction `tay`.
    pub fn tay(&mut self) -> (builder: &mut Self)
        ensures
            builder@ == old(self)@.push(
                InstructionView::new(Operation::TAY@, AddressModeView::Implied),
            ),
            *final(self) == *final(builder),
    {
        self.add_instruction(Operation::TAY, AddressMode::Implied);
        self
    }

    /// Add the instruction `tsx`.
    pub fn tsx(&mut self) -> (builder: &mut Self)
        ensures
            builder@ == old(self)@.push(
                InstructionView::new(Operation::TSX@, AddressModeView::Implied),
            ),
            *final(self) == *final(builder),
    {
        self.add_instruction(Operation::TSX, AddressMode::Implied);
        self
    }

    /// Add the instruction `txa`.
    pub fn txa(&mut self) -> (builder: &mut Self)
        ensures
            builder@ == old(self)@.push(
                InstructionView::new(Operation::TXA@, AddressModeView::Implied),
            ),
            *final(self) == *final(builder),
    {
        self.add_instruction(Operation::TXA, AddressMode::Implied);
        self
    }

    /// Add the instruction `txs`.
    pub fn txs(&mut self) -> (builder: &mut Self)
        ensures
            builder@ == old(self)@.push(
                InstructionView::new(Operation::TXS@, AddressModeView::Implied),
            ),
            *final(self) == *final(builder),
    {
        self.add_instruction(Operation::TXS, AddressMode::Implied);
        self
    }

    /// Add the instruction `tya`.
    pub fn tya(&mut self) -> (builder: &mut Self)
        ensures
            builder@ == old(self)@.push(
                InstructionView::new(Operation::TYA@, AddressModeView::Implied),
            ),
            *final(self) == *final(builder),
    {
        self.add_instruction(Operation::TYA, AddressMode::Implied);
        self
    }
}

} // verus!
