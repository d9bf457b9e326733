//! Generator for the bytes of a .PRG file: the address the program is loaded
//! at, then the machine code.
use super::Generator;
use crate::instruction::operation::{Operation, OperationView};
use crate::instruction::{Instruction, InstructionView};
use crate::isa::{isa_6502_row, no_opcode, unused_opcodes, InstructionDef, OpCode};
use crate::memory::address_mode::{AddressMode, AddressModeView, Immediate, ImmediateView};
use crate::memory::label::{AddressReference, AddressReferenceView};
use crate::memory::{
    add_offset, address_after, high_byte, low_byte, Address, AddressBook, ZeroPage,
};
use crate::validator::relative_addressing::{branch_distance, is_branch_distance};
use crate::validator::{AssemblerResult, Error, ErrorView};
use crate::{
    function_streams, lemma_function_streams_step, lemma_module_streams_step, module_streams,
    Application, ApplicationView, Instructions, Module,
};
use vstd::prelude::*;

verus! {

/// Number of bytes in front of the machine code: the address to load it at.
pub const PROGRAM_HEADER_BYTE_SIZE: Address = 2;

/// What generating machine code gives: the bytes, or the reason why there
/// are none.
pub type Encoding = Result<Seq<u8>, ErrorView>;

/// The address of the instruction whose first byte is written once the
/// output holds `length` bytes.
pub open spec fn program_counter(entry_point: Address, length: nat) -> Address {
    address_after(entry_point, length - PROGRAM_HEADER_BYTE_SIZE)
}

/// The operand of a branch instruction: the distance as a signed byte.
pub open spec fn branch_operand(distance: int) -> u8
    recommends
        is_branch_distance(distance),
{
    if distance < 0 {
        (distance + 0x100) as u8
    } else {
        distance as u8
    }
}

/// An opcode and its operand, where the opcode exists.
pub open spec fn encode_bytes(opcode: OpCode, operand: Seq<u8>) -> Encoding {
    if opcode == no_opcode() {
        Err(ErrorView::InternalCompilerError)
    } else {
        Ok(seq![opcode] + operand)
    }
}

/// An opcode and an address as operand, low byte first.
pub open spec fn encode_absolute(opcode: OpCode, address: Address) -> Encoding {
    encode_bytes(opcode, seq![low_byte(address), high_byte(address)])
}

/// An opcode and the low byte of an address as operand.
pub open spec fn encode_zeropage(opcode: OpCode, address: Address) -> Encoding {
    encode_bytes(opcode, seq![low_byte(address)])
}

/// An instruction that addresses memory absolutely. The zero page form is
/// taken if and only if the instruction has one and the address lies in
/// the zero page.
pub open spec fn encode_absolute_or_zeropage(
    absolute: OpCode,
    zeropage: OpCode,
    address: Address,
) -> Encoding {
    if zeropage != no_opcode() && address < 0x100 {
        encode_zeropage(zeropage, address)
    } else {
        encode_absolute(absolute, address)
    }
}

/// The machine code of the instruction `definition` with the operand
/// `address_mode`, where the instruction stands at `address`.
///
/// There is none where the address mode refers to a name that the address
/// book does not hold, where the target of a branch is out of reach, or where
/// the instruction does not have the address mode.
pub open spec fn encode_operation(
    definition: InstructionDef,
    address_mode: AddressModeView,
    book: AddressBook,
    address: Address,
) -> Encoding {
    if !address_mode.is_known(book) {
        Err(ErrorView::AddressNameUnknown(address_mode.reference()->0.name))
    } else {
        match address_mode {
            AddressModeView::Implied => encode_bytes(definition.implied, seq![]),
            AddressModeView::Accumulator => encode_bytes(definition.accumulator, seq![]),
            AddressModeView::Immediate(ImmediateView::Byte(byte)) => encode_bytes(
                definition.immediate,
                seq![byte],
            ),
            AddressModeView::Immediate(ImmediateView::Low(reference)) => encode_bytes(
                definition.immediate,
                seq![low_byte(reference.address(book))],
            ),
            AddressModeView::Immediate(ImmediateView::High(reference)) => encode_bytes(
                definition.immediate,
                seq![high_byte(reference.address(book))],
            ),
            AddressModeView::Absolute(reference) => encode_absolute_or_zeropage(
                definition.absolute,
                definition.zeropage,
                reference.address(book),
            ),
            AddressModeView::AbsoluteX(reference) => encode_absolute_or_zeropage(
                definition.absolute_x,
                definition.zeropage_x,
                reference.address(book),
            ),
            AddressModeView::AbsoluteY(reference) => encode_absolute_or_zeropage(
                definition.absolute_y,
                definition.zeropage_y,
                reference.address(book),
            ),
            AddressModeView::Relative(reference) => {
                let distance = branch_distance(address, reference.address(book));
                if is_branch_distance(distance) {
                    encode_bytes(definition.relative, seq![branch_operand(distance)])
                } else {
                    Err(ErrorView::BranchOutOfRange(reference.name))
                }
            },
            AddressModeView::Indirect(reference) => encode_absolute(
                definition.indirect,
                reference.address(book),
            ),
            AddressModeView::IndexedIndirect(reference) => encode_zeropage(
                definition.indexed_indirect,
                reference.address(book),
            ),
            AddressModeView::IndirectIndexed(reference) => encode_zeropage(
                definition.indirect_indexed,
                reference.address(book),
            ),
        }
    }
}

/// The bytes that an instruction at `address` adds to the program: none for
/// a label, its own for raw bytes, its machine code for an instruction of the
/// 6502.
pub open spec fn encode_instruction(
    instruction: InstructionView,
    book: AddressBook,
    address: Address,
) -> Encoding {
    match instruction.operation {
        OperationView::Label(_) => Ok(Seq::empty()),
        OperationView::Raw(bytes) => Ok(bytes),
        OperationView::Mnemonic(row) => encode_operation(
            isa_6502_row(row as int),
            instruction.address_mode,
            book,
            address,
        ),
    }
}

/// The output after the instructions of `stream` have been added to
/// `output`, in their order. The first instruction without machine code ends
/// it, with its error.
pub open spec fn encode_stream(
    output: Seq<u8>,
    stream: Seq<InstructionView>,
    book: AddressBook,
    entry_point: Address,
) -> Encoding
    decreases stream.len(),
{
    if stream.len() == 0 {
        Ok(output)
    } else {
        match encode_stream(output, stream.drop_last(), book, entry_point) {
            Ok(before) => match encode_instruction(
                stream.last(),
                book,
                program_counter(entry_point, before.len()),
            ) {
                Ok(bytes) => Ok(before + bytes),
                Err(error) => Err(error),
            },
            Err(error) => Err(error),
        }
    }
}

/// The bytes of the program: the entry point, low byte first, then the
/// machine code of the application's instructions.
pub open spec fn encode_application(application: ApplicationView) -> Encoding {
    encode_stream(
        seq![low_byte(application.entry_point), high_byte(application.entry_point)],
        application.stream(),
        application.address_lookup,
        application.entry_point,
    )
}

/// Adding two streams one after the other is adding their concatenation.
pub proof fn lemma_encode_stream_concat(
    output: Seq<u8>,
    first: Seq<InstructionView>,
    second: Seq<InstructionView>,
    book: AddressBook,
    entry_point: Address,
)
    ensures
        encode_stream(output, first + second, book, entry_point) == match encode_stream(
            output,
            first,
            book,
            entry_point,
        ) {
            Ok(before) => encode_stream(before, second, book, entry_point),
            Err(error) => Err(error),
        },
    decreases second.len(),
{
    if second.len() == 0 {
        assert(first + second =~= first);
    } else {
        assert((first + second).drop_last() =~= first + second.drop_last());
        assert((first + second).last() == second.last());
        lemma_encode_stream_concat(output, first, second.drop_last(), book, entry_point);
    }
}

/// The instructions of a stream are added behind what the output holds.
pub proof fn lemma_encode_stream_extends(
    output: Seq<u8>,
    stream: Seq<InstructionView>,
    book: AddressBook,
    entry_point: Address,
)
    requires
        encode_stream(output, stream, book, entry_point) is Ok,
    ensures
        output.is_prefix_of(encode_stream(output, stream, book, entry_point)->Ok_0),
    decreases stream.len(),
{
    if stream.len() > 0 {
        lemma_encode_stream_extends(output, stream.drop_last(), book, entry_point);
    }
}

/// The program starts with its entry point: the first two bytes are the
/// entry point of the application, low byte first.
pub proof fn lemma_program_starts_with_entry_point(application: ApplicationView)
    requires
        encode_application(application) is Ok,
    ensures
        ({
            let program = encode_application(application)->Ok_0;
            &&& program.len() >= 2
            &&& program[0] + 0x100 * program[1] == application.entry_point
        }),
{
    let header = seq![low_byte(application.entry_point), high_byte(application.entry_point)];
    lemma_encode_stream_extends(
        header,
        application.stream(),
        application.address_lookup,
        application.entry_point,
    );
    let program = encode_application(application)->Ok_0;
    assert(program[0] == header[0]);
    assert(program[1] == header[1]);
}

/// The machine code of an instruction starts with an opcode of the
/// instruction: what the opcode table holds in place of an opcode that does
/// not exist is never written.
pub proof fn lemma_opcode_exists(
    definition: InstructionDef,
    address_mode: AddressModeView,
    book: AddressBook,
    address: Address,
)
    requires
        encode_operation(definition, address_mode, book, address) is Ok,
    ensures
        ({
            let bytes = encode_operation(definition, address_mode, book, address)->Ok_0;
            &&& bytes.len() >= 1
            &&& bytes[0] != no_opcode()
        }),
{
}

/// An instruction that addresses memory absolutely gets its zero page form
/// if and only if the address lies in the zero page and the instruction has a
/// zero page form. Then the operand is the low byte of the address. In every
/// other case it gets the absolute form, with the address as operand, low byte
/// first.
pub proof fn lemma_zeropage_form(absolute: OpCode, zeropage: OpCode, address: Address)
    requires
        encode_absolute_or_zeropage(absolute, zeropage, address) is Ok,
    ensures
        ({
            let bytes = encode_absolute_or_zeropage(absolute, zeropage, address)->Ok_0;
            let short = address < 0x100 && zeropage != no_opcode();
            &&& short ==> bytes == seq![zeropage, low_byte(address)]
            &&& !short ==> bytes == seq![absolute, low_byte(address), high_byte(address)]
            &&& !short ==> absolute != no_opcode()
            &&& bytes.len() == 2 <==> short
        }),
{
    let bytes = encode_absolute_or_zeropage(absolute, zeropage, address)->Ok_0;
    if address < 0x100 && zeropage != no_opcode() {
        assert(bytes =~= seq![zeropage, low_byte(address)]);
    } else {
        assert(bytes =~= seq![absolute, low_byte(address), high_byte(address)]);
    }
}

/// The value of a byte that is read as a signed number.
pub open spec fn signed_byte(byte: u8) -> int {
    if byte >= 0x80 {
        byte - 0x100
    } else {
        byte as int
    }
}

/// The operand of a branch is the distance from the address after the
/// branch instruction to the target, as a signed byte: `target - (address +
/// 2)`.
pub proof fn lemma_branch_operand(
    definition: InstructionDef,
    reference: AddressReferenceView,
    book: AddressBook,
    address: Address,
)
    requires
        encode_operation(definition, AddressModeView::Relative(reference), book, address) is Ok,
    ensures
        ({
            let bytes = encode_operation(
                definition,
                AddressModeView::Relative(reference),
                book,
                address,
            )->Ok_0;
            &&& bytes.len() == 2
            &&& bytes[0] == definition.relative
            &&& signed_byte(bytes[1]) == reference.address(book) - address_after(address, 2)
        }),
{
}

/// Adding the functions up to and including the one at `index` is adding
/// those before it, then its instructions. An error there is the error of
/// all the functions.
proof fn lemma_encode_next_function(
    output: Seq<u8>,
    functions: Seq<crate::FunctionView>,
    index: int,
    book: AddressBook,
    entry_point: Address,
)
    requires
        0 <= index < functions.len(),
        encode_stream(output, function_streams(functions.take(index)), book, entry_point) is Ok,
    ensures
        ({
            let before = encode_stream(
                output,
                function_streams(functions.take(index)),
                book,
                entry_point,
            )->Ok_0;
            let next = encode_stream(before, functions[index].instructions, book, entry_point);
            &&& encode_stream(
                output,
                function_streams(functions.take(index + 1)),
                book,
                entry_point,
            ) == next
            &&& next is Err ==> encode_stream(
                output,
                function_streams(functions),
                book,
                entry_point,
            ) == next
        }),
{
    lemma_function_streams_step(functions, index);
    lemma_encode_stream_concat(
        output,
        function_streams(functions.take(index)),
        functions[index].instructions,
        book,
        entry_point,
    );
    lemma_encode_stream_concat(
        output,
        function_streams(functions.take(index + 1)),
        function_streams(functions.skip(index + 1)),
        book,
        entry_point,
    );
}

/// Adding the modules up to and including the one at `index` is adding those
/// before it, then its instructions. An error there is the error of all the
/// modules.
proof fn lemma_encode_next_module(
    output: Seq<u8>,
    modules: Seq<crate::ModuleView>,
    index: int,
    book: AddressBook,
    entry_point: Address,
)
    requires
        0 <= index < modules.len(),
        encode_stream(output, module_streams(modules.take(index)), book, entry_point) is Ok,
    ensures
        ({
            let before = encode_stream(
                output,
                module_streams(modules.take(index)),
                book,
                entry_point,
            )->Ok_0;
            let next = encode_stream(before, modules[index].stream(), book, entry_point);
            &&& encode_stream(output, module_streams(modules.take(index + 1)), book, entry_point)
                == next
            &&& next is Err ==> encode_stream(output, module_streams(modules), book, entry_point)
                == next
        }),
{
    lemma_module_streams_step(modules, index);
    lemma_encode_stream_concat(
        output,
        module_streams(modules.take(index)),
        modules[index].stream(),
        book,
        entry_point,
    );
    lemma_encode_stream_concat(
        output,
        module_streams(modules.take(index + 1)),
        module_streams(modules.skip(index + 1)),
        book,
        entry_point,
    );
}

/// .PRG byte code generator
#[derive(Debug)]
pub struct ProgramGenerator {
    output: Vec<u8>,
}

impl View for ProgramGenerator {
    type V = Seq<u8>;

    /// The bytes generated so far.
    closed spec fn view(&self) -> Seq<u8> {
        self.output@
    }
}

impl Default for ProgramGenerator {
    fn default() -> (generator: Self)
        ensures
            generator@ == Seq::<u8>::empty(),
    {
        ProgramGenerator { output: Vec::new() }
    }
}

/// The error for an opcode that the opcode table does not have.
fn check_opcode(opcode: OpCode, unused: OpCode) -> (result: AssemblerResult<()>)
    requires
        unused == no_opcode(),
    ensures
        result is Ok <==> opcode != no_opcode(),
        result matches Err(error) ==> error@ == ErrorView::InternalCompilerError,
{
    if opcode == unused {
        Err(Error::InternalCompilerError)
    } else {
        Ok(())
    }
}

/// The address that a reference refers to, or the error for a name that the
/// application does not know.
fn resolve(application: &Application, reference: &AddressReference) -> (result: AssemblerResult<
    Address,
>)
    ensures
        match result {
            Ok(address) => reference@.is_known(application@.address_lookup) && address
                == reference@.address(application@.address_lookup),
            Err(error) => !reference@.is_known(application@.address_lookup) && error@
                == ErrorView::AddressNameUnknown(reference@.name),
        },
{
    match application.lookup_address(&reference.name) {
        Ok(address) => Ok(add_offset(address, reference.offset)),
        Err(error) => Err(error),
    }
}

impl Generator for ProgramGenerator {
    type Output = Vec<u8>;

    /// The bytes of the program, see [`encode_application`].
    open spec fn generated(application: ApplicationView) -> Encoding {
        encode_application(application)
    }

    /// The bytes of the program: the entry point, low byte first, then the
    /// machine code of the application's instructions, or the error of the
    /// first instruction that has no machine code.
    fn generate(self, application: Application) -> (result: AssemblerResult<Vec<u8>>) {
        let mut generator = self;
        generator.output.clear();
        generator.add_u16(application.entry_point);
        let ghost header = generator@;
        let ghost modules = application@.modules;
        assert(header =~= seq![
            low_byte(application.entry_point),
            high_byte(application.entry_point),
        ]);
        let mut index: usize = 0;
        while index < application.modules.len()
            invariant
                index <= application.modules.len(),
                modules == application@.modules,
                encode_application(application@) == encode_stream(
                    header,
                    module_streams(modules),
                    application@.address_lookup,
                    application.entry_point,
                ),
                encode_stream(
                    header,
                    module_streams(modules.take(index as int)),
                    application@.address_lookup,
                    application.entry_point,
                ) == Ok::<Seq<u8>, ErrorView>(generator@),
            decreases application.modules.len() - index,
        {
            let result = generator.generate_module(&application, &application.modules[index]);
            proof {
                assert(modules[index as int] == application.modules[index as int]@);
                lemma_encode_next_module(
                    header,
                    modules,
                    index as int,
                    application@.address_lookup,
                    application.entry_point,
                );
            }
            match result {
                Ok(()) => {},
                Err(error) => {
                    return Err(error);
                },
            }
            index += 1;
        }
        assert(modules.take(index as int) =~= modules);
        Ok(generator.output)
    }
}

impl ProgramGenerator {
    /// Add the bytes of a module: those of its own instructions, then those
    /// of its functions.
    fn generate_module(&mut self, application: &Application, module: &Module) -> (result:
        AssemblerResult<()>)
        ensures
            match encode_stream(
                old(self)@,
                module@.stream(),
                application@.address_lookup,
                application.entry_point,
            ) {
                Ok(output) => result is Ok && final(self)@ == output,
                Err(error) => result matches Err(reported) && reported@ == error,
            },
    {
        let ghost book = application@.address_lookup;
        let ghost functions = module@.functions;
        proof {
            lemma_encode_stream_concat(
                old(self)@,
                module@.instructions,
                function_streams(functions),
                book,
                application.entry_point,
            );
        }
        self.generate_instructions(application, &module.instructions)?;
        let ghost start = self@;
        let mut index: usize = 0;
        while index < module.functions.len()
            invariant
                index <= module.functions.len(),
                functions == module@.functions,
                book == application@.address_lookup,
                encode_stream(old(self)@, module@.stream(), book, application.entry_point)
                    == encode_stream(
                    start,
                    function_streams(functions),
                    book,
                    application.entry_point,
                ),
                encode_stream(
                    start,
                    function_streams(functions.take(index as int)),
                    book,
                    application.entry_point,
                ) == Ok::<Seq<u8>, ErrorView>(self@),
            decreases module.functions.len() - index,
        {
            let result = self.generate_instructions(
                application,
                &module.functions[index].instructions,
            );
            proof {
                assert(functions[index as int] == module.functions[index as int]@);
                lemma_encode_next_function(
                    start,
                    functions,
                    index as int,
                    book,
                    application.entry_point,
                );
            }
            match result {
                Ok(()) => {},
                Err(error) => {
                    return Err(error);
                },
            }
            index += 1;
        }
        assert(functions.take(index as int) =~= functions);
        Ok(())
    }

    /// Add the bytes of the instructions, in their order.
    fn generate_instructions(
        &mut self,
        application: &Application,
        instructions: &Instructions,
    ) -> (result: AssemblerResult<()>)
        ensures
            match encode_stream(
                old(self)@,
                instructions@,
                application@.address_lookup,
                application.entry_point,
            ) {
                Ok(output) => result is Ok && final(self)@ == output,
                Err(error) => result matches Err(reported) && reported@ == error,
            },
    {
        let ghost book = application@.address_lookup;
        let ghost stream = instructions@;
        let mut index: usize = 0;
        while index < instructions.instructions.len()
            invariant
                index <= instructions.instructions.len(),
                stream == instructions@,
                book == application@.address_lookup,
                encode_stream(old(self)@, stream.take(index as int), book, application.entry_point)
                    == Ok::<Seq<u8>, ErrorView>(self@),
            decreases instructions.instructions.len() - index,
        {
            let result = self.generate_instruction(application, &instructions.instructions[index]);
            proof {
                assert(stream.take(index + 1).drop_last() =~= stream.take(index as int));
                assert(stream.take(index + 1).last() == instructions.instructions[index as int]@);
                lemma_encode_stream_concat(
                    old(self)@,
                    stream.take(index + 1),
                    stream.skip(index + 1),
                    book,
                    application.entry_point,
                );
                assert(stream.take(index + 1) + stream.skip(index + 1) =~= stream);
            }
            match result {
                Ok(()) => {},
                Err(error) => {
                    return Err(error);
                },
            }
            index += 1;
        }
        assert(stream.take(index as int) =~= stream);
        Ok(())
    }

    /// Add the bytes of an instruction: none for a label, its own for raw
    /// bytes, its machine code for an instruction of the 6502.
    fn generate_instruction(
        &mut self,
        application: &Application,
        instruction: &Instruction,
    ) -> (result: AssemblerResult<()>)
        ensures
            match encode_instruction(
                instruction@,
                application@.address_lookup,
                program_counter(application.entry_point, old(self)@.len()),
            ) {
                Ok(bytes) => result is Ok && final(self)@ == old(self)@ + bytes,
                Err(error) => result matches Err(reported) && reported@ == error && final(self)@
                    == old(self)@,
            },
    {
        match (&instruction.operation.definition(), &instruction.operation) {
            (Some(definition), _) => self.add_byte_code(
                application,
                &instruction.address_mode,
                definition,
            ),
            (None, Operation::Label(_)) => {
                // Labels don't have bytes in the byte stream, they are only markers
                Ok(())
            },
            (None, Operation::Raw(bytes)) => {
                self.add_bytes(bytes);
                Ok(())
            },
            (_, _) => Err(Error::InternalCompilerError),
        }
    }

    /// The bytes generated so far.
    pub fn output(&self) -> (output: &Vec<u8>)
        ensures
            output@ == self@,
    {
        &self.output
    }

    /// The address of the instruction that is written next.
    fn current_address(&self, application: &Application) -> (address: Address)
        ensures
            address == program_counter(application.entry_point, self@.len()),
    {
        let written: Address = (self.output.len() % 0x1_0000) as Address;
        application.entry_point.wrapping_add(written).wrapping_sub(PROGRAM_HEADER_BYTE_SIZE)
    }

    /// Add the machine code of the instruction `instruction` with the operand
    /// `address_mode` to the output. Nothing is added where there is no machine
    /// code for it.
    pub fn add_byte_code(
        &mut self,
        application: &Application,
        address_mode: &AddressMode,
        instruction: &InstructionDef,
    ) -> (result: AssemblerResult<()>)
        ensures
            match encode_operation(
                *instruction,
                address_mode@,
                application@.address_lookup,
                program_counter(application.entry_point, old(self)@.len()),
            ) {
                Ok(bytes) => result is Ok && final(self)@ == old(self)@ + bytes,
                Err(error) => result matches Err(reported) && reported@ == error && final(self)@
                    == old(self)@,
            },
    {
        let unused = unused_opcodes();
        match address_mode {
            AddressMode::Implied => {
                check_opcode(instruction.implied, unused.implied)?;
                self.add_u8(instruction.implied);
            },
            AddressMode::Immediate(Immediate::Byte(byte)) => {
                check_opcode(instruction.immediate, unused.immediate)?;
                self.add_u8(instruction.immediate);
                self.add_u8(*byte);
            },
            AddressMode::Immediate(Immediate::Low(address_reference)) => {
                let address = resolve(application, address_reference)?;
                check_opcode(instruction.immediate, unused.immediate)?;
                self.add_u8(instruction.immediate);
                self.add_u8(address.low());
            },
            AddressMode::Immediate(Immediate::High(address_reference)) => {
                let address = resolve(application, address_reference)?;
                check_opcode(instruction.immediate, unused.immediate)?;
                self.add_u8(instruction.immediate);
                self.add_u8(address.high());
            },
            AddressMode::Accumulator => {
                check_opcode(instruction.accumulator, unused.accumulator)?;
                self.add_u8(instruction.accumulator);
            },
            AddressMode::Absolute(address_reference) => {
                let address = resolve(application, address_reference)?;
                if instruction.zeropage != unused.zeropage && address.is_zeropage() {
                    self.add_u8(instruction.zeropage);
                    self.add_u8(address.low());
                } else {
                    check_opcode(instruction.absolute, unused.absolute)?;
                    self.add_u8(instruction.absolute);
                    self.add_u16(address);
                }
            },
            AddressMode::AbsoluteX(address_reference) => {
                let address = resolve(application, address_reference)?;
                if instruction.zeropage_x != unused.zeropage_x && address.is_zeropage() {
                    self.add_u8(instruction.zeropage_x);
                    self.add_u8(address.low());
                } else {
                    check_opcode(instruction.absolute_x, unused.absolute_x)?;
                    self.add_u8(instruction.absolute_x);
                    self.add_u16(address);
                }
            },
            AddressMode::AbsoluteY(address_reference) => {
                let address = resolve(application, address_reference)?;
                if instruction.zeropage_y != unused.zeropage_y && address.is_zeropage() {
                    self.add_u8(instruction.zeropage_y);
                    self.add_u8(address.low());
                } else {
                    check_opcode(instruction.absolute_y, unused.absolute_y)?;
                    self.add_u8(instruction.absolute_y);
                    self.add_u16(address);
                }
            },
            AddressMode::Relative(address_reference) => {
                let address = resolve(application, address_reference)?;
                let current_instruction = self.current_address(application);
                let next_instruction = add_offset(current_instruction, 2);
                let relative_address: i32 = address as i32 - next_instruction as i32;
                if relative_address < -128 || relative_address > 127 {
                    return Err(Error::BranchOutOfRange(address_reference.name.clone()));
                }
                check_opcode(instruction.relative, unused.relative)?;
                self.add_u8(instruction.relative);
                if relative_address < 0 {
                    self.add_u8((relative_address + 0x100) as u8);
                } else {
                    self.add_u8(relative_address as u8);
                }
            },
            AddressMode::Indirect(address_reference) => {
                let address = resolve(application, address_reference)?;
                check_opcode(instruction.indirect, unused.indirect)?;
                self.add_u8(instruction.indirect);
                self.add_u16(address);
            },
            AddressMode::IndexedIndirect(address_reference) => {
                let address = resolve(application, address_reference)?;
                check_opcode(instruction.indexed_indirect, unused.indexed_indirect)?;
                self.add_u8(instruction.indexed_indirect);
                self.add_u8(address.low());
            },
            AddressMode::IndirectIndexed(address_reference) => {
                let address = resolve(application, address_reference)?;
                check_opcode(instruction.indirect_indexed, unused.indirect_indexed)?;
                self.add_u8(instruction.indirect_indexed);
                self.add_u8(address.low());
            },
        };
        assert(self@ == old(self)@ + encode_operation(
            *instruction,
            address_mode@,
            application@.address_lookup,
            program_counter(application.entry_point, old(self)@.len()),
        )->Ok_0);
        Ok(())
    }

    fn add_u8(&mut self, byte: u8)
        ensures
            final(self)@ == old(self)@.push(byte),
    {
        self.output.push(byte);
    }

    fn add_u16(&mut self, address: Address)
        ensures
            final(self)@ == old(self)@ + seq![low_byte(address), high_byte(address)],
    {
        self.add_u8(address.low());
        self.add_u8(address.high());
    }

    fn add_bytes(&mut self, bytes: &[u8])
        ensures
            final(self)@ == old(self)@ + bytes@,
    {
        let mut index: usize = 0;
        while index < bytes.len()
            invariant
                index <= bytes.len(),
                self@ == old(self)@ + bytes@.take(index as int),
            decreases bytes.len() - index,
        {
            self.output.push(bytes[index]);
            index += 1;
        }
        assert(bytes@.take(index as int) =~= bytes@);
    }
}

} // verus!
