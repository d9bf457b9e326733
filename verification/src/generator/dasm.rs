//! Generator for a listing of the application in the syntax of the dasm
//! cross assembler.
use super::hex::{add_hex_address, add_hex_byte, hex_address, hex_byte};
use super::Generator;
use crate::instruction::operation::{Operation, OperationView};
use crate::instruction::{Instruction, InstructionView};
use crate::isa::isa_6502_row;
use crate::memory::address_mode::{AddressMode, AddressModeView, Immediate, ImmediateView};
use crate::memory::define::{Define, DefineView, Value};
use crate::memory::label::{AddressReference, AddressReferenceView};
use crate::memory::{low_byte, Address, ZeroPage};
use crate::text::{join, join_lines, lines_view};
use crate::validator::{AssemblerResult, ErrorView};
use crate::{
    Application, ApplicationView, Function, FunctionView, Instructions, Module, ModuleView,
};
use vstd::prelude::*;
use vstd::string::*;

verus! {

/// The text in upper case, as `str::to_uppercase` gives it.
pub uninterp spec fn uppercase(text: Seq<char>) -> Seq<char>;

/// Calls `str::to_uppercase`: the text with every character that has an
/// upper case form replaced by it.
#[verifier::external_body]
fn to_uppercase(text: &str) -> (upper: String)
    ensures
        upper@ == uppercase(text@),
{
    text.to_uppercase()
}

/// How the listing refers to an address: by its name, followed by a plus
/// sign and the offset as a hexadecimal number where there is an offset.
pub open spec fn reference_text(reference: AddressReferenceView) -> Seq<char> {
    if reference.offset == 0 {
        reference.name
    } else {
        reference.name + "+$"@ + hex_address(reference.offset)
    }
}

/// The operand of an instruction in the listing, with the blank in front of
/// it. An instruction in implied mode has none, and dasm takes an instruction
/// without operand to work on the accumulator where it can.
pub open spec fn operand_text(address_mode: AddressModeView) -> Seq<char> {
    match address_mode {
        AddressModeView::Implied | AddressModeView::Accumulator => Seq::empty(),
        AddressModeView::Immediate(ImmediateView::Byte(byte)) => " #$"@ + hex_byte(byte),
        AddressModeView::Immediate(ImmediateView::Low(reference)) => " #<"@ + reference_text(
            reference,
        ),
        AddressModeView::Immediate(ImmediateView::High(reference)) => " #>"@ + reference_text(
            reference,
        ),
        AddressModeView::Absolute(reference) => " "@ + reference_text(reference),
        AddressModeView::AbsoluteX(reference) => " "@ + reference_text(reference) + ",x"@,
        AddressModeView::AbsoluteY(reference) => " "@ + reference_text(reference) + ",y"@,
        AddressModeView::Relative(reference) => " "@ + reference_text(reference),
        AddressModeView::Indirect(reference) => " ("@ + reference_text(reference) + ")"@,
        AddressModeView::IndexedIndirect(reference) => " ("@ + reference_text(reference)
            + ",x)"@,
        AddressModeView::IndirectIndexed(reference) => " ("@ + reference_text(reference)
            + "),y"@,
    }
}

/// Bytes in the listing: each as a hexadecimal number, with a comma between
/// two of them.
pub open spec fn bytes_text(bytes: Seq<u8>) -> Seq<char>
    decreases bytes.len(),
{
    if bytes.len() == 0 {
        Seq::empty()
    } else if bytes.len() == 1 {
        "$"@ + hex_byte(bytes[0])
    } else {
        bytes_text(bytes.drop_last()) + ", $"@ + hex_byte(bytes.last())
    }
}

/// Comments in the listing: a line each.
pub open spec fn comment_lines(comments: Seq<Seq<char>>) -> Seq<Seq<char>> {
    comments.map_values(|comment: Seq<char>| "  ; "@ + comment)
}

/// The line of an operation in the listing: a label is its name and a
/// colon, raw bytes are a `byte` directive, and an instruction of the 6502 is
/// written with its operand. Raw bytes without a byte have no line.
pub open spec fn operation_lines(instruction: InstructionView) -> Seq<Seq<char>> {
    match instruction.operation {
        OperationView::Label(name) => seq![name + ":"@],
        OperationView::Raw(bytes) => if bytes.len() == 0 {
            Seq::empty()
        } else {
            seq!["  byte "@ + bytes_text(bytes)]
        },
        OperationView::Mnemonic(row) => seq![
            "  "@ + isa_6502_row(row as int).instruction@ + operand_text(
                instruction.address_mode,
            ),
        ],
    }
}

/// The lines of an instruction in the listing: its comments, then the
/// operation.
pub open spec fn instruction_lines(instruction: InstructionView) -> Seq<Seq<char>> {
    comment_lines(instruction.comments) + operation_lines(instruction)
}

/// The lines of a stream of instructions in the listing.
pub open spec fn stream_lines(stream: Seq<InstructionView>) -> Seq<Seq<char>>
    decreases stream.len(),
{
    if stream.len() == 0 {
        Seq::empty()
    } else {
        stream_lines(stream.drop_last()) + instruction_lines(stream.last())
    }
}

/// The lines of a function in the listing: its instructions between two
/// lines that name it, and its documentation in front of the instructions.
pub open spec fn function_lines(function: FunctionView) -> Seq<Seq<char>> {
    seq!["; --- Function begin: "@ + uppercase(function.name) + " ---"@]
        + function.documentation.map_values(|line: Seq<char>| "; "@ + line) + stream_lines(
        function.instructions,
    ) + seq!["; --- Function end: "@ + uppercase(function.name) + " ---"@]
}

/// The lines of functions in the listing, one function after the other.
pub open spec fn functions_lines(functions: Seq<FunctionView>) -> Seq<Seq<char>>
    decreases functions.len(),
{
    if functions.len() == 0 {
        Seq::empty()
    } else {
        functions_lines(functions.drop_last()) + function_lines(functions.last())
    }
}

/// The lines of a module in the listing: its instructions and its functions
/// between two lines that name it.
pub open spec fn module_lines(module: ModuleView) -> Seq<Seq<char>> {
    seq!["; --- Module begin: "@ + uppercase(module.name) + " ---"@] + stream_lines(
        module.instructions,
    ) + functions_lines(module.functions) + seq![
        "; --- Module end: "@ + uppercase(module.name) + " ---"@,
    ]
}

/// The lines of modules in the listing, one module after the other.
pub open spec fn modules_lines(modules: Seq<ModuleView>) -> Seq<Seq<char>>
    decreases modules.len(),
{
    if modules.len() == 0 {
        Seq::empty()
    } else {
        modules_lines(modules.drop_last()) + module_lines(modules.last())
    }
}

/// The line of a define in the listing: its name and its address, which has
/// two hexadecimal digits in the zero page and four elsewhere.
pub open spec fn define_line(define: DefineView) -> Seq<char> {
    match define.value {
        Value::Address(address) => define.name + " = $"@ + hex_address(address),
        Value::Zeropage(address) => define.name + " = $"@ + hex_byte(low_byte(address)),
    }
}

/// The lines of the listing of an application: a head that names the
/// application, a line for every define, the entry point as origin, and the
/// modules.
pub open spec fn listing_lines(application: ApplicationView) -> Seq<Seq<char>> {
    seq![
        "; --- Application: "@ + uppercase(application.name) + " ---"@,
        "; NOTE: This file is generated, do not modify"@,
        ""@,
        "  processor 6502"@,
        ""@,
    ] + application.defines.map_values(|define: DefineView| define_line(define)) + seq![
        ""@,
        "  org $"@ + hex_address(application.entry_point),
        ""@,
    ] + modules_lines(application.modules)
}

/// The listing of an application.
pub open spec fn listing(application: ApplicationView) -> Seq<char> {
    join_lines(listing_lines(application))
}

/// Add the way the listing refers to an address to the text.
fn add_reference(text: &mut String, reference: &AddressReference)
    ensures
        final(text)@ == old(text)@ + reference_text(reference@),
{
    text.append(reference.name.as_str());
    if reference.offset != 0 {
        text.append("+$");
        add_hex_address(text, reference.offset);
    }
    assert(text@ =~= old(text)@ + reference_text(reference@));
}

/// Add the operand of an instruction to the text.
fn add_operand(text: &mut String, address_mode: &AddressMode)
    ensures
        final(text)@ == old(text)@ + operand_text(address_mode@),
{
    match address_mode {
        AddressMode::Implied | AddressMode::Accumulator => {},
        AddressMode::Immediate(Immediate::Byte(byte)) => {
            text.append(" #$");
            add_hex_byte(text, *byte);
        },
        AddressMode::Immediate(Immediate::Low(reference)) => {
            text.append(" #<");
            add_reference(text, reference);
        },
        AddressMode::Immediate(Immediate::High(reference)) => {
            text.append(" #>");
            add_reference(text, reference);
        },
        AddressMode::Absolute(reference) => {
            text.append(" ");
            add_reference(text, reference);
        },
        AddressMode::AbsoluteX(reference) => {
            text.append(" ");
            add_reference(text, reference);
            text.append(",x");
        },
        AddressMode::AbsoluteY(reference) => {
            text.append(" ");
            add_reference(text, reference);
            text.append(",y");
        },
        AddressMode::Relative(reference) => {
            text.append(" ");
            add_reference(text, reference);
        },
        AddressMode::Indirect(reference) => {
            text.append(" (");
            add_reference(text, reference);
            text.append(")");
        },
        AddressMode::IndexedIndirect(reference) => {
            text.append(" (");
            add_reference(text, reference);
            text.append(",x)");
        },
        AddressMode::IndirectIndexed(reference) => {
            text.append(" (");
            add_reference(text, reference);
            text.append("),y");
        },
    }
    assert(text@ =~= old(text)@ + operand_text(address_mode@));
}

/// Add bytes to the text, as the listing writes them.
fn add_bytes(text: &mut String, bytes: &Vec<u8>)
    ensures
        final(text)@ == old(text)@ + bytes_text(bytes@),
{
    let mut index: usize = 0;
    while index < bytes.len()
        invariant
            index <= bytes.len(),
            text@ == old(text)@ + bytes_text(bytes@.take(index as int)),
        decreases bytes.len() - index,
    {
        if index == 0 {
            text.append("$");
        } else {
            text.append(", $");
        }
        add_hex_byte(text, bytes[index]);
        proof {
            assert(bytes@.take(index + 1).drop_last() =~= bytes@.take(index as int));
            assert(bytes@.take(index + 1).last() == bytes[index as int]);
            assert(bytes@.take(index + 1)[0] == bytes[0]);
            assert(text@ =~= old(text)@ + bytes_text(bytes@.take(index + 1)));
        }
        index += 1;
    }
    assert(bytes@.take(index as int) =~= bytes@);
}

/// Dasm source code generator
#[derive(Debug)]
pub struct DasmGenerator {
    output: Vec<String>,
}

impl View for DasmGenerator {
    type V = Seq<Seq<char>>;

    /// The lines generated so far.
    closed spec fn view(&self) -> Seq<Seq<char>> {
        lines_view(self.output@)
    }
}

impl Default for DasmGenerator {
    fn default() -> (generator: Self)
        ensures
            generator@ == Seq::<Seq<char>>::empty(),
    {
        let generator = DasmGenerator { output: Vec::new() };
        assert(generator@ =~= Seq::empty());
        generator
    }
}

impl Generator for DasmGenerator {
    type Output = String;

    /// The listing of the application, see [`listing`]. Every application
    /// has one.
    open spec fn generated(application: ApplicationView) -> Result<Seq<char>, ErrorView> {
        Ok(listing(application))
    }

    /// The listing of the application.
    fn generate(self, application: Application) -> (result: AssemblerResult<String>) {
        let mut generator = self;
        generator.output.clear();
        assert(generator@ =~= Seq::empty());
        let mut head = String::from_str("; --- Application: ");
        head.append(to_uppercase(application.name.as_str()).as_str());
        head.append(" ---");
        generator.line(head);
        generator.line(String::from_str("; NOTE: This file is generated, do not modify"));
        generator.line(String::from_str(""));
        generator.line(String::from_str("  processor 6502"));
        generator.line(String::from_str(""));
        generator.generate_defines(&application.defines);
        generator.line(String::from_str(""));
        let mut origin = String::from_str("  org $");
        add_hex_address(&mut origin, application.entry_point);
        generator.line(origin);
        generator.line(String::from_str(""));
        let ghost start = generator@;
        let ghost modules = application@.modules;
        assert(start =~= seq![
            "; --- Application: "@ + uppercase(application@.name) + " ---"@,
            "; NOTE: This file is generated, do not modify"@,
            ""@,
            "  processor 6502"@,
            ""@,
        ] + application@.defines.map_values(|define: DefineView| define_line(define)) + seq![
            ""@,
            "  org $"@ + hex_address(application.entry_point),
            ""@,
        ]);
        let mut index: usize = 0;
        while index < application.modules.len()
            invariant
                index <= application.modules.len(),
                modules == application@.modules,
                generator@ == start + modules_lines(modules.take(index as int)),
            decreases application.modules.len() - index,
        {
            generator.generate_module(&application.modules[index]);
            proof {
                assert(modules.take(index + 1).drop_last() =~= modules.take(index as int));
                assert(modules.take(index + 1).last() == application.modules[index as int]@);
                assert(generator@ =~= start + modules_lines(modules.take(index + 1)));
            }
            index += 1;
        }
        assert(modules.take(index as int) =~= modules);
        Ok(join(&generator.output))
    }
}

impl DasmGenerator {
    /// Add a line to the listing.
    fn line(&mut self, line: String)
        ensures
            final(self)@ == old(self)@.push(line@),
    {
        self.output.push(line);
        assert(self@ =~= old(self)@.push(line@));
    }

    /// Add a line for every define.
    fn generate_defines(&mut self, defines: &Vec<Define>)
        ensures
            final(self)@ == old(self)@ + defines@.map_values(|define: Define| define@).map_values(
                |define: DefineView| define_line(define),
            ),
    {
        let ghost lines = defines@.map_values(|define: Define| define@).map_values(
            |define: DefineView| define_line(define),
        );
        let mut index: usize = 0;
        while index < defines.len()
            invariant
                index <= defines.len(),
                lines == defines@.map_values(|define: Define| define@).map_values(
                    |define: DefineView| define_line(define),
                ),
                self@ == old(self)@ + lines.take(index as int),
            decreases defines.len() - index,
        {
            let define = &defines[index];
            let mut line = String::from_str(define.name.as_str());
            line.append(" = $");
            match define.value {
                Value::Address(address) => add_hex_address(&mut line, address),
                Value::Zeropage(address) => add_hex_byte(&mut line, address.low()),
            }
            assert(line@ =~= define_line(define@));
            self.line(line);
            assert(self@ =~= old(self)@ + lines.take(index + 1));
            index += 1;
        }
        assert(lines.take(index as int) =~= lines);
    }

    /// Add the lines of a module.
    fn generate_module(&mut self, module: &Module)
        ensures
            final(self)@ == old(self)@ + module_lines(module@),
    {
        let name = to_uppercase(module.name.as_str());
        let mut begin = String::from_str("; --- Module begin: ");
        begin.append(name.as_str());
        begin.append(" ---");
        self.line(begin);
        self.generate_instructions(&module.instructions);
        let ghost start = self@;
        let ghost functions = module@.functions;
        let mut index: usize = 0;
        while index < module.functions.len()
            invariant
                index <= module.functions.len(),
                functions == module@.functions,
                self@ == start + functions_lines(functions.take(index as int)),
            decreases module.functions.len() - index,
        {
            self.generate_function(&module.functions[index]);
            proof {
                assert(functions.take(index + 1).drop_last() =~= functions.take(index as int));
                assert(functions.take(index + 1).last() == module.functions[index as int]@);
                assert(self@ =~= start + functions_lines(functions.take(index + 1)));
            }
            index += 1;
        }
        assert(functions.take(index as int) =~= functions);
        let mut end = String::from_str("; --- Module end: ");
        end.append(name.as_str());
        end.append(" ---");
        self.line(end);
        assert(self@ =~= old(self)@ + module_lines(module@));
    }

    /// Add the lines of a function.
    fn generate_function(&mut self, function: &Function)
        ensures
            final(self)@ == old(self)@ + function_lines(function@),
    {
        let name = to_uppercase(function.name.as_str());
        let mut begin = String::from_str("; --- Function begin: ");
        begin.append(name.as_str());
        begin.append(" ---");
        self.line(begin);
        let ghost start = self@;
        let ghost documentation = function@.documentation.map_values(
            |line: Seq<char>| "; "@ + line,
        );
        let mut index: usize = 0;
        while index < function.documentation.len()
            invariant
                index <= function.documentation.len(),
                documentation == function@.documentation.map_values(
                    |line: Seq<char>| "; "@ + line,
                ),
                self@ == start + documentation.take(index as int),
            decreases function.documentation.len() - index,
        {
            let mut line = String::from_str("; ");
            line.append(function.documentation[index].as_str());
            self.line(line);
            assert(self@ =~= start + documentation.take(index + 1));
            index += 1;
        }
        assert(documentation.take(index as int) =~= documentation);
        self.generate_instructions(&function.instructions);
        let mut end = String::from_str("; --- Function end: ");
        end.append(name.as_str());
        end.append(" ---");
        self.line(end);
        assert(self@ =~= old(self)@ + function_lines(function@));
    }

    /// Add the lines of a stream of instructions.
    fn generate_instructions(&mut self, instructions: &Instructions)
        ensures
            final(self)@ == old(self)@ + stream_lines(instructions@),
    {
        let ghost stream = instructions@;
        let mut index: usize = 0;
        while index < instructions.instructions.len()
            invariant
                index <= instructions.instructions.len(),
                stream == instructions@,
                self@ == old(self)@ + stream_lines(stream.take(index as int)),
            decreases instructions.instructions.len() - index,
        {
            self.generate_instruction(&instructions.instructions[index]);
            proof {
                assert(stream.take(index + 1).drop_last() =~= stream.take(index as int));
                assert(stream.take(index + 1).last() == instructions.instructions[index as int]@);
                assert(self@ =~= old(self)@ + stream_lines(stream.take(index + 1)));
            }
            index += 1;
        }
        assert(stream.take(index as int) =~= stream);
    }

    /// Add the lines of an instruction: its comments, then the operation.
    fn generate_instruction(&mut self, instruction: &Instruction)
        ensures
            final(self)@ == old(self)@ + instruction_lines(instruction@),
    {
        let ghost comments = comment_lines(instruction@.comments);
        let mut index: usize = 0;
        while index < instruction.comments.len()
            invariant
                index <= instruction.comments.len(),
                comments == comment_lines(instruction@.comments),
                self@ == old(self)@ + comments.take(index as int),
            decreases instruction.comments.len() - index,
        {
            let mut line = String::from_str("  ; ");
            line.append(instruction.comments[index].as_str());
            self.line(line);
            assert(self@ =~= old(self)@ + comments.take(index + 1));
            index += 1;
        }
        assert(comments.take(index as int) =~= comments);
        match (&instruction.operation.definition(), &instruction.operation) {
            (Some(definition), _) => {
                let mut line = String::from_str("  ");
                line.append(definition.instruction);
                add_operand(&mut line, &instruction.address_mode);
                self.line(line);
            },
            (None, Operation::Label(label)) => {
                let mut line = String::from_str(label.as_str());
                line.append(":");
                self.line(line);
            },
            (None, Operation::Raw(bytes)) => {
                if bytes.len() > 0 {
                    let mut line = String::from_str("  byte ");
                    add_bytes(&mut line, bytes);
                    self.line(line);
                }
            },
            (_, _) => {},
        }
        assert(self@ =~= old(self)@ + instruction_lines(instruction@));
    }
}

} // verus!
