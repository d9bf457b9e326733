//! Symbolic assembler for the MOS 6502 as found in the Commodore 64.
//!
//! The goal of this crate is to assemble programs for the C64 directly from
//! Rust. An [`Application`] is a tree of modules, functions and instruction
//! streams whose operands name memory locations symbolically:
//!
//! - building the application gives every label its address, see
//!   [`builder::finalize`],
//! - the [`validator`] checks the application against these addresses,
//! - the [`generator`]s turn it into the bytes of a .PRG file or into a
//!   listing in the syntax of the dasm cross assembler.
//!
//! What each of these steps does is stated as a contract, and the contracts
//! are proved with [Verus](https://github.com/verus-lang/verus).
//!
//! ## Modules and functions
//!
//! An [`Application`] is organized in [`Module`]s and [`Function`]s. Modules
//! can be shared between applications. The public API of a module is
//! organized in functions, and a function can exist in several variations:
//! by swapping functions a module can be optimized for size or for CPU
//! cycles, as the program needs it.
//!
//! ## Usage
//!
//! An application is built with builders.
//!
//! ```
//! use c64_assembler::builder::{ApplicationBuilder, InstructionBuilder, ModuleBuilder};
//!
//! let application = ApplicationBuilder::default()
//!     .name("Set black border")
//!     .define_address("VIC20_BORDER_COLOR", 0xD020)
//!     .module(
//!         ModuleBuilder::default()
//!             .name("main")
//!             .instructions(
//!                 InstructionBuilder::default()
//!                     .add_basic_header()
//!                     .label("main_entry_point")
//!                     .lda_imm(0x00)
//!                     .comment("Load black color")
//!                     .sta_addr("VIC20_BORDER_COLOR")
//!                     .rts()
//!                     .finalize(),
//!             )
//!             .finalize(),
//!     )
//!     .finalize();
//! ```
//!
//! The [`generator::ProgramGenerator`] generates the byte stream of the
//! application. The byte stream starts with the address that the program is
//! loaded at.
//!
//! ```
//! use c64_assembler::generator::{hexdump, Generator, ProgramGenerator};
//! use c64_assembler::validator::Validator;
//! # use c64_assembler::builder::ApplicationBuilder;
//! # let application = ApplicationBuilder::default().finalize();
//!
//! application.validate().unwrap();
//! let bytes = ProgramGenerator::default().generate(application).unwrap();
//! for line in hexdump(&bytes) {
//!     println!("{line}");
//! }
//! ```
//!
//! ```txt
//! 0000:  00 08 00 0C  08 0A 00 9E  20 32 30 36  32 00 00 00
//! 0010:  A9 00 8D 20  D0 60
//! ```
//!
//! The [`generator::DasmGenerator`] generates a source that dasm assembles to
//! the same program.
//!
//! ```asm
//! ; --- Application: SET BLACK BORDER ---
//! ; NOTE: This file is generated, do not modify
//!
//!   processor 6502
//!
//! VIC20_BORDER_COLOR = $D020
//!
//!   org $0800
//!
//! ; --- Module begin: MAIN ---
//!   ; New basic line
//!   byte $00, $0C, $08
//!   ; 10 SYS 2062
//!   byte $0A, $00, $9E, $20, $32, $30, $36, $32
//!   ; End basic program
//!   byte $00, $00, $00
//! main_entry_point:
//!   ; Load black color
//!   lda #$00
//!   sta VIC20_BORDER_COLOR
//!   rts
//! ; --- Module end: MAIN ---
//! ```
//!
//! ## Addresses
//!
//! Addresses have 16 bits. Where the sum of an address and an offset or a
//! size passes the end of the address space, it wraps around to its start.
//!
//! The layout takes two bytes for an instruction with an absolute address in
//! the zero page, whatever the instruction is, and three bytes where it meets
//! a reference to a label that is declared further on. The program generator
//! takes the zero page form where the instruction has one and the address
//! lies in the zero page. Where the two differ, the labels behind the
//! instruction do not mark the bytes that they stand in front of.
//! [`generator::placement::labels_mark_their_bytes`] tells whether the labels
//! of an application do.
//!
//! ## Assembler syntax
//!
//! The module [`expansion`] turns the description of an application in
//! assembler syntax into the calls of the builders, for the use in macros.
use instruction::operation::OperationView;
use instruction::{Instruction, InstructionView};
use memory::define::{Define, DefineView};
use memory::user_count::UserCount;
use memory::{Address, AddressBook};
use vstd::hash_map::StringHashMap;
use vstd::prelude::*;

pub mod builder;
pub mod expansion;
pub mod generator;
pub mod instruction;
pub mod isa;
pub mod memory;
pub mod text;
pub mod validator;

verus! {

/// Application is the root container for the assembler
pub struct Application {
    /// Name of the application; only used in comments.
    pub name: String,
    /// Entry point of the application, default = 0x0800
    pub entry_point: Address,
    /// Modules of the application
    pub modules: Vec<Module>,
    /// Defines of the application
    pub defines: Vec<Define>,
    /// Lookup for addresses.
    pub address_lookup: StringHashMap<Address>,
}

/// Module
///
/// A module is reusable part between applications. If you have some frequent used
/// code, you can group it in a module so you can reused it between applications.
///
/// Can be compared with an include statement.
#[derive(Debug)]
pub struct Module {
    /// Name of the module; only used in comments.
    pub name: String,
    /// Module specific utility instructions.
    ///
    /// For sharing code between functions.
    pub instructions: Instructions,
    /// Functions of this module.
    pub functions: Vec<Function>,
}

/// Function is a replaceble public part of a module.
///
/// You can have multiple variations of a function. These functions can be swapped out
/// when building the module.
///
/// # Variations
///
/// Some examples why functions can have variations.
///
/// - Size optimized
/// - Performance optimized
/// - Last known working version
/// - Currently in development
#[derive(Debug)]
pub struct Function {
    /// Name of the function
    pub name: String,
    /// Documentation of the function.
    pub documentation: Vec<String>,
    /// Instructions belonging to this function.
    pub instructions: Instructions,
    /// Number of users of the function.
    pub user_count: usize,
}

/// Stream of instructions.
#[derive(Debug)]
pub struct Instructions {
    pub instructions: Vec<Instruction>,
}

/// A [`Function`] as a mathematical value.
pub struct FunctionView {
    pub name: Seq<char>,
    pub documentation: Seq<Seq<char>>,
    pub instructions: Seq<InstructionView>,
    pub user_count: nat,
}

/// A [`Module`] as a mathematical value.
pub struct ModuleView {
    pub name: Seq<char>,
    pub instructions: Seq<InstructionView>,
    pub functions: Seq<FunctionView>,
}

/// An [`Application`] as a mathematical value.
pub struct ApplicationView {
    pub name: Seq<char>,
    pub entry_point: Address,
    pub modules: Seq<ModuleView>,
    pub defines: Seq<DefineView>,
    pub address_lookup: AddressBook,
}

/// The instructions of the functions, one function after the other.
pub open spec fn function_streams(functions: Seq<FunctionView>) -> Seq<InstructionView>
    decreases functions.len(),
{
    if functions.len() == 0 {
        Seq::empty()
    } else {
        function_streams(functions.drop_last()) + functions.last().instructions
    }
}

/// The instructions of the modules, one module after the other.
pub open spec fn module_streams(modules: Seq<ModuleView>) -> Seq<InstructionView>
    decreases modules.len(),
{
    if modules.len() == 0 {
        Seq::empty()
    } else {
        module_streams(modules.drop_last()) + modules.last().stream()
    }
}

/// Is the instruction of `stream` at `index` a label with the given name.
pub open spec fn is_label_at(stream: Seq<InstructionView>, index: int, name: Seq<char>) -> bool {
    0 <= index < stream.len() && stream[index].operation == OperationView::Label(name)
}

impl ModuleView {
    /// The instructions of the module in the order of their addresses: the
    /// module's own, then those of its functions.
    pub open spec fn stream(self) -> Seq<InstructionView> {
        self.instructions + function_streams(self.functions)
    }
}

impl ApplicationView {
    /// The instructions of the application in the order of their addresses.
    /// The layout, the validator and the generators all walk the
    /// application in this order.
    pub open spec fn stream(self) -> Seq<InstructionView> {
        module_streams(self.modules)
    }
}

/// The instructions of two runs of functions, one after the other.
pub proof fn lemma_function_streams_concat(first: Seq<FunctionView>, second: Seq<FunctionView>)
    ensures
        function_streams(first + second) == function_streams(first) + function_streams(second),
    decreases second.len(),
{
    if second.len() == 0 {
        assert(first + second =~= first);
        assert(function_streams(first) + function_streams(second) =~= function_streams(first));
    } else {
        assert((first + second).drop_last() =~= first + second.drop_last());
        assert((first + second).last() == second.last());
        lemma_function_streams_concat(first, second.drop_last());
        assert(function_streams(first + second) =~= function_streams(first) + function_streams(
            second,
        ));
    }
}

/// The instructions of two runs of modules, one after the other.
pub proof fn lemma_module_streams_concat(first: Seq<ModuleView>, second: Seq<ModuleView>)
    ensures
        module_streams(first + second) == module_streams(first) + module_streams(second),
    decreases second.len(),
{
    if second.len() == 0 {
        assert(first + second =~= first);
        assert(module_streams(first) + module_streams(second) =~= module_streams(first));
    } else {
        assert((first + second).drop_last() =~= first + second.drop_last());
        assert((first + second).last() == second.last());
        lemma_module_streams_concat(first, second.drop_last());
        assert(module_streams(first + second) =~= module_streams(first) + module_streams(second));
    }
}

/// The functions up to and including the one at `index` hold the
/// instructions of those before it, then its own; those after it follow.
pub proof fn lemma_function_streams_step(functions: Seq<FunctionView>, index: int)
    requires
        0 <= index < functions.len(),
    ensures
        function_streams(functions.take(index + 1)) == function_streams(functions.take(index))
            + functions[index].instructions,
        function_streams(functions) == function_streams(functions.take(index + 1))
            + function_streams(functions.skip(index + 1)),
{
    assert(functions.take(index + 1).drop_last() =~= functions.take(index));
    assert(functions.take(index + 1).last() == functions[index]);
    lemma_function_streams_concat(functions.take(index + 1), functions.skip(index + 1));
    assert(functions.take(index + 1) + functions.skip(index + 1) =~= functions);
}

/// The modules up to and including the one at `index` hold the instructions
/// of those before it, then its own; those after it follow.
pub proof fn lemma_module_streams_step(modules: Seq<ModuleView>, index: int)
    requires
        0 <= index < modules.len(),
    ensures
        module_streams(modules.take(index + 1)) == module_streams(modules.take(index))
            + modules[index].stream(),
        module_streams(modules) == module_streams(modules.take(index + 1)) + module_streams(
            modules.skip(index + 1),
        ),
{
    assert(modules.take(index + 1).drop_last() =~= modules.take(index));
    assert(modules.take(index + 1).last() == modules[index]);
    lemma_module_streams_concat(modules.take(index + 1), modules.skip(index + 1));
    assert(modules.take(index + 1) + modules.skip(index + 1) =~= modules);
}

impl View for Instructions {
    type V = Seq<InstructionView>;

    open spec fn view(&self) -> Seq<InstructionView> {
        self.instructions@.map_values(|instruction: Instruction| instruction@)
    }
}

impl View for Function {
    type V = FunctionView;

    open spec fn view(&self) -> FunctionView {
        FunctionView {
            name: self.name@,
            documentation: self.documentation@.map_values(|line: String| line@),
            instructions: self.instructions@,
            user_count: self.user_count as nat,
        }
    }
}

impl View for Module {
    type V = ModuleView;

    open spec fn view(&self) -> ModuleView {
        ModuleView {
            name: self.name@,
            instructions: self.instructions@,
            functions: self.functions@.map_values(|function: Function| function@),
        }
    }
}

impl View for Application {
    type V = ApplicationView;

    open spec fn view(&self) -> ApplicationView {
        ApplicationView {
            name: self.name@,
            entry_point: self.entry_point,
            modules: self.modules@.map_values(|module: Module| module@),
            defines: self.defines@.map_values(|define: Define| define@),
            address_lookup: self.address_lookup@,
        }
    }
}

impl Clone for Instructions {
    fn clone(&self) -> (copy: Self)
        ensures
            copy@ == self@,
    {
        let copy = Instructions { instructions: self.instructions.clone() };
        assert(copy@ =~= self@);
        copy
    }
}

impl Default for Instructions {
    fn default() -> (instructions: Self)
        ensures
            instructions@ == Seq::<InstructionView>::empty(),
    {
        let instructions = Instructions { instructions: Vec::new() };
        assert(instructions@ =~= Seq::empty());
        instructions
    }
}

impl Clone for Function {
    fn clone(&self) -> (copy: Self)
        ensures
            copy@ == self@,
    {
        let copy = Function {
            name: self.name.clone(),
            documentation: self.documentation.clone(),
            instructions: self.instructions.clone(),
            user_count: self.user_count,
        };
        assert(copy@.documentation =~= self@.documentation);
        copy
    }
}

impl Default for Function {
    fn default() -> (function: Self)
        ensures
            function@ == (FunctionView {
                name: Seq::empty(),
                documentation: Seq::empty(),
                instructions: Seq::empty(),
                user_count: 0,
            }),
    {
        let function = Function {
            name: String::new(),
            documentation: Vec::new(),
            instructions: Instructions::default(),
            user_count: 0,
        };
        assert(function@.documentation =~= Seq::empty());
        function
    }
}

impl UserCount for Function {
    open spec fn users(&self) -> nat {
        self.user_count as nat
    }

    fn user_increase(&mut self)
        ensures
            final(self).name == old(self).name,
            final(self).documentation == old(self).documentation,
            final(self).instructions == old(self).instructions,
    {
        if self.user_count < usize::MAX {
            self.user_count += 1;
        }
    }

    fn user_count(&self) -> (count: usize) {
        self.user_count
    }
}

impl Clone for Module {
    fn clone(&self) -> (copy: Self)
        ensures
            copy@ == self@,
    {
        let copy = Module {
            name: self.name.clone(),
            instructions: self.instructions.clone(),
            functions: self.functions.clone(),
        };
        assert(copy@.functions =~= self@.functions);
        copy
    }
}

impl Default for Module {
    fn default() -> (module: Self)
        ensures
            module@ == (ModuleView {
                name: Seq::empty(),
                instructions: Seq::empty(),
                functions: Seq::empty(),
            }),
    {
        let module = Module {
            name: String::new(),
            instructions: Instructions::default(),
            functions: Vec::new(),
        };
        assert(module@.functions =~= Seq::empty());
        module
    }
}

} // verus!
