//! Where the instructions of a program stand.
//!
//! The layout gives every label the address of the instruction behind it by
//! adding up sizes, and the program generator writes the instructions one
//! behind the other. The two agree as long as every instruction gets the size
//! that the layout took for it. Where they do not, labels do not mark the
//! bytes that they stand in front of; [`labels_mark_their_bytes`] tells.
use super::program::{
    encode_application, encode_bytes, encode_instruction, encode_operation, encode_stream,
    program_counter,
};
use crate::builder::finalize::{
    define_book, layout, lemma_define_keeps_address, lemma_label_address, Layout,
};
use crate::instruction::operation::OperationView;
use crate::instruction::InstructionView;
use crate::is_label_at;
use crate::isa::{isa_6502_row, no_opcode, InstructionDef, OpCode};
use crate::memory::address_mode::AddressModeView;
use crate::memory::define::DefineView;
use crate::memory::label::AddressReferenceView;
use crate::memory::{address_after, high_byte, low_byte, Address, AddressBook};
use crate::validator::relative_addressing::{
    branch_distance, check_branch, check_branches, is_branch_distance,
    lemma_check_branches_concat,
};
use crate::instruction::operation::Operation;
use crate::instruction::Instruction;
use crate::isa::unused_opcodes;
use crate::memory::address_mode::AddressMode;
use crate::memory::label::AddressReference;
use crate::memory::{add_offset, ZeroPage};
use crate::validator::{lemma_validation_ok, validation, ErrorView};
use crate::{
    function_streams, lemma_function_streams_step, lemma_module_streams_step, module_streams,
    Application, ApplicationView, FunctionView, Instructions, ModuleView,
};
use vstd::prelude::*;

verus! {

/// Number of bytes of an instruction with an absolute address: two in the
/// zero page form, three in the absolute form. It has the zero page form
/// where there is one and the address is known to lie in the zero page.
pub open spec fn absolute_or_zeropage_size(
    zeropage: OpCode,
    reference: AddressReferenceView,
    book: AddressBook,
) -> int {
    if zeropage != no_opcode() && reference.is_known(book) && reference.address(book) < 0x100 {
        2
    } else {
        3
    }
}

/// Number of bytes that the program generator writes for the instruction.
pub open spec fn encoded_size(instruction: InstructionView, book: AddressBook) -> int {
    match instruction.operation {
        OperationView::Label(_) => 0,
        OperationView::Raw(bytes) => bytes.len() as int,
        OperationView::Mnemonic(row) => match instruction.address_mode {
            AddressModeView::Implied | AddressModeView::Accumulator => 1,
            AddressModeView::Immediate(_) | AddressModeView::Relative(_) => 2,
            AddressModeView::Absolute(reference) => absolute_or_zeropage_size(
                isa_6502_row(row as int).zeropage,
                reference,
                book,
            ),
            AddressModeView::AbsoluteX(reference) => absolute_or_zeropage_size(
                isa_6502_row(row as int).zeropage_x,
                reference,
                book,
            ),
            AddressModeView::AbsoluteY(reference) => absolute_or_zeropage_size(
                isa_6502_row(row as int).zeropage_y,
                reference,
                book,
            ),
            AddressModeView::Indirect(_) => 3,
            AddressModeView::IndexedIndirect(_) | AddressModeView::IndirectIndexed(_) => 2,
        },
    }
}

/// Does the instruction take its zero page form for the reference.
fn takes_zeropage_form(
    application: &Application,
    zeropage: OpCode,
    unused: OpCode,
    reference: &AddressReference,
) -> (result: bool)
    requires
        unused == no_opcode(),
    ensures
        result == (absolute_or_zeropage_size(zeropage, reference@, application@.address_lookup)
            == 2),
{
    if zeropage == unused {
        return false;
    }
    match application.lookup_address(&reference.name) {
        Ok(address) => add_offset(address, reference.offset).is_zeropage(),
        Err(_) => false,
    }
}

/// Number of bytes that the program generator writes for the instruction,
/// as far as an address can hold it.
pub fn size_in_program(application: &Application, instruction: &Instruction) -> (size: Address)
    ensures
        size == encoded_size(instruction@, application@.address_lookup) % 0x1_0000,
{
    match (&instruction.operation.definition(), &instruction.operation) {
        (Some(definition), _) => {
            let unused = unused_opcodes();
            match &instruction.address_mode {
                AddressMode::Implied | AddressMode::Accumulator => 1,
                AddressMode::Immediate(_) | AddressMode::Relative(_) => 2,
                AddressMode::Absolute(reference) => {
                    if takes_zeropage_form(
                        application,
                        definition.zeropage,
                        unused.zeropage,
                        reference,
                    ) {
                        2
                    } else {
                        3
                    }
                },
                AddressMode::AbsoluteX(reference) => {
                    if takes_zeropage_form(
                        application,
                        definition.zeropage_x,
                        unused.zeropage_x,
                        reference,
                    ) {
                        2
                    } else {
                        3
                    }
                },
                AddressMode::AbsoluteY(reference) => {
                    if takes_zeropage_form(
                        application,
                        definition.zeropage_y,
                        unused.zeropage_y,
                        reference,
                    ) {
                        2
                    } else {
                        3
                    }
                },
                AddressMode::Indirect(_) => 3,
                AddressMode::IndexedIndirect(_) | AddressMode::IndirectIndexed(_) => 2,
            }
        },
        (None, Operation::Raw(bytes)) => (bytes.len() % 0x1_0000) as u16,
        (_, _) => 0,
    }
}

/// The bytes of an instruction are as many as [`encoded_size`] says.
pub proof fn lemma_encoded_size(instruction: InstructionView, book: AddressBook, address: Address)
    requires
        encode_instruction(instruction, book, address) is Ok,
    ensures
        encode_instruction(instruction, book, address)->Ok_0.len() == encoded_size(
            instruction,
            book,
        ),
{
}

/// Number of bytes that the program generator writes for the instructions.
pub open spec fn program_size(stream: Seq<InstructionView>, book: AddressBook) -> int
    decreases stream.len(),
{
    if stream.len() == 0 {
        0
    } else {
        program_size(stream.drop_last(), book) + encoded_size(stream.last(), book)
    }
}

/// The address of the instruction at `index` in the program: the entry
/// point and the bytes of the instructions before it.
pub open spec fn address_in_program(
    entry_point: Address,
    stream: Seq<InstructionView>,
    book: AddressBook,
    index: int,
) -> Address {
    address_after(entry_point, program_size(stream.take(index), book))
}

/// The size of the instructions is not negative.
pub proof fn lemma_program_size_nonnegative(stream: Seq<InstructionView>, book: AddressBook)
    ensures
        0 <= program_size(stream, book),
    decreases stream.len(),
{
    if stream.len() > 0 {
        lemma_program_size_nonnegative(stream.drop_last(), book);
    }
}

/// The address no byte after an address is the address.
proof fn lemma_address_after_zero(address: Address)
    ensures
        address_after(address, 0) == address,
{
}

/// The address some bytes behind an address some bytes behind an address.
proof fn lemma_address_after_twice(address: Address, first: int, second: int)
    requires
        0 <= first,
        0 <= second,
    ensures
        address_after(address_after(address, first), second) == address_after(
            address,
            first + second,
        ),
{
    let base = address + first;
    assert(((base % 0x1_0000) + second) % 0x1_0000 == (base + second) % 0x1_0000) by {
        vstd::arithmetic::div_mod::lemma_add_mod_noop(base, second, 0x1_0000);
        vstd::arithmetic::div_mod::lemma_add_mod_noop(base % 0x1_0000, second, 0x1_0000);
        vstd::arithmetic::div_mod::lemma_mod_twice(base, 0x1_0000);
    }
}

/// The address of the next byte of the output moves on with the output.
proof fn lemma_program_counter_advances(entry_point: Address, length: nat, size: int)
    requires
        0 <= size,
    ensures
        address_after(program_counter(entry_point, length), size) == program_counter(
            entry_point,
            (length + size) as nat,
        ),
{
    let base = entry_point + length - 2;
    assert(((base % 0x1_0000) + size) % 0x1_0000 == (base + size) % 0x1_0000) by {
        vstd::arithmetic::div_mod::lemma_add_mod_noop(base, size, 0x1_0000);
        vstd::arithmetic::div_mod::lemma_add_mod_noop(base % 0x1_0000, size, 0x1_0000);
        vstd::arithmetic::div_mod::lemma_mod_twice(base, 0x1_0000);
    }
}

/// The program stands where [`address_in_program`] says: once the
/// instructions before the one at `index` are written behind the address that
/// the program is loaded at, the next byte has this address.
pub proof fn lemma_address_in_program(
    entry_point: Address,
    stream: Seq<InstructionView>,
    book: AddressBook,
    index: int,
)
    requires
        0 <= index <= stream.len(),
        encode_stream(
            seq![low_byte(entry_point), high_byte(entry_point)],
            stream.take(index),
            book,
            entry_point,
        ) is Ok,
    ensures
        program_counter(
            entry_point,
            encode_stream(
                seq![low_byte(entry_point), high_byte(entry_point)],
                stream.take(index),
                book,
                entry_point,
            )->Ok_0.len(),
        ) == address_in_program(entry_point, stream, book, index),
    decreases index,
{
    let header = seq![low_byte(entry_point), high_byte(entry_point)];
    if index == 0 {
        assert(stream.take(0) =~= Seq::<InstructionView>::empty());
        assert(program_counter(entry_point, header.len()) == entry_point);
        assert(address_after(entry_point, 0) == entry_point);
    } else {
        let front = stream.take(index - 1);
        assert(stream.take(index).drop_last() =~= front);
        assert(stream.take(index).last() == stream[index - 1]);
        lemma_address_in_program(entry_point, stream, book, index - 1);
        let before = encode_stream(header, front, book, entry_point)->Ok_0;
        let address = program_counter(entry_point, before.len());
        let bytes = encode_instruction(stream[index - 1], book, address)->Ok_0;
        lemma_encoded_size(stream[index - 1], book, address);
        lemma_program_size_nonnegative(front, book);
        lemma_address_after_twice(entry_point, program_size(front, book), bytes.len() as int);
        lemma_program_counter_advances(entry_point, before.len(), bytes.len() as int);
    }
}

/// Does every label mark the byte of the program that it stands in front
/// of: does the address book hold for every label of the stream the address
/// that the instruction behind the label has in the program.
pub open spec fn labels_are_placed(
    entry_point: Address,
    stream: Seq<InstructionView>,
    book: AddressBook,
) -> bool {
    forall|index: int, name: Seq<char>|
        #[trigger] is_label_at(stream, index, name) ==> book.contains_key(name) && book[name]
            == address_in_program(entry_point, stream, book, index)
}

/// The address behind an instruction that stands at `address` in the
/// program. There is none where the instruction is a label that the address
/// book does not hold with this address.
pub open spec fn follow_instruction(
    address: Address,
    instruction: InstructionView,
    book: AddressBook,
) -> Option<Address> {
    match instruction.operation {
        OperationView::Label(name) => if book.contains_key(name) && book[name] == address {
            Some(address)
        } else {
            None
        },
        _ => Some(address_after(address, encoded_size(instruction, book))),
    }
}

/// The address behind the instructions of a stream that starts at
/// `address` in the program. There is none where a label of the stream does
/// not mark the byte that it stands in front of.
pub open spec fn follow_program(
    address: Address,
    stream: Seq<InstructionView>,
    book: AddressBook,
) -> Option<Address>
    decreases stream.len(),
{
    if stream.len() == 0 {
        Some(address)
    } else {
        match follow_program(address, stream.drop_last(), book) {
            Some(before) => follow_instruction(before, stream.last(), book),
            None => None,
        }
    }
}

/// Following two streams one after the other is following their
/// concatenation.
pub proof fn lemma_follow_program_concat(
    address: Address,
    first: Seq<InstructionView>,
    second: Seq<InstructionView>,
    book: AddressBook,
)
    ensures
        follow_program(address, first + second, book) == match follow_program(
            address,
            first,
            book,
        ) {
            Some(before) => follow_program(before, second, book),
            None => None,
        },
    decreases second.len(),
{
    if second.len() == 0 {
        assert(first + second =~= first);
    } else {
        assert((first + second).drop_last() =~= first + second.drop_last());
        assert((first + second).last() == second.last());
        lemma_follow_program_concat(address, first, second.drop_last(), book);
    }
}

/// Following a program leads to the address behind its bytes, and there is
/// such an address if and only if every label marks the byte that it stands
/// in front of.
pub proof fn lemma_follow_program(
    entry_point: Address,
    stream: Seq<InstructionView>,
    book: AddressBook,
)
    ensures
        follow_program(entry_point, stream, book) is Some <==> labels_are_placed(
            entry_point,
            stream,
            book,
        ),
        follow_program(entry_point, stream, book) matches Some(address) ==> address
            == address_after(entry_point, program_size(stream, book)),
    decreases stream.len(),
{
    if stream.len() == 0 {
        assert(address_after(entry_point, 0) == entry_point);
    } else {
        let front = stream.drop_last();
        let last = stream.len() - 1;
        lemma_follow_program(entry_point, front, book);
        lemma_program_size_nonnegative(front, book);
        assert(stream.take(last) =~= front);
        assert forall|index: int| 0 <= index < last implies #[trigger] address_in_program(
            entry_point,
            stream,
            book,
            index,
        ) == address_in_program(entry_point, front, book, index) by {
            assert(front.take(index) =~= stream.take(index));
        }
        assert forall|index: int, name: Seq<char>| index != last implies is_label_at(
            stream,
            index,
            name,
        ) == #[trigger] is_label_at(front, index, name) by {
            if 0 <= index < last {
                assert(front[index] == stream[index]);
            }
        }
        if follow_program(entry_point, front, book) is Some {
            let before = follow_program(entry_point, front, book)->Some_0;
            assert(before == address_in_program(entry_point, stream, book, last));
            lemma_address_after_twice(
                entry_point,
                program_size(front, book),
                encoded_size(stream[last], book),
            );
            if follow_program(entry_point, stream, book) is Some {
                assert forall|index: int, name: Seq<char>| #[trigger]
                    is_label_at(stream, index, name) implies book.contains_key(name) && book[name]
                    == address_in_program(entry_point, stream, book, index) by {
                    if index != last {
                        assert(is_label_at(front, index, name));
                    }
                }
            } else {
                let name = stream[last].operation->Label_0;
                assert(is_label_at(stream, last, name));
            }
        } else {
            let (index, name) = choose|index: int, name: Seq<char>| #[trigger]
                is_label_at(front, index, name) && !(book.contains_key(name) && book[name]
                    == address_in_program(entry_point, front, book, index));
            assert(is_label_at(stream, index, name));
        }
    }
}

proof fn lemma_follow_next_function(
    address: Address,
    functions: Seq<FunctionView>,
    index: int,
    book: AddressBook,
)
    requires
        0 <= index < functions.len(),
        follow_program(address, function_streams(functions.take(index)), book) is Some,
    ensures
        ({
            let before = follow_program(
                address,
                function_streams(functions.take(index)),
                book,
            )->Some_0;
            let next = follow_program(before, functions[index].instructions, book);
            &&& follow_program(address, function_streams(functions.take(index + 1)), book) == next
            &&& next is None ==> follow_program(address, function_streams(functions), book)
                is None
        }),
{
    lemma_function_streams_step(functions, index);
    lemma_follow_program_concat(
        address,
        function_streams(functions.take(index)),
        functions[index].instructions,
        book,
    );
    lemma_follow_program_concat(
        address,
        function_streams(functions.take(index + 1)),
        function_streams(functions.skip(index + 1)),
        book,
    );
}

proof fn lemma_follow_next_module(
    address: Address,
    modules: Seq<ModuleView>,
    index: int,
    book: AddressBook,
)
    requires
        0 <= index < modules.len(),
        follow_program(address, module_streams(modules.take(index)), book) is Some,
    ensures
        ({
            let before = follow_program(address, module_streams(modules.take(index)), book)->Some_0;
            let next = follow_program(before, modules[index].stream(), book);
            &&& follow_program(address, module_streams(modules.take(index + 1)), book) == next
            &&& next is None ==> follow_program(address, module_streams(modules), book) is None
        }),
{
    lemma_module_streams_step(modules, index);
    lemma_follow_program_concat(
        address,
        module_streams(modules.take(index)),
        modules[index].stream(),
        book,
    );
    lemma_follow_program_concat(
        address,
        module_streams(modules.take(index + 1)),
        module_streams(modules.skip(index + 1)),
        book,
    );
}

/// Follow the instructions of one stream that starts at `address`.
fn follow_instructions(
    application: &Application,
    address: Address,
    instructions: &Instructions,
) -> (result: Option<Address>)
    ensures
        result == follow_program(address, instructions@, application@.address_lookup),
{
    let ghost book = application@.address_lookup;
    let ghost stream = instructions@;
    let mut current_address = address;
    let mut index: usize = 0;
    while index < instructions.instructions.len()
        invariant
            index <= instructions.instructions.len(),
            book == application@.address_lookup,
            stream == instructions@,
            follow_program(address, stream.take(index as int), book) == Some(current_address),
        decreases instructions.instructions.len() - index,
    {
        let instruction = &instructions.instructions[index];
        proof {
            assert(stream.take(index + 1).drop_last() =~= stream.take(index as int));
            assert(stream.take(index + 1).last() == instruction@);
            lemma_follow_program_concat(
                address,
                stream.take(index + 1),
                stream.skip(index + 1),
                book,
            );
            assert(stream.take(index + 1) + stream.skip(index + 1) =~= stream);
        }
        if let Operation::Label(label) = &instruction.operation {
            match application.lookup_address(label) {
                Ok(label_address) => {
                    if label_address != current_address {
                        return None;
                    }
                },
                Err(_) => {
                    return None;
                },
            }
        } else {
            current_address = add_offset(
                current_address,
                size_in_program(application, instruction),
            );
        }
        index += 1;
    }
    assert(stream.take(index as int) =~= stream);
    Some(current_address)
}

/// Does every label of the application mark the byte of the program that
/// it stands in front of, see [`labels_are_placed`].
///
/// The program of an application for which this does not hold jumps and
/// branches to other bytes than the labels stand in front of.
pub fn labels_mark_their_bytes(application: &Application) -> (placed: bool)
    ensures
        placed == labels_are_placed(
            application.entry_point,
            application@.stream(),
            application@.address_lookup,
        ),
{
    let ghost book = application@.address_lookup;
    let ghost modules = application@.modules;
    proof {
        lemma_follow_program(application.entry_point, application@.stream(), book);
    }
    let mut address = application.entry_point;
    let mut module_index: usize = 0;
    while module_index < application.modules.len()
        invariant
            module_index <= application.modules.len(),
            book == application@.address_lookup,
            modules == application@.modules,
            follow_program(
                application.entry_point,
                module_streams(modules.take(module_index as int)),
                book,
            ) == Some(address),
            follow_program(application.entry_point, module_streams(modules), book) is Some
                <==> labels_are_placed(application.entry_point, application@.stream(), book),
        decreases application.modules.len() - module_index,
    {
        let module = &application.modules[module_index];
        let ghost functions = module@.functions;
        let ghost module_start = address;
        proof {
            assert(modules[module_index as int] == module@);
            lemma_follow_next_module(application.entry_point, modules, module_index as int, book);
            lemma_follow_program_concat(
                module_start,
                module@.instructions,
                function_streams(functions),
                book,
            );
        }
        match follow_instructions(application, address, &module.instructions) {
            Some(next) => {
                address = next;
            },
            None => {
                return false;
            },
        }
        let ghost functions_start = address;
        let mut function_index: usize = 0;
        while function_index < module.functions.len()
            invariant
                function_index <= module.functions.len(),
                book == application@.address_lookup,
                modules == application@.modules,
                functions == module@.functions,
                follow_program(
                    functions_start,
                    function_streams(functions.take(function_index as int)),
                    book,
                ) == Some(address),
                follow_program(functions_start, function_streams(functions), book)
                    == follow_program(
                    application.entry_point,
                    module_streams(modules.take(module_index + 1)),
                    book,
                ),
                follow_program(functions_start, function_streams(functions), book) is None
                    ==> follow_program(
                    application.entry_point,
                    module_streams(modules),
                    book,
                ) is None,
                follow_program(application.entry_point, module_streams(modules), book) is Some
                    <==> labels_are_placed(application.entry_point, application@.stream(), book),
            decreases module.functions.len() - function_index,
        {
            let function = &module.functions[function_index];
            proof {
                assert(functions[function_index as int] == function@);
                lemma_follow_next_function(
                    functions_start,
                    functions,
                    function_index as int,
                    book,
                );
            }
            match follow_instructions(application, address, &function.instructions) {
                Some(next) => {
                    address = next;
                },
                None => {
                    return false;
                },
            }
            function_index += 1;
        }
        assert(functions.take(function_index as int) =~= functions);
        module_index += 1;
    }
    assert(modules.take(module_index as int) =~= modules);
    true
}

/// Does the layout that starts from `start` take for each of the first
/// `count` instructions of `stream` the size that the instruction has in the
/// program, which is generated with the address book `book`.
///
/// It does not for an instruction with an absolute address in the zero page
/// whose operation has no zero page form, nor for one that refers to a label
/// in the zero page that is declared further on.
pub open spec fn sizes_agree(
    start: Layout,
    stream: Seq<InstructionView>,
    book: AddressBook,
    count: int,
) -> bool {
    forall|index: int|
        0 <= index < count ==> #[trigger] encoded_size(stream[index], book)
            == stream[index].byte_size(start.place_all(stream.take(index)).book)
}

/// The layout and the program agree on the addresses: where the layout
/// takes for each of the first `count` instructions the size that it has in
/// the program, it stands behind these instructions where the program does.
pub proof fn lemma_layout_follows_program(
    start: Layout,
    stream: Seq<InstructionView>,
    book: AddressBook,
    count: int,
)
    requires
        0 <= count <= stream.len(),
        sizes_agree(start, stream, book, count),
    ensures
        start.place_all(stream.take(count)).address == address_in_program(
            start.address,
            stream,
            book,
            count,
        ),
    decreases count,
{
    if count == 0 {
        assert(stream.take(0) =~= Seq::<InstructionView>::empty());
        assert(address_after(start.address, 0) == start.address);
    } else {
        let front = stream.take(count - 1);
        let instruction = stream[count - 1];
        assert(stream.take(count).drop_last() =~= front);
        assert(stream.take(count).last() == instruction);
        lemma_layout_follows_program(start, stream, book, count - 1);
        let size = instruction.byte_size(start.place_all(front).book);
        assert(encoded_size(stream[count - 1], book) == size);
        assert(start.place_all(front).place(instruction).address == address_after(
            start.place_all(front).address,
            size,
        )) by {
            lemma_address_after_zero(start.place_all(front).address);
        }
        lemma_program_size_nonnegative(front, book);
        lemma_address_after_twice(start.address, program_size(front, book), size);
    }
}

/// The layout places the labels: in an application that has been laid out,
/// every label marks the byte of the program that it stands in front of. This
/// holds where the layout takes for every instruction the size that it has in
/// the program, and no two labels have the same name.
pub proof fn lemma_layout_places_labels(start: Layout, stream: Seq<InstructionView>)
    requires
        sizes_agree(start, stream, start.place_all(stream).book, stream.len() as int),
        forall|first: int, second: int, name: Seq<char>|
            is_label_at(stream, first, name) && is_label_at(stream, second, name) ==> first
                == second,
    ensures
        labels_are_placed(start.address, stream, start.place_all(stream).book),
{
    let book = start.place_all(stream).book;
    assert forall|index: int, name: Seq<char>| #[trigger]
        is_label_at(stream, index, name) implies book.contains_key(name) && book[name]
        == address_in_program(start.address, stream, book, index) by {
        lemma_label_address(start, stream, index, name);
        lemma_layout_follows_program(start, stream, book, index);
    }
}

/// An instruction that refers to a define gets the address of the define as
/// its operand, whatever the code is and wherever the define was made: its
/// machine code in the application is the one that it has with the defines
/// alone. This holds unless a later define or a label has the name of the
/// define.
pub proof fn lemma_reference_to_define(
    entry_point: Address,
    defines: Seq<DefineView>,
    stream: Seq<InstructionView>,
    index: int,
    definition: InstructionDef,
    address_mode: AddressModeView,
    address: Address,
)
    requires
        0 <= index < defines.len(),
        forall|later: int|
            index < later < defines.len() ==> defines[later].name != defines[index].name,
        forall|at: int| !is_label_at(stream, at, defines[index].name),
        address_mode.reference() matches Some(reference) && reference.name == defines[index].name,
    ensures
        ({
            let book = layout(entry_point, defines, stream);
            let reference = address_mode.reference()->0;
            &&& reference.is_known(book)
            &&& reference.address(book) == address_after(
                defines[index].value.spec_address(),
                reference.offset as int,
            )
            &&& encode_operation(definition, address_mode, book, address) == encode_operation(
                definition,
                address_mode,
                define_book(defines),
                address,
            )
        }),
{
    lemma_define_keeps_address(entry_point, defines, stream, index);
    crate::builder::finalize::lemma_define_book_holds_define(defines, index);
}

/// A branch to the label that follows it has the distance 0: the operand of
/// a branch without offset whose target is the label behind the branch is 0.
///
/// This holds where the label marks the byte that it stands in front of, see
/// [`labels_are_placed`], and only there.
pub proof fn lemma_branch_to_next_label(
    entry_point: Address,
    stream: Seq<InstructionView>,
    book: AddressBook,
    index: int,
    reference: AddressReferenceView,
)
    requires
        0 <= index < stream.len(),
        stream[index].operation is Mnemonic,
        stream[index].address_mode == AddressModeView::Relative(reference),
        reference.offset == 0,
        is_label_at(stream, index + 1, reference.name),
        book.contains_key(reference.name),
        book[reference.name] == address_in_program(entry_point, stream, book, index + 1),
    ensures
        ({
            let address = address_in_program(entry_point, stream, book, index);
            let row = stream[index].operation->Mnemonic_0;
            &&& branch_distance(address, reference.address(book)) == 0
            &&& encode_instruction(stream[index], book, address) == encode_bytes(
                isa_6502_row(row as int).relative,
                seq![0u8],
            )
        }),
{
    assert(stream.take(index + 1).drop_last() =~= stream.take(index));
    assert(stream.take(index + 1).last() == stream[index]);
    lemma_program_size_nonnegative(stream.take(index), book);
    lemma_address_after_twice(entry_point, program_size(stream.take(index), book), 2);
}

/// The check of the branches walks the program: where it finds nothing in
/// the first `count` instructions, it stands at the address of the instruction
/// behind them.
pub proof fn lemma_check_branches_follows_program(
    entry_point: Address,
    stream: Seq<InstructionView>,
    book: AddressBook,
    count: int,
)
    requires
        0 <= count <= stream.len(),
        check_branches(entry_point, stream, book) is Ok,
    ensures
        check_branches(entry_point, stream.take(count), book) == Ok::<Address, ErrorView>(
            address_in_program(entry_point, stream, book, count),
        ),
    decreases count,
{
    lemma_check_branches_concat(entry_point, stream.take(count), stream.skip(count), book);
    assert(stream.take(count) + stream.skip(count) =~= stream);
    if count == 0 {
        assert(stream.take(0) =~= Seq::<InstructionView>::empty());
        assert(address_after(entry_point, 0) == entry_point);
    } else {
        let front = stream.take(count - 1);
        assert(stream.take(count).drop_last() =~= front);
        assert(stream.take(count).last() == stream[count - 1]);
        lemma_check_branches_follows_program(entry_point, stream, book, count - 1);
        lemma_program_size_nonnegative(front, book);
        lemma_address_after_twice(
            entry_point,
            program_size(front, book),
            encoded_size(stream[count - 1], book),
        );
    }
}

/// Every branch of an application whose branches have been checked reaches
/// its target: the target is known, and the distance to it from the end of the
/// branch instruction in the program fits into one signed byte.
pub proof fn lemma_checked_branch_reaches_target(
    entry_point: Address,
    stream: Seq<InstructionView>,
    book: AddressBook,
    index: int,
    reference: AddressReferenceView,
)
    requires
        check_branches(entry_point, stream, book) is Ok,
        0 <= index < stream.len(),
        stream[index].operation is Mnemonic,
        stream[index].address_mode == AddressModeView::Relative(reference),
    ensures
        reference.is_known(book),
        is_branch_distance(
            branch_distance(
                address_in_program(entry_point, stream, book, index),
                reference.address(book),
            ),
        ),
{
    lemma_check_branches_follows_program(entry_point, stream, book, index);
    lemma_check_branches_follows_program(entry_point, stream, book, index + 1);
    assert(stream.take(index + 1).drop_last() =~= stream.take(index));
    assert(stream.take(index + 1).last() == stream[index]);
}

/// An instruction whose names are known and whose branch reaches its target
/// has machine code, unless it does not have its address mode.
proof fn lemma_valid_instruction_has_bytes(
    instruction: InstructionView,
    book: AddressBook,
    address: Address,
)
    requires
        instruction.address_mode.is_known(book),
        check_branch(address, instruction, book) is Ok,
    ensures
        encode_instruction(instruction, book, address) matches Err(error) ==> error
            == ErrorView::InternalCompilerError,
{
}

/// The first `count` instructions of a valid stream have a program, unless
/// one of them does not have its address mode.
proof fn lemma_valid_stream_has_a_program(
    stream: Seq<InstructionView>,
    book: AddressBook,
    entry_point: Address,
    count: int,
)
    requires
        0 <= count <= stream.len(),
        forall|index: int|
            0 <= index < stream.len() ==> (#[trigger] stream[index]).address_mode.is_known(book),
        check_branches(entry_point, stream, book) is Ok,
    ensures
        encode_stream(
            seq![low_byte(entry_point), high_byte(entry_point)],
            stream.take(count),
            book,
            entry_point,
        ) matches Err(error) ==> error == ErrorView::InternalCompilerError,
    decreases count,
{
    let header = seq![low_byte(entry_point), high_byte(entry_point)];
    if count > 0 {
        let front = stream.take(count - 1);
        let instruction = stream[count - 1];
        assert(stream.take(count).drop_last() =~= front);
        assert(stream.take(count).last() == instruction);
        lemma_valid_stream_has_a_program(stream, book, entry_point, count - 1);
        let encoded_front = encode_stream(header, front, book, entry_point);
        if encoded_front is Ok {
            let address = program_counter(entry_point, encoded_front->Ok_0.len());
            assert(check_branch(address, instruction, book) is Ok) by {
                lemma_address_in_program(entry_point, stream, book, count - 1);
                lemma_check_branches_follows_program(entry_point, stream, book, count - 1);
                lemma_check_branches_follows_program(entry_point, stream, book, count);
            }
            assert(instruction.address_mode.is_known(book));
            lemma_valid_instruction_has_bytes(instruction, book, address);
        }
    }
}

/// An application that the validation accepts has a program, unless one of
/// its instructions does not have its address mode: the program generator
/// finds no unknown name and no branch out of reach in it.
pub proof fn lemma_valid_application_has_a_program(application: ApplicationView)
    requires
        validation(application) is Ok,
    ensures
        encode_application(application) matches Err(error) ==> error
            == ErrorView::InternalCompilerError,
{
    lemma_validation_ok(application);
    assert(application.stream().take(application.stream().len() as int) =~= application.stream());
    lemma_valid_stream_has_a_program(
        application.stream(),
        application.address_lookup,
        application.entry_point,
        application.stream().len() as int,
    );
}

} // verus!
