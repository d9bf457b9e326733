//! The target of a branch must be within reach of the branch.
use super::{AssemblerResult, Error, ErrorView};
use crate::generator::placement::{encoded_size, size_in_program};
use crate::instruction::operation::Operation;
use crate::instruction::InstructionView;
use crate::memory::address_mode::{AddressMode, AddressModeView};
use crate::memory::{add_offset, address_after, Address, AddressBook};
use crate::{
    function_streams, lemma_function_streams_step, lemma_module_streams_step, module_streams,
    Application, FunctionView, Instructions, ModuleView,
};
use vstd::prelude::*;

verus! {

/// The distance from the end of a branch instruction at `address` to `target`.
pub open spec fn branch_distance(address: Address, target: Address) -> int {
    target - address_after(address, 2)
}

/// Can the operand of a branch instruction hold the distance: it is one
/// signed byte.
pub open spec fn is_branch_distance(distance: int) -> bool {
    -128 <= distance <= 127
}

/// The address after the last instruction that was checked, or the error of
/// the first branch that cannot be taken.
pub type Walk = Result<Address, ErrorView>;

/// Check the instruction that stands at `address` in the program and give
/// the address after it.
///
/// An instruction of the 6502 in relative mode is a branch. Its target has
/// to be known and within reach. The address after an instruction is the one
/// that it has in the program, see [`encoded_size`].
pub open spec fn check_branch(
    address: Address,
    instruction: InstructionView,
    book: AddressBook,
) -> Walk {
    let next = address_after(address, encoded_size(instruction, book));
    if instruction.operation is Mnemonic {
        match instruction.address_mode {
            AddressModeView::Relative(reference) => {
                if !reference.is_known(book) {
                    Err(ErrorView::AddressNameUnknown(reference.name))
                } else if !is_branch_distance(branch_distance(address, reference.address(book))) {
                    Err(ErrorView::BranchOutOfRange(reference.name))
                } else {
                    Ok(next)
                }
            },
            _ => Ok(next),
        }
    } else {
        Ok(next)
    }
}

/// Check the instructions of `stream`, of which the first stands at
/// `address`, in their order.
pub open spec fn check_branches(
    address: Address,
    stream: Seq<InstructionView>,
    book: AddressBook,
) -> Walk
    decreases stream.len(),
{
    if stream.len() == 0 {
        Ok(address)
    } else {
        match check_branches(address, stream.drop_last(), book) {
            Ok(before) => check_branch(before, stream.last(), book),
            Err(error) => Err(error),
        }
    }
}

/// Checking two streams one after the other is checking their concatenation.
pub proof fn lemma_check_branches_concat(
    address: Address,
    first: Seq<InstructionView>,
    second: Seq<InstructionView>,
    book: AddressBook,
)
    ensures
        check_branches(address, first + second, book) == match check_branches(
            address,
            first,
            book,
        ) {
            Ok(before) => check_branches(before, second, book),
            Err(error) => Err(error),
        },
    decreases second.len(),
{
    if second.len() == 0 {
        assert(first + second =~= first);
    } else {
        assert((first + second).drop_last() =~= first + second.drop_last());
        assert((first + second).last() == second.last());
        lemma_check_branches_concat(address, first, second.drop_last(), book);
    }
}

proof fn lemma_next_function(
    address: Address,
    functions: Seq<FunctionView>,
    index: int,
    book: AddressBook,
)
    requires
        0 <= index < functions.len(),
        check_branches(address, function_streams(functions.take(index)), book) is Ok,
    ensures
        ({
            let before = check_branches(
                address,
                function_streams(functions.take(index)),
                book,
            )->Ok_0;
            let next = check_branches(before, functions[index].instructions, book);
            &&& check_branches(address, function_streams(functions.take(index + 1)), book) == next
            &&& next is Err ==> check_branches(address, function_streams(functions), book) == next
        }),
{
    lemma_function_streams_step(functions, index);
    lemma_check_branches_concat(
        address,
        function_streams(functions.take(index)),
        functions[index].instructions,
        book,
    );
    lemma_check_branches_concat(
        address,
        function_streams(functions.take(index + 1)),
        function_streams(functions.skip(index + 1)),
        book,
    );
}

proof fn lemma_next_module(
    address: Address,
    modules: Seq<ModuleView>,
    index: int,
    book: AddressBook,
)
    requires
        0 <= index < modules.len(),
        check_branches(address, module_streams(modules.take(index)), book) is Ok,
    ensures
        ({
            let before = check_branches(address, module_streams(modules.take(index)), book)->Ok_0;
            let next = check_branches(before, modules[index].stream(), book);
            &&& check_branches(address, module_streams(modules.take(index + 1)), book) == next
            &&& next is Err ==> check_branches(address, module_streams(modules), book) == next
        }),
{
    lemma_module_streams_step(modules, index);
    lemma_check_branches_concat(
        address,
        module_streams(modules.take(index)),
        modules[index].stream(),
        book,
    );
    lemma_check_branches_concat(
        address,
        module_streams(modules.take(index + 1)),
        module_streams(modules.skip(index + 1)),
        book,
    );
}

/// Check that every branch of the application reaches its target: that the
/// distance from the end of the branch instruction in the program to the
/// target fits into one signed byte. The error names the target of the first
/// branch that does not reach it.
pub fn validate_relative_addressing(application: &Application) -> (result: AssemblerResult<()>)
    ensures
        match check_branches(
            application.entry_point,
            application@.stream(),
            application@.address_lookup,
        ) {
            Ok(_) => result is Ok,
            Err(error) => result matches Err(reported) && reported@ == error,
        },
{
    let ghost book = application@.address_lookup;
    let ghost modules = application@.modules;
    let mut address = application.entry_point;
    let mut module_index: usize = 0;
    while module_index < application.modules.len()
        invariant
            module_index <= application.modules.len(),
            book == application@.address_lookup,
            modules == application@.modules,
            check_branches(
                application.entry_point,
                module_streams(modules.take(module_index as int)),
                book,
            ) == Ok::<Address, ErrorView>(address),
        decreases application.modules.len() - module_index,
    {
        let module = &application.modules[module_index];
        let ghost functions = module@.functions;
        let ghost module_start = address;
        proof {
            assert(modules[module_index as int] == module@);
            lemma_next_module(application.entry_point, modules, module_index as int, book);
            lemma_check_branches_concat(
                module_start,
                module@.instructions,
                function_streams(functions),
                book,
            );
        }
        address = validate_instructions(application, address, &module.instructions)?;
        let ghost functions_start = address;
        let mut function_index: usize = 0;
        while function_index < module.functions.len()
            invariant
                function_index <= module.functions.len(),
                book == application@.address_lookup,
                modules == application@.modules,
                functions == module@.functions,
                check_branches(
                    functions_start,
                    function_streams(functions.take(function_index as int)),
                    book,
                ) == Ok::<Address, ErrorView>(address),
                check_branches(functions_start, function_streams(functions), book)
                    == check_branches(
                    application.entry_point,
                    module_streams(modules.take(module_index + 1)),
                    book,
                ),
                check_branches(functions_start, function_streams(functions), book) is Err
                    ==> check_branches(
                    application.entry_point,
                    module_streams(modules),
                    book,
                ) == check_branches(functions_start, function_streams(functions), book),
            decreases module.functions.len() - function_index,
        {
            let function = &module.functions[function_index];
            proof {
                assert(functions[function_index as int] == function@);
                lemma_next_function(functions_start, functions, function_index as int, book);
            }
            address = validate_instructions(application, address, &function.instructions)?;
            function_index += 1;
        }
        assert(functions.take(function_index as int) =~= functions);
        module_index += 1;
    }
    assert(modules.take(module_index as int) =~= modules);
    Ok(())
}

/// Check the instructions of one stream, of which the first stands at
/// `address`, and give the address after the last.
fn validate_instructions(
    application: &Application,
    address: Address,
    instructions: &Instructions,
) -> (result: AssemblerResult<Address>)
    ensures
        match check_branches(address, instructions@, application@.address_lookup) {
            Ok(next) => result == Ok::<Address, Error>(next),
            Err(error) => result matches Err(reported) && reported@ == error,
        },
{
    let ghost book = application@.address_lookup;
    let ghost stream = instructions@;
    let mut current_address = address;
    let mut index: usize = 0;
    while index < instructions.instructions.len()
        invariant
            index <= instructions.instructions.len(),
            book == application@.address_lookup,
            stream == instructions@,
            check_branches(address, stream.take(index as int), book) == Ok::<Address, ErrorView>(
                current_address,
            ),
        decreases instructions.instructions.len() - index,
    {
        let instruction = &instructions.instructions[index];
        proof {
            assert(stream.take(index + 1).drop_last() =~= stream.take(index as int));
            assert(stream.take(index + 1).last() == instruction@);
            lemma_check_branches_concat(
                address,
                stream.take(index + 1),
                stream.skip(index + 1),
                book,
            );
            assert(stream.take(index + 1) + stream.skip(index + 1) =~= stream);
        }
        let next_instruction = add_offset(
            current_address,
            size_in_program(application, instruction),
        );
        match (&instruction.operation, &instruction.address_mode) {
            (Operation::Raw(_), _) | (Operation::Label(_), _) => {},
            (_, AddressMode::Relative(address_reference)) => {
                let target = application.lookup_address(&address_reference.name)?;
                let target = add_offset(target, address_reference.offset);
                let relative_address: i32 = target as i32 - next_instruction as i32;
                if relative_address < -128 || relative_address > 127 {
                    return Err(Error::BranchOutOfRange(address_reference.name.clone()));
                }
            },
            _ => {},
        }
        current_address = next_instruction;
        index += 1;
    }
    assert(stream.take(index as int) =~= stream);
    Ok(current_address)
}

} // verus!
