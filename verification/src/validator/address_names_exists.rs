//! Every name that an instruction refers to must be known.
use super::{AssemblerResult, Error, ErrorView};
use crate::instruction::InstructionView;
use crate::memory::address_mode::{AddressMode, Immediate};
use crate::memory::AddressBook;
use crate::{
    function_streams, lemma_function_streams_step, lemma_module_streams_step, module_streams,
    Application, FunctionView, Instructions, ModuleView,
};
use vstd::prelude::*;

verus! {

/// The first name in `stream` that an instruction refers to and that the
/// address book does not hold, if there is one.
pub open spec fn first_unknown_name(stream: Seq<InstructionView>, book: AddressBook) -> Option<
    Seq<char>,
>
    decreases stream.len(),
{
    if stream.len() == 0 {
        None
    } else {
        match first_unknown_name(stream.drop_last(), book) {
            Some(name) => Some(name),
            None => if stream.last().address_mode.is_known(book) {
                None
            } else {
                Some(stream.last().address_mode.reference()->0.name)
            },
        }
    }
}

/// The first unknown name of two streams is that of the first stream, or
/// without one that of the second.
pub proof fn lemma_first_unknown_name_concat(
    first: Seq<InstructionView>,
    second: Seq<InstructionView>,
    book: AddressBook,
)
    ensures
        first_unknown_name(first + second, book) == match first_unknown_name(first, book) {
            Some(name) => Some(name),
            None => first_unknown_name(second, book),
        },
    decreases second.len(),
{
    if second.len() == 0 {
        assert(first + second =~= first);
    } else {
        assert((first + second).drop_last() =~= first + second.drop_last());
        assert((first + second).last() == second.last());
        lemma_first_unknown_name_concat(first, second.drop_last(), book);
    }
}

/// A stream is without unknown name if and only if each of its instructions
/// is.
pub proof fn lemma_first_unknown_name_none(stream: Seq<InstructionView>, book: AddressBook)
    ensures
        first_unknown_name(stream, book) is None <==> forall|index: int|
            0 <= index < stream.len() ==> (#[trigger] stream[index]).address_mode.is_known(book),
    decreases stream.len(),
{
    if stream.len() > 0 {
        lemma_first_unknown_name_none(stream.drop_last(), book);
        if first_unknown_name(stream, book) is None {
            assert forall|index: int| 0 <= index < stream.len() implies (
            #[trigger] stream[index]).address_mode.is_known(book) by {
                if index < stream.len() - 1 {
                    assert(stream.drop_last()[index] == stream[index]);
                }
            }
        } else {
            if first_unknown_name(stream.drop_last(), book) is None {
                assert(!stream[stream.len() - 1].address_mode.is_known(book));
            } else {
                let index = choose|index: int|
                    0 <= index < stream.drop_last().len() && !(
                    #[trigger] stream.drop_last()[index]).address_mode.is_known(book);
                assert(stream[index] == stream.drop_last()[index]);
            }
        }
    }
}

/// The first unknown name is the name of a reference that the address book
/// does not hold, and every instruction before the one with that reference is
/// without unknown name.
pub proof fn lemma_first_unknown_name_some(stream: Seq<InstructionView>, book: AddressBook)
    requires
        first_unknown_name(stream, book) is Some,
    ensures
        exists|index: int|
            {
                &&& 0 <= index < stream.len()
                &&& !(#[trigger] stream[index]).address_mode.is_known(book)
                &&& stream[index].address_mode.reference()->0.name == first_unknown_name(
                    stream,
                    book,
                )->0
                &&& first_unknown_name(stream.take(index), book) is None
            },
    decreases stream.len(),
{
    let last = stream.len() - 1;
    if first_unknown_name(stream.drop_last(), book) is Some {
        lemma_first_unknown_name_some(stream.drop_last(), book);
        let index = choose|index: int|
            {
                &&& 0 <= index < stream.drop_last().len()
                &&& !(#[trigger] stream.drop_last()[index]).address_mode.is_known(book)
                &&& stream.drop_last()[index].address_mode.reference()->0.name
                    == first_unknown_name(stream.drop_last(), book)->0
                &&& first_unknown_name(stream.drop_last().take(index), book) is None
            };
        assert(stream[index] == stream.drop_last()[index]);
        assert(stream.drop_last().take(index) =~= stream.take(index));
    } else {
        assert(!stream[last].address_mode.is_known(book));
        assert(stream.take(last) =~= stream.drop_last());
    }
}

proof fn lemma_next_function(functions: Seq<FunctionView>, index: int, book: AddressBook)
    requires
        0 <= index < functions.len(),
        first_unknown_name(function_streams(functions.take(index)), book) is None,
    ensures
        ({
            let next = first_unknown_name(functions[index].instructions, book);
            &&& first_unknown_name(function_streams(functions.take(index + 1)), book) == next
            &&& next is Some ==> first_unknown_name(function_streams(functions), book) == next
        }),
{
    lemma_function_streams_step(functions, index);
    lemma_first_unknown_name_concat(
        function_streams(functions.take(index)),
        functions[index].instructions,
        book,
    );
    lemma_first_unknown_name_concat(
        function_streams(functions.take(index + 1)),
        function_streams(functions.skip(index + 1)),
        book,
    );
}

proof fn lemma_next_module(modules: Seq<ModuleView>, index: int, book: AddressBook)
    requires
        0 <= index < modules.len(),
        first_unknown_name(module_streams(modules.take(index)), book) is None,
    ensures
        ({
            let next = first_unknown_name(modules[index].stream(), book);
            &&& first_unknown_name(module_streams(modules.take(index + 1)), book) == next
            &&& next is Some ==> first_unknown_name(module_streams(modules), book) == next
        }),
{
    lemma_module_streams_step(modules, index);
    lemma_first_unknown_name_concat(
        module_streams(modules.take(index)),
        modules[index].stream(),
        book,
    );
    lemma_first_unknown_name_concat(
        module_streams(modules.take(index + 1)),
        module_streams(modules.skip(index + 1)),
        book,
    );
}

/// Check that the address lookup of the application holds every name that
/// an instruction refers to. The error names the first one that it does not
/// hold.
pub fn validate_address_names_exists(application: &Application) -> (result: AssemblerResult<()>)
    ensures
        match first_unknown_name(application@.stream(), application@.address_lookup) {
            None => result is Ok,
            Some(name) => result matches Err(error) && error@ == ErrorView::AddressNameUnknown(
                name,
            ),
        },
{
    let ghost book = application@.address_lookup;
    let ghost modules = application@.modules;
    let mut module_index: usize = 0;
    while module_index < application.modules.len()
        invariant
            module_index <= application.modules.len(),
            book == application@.address_lookup,
            modules == application@.modules,
            first_unknown_name(module_streams(modules.take(module_index as int)), book) is None,
        decreases application.modules.len() - module_index,
    {
        let module = &application.modules[module_index];
        let ghost functions = module@.functions;
        proof {
            assert(modules[module_index as int] == module@);
            lemma_next_module(modules, module_index as int, book);
            lemma_first_unknown_name_concat(
                module@.instructions,
                function_streams(functions),
                book,
            );
        }
        validate_instructions(application, &module.instructions)?;
        let mut function_index: usize = 0;
        while function_index < module.functions.len()
            invariant
                function_index <= module.functions.len(),
                book == application@.address_lookup,
                functions == module@.functions,
                first_unknown_name(function_streams(functions.take(function_index as int)), book)
                    is None,
                modules == application@.modules,
                first_unknown_name(function_streams(functions), book) is Some
                    ==> first_unknown_name(module_streams(modules), book) == first_unknown_name(
                    function_streams(functions),
                    book,
                ),
            decreases module.functions.len() - function_index,
        {
            let function = &module.functions[function_index];
            proof {
                assert(functions[function_index as int] == function@);
                lemma_next_function(functions, function_index as int, book);
            }
            validate_instructions(application, &function.instructions)?;
            function_index += 1;
        }
        assert(functions.take(function_index as int) =~= functions);
        module_index += 1;
    }
    assert(modules.take(module_index as int) =~= modules);
    Ok(())
}

/// Check the instructions of one stream.
fn validate_instructions(application: &Application, instructions: &Instructions) -> (result:
    AssemblerResult<()>)
    ensures
        match first_unknown_name(instructions@, application@.address_lookup) {
            None => result is Ok,
            Some(name) => result matches Err(error) && error@ == ErrorView::AddressNameUnknown(
                name,
            ),
        },
{
    let ghost book = application@.address_lookup;
    let ghost stream = instructions@;
    let mut index: usize = 0;
    while index < instructions.instructions.len()
        invariant
            index <= instructions.instructions.len(),
            book == application@.address_lookup,
            stream == instructions@,
            first_unknown_name(stream.take(index as int), book) is None,
        decreases instructions.instructions.len() - index,
    {
        let instruction = &instructions.instructions[index];
        proof {
            assert(stream.take(index + 1).drop_last() =~= stream.take(index as int));
            assert(stream.take(index + 1).last() == instruction@);
            lemma_first_unknown_name_concat(stream.take(index + 1), stream.skip(index + 1), book);
            assert(stream.take(index + 1) + stream.skip(index + 1) =~= stream);
        }
        match &instruction.address_mode {
            AddressMode::Implied
            | AddressMode::Accumulator
            | AddressMode::Immediate(Immediate::Byte(_)) => {},
            AddressMode::Immediate(Immediate::Low(address_reference))
            | AddressMode::Immediate(Immediate::High(address_reference))
            | AddressMode::Absolute(address_reference)
            | AddressMode::AbsoluteX(address_reference)
            | AddressMode::AbsoluteY(address_reference)
            | AddressMode::Relative(address_reference)
            | AddressMode::Indirect(address_reference)
            | AddressMode::IndexedIndirect(address_reference)
            | AddressMode::IndirectIndexed(address_reference) => {
                if !application.address_lookup.contains_key(address_reference.name.as_str()) {
                    return Err(Error::AddressNameUnknown(address_reference.name.clone()));
                }
            },
        }
        index += 1;
    }
    assert(stream.take(index as int) =~= stream);
    Ok(())
}

} // verus!
