//! Laying out an application: giving every label its address.
use crate::instruction::operation::{Operation, OperationView};
use crate::instruction::InstructionView;
use crate::memory::define::{Define, DefineView};
use crate::memory::{add_offset, address_after, Address, AddressBook};
use crate::{
    function_streams, is_label_at, lemma_function_streams_step, lemma_module_streams_step,
    module_streams, Application, ApplicationView, FunctionView, Instructions, ModuleView,
};
use vstd::hash_map::StringHashMap;
use vstd::prelude::*;

verus! {

/// Where the layout stands: the addresses known so far, and the address of
/// the next instruction.
pub struct Layout {
    pub book: AddressBook,
    pub address: Address,
}

impl Layout {
    /// The layout after `instruction` has been placed at the current address.
    ///
    /// A label gets the current address and takes no room. Everything else
    /// moves the address on by its size, which for an absolute address mode
    /// depends on what the book holds at this point: a label that is declared
    /// further on is not in it yet.
    pub open spec fn place(self, instruction: InstructionView) -> Layout {
        match instruction.operation {
            OperationView::Label(name) => Layout {
                book: self.book.insert(name, self.address),
                address: self.address,
            },
            _ => Layout {
                book: self.book,
                address: address_after(self.address, instruction.byte_size(self.book)),
            },
        }
    }

    /// The layout after the instructions of `stream` have been placed, one
    /// after the other.
    pub open spec fn place_all(self, stream: Seq<InstructionView>) -> Layout
        decreases stream.len(),
    {
        if stream.len() == 0 {
            self
        } else {
            self.place_all(stream.drop_last()).place(stream.last())
        }
    }
}

/// The address book that holds the defines. Of two defines of one name the
/// later one counts.
pub open spec fn define_book(defines: Seq<DefineView>) -> AddressBook
    decreases defines.len(),
{
    if defines.len() == 0 {
        Map::empty()
    } else {
        define_book(defines.drop_last()).insert(
            defines.last().name,
            defines.last().value.spec_address(),
        )
    }
}

/// The address book of an application: its defines, and every label of
/// `stream` with the address it gets when the first instruction stands at
/// `entry_point`. Of two labels of one name the later one counts, and a label
/// counts over a define of its name.
pub open spec fn layout(
    entry_point: Address,
    defines: Seq<DefineView>,
    stream: Seq<InstructionView>,
) -> AddressBook {
    Layout { book: define_book(defines), address: entry_point }.place_all(stream).book
}

/// Placing two streams one after the other is placing their concatenation.
pub proof fn lemma_place_all_concat(
    start: Layout,
    first: Seq<InstructionView>,
    second: Seq<InstructionView>,
)
    ensures
        start.place_all(first + second) == start.place_all(first).place_all(second),
    decreases second.len(),
{
    if second.len() == 0 {
        assert(first + second =~= first);
    } else {
        assert((first + second).drop_last() =~= first + second.drop_last());
        assert((first + second).last() == second.last());
        lemma_place_all_concat(start, first, second.drop_last());
    }
}

/// The address book of the defines holds every define under its name, with
/// its address, unless a later define has the same name.
pub proof fn lemma_define_book_holds_define(defines: Seq<DefineView>, index: int)
    requires
        0 <= index < defines.len(),
        forall|later: int|
            index < later < defines.len() ==> defines[later].name != defines[index].name,
    ensures
        define_book(defines).contains_key(defines[index].name),
        define_book(defines)[defines[index].name] == defines[index].value.spec_address(),
    decreases defines.len(),
{
    if index < defines.len() - 1 {
        assert(defines.drop_last()[index] == defines[index]);
        assert forall|later: int|
            index < later < defines.drop_last().len() implies defines.drop_last()[later].name
            != defines.drop_last()[index].name by {
            assert(defines.drop_last()[later] == defines[later]);
        }
        lemma_define_book_holds_define(defines.drop_last(), index);
        assert(defines.last().name != defines[index].name);
    }
}

/// Placing instructions changes nothing for a name that none of their labels
/// has.
pub proof fn lemma_place_all_keeps_name(
    start: Layout,
    stream: Seq<InstructionView>,
    name: Seq<char>,
)
    requires
        forall|index: int| !is_label_at(stream, index, name),
    ensures
        start.place_all(stream).book.contains_key(name) == start.book.contains_key(name),
        start.place_all(stream).book[name] == start.book[name],
    decreases stream.len(),
{
    if stream.len() > 0 {
        assert forall|index: int| !is_label_at(stream.drop_last(), index, name) by {
            if 0 <= index < stream.drop_last().len() {
                assert(stream.drop_last()[index] == stream[index]);
                assert(!is_label_at(stream, index, name));
            }
        }
        lemma_place_all_keeps_name(start, stream.drop_last(), name);
        assert(!is_label_at(stream, stream.len() - 1, name));
    }
}

/// Placing instructions loses no name.
pub proof fn lemma_place_all_keeps_names(
    start: Layout,
    stream: Seq<InstructionView>,
    name: Seq<char>,
)
    requires
        start.book.contains_key(name),
    ensures
        start.place_all(stream).book.contains_key(name),
    decreases stream.len(),
{
    if stream.len() > 0 {
        lemma_place_all_keeps_names(start, stream.drop_last(), name);
    }
}

/// A label gets the address that the layout has reached where the label
/// stands, unless a later label has the same name.
pub proof fn lemma_label_address(
    start: Layout,
    stream: Seq<InstructionView>,
    index: int,
    name: Seq<char>,
)
    requires
        is_label_at(stream, index, name),
        forall|later: int| index < later ==> !is_label_at(stream, later, name),
    ensures
        start.place_all(stream).book.contains_key(name),
        start.place_all(stream).book[name] == start.place_all(stream.take(index)).address,
    decreases stream.len(),
{
    let last = stream.len() - 1;
    if index == last {
        assert(stream.take(index) =~= stream.drop_last());
    } else {
        assert(stream.drop_last()[index] == stream[index]);
        assert forall|later: int| index < later implies !is_label_at(
            stream.drop_last(),
            later,
            name,
        ) by {
            if later < stream.drop_last().len() {
                assert(stream.drop_last()[later] == stream[later]);
                assert(!is_label_at(stream, later, name));
            }
        }
        lemma_label_address(start, stream.drop_last(), index, name);
        assert(stream.drop_last().take(index) =~= stream.take(index));
        assert(!is_label_at(stream, last, name));
    }
}

/// A define keeps its address whatever the code is: the address lookup of
/// the application holds the name of a define with the address of the define,
/// unless a later define or a label has the same name.
pub proof fn lemma_define_keeps_address(
    entry_point: Address,
    defines: Seq<DefineView>,
    stream: Seq<InstructionView>,
    index: int,
)
    requires
        0 <= index < defines.len(),
        forall|later: int|
            index < later < defines.len() ==> defines[later].name != defines[index].name,
        forall|at: int| !is_label_at(stream, at, defines[index].name),
    ensures
        layout(entry_point, defines, stream).contains_key(defines[index].name),
        layout(entry_point, defines, stream)[defines[index].name]
            == defines[index].value.spec_address(),
{
    lemma_define_book_holds_define(defines, index);
    lemma_place_all_keeps_name(
        Layout { book: define_book(defines), address: entry_point },
        stream,
        defines[index].name,
    );
}

/// Placing the functions up to and including the one at `index` is placing
/// those before it, then its instructions.
proof fn lemma_place_next_function(start: Layout, functions: Seq<FunctionView>, index: int)
    requires
        0 <= index < functions.len(),
    ensures
        start.place_all(function_streams(functions.take(index + 1))) == start.place_all(
            function_streams(functions.take(index)),
        ).place_all(functions[index].instructions),
{
    lemma_function_streams_step(functions, index);
    lemma_place_all_concat(
        start,
        function_streams(functions.take(index)),
        functions[index].instructions,
    );
}

/// Placing the modules up to and including the one at `index` is placing
/// those before it, then its instructions.
proof fn lemma_place_next_module(start: Layout, modules: Seq<ModuleView>, index: int)
    requires
        0 <= index < modules.len(),
    ensures
        start.place_all(module_streams(modules.take(index + 1))) == start.place_all(
            module_streams(modules.take(index)),
        ).place_all(modules[index].stream()),
{
    lemma_module_streams_step(modules, index);
    lemma_place_all_concat(start, module_streams(modules.take(index)), modules[index].stream());
}

/// Enter the defines into an empty address book.
pub(crate) fn define_addresses(defines: &Vec<Define>) -> (book: StringHashMap<Address>)
    ensures
        book@ == define_book(defines@.map_values(|define: Define| define@)),
{
    let ghost views = defines@.map_values(|define: Define| define@);
    let mut book: StringHashMap<Address> = StringHashMap::new();
    let mut index: usize = 0;
    while index < defines.len()
        invariant
            index <= defines.len(),
            views == defines@.map_values(|define: Define| define@),
            book@ == define_book(views.take(index as int)),
        decreases defines.len() - index,
    {
        let define = &defines[index];
        book.insert(define.name.clone(), define.value.address());
        proof {
            assert(views.take(index + 1).drop_last() =~= views.take(index as int));
            assert(views.take(index + 1).last() == define@);
        }
        index += 1;
    }
    assert(views.take(index as int) =~= views);
    book
}

/// Place the instructions from `address` on: enter their labels into the
/// book and give back the address after the last of them.
fn update_label_addresses(
    book: &mut StringHashMap<Address>,
    address: Address,
    instructions: &Instructions,
) -> (next: Address)
    ensures
        (Layout { book: final(book)@, address: next }) == (Layout {
            book: old(book)@,
            address,
        }).place_all(instructions@),
{
    let ghost start = Layout { book: old(book)@, address };
    let ghost stream = instructions@;
    let mut address = address;
    let mut index: usize = 0;
    while index < instructions.instructions.len()
        invariant
            index <= instructions.instructions.len(),
            stream == instructions@,
            (Layout { book: book@, address }) == start.place_all(stream.take(index as int)),
        decreases instructions.instructions.len() - index,
    {
        let instruction = &instructions.instructions[index];
        proof {
            assert(stream.take(index + 1).drop_last() =~= stream.take(index as int));
            assert(stream.take(index + 1).last() == instruction@);
        }
        if let Operation::Label(label) = &instruction.operation {
            book.insert(label.clone(), address);
        } else {
            address = add_offset(address, instruction.byte_size_in(book));
        }
        index += 1;
    }
    assert(stream.take(index as int) =~= stream);
    address
}

/// Lay the application out: every label is entered into the address
/// lookup, with the address it gets when the first instruction stands at the
/// entry point. What the lookup held before stays, but for names that a label
/// has too. Nothing else changes.
pub fn finalize(application: &mut Application)
    ensures
        final(application)@ == (ApplicationView {
            address_lookup: (Layout {
                book: old(application)@.address_lookup,
                address: old(application)@.entry_point,
            }).place_all(old(application)@.stream()).book,
            ..old(application)@
        }),
{
    let ghost start = Layout {
        book: application@.address_lookup,
        address: application.entry_point,
    };
    let ghost modules = application@.modules;
    let mut address = application.entry_point;
    let mut module_index: usize = 0;
    while module_index < application.modules.len()
        invariant
            module_index <= application.modules.len(),
            application.name == old(application).name,
            application.entry_point == old(application).entry_point,
            application.modules == old(application).modules,
            application.defines == old(application).defines,
            modules == application@.modules,
            (Layout { book: application@.address_lookup, address }) == start.place_all(
                module_streams(modules.take(module_index as int)),
            ),
        decreases application.modules.len() - module_index,
    {
        let ghost functions = application.modules[module_index as int]@.functions;
        let ghost module_start = Layout { book: application@.address_lookup, address };
        address = update_label_addresses(
            &mut application.address_lookup,
            address,
            &application.modules[module_index].instructions,
        );
        let ghost functions_start = Layout { book: application@.address_lookup, address };
        let mut function_index: usize = 0;
        while function_index < application.modules[module_index].functions.len()
            invariant
                module_index < application.modules.len(),
                function_index <= application.modules[module_index as int].functions.len(),
                application.name == old(application).name,
                application.entry_point == old(application).entry_point,
                application.modules == old(application).modules,
                application.defines == old(application).defines,
                functions == application.modules[module_index as int]@.functions,
                (Layout { book: application@.address_lookup, address })
                    == functions_start.place_all(
                    function_streams(functions.take(function_index as int)),
                ),
            decreases application.modules[module_index as int].functions.len() - function_index,
        {
            proof {
                assert(functions[function_index as int]
                    == application.modules[module_index as int].functions[function_index as int]@);
                lemma_place_next_function(functions_start, functions, function_index as int);
            }
            address = update_label_addresses(
                &mut application.address_lookup,
                address,
                &application.modules[module_index].functions[function_index].instructions,
            );
            function_index += 1;
        }
        proof {
            assert(functions.take(function_index as int) =~= functions);
            assert(modules[module_index as int] == application.modules[module_index as int]@);
            lemma_place_all_concat(
                module_start,
                application.modules[module_index as int]@.instructions,
                function_streams(functions),
            );
            lemma_place_next_module(start, modules, module_index as int);
        }
        module_index += 1;
    }
    assert(modules.take(module_index as int) =~= modules);
}

} // verus!
