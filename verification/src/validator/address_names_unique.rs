//! No two labels may have the same name.
use super::{AssemblerResult, Error, ErrorView};
use crate::instruction::operation::{Operation, OperationView};
use crate::instruction::InstructionView;
use crate::{
    function_streams, is_label_at, lemma_function_streams_step, lemma_module_streams_step,
    module_streams, Application, FunctionView, Instructions, ModuleView,
};
use vstd::prelude::*;

verus! {

/// The names that have been seen, or the name that was seen twice.
pub type Visited = Result<Seq<Seq<char>>, Seq<char>>;

/// The names seen after the labels of `stream` have been added to
/// `visited`, in their order. The first label whose name has been seen
/// before ends it, with that name.
pub open spec fn visit_labels(visited: Seq<Seq<char>>, stream: Seq<InstructionView>) -> Visited
    decreases stream.len(),
{
    if stream.len() == 0 {
        Ok(visited)
    } else {
        match visit_labels(visited, stream.drop_last()) {
            Ok(before) => match stream.last().operation {
                OperationView::Label(name) => if before.contains(name) {
                    Err(name)
                } else {
                    Ok(before.push(name))
                },
                _ => Ok(before),
            },
            Err(name) => Err(name),
        }
    }
}

/// The first label of `stream` whose name an earlier label of `stream` has,
/// if there is one.
pub open spec fn first_duplicate_label(stream: Seq<InstructionView>) -> Option<Seq<char>> {
    match visit_labels(Seq::empty(), stream) {
        Ok(_) => None,
        Err(name) => Some(name),
    }
}

/// Visiting two streams one after the other is visiting their concatenation.
pub proof fn lemma_visit_labels_concat(
    visited: Seq<Seq<char>>,
    first: Seq<InstructionView>,
    second: Seq<InstructionView>,
)
    ensures
        visit_labels(visited, first + second) == match visit_labels(visited, first) {
            Ok(before) => visit_labels(before, second),
            Err(name) => Err(name),
        },
    decreases second.len(),
{
    if second.len() == 0 {
        assert(first + second =~= first);
    } else {
        assert((first + second).drop_last() =~= first + second.drop_last());
        assert((first + second).last() == second.last());
        lemma_visit_labels_concat(visited, first, second.drop_last());
    }
}

/// What a visit without error has seen: the names it started with and the
/// names of the labels of the stream, and nothing else.
pub proof fn lemma_visit_labels_ok(visited: Seq<Seq<char>>, stream: Seq<InstructionView>)
    requires
        visit_labels(visited, stream) is Ok,
    ensures
        forall|name: Seq<char>|
            visit_labels(visited, stream)->Ok_0.contains(name) <==> (visited.contains(name)
                || exists|index: int| is_label_at(stream, index, name)),
        forall|first: int, second: int, name: Seq<char>|
            is_label_at(stream, first, name) && is_label_at(stream, second, name) ==> first
                == second,
        forall|index: int, name: Seq<char>|
            is_label_at(stream, index, name) ==> !visited.contains(name),
    decreases stream.len(),
{
    if stream.len() > 0 {
        let front = stream.drop_last();
        let last = stream.len() - 1;
        lemma_visit_labels_ok(visited, front);
        let before = visit_labels(visited, front)->Ok_0;
        let after = visit_labels(visited, stream)->Ok_0;
        assert forall|index: int, name: Seq<char>|
            is_label_at(front, index, name) implies is_label_at(stream, index, name) by {
            assert(front[index] == stream[index]);
        }
        assert forall|index: int, name: Seq<char>|
            is_label_at(stream, index, name) && index != last implies is_label_at(
            front,
            index,
            name,
        ) by {
            assert(front[index] == stream[index]);
        }
        assert forall|name: Seq<char>|
            after.contains(name) <==> (visited.contains(name) || exists|index: int|
                is_label_at(stream, index, name)) by {
            if after.contains(name) {
                if before.contains(name) {
                    if !visited.contains(name) {
                        let index = choose|index: int| is_label_at(front, index, name);
                        assert(is_label_at(stream, index, name));
                    }
                } else {
                    let at = choose|at: int| 0 <= at < after.len() && after[at] == name;
                    assert(at == before.len());
                    assert(is_label_at(stream, last, name));
                }
            }
            if visited.contains(name) {
                assert(before.contains(name));
                let at = choose|at: int| 0 <= at < before.len() && before[at] == name;
                assert(after[at] == name);
            }
            if exists|index: int| is_label_at(stream, index, name) {
                let index = choose|index: int| is_label_at(stream, index, name);
                if index == last {
                    assert(after == before.push(name));
                    assert(after[before.len() as int] == name);
                } else {
                    assert(is_label_at(front, index, name));
                    assert(before.contains(name));
                    let at = choose|at: int| 0 <= at < before.len() && before[at] == name;
                    assert(after[at] == name);
                }
            }
        }
        assert forall|first: int, second: int, name: Seq<char>|
            is_label_at(stream, first, name) && is_label_at(stream, second, name) implies first
            == second by {
            if first != second {
                if first != last && second != last {
                    assert(is_label_at(front, first, name));
                    assert(is_label_at(front, second, name));
                } else {
                    let other = if first == last {
                        second
                    } else {
                        first
                    };
                    assert(is_label_at(front, other, name));
                    assert(before.contains(name));
                }
            }
        }
        assert forall|index: int, name: Seq<char>|
            is_label_at(stream, index, name) implies !visited.contains(name) by {
            if index == last {
                if visited.contains(name) {
                    assert(before.contains(name));
                }
            } else {
                assert(is_label_at(front, index, name));
            }
        }
    }
}

/// What a visit that ends in an error has found: a label whose name was
/// there at the start, or is that of an earlier label.
pub proof fn lemma_visit_labels_err(visited: Seq<Seq<char>>, stream: Seq<InstructionView>)
    requires
        visit_labels(visited, stream) is Err,
    ensures
        ({
            let name = visit_labels(visited, stream)->Err_0;
            exists|second: int|
                is_label_at(stream, second, name) && (visited.contains(name) || exists|first: int|
                    first < second && is_label_at(stream, first, name))
        }),
    decreases stream.len(),
{
    let name = visit_labels(visited, stream)->Err_0;
    if stream.len() > 0 {
        let front = stream.drop_last();
        let last = stream.len() - 1;
        if visit_labels(visited, front) is Err {
            lemma_visit_labels_err(visited, front);
            let second = choose|second: int|
                is_label_at(front, second, name) && (visited.contains(name) || exists|first: int|
                    first < second && is_label_at(front, first, name));
            assert(front[second] == stream[second]);
            assert(is_label_at(stream, second, name));
            if !visited.contains(name) {
                let first = choose|first: int| first < second && is_label_at(front, first, name);
                assert(front[first] == stream[first]);
                assert(first < second && is_label_at(stream, first, name));
            }
        } else {
            lemma_visit_labels_ok(visited, front);
            assert(is_label_at(stream, last, name));
            if !visited.contains(name) {
                let first = choose|first: int| is_label_at(front, first, name);
                assert(front[first] == stream[first]);
                assert(first < last && is_label_at(stream, first, name));
            }
        }
    }
}

proof fn lemma_next_function(
    visited: Seq<Seq<char>>,
    functions: Seq<FunctionView>,
    index: int,
)
    requires
        0 <= index < functions.len(),
        visit_labels(visited, function_streams(functions.take(index))) is Ok,
    ensures
        ({
            let before = visit_labels(visited, function_streams(functions.take(index)))->Ok_0;
            let next = visit_labels(before, functions[index].instructions);
            &&& visit_labels(visited, function_streams(functions.take(index + 1))) == next
            &&& next is Err ==> visit_labels(visited, function_streams(functions)) == next
        }),
{
    lemma_function_streams_step(functions, index);
    lemma_visit_labels_concat(
        visited,
        function_streams(functions.take(index)),
        functions[index].instructions,
    );
    lemma_visit_labels_concat(
        visited,
        function_streams(functions.take(index + 1)),
        function_streams(functions.skip(index + 1)),
    );
}

proof fn lemma_next_module(visited: Seq<Seq<char>>, modules: Seq<ModuleView>, index: int)
    requires
        0 <= index < modules.len(),
        visit_labels(visited, module_streams(modules.take(index))) is Ok,
    ensures
        ({
            let before = visit_labels(visited, module_streams(modules.take(index)))->Ok_0;
            let next = visit_labels(before, modules[index].stream());
            &&& visit_labels(visited, module_streams(modules.take(index + 1))) == next
            &&& next is Err ==> visit_labels(visited, module_streams(modules)) == next
        }),
{
    lemma_module_streams_step(modules, index);
    lemma_visit_labels_concat(
        visited,
        module_streams(modules.take(index)),
        modules[index].stream(),
    );
    lemma_visit_labels_concat(
        visited,
        module_streams(modules.take(index + 1)),
        module_streams(modules.skip(index + 1)),
    );
}

/// The names as mathematical values.
pub open spec fn names_view(names: Seq<String>) -> Seq<Seq<char>> {
    names.map_values(|name: String| name@)
}

/// Is the name among the names.
fn contains_name(names: &Vec<String>, name: &String) -> (found: bool)
    ensures
        found == names_view(names@).contains(name@),
{
    let mut index: usize = 0;
    while index < names.len()
        invariant
            index <= names.len(),
            forall|earlier: int| 0 <= earlier < index ==> names_view(names@)[earlier] != name@,
        decreases names.len() - index,
    {
        if names[index] == *name {
            assert(names_view(names@)[index as int] == name@);
            return true;
        }
        index += 1;
    }
    false
}

/// Check that no two labels of the application have the same name. The
/// error names the first label whose name an earlier label has.
pub fn validate_address_names_unique(application: &Application) -> (result: AssemblerResult<()>)
    ensures
        match first_duplicate_label(application@.stream()) {
            None => result is Ok,
            Some(name) => result matches Err(error) && error@
                == ErrorView::AddressNameNotUnique(name),
        },
{
    let ghost modules = application@.modules;
    let mut visited_names: Vec<String> = Vec::new();
    assert(names_view(visited_names@) =~= Seq::empty());
    let mut module_index: usize = 0;
    while module_index < application.modules.len()
        invariant
            module_index <= application.modules.len(),
            modules == application@.modules,
            visit_labels(Seq::empty(), module_streams(modules.take(module_index as int))) == Ok::<
                Seq<Seq<char>>,
                Seq<char>,
            >(names_view(visited_names@)),
        decreases application.modules.len() - module_index,
    {
        let module = &application.modules[module_index];
        let ghost functions = module@.functions;
        let ghost module_start = names_view(visited_names@);
        proof {
            assert(modules[module_index as int] == module@);
            lemma_next_module(Seq::empty(), modules, module_index as int);
            lemma_visit_labels_concat(
                module_start,
                module@.instructions,
                function_streams(functions),
            );
        }
        validate_instructions(&mut visited_names, &module.instructions)?;
        let ghost functions_start = names_view(visited_names@);
        let mut function_index: usize = 0;
        while function_index < module.functions.len()
            invariant
                function_index <= module.functions.len(),
                modules == application@.modules,
                functions == module@.functions,
                visit_labels(
                    functions_start,
                    function_streams(functions.take(function_index as int)),
                ) == Ok::<Seq<Seq<char>>, Seq<char>>(names_view(visited_names@)),
                visit_labels(functions_start, function_streams(functions)) == visit_labels(
                    Seq::empty(),
                    module_streams(modules.take(module_index + 1)),
                ),
                visit_labels(functions_start, function_streams(functions)) is Err ==> visit_labels(
                    Seq::empty(),
                    module_streams(modules),
                ) == visit_labels(functions_start, function_streams(functions)),
            decreases module.functions.len() - function_index,
        {
            let function = &module.functions[function_index];
            proof {
                assert(functions[function_index as int] == function@);
                lemma_next_function(functions_start, functions, function_index as int);
            }
            validate_instructions(&mut visited_names, &function.instructions)?;
            function_index += 1;
        }
        assert(functions.take(function_index as int) =~= functions);
        module_index += 1;
    }
    assert(modules.take(module_index as int) =~= modules);
    Ok(())
}

/// Check the labels of one stream against the names seen so far, and add
/// them to these.
fn validate_instructions(visited_names: &mut Vec<String>, instructions: &Instructions) -> (result:
    AssemblerResult<()>)
    ensures
        match visit_labels(names_view(old(visited_names)@), instructions@) {
            Ok(visited) => result is Ok && names_view(final(visited_names)@) == visited,
            Err(name) => result matches Err(error) && error@ == ErrorView::AddressNameNotUnique(
                name,
            ),
        },
{
    let ghost start = names_view(old(visited_names)@);
    let ghost stream = instructions@;
    let mut index: usize = 0;
    while index < instructions.instructions.len()
        invariant
            index <= instructions.instructions.len(),
            stream == instructions@,
            start == names_view(old(visited_names)@),
            visit_labels(start, stream.take(index as int)) == Ok::<Seq<Seq<char>>, Seq<char>>(
                names_view(visited_names@),
            ),
        decreases instructions.instructions.len() - index,
    {
        let instruction = &instructions.instructions[index];
        proof {
            assert(stream.take(index + 1).drop_last() =~= stream.take(index as int));
            assert(stream.take(index + 1).last() == instruction@);
            lemma_visit_labels_concat(start, stream.take(index + 1), stream.skip(index + 1));
            assert(stream.take(index + 1) + stream.skip(index + 1) =~= stream);
        }
        if let Operation::Label(label) = &instruction.operation {
            if contains_name(visited_names, label) {
                return Err(Error::AddressNameNotUnique(label.clone()));
            }
            let ghost before = names_view(visited_names@);
            visited_names.push(label.clone());
            assert(names_view(visited_names@) =~= before.push(label@));
        }
        index += 1;
    }
    assert(stream.take(index as int) =~= stream);
    Ok(())
}

} // verus!
