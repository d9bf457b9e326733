//! Building a function.
use crate::{Function, FunctionView, Instructions};
use vstd::prelude::*;

verus! {

/// Builder for a [`Function`].
pub struct FunctionBuilder {
    function: Function,
}

impl View for FunctionBuilder {
    type V = FunctionView;

    /// The function as it has been built so far.
    closed spec fn view(&self) -> FunctionView {
        self.function@
    }
}

impl Default for FunctionBuilder {
    fn default() -> (builder: Self)
        ensures
            builder@ == (FunctionView {
                name: Seq::empty(),
                documentation: Seq::empty(),
                instructions: Seq::empty(),
                user_count: 0,
            }),
    {
        FunctionBuilder { function: Function::default() }
    }
}

impl Clone for FunctionBuilder {
    fn clone(&self) -> (copy: Self)
        ensures
            copy@ == self@,
    {
        FunctionBuilder { function: self.function.clone() }
    }
}

impl FunctionBuilder {
    /// Set the name of the function.
    pub fn name(&mut self, name: &str) -> (builder: &mut Self)
        ensures
            builder@ == (FunctionView { name: name@, ..old(self)@ }),
            *final(self) == *final(builder),
    {
        self.function.name = name.to_string();
        self
    }

    /// Add lines to the documentation of the function.
    pub fn doc(&mut self, documentation: &[&str]) -> (builder: &mut Self)
        ensures
            builder@ == (FunctionView {
                documentation: old(self)@.documentation + documentation@.map_values(
                    |line: &str| line@,
                ),
                ..old(self)@
            }),
            *final(self) == *final(builder),
    {
        let ghost lines = documentation@.map_values(|line: &str| line@);
        let mut index: usize = 0;
        while index < documentation.len()
            invariant
                index <= documentation.len(),
                lines == documentation@.map_values(|line: &str| line@),
                self@ == (FunctionView {
                    documentation: old(self)@.documentation + lines.take(index as int),
                    ..old(self)@
                }),
            decreases documentation.len() - index,
        {
            let ghost before = self@.documentation;
            self.function.documentation.push(documentation[index].to_string());
            assert(self@.documentation =~= before.push(lines[index as int]));
            assert(lines.take(index + 1) =~= lines.take(index as int).push(lines[index as int]));
            assert(self@.documentation =~= old(self)@.documentation + lines.take(index + 1));
            index += 1;
        }
        assert(lines.take(index as int) =~= lines);
        self
    }

    /// Set the instructions of the function.
    pub fn instructions(&mut self, instructions: Instructions) -> (builder: &mut Self)
        ensures
            builder@ == (FunctionView { instructions: instructions@, ..old(self)@ }),
            *final(self) == *final(builder),
    {
        self.function.instructions = instructions;
        self
    }

    /// The function that has been built.
    pub fn build(&self) -> (function: Function)
        ensures
            function@ == self@,
    {
        self.function.clone()
    }
}

} // verus!
