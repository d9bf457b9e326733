//! Building a module.
use crate::{Function, Instructions, Module, ModuleView};
use vstd::prelude::*;

verus! {

/// Builder for a [`Module`].
pub struct ModuleBuilder {
    module: Module,
}

impl View for ModuleBuilder {
    type V = ModuleView;

    /// The module as it has been built so far.
    closed spec fn view(&self) -> ModuleView {
        self.module@
    }
}

impl Default for ModuleBuilder {
    fn default() -> (builder: Self)
        ensures
            builder@ == (ModuleView {
                name: Seq::empty(),
                instructions: Seq::empty(),
                functions: Seq::empty(),
            }),
    {
        ModuleBuilder { module: Module::default() }
    }
}

impl Clone for ModuleBuilder {
    fn clone(&self) -> (copy: Self)
        ensures
            copy@ == self@,
    {
        ModuleBuilder { module: self.module.clone() }
    }
}

impl ModuleBuilder {
    /// Set the name of the module.
    pub fn name(&mut self, name: &str) -> (builder: &mut Self)
        ensures
            builder@ == (ModuleView { name: name@, ..old(self)@ }),
            *final(self) == *final(builder),
    {
        self.module.name = name.to_string();
        self
    }

    /// Set the instructions of the module itself.
    pub fn instructions(&mut self, instructions: Instructions) -> (builder: &mut Self)
        ensures
            builder@ == (ModuleView { instructions: instructions@, ..old(self)@ }),
            *final(self) == *final(builder),
    {
        self.module.instructions = instructions;
        self
    }

    /// Add a function to the module.
    pub fn function(&mut self, function: Function) -> (builder: &mut Self)
        ensures
            builder@ == (ModuleView {
                functions: old(self)@.functions.push(function@),
                ..old(self)@
            }),
            *final(self) == *final(builder),
    {
        let ghost before = self@.functions;
        self.module.functions.push(function);
        assert(self@.functions =~= before.push(function@));
        self
    }

    /// The module that has been built.
    pub fn finalize(&self) -> (module: Module)
        ensures
            module@ == self@,
    {
        self.module.clone()
    }
}

} // verus!
