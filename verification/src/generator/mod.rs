//! Generators to export to a .PRG or source code.
use crate::validator::{AssemblerResult, ErrorView};
use crate::{Application, ApplicationView};
use vstd::prelude::*;

pub mod dasm;
pub mod hex;
pub mod hexdump;
pub mod placement;
pub mod program;

pub use dasm::DasmGenerator;
pub use hexdump::hexdump;
pub use program::ProgramGenerator;

verus! {

/// Generate an output for a given application.
pub trait Generator {
    type Output: View;

    /// What the generator makes of an application: the output, or the
    /// reason why there is none.
    spec fn generated(application: ApplicationView) -> Result<<Self::Output as View>::V, ErrorView>;

    /// Generate an output for the given application. What the generator
    /// holds from an earlier use is dropped.
    fn generate(self, application: Application) -> (result: AssemblerResult<Self::Output>)
        ensures
            match Self::generated(application@) {
                Ok(expected) => result matches Ok(output) && output@ == expected,
                Err(error) => result matches Err(reported) && reported@ == error,
            },
    ;
}

} // verus!
