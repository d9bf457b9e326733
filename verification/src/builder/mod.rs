//! Builder classes for application, module, function and instructions
pub mod application;
pub mod finalize;
pub mod function;
pub mod instruction;
pub mod module;

pub use application::{Application, ApplicationBuilder, ApplicationView};
pub use function::FunctionBuilder;
pub use instruction::InstructionBuilder;
pub use module::ModuleBuilder;
