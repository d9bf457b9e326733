//! Instructions: an operation and the way it addresses memory.
use crate::memory::address_mode::{AddressMode, AddressModeView};
use crate::memory::{Address, AddressBook};
use crate::validator::{AssemblerResult, Error, ErrorView};
use crate::Application;
use operation::{Operation, OperationView};
use vstd::hash_map::StringHashMap;
use vstd::prelude::*;

pub mod operation;

verus! {

/// Assembly instruction
///
/// An instruction is the combination of the operation and the address mode that the
/// operation should be using.
#[derive(Debug, PartialEq)]
pub struct Instruction {
    /// Operation of the instruction.
    pub operation: Operation,
    /// Address mode of the instruction.
    pub address_mode: AddressMode,
    /// Comments for when generating source code.
    pub comments: Vec<String>,
}

/// An [`Instruction`] as a mathematical value.
pub struct InstructionView {
    pub operation: OperationView,
    pub address_mode: AddressModeView,
    pub comments: Seq<Seq<char>>,
}

impl InstructionView {
    /// An instruction without comments.
    pub open spec fn new(
        operation: OperationView,
        address_mode: AddressModeView,
    ) -> InstructionView {
        InstructionView { operation, address_mode, comments: Seq::empty() }
    }

    /// A label: a name for the address of the instruction that follows.
    pub open spec fn label(name: Seq<char>) -> InstructionView {
        InstructionView::new(OperationView::Label(name), AddressModeView::Implied)
    }

    /// Bytes that become part of the program as they are.
    pub open spec fn raw(bytes: Seq<u8>) -> InstructionView {
        InstructionView::new(OperationView::Raw(bytes), AddressModeView::Implied)
    }

    /// The instruction with one more comment.
    pub open spec fn with_comment(self, comment: Seq<char>) -> InstructionView {
        InstructionView { comments: self.comments.push(comment), ..self }
    }

    /// Number of bytes that the layout reserves for the instruction: none
    /// for a label, their number for raw bytes, and for an instruction of the
    /// 6502 what its address mode takes.
    pub open spec fn byte_size(self, book: AddressBook) -> int {
        match self.operation {
            OperationView::Raw(bytes) => bytes.len() as int,
            OperationView::Label(_) => 0,
            OperationView::Mnemonic(_) => self.address_mode.byte_size(book),
        }
    }

    /// The name that keeps the size of the instruction unknown: that of the
    /// reference of an absolute mode of an instruction of the 6502, if the
    /// address book does not hold it.
    pub open spec fn unsized_name(self, book: AddressBook) -> Option<Seq<char>> {
        if self.operation is Mnemonic {
            self.address_mode.unsized_name(book)
        } else {
            None
        }
    }
}

impl View for Instruction {
    type V = InstructionView;

    open spec fn view(&self) -> InstructionView {
        InstructionView {
            operation: self.operation@,
            address_mode: self.address_mode@,
            comments: self.comments@.map_values(|comment: String| comment@),
        }
    }
}

impl Clone for Instruction {
    fn clone(&self) -> (copy: Self)
        ensures
            copy@ == self@,
    {
        let copy = Instruction {
            operation: self.operation.clone(),
            address_mode: self.address_mode.clone(),
            comments: self.comments.clone(),
        };
        assert(copy.comments@ =~= self.comments@);
        copy
    }
}

impl Instruction {
    /// Total number of bytes the instruction occupies on a 6502.
    ///
    /// Application parameter is used to identify if an instruction should use its zeropage variant.
    /// The number of raw bytes is given as far as an address can hold it.
    pub fn byte_size(&self, application: &Application) -> (result: AssemblerResult<Address>)
        ensures
            match self@.unsized_name(application@.address_lookup) {
                None => result == Ok::<Address, Error>(
                    (self@.byte_size(application@.address_lookup) % 0x1_0000) as Address,
                ),
                Some(name) => result matches Err(error) && error@
                    == ErrorView::AddressNameUnknown(name),
            },
    {
        if let Operation::Raw(bytes) = &self.operation {
            Ok((bytes.len() % 0x1_0000) as u16)
        } else if let Operation::Label(_) = &self.operation {
            Ok(0)
        } else {
            self.address_mode.byte_size(application)
        }
    }

    /// Number of bytes that the layout reserves for the instruction, going
    /// by the addresses that `book` holds, as far as an address can hold it.
    pub fn byte_size_in(&self, book: &StringHashMap<Address>) -> (size: Address)
        ensures
            size == self@.byte_size(book@) % 0x1_0000,
    {
        if let Operation::Raw(bytes) = &self.operation {
            (bytes.len() % 0x1_0000) as u16
        } else if let Operation::Label(_) = &self.operation {
            0
        } else {
            self.address_mode.byte_size_in(book)
        }
    }
}

impl Default for Instruction {
    fn default() -> (instruction: Self)
        ensures
            instruction@ == (InstructionView {
                operation: Operation::NOP@,
                address_mode: AddressModeView::Implied,
                comments: Seq::empty(),
            }),
    {
        let instruction = Instruction {
            operation: Operation::default(),
            address_mode: AddressMode::default(),
            comments: Vec::new(),
        };
        assert(instruction@.comments =~= Seq::empty());
        instruction
    }
}

} // verus!
