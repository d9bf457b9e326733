//! The addressing modes of the 6502.
use super::label::{AddressReference, AddressReferenceView};
use super::{add_offset, Address, AddressBook, ZeroPage};
use crate::validator::{AssemblerResult, Error, ErrorView};
use crate::Application;
use vstd::hash_map::StringHashMap;
use vstd::prelude::*;

verus! {

/// How an instruction finds the memory it works on.
#[derive(Debug, PartialEq)]
pub enum AddressMode {
    Implied,
    Accumulator,
    Immediate(Immediate),
    Absolute(AddressReference),
    AbsoluteX(AddressReference),
    AbsoluteY(AddressReference),
    Relative(AddressReference),
    Indirect(AddressReference),
    IndexedIndirect(AddressReference),
    IndirectIndexed(AddressReference),
}

/// Operand of an instruction in immediate mode.
#[derive(Debug, PartialEq)]
pub enum Immediate {
    /// A literal byte.
    Byte(u8),
    /// The low byte of an address.
    Low(AddressReference),
    /// The high byte of an address.
    High(AddressReference),
}

/// An [`Immediate`] as a mathematical value.
pub enum ImmediateView {
    Byte(u8),
    Low(AddressReferenceView),
    High(AddressReferenceView),
}

/// An [`AddressMode`] as a mathematical value.
pub enum AddressModeView {
    Implied,
    Accumulator,
    Immediate(ImmediateView),
    Absolute(AddressReferenceView),
    AbsoluteX(AddressReferenceView),
    AbsoluteY(AddressReferenceView),
    Relative(AddressReferenceView),
    Indirect(AddressReferenceView),
    IndexedIndirect(AddressReferenceView),
    IndirectIndexed(AddressReferenceView),
}

impl AddressModeView {
    /// The address reference that the mode carries, if it carries one.
    pub open spec fn reference(self) -> Option<AddressReferenceView> {
        match self {
            AddressModeView::Implied | AddressModeView::Accumulator => None,
            AddressModeView::Immediate(ImmediateView::Byte(_)) => None,
            AddressModeView::Immediate(ImmediateView::Low(reference))
            | AddressModeView::Immediate(ImmediateView::High(reference))
            | AddressModeView::Absolute(reference)
            | AddressModeView::AbsoluteX(reference)
            | AddressModeView::AbsoluteY(reference)
            | AddressModeView::Relative(reference)
            | AddressModeView::Indirect(reference)
            | AddressModeView::IndexedIndirect(reference)
            | AddressModeView::IndirectIndexed(reference) => Some(reference),
        }
    }

    /// The reference of an absolute mode, plain or indexed by X or Y. Only
    /// these modes have a shorter encoding for the zero page.
    pub open spec fn absolute_reference(self) -> Option<AddressReferenceView> {
        match self {
            AddressModeView::Absolute(reference)
            | AddressModeView::AbsoluteX(reference)
            | AddressModeView::AbsoluteY(reference) => Some(reference),
            _ => None,
        }
    }

    /// The name that keeps the size of the mode unknown: that of the
    /// reference of an absolute mode, if the address book does not hold it.
    pub open spec fn unsized_name(self, book: AddressBook) -> Option<Seq<char>> {
        match self.absolute_reference() {
            Some(reference) => if reference.is_known(book) {
                None
            } else {
                Some(reference.name)
            },
            None => None,
        }
    }

    /// Is the name of every reference that the mode carries in the address book.
    pub open spec fn is_known(self, book: AddressBook) -> bool {
        self.reference() matches Some(reference) ==> reference.is_known(book)
    }

    /// Number of bytes that the layout reserves for an instruction in this
    /// mode: the opcode and its operand.
    ///
    /// An absolute mode takes two bytes when its target is known to lie in
    /// the zero page and three bytes otherwise; a target whose name is not in
    /// the book yet counts as outside the zero page.
    pub open spec fn byte_size(self, book: AddressBook) -> int {
        match self {
            AddressModeView::Implied | AddressModeView::Accumulator => 1,
            AddressModeView::Relative(_) | AddressModeView::Immediate(_) => 2,
            AddressModeView::Absolute(reference)
            | AddressModeView::AbsoluteX(reference)
            | AddressModeView::AbsoluteY(reference) => {
                if reference.is_known(book) && reference.address(book) < 0x100 {
                    2
                } else {
                    3
                }
            },
            AddressModeView::Indirect(_) => 3,
            AddressModeView::IndexedIndirect(_) | AddressModeView::IndirectIndexed(_) => 2,
        }
    }
}

impl View for Immediate {
    type V = ImmediateView;

    open spec fn view(&self) -> ImmediateView {
        match self {
            Immediate::Byte(byte) => ImmediateView::Byte(*byte),
            Immediate::Low(reference) => ImmediateView::Low(reference@),
            Immediate::High(reference) => ImmediateView::High(reference@),
        }
    }
}

impl View for AddressMode {
    type V = AddressModeView;

    open spec fn view(&self) -> AddressModeView {
        match self {
            AddressMode::Implied => AddressModeView::Implied,
            AddressMode::Accumulator => AddressModeView::Accumulator,
            AddressMode::Immediate(immediate) => AddressModeView::Immediate(immediate@),
            AddressMode::Absolute(reference) => AddressModeView::Absolute(reference@),
            AddressMode::AbsoluteX(reference) => AddressModeView::AbsoluteX(reference@),
            AddressMode::AbsoluteY(reference) => AddressModeView::AbsoluteY(reference@),
            AddressMode::Relative(reference) => AddressModeView::Relative(reference@),
            AddressMode::Indirect(reference) => AddressModeView::Indirect(reference@),
            AddressMode::IndexedIndirect(reference) => AddressModeView::IndexedIndirect(
                reference@,
            ),
            AddressMode::IndirectIndexed(reference) => AddressModeView::IndirectIndexed(
                reference@,
            ),
        }
    }
}

impl Clone for Immediate {
    fn clone(&self) -> (copy: Self)
        ensures
            copy@ == self@,
    {
        match self {
            Immediate::Byte(byte) => Immediate::Byte(*byte),
            Immediate::Low(reference) => Immediate::Low(reference.clone()),
            Immediate::High(reference) => Immediate::High(reference.clone()),
        }
    }
}

impl Clone for AddressMode {
    fn clone(&self) -> (copy: Self)
        ensures
            copy@ == self@,
    {
        match self {
            AddressMode::Implied => AddressMode::Implied,
            AddressMode::Accumulator => AddressMode::Accumulator,
            AddressMode::Immediate(immediate) => AddressMode::Immediate(immediate.clone()),
            AddressMode::Absolute(reference) => AddressMode::Absolute(reference.clone()),
            AddressMode::AbsoluteX(reference) => AddressMode::AbsoluteX(reference.clone()),
            AddressMode::AbsoluteY(reference) => AddressMode::AbsoluteY(reference.clone()),
            AddressMode::Relative(reference) => AddressMode::Relative(reference.clone()),
            AddressMode::Indirect(reference) => AddressMode::Indirect(reference.clone()),
            AddressMode::IndexedIndirect(reference) => AddressMode::IndexedIndirect(
                reference.clone(),
            ),
            AddressMode::IndirectIndexed(reference) => AddressMode::IndirectIndexed(
                reference.clone(),
            ),
        }
    }
}

/// Does the reference lead into the zero page, as far as the address book
/// knows: a name that the book does not hold does not.
fn is_zeropage(book: &StringHashMap<Address>, address_reference: &AddressReference) -> (result:
    bool)
    ensures
        result == (address_reference@.is_known(book@) && address_reference@.address(book@)
            < 0x100),
{
    match book.get(address_reference.name.as_str()) {
        Some(address) => add_offset(*address, address_reference.offset).is_zeropage(),
        None => false,
    }
}

impl AddressMode {
    /// Total number of bytes the instruction occupies on a 6502.
    ///
    /// Application parameter is used to identify if an instruction should use its zeropage variant.
    /// The size of an absolute mode is unknown while the application does
    /// not know the name it refers to.
    pub fn byte_size(&self, application: &Application) -> (result: AssemblerResult<Address>)
        ensures
            match self@.unsized_name(application@.address_lookup) {
                None => result == Ok::<Address, Error>(
                    self@.byte_size(application@.address_lookup) as Address,
                ),
                Some(name) => result matches Err(error) && error@
                    == ErrorView::AddressNameUnknown(name),
            },
    {
        match self {
            AddressMode::Absolute(address_reference)
            | AddressMode::AbsoluteX(address_reference)
            | AddressMode::AbsoluteY(address_reference) => {
                if !application.address_lookup.contains_key(address_reference.name.as_str()) {
                    return Err(Error::AddressNameUnknown(address_reference.name.clone()));
                }
            },
            _ => {},
        }
        Ok(self.byte_size_in(&application.address_lookup))
    }

    /// Number of bytes that the layout reserves for an instruction in this
    /// mode, going by the addresses that `book` holds.
    pub fn byte_size_in(&self, book: &StringHashMap<Address>) -> (size: Address)
        ensures
            size == self@.byte_size(book@),
    {
        match self {
            AddressMode::Implied | AddressMode::Accumulator => 1,
            AddressMode::Relative(_) | AddressMode::Immediate(_) => 2,
            AddressMode::Absolute(address_reference)
            | AddressMode::AbsoluteX(address_reference)
            | AddressMode::AbsoluteY(address_reference) => {
                if is_zeropage(book, address_reference) {
                    2
                } else {
                    3
                }
            },
            AddressMode::Indirect(_address_reference) => 3,
            AddressMode::IndexedIndirect(_address_reference)
            | AddressMode::IndirectIndexed(_address_reference) => 2,
        }
    }
}

impl Default for AddressMode {
    fn default() -> (mode: Self)
        ensures
            mode@ == AddressModeView::Implied,
    {
        AddressMode::Implied
    }
}

} // verus!
