//! References to an address by its name.
use super::{address_after, Address, AddressBook};
use vstd::prelude::*;

verus! {

/// Reference to a named address, with an offset in bytes that is added once
/// the name has been resolved.
#[derive(Debug, PartialEq)]
pub struct AddressReference {
    /// Name of the define or label that is referred to.
    pub name: String,
    /// Offset in bytes from the named address.
    pub offset: Address,
}

/// An [`AddressReference`] as a mathematical value.
pub struct AddressReferenceView {
    pub name: Seq<char>,
    pub offset: Address,
}

impl AddressReferenceView {
    /// Reference to the address with the given name.
    pub open spec fn new(name: Seq<char>) -> AddressReferenceView {
        AddressReferenceView { name, offset: 0 }
    }

    /// Reference to the address `offset` bytes after the address with the
    /// given name.
    pub open spec fn with_offset(name: Seq<char>, offset: Address) -> AddressReferenceView {
        AddressReferenceView { name, offset }
    }

    /// Does the address book know the referenced name.
    pub open spec fn is_known(self, book: AddressBook) -> bool {
        book.contains_key(self.name)
    }

    /// The address that is referred to: the address of the name, then the
    /// offset.
    pub open spec fn address(self, book: AddressBook) -> Address
        recommends
            self.is_known(book),
    {
        address_after(book[self.name], self.offset as int)
    }
}

impl View for AddressReference {
    type V = AddressReferenceView;

    open spec fn view(&self) -> AddressReferenceView {
        AddressReferenceView { name: self.name@, offset: self.offset }
    }
}

impl Clone for AddressReference {
    fn clone(&self) -> (copy: Self)
        ensures
            copy@ == self@,
    {
        AddressReference { name: self.name.clone(), offset: self.offset }
    }
}

impl AddressReference {
    /// Reference the address with the given name.
    pub fn new(name: &str) -> (reference: AddressReference)
        ensures
            reference@ == AddressReferenceView::new(name@),
    {
        AddressReference { name: name.to_string(), offset: 0 }
    }

    /// Reference the address `offset` bytes after the address with the given name.
    pub fn with_offset(name: &str, offset: Address) -> (reference: AddressReference)
        ensures
            reference@ == AddressReferenceView::with_offset(name@, offset),
    {
        AddressReference { name: name.to_string(), offset }
    }
}

} // verus!
