//! Named addresses that are known before the program is laid out.
use super::user_count::UserCount;
use super::Address;
use vstd::prelude::*;

verus! {

/// Value of a define: an address, and whether it lies in the zero page.
#[derive(Clone, Copy, Debug, PartialEq, Eq, Structural)]
pub enum Value {
    /// An address at or above 0x0100.
    Address(Address),
    /// An address in the zero page.
    Zeropage(Address),
}

impl Value {
    /// The address, whatever page it is in.
    pub open spec fn spec_address(self) -> Address {
        match self {
            Value::Address(address) => address,
            Value::Zeropage(address) => address,
        }
    }

    /// The address, whatever page it is in.
    #[verifier::when_used_as_spec(spec_address)]
    pub fn address(self) -> (address: Address)
        ensures
            address == self.spec_address(),
    {
        match self {
            Value::Address(address) => address,
            Value::Zeropage(address) => address,
        }
    }

    /// The value for an address: in the zero page when the address is below
    /// 0x0100.
    pub open spec fn of(address: Address) -> Value {
        if address < 0x100 {
            Value::Zeropage(address)
        } else {
            Value::Address(address)
        }
    }
}

/// A name for a fixed address.
#[derive(Debug, PartialEq)]
pub struct Define {
    /// Name of the address.
    pub name: String,
    /// The address.
    pub value: Value,
    /// Number of users that have been registered with the define.
    pub user_count: usize,
}

/// A [`Define`] as a mathematical value.
pub struct DefineView {
    pub name: Seq<char>,
    pub value: Value,
    pub user_count: nat,
}

impl View for Define {
    type V = DefineView;

    open spec fn view(&self) -> DefineView {
        DefineView { name: self.name@, value: self.value, user_count: self.user_count as nat }
    }
}

impl Clone for Define {
    fn clone(&self) -> (copy: Self)
        ensures
            copy@ == self@,
    {
        Define { name: self.name.clone(), value: self.value, user_count: self.user_count }
    }
}

impl Define {
    /// A define without users.
    pub fn new(name: &str, value: Value) -> (define: Define)
        ensures
            define@ == (DefineView { name: name@, value, user_count: 0 }),
    {
        Define { name: name.to_string(), value, user_count: 0 }
    }
}

impl UserCount for Define {
    open spec fn users(&self) -> nat {
        self.user_count as nat
    }

    fn user_increase(&mut self)
        ensures
            final(self).name == old(self).name,
            final(self).value == old(self).value,
    {
        if self.user_count < usize::MAX {
            self.user_count += 1;
        }
    }

    fn user_count(&self) -> (count: usize) {
        self.user_count
    }
}

} // verus!
