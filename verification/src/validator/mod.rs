//! Validate the consistency of an application.
use crate::{Application, ApplicationView};
use address_names_exists::first_unknown_name;
use address_names_unique::first_duplicate_label;
use relative_addressing::check_branches;
use vstd::prelude::*;

pub mod address_names_exists;
pub mod address_names_unique;
pub mod relative_addressing;

pub use address_names_exists::validate_address_names_exists;
pub use address_names_unique::validate_address_names_unique;
pub use relative_addressing::validate_relative_addressing;

verus! {

/// Checks the consistency of a value.
pub trait Validator {
    /// What validating the value gives: nothing, or the reason why the value
    /// is not valid.
    spec fn validity(&self) -> Result<(), ErrorView>;

    /// Validate the value.
    fn validate(&self) -> (result: AssemblerResult<()>)
        ensures
            match self.validity() {
                Ok(_) => result is Ok,
                Err(error) => result matches Err(reported) && reported@ == error,
            },
    ;
}

/// What a step of the assembler gives: a value, or the reason why there is
/// none.
pub type AssemblerResult<T> = Result<T, Error>;

/// Why an application cannot be assembled.
#[derive(Debug)]
pub enum Error {
    /// An address is referenced by name, but the name isn't known.
    AddressNameUnknown(String),
    /// An address with the same name has been defined multiple times.
    AddressNameNotUnique(String),
    /// The target of a branch is further from the branch than the one signed
    /// byte of a relative address reaches. Holds the name of the target.
    BranchOutOfRange(String),
    /// Assembler did take a branch that it could not recover from: an
    /// instruction does not have the address mode that it is to be used with.
    InternalCompilerError,
}

/// An [`Error`] as a mathematical value.
pub enum ErrorView {
    AddressNameUnknown(Seq<char>),
    AddressNameNotUnique(Seq<char>),
    BranchOutOfRange(Seq<char>),
    InternalCompilerError,
}

impl View for Error {
    type V = ErrorView;

    open spec fn view(&self) -> ErrorView {
        match self {
            Error::AddressNameUnknown(name) => ErrorView::AddressNameUnknown(name@),
            Error::AddressNameNotUnique(name) => ErrorView::AddressNameNotUnique(name@),
            Error::BranchOutOfRange(name) => ErrorView::BranchOutOfRange(name@),
            Error::InternalCompilerError => ErrorView::InternalCompilerError,
        }
    }
}

/// What validating an application gives. The three checks are made one
/// after the other, over the whole application each, and the first that fails
/// gives the error:
///
/// 1. the address lookup holds every name that an instruction refers to,
/// 2. no two labels have the same name,
/// 3. every branch reaches its target.
pub open spec fn validation(application: ApplicationView) -> Result<(), ErrorView> {
    match first_unknown_name(application.stream(), application.address_lookup) {
        Some(name) => Err(ErrorView::AddressNameUnknown(name)),
        None => match first_duplicate_label(application.stream()) {
            Some(name) => Err(ErrorView::AddressNameNotUnique(name)),
            None => match check_branches(
                application.entry_point,
                application.stream(),
                application.address_lookup,
            ) {
                Err(error) => Err(error),
                Ok(_) => Ok(()),
            },
        },
    }
}

/// A name that the address lookup does not hold is reported whatever else
/// is wrong with the application: where an instruction refers to such a name,
/// the validation gives the error for the first such name, also when labels
/// have the same name or branches do not reach their target.
pub proof fn lemma_unknown_name_is_reported(application: ApplicationView, index: int)
    requires
        0 <= index < application.stream().len(),
        !application.stream()[index].address_mode.is_known(application.address_lookup),
    ensures
        validation(application) == Err::<(), ErrorView>(
            ErrorView::AddressNameUnknown(
                first_unknown_name(application.stream(), application.address_lookup)->0,
            ),
        ),
        first_unknown_name(application.stream(), application.address_lookup) is Some,
{
    address_names_exists::lemma_first_unknown_name_none(
        application.stream(),
        application.address_lookup,
    );
}

/// What holds of an application that the validation accepts: the address
/// lookup holds every name that an instruction refers to, no two labels have
/// the same name, and every branch reaches its target.
pub proof fn lemma_validation_ok(application: ApplicationView)
    requires
        validation(application) is Ok,
    ensures
        forall|index: int|
            0 <= index < application.stream().len() ==> (
            #[trigger] application.stream()[index]).address_mode.is_known(
                application.address_lookup,
            ),
        forall|first: int, second: int, name: Seq<char>|
            crate::is_label_at(application.stream(), first, name) && crate::is_label_at(
                application.stream(),
                second,
                name,
            ) ==> first == second,
        check_branches(
            application.entry_point,
            application.stream(),
            application.address_lookup,
        ) is Ok,
{
    address_names_exists::lemma_first_unknown_name_none(
        application.stream(),
        application.address_lookup,
    );
    address_names_unique::lemma_visit_labels_ok(Seq::empty(), application.stream());
}

impl Validator for Application {
    /// What validating the application gives, see [`validation`].
    open spec fn validity(&self) -> Result<(), ErrorView> {
        validation(self@)
    }

    /// Validate the application. The first of the three checks that fails
    /// gives the error.
    fn validate(&self) -> (result: AssemblerResult<()>) {
        validate_address_names_exists(self)?;
        validate_address_names_unique(self)?;
        validate_relative_addressing(self)?;
        Ok(())
    }
}

} // verus!
