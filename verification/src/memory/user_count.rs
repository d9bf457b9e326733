//! Counting the users of an object.
use vstd::prelude::*;

verus! {

/// Trait for user counts of objects.
pub trait UserCount {
    /// Number of users that have been registered.
    spec fn users(&self) -> nat;

    /// Add a user. The count stays where it is once it has reached the
    /// largest number it can hold.
    fn user_increase(&mut self)
        ensures
            final(self).users() == if old(self).users() < usize::MAX {
                old(self).users() + 1
            } else {
                old(self).users()
            },
    ;

    /// How many users have been registered
    fn user_count(&self) -> (count: usize)
        ensures
            count == self.users(),
    ;

    /// Are there any users registered
    fn user_empty(&self) -> (empty: bool)
        ensures
            empty == (self.users() == 0),
    {
        self.user_count() == 0
    }
}

} // verus!
