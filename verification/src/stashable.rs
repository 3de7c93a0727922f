//! Conversions into the inner error type.
//!
//! Everything that can be pushed into a stash or wrapped implements
//! [`IntoStashable`]; the trait's `is_stashable` predicate pins down, value
//! for value, what the conversion produces. Where nothing can be said of the
//! produced value (a foreign error whose display text no contract can state),
//! the predicate holds of every result.

use vstd::prelude::*;
use vstd::string::StrSliceExecFns;

use crate::error::Error;
use crate::error::Stashable;

verus! {

/// A failure value that can be converted into the inner error type.
pub trait IntoStashable: Sized {
    /// Holds of exactly the values the conversion may produce.
    spec fn is_stashable(&self, s: Stashable) -> bool;

    /// Converts this failure into the inner error type.
    fn into_stashable(self) -> (r: Stashable)
        ensures
            self.is_stashable(r),
    ;
}

impl IntoStashable for Stashable {
    open spec fn is_stashable(&self, s: Stashable) -> bool {
        s == *self
    }

    fn into_stashable(self) -> (r: Stashable) {
        self
    }
}

impl<'a> IntoStashable for &'a str {
    open spec fn is_stashable(&self, s: Stashable) -> bool {
        s matches Stashable::Message(m) && m@ == self@
    }

    fn into_stashable(self) -> (r: Stashable) {
        Stashable::Message(self.to_owned())
    }
}

impl IntoStashable for String {
    open spec fn is_stashable(&self, s: Stashable) -> bool {
        s matches Stashable::Message(m) && m@ == self@
    }

    fn into_stashable(self) -> (r: Stashable) {
        Stashable::Message(self)
    }
}

impl IntoStashable for Error {
    open spec fn is_stashable(&self, s: Stashable) -> bool {
        s == Stashable::Tree(self.0)
    }

    fn into_stashable(self) -> (r: Stashable) {
        Stashable::Tree(self.0)
    }
}

} // verus!
