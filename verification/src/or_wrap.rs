//! Wrapping adapters and the spec-level description of a fallible value.

use vstd::prelude::*;

use crate::error::Error;
use crate::error::ErrorData;
use crate::error::Stashable;
use crate::stashable::IntoStashable;

verus! {

/// The spec-level face of a fallible value: either it succeeds with a value,
/// or it fails with something convertible into the inner error type. All
/// adapter contracts speak through these two functions.
pub trait Fallible<T>: Sized {
    /// The success value, if this value is a success.
    spec fn ok_value(&self) -> Option<T>;

    /// On failure, holds of exactly the inner errors the failure may convert
    /// into.
    spec fn err_is(&self, s: Stashable) -> bool;
}

impl<T, E: IntoStashable> Fallible<T> for Result<T, E> {
    open spec fn ok_value(&self) -> Option<T> {
        match *self {
            Ok(t) => Some(t),
            Err(_) => None,
        }
    }

    open spec fn err_is(&self, s: Stashable) -> bool {
        match *self {
            Ok(_) => false,
            Err(e) => e.is_stashable(s),
        }
    }
}

/// Adds [`or_wrap`](OrWrap::or_wrap) on `Result`.
pub trait OrWrap<T>: Fallible<T> {
    /// Passes a success through unchanged; turns a failure into an [`Error`]
    /// wrapping it, without context, capturing the location.
    fn or_wrap(self) -> (r: Result<T, Error>)
        ensures
            match self.ok_value() {
                Some(t) => r matches Ok(v) && v == t,
                None => r matches Err(e) && *e.0 matches ErrorData::Wrapped(w) && w.context is None
                    && self.err_is(w.inner),
            },
    ;
}

impl<T, E: IntoStashable> OrWrap<T> for Result<T, E> {
    fn or_wrap(self) -> (r: Result<T, Error>) {
        match self {
            Ok(t) => Ok(t),
            Err(e) => Err(Error::wrap(e)),
        }
    }
}

} // verus!
