//! The wrapping adapter that annotates the failure with context text.

use vstd::prelude::*;

use crate::error::Error;
use crate::error::ErrorData;
use crate::or_wrap::Fallible;
use crate::reportable::Reportable;
use crate::stashable::IntoStashable;

verus! {

/// Adds [`or_wrap_with`](OrWrapWith::or_wrap_with) on `Result`.
pub trait OrWrapWith<F, M, T>: Fallible<T> where F: FnOnce() -> M, M: Reportable {
    /// Passes a success through unchanged; turns a failure into an [`Error`]
    /// wrapping it, annotated with the context text that `f` produces. `f` is
    /// evaluated on the failure path only.
    fn or_wrap_with(self, f: F) -> (r: Result<T, Error>)
        requires
            call_requires(f, ()),
        ensures
            match self.ok_value() {
                Some(t) => r matches Ok(v) && v == t,
                None => r matches Err(e) && *e.0 matches ErrorData::Wrapped(w) && (
                w.context matches Some(c) && exists|m: M|
                    #[trigger] call_ensures(f, (), m) && c@ == m.report_view()) && self.err_is(
                    w.inner,
                ),
            },
    ;
}

impl<F, M, T, E> OrWrapWith<F, M, T> for Result<T, E> where
    F: FnOnce() -> M,
    M: Reportable,
    E: IntoStashable,
 {
    fn or_wrap_with(self, f: F) -> (r: Result<T, Error>) {
        match self {
            Ok(t) => Ok(t),
            Err(e) => Err(Error::wrap_with(e, f())),
        }
    }
}

} // verus!
