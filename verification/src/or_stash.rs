//! The stashing adapter and the chaining marker it returns.

use vstd::prelude::*;

use crate::or_wrap::Fallible;
use crate::stash::ErrorSink;
use crate::stashable::IntoStashable;

verus! {

/// Like `Result`, but deliberately not `#[must_use]`: the failure, if any,
/// already sits in the builder that was passed to the adapter, so dropping
/// this marker loses nothing.
///
/// The failure variant carries no payload: it only records that the failure
/// now sits in the builder, which is guaranteed non-empty.
pub enum StashedResult<T> {
    Success(T),
    Stashed,
}

impl<T> StashedResult<T> {
    /// Returns `Some(t)` on success, `None` if the failure was stashed.
    pub fn ok(self) -> (r: Option<T>)
        ensures
            self matches StashedResult::Success(t) ==> r == Some(t),
            self is Stashed ==> r is None,
            r is Some <==> self is Success,
    {
        match self {
            StashedResult::Success(t) => Some(t),
            StashedResult::Stashed => None,
        }
    }
}

/// Adds [`or_stash`](OrStash::or_stash) on `Result`.
pub trait OrStash<S: ErrorSink, T>: Fallible<T> {
    /// Passes a success through as the success marker; pushes a failure into
    /// the given builder and returns the failure marker. The builder is then
    /// guaranteed non-empty, and error handling is deferred until the caller
    /// converts the builder.
    fn or_stash(self, stash: &mut S) -> (r: StashedResult<T>)
        requires
            old(stash).sink_wf(),
        ensures
            final(stash).sink_wf(),
            match self.ok_value() {
                Some(t) => r == StashedResult::<T>::Success(t) && *final(stash) == *old(stash),
                None => {
                    &&& r is Stashed
                    &&& (exists|s|
                        self.err_is(s) && final(stash).sink_errors() == old(
                            stash,
                        ).sink_errors().push(s))
                    &&& S::sink_summary_rel(*old(stash), *final(stash))
                },
            },
    ;
}

impl<S: ErrorSink, T, E: IntoStashable> OrStash<S, T> for Result<T, E> {
    fn or_stash(self, stash: &mut S) -> (r: StashedResult<T>) {
        match self {
            Ok(t) => StashedResult::Success(t),
            Err(e) => {
                stash.stash(e.into_stashable());
                StashedResult::Stashed
            },
        }
    }
}

} // verus!
