//! The adapter that creates a non-empty stash from the first failure.

use vstd::prelude::*;

use crate::or_wrap::Fallible;
use crate::reportable::Reportable;
use crate::stash::StashWithErrors;
use crate::stashable::IntoStashable;

verus! {

/// Adds [`or_create_stash`](OrCreateStash::or_create_stash) on `Result`.
pub trait OrCreateStash<F, M, T>: Fallible<T> where F: FnOnce() -> M, M: Reportable {
    /// Passes a success through unchanged; on failure, builds a brand-new
    /// non-empty [`StashWithErrors`] seeded with that one failure, evaluating
    /// the summary generator `f` immediately. `f` is evaluated on the failure
    /// path only.
    fn or_create_stash(self, f: F) -> (r: Result<T, StashWithErrors>)
        requires
            call_requires(f, ()),
        ensures
            match self.ok_value() {
                Some(t) => r matches Ok(v) && v == t,
                None => r matches Err(st) && {
                    &&& st.wf()
                    &&& (exists|m: M|
                        #[trigger] call_ensures(f, (), m) && st.summary@ == m.report_view())
                    &&& (exists|s| self.err_is(s) && st.errors@ == seq![s])
                    &&& st.locations@.len() == 1
                },
            },
    ;
}

impl<F, M, T, E> OrCreateStash<F, M, T> for Result<T, E> where
    F: FnOnce() -> M,
    M: Reportable,
    E: IntoStashable,
 {
    fn or_create_stash(self, f: F) -> (r: Result<T, StashWithErrors>) {
        match self {
            Ok(t) => Ok(t),
            Err(e) => Err(StashWithErrors::from(f(), e)),
        }
    }
}

} // verus!
