//! Message text sources.
//!
//! Summaries, ad-hoc messages and context annotations may be handed to this
//! library as any type implementing [`Reportable`]; the trait names, in
//! `report_view`, exactly the text that the value turns into.

use vstd::prelude::*;
use vstd::string::StrSliceExecFns;

verus! {

/// A value that can serve as message text: a summary, an ad-hoc message, or a
/// context annotation.
pub trait Reportable: Sized {
    /// The text this value turns into.
    spec fn report_view(&self) -> Seq<char>;

    /// Produces the message text.
    fn into_report(self) -> (r: String)
        ensures
            r@ == self.report_view(),
    ;
}

impl Reportable for String {
    open spec fn report_view(&self) -> Seq<char> {
        self@
    }

    fn into_report(self) -> (r: String) {
        self
    }
}

impl<'a> Reportable for &'a str {
    open spec fn report_view(&self) -> Seq<char> {
        self@
    }

    fn into_report(self) -> (r: String) {
        self.to_owned()
    }
}

} // verus!
