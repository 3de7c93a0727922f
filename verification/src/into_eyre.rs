//! Lossy conversions into `eyre`'s report type.
//!
//! A report is opaque to every contract here: `eyre::Report` carries its text
//! behind a type this library does not model. What is verified is which text
//! is handed over — the pretty rendering — and on which side of a builder
//! conversion a report appears at all.

use vstd::prelude::*;

use crate::error::AdHocError;
use crate::error::Error;
use crate::error::ErrorData;
use crate::error::Stashable;
use crate::error::StashedErrors;
use crate::error::WrappedError;
use crate::reportable::Reportable;
use crate::stash::ErrorStash;
use crate::stash::StashWithErrors;
use crate::stashable::IntoStashable;

verus! {

/// Declares `eyre::Report` so that values of it can cross this library's
/// signatures; the type stays opaque to every contract.
#[verifier::external_type_specification]
#[verifier::external_body]
pub struct ExReport(eyre::Report);

/// Relies on `eyre::Report::msg`: builds a report that displays as the given
/// message.
#[verifier::external_body]
fn report_from_message(s: String) -> eyre::Report {
    eyre::Report::msg(s)
}

/// Relies on `eyre::Report`'s `Display` (via `ToString`): the text the report
/// displays as.
#[verifier::external_body]
fn report_text(r: &eyre::Report) -> String {
    r.to_string()
}

impl IntoStashable for eyre::Report {
    /// Nothing can be stated of the produced value: what a report displays
    /// as is opaque to the contracts.
    open spec fn is_stashable(&self, s: Stashable) -> bool {
        true
    }

    fn into_stashable(self) -> (r: Stashable) {
        Stashable::Message(report_text(&self))
    }
}

/// Adds [`into_eyre_report`](IntoEyreReport::into_eyre_report) on the error
/// types of this library: a lossy conversion that flattens the value into its
/// pretty rendering and hands that text to `eyre`.
pub trait IntoEyreReport: Sized {
    fn into_eyre_report(self) -> eyre::Report;
}

impl IntoEyreReport for Error {
    fn into_eyre_report(self) -> eyre::Report {
        report_from_message(self.to_pretty_string())
    }
}

impl IntoEyreReport for ErrorData {
    fn into_eyre_report(self) -> eyre::Report {
        report_from_message(self.to_pretty_string())
    }
}

impl IntoEyreReport for StashedErrors {
    fn into_eyre_report(self) -> eyre::Report {
        report_from_message(self.to_pretty_string())
    }
}

impl IntoEyreReport for WrappedError {
    fn into_eyre_report(self) -> eyre::Report {
        report_from_message(self.to_pretty_string())
    }
}

impl IntoEyreReport for AdHocError {
    fn into_eyre_report(self) -> eyre::Report {
        report_from_message(self.to_pretty_string())
    }
}

impl IntoEyreReport for StashWithErrors {
    fn into_eyre_report(self) -> eyre::Report {
        let err = self.into_error();
        report_from_message(err.to_pretty_string())
    }
}

/// Adds [`into_eyre_result`](IntoEyreResult::into_eyre_result) on the
/// builder: a lossy conversion of the terminal result into `eyre`'s.
pub trait IntoEyreResult<T>: Sized {
    /// Whether the conversion succeeds.
    spec fn eyre_ok(&self) -> bool;

    /// What the conversion needs of the value.
    spec fn eyre_pre(&self) -> bool;

    /// Converts into a result whose failure is an `eyre::Report`; success is
    /// returned exactly when no error was collected.
    fn into_eyre_result(self) -> (r: Result<T, eyre::Report>)
        requires
            self.eyre_pre(),
        ensures
            r is Ok <==> self.eyre_ok(),
    ;
}

impl<F, M> IntoEyreResult<()> for ErrorStash<F, M> where F: FnOnce() -> M, M: Reportable {
    open spec fn eyre_ok(&self) -> bool {
        *self is Empty
    }

    open spec fn eyre_pre(&self) -> bool {
        self.wf()
    }

    fn into_eyre_result(self) -> (r: Result<(), eyre::Report>) {
        match self.into_result() {
            Ok(()) => Ok(()),
            Err(e) => Err(e.into_eyre_report()),
        }
    }
}

} // verus!
