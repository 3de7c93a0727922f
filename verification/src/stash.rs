//! The accumulation builders.
//!
//! [`ErrorStash`] is the lazy two-state builder: empty (holding the not yet
//! evaluated summary generator) or non-empty (holding a
//! [`StashWithErrors`]). [`StashWithErrors`] owns the evaluated summary and
//! the parallel error and location sequences, with at least one entry each
//! whenever it was built by a push.

use vstd::prelude::*;
use vstd::string::StringExecFns;
use vstd::string::StringSliceAdditionalSpecFns;

use crate::error::Error;
use crate::error::ErrorData;
use crate::error::Location;
use crate::error::Stashable;
use crate::reportable::Reportable;
use crate::stashable::IntoStashable;

verus! {

/// The text of the one source coordinate this library records; see
/// [`location`].
pub open spec fn spec_recording_site() -> Seq<char> {
    "lazy_errors/"@ + "src/stash.rs"@ + ":"@ + crate::spec_decimal(0) + ":"@ + crate::spec_decimal(
        0,
    )
}

/// The source coordinate recorded with each pushed or wrapped error.
///
/// Capturing the caller's own coordinates would need compiler support that
/// verified code does not get, so every recording names the recording routine
/// itself: this file, with placeholder line and column. The contracts of the
/// error types treat the value as opaque, but the constant text is pinned
/// here.
pub fn location() -> (r: Location)
    ensures
        r@ == spec_recording_site(),
{
    Location::from_parts("src/stash.rs", 0, 0)
}

/// A builder for [`Error`] whose list of errors may still be empty. The
/// summary generator is evaluated at most once, when the first error is
/// pushed.
#[verifier::reject_recursive_types(M)]
pub enum ErrorStash<F, M> where F: FnOnce() -> M, M: Reportable {
    Empty(F),
    WithErrors(StashWithErrors),
}

/// A builder for [`Error`] holding the evaluated summary and one error and
/// location per recorded failure, in insertion order.
#[derive(Debug)]
pub struct StashWithErrors {
    pub summary: String,
    pub errors: Vec<Stashable>,
    pub locations: Vec<Location>,
}

impl StashWithErrors {
    /// The parallel-sequence invariant.
    pub open spec fn wf(&self) -> bool {
        self.errors@.len() == self.locations@.len()
    }
}

impl<F, M> ErrorStash<F, M> where F: FnOnce() -> M, M: Reportable {
    /// An empty stash holds a summary generator that can be called; a
    /// non-empty one holds parallel sequences.
    pub open spec fn wf(&self) -> bool {
        match *self {
            ErrorStash::Empty(f) => call_requires(f, ()),
            ErrorStash::WithErrors(st) => st.wf(),
        }
    }

    /// Creates a new stash whose summary message is computed lazily: `f` is
    /// evaluated when the first error (if any) is pushed.
    pub fn new(f: F) -> (r: ErrorStash<F, M>)
        requires
            call_requires(f, ()),
        ensures
            r == ErrorStash::<F, M>::Empty(f),
            r.wf(),
    {
        ErrorStash::Empty(f)
    }

    /// True only before the first push.
    pub fn is_empty(&self) -> (r: bool)
        ensures
            r == (self is Empty),
    {
        match self {
            ErrorStash::Empty(_) => true,
            ErrorStash::WithErrors(_) => false,
        }
    }

    /// All errors pushed so far, in insertion order.
    pub fn errors(&self) -> (r: &[Stashable])
        ensures
            r@ == self.spec_errors(),
    {
        match self {
            ErrorStash::Empty(_) => &[],
            ErrorStash::WithErrors(st) => st.errors.as_slice(),
        }
    }

    /// The errors held: none while empty.
    pub open spec fn spec_errors(&self) -> Seq<Stashable> {
        match *self {
            ErrorStash::Empty(_) => Seq::empty(),
            ErrorStash::WithErrors(st) => st.errors@,
        }
    }

    /// Adds an error to this stash. On the first push the summary generator
    /// is evaluated, exactly once; later pushes leave the summary unchanged
    /// and append to the sequences.
    pub fn push<E: IntoStashable>(&mut self, err: E)
        requires
            old(self).wf(),
        ensures
            final(self).wf(),
            (*final(self)) is WithErrors,
            ({
                let st = final(self)->WithErrors_0;
                match *old(self) {
                    ErrorStash::Empty(f) => {
                        &&& (exists|m: M|
                            #[trigger] call_ensures(f, (), m) && st.summary@ == m.report_view())
                        &&& (exists|s: Stashable|
                            err.is_stashable(s) && st.errors@ == seq![s])
                        &&& st.locations@.len() == 1
                    },
                    ErrorStash::WithErrors(prev) => {
                        &&& st.summary == prev.summary
                        &&& (exists|s: Stashable|
                            err.is_stashable(s) && st.errors@ == prev.errors@.push(s))
                        &&& st.locations@.len() == prev.locations@.len() + 1
                    },
                }
            }),
    {
        let mut tmp = ErrorStash::WithErrors(
            StashWithErrors { summary: String::new(), errors: Vec::new(), locations: Vec::new() },
        );
        core::mem::swap(self, &mut tmp);
        let st = tmp.push_and_convert(err);
        *self = ErrorStash::WithErrors(st);
    }

    /// Adds an error, consumes the stash, and returns the inner
    /// [`StashWithErrors`] by value.
    pub fn push_and_convert<E: IntoStashable>(self, err: E) -> (r: StashWithErrors)
        requires
            self.wf(),
        ensures
            r.wf(),
            match self {
                ErrorStash::Empty(f) => {
                    &&& (exists|m: M|
                        #[trigger] call_ensures(f, (), m) && r.summary@ == m.report_view())
                    &&& (exists|s: Stashable| err.is_stashable(s) && r.errors@ == seq![s])
                    &&& r.locations@.len() == 1
                },
                ErrorStash::WithErrors(prev) => {
                    &&& r.summary == prev.summary
                    &&& (exists|s: Stashable|
                        err.is_stashable(s) && r.errors@ == prev.errors@.push(s))
                    &&& r.locations@.len() == prev.locations@.len() + 1
                },
            },
    {
        match self {
            ErrorStash::Empty(f) => StashWithErrors::from(f(), err),
            ErrorStash::WithErrors(mut stash) => {
                stash.push(err);
                stash
            },
        }
    }

    /// Returns `Ok(())` while the stash is empty, otherwise the failure
    /// marker of [`crate::StashedResult`]. This is the barrier operation:
    /// callers bail out here on all previously collected errors at once.
    pub fn ok(&mut self) -> (r: crate::or_stash::StashedResult<()>)
        ensures
            *final(self) == *old(self),
            r is Success <==> (*old(self)) is Empty,
    {
        match self {
            ErrorStash::Empty(_) => crate::or_stash::StashedResult::Success(()),
            ErrorStash::WithErrors(_) => crate::or_stash::StashedResult::Stashed,
        }
    }

    /// Returns `Ok(())` if the stash is empty, otherwise an `Err` holding all
    /// collected errors under the evaluated summary.
    pub fn into_result(self) -> (r: Result<(), Error>)
        requires
            self.wf(),
        ensures
            r is Ok <==> self is Empty,
            self matches ErrorStash::WithErrors(st) ==> (r matches Err(e) && *e.0
                matches ErrorData::Stashed(se) && se.summary@ == st.summary@ && se.errors
                == st.errors && se.locations == st.locations),
    {
        match self {
            ErrorStash::Empty(_) => Ok(()),
            ErrorStash::WithErrors(st) => Err(st.into_error()),
        }
    }
}

impl StashWithErrors {
    /// Creates a stash that contains a single error so far, under the given
    /// summary.
    pub fn from<M: Reportable, E: IntoStashable>(summary: M, error: E) -> (r: StashWithErrors)
        ensures
            r.wf(),
            r.summary@ == summary.report_view(),
            (exists|s: Stashable| error.is_stashable(s) && r.errors@ == seq![s]),
            r.locations@.len() == 1,
    {
        let s = error.into_stashable();
        let mut errors: Vec<Stashable> = Vec::new();
        errors.push(s);
        let mut locations: Vec<Location> = Vec::new();
        locations.push(location());
        proof {
            assert(errors@ =~= seq![s]);
        }
        StashWithErrors { summary: summary.into_report(), errors, locations }
    }

    /// Appends an error; the summary stays as it is.
    pub fn push<E: IntoStashable>(&mut self, err: E)
        ensures
            final(self).summary == old(self).summary,
            (exists|s: Stashable|
                err.is_stashable(s) && final(self).errors@ == old(self).errors@.push(s)),
            final(self).locations@.len() == old(self).locations@.len() + 1,
            old(self).wf() ==> final(self).wf(),
    {
        self.errors.push(err.into_stashable());
        self.locations.push(location());
    }

    /// All errors pushed so far, in insertion order.
    pub fn errors(&self) -> (r: &[Stashable])
        ensures
            r@ == self.errors@,
    {
        self.errors.as_slice()
    }

    /// Converts this stash into the terminal [`Error`].
    pub fn into_error(self) -> (r: Error)
        ensures
            *r.0 matches ErrorData::Stashed(se) && se.summary@ == self.summary@ && se.errors
                == self.errors && se.locations == self.locations,
    {
        Error::from_stash(self.summary, self.errors, self.locations)
    }

    /// Swaps this stash's contents for a clearly-marked placeholder and
    /// returns the previous contents by value. The placeholder should never
    /// be observed in correct usage; its summary says loudly that it was.
    pub fn take(&mut self) -> (r: StashWithErrors)
        ensures
            r == *old(self),
            final(self).summary@ == "Internal error: Error info cleared by take()"@,
            final(self).errors@.len() == 0,
            final(self).locations@.len() == 0,
            final(self).wf(),
    {
        let mut tmp = StashWithErrors {
            summary: "Internal error: Error info cleared by take()".to_owned(),
            errors: Vec::new(),
            locations: Vec::new(),
        };
        core::mem::swap(&mut tmp, self);
        tmp
    }

    /// The stash's one-line description of itself.
    pub fn to_string(&self) -> (r: String)
        ensures
            r@ == "Stash of "@ + crate::spec_decimal(self.errors@.len()) + " errors currently"@,
    {
        let mut r = "Stash of ".to_owned();
        r.append(crate::text::usize_to_string(self.errors.len()).as_str());
        r.append(" errors currently");
        r
    }
}

/// The comma-joined compact renderings of the first `i` errors.
pub open spec fn spec_debug_errors(ss: Seq<Stashable>, i: int) -> Seq<char>
    decreases ss, i,
    when i <= ss.len()
{
    if i <= 0 {
        Seq::empty()
    } else if i == 1 {
        crate::error::spec_compact_stashable(ss[0])
    } else {
        spec_debug_errors(ss, i - 1) + ", "@ + crate::error::spec_compact_stashable(ss[i - 1])
    }
}

/// The comma-joined location texts of the first `i` locations.
pub open spec fn spec_debug_locations(ls: Seq<Location>, i: int) -> Seq<char>
    decreases i,
    when i <= ls.len()
{
    if i <= 0 {
        Seq::empty()
    } else if i == 1 {
        ls[0]@
    } else {
        spec_debug_locations(ls, i - 1) + ", "@ + ls[i - 1]@
    }
}

impl StashWithErrors {
    /// A debugging description of the stash's structure and contents.
    pub fn debug_string(&self) -> (r: String)
        ensures
            r@ == "StashWithErrors { summary: \""@ + self.summary@ + "\", errors: ["@
                + spec_debug_errors(self.errors@, self.errors@.len() as int) + "], locations: ["@
                + spec_debug_locations(self.locations@, self.locations@.len() as int) + "] }"@,
    {
        let mut r = "StashWithErrors { summary: \"".to_owned();
        r.append(self.summary.as_str());
        r.append("\", errors: [");
        let mut k: usize = 0;
        while k < self.errors.len()
            invariant
                0 <= k <= self.errors@.len(),
                r@ == "StashWithErrors { summary: \""@ + self.summary@ + "\", errors: ["@
                    + spec_debug_errors(self.errors@, k as int),
            decreases self.errors@.len() - k,
        {
            if k > 0 {
                r.append(", ");
            }
            let piece = self.errors[k].to_string();
            r.append(piece.as_str());
            proof {
                assert(r@ =~= "StashWithErrors { summary: \""@ + self.summary@ + "\", errors: ["@
                    + spec_debug_errors(self.errors@, k + 1));
            }
            k += 1;
        }
        r.append("], locations: [");
        let mut k2: usize = 0;
        let ghost mid = r@;
        while k2 < self.locations.len()
            invariant
                0 <= k2 <= self.locations@.len(),
                r@ == mid + spec_debug_locations(self.locations@, k2 as int),
            decreases self.locations@.len() - k2,
        {
            if k2 > 0 {
                r.append(", ");
            }
            r.append(self.locations[k2].as_str());
            proof {
                assert(r@ =~= mid + spec_debug_locations(self.locations@, k2 + 1));
            }
            k2 += 1;
        }
        r.append("] }");
        proof {
            assert(r@ =~= "StashWithErrors { summary: \""@ + self.summary@ + "\", errors: ["@
                + spec_debug_errors(self.errors@, self.errors@.len() as int) + "], locations: ["@
                + spec_debug_locations(self.locations@, self.locations@.len() as int) + "] }"@);
        }
        r
    }
}

impl<F, M> ErrorStash<F, M> where F: FnOnce() -> M, M: Reportable {
    /// The stash's one-line description of itself.
    pub fn to_string(&self) -> (r: String)
        ensures
            r@ == "Stash of "@ + crate::spec_decimal(self.spec_errors().len()) + " errors currently"@,
    {
        match self {
            ErrorStash::Empty(_) => {
                let mut r = "Stash of ".to_owned();
                r.append(crate::text::usize_to_string(0).as_str());
                r.append(" errors currently");
                r
            },
            ErrorStash::WithErrors(st) => st.to_string(),
        }
    }

    /// A debugging description: the state, and for a non-empty stash its
    /// structure and contents.
    pub fn debug_string(&self) -> (r: String)
        ensures
            (*self) is Empty ==> r@ == "ErrorStash(Empty)"@,
            self matches ErrorStash::WithErrors(st) ==> r@ == "ErrorStash("@
                + "StashWithErrors { summary: \""@ + st.summary@ + "\", errors: ["@
                + spec_debug_errors(st.errors@, st.errors@.len() as int) + "], locations: ["@
                + spec_debug_locations(st.locations@, st.locations@.len() as int) + "] }"@ + ")"@,
    {
        match self {
            ErrorStash::Empty(_) => "ErrorStash(Empty)".to_owned(),
            ErrorStash::WithErrors(st) => {
                let mut r = "ErrorStash(".to_owned();
                let inner = st.debug_string();
                r.append(inner.as_str());
                r.append(")");
                r
            },
        }
    }
}

// ===========================================================================
// The common sink interface
// ===========================================================================
/// Something to push errors into: implemented by [`ErrorStash`] and
/// [`StashWithErrors`], so that the adapters can work with either.
pub trait ErrorSink: Sized {
    /// The sink's own well-formedness.
    spec fn sink_wf(&self) -> bool;

    /// The errors held so far, in insertion order.
    spec fn sink_errors(&self) -> Seq<Stashable>;

    /// How one push relates the sink's summary after to the one before; each
    /// implementor pins this down for its own representation.
    spec fn sink_summary_rel(pre: Self, post: Self) -> bool;

    /// The summary relation composes over consecutive pushes, so it also
    /// describes a whole sequence of pushes.
    proof fn sink_summary_rel_trans(a: Self, b: Self, c: Self)
        requires
            Self::sink_summary_rel(a, b),
            Self::sink_summary_rel(b, c),
        ensures
            Self::sink_summary_rel(a, c),
    ;

    /// Appends one error.
    fn stash(&mut self, err: Stashable)
        requires
            old(self).sink_wf(),
        ensures
            final(self).sink_wf(),
            final(self).sink_errors() == old(self).sink_errors().push(err),
            Self::sink_summary_rel(*old(self), *final(self)),
    ;
}

/// Something to read errors from: implemented by [`ErrorStash`] and
/// [`StashWithErrors`], so that the adapters can work with either.
pub trait ErrorSource: Sized {
    /// The errors held so far, in insertion order.
    spec fn source_errors(&self) -> Seq<Stashable>;

    /// Returns all errors held so far.
    fn errors(&self) -> (r: &[Stashable])
        ensures
            r@ == self.source_errors(),
    ;
}

/// Something that can be forced to hold at least one error: when the list is
/// still empty, an internal placeholder error is pushed first. The operation
/// is idempotent; see [`lemma_enforce_errors_idempotent`].
pub trait EnforceErrors: Sized {
    /// What the operation needs of the value before the call.
    spec fn enforce_pre(&self) -> bool;

    /// How the value after the call relates to the one before; each
    /// implementor pins this down for its own representation.
    spec fn enforce_post(pre: Self, post: Self) -> bool;

    /// Forces the list of errors to be non-empty.
    fn enforce_errors(&mut self)
        requires
            old(self).enforce_pre(),
        ensures
            Self::enforce_post(*old(self), *final(self)),
    ;
}

/// The placeholder pushed when an empty stash is forced to be non-empty.
pub open spec fn is_internal_error_marker(s: Stashable) -> bool {
    s matches Stashable::Tree(e) && *e matches ErrorData::AdHoc(a) && a.message@
        == "INTERNAL ERROR"@
}

impl<F, M> ErrorSink for ErrorStash<F, M> where F: FnOnce() -> M, M: Reportable {
    open spec fn sink_wf(&self) -> bool {
        self.wf()
    }

    open spec fn sink_errors(&self) -> Seq<Stashable> {
        self.spec_errors()
    }

    open spec fn sink_summary_rel(pre: Self, post: Self) -> bool {
        match (pre, post) {
            (ErrorStash::Empty(f), ErrorStash::WithErrors(st)) => exists|m: M|
                #[trigger] call_ensures(f, (), m) && st.summary@ == m.report_view(),
            (ErrorStash::WithErrors(a), ErrorStash::WithErrors(b)) => a.summary == b.summary,
            _ => false,
        }
    }

    proof fn sink_summary_rel_trans(a: Self, b: Self, c: Self) {
    }

    fn stash(&mut self, err: Stashable) {
        self.push(err);
    }
}

impl ErrorSink for StashWithErrors {
    open spec fn sink_wf(&self) -> bool {
        self.wf()
    }

    open spec fn sink_errors(&self) -> Seq<Stashable> {
        self.errors@
    }

    open spec fn sink_summary_rel(pre: Self, post: Self) -> bool {
        pre.summary == post.summary
    }

    proof fn sink_summary_rel_trans(a: Self, b: Self, c: Self) {
    }

    fn stash(&mut self, err: Stashable) {
        self.push(err);
    }
}

impl<F, M> ErrorSource for ErrorStash<F, M> where F: FnOnce() -> M, M: Reportable {
    open spec fn source_errors(&self) -> Seq<Stashable> {
        self.spec_errors()
    }

    fn errors(&self) -> (r: &[Stashable]) {
        match self {
            ErrorStash::Empty(_) => &[],
            ErrorStash::WithErrors(st) => st.errors.as_slice(),
        }
    }
}

impl ErrorSource for StashWithErrors {
    open spec fn source_errors(&self) -> Seq<Stashable> {
        self.errors@
    }

    fn errors(&self) -> (r: &[Stashable]) {
        self.errors.as_slice()
    }
}

impl<F, M> EnforceErrors for ErrorStash<F, M> where F: FnOnce() -> M, M: Reportable {
    open spec fn enforce_pre(&self) -> bool {
        self.wf()
    }

    /// An empty stash gets exactly one placeholder error, under the summary
    /// the generator produces; a non-empty stash is left as it is.
    open spec fn enforce_post(pre: Self, post: Self) -> bool {
        match pre {
            ErrorStash::Empty(f) => {
                &&& post matches ErrorStash::WithErrors(st) && st.wf() && st.errors@.len() == 1
                    && is_internal_error_marker(st.errors@[0]) && (exists|m: M|
                    #[trigger] call_ensures(f, (), m) && st.summary@ == m.report_view())
            },
            ErrorStash::WithErrors(_) => post == pre,
        }
    }

    fn enforce_errors(&mut self) {
        if self.is_empty() {
            self.push(Error::from_message("INTERNAL ERROR"));
        }
    }
}

impl EnforceErrors for StashWithErrors {
    open spec fn enforce_pre(&self) -> bool {
        true
    }

    /// A stash that is non-empty by type is left as it is.
    open spec fn enforce_post(pre: Self, post: Self) -> bool {
        post == pre
    }

    fn enforce_errors(&mut self) {
    }
}

/// Forcing a stash to be non-empty is idempotent: forcing twice from an
/// initially-empty builder yields exactly one placeholder error, not two, and
/// the second call changes nothing at all.
pub proof fn lemma_enforce_errors_idempotent<F, M: Reportable>(
    s0: ErrorStash<F, M>,
    s1: ErrorStash<F, M>,
    s2: ErrorStash<F, M>,
) where F: FnOnce() -> M
    requires
        ErrorStash::<F, M>::enforce_post(s0, s1),
        ErrorStash::<F, M>::enforce_post(s1, s2),
    ensures
        s2 == s1,
        s0 is Empty ==> (s1 matches ErrorStash::WithErrors(st) && st.errors@.len() == 1
            && is_internal_error_marker(st.errors@[0])),
{
}


// ===========================================================================
// Decoding process output
// ===========================================================================
/// Declares `core::str::Utf8Error` so that a decoding failure can cross this
/// library's signatures; the value is opaque to every contract.
#[verifier::external_type_specification]
#[verifier::external_body]
pub struct ExUtf8Error(core::str::Utf8Error);

/// Relies on `core::str::from_utf8`: decoding succeeds exactly on valid
/// UTF-8 (vstd's `valid_utf8` states that encoding), and the returned text
/// reads the given bytes.
#[verifier::external_body]
fn utf8_str(bytes: &[u8]) -> (r: Result<&str, core::str::Utf8Error>)
    ensures
        r is Ok <==> vstd::utf8::valid_utf8(bytes@),
        r matches Ok(s) ==> s.spec_bytes() == bytes@,
{
    core::str::from_utf8(bytes)
}

/// Relies on `core::str::Utf8Error`'s `Display` (via `ToString`): the text
/// the decoding failure displays as. Nothing is promised of the value.
#[verifier::external_body]
fn utf8_error_text(e: &core::str::Utf8Error) -> String {
    e.to_string()
}

/// Decodes captured process output. Valid UTF-8 comes back with surrounding
/// whitespace removed and the stash untouched; invalid bytes come back as
/// empty text, with the decoding failure wrapped in context and stashed.
pub fn str_or_stash<F, M>(bytes: &[u8], errs: &mut ErrorStash<F, M>) -> (r: String) where
    F: FnOnce() -> M,
    M: Reportable,

    requires
        old(errs).wf(),
    ensures
        final(errs).wf(),
        vstd::utf8::valid_utf8(bytes@) ==> r@ == crate::text::spec_trim(
            vstd::utf8::decode_utf8(bytes@),
        ) && *final(errs) == *old(errs),
        !vstd::utf8::valid_utf8(bytes@) ==> {
            &&& r@.len() == 0
            &&& (*final(errs)) is WithErrors
            &&& final(errs).spec_errors().len() == old(errs).spec_errors().len() + 1
            &&& (final(errs).spec_errors().last() matches Stashable::Tree(d) && *d
                matches ErrorData::Wrapped(w) && (w.context matches Some(c) && c@
                == "Cannot create string: Invalid byte(s)"@))
        },
{
    match utf8_str(bytes) {
        Ok(s) => {
            proof {
                vstd::utf8::encode_utf8_decode_utf8(s@);
            }
            crate::text::trim(s)
        },
        Err(e) => {
            let text = utf8_error_text(&e);
            errs.push(Error::wrap_with(text, "Cannot create string: Invalid byte(s)"));
            String::new()
        },
    }
}

} // verus!
