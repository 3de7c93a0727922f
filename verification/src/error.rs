//! The error tree: a reportable error is either an ad-hoc message, a wrapper
//! around one foreign failure, or a stash of several failures under one
//! summary. Each node carries the source coordinates that were captured when
//! it was recorded.
//!
//! The compact (single-line) and pretty (multi-line) renderings are specified
//! by the `spec_compact_*` and `spec_pretty_*` functions below; the `to_string`
//! and `to_pretty_string` methods are proved to produce exactly those texts.

use vstd::prelude::*;
use vstd::string::StrSliceExecFns;
use vstd::string::StringExecFns;

use crate::reportable::Reportable;
use crate::stashable::IntoStashable;
use crate::text;

verus! {

/// A source coordinate, captured when an error is recorded.
///
/// The text is deliberately opaque to all contracts: which line of which file
/// records an error is no part of the library's behaviour.
#[derive(Debug)]
pub struct Location {
    text: String,
}

impl View for Location {
    type V = Seq<char>;

    closed spec fn view(&self) -> Seq<char> {
        self.text@
    }
}

impl Location {
    /// Builds a location from raw coordinates, qualified by this crate's name
    /// (the compiler records paths relative to the crate root).
    pub fn from_parts(file: &str, line: u32, column: u32) -> (r: Location)
        ensures
            r@ == "lazy_errors/"@ + file@ + ":"@ + crate::spec_decimal(line as nat) + ":"@
                + crate::spec_decimal(column as nat),
    {
        let mut text = "lazy_errors/".to_owned();
        text.append(file);
        text.append(":");
        text.append(text::usize_to_string(line as usize).as_str());
        text.append(":");
        text.append(text::usize_to_string(column as usize).as_str());
        Location { text }
    }

    pub fn as_str(&self) -> (r: &str)
        ensures
            r@ == self@,
    {
        self.text.as_str()
    }
}

/// The inner error type: what a stash or a wrapper holds.
///
/// A foreign failure is erased to the text it displays as; an error of this
/// library keeps its structure, so that the pretty rendering can recurse into
/// it.
#[derive(Debug)]
pub enum Stashable {
    Message(String),
    Tree(Box<ErrorData>),
}

/// The reportable error value: a boxed [`ErrorData`], so that the success path
/// of a `Result` stays cheap to move.
#[derive(Debug)]
pub struct Error(pub Box<ErrorData>);

/// The three kinds of reportable errors.
#[derive(Debug)]
pub enum ErrorData {
    Stashed(StashedErrors),
    Wrapped(WrappedError),
    AdHoc(AdHocError),
}

/// One or more errors under a summary message. `errors` and `locations` run in
/// parallel: entry `k` of each describes the same failure.
#[derive(Debug)]
pub struct StashedErrors {
    pub summary: String,
    pub errors: Vec<Stashable>,
    pub locations: Vec<Location>,
}

/// Exactly one wrapped failure, optionally annotated with context text.
#[derive(Debug)]
pub struct WrappedError {
    pub context: Option<String>,
    pub inner: Stashable,
    pub location: Location,
}

/// A single error created from an ad-hoc message.
#[derive(Debug)]
pub struct AdHocError {
    pub message: String,
    pub location: Location,
}

impl StashedErrors {
    /// The parallel-sequence invariant.
    pub open spec fn wf(&self) -> bool {
        self.errors@.len() == self.locations@.len()
    }
}

// ===========================================================================
// The rendering specification
// ===========================================================================
/// Compact rendering of an inner error: a foreign failure is its text, an
/// error of this library renders as below.
pub open spec fn spec_compact_stashable(s: Stashable) -> Seq<char>
    decreases s, 1int,
{
    match s {
        Stashable::Message(m) => m@,
        Stashable::Tree(e) => spec_compact_error(*e),
    }
}

pub open spec fn spec_compact_error(e: ErrorData) -> Seq<char>
    decreases e, 1int,
{
    match e {
        ErrorData::Stashed(se) => spec_compact_stashed(se),
        ErrorData::Wrapped(w) => spec_compact_wrapped(w),
        ErrorData::AdHoc(a) => a.message@,
    }
}

/// Compact rendering of a wrapper: the context, if any, then the inner text.
pub open spec fn spec_compact_wrapped(w: WrappedError) -> Seq<char>
    decreases w, 1int,
{
    match w.context {
        Option::None => spec_compact_stashable(w.inner),
        Option::Some(c) => c@ + ": "@ + spec_compact_stashable(w.inner),
    }
}

/// Compact rendering of a stash: `summary: 0 errors` when (defensively) empty,
/// `summary: <sole error>` for one error, `summary (<n> errors)` for more.
pub open spec fn spec_compact_stashed(se: StashedErrors) -> Seq<char>
    decreases se, 1int,
{
    if se.errors@.len() == 0 {
        se.summary@ + ": 0 errors"@
    } else if se.locations@.len() == 0 {
        se.summary@ + ": 0 source locations"@
    } else if se.errors@.len() == 1 {
        se.summary@ + ": "@ + spec_compact_sole(se.errors@)
    } else {
        se.summary@ + " ("@ + crate::spec_decimal(se.errors@.len()) + " errors)"@
    }
}

pub open spec fn spec_compact_sole(ss: Seq<Stashable>) -> Seq<char>
    decreases ss, 1int,
    when ss.len() >= 1
{
    spec_compact_stashable(ss[0])
}

/// The bullet block for one already-rendered child: every line of the child
/// on a fresh line, the first prefixed `- `, the rest `  `. Lines are what
/// `str::lines` yields, so a child whose text is empty contributes nothing.
pub open spec fn spec_bullet(t: Seq<char>) -> Seq<char> {
    spec_bullet_lines(text::spec_lines(t), text::spec_lines(t).len() as int)
}

/// The first `i` lines of a bullet block.
pub open spec fn spec_bullet_lines(lines: Seq<Seq<char>>, i: int) -> Seq<char>
    decreases i,
{
    if i <= 0 {
        Seq::empty()
    } else {
        spec_bullet_lines(lines, i - 1) + (if i - 1 == 0 {
            "\n- "@
        } else {
            "\n  "@
        }) + lines[i - 1]
    }
}

/// Pretty rendering of an inner error.
pub open spec fn spec_pretty_stashable(s: Stashable) -> Seq<char>
    decreases s, 1int,
{
    match s {
        Stashable::Message(m) => m@,
        Stashable::Tree(e) => spec_pretty_error(*e),
    }
}

pub open spec fn spec_pretty_error(e: ErrorData) -> Seq<char>
    decreases e, 1int,
{
    match e {
        ErrorData::Stashed(se) => spec_pretty_stashed(se),
        ErrorData::Wrapped(w) => spec_pretty_wrapped(w),
        ErrorData::AdHoc(a) => a.message@ + "\nat "@ + a.location@,
    }
}

/// Pretty rendering of a wrapper: the inner error's pretty text (prefixed by
/// the context, if any), then the wrapper's own location line. The inner
/// error may already have printed a location of its own; one more line is
/// appended regardless.
pub open spec fn spec_pretty_wrapped(w: WrappedError) -> Seq<char>
    decreases w, 1int,
{
    match w.context {
        Option::None => spec_pretty_stashable(w.inner) + "\nat "@ + w.location@,
        Option::Some(c) => c@ + ": "@ + spec_pretty_stashable(w.inner) + "\nat "@ + w.location@,
    }
}

/// Pretty rendering of a stash: the summary line, then one bullet block per
/// error, each followed by its location line, in insertion order.
pub open spec fn spec_pretty_stashed(se: StashedErrors) -> Seq<char>
    decreases se, 1int,
{
    if se.errors@.len() == 0 {
        se.summary@ + ": 0 errors"@
    } else if se.locations@.len() == 0 {
        se.summary@ + ": 0 source locations"@
    } else {
        se.summary@ + spec_pretty_children(
            se.errors@,
            se.locations@,
            vstd::math::min(se.errors@.len() as int, se.locations@.len() as int),
        )
    }
}

/// The first `i` bullet blocks, each followed by its location line.
pub open spec fn spec_pretty_children(ss: Seq<Stashable>, ls: Seq<Location>, i: int) -> Seq<char>
    decreases ss, i,
    when i <= ss.len() && i <= ls.len()
{
    if i <= 0 {
        Seq::empty()
    } else {
        spec_pretty_children(ss, ls, i - 1) + spec_bullet(spec_pretty_stashable(ss[i - 1]))
            + "\n  at "@ + ls[i - 1]@
    }
}

// ===========================================================================
// The executable renderers
// ===========================================================================
/// Appends the bullet block for the already-rendered child text `t`.
fn append_bullet(out: &mut String, t: &str)
    ensures
        final(out)@ == old(out)@ + spec_bullet(t@),
{
    let tlen = t.unicode_len();
    if tlen == 0 {
        proof {
            assert(out@ =~= old(out)@ + spec_bullet(t@));
        }
        return ;
    }
    let ghost spec_ls = text::spec_lines(t@);
    let mut lines = text::split_str(t, '\n');
    if t.get_char(tlen - 1) == '\n' {
        proof {
            text::lemma_split_len(t@, '\n');
        }
        lines.pop();
    }
    proof {
        assert forall|i: int| 0 <= i < lines@.len() implies text::spec_strip_cr(lines@[i]@)
            == #[trigger] spec_ls[i] by {
            assert(lines@[i]@ == text::spec_split(t@, '\n')[i]);
        }
    }
    let mut k: usize = 0;
    while k < lines.len()
        invariant
            0 <= k <= lines@.len(),
            lines@.len() == spec_ls.len(),
            forall|i: int|
                0 <= i < lines@.len() ==> text::spec_strip_cr(lines@[i]@) == #[trigger] spec_ls[i],
            out@ == old(out)@ + spec_bullet_lines(spec_ls, k as int),
        decreases lines@.len() - k,
    {
        if k == 0 {
            out.append("\n- ");
        } else {
            out.append("\n  ");
        }
        let piece = lines[k].as_str();
        let plen = piece.unicode_len();
        if plen > 0 && piece.get_char(plen - 1) == '\r' {
            out.append(piece.substring_char(0, plen - 1));
            proof {
                assert(piece@.subrange(0, plen - 1) =~= piece@.drop_last());
            }
        } else {
            out.append(piece);
        }
        proof {
            assert(out@ =~= old(out)@ + spec_bullet_lines(spec_ls, k + 1));
        }
        k += 1;
    }
}

impl Stashable {
    /// The compact, single-line rendering.
    pub fn to_string(&self) -> (r: String)
        ensures
            r@ == spec_compact_stashable(*self),
        decreases *self, 1int,
    {
        match self {
            Stashable::Message(m) => m.clone(),
            Stashable::Tree(e) => e.to_string(),
        }
    }

    /// The pretty, multi-line rendering.
    pub fn to_pretty_string(&self) -> (r: String)
        ensures
            r@ == spec_pretty_stashable(*self),
        decreases *self, 1int,
    {
        match self {
            Stashable::Message(m) => m.clone(),
            Stashable::Tree(e) => e.to_pretty_string(),
        }
    }
}

impl ErrorData {
    /// The compact, single-line rendering.
    pub fn to_string(&self) -> (r: String)
        ensures
            r@ == spec_compact_error(*self),
        decreases *self, 1int,
    {
        match self {
            ErrorData::Stashed(se) => se.to_string(),
            ErrorData::Wrapped(w) => w.to_string(),
            ErrorData::AdHoc(a) => a.to_string(),
        }
    }

    /// The pretty, multi-line rendering.
    pub fn to_pretty_string(&self) -> (r: String)
        ensures
            r@ == spec_pretty_error(*self),
        decreases *self, 1int,
    {
        match self {
            ErrorData::Stashed(se) => se.to_pretty_string(),
            ErrorData::Wrapped(w) => w.to_pretty_string(),
            ErrorData::AdHoc(a) => a.to_pretty_string(),
        }
    }
}

impl AdHocError {
    /// The compact, single-line rendering: the message verbatim.
    pub fn to_string(&self) -> (r: String)
        ensures
            r@ == self.message@,
    {
        self.message.clone()
    }

    /// The pretty rendering: the message, then the location line.
    pub fn to_pretty_string(&self) -> (r: String)
        ensures
            r@ == self.message@ + "\nat "@ + self.location@,
    {
        let mut r = self.message.clone();
        r.append("\nat ");
        r.append(self.location.as_str());
        r
    }
}

impl WrappedError {
    /// The compact, single-line rendering.
    pub fn to_string(&self) -> (r: String)
        ensures
            r@ == spec_compact_wrapped(*self),
        decreases *self, 1int,
    {
        let inner = self.inner.to_string();
        match &self.context {
            Option::None => inner,
            Option::Some(c) => {
                let mut r = c.clone();
                r.append(": ");
                r.append(inner.as_str());
                r
            },
        }
    }

    /// The pretty, multi-line rendering.
    pub fn to_pretty_string(&self) -> (r: String)
        ensures
            r@ == spec_pretty_wrapped(*self),
        decreases *self, 1int,
    {
        let inner = self.inner.to_pretty_string();
        let mut r = match &self.context {
            Option::None => String::new(),
            Option::Some(c) => {
                let mut r = c.clone();
                r.append(": ");
                r
            },
        };
        r.append(inner.as_str());
        r.append("\nat ");
        r.append(self.location.as_str());
        proof {
            assert(r@ =~= spec_pretty_wrapped(*self));
        }
        r
    }
}

impl StashedErrors {
    /// The compact, single-line rendering: see [`spec_compact_stashed`].
    pub fn to_string(&self) -> (r: String)
        ensures
            r@ == spec_compact_stashed(*self),
        decreases *self, 1int,
    {
        let mut r = self.summary.clone();
        if self.errors.len() == 0 {
            r.append(": 0 errors");
        } else if self.locations.len() == 0 {
            r.append(": 0 source locations");
        } else if self.errors.len() == 1 {
            r.append(": ");
            let sole = self.errors[0].to_string();
            r.append(sole.as_str());
        } else {
            r.append(" (");
            r.append(text::usize_to_string(self.errors.len()).as_str());
            r.append(" errors)");
        }
        proof {
            assert(r@ =~= spec_compact_stashed(*self));
        }
        r
    }

    /// The pretty, multi-line rendering: see [`spec_pretty_stashed`].
    pub fn to_pretty_string(&self) -> (r: String)
        ensures
            r@ == spec_pretty_stashed(*self),
        decreases *self, 1int,
    {
        let mut r = self.summary.clone();
        if self.errors.len() == 0 {
            r.append(": 0 errors");
        } else if self.locations.len() == 0 {
            r.append(": 0 source locations");
        } else {
            let n = if self.errors.len() < self.locations.len() {
                self.errors.len()
            } else {
                self.locations.len()
            };
            let mut k: usize = 0;
            while k < n
                invariant
                    0 <= k <= n,
                    n == vstd::math::min(self.errors@.len() as int, self.locations@.len() as int),
                    r@ == self.summary@ + spec_pretty_children(
                        self.errors@,
                        self.locations@,
                        k as int,
                    ),
                decreases n - k,
            {
                let child = self.errors[k].to_pretty_string();
                append_bullet(&mut r, child.as_str());
                r.append("\n  at ");
                r.append(self.locations[k].as_str());
                proof {
                    assert(r@ =~= self.summary@ + spec_pretty_children(
                        self.errors@,
                        self.locations@,
                        k + 1,
                    ));
                }
                k += 1;
            }
        }
        proof {
            assert(r@ =~= spec_pretty_stashed(*self));
        }
        r
    }
}

impl Error {
    /// The compact, single-line rendering.
    pub fn to_string(&self) -> (r: String)
        ensures
            r@ == spec_compact_error(*self.0),
    {
        self.0.to_string()
    }

    /// The pretty, multi-line rendering.
    pub fn to_pretty_string(&self) -> (r: String)
        ensures
            r@ == spec_pretty_error(*self.0),
    {
        self.0.to_pretty_string()
    }
}

// ===========================================================================
// Construction
// ===========================================================================
impl AdHocError {
    /// Creates an [`AdHocError`] from a message, capturing the location.
    pub fn from_message<M: Reportable>(msg: M) -> (r: AdHocError)
        ensures
            r.message@ == msg.report_view(),
    {
        AdHocError { message: msg.into_report(), location: crate::stash::location() }
    }
}

impl WrappedError {
    /// Creates a [`WrappedError`] without context from anything convertible
    /// into the inner error type, capturing the location.
    pub fn wrap<E: IntoStashable>(err: E) -> (r: WrappedError)
        ensures
            r.context is None,
            err.is_stashable(r.inner),
    {
        WrappedError { context: None, inner: err.into_stashable(), location: crate::stash::location() }
    }

    /// Creates a [`WrappedError`] annotated with context text, capturing the
    /// location.
    pub fn wrap_with<E: IntoStashable, M: Reportable>(err: E, msg: M) -> (r: WrappedError)
        ensures
            r.context matches Some(c) && c@ == msg.report_view(),
            err.is_stashable(r.inner),
    {
        WrappedError {
            context: Some(msg.into_report()),
            inner: err.into_stashable(),
            location: crate::stash::location(),
        }
    }

    /// Returns the error that was wrapped.
    pub fn inner(&self) -> (r: &Stashable)
        ensures
            r == &self.inner,
    {
        &self.inner
    }
}

impl StashedErrors {
    /// Creates a [`StashedErrors`] from a summary and the parallel error and
    /// location sequences.
    pub fn from<M: Reportable>(summary: M, errors: Vec<Stashable>, locations: Vec<Location>) -> (r:
        StashedErrors)
        ensures
            r.summary@ == summary.report_view(),
            r.errors == errors,
            r.locations == locations,
    {
        StashedErrors { summary: summary.into_report(), errors, locations }
    }

    /// Returns all errors in this stash, in insertion order.
    pub fn errors(&self) -> (r: &[Stashable])
        ensures
            r@ == self.errors@,
    {
        self.errors.as_slice()
    }
}

impl ErrorData {
    /// Creates an [`ErrorData::AdHoc`] from a message.
    pub fn from_message<M: Reportable>(msg: M) -> (r: ErrorData)
        ensures
            r matches ErrorData::AdHoc(a) && a.message@ == msg.report_view(),
    {
        ErrorData::AdHoc(AdHocError::from_message(msg))
    }

    /// Creates an [`ErrorData::Stashed`] from a summary and the parallel
    /// error and location sequences.
    pub fn from_stash<M: Reportable>(summary: M, errors: Vec<Stashable>, locations: Vec<Location>)
        -> (r: ErrorData)
        ensures
            r matches ErrorData::Stashed(se) && se.summary@ == summary.report_view() && se.errors
                == errors && se.locations == locations,
    {
        ErrorData::Stashed(StashedErrors::from(summary, errors, locations))
    }

    /// Creates an [`ErrorData::Wrapped`] without context.
    pub fn wrap<E: IntoStashable>(err: E) -> (r: ErrorData)
        ensures
            r matches ErrorData::Wrapped(w) && w.context is None && err.is_stashable(w.inner),
    {
        ErrorData::Wrapped(WrappedError::wrap(err))
    }

    /// Creates an [`ErrorData::Wrapped`] annotated with context text.
    pub fn wrap_with<E: IntoStashable, M: Reportable>(err: E, msg: M) -> (r: ErrorData)
        ensures
            r matches ErrorData::Wrapped(w) && (w.context matches Some(c) && c@
                == msg.report_view()) && err.is_stashable(w.inner),
    {
        ErrorData::Wrapped(WrappedError::wrap_with(err, msg))
    }

    /// Deprecated name of [`children`](Self::children).
    pub fn childs(&self) -> (r: &[Stashable])
        ensures
            r@ == spec_children(*self),
    {
        self.children()
    }

    /// All errors that are direct children of this error, in order. Children
    /// of children (a stash pushed into a stash) are not walked.
    pub fn children(&self) -> (r: &[Stashable])
        ensures
            r@ == spec_children(*self),
    {
        match self {
            ErrorData::AdHoc(_) => &[],
            ErrorData::Wrapped(w) => slice_from_ref(&w.inner),
            ErrorData::Stashed(se) => se.errors.as_slice(),
        }
    }
}

/// The direct children of an error: none for an ad-hoc message, the wrapped
/// value for a wrapper, the stashed errors for a stash.
pub open spec fn spec_children(e: ErrorData) -> Seq<Stashable> {
    match e {
        ErrorData::AdHoc(_) => Seq::empty(),
        ErrorData::Wrapped(w) => seq![w.inner],
        ErrorData::Stashed(se) => se.errors@,
    }
}

impl Error {
    /// Creates an ad-hoc [`Error`] from a message.
    pub fn from_message<M: Reportable>(msg: M) -> (r: Error)
        ensures
            *r.0 matches ErrorData::AdHoc(a) && a.message@ == msg.report_view(),
    {
        Error(Box::new(ErrorData::from_message(msg)))
    }

    /// Creates a stashed [`Error`] from a summary and the parallel error and
    /// location sequences.
    pub fn from_stash<M: Reportable>(summary: M, errors: Vec<Stashable>, locations: Vec<Location>)
        -> (r: Error)
        ensures
            *r.0 matches ErrorData::Stashed(se) && se.summary@ == summary.report_view() && se.errors
                == errors && se.locations == locations,
    {
        Error(Box::new(ErrorData::from_stash(summary, errors, locations)))
    }

    /// Creates a wrapping [`Error`] without context.
    pub fn wrap<E: IntoStashable>(err: E) -> (r: Error)
        ensures
            *r.0 matches ErrorData::Wrapped(w) && w.context is None && err.is_stashable(w.inner),
    {
        Error(Box::new(ErrorData::wrap(err)))
    }

    /// Creates a wrapping [`Error`] annotated with context text.
    pub fn wrap_with<E: IntoStashable, M: Reportable>(err: E, msg: M) -> (r: Error)
        ensures
            *r.0 matches ErrorData::Wrapped(w) && (w.context matches Some(c) && c@
                == msg.report_view()) && err.is_stashable(w.inner),
    {
        Error(Box::new(ErrorData::wrap_with(err, msg)))
    }

    /// All errors that are direct children of this error, in order.
    pub fn children(&self) -> (r: &[Stashable])
        ensures
            r@ == spec_children(*self.0),
    {
        self.0.children()
    }
}

/// The compact rendering of a stash follows the count rule: with no errors it
/// is `<summary>: 0 errors`, with exactly one it is `<summary>: <that error's
/// compact form>`, with two or more it is `<summary> (<n> errors)`.
pub proof fn lemma_compact_stashed_count_rule(se: StashedErrors)
    requires
        se.wf(),
    ensures
        se.errors@.len() == 0 ==> spec_compact_stashed(se) == se.summary@ + ": 0 errors"@,
        se.errors@.len() == 1 ==> spec_compact_stashed(se) == se.summary@ + ": "@
            + spec_compact_stashable(se.errors@[0]),
        se.errors@.len() >= 2 ==> spec_compact_stashed(se) == se.summary@ + " ("@
            + crate::spec_decimal(se.errors@.len()) + " errors)"@,
{
}

/// Relies on `core::slice::from_ref`: a one-element slice of the referent.
#[verifier::external_body]
pub(crate) fn slice_from_ref<T>(t: &T) -> (r: &[T])
    ensures
        r@ == seq![*t],
{
    core::slice::from_ref(t)
}

} // verus!
