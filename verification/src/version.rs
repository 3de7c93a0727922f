//! Version-number parsing and filtering for the task-runner commands.
//!
//! The runner imports a version number from the output of a source such as
//! `git describe`; running that source and applying the imported number are
//! outside work, but which text is accepted, and as what, is specified and
//! proved here.

use vstd::prelude::*;
use vstd::string::StrSliceExecFns;
use vstd::string::StringExecFns;

use crate::error::Error;
use crate::error::ErrorData;
use crate::error::Stashable;
use crate::stashable::IntoStashable;
use crate::or_stash::StashedResult;
use crate::stash::StashWithErrors;
use crate::text;
use crate::try_map_or_stash::TryMapOrStash;

verus! {

/// The version-manipulation commands.
pub enum Version {
    /// Extracts the version number from some source and applies it to the
    /// package metadata.
    Import(ImportArgs),
}

/// Arguments of the import command.
pub struct ImportArgs {
    /// Where to import the version number from.
    pub source: Source,
    /// Whitelists version number formats that are allowed to import. Empty
    /// means: accept any version number.
    pub accept: Vec<Pattern>,
}

/// Where a version number can be imported from.
#[derive(Clone, Copy, PartialEq, Eq, Debug)]
pub enum Source {
    /// The string returned from `git describe --dirty`.
    GitDescribe,
}

/// A whitelisted version number format.
#[derive(Clone, Copy, PartialEq, Eq, Debug)]
pub enum Pattern {
    /// A regular `MAJOR.MINOR.PATCH` version, all parts decimal numbers.
    MajorMinorPatch,
}

/// A parsed version number: regular, or kept verbatim.
#[derive(Debug)]
pub enum VersionNumber {
    MajorMinorPatch(MajorMinorPatch),
    CustomVersion(CustomVersion),
}

/// A regular `MAJOR.MINOR.PATCH` version number.
#[derive(Clone, Copy, PartialEq, Eq, Debug)]
pub struct MajorMinorPatch {
    pub major: u16,
    pub minor: u16,
    pub patch: u16,
}

/// Any other non-empty version text, kept verbatim.
#[derive(Debug)]
pub struct CustomVersion(pub String);

/// The `MAJOR.MINOR.PATCH` texts: three dot-separated decimal numbers.
pub open spec fn spec_is_mmp(s: Seq<char>) -> bool {
    let parts = text::spec_split(s, '.');
    parts.len() == 3 && (forall|i: int|
        0 <= i < 3 ==> text::spec_parse_u16(#[trigger] parts[i]) is Some)
}

/// The value that a `MAJOR.MINOR.PATCH` text names.
pub open spec fn spec_mmp_of(s: Seq<char>) -> MajorMinorPatch {
    let parts = text::spec_split(s, '.');
    MajorMinorPatch {
        major: text::spec_parse_u16(parts[0])->0,
        minor: text::spec_parse_u16(parts[1])->0,
        patch: text::spec_parse_u16(parts[2])->0,
    }
}

/// Parses one dot-separated part of a regular version number.
pub fn parse_version_part(token: &str) -> (r: Result<u16, Error>)
    ensures
        r is Ok <==> text::spec_parse_u16(token@) is Some,
        r matches Ok(n) ==> text::spec_parse_u16(token@) == Some(n),
        r matches Err(e) ==> *e.0 matches ErrorData::AdHoc(a) && a.message@ == "Invalid number: '"@
            + token@ + "'"@,
{
    match text::parse_u16(token) {
        Some(n) => Ok(n),
        None => {
            let mut msg = "Invalid number: '".to_owned();
            msg.append(token);
            msg.append("'");
            Err(Error::from_message(msg))
        },
    }
}

/// The stash entry for one unparsable part: an ad-hoc error naming the
/// token.
pub open spec fn spec_is_invalid_number_error(token: Seq<char>, s: Stashable) -> bool {
    s matches Stashable::Tree(d) && *d matches ErrorData::AdHoc(a) && a.message@
        == "Invalid number: '"@ + token + "'"@
}

/// The dot-separated parts that do not parse, in order.
pub open spec fn spec_failing_parts(parts: Seq<Seq<char>>) -> Seq<Seq<char>>
    recommends
        parts.len() == 3,
{
    (if text::spec_parse_u16(parts[0]) is None {
        seq![parts[0]]
    } else {
        Seq::empty()
    }) + (if text::spec_parse_u16(parts[1]) is None {
        seq![parts[1]]
    } else {
        Seq::empty()
    }) + (if text::spec_parse_u16(parts[2]) is None {
        seq![parts[2]]
    } else {
        Seq::empty()
    })
}

/// Parses a `MAJOR.MINOR.PATCH` version number. Every part is examined even
/// if an earlier one already failed; all failures are reported together
/// under one summary, one error per failing part, in part order.
pub fn parse_major_minor_patch(s: &str) -> (r: Result<MajorMinorPatch, Error>)
    ensures
        r is Ok <==> spec_is_mmp(s@),
        r matches Ok(v) ==> v == spec_mmp_of(s@),
        r matches Err(e) ==> *e.0 matches ErrorData::Stashed(se) && se.summary@
            == "Doesn't match MAJOR.MINOR.PATCH: '"@ + s@ + "'"@ && ({
            let parts = text::spec_split(s@, '.');
            if parts.len() == 3 {
                &&& se.errors@.len() == spec_failing_parts(parts).len()
                &&& (forall|k: int|
                    0 <= k < se.errors@.len() ==> spec_is_invalid_number_error(
                        spec_failing_parts(parts)[k],
                        #[trigger] se.errors@[k],
                    ))
            } else {
                se.errors@.len() == 1 && (se.errors@[0] matches Stashable::Tree(d) && *d
                    matches ErrorData::AdHoc(a) && a.message@
                    == "Invalid number of parts separated by '.'"@)
            }
        }),
{
    proof {
        text::lemma_find(s@, '.');
    }
    let mut summary = "Doesn't match MAJOR.MINOR.PATCH: '".to_owned();
    summary.append(s);
    summary.append("'");

    let parts = text::split_str(s, '.');
    if parts.len() != 3 {
        let st = StashWithErrors::from(
            summary,
            Error::from_message("Invalid number of parts separated by '.'"),
        );
        Err(st.into_error())
    } else {
        let mut sink = StashWithErrors { summary, errors: Vec::new(), locations: Vec::new() };
        let tokens: [&str; 3] = [parts[0].as_str(), parts[1].as_str(), parts[2].as_str()];
        let mapped = tokens.try_map_or_stash(parse_version_part, &mut sink);
        proof {
            assert(tokens@[0]@ == text::spec_split(s@, '.')[0]);
            assert(tokens@[1]@ == text::spec_split(s@, '.')[1]);
            assert(tokens@[2]@ == text::spec_split(s@, '.')[2]);
        }
        match mapped {
            StashedResult::Success(nums) => {
                proof {
                    broadcast use crate::try_collect_or_stash::lemma_ok_err_partition;

                    assert forall|i: int|
                        0 <= i < 3 implies text::spec_parse_u16(
                        #[trigger] text::spec_split(s@, '.')[i],
                    ) == Some(nums@[i]) by {
                        assert(<[&str; 3] as TryMapOrStash<&str, Error, StashWithErrors, 3>>::element_ok(
                            &tokens,
                            i,
                        ) == Some(tokens@[i]));
                    }
                }
                let major = nums[0];
                let minor = nums[1];
                let patch = nums[2];
                Ok(MajorMinorPatch { major, minor, patch })
            },
            StashedResult::Stashed => {
                proof {
                    lemma_failing_parts_stashed(s@, tokens, &sink);
                }
                Err(sink.into_error())
            },
        }
    }
}

/// After a failed map over the three parts, the sink holds exactly one
/// ad-hoc `Invalid number` error per unparsable part, in part order.
proof fn lemma_failing_parts_stashed(
    sv: Seq<char>,
    tokens: [&str; 3],
    sink: &StashWithErrors,
)
    requires
        text::spec_split(sv, '.').len() == 3,
        tokens@[0]@ == text::spec_split(sv, '.')[0],
        tokens@[1]@ == text::spec_split(sv, '.')[1],
        tokens@[2]@ == text::spec_split(sv, '.')[2],
        exists|outs: Seq<Result<u16, Stashable>>|
            {
                &&& outs.len() == 3
                &&& (forall|ii: int|
                    0 <= ii < 3 ==> match #[trigger] outs[ii] {
                        Ok(u) => exists|tk: &str|
                            <[&str; 3] as TryMapOrStash<
                                &str,
                                Error,
                                StashWithErrors,
                                3,
                            >>::element_ok(&tokens, ii) == Some(tk) && call_ensures(
                                parse_version_part,
                                (tk,),
                                Result::<u16, Error>::Ok(u),
                            ),
                        Err(sx) => <[&str; 3] as TryMapOrStash<
                            &str,
                            Error,
                            StashWithErrors,
                            3,
                        >>::element_err_is(&tokens, ii, sx) || (exists|tk: &str, e: Error|
                            <[&str; 3] as TryMapOrStash<
                                &str,
                                Error,
                                StashWithErrors,
                                3,
                            >>::element_ok(&tokens, ii) == Some(tk) && #[trigger] call_ensures(
                                parse_version_part,
                                (tk,),
                                Result::<u16, Error>::Err(e),
                            ) && e.is_stashable(sx)),
                    })
                &&& sink.errors@ =~= crate::try_collect_or_stash::spec_err_values(outs)
                &&& crate::try_collect_or_stash::spec_err_values(outs).len() > 0
            },
    ensures
        !spec_is_mmp(sv),
        sink.errors@.len() == spec_failing_parts(text::spec_split(sv, '.')).len(),
        forall|k: int|
            0 <= k < sink.errors@.len() ==> spec_is_invalid_number_error(
                spec_failing_parts(text::spec_split(sv, '.'))[k],
                #[trigger] sink.errors@[k],
            ),
{
    text::lemma_find(sv, '.');
    let parts = text::spec_split(sv, '.');
    let outs = choose|outs: Seq<Result<u16, Stashable>>|
        {
            &&& outs.len() == 3
            &&& (forall|ii: int|
                0 <= ii < 3 ==> match #[trigger] outs[ii] {
                    Ok(u) => exists|tk: &str|
                        <[&str; 3] as TryMapOrStash<&str, Error, StashWithErrors, 3>>::element_ok(
                            &tokens,
                            ii,
                        ) == Some(tk) && call_ensures(
                            parse_version_part,
                            (tk,),
                            Result::<u16, Error>::Ok(u),
                        ),
                    Err(sx) => <[&str; 3] as TryMapOrStash<
                        &str,
                        Error,
                        StashWithErrors,
                        3,
                    >>::element_err_is(&tokens, ii, sx) || (exists|tk: &str, e: Error|
                        <[&str; 3] as TryMapOrStash<&str, Error, StashWithErrors, 3>>::element_ok(
                            &tokens,
                            ii,
                        ) == Some(tk) && #[trigger] call_ensures(
                            parse_version_part,
                            (tk,),
                            Result::<u16, Error>::Err(e),
                        ) && e.is_stashable(sx)),
                })
            &&& sink.errors@ =~= crate::try_collect_or_stash::spec_err_values(outs)
            &&& crate::try_collect_or_stash::spec_err_values(outs).len() > 0
        };
    assert forall|ii: int| 0 <= ii < 3 implies ((#[trigger] outs[ii] is Err <==> text::spec_parse_u16(
        parts[ii],
    ) is None) && (outs[ii] matches Err(sx) ==> spec_is_invalid_number_error(
        parts[ii],
        sx,
    ))) by {
        assert(<[&str; 3] as TryMapOrStash<&str, Error, StashWithErrors, 3>>::element_ok(
            &tokens,
            ii,
        ) == Some(tokens@[ii]));
        if ii == 0 {
            assert(tokens@[0]@ == parts[0]);
        } else if ii == 1 {
            assert(tokens@[1]@ == parts[1]);
        } else {
            assert(tokens@[2]@ == parts[2]);
        }
    }
    // expand the error projection over the three concrete outcomes
    assert(outs.drop_first() =~= seq![outs[1], outs[2]]);
    assert(seq![outs[1], outs[2]].drop_first() =~= seq![outs[2]]);
    assert(seq![outs[2]].drop_first() =~= Seq::<Result<u16, Stashable>>::empty());
    let c0 = match outs[0] {
        Ok(_) => Seq::<Stashable>::empty(),
        Err(sx) => seq![sx],
    };
    let c1 = match outs[1] {
        Ok(_) => Seq::<Stashable>::empty(),
        Err(sx) => seq![sx],
    };
    let c2 = match outs[2] {
        Ok(_) => Seq::<Stashable>::empty(),
        Err(sx) => seq![sx],
    };
    assert(crate::try_collect_or_stash::spec_err_values(
        Seq::<Result<u16, Stashable>>::empty(),
    ) =~= Seq::<Stashable>::empty());
    assert(crate::try_collect_or_stash::spec_err_values(seq![outs[2]]) =~= c2);
    assert(crate::try_collect_or_stash::spec_err_values(seq![outs[1], outs[2]]) =~= c1 + c2);
    assert(crate::try_collect_or_stash::spec_err_values(outs) =~= c0 + (c1 + c2));
    let f0 = if text::spec_parse_u16(parts[0]) is None {
        seq![parts[0]]
    } else {
        Seq::<Seq<char>>::empty()
    };
    let f1 = if text::spec_parse_u16(parts[1]) is None {
        seq![parts[1]]
    } else {
        Seq::<Seq<char>>::empty()
    };
    let f2 = if text::spec_parse_u16(parts[2]) is None {
        seq![parts[2]]
    } else {
        Seq::<Seq<char>>::empty()
    };
    assert(spec_failing_parts(parts) =~= f0 + f1 + f2);
    // one failing part at least, so the text is no regular version
    if outs[0] is Err {
        assert(!spec_is_mmp(sv));
    } else if outs[1] is Err {
        assert(!spec_is_mmp(sv));
    } else if outs[2] is Err {
        assert(!spec_is_mmp(sv));
    } else {
        assert(c0 + (c1 + c2) =~= Seq::<Stashable>::empty());
        assert(false);
    }
    // the chunks line up pairwise, so the whole sequences do
    assert(sink.errors@ =~= c0 + (c1 + c2));
    assert(c0.len() == f0.len() && c1.len() == f1.len() && c2.len() == f2.len());
    assert forall|k: int|
        0 <= k < sink.errors@.len() implies spec_is_invalid_number_error(
        spec_failing_parts(parts)[k],
        #[trigger] sink.errors@[k],
    ) by {
        assert((f0 + f1 + f2).len() == f0.len() + f1.len() + f2.len());
        if k < f0.len() {
            assert((c0 + (c1 + c2))[k] == c0[0]);
            assert((f0 + f1 + f2)[k] == f0[0]);
        } else if k < f0.len() + f1.len() {
            assert((c0 + (c1 + c2))[k] == c1[0]);
            assert((f0 + f1 + f2)[k] == f1[0]);
        } else {
            assert((c0 + (c1 + c2))[k] == c2[0]);
            assert((f0 + f1 + f2)[k] == f2[0]);
        }
    }
}

/// Parses a non-empty custom version text; only the empty text is rejected.
pub fn parse_custom_version(s: &str) -> (r: Result<CustomVersion, Error>)
    ensures
        r is Ok <==> s@.len() > 0,
        r matches Ok(v) ==> v.0@ == s@,
        r matches Err(e) ==> *e.0 matches ErrorData::AdHoc(a) && a.message@
            == "Version number is empty"@,
{
    if s.unicode_len() == 0 {
        Err(Error::from_message("Version number is empty"))
    } else {
        Ok(CustomVersion(s.to_owned()))
    }
}

/// Parses a version number: the regular `MAJOR.MINOR.PATCH` form when it
/// matches, any other non-empty text verbatim.
pub fn parse_version_number(s: &str) -> (r: Result<VersionNumber, Error>)
    ensures
        r is Ok <==> s@.len() > 0,
        r matches Ok(v) ==> (match v {
            VersionNumber::MajorMinorPatch(m) => spec_is_mmp(s@) && m == spec_mmp_of(s@),
            VersionNumber::CustomVersion(c) => !spec_is_mmp(s@) && c.0@ == s@,
        }),
        r matches Err(e) ==> *e.0 matches ErrorData::AdHoc(a) && a.message@
            == "Version number is empty"@,
{
    proof {
        text::lemma_split_len(s@, '.');
        if s@.len() == 0 {
            assert(text::spec_split(s@, '.') =~= seq![s@]);
            assert(!spec_is_mmp(s@));
        }
    }
    match parse_major_minor_patch(s) {
        Ok(v) => Ok(VersionNumber::MajorMinorPatch(v)),
        Err(_) => match parse_custom_version(s) {
            Ok(c) => Ok(VersionNumber::CustomVersion(c)),
            Err(e) => Err(e),
        },
    }
}

/// Parses the output of `git describe`: surrounding whitespace is dropped
/// and one leading `v` is stripped before parsing.
pub fn parse_git_describe_output(output: &str) -> (r: Result<VersionNumber, Error>)
    ensures
        ({
            let t = text::spec_trim(output@);
            let u = if t.len() > 0 && t[0] == 'v' {
                t.skip(1)
            } else {
                t
            };
            &&& (r is Ok <==> u.len() > 0)
            &&& (r matches Ok(v) ==> (match v {
                VersionNumber::MajorMinorPatch(m) => spec_is_mmp(u) && m == spec_mmp_of(u),
                VersionNumber::CustomVersion(c) => !spec_is_mmp(u) && c.0@ == u,
            }))
        }),
{
    let trimmed = text::trim(output);
    let len = trimmed.as_str().unicode_len();
    if len > 0 && trimmed.as_str().get_char(0) == 'v' {
        let rest = trimmed.as_str().substring_char(1, len);
        proof {
            assert(rest@ =~= text::spec_trim(output@).skip(1));
        }
        parse_version_number(rest)
    } else {
        parse_version_number(trimmed.as_str())
    }
}

/// True when the version matches the whitelist: an empty whitelist accepts
/// everything, and a regular version matches any whitelist entry.
pub fn is_accepted(version: &VersionNumber, accept: &[Pattern]) -> (r: bool)
    ensures
        r == (accept@.len() == 0 || version is MajorMinorPatch),
{
    if accept.len() == 0 {
        return true;
    }
    let mut k: usize = 0;
    while k < accept.len()
        invariant
            0 <= k <= accept@.len(),
            k > 0 ==> !((*version) is MajorMinorPatch),
        decreases accept@.len() - k,
    {
        match accept[k] {
            Pattern::MajorMinorPatch => {
                if let VersionNumber::MajorMinorPatch(_) = version {
                    return true;
                }
            },
        }
        k += 1;
    }
    false
}

/// Parses the source's output and rejects a version that matches no
/// whitelist entry.
pub fn parse_and_filter(git_output: &str, accept: &[Pattern]) -> (r: Result<VersionNumber, Error>)
    ensures
        ({
            let t = text::spec_trim(git_output@);
            let u = if t.len() > 0 && t[0] == 'v' {
                t.skip(1)
            } else {
                t
            };
            &&& (r is Ok <==> u.len() > 0 && (accept@.len() == 0 || spec_is_mmp(u)))
            &&& (r matches Ok(v) ==> (match v {
                VersionNumber::MajorMinorPatch(m) => spec_is_mmp(u) && m == spec_mmp_of(u),
                VersionNumber::CustomVersion(c) => !spec_is_mmp(u) && c.0@ == u,
            }))
        }),
{
    let version = match parse_git_describe_output(git_output) {
        Ok(v) => v,
        Err(e) => {
            return Err(e);
        },
    };
    if !is_accepted(&version, accept) {
        let mut msg = "Version '".to_owned();
        msg.append(version.to_string().as_str());
        msg.append("' does not match any `accept` parameter");
        return Err(Error::from_message(msg));
    }
    Ok(version)
}

impl MajorMinorPatch {
    /// The `MAJOR.MINOR.PATCH` text of this version.
    pub fn to_string(&self) -> (r: String)
        ensures
            r@ == crate::spec_decimal(self.major as nat) + "."@ + crate::spec_decimal(
                self.minor as nat,
            ) + "."@ + crate::spec_decimal(self.patch as nat),
    {
        let mut r = text::usize_to_string(self.major as usize);
        r.append(".");
        r.append(text::usize_to_string(self.minor as usize).as_str());
        r.append(".");
        r.append(text::usize_to_string(self.patch as usize).as_str());
        r
    }
}

impl CustomVersion {
    /// The verbatim version text.
    pub fn to_string(&self) -> (r: String)
        ensures
            r@ == self.0@,
    {
        self.0.clone()
    }
}

impl VersionNumber {
    /// The version's text form.
    pub fn to_string(&self) -> (r: String)
        ensures
            self matches VersionNumber::MajorMinorPatch(m) ==> r@ == crate::spec_decimal(
                m.major as nat,
            ) + "."@ + crate::spec_decimal(m.minor as nat) + "."@ + crate::spec_decimal(
                m.patch as nat,
            ),
            self matches VersionNumber::CustomVersion(c) ==> r@ == c.0@,
    {
        match self {
            VersionNumber::MajorMinorPatch(m) => m.to_string(),
            VersionNumber::CustomVersion(c) => c.to_string(),
        }
    }
}

} // verus!
