//! Verified helpers for building and taking apart the text that the error
//! renderers produce.

use vstd::prelude::*;
use vstd::string::StrSliceExecFns;
use vstd::string::StringExecFns;

verus! {

/// Position of the first occurrence of `sep` in `s`, or `s.len()` if absent.
pub open spec fn spec_find(s: Seq<char>, sep: char) -> nat
    decreases s.len(),
{
    if s.len() == 0 {
        0
    } else if s[0] == sep {
        0
    } else {
        1 + spec_find(s.drop_first(), sep)
    }
}

pub proof fn lemma_find(s: Seq<char>, sep: char)
    ensures
        spec_find(s, sep) <= s.len(),
        forall|j: int| 0 <= j < spec_find(s, sep) ==> s[j] != sep,
        spec_find(s, sep) < s.len() ==> s[spec_find(s, sep) as int] == sep,
    decreases s.len(),
{
    if s.len() != 0 && s[0] != sep {
        lemma_find(s.drop_first(), sep);
        assert forall|j: int| 0 <= j < spec_find(s, sep) implies s[j] != sep by {
            if j > 0 {
                assert(s.drop_first()[j - 1] == s[j]);
            }
        }
    }
}

/// A position that no separator precedes and that holds one (or is the end)
/// is the position that `spec_find` names.
pub proof fn lemma_find_is(s: Seq<char>, sep: char, i: int)
    requires
        0 <= i <= s.len(),
        forall|j: int| 0 <= j < i ==> s[j] != sep,
        i < s.len() ==> s[i] == sep,
    ensures
        spec_find(s, sep) == i,
    decreases s.len(),
{
    if s.len() != 0 && s[0] != sep {
        lemma_find_is(s.drop_first(), sep, i - 1);
    }
}

/// The pieces of `s` between occurrences of `sep`, in order.
/// Splitting never yields an empty sequence of pieces: a text without
/// separators is one piece, and each separator ends a piece.
pub open spec fn spec_split(s: Seq<char>, sep: char) -> Seq<Seq<char>>
    decreases s.len(),
    when spec_find(s, sep) <= s.len()
    via spec_split_decreases
{
    let i = spec_find(s, sep) as int;
    if i == s.len() {
        seq![s]
    } else {
        seq![s.subrange(0, i)] + spec_split(s.subrange(i + 1, s.len() as int), sep)
    }
}

#[via_fn]
proof fn spec_split_decreases(s: Seq<char>, sep: char) {
    lemma_find(s, sep);
}

pub proof fn lemma_split_len(s: Seq<char>, sep: char)
    ensures
        spec_split(s, sep).len() >= 1,
    decreases s.len(),
{
    lemma_find(s, sep);
    let i = spec_find(s, sep) as int;
    if i < s.len() {
        lemma_split_len(s.subrange(i + 1, s.len() as int), sep);
    }
}

/// Finds the first occurrence of `sep` at or after `from`.
fn find_char(s: &str, sep: char, from: usize) -> (r: usize)
    requires
        from <= s@.len(),
    ensures
        from + spec_find(s@.subrange(from as int, s@.len() as int), sep) == r,
        r <= s@.len(),
{
    let ghost tail = s@.subrange(from as int, s@.len() as int);
    let len = s.unicode_len();
    let mut i = from;
    while i < len
        invariant
            from <= i <= len,
            len == s@.len(),
            tail == s@.subrange(from as int, s@.len() as int),
            forall|j: int| from <= j < i ==> s@[j] != sep,
        decreases len - i,
    {
        if s.get_char(i) == sep {
            proof {
                assert forall|j: int| 0 <= j < i - from implies tail[j] != sep by {
                    assert(tail[j] == s@[from + j]);
                }
                assert(tail[i - from] == s@[i as int]);
                lemma_find_is(tail, sep, i - from);
            }
            return i;
        }
        i += 1;
    }
    proof {
        assert forall|j: int| 0 <= j < i - from implies tail[j] != sep by {
            assert(tail[j] == s@[from + j]);
        }
        lemma_find_is(tail, sep, i - from);
    }
    i
}

/// Splits `s` on `sep`; the separators themselves are dropped.
pub fn split_str(s: &str, sep: char) -> (r: Vec<String>)
    ensures
        r@.len() == spec_split(s@, sep).len(),
        forall|i: int| 0 <= i < r@.len() ==> r@[i]@ == #[trigger] spec_split(s@, sep)[i],
    decreases s@.len(),
{
    let len = s.unicode_len();
    let cut = find_char(s, sep, 0);
    proof {
        assert(s@.subrange(0, s@.len() as int) =~= s@);
        lemma_find(s@, sep);
    }
    if cut == len {
        let mut r: Vec<String> = Vec::new();
        r.push(s.to_owned());
        proof {
            assert(spec_split(s@, sep) =~= seq![s@]);
        }
        r
    } else {
        let head = s.substring_char(0, cut).to_owned();
        let rest = s.substring_char(cut + 1, len);
        proof {
            lemma_find(rest@, sep);
        }
        let tail = split_str(rest, sep);
        let mut r: Vec<String> = Vec::new();
        r.push(head);
        let mut k: usize = 0;
        while k < tail.len()
            invariant
                0 <= k <= tail@.len(),
                r@.len() == 1 + k,
                r@[0]@ == s@.subrange(0, spec_find(s@, sep) as int),
                forall|i: int| 0 <= i < k ==> r@[i + 1]@ == #[trigger] tail@[i]@,
                tail@.len() == spec_split(rest@, sep).len(),
                forall|i: int| 0 <= i < tail@.len() ==> tail@[i]@ == #[trigger] spec_split(
                    rest@,
                    sep,
                )[i],
                rest@ == s@.subrange(spec_find(s@, sep) as int + 1, s@.len() as int),
            decreases tail@.len() - k,
        {
            let piece = tail[k].as_str().to_owned();
            r.push(piece);
            k += 1;
        }
        proof {
            let i = spec_find(s@, sep) as int;
            assert(spec_split(s@, sep) =~= seq![s@.subrange(0, i)] + spec_split(rest@, sep));
        }
        r
    }
}

/// One line of text: a trailing carriage return is not part of it.
pub open spec fn spec_strip_cr(p: Seq<char>) -> Seq<char> {
    if p.len() > 0 && p.last() == '\r' {
        p.drop_last()
    } else {
        p
    }
}

/// The lines of `t`, as `str::lines` yields them: the pieces between
/// newlines, each without a trailing carriage return, with no final empty
/// piece after a terminating newline — and none at all for empty text.
pub open spec fn spec_lines(t: Seq<char>) -> Seq<Seq<char>> {
    if t.len() == 0 {
        Seq::empty()
    } else {
        let pieces = spec_split(t, '\n');
        let kept = if t.last() == '\n' {
            pieces.drop_last()
        } else {
            pieces
        };
        kept.map_values(|p: Seq<char>| spec_strip_cr(p))
    }
}

/// The character for a single decimal digit.
pub open spec fn spec_digit_char(d: nat) -> char {
    if d == 0 {
        '0'
    } else if d == 1 {
        '1'
    } else if d == 2 {
        '2'
    } else if d == 3 {
        '3'
    } else if d == 4 {
        '4'
    } else if d == 5 {
        '5'
    } else if d == 6 {
        '6'
    } else if d == 7 {
        '7'
    } else if d == 8 {
        '8'
    } else {
        '9'
    }
}

fn digit_char(d: usize) -> (c: char)
    requires
        d < 10,
    ensures
        c == spec_digit_char(d as nat),
{
    if d == 0 {
        '0'
    } else if d == 1 {
        '1'
    } else if d == 2 {
        '2'
    } else if d == 3 {
        '3'
    } else if d == 4 {
        '4'
    } else if d == 5 {
        '5'
    } else if d == 6 {
        '6'
    } else if d == 7 {
        '7'
    } else if d == 8 {
        '8'
    } else {
        '9'
    }
}

/// An ASCII whitespace character. The library trims by this predicate.
pub open spec fn spec_is_ws(c: char) -> bool {
    c == ' ' || c == '\n' || c == '\t' || c == '\r'
}

fn is_ws(c: char) -> (r: bool)
    ensures
        r == spec_is_ws(c),
{
    c == ' ' || c == '\n' || c == '\t' || c == '\r'
}

/// Length of the whitespace run that starts at `i`.
pub open spec fn spec_ws_run(s: Seq<char>, i: int) -> nat
    decreases s.len() - i,
    when 0 <= i <= s.len()
{
    if i < s.len() && spec_is_ws(s[i]) {
        1 + spec_ws_run(s, i + 1)
    } else {
        0
    }
}

/// Length of the whitespace run that ends just before `i`.
pub open spec fn spec_ws_run_back(s: Seq<char>, i: int) -> nat
    decreases i,
    when 0 <= i <= s.len()
{
    if i > 0 && spec_is_ws(s[i - 1]) {
        1 + spec_ws_run_back(s, i - 1)
    } else {
        0
    }
}

/// A whitespace run counted back from `i` stops at a non-whitespace
/// character below `i`.
proof fn lemma_ws_run_back_stops(s: Seq<char>, i: int, k: int)
    requires
        0 <= k < i <= s.len(),
        !spec_is_ws(s[k]),
    ensures
        spec_ws_run_back(s, i) <= i - k - 1,
    decreases i,
{
    if spec_is_ws(s[i - 1]) {
        lemma_ws_run_back_stops(s, i - 1, k);
    }
}

/// `s` with leading and trailing whitespace removed.
pub open spec fn spec_trim(s: Seq<char>) -> Seq<char> {
    let a = spec_ws_run(s, 0) as int;
    if a == s.len() {
        Seq::empty()
    } else {
        s.subrange(a, s.len() - spec_ws_run_back(s, s.len() as int))
    }
}

/// Removes leading and trailing whitespace.
pub fn trim(s: &str) -> (r: String)
    ensures
        r@ == spec_trim(s@),
{
    let len = s.unicode_len();
    let mut a: usize = 0;
    while a < len && is_ws(s.get_char(a))
        invariant
            0 <= a <= len,
            len == s@.len(),
            spec_ws_run(s@, 0) == a + spec_ws_run(s@, a as int),
        decreases len - a,
    {
        a += 1;
    }
    if a == len {
        String::new()
    } else {
        let mut b: usize = len;
        while b > a && is_ws(s.get_char(b - 1))
            invariant
                a <= b <= len,
                a < len,
                len == s@.len(),
                spec_ws_run(s@, 0) == a,
                !spec_is_ws(s@[a as int]),
                spec_ws_run_back(s@, len as int) == (len - b) + spec_ws_run_back(s@, b as int),
            decreases b,
        {
            b -= 1;
        }
        proof {
            lemma_ws_run_back_stops(s@, len as int, a as int);
            assert(spec_ws_run_back(s@, b as int) == 0);
        }
        s.substring_char(a, b).to_owned()
    }
}

/// A decimal digit.
pub open spec fn spec_is_digit(c: char) -> bool {
    '0' <= c && c <= '9'
}

/// The numeric value of a digit character.
pub open spec fn spec_digit_val(c: char) -> nat {
    (c as nat - '0' as nat) as nat
}

/// The value of a string of decimal digits.
pub open spec fn spec_digits_val(s: Seq<char>) -> nat
    decreases s.len(),
{
    if s.len() == 0 {
        0
    } else {
        spec_digits_val(s.drop_last()) * 10 + spec_digit_val(s.last())
    }
}

/// What parsing a decimal number accepts: one or more digits, nothing else,
/// with a value that fits.
pub open spec fn spec_parse_u16(s: Seq<char>) -> Option<u16> {
    if s.len() > 0 && (forall|i: int| 0 <= i < s.len() ==> spec_is_digit(#[trigger] s[i]))
        && spec_digits_val(s) <= 65535 {
        Some(spec_digits_val(s) as u16)
    } else {
        None
    }
}

/// A longer digit string never has a smaller value.
proof fn lemma_digits_val_prefix(s: Seq<char>, j: int)
    requires
        0 <= j <= s.len(),
    ensures
        spec_digits_val(s.take(j)) <= spec_digits_val(s),
    decreases s.len() - j,
{
    if j < s.len() {
        lemma_digits_val_prefix(s, j + 1);
        assert(s.take(j + 1).drop_last() =~= s.take(j));
        assert(s.take(j + 1).last() == s[j]);
        assert(spec_digits_val(s.take(j)) <= spec_digits_val(s.take(j + 1)));
    } else {
        assert(s.take(j) =~= s);
    }
}

/// Parses a decimal number: accepts exactly the non-empty all-digit strings
/// whose value fits in a `u16`.
pub fn parse_u16(s: &str) -> (r: Option<u16>)
    ensures
        r == spec_parse_u16(s@),
{
    let len = s.unicode_len();
    if len == 0 {
        return None;
    }
    let mut acc: u32 = 0;
    let mut i: usize = 0;
    while i < len
        invariant
            0 <= i <= len,
            len == s@.len(),
            len > 0,
            forall|j: int| 0 <= j < i ==> spec_is_digit(#[trigger] s@[j]),
            acc == spec_digits_val(s@.take(i as int)),
            acc <= 65535,
        decreases len - i,
    {
        let c = s.get_char(i);
        if c < '0' || c > '9' {
            return None;
        }
        let d: u32 = (c as u32) - ('0' as u32);
        proof {
            assert(s@.take(i + 1).drop_last() =~= s@.take(i as int));
            assert(s@.take(i + 1).last() == s@[i as int]);
        }
        acc = acc * 10 + d;
        if acc > 65535 {
            proof {
                lemma_digits_val_prefix(s@, i + 1);
            }
            return None;
        }
        i += 1;
    }
    proof {
        assert(s@.take(len as int) =~= s@);
    }
    Some(acc as u16)
}
/// Length of the digit run that starts at `i`.
pub open spec fn spec_digit_run(s: Seq<char>, i: int) -> nat
    decreases s.len() - i,
    when 0 <= i <= s.len()
{
    if i < s.len() && spec_is_digit(s[i]) {
        1 + spec_digit_run(s, i + 1)
    } else {
        0
    }
}

proof fn lemma_digit_run_le(s: Seq<char>, i: int)
    requires
        0 <= i <= s.len(),
    ensures
        i + spec_digit_run(s, i) <= s.len(),
    decreases s.len() - i,
{
    if i < s.len() && spec_is_digit(s[i]) {
        lemma_digit_run_le(s, i + 1);
    }
}

/// `pat` occurs in `s` at position `i`.
pub open spec fn spec_matches_at(s: Seq<char>, i: int, pat: Seq<char>) -> bool {
    0 <= i && i + pat.len() <= s.len() && s.subrange(i, i + pat.len() as int) == pat
}

fn is_digit(c: char) -> (r: bool)
    ensures
        r == spec_is_digit(c),
{
    c >= '0' && c <= '9'
}

/// Whether `pat` occurs in `s` at position `i`.
fn matches_at(s: &str, i: usize, pat: &str) -> (r: bool)
    requires
        i <= s@.len(),
    ensures
        r == spec_matches_at(s@, i as int, pat@),
{
    let slen = s.unicode_len();
    let plen = pat.unicode_len();
    if plen > slen - i {
        return false;
    }
    let mut k: usize = 0;
    while k < plen
        invariant
            0 <= k <= plen,
            i + plen <= slen,
            slen == s@.len(),
            plen == pat@.len(),
            forall|j: int| 0 <= j < k ==> s@[i + j] == pat@[j],
        decreases plen - k,
    {
        if s.get_char(i + k) != pat.get_char(k) {
            proof {
                assert(s@.subrange(i as int, i + pat@.len() as int)[k as int] != pat@[k as int]);
            }
            return false;
        }
        k += 1;
    }
    proof {
        assert(s@.subrange(i as int, i + pat@.len() as int) =~= pat@);
    }
    true
}

/// Advances over the digit run that starts at `i`.
fn skip_digits(s: &str, i: usize) -> (j: usize)
    requires
        i <= s@.len(),
    ensures
        j == i + spec_digit_run(s@, i as int),
        i <= j <= s@.len(),
{
    let len = s.unicode_len();
    let mut k: usize = i;
    while k < len && is_digit(s.get_char(k))
        invariant
            i <= k <= len,
            len == s@.len(),
            spec_digit_run(s@, i as int) == (k - i) + spec_digit_run(s@, k as int),
        decreases len - k,
    {
        k += 1;
    }
    k
}

/// Backslashes become slashes; everything else stays.
pub open spec fn spec_norm_char(c: char) -> char {
    if c == '\\' {
        '/'
    } else {
        c
    }
}

/// The normalized text from position `i` on. Every run of digits directly
/// after `.rs:` or `.rs::` is removed; each `.rs::` so laid bare (or already
/// present) becomes the fixed mock `.rs:1234:56`, while a `.rs:` whose digits
/// had no following column stays bare. Crate-qualified source paths lose
/// their prefix, and path separators become slashes.
pub open spec fn spec_normalize(s: Seq<char>, i: int) -> Seq<char>
    decreases s.len() - i,
    when 0 <= i
    via spec_normalize_decreases
{
    if i >= s.len() {
        Seq::empty()
    } else if spec_matches_at(s, i, "at lazy_errors/src/"@) {
        "at src/"@ + spec_normalize(s, i + "at lazy_errors/src/"@.len())
    } else if spec_matches_at(s, i, ".rs:"@) && i + ".rs:"@.len() < s.len() && s[i
        + ".rs:"@.len()] == ':' {
        ".rs:1234:56"@ + spec_normalize(
            s,
            i + ".rs:"@.len() + 1 + spec_digit_run(s, i + ".rs:"@.len() + 1),
        )
    } else if spec_matches_at(s, i, ".rs:"@) && i + ".rs:"@.len() < s.len() && spec_is_digit(
        s[i + ".rs:"@.len()],
    ) {
        let j = i + ".rs:"@.len() + spec_digit_run(s, i + ".rs:"@.len());
        if j < s.len() && s[j] == ':' {
            // removing the line digits lays an `.rs::` bare; its column
            // digits, if any, go with them, and the mock takes their place
            ".rs:1234:56"@ + spec_normalize(s, j + 1 + spec_digit_run(s, j + 1))
        } else {
            // digits with no following column are removed; `.rs:` stays bare
            ".rs:"@ + spec_normalize(s, j)
        }
    } else {
        seq![spec_norm_char(s[i])] + spec_normalize(s, i + 1)
    }
}

#[via_fn]
proof fn spec_normalize_decreases(s: Seq<char>, i: int) {
    reveal_strlit("at lazy_errors/src/");
    reveal_strlit(".rs:");
    if i < s.len() && !spec_matches_at(s, i, "at lazy_errors/src/"@) && spec_matches_at(
        s,
        i,
        ".rs:"@,
    ) && i + 4 < s.len() {
        if s[i + 4] == ':' {
            lemma_digit_run_le(s, i + 5);
        } else if spec_is_digit(s[i + 4]) {
            lemma_digit_run_le(s, i + 4);
            let j = i + 4 + spec_digit_run(s, i + 4);
            if j < s.len() && s[j] == ':' {
                lemma_digit_run_le(s, j + 1);
            }
        }
    }
}

/// Replaces the parts of `text` that vary from build to build — source
/// locations — with fixed mock values, so that rendered errors can be
/// compared against expected text. Every run of digits directly after `.rs:`
/// or `.rs::` is removed and each `.rs::` so laid bare (or already present)
/// becomes the mock `.rs:1234:56`; crate-qualified source paths lose their
/// prefix; path separators become slashes.
pub fn doctest_line_num_helper(text: &str) -> (r: String)
    ensures
        r@ == spec_normalize(text@, 0),
{
    let len = text.unicode_len();
    let mut out = String::new();
    let mut i: usize = 0;
    while i < len
        invariant
            0 <= i <= len,
            len == text@.len(),
            out@ + spec_normalize(text@, i as int) == spec_normalize(text@, 0),
        decreases len - i,
    {
        let ghost pre_out = out@;
        proof {
            reveal_strlit("at lazy_errors/src/");
            reveal_strlit(".rs:");
        }
        if matches_at(text, i, "at lazy_errors/src/") {
            out.append("at src/");
            let adv = "at lazy_errors/src/".unicode_len();
            proof {
                assert(spec_normalize(text@, i as int) == "at src/"@ + spec_normalize(
                    text@,
                    i + adv,
                ));
                assert(out@ + spec_normalize(text@, i + adv) =~= pre_out + spec_normalize(
                    text@,
                    i as int,
                ));
            }
            i += adv;
        } else if matches_at(text, i, ".rs:") && i + 4 < len && text.get_char(i + 4) == ':' {
            out.append(".rs:1234:56");
            let next = skip_digits(text, i + 5);
            proof {
                assert(spec_normalize(text@, i as int) == ".rs:1234:56"@ + spec_normalize(
                    text@,
                    next as int,
                ));
                assert(out@ + spec_normalize(text@, next as int) =~= pre_out + spec_normalize(
                    text@,
                    i as int,
                ));
            }
            i = next;
        } else if matches_at(text, i, ".rs:") && i + 4 < len && is_digit(text.get_char(i + 4)) {
            let j = skip_digits(text, i + 4);
            if j < len && text.get_char(j) == ':' {
                out.append(".rs:1234:56");
                let next = skip_digits(text, j + 1);
                proof {
                    assert(spec_normalize(text@, i as int) == ".rs:1234:56"@ + spec_normalize(
                        text@,
                        next as int,
                    ));
                    assert(out@ + spec_normalize(text@, next as int) =~= pre_out + spec_normalize(
                        text@,
                        i as int,
                    ));
                }
                i = next;
            } else {
                out.append(".rs:");
                proof {
                    assert(spec_normalize(text@, i as int) == ".rs:"@ + spec_normalize(
                        text@,
                        j as int,
                    ));
                    assert(out@ + spec_normalize(text@, j as int) =~= pre_out + spec_normalize(
                        text@,
                        i as int,
                    ));
                }
                i = j;
            }
        } else {
            let c = text.get_char(i);
            let mapped = if c == '\\' {
                '/'
            } else {
                c
            };
            push_char(&mut out, mapped);
            proof {
                assert(out@ + spec_normalize(text@, i + 1) =~= pre_out + spec_normalize(
                    text@,
                    i as int,
                ));
            }
            i += 1;
        }
    }
    proof {
        assert(spec_normalize(text@, len as int) =~= Seq::empty());
        assert(out@ =~= spec_normalize(text@, 0));
    }
    out
}

/// Relies on `String::push`: appends exactly one character.
#[verifier::external_body]
pub(crate) fn push_char(s: &mut String, c: char)
    ensures
        final(s)@ == old(s)@.push(c),
{
    s.push(c);
}

/// Renders `n` in decimal.
pub fn usize_to_string(n: usize) -> (s: String)
    ensures
        s@ == crate::spec_decimal(n as nat),
    decreases n,
{
    if n < 10 {
        let mut s = String::new();
        push_char(&mut s, digit_char(n));
        proof {
            assert(s@ =~= crate::spec_decimal(n as nat));
        }
        s
    } else {
        let mut s = usize_to_string(n / 10);
        push_char(&mut s, digit_char(n % 10));
        proof {
            assert(s@ =~= crate::spec_decimal(n as nat));
        }
        s
    }
}

} // verus!
