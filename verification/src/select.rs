//! Scan selector: picks, from a list of scan identifiers, the one whose
//! embedded capture time lies nearest a requested time of day.
//!
//! An identifier encodes its capture time as `<date>_<HHMMSS>_…`: the text
//! between the first two underscores must be exactly six digits naming a
//! valid time of day. "Nearest" is the signed-duration policy of the source
//! data path: the candidate minimizing `target − candidate` algebraically —
//! not the smallest absolute distance — with the earliest such candidate
//! winning ties. A malformed identifier anywhere in the list is a fatal
//! parse error; an empty list fails explicitly.

use crate::error::Error;
use vstd::prelude::*;
use vstd::string::StrSliceExecFns;

verus! {

/// Seconds in a day; every embedded capture time is below this.
pub const SECONDS_PER_DAY: u32 = 86_400;

/// Index of the first underscore at or after `from`, or the length if none.
pub open spec fn spec_find_underscore(s: Seq<char>, from: int) -> int
    decreases s.len() - from,
{
    if from < 0 || from >= s.len() {
        s.len() as int
    } else if s[from] == '_' {
        from
    } else {
        spec_find_underscore(s, from + 1)
    }
}

/// The identifier's time token: the text between the first underscore and
/// the next (or the end). An identifier without an underscore has none.
pub open spec fn spec_time_token(s: Seq<char>) -> Seq<char> {
    let a = spec_find_underscore(s, 0);
    if a >= s.len() {
        Seq::empty()
    } else {
        s.subrange(a + 1, spec_find_underscore(s, a + 1))
    }
}

/// Whether a character is a decimal digit.
pub open spec fn spec_is_digit(c: char) -> bool {
    '0' <= c && c <= '9'
}

/// The numeric value of a decimal digit character.
pub open spec fn spec_digit(c: char) -> int {
    c as int - '0' as int
}

/// Whether a token is a valid `HHMMSS` time of day: exactly six digits,
/// hours below 24, minutes and seconds below 60.
pub open spec fn spec_valid_hhmmss(t: Seq<char>) -> bool {
    &&& t.len() == 6
    &&& forall|i: int| 0 <= i < 6 ==> spec_is_digit(#[trigger] t[i])
    &&& spec_digit(t[0]) * 10 + spec_digit(t[1]) < 24
    &&& spec_digit(t[2]) * 10 + spec_digit(t[3]) < 60
    &&& spec_digit(t[4]) * 10 + spec_digit(t[5]) < 60
}

/// Seconds past midnight named by a valid `HHMMSS` token.
pub open spec fn spec_token_seconds(t: Seq<char>) -> int {
    (spec_digit(t[0]) * 10 + spec_digit(t[1])) * 3600 + (spec_digit(t[2]) * 10 + spec_digit(t[3]))
        * 60 + (spec_digit(t[4]) * 10 + spec_digit(t[5]))
}

/// Whether a whole identifier parses: it has a time token and the token is
/// a valid `HHMMSS` time of day.
pub open spec fn spec_id_valid(s: Seq<char>) -> bool {
    spec_find_underscore(s, 0) < s.len() && spec_valid_hhmmss(spec_time_token(s))
}

/// The capture time embedded in a valid identifier, seconds past midnight.
pub open spec fn spec_id_seconds(s: Seq<char>) -> int {
    spec_token_seconds(spec_time_token(s))
}

/// The signed duration from a candidate's embedded time to the target:
/// `target − candidate`. Selection minimizes this algebraically.
pub open spec fn spec_signed_diff(target: int, s: Seq<char>) -> int {
    target - spec_id_seconds(s)
}

/// The index the left-to-right scan selects among the first `n` candidates:
/// a later candidate replaces the best so far only on a strictly smaller
/// signed duration, so the earliest minimizer wins.
pub open spec fn spec_nearest_index(ids: Seq<String>, target: int, n: int) -> int
    decreases n,
{
    if n <= 1 {
        0
    } else {
        let prev = spec_nearest_index(ids, target, n - 1);
        if spec_signed_diff(target, ids[n - 1]@) < spec_signed_diff(target, ids[prev]@) {
            n - 1
        } else {
            prev
        }
    }
}

/// The scan's chosen index is in range, minimizes the signed duration, and
/// is the earliest index doing so.
pub proof fn lemma_nearest_index_minimal(ids: Seq<String>, target: int, n: int)
    requires
        1 <= n <= ids.len(),
    ensures
        0 <= spec_nearest_index(ids, target, n) < n,
        forall|j: int|
            0 <= j < n ==> spec_signed_diff(target, ids[spec_nearest_index(ids, target, n)]@)
                <= spec_signed_diff(target, #[trigger] ids[j]@),
        forall|j: int|
            0 <= j < spec_nearest_index(ids, target, n) ==> spec_signed_diff(target, #[trigger] ids[j]@)
                > spec_signed_diff(target, ids[spec_nearest_index(ids, target, n)]@),
    decreases n,
{
    if n > 1 {
        lemma_nearest_index_minimal(ids, target, n - 1);
    }
}

/// Finds the first underscore at or after `from`, or returns the length.
fn find_underscore(s: &str, from: usize) -> (r: usize)
    requires
        from <= s@.len(),
    ensures
        r == spec_find_underscore(s@, from as int),
        from <= r <= s@.len(),
        r < s@.len() ==> s@[r as int] == '_',
{
    let len = s.unicode_len();
    let mut i = from;
    while i < len
        invariant
            from <= i <= len,
            len == s@.len(),
            spec_find_underscore(s@, from as int) == spec_find_underscore(s@, i as int),
        decreases len - i,
    {
        if s.get_char(i) == '_' {
            return i;
        }
        i = i + 1;
    }
    len
}

/// The value of the decimal digit at one character position, if a digit
/// stands there.
fn digit_at(s: &str, idx: usize) -> (r: Option<u32>)
    requires
        idx < s@.len(),
    ensures
        r is Some <==> spec_is_digit(s@[idx as int]),
        r is Some ==> r->0 == spec_digit(s@[idx as int]) && r->0 <= 9,
{
    let c = s.get_char(idx);
    let cv = c as u32;
    if cv >= 48 && cv <= 57 {
        Some(cv - 48)
    } else {
        None
    }
}

/// Parses the capture time embedded in one identifier: seconds past
/// midnight if the identifier is well formed, nothing otherwise.
pub fn parse_identifier_seconds(id: &String) -> (r: Option<u32>)
    ensures
        r is Some <==> spec_id_valid(id@),
        r is Some ==> r->0 == spec_id_seconds(id@) && r->0 < SECONDS_PER_DAY,
{
    let s = id.as_str();
    let len = s.unicode_len();
    let a = find_underscore(s, 0);
    if a == len {
        return None;
    }
    let b = find_underscore(s, a + 1);
    let ghost token = spec_time_token(id@);
    proof {
        assert(token =~= id@.subrange(a + 1, b as int));
    }
    if b - (a + 1) != 6 {
        return None;
    }
    let d0 = match digit_at(s, a + 1) {
        Some(v) => v,
        None => {
            return None;
        },
    };
    let d1 = match digit_at(s, a + 2) {
        Some(v) => v,
        None => {
            return None;
        },
    };
    let d2 = match digit_at(s, a + 3) {
        Some(v) => v,
        None => {
            return None;
        },
    };
    let d3 = match digit_at(s, a + 4) {
        Some(v) => v,
        None => {
            return None;
        },
    };
    let d4 = match digit_at(s, a + 5) {
        Some(v) => v,
        None => {
            return None;
        },
    };
    let d5 = match digit_at(s, a + 6) {
        Some(v) => v,
        None => {
            return None;
        },
    };
    let hours = d0 * 10 + d1;
    let minutes = d2 * 10 + d3;
    let seconds = d4 * 10 + d5;
    if hours >= 24 || minutes >= 60 || seconds >= 60 {
        return None;
    }
    assert(spec_valid_hhmmss(token));
    Some(hours * 3600 + minutes * 60 + seconds)
}

/// Selects the scan identifier whose embedded capture time minimizes the
/// signed duration `target − candidate` — the source data path's "nearest"
/// policy, which preserves ties and negative offsets as-is. Fails with the
/// no-candidates error on an empty list and with the malformed-identifier
/// error if any identifier does not parse; it never fabricates a result.
pub fn select_nearest_scan<'a>(identifiers: &'a Vec<String>, target_seconds: u32) -> (r: Result<
    &'a String,
    Error,
>)
    requires
        target_seconds < SECONDS_PER_DAY,
    ensures
        identifiers@.len() == 0 ==> r == Result::<&'a String, Error>::Err(Error::NoCandidates),
        identifiers@.len() > 0 && !(forall|i: int|
            0 <= i < identifiers@.len() ==> spec_id_valid(#[trigger] identifiers@[i]@)) ==> r
            == Result::<&'a String, Error>::Err(Error::MalformedIdentifier),
        identifiers@.len() > 0 && (forall|i: int|
            0 <= i < identifiers@.len() ==> spec_id_valid(#[trigger] identifiers@[i]@)) ==> {
            &&& r is Ok
            &&& *r->Ok_0 == identifiers@[spec_nearest_index(
                identifiers@,
                target_seconds as int,
                identifiers@.len() as int,
            )]
            &&& exists|i: int| 0 <= i < identifiers@.len() && *r->Ok_0 == identifiers@[i]
        },
{
    if identifiers.len() == 0 {
        return Err(Error::NoCandidates);
    }
    let n = identifiers.len();
    let mut best: usize = 0;
    let first_seconds = match parse_identifier_seconds(&identifiers[0]) {
        Some(v) => v,
        None => {
            return Err(Error::MalformedIdentifier);
        },
    };
    let mut best_diff: i64 = target_seconds as i64 - first_seconds as i64;
    let mut j: usize = 1;
    while j < n
        invariant
            1 <= j <= n,
            n == identifiers@.len(),
            forall|i: int| 0 <= i < j ==> spec_id_valid(#[trigger] identifiers@[i]@),
            best == spec_nearest_index(identifiers@, target_seconds as int, j as int),
            0 <= best < j,
            best_diff == spec_signed_diff(target_seconds as int, identifiers@[best as int]@),
            -86_400 <= best_diff <= 86_400,
        decreases n - j,
    {
        let seconds = match parse_identifier_seconds(&identifiers[j]) {
            Some(v) => v,
            None => {
                return Err(Error::MalformedIdentifier);
            },
        };
        let diff: i64 = target_seconds as i64 - seconds as i64;
        if diff < best_diff {
            best = j;
            best_diff = diff;
        }
        j = j + 1;
    }
    Ok(&identifiers[best])
}

} // verus!
