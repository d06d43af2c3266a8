//! Canonical JSON text of the values that the encoder binds as strings.
//!
//! The text itself comes from serde_json; this module names and states it.
use vstd::prelude::*;

use crate::timestamp::Timestamp;

verus! {

/// serde_json's error, carried through opaquely.
#[verifier::external_type_specification]
#[verifier::external_body]
pub struct ExJsonError(serde_json::Error);

/// The decimal digits of a natural number, most significant first.
pub open spec fn digits(n: nat) -> Seq<char>
    decreases n,
{
    let d = (('0' as u32) + (n % 10) as u32) as char;
    if n < 10 {
        seq![d]
    } else {
        digits(n / 10).push(d)
    }
}

/// The JSON text of an integer: its decimal digits, with a leading minus sign
/// when it is negative.
pub open spec fn decimal(n: int) -> Seq<char> {
    if n < 0 {
        seq!['-'] + digits((-n) as nat)
    } else {
        digits(n as nat)
    }
}

/// A string that JSON writes without any escape sequence.
pub open spec fn needs_no_escape(s: Seq<char>) -> bool {
    forall|i: int| 0 <= i < s.len() ==> {
        let c = #[trigger] s[i];
        c >= ' ' && c != '"' && c != '\\'
    }
}

/// `s` between double quotes.
pub open spec fn quoted(s: Seq<char>) -> Seq<char> {
    seq!['"'] + s + seq!['"']
}

/// The JSON string literal that serde_json writes for `s`.
pub uninterp spec fn json_string_of(s: Seq<char>) -> Seq<char>;

/// The canonical (compact) JSON text of the document `s`, as serde_json
/// reprints it after parsing.
pub uninterp spec fn canonical_json_of(s: Seq<char>) -> Seq<char>;

/// Relies on serde_json::to_string for a `str`: serialising a string into a
/// `Vec` cannot fail, and only control characters, `"` and `\` are escaped.
#[verifier::external_body]
pub(crate) fn json_str(s: &str) -> (r: Result<String, serde_json::Error>)
    ensures
        r is Ok,
        r matches Ok(t) ==> t@ == json_string_of(s@),
        r matches Ok(t) ==> (needs_no_escape(s@) ==> t@ == quoted(s@)),
{
    serde_json::to_string(s)
}

/// Relies on serde_json::to_string for an `i64`: the decimal text, which cannot
/// fail to be written into a `Vec`.
#[verifier::external_body]
pub(crate) fn json_i64(n: i64) -> (r: Result<String, serde_json::Error>)
    ensures
        r is Ok,
        r matches Ok(t) ==> t@ == decimal(n as int),
{
    serde_json::to_string(&n)
}

/// Relies on serde_json::from_str into a `serde_json::Value` followed by
/// serde_json::to_string: parses `s` and reprints it compactly.
#[verifier::external_body]
pub(crate) fn json_canonical(s: &str) -> (r: Result<String, serde_json::Error>)
    ensures
        r matches Ok(t) ==> t@ == canonical_json_of(s@),
{
    match serde_json::from_str::<serde_json::Value>(s) {
        Ok(v) => serde_json::to_string(&v),
        Err(e) => Err(e),
    }
}

/// The JSON text of a timestamp: `time` serialises a `PrimitiveDateTime` as
/// the array `[year, ordinal, hour, minute, second, nanosecond]`.
pub open spec fn datetime_text(t: Timestamp) -> Seq<char> {
    seq!['['] + decimal(t.spec_year() as int) + seq![','] + decimal(t.spec_ordinal() as int)
        + seq![','] + decimal(t.spec_hour() as int) + seq![','] + decimal(t.spec_minute() as int)
        + seq![','] + decimal(t.spec_second() as int) + seq![','] + decimal(
        t.spec_nanosecond() as int,
    ) + seq![']']
}

/// Relies on time::Date::from_ordinal_date, time::Time::from_hms_nano and
/// time::PrimitiveDateTime::new, which accept every `Timestamp` (its invariant
/// is their range), and on serde_json::to_string of the result, which writes
/// the six parts as a compact array and cannot fail into a `Vec`.
#[verifier::external_body]
pub(crate) fn json_datetime(t: &Timestamp) -> (r: Result<String, serde_json::Error>)
    ensures
        r is Ok,
        r matches Ok(s) ==> s@ == datetime_text(*t),
{
    let date = time::Date::from_ordinal_date(t.year(), t.ordinal()).unwrap();
    let clock = time::Time::from_hms_nano(t.hour(), t.minute(), t.second(), t.nanosecond()).unwrap();
    serde_json::to_string(&time::PrimitiveDateTime::new(date, clock))
}

/// A value bound as its canonical JSON text, which serde_json always writes.
pub trait Canonical {
    spec fn canonical(&self) -> Seq<char>;

    fn json_text(&self) -> (r: Result<String, serde_json::Error>)
        ensures
            r is Ok,
            r matches Ok(t) ==> t@ == self.canonical(),
    ;
}

impl Canonical for Timestamp {
    open spec fn canonical(&self) -> Seq<char> {
        datetime_text(*self)
    }

    fn json_text(&self) -> (r: Result<String, serde_json::Error>) {
        json_datetime(self)
    }
}

} // verus!
