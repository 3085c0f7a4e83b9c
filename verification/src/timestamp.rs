//! The current time.

use vstd::prelude::*;

verus! {

/// `chrono`'s date and time without time zone, held opaquely.
#[verifier::external_type_specification]
#[verifier::external_body]
pub struct ExNaiveDateTime(chrono::NaiveDateTime);

/// RFC 3339 text of a date and time.
pub trait NaiveDateTimeExt {
    /// The date and time, read as UTC, in RFC 3339 form.
    fn to_rfc3339(self) -> String;
}

/// Whether every character is an ASCII digit.
pub open spec fn all_digits(s: Seq<char>) -> bool {
    forall|i: int| 0 <= i < s.len() ==> '0' <= #[trigger] s[i] && s[i] <= '9'
}

/// The year of an RFC 3339 text: four digits, or a sign followed by at
/// least four digits for a year outside 0 to 9999.
pub open spec fn year_text(y: Seq<char>) -> bool {
    (y.len() == 4 && all_digits(y)) || (y.len() >= 5 && (y[0] == '+' || y[0] == '-') && all_digits(y.drop_first()))
}

/// The rest of the date and the time of day: `-MM-DDTHH:MM:SS`.
pub open spec fn date_time_text(t: Seq<char>) -> bool {
    &&& t.len() == 15
    &&& t[0] == '-' && t[3] == '-' && t[6] == 'T' && t[9] == ':' && t[12] == ':'
    &&& all_digits(t.subrange(1, 3)) && all_digits(t.subrange(4, 6)) && all_digits(t.subrange(7, 9))
    &&& all_digits(t.subrange(10, 12)) && all_digits(t.subrange(13, 15))
}

/// The fraction of a second: none, or a point and 3, 6 or 9 digits.
pub open spec fn fraction_text(f: Seq<char>) -> bool {
    f.len() == 0 || ((f.len() == 4 || f.len() == 7 || f.len() == 10) && f[0] == '.' && all_digits(f.drop_first()))
}

/// The UTC offset as RFC 3339 writes it: `+00:00`.
pub open spec fn utc_offset_text() -> Seq<char> {
    seq!['+', '0', '0', ':', '0', '0']
}

/// An RFC 3339 text of a UTC date and time:
/// `YYYY-MM-DDTHH:MM:SS[.fraction]+00:00`.
pub open spec fn rfc3339_utc_form(s: Seq<char>) -> bool {
    exists|year: Seq<char>, date_time: Seq<char>, fraction: Seq<char>|
        #[trigger] (year + date_time + fraction + utc_offset_text()) == s
        && year_text(year) && date_time_text(date_time) && fraction_text(fraction)
}

/// Reads a date and time as UTC (`and_local_timezone(Utc)`) and prints it
/// with chrono's `to_rfc3339`: the year (four digits, or signed outside 0
/// to 9999), month, day, hours, minutes and seconds in two digits each, the
/// fraction of a second when it is not zero (3, 6 or 9 digits), and the
/// offset `+00:00`. Which date and time the text gives is not stated, as the
/// value read is opaque here.
#[verifier::external_body]
fn rfc3339_utc(t: chrono::NaiveDateTime) -> (res: String)
    ensures
        rfc3339_utc_form(res@),
{
    t.and_local_timezone(chrono::Utc).unwrap().to_rfc3339()
}

impl NaiveDateTimeExt for chrono::NaiveDateTime {
    fn to_rfc3339(self) -> (res: String)
        ensures
            rfc3339_utc_form(res@),
    {
        rfc3339_utc(self)
    }
}

/// The current UTC date and time (`Utc::now().naive_utc()`). The value
/// depends on the clock; nothing is stated of it.
#[verifier::external_body]
pub fn now() -> chrono::NaiveDateTime {
    chrono::Utc::now().naive_utc()
}

/// The current UTC time in RFC 3339 form (see `rfc3339_utc_form`); which
/// time depends on the clock.
pub fn now_rfc3339() -> (res: String)
    ensures
        rfc3339_utc_form(res@),
{
    now().to_rfc3339()
}

} // verus!
