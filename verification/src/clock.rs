//! Calendar timestamps as Unix seconds (UTC).

use vstd::prelude::*;

verus! {

/// The Unix time (seconds, UTC) that chrono reads from `s` under the
/// strftime-style format `fmt`, when it reads a complete date and time.
pub uninterp spec fn chrono_parse_utc(s: Seq<char>, fmt: Seq<char>) -> Option<i64>;

/// chrono's `NaiveDateTime::parse_from_str(s, fmt)`, taken as a UTC time
/// (`and_utc`) and given as Unix seconds (`timestamp`). Claimed: the result
/// is `chrono_parse_utc(s, fmt)`, a function of the two texts alone; what
/// chrono accepts is not restated here.
#[verifier::external_body]
pub(crate) fn parse_utc_timestamp(s: &str, fmt: &str) -> (r: Option<i64>)
    ensures
        r == chrono_parse_utc(s@, fmt@),
{
    chrono::NaiveDateTime::parse_from_str(s, fmt).ok().map(|t| t.and_utc().timestamp())
}

/// The instant that chrono reads from an RFC 3339 text, as Unix seconds
/// and the nanoseconds within that second, when it reads one.
pub uninterp spec fn chrono_parse_rfc3339(s: Seq<char>) -> Option<(i64, u32)>;

/// chrono's `DateTime::parse_from_rfc3339(s)`, given as the instant's Unix
/// seconds (`timestamp`) and the nanoseconds within that second
/// (`timestamp_subsec_nanos`). Claimed: the result is
/// `chrono_parse_rfc3339(s)`, a function of the text alone; which texts
/// chrono accepts is not restated here.
#[verifier::external_body]
pub(crate) fn parse_rfc3339_timestamp(s: &str) -> (r: Option<(i64, u32)>)
    ensures
        r == chrono_parse_rfc3339(s@),
{
    chrono::DateTime::parse_from_rfc3339(s).ok().map(|t| (t.timestamp(), t.timestamp_subsec_nanos()))
}

} // verus!
