use vstd::prelude::*;

verus! {

/// The epoch seconds of an RFC 3339 date and time, or `None` where the text
/// is not one.
pub uninterp spec fn rfc3339_seconds(text: Seq<char>) -> Option<i64>;

/// Relies on chrono's `DateTime::parse_from_rfc3339`, followed by
/// `DateTime::timestamp`: the seconds since the epoch of a date and time in
/// RFC 3339 form, which depend on the text alone; empty text is no date.
#[verifier::external_body]
fn parse_rfc3339(text: &str) -> (r: Option<i64>)
    ensures
        r == rfc3339_seconds(text@),
        text@.len() == 0 ==> r is None,
{
    chrono::DateTime::parse_from_rfc3339(text).ok().map(|d| d.timestamp())
}

/// Epoch seconds of the RFC 3339 timestamp text, if the text parses.
pub fn epoch_seconds(text: &str) -> (r: Option<i64>)
    ensures
        r == rfc3339_seconds(text@),
{
    parse_rfc3339(text)
}

} // verus!
