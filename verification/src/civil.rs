//! Civil times, which are bound as normalised text and not through the
//! driver's own temporal types.

use vstd::prelude::*;

verus! {

/// A present civil-time payload of any of the four kinds.
#[derive(Clone, Copy, Debug, PartialEq)]
pub enum Civil {
    Date(time::Date),
    Time(time::Time),
    DateTime(time::PrimitiveDateTime),
    DateTimeWithTimeZone(time::OffsetDateTime),
}

/// The naive UTC text of a civil time as sea-query formats it, or `None` where
/// its formatter fails.
pub uninterp spec fn civil_text(civil: Civil) -> Option<Seq<char>>;

/// Whether an offset datetime, moved to UTC, is still a datetime that the time
/// crate can represent.
pub uninterp spec fn civil_utc_in_range(instant: time::OffsetDateTime) -> bool;

impl Civil {
    /// Whether the normalisation to UTC is defined for this payload: always,
    /// but for an offset datetime that UTC moves out of range.
    pub open spec fn normalizes(self) -> bool {
        match self {
            Civil::DateTimeWithTimeZone(t) => civil_utc_in_range(t),
            _ => true,
        }
    }

    /// Whether the normalisation to UTC is defined for this payload.
    pub fn can_normalize(&self) -> (yes: bool)
        ensures
            yes == self.normalizes(),
    {
        match self {
            Civil::DateTimeWithTimeZone(t) => utc_fits(t),
            _ => true,
        }
    }

}

/// `sea_query::Value::time_as_naive_utc_in_string` on the value that holds
/// this payload: the formatted text, or `None` where formatting fails. It
/// panics on an offset datetime that cannot be moved to UTC.
#[verifier::external_body]
pub(crate) fn naive_utc_string(civil: &Civil) -> (text: Option<String>)
    requires
        civil.normalizes(),
    ensures
        match text {
            Some(t) => civil_text(*civil) == Some(t@),
            None => civil_text(*civil) is None,
        },
{
    let value = match civil {
        Civil::Date(d) => sea_query::Value::TimeDate(Some(*d)),
        Civil::Time(t) => sea_query::Value::TimeTime(Some(*t)),
        Civil::DateTime(d) => sea_query::Value::TimeDateTime(Some(*d)),
        Civil::DateTimeWithTimeZone(d) => sea_query::Value::TimeDateTimeWithTimeZone(Some(*d)),
    };
    value.time_as_naive_utc_in_string()
}

/// `time::OffsetDateTime::checked_to_offset` with UTC: whether the move to UTC
/// stays in range.
#[verifier::external_body]
fn utc_fits(instant: &time::OffsetDateTime) -> (fits: bool)
    ensures
        fits == civil_utc_in_range(*instant),
{
    instant.checked_to_offset(time::UtcOffset::UTC).is_some()
}

} // verus!
