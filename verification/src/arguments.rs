//! The driver's argument list and the typed calls that append to it.
//!
//! Nothing in this module is proved: each item states what the driver, or the
//! crate that a payload comes from, does. Everything else in the library is
//! proved from these statements.

use vstd::prelude::*;
use sqlx::Arguments;
use sqlx::sqlite::SqliteArguments;
use chrono::{FixedOffset, NaiveDate, NaiveDateTime, NaiveTime};
use crate::value::ZonedDateTime;

verus! {

/// `sqlx::sqlite::SqliteArguments`: the parameters bound to a statement so
/// far, in positional order.
#[verifier::external_type_specification]
#[verifier::external_body]
pub struct ExSqliteArguments(sqlx::sqlite::SqliteArguments);

/// One bound parameter as the argument list stores it. `Double` holds the
/// IEEE 754 bit pattern of the number.
pub enum SqlArg {
    Null,
    Int(i32),
    Int64(i64),
    Double(u64),
    Text(Seq<char>),
    Blob(Seq<u8>),
}

/// The values that an argument list holds, first bound first.
pub uninterp spec fn contents(args: SqliteArguments) -> Seq<SqlArg>;

/// The text that the driver stores for a calendar date (`%F`).
pub uninterp spec fn chrono_date_text(date: NaiveDate) -> Seq<char>;

/// The text that the driver stores for a calendar time of day (`%T%.f`).
pub uninterp spec fn chrono_time_text(time: NaiveTime) -> Seq<char>;

/// The text that the driver stores for a naive calendar datetime
/// (`%F %T%.f`).
pub uninterp spec fn chrono_datetime_text(datetime: NaiveDateTime) -> Seq<char>;

/// The RFC 3339 text that the driver stores for a UTC datetime, given as its
/// naive UTC datetime.
pub uninterp spec fn chrono_utc_text(utc: NaiveDateTime) -> Seq<char>;

/// The RFC 3339 text that the driver stores for the instant `utc` shown at
/// `offset`.
pub uninterp spec fn chrono_zoned_text(utc: NaiveDateTime, offset: FixedOffset) -> Seq<char>;

/// Whether the instant `utc`, moved by `offset`, is still a datetime that
/// chrono can represent.
pub uninterp spec fn chrono_zoned_in_range(utc: NaiveDateTime, offset: FixedOffset) -> bool;

/// What is stored for an optional 32-bit integer.
pub open spec fn stored_int(v: Option<i32>) -> SqlArg {
    match v {
        Some(x) => SqlArg::Int(x),
        None => SqlArg::Null,
    }
}

/// What is stored for an optional 64-bit integer.
pub open spec fn stored_int64(v: Option<i64>) -> SqlArg {
    match v {
        Some(x) => SqlArg::Int64(x),
        None => SqlArg::Null,
    }
}

/// What is stored for an optional text.
pub open spec fn stored_text(v: Option<Seq<char>>) -> SqlArg {
    match v {
        Some(t) => SqlArg::Text(t),
        None => SqlArg::Null,
    }
}

/// `Arguments::add` of an `Option<bool>`: the driver appends the integer 1 for
/// true and 0 for false, or NULL.
#[verifier::external_body]
pub(crate) fn add_bool(args: &mut SqliteArguments, v: Option<bool>)
    ensures
        contents(*final(args)) == contents(*old(args)).push(
            match v {
                Some(b) => SqlArg::Int(if b { 1i32 } else { 0i32 }),
                None => SqlArg::Null,
            },
        ),
{
    let _ = args.add(v);
}

/// `Arguments::add` of an `Option<i8>`: appended as a 32-bit integer of the
/// same value, or NULL.
#[verifier::external_body]
pub(crate) fn add_i8(args: &mut SqliteArguments, v: Option<i8>)
    ensures
        contents(*final(args)) == contents(*old(args)).push(
            match v {
                Some(x) => SqlArg::Int(x as i32),
                None => SqlArg::Null,
            },
        ),
{
    let _ = args.add(v);
}

/// `Arguments::add` of an `Option<i16>`: appended as a 32-bit integer of the
/// same value, or NULL.
#[verifier::external_body]
pub(crate) fn add_i16(args: &mut SqliteArguments, v: Option<i16>)
    ensures
        contents(*final(args)) == contents(*old(args)).push(
            match v {
                Some(x) => SqlArg::Int(x as i32),
                None => SqlArg::Null,
            },
        ),
{
    let _ = args.add(v);
}

/// `Arguments::add` of an `Option<i32>`: appended as it is, or NULL.
#[verifier::external_body]
pub(crate) fn add_i32(args: &mut SqliteArguments, v: Option<i32>)
    ensures
        contents(*final(args)) == contents(*old(args)).push(stored_int(v)),
{
    let _ = args.add(v);
}

/// `Arguments::add` of an `Option<i64>`: appended as it is, or NULL.
#[verifier::external_body]
pub(crate) fn add_i64(args: &mut SqliteArguments, v: Option<i64>)
    ensures
        contents(*final(args)) == contents(*old(args)).push(stored_int64(v)),
{
    let _ = args.add(v);
}

/// `Arguments::add` of an `Option<u32>`: appended as a 64-bit integer of the
/// same value, or NULL.
#[verifier::external_body]
pub(crate) fn add_u32(args: &mut SqliteArguments, v: Option<u32>)
    ensures
        contents(*final(args)) == contents(*old(args)).push(
            match v {
                Some(x) => SqlArg::Int64(x as i64),
                None => SqlArg::Null,
            },
        ),
{
    let _ = args.add(v);
}

/// `Arguments::add` of an `Option<&str>`: a copy of the text is appended, or
/// NULL.
#[verifier::external_body]
pub(crate) fn add_text(args: &mut SqliteArguments, v: Option<&str>)
    ensures
        contents(*final(args)) == contents(*old(args)).push(
            match v {
                Some(t) => SqlArg::Text(t@),
                None => SqlArg::Null,
            },
        ),
{
    let _ = args.add(v);
}

/// `Arguments::add` of an `Option<&[u8]>`: a copy of the bytes is appended, or
/// NULL.
#[verifier::external_body]
pub(crate) fn add_bytes(args: &mut SqliteArguments, v: Option<&[u8]>)
    ensures
        contents(*final(args)) == contents(*old(args)).push(
            match v {
                Some(b) => SqlArg::Blob(b@),
                None => SqlArg::Null,
            },
        ),
{
    let _ = args.add(v);
}

/// `Arguments::add` of an `Option<uuid::Uuid>` made of the given bytes: the
/// sixteen bytes are appended as a byte string, or NULL.
#[verifier::external_body]
pub(crate) fn add_uuid(args: &mut SqliteArguments, v: Option<[u8; 16]>)
    ensures
        contents(*final(args)) == contents(*old(args)).push(
            match v {
                Some(b) => SqlArg::Blob(b@),
                None => SqlArg::Null,
            },
        ),
{
    let _ = args.add(v.map(uuid::Uuid::from_bytes));
}

/// `Arguments::add` of an `Option<chrono::NaiveDate>`: the driver's text for
/// the date is appended, or NULL.
#[verifier::external_body]
pub(crate) fn add_date(args: &mut SqliteArguments, v: Option<NaiveDate>)
    ensures
        contents(*final(args)) == contents(*old(args)).push(
            match v {
                Some(d) => SqlArg::Text(chrono_date_text(d)),
                None => SqlArg::Null,
            },
        ),
{
    let _ = args.add(v);
}

/// `Arguments::add` of an `Option<chrono::NaiveTime>`: the driver's text for
/// the time of day is appended, or NULL.
#[verifier::external_body]
pub(crate) fn add_time(args: &mut SqliteArguments, v: Option<NaiveTime>)
    ensures
        contents(*final(args)) == contents(*old(args)).push(
            match v {
                Some(t) => SqlArg::Text(chrono_time_text(t)),
                None => SqlArg::Null,
            },
        ),
{
    let _ = args.add(v);
}

/// `Arguments::add` of an `Option<chrono::NaiveDateTime>`: the driver's text
/// for the datetime is appended, or NULL.
#[verifier::external_body]
pub(crate) fn add_datetime(args: &mut SqliteArguments, v: Option<NaiveDateTime>)
    ensures
        contents(*final(args)) == contents(*old(args)).push(
            match v {
                Some(d) => SqlArg::Text(chrono_datetime_text(d)),
                None => SqlArg::Null,
            },
        ),
{
    let _ = args.add(v);
}

/// `Arguments::add` of an `Option<chrono::DateTime<Utc>>` at the given naive
/// UTC datetime: its RFC 3339 text is appended, or NULL.
#[verifier::external_body]
pub(crate) fn add_datetime_utc(args: &mut SqliteArguments, v: Option<NaiveDateTime>)
    ensures
        contents(*final(args)) == contents(*old(args)).push(
            match v {
                Some(d) => SqlArg::Text(chrono_utc_text(d)),
                None => SqlArg::Null,
            },
        ),
{
    let _ = args.add(v.map(|d| d.and_utc()));
}

/// `Arguments::add` of an `Option<chrono::DateTime<Local>>` with the given
/// instant and offset: its RFC 3339 text is appended, or NULL. The driver
/// panics on a datetime that the offset moves out of chrono's range.
#[verifier::external_body]
pub(crate) fn add_datetime_local(args: &mut SqliteArguments, v: Option<ZonedDateTime>)
    requires
        v matches Some(z) ==> chrono_zoned_in_range(z.utc, z.offset),
    ensures
        contents(*final(args)) == contents(*old(args)).push(
            match v {
                Some(z) => SqlArg::Text(chrono_zoned_text(z.utc, z.offset)),
                None => SqlArg::Null,
            },
        ),
{
    let _ = args.add(
        v.map(|z| chrono::DateTime::<chrono::Local>::from_naive_utc_and_offset(z.utc, z.offset)),
    );
}

/// `Arguments::add` of an `Option<chrono::DateTime<FixedOffset>>` with the
/// given instant and offset: its RFC 3339 text is appended, or NULL. The
/// driver panics on a datetime that the offset moves out of chrono's range.
#[verifier::external_body]
pub(crate) fn add_datetime_fixed(args: &mut SqliteArguments, v: Option<ZonedDateTime>)
    requires
        v matches Some(z) ==> chrono_zoned_in_range(z.utc, z.offset),
    ensures
        contents(*final(args)) == contents(*old(args)).push(
            match v {
                Some(z) => SqlArg::Text(chrono_zoned_text(z.utc, z.offset)),
                None => SqlArg::Null,
            },
        ),
{
    let _ = args.add(
        v.map(|z| chrono::DateTime::<FixedOffset>::from_naive_utc_and_offset(z.utc, z.offset)),
    );
}

/// `NaiveDateTime::checked_add_offset`: whether the instant, moved by the
/// offset, is still in chrono's range.
#[verifier::external_body]
pub(crate) fn zoned_fits(utc: &NaiveDateTime, offset: &FixedOffset) -> (fits: bool)
    ensures
        fits == chrono_zoned_in_range(*utc, *offset),
{
    utc.checked_add_offset(*offset).is_some()
}

/// `char::to_string`: the text made of that one character.
#[verifier::external_body]
pub(crate) fn char_text(c: char) -> (text: String)
    ensures
        text@ == seq![c],
{
    c.to_string()
}

} // verus!
