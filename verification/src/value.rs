//! The tagged value union that the binder consumes.

use vstd::prelude::*;
use crate::capability::Capability;

verus! {

/// `chrono::NaiveDate`, carried through to the driver untouched.
#[verifier::external_type_specification]
#[verifier::external_body]
pub struct ExNaiveDate(chrono::NaiveDate);

/// `chrono::NaiveTime`, carried through to the driver untouched.
#[verifier::external_type_specification]
#[verifier::external_body]
pub struct ExNaiveTime(chrono::NaiveTime);

/// `chrono::NaiveDateTime`, carried through to the driver untouched.
#[verifier::external_type_specification]
#[verifier::external_body]
pub struct ExNaiveDateTime(chrono::NaiveDateTime);

/// `chrono::FixedOffset`, the offset half of a zoned calendar datetime.
#[verifier::external_type_specification]
#[verifier::external_body]
pub struct ExFixedOffset(chrono::FixedOffset);

/// `time::Date`, read only by the civil-time normalisation.
#[verifier::external_type_specification]
#[verifier::external_body]
pub struct ExCivilDate(time::Date);

/// `time::Time`, read only by the civil-time normalisation.
#[verifier::external_type_specification]
#[verifier::external_body]
pub struct ExCivilTime(time::Time);

/// `time::PrimitiveDateTime`, read only by the civil-time normalisation.
#[verifier::external_type_specification]
#[verifier::external_body]
pub struct ExPrimitiveDateTime(time::PrimitiveDateTime);

/// `time::OffsetDateTime`, read only by the civil-time normalisation.
#[verifier::external_type_specification]
#[verifier::external_body]
pub struct ExOffsetDateTime(time::OffsetDateTime);

/// `rust_decimal::Decimal`, handed back to the caller for its approximation.
#[verifier::external_type_specification]
#[verifier::external_body]
pub struct ExDecimal(rust_decimal::Decimal);

/// `bigdecimal::BigDecimal`, handed back to the caller for its approximation.
#[verifier::external_type_specification]
#[verifier::external_body]
pub struct ExBigDecimal(bigdecimal::BigDecimal);

/// A calendar datetime with its offset from UTC: the instant as a naive UTC
/// datetime, and the offset it is shown in.
#[derive(Clone, Copy, Debug, PartialEq)]
pub struct ZonedDateTime {
    pub utc: chrono::NaiveDateTime,
    pub offset: chrono::FixedOffset,
}

/// The variant of a value, without its payload.
#[derive(Clone, Copy, Debug, PartialEq, Eq, Structural)]
pub enum Tag {
    Bool,
    TinyInt,
    SmallInt,
    Int,
    BigInt,
    TinyUnsigned,
    SmallUnsigned,
    Unsigned,
    BigUnsigned,
    Float,
    Double,
    String,
    Char,
    Bytes,
    Json,
    ChronoDate,
    ChronoTime,
    ChronoDateTime,
    ChronoDateTimeUtc,
    ChronoDateTimeLocal,
    ChronoDateTimeWithTimeZone,
    TimeDate,
    TimeTime,
    TimeDateTime,
    TimeDateTimeWithTimeZone,
    Uuid,
    Decimal,
    BigDecimal,
}

/// One column value of a kind that is only known at run time. Every payload is
/// optional: an absent one stands for SQL NULL.
///
/// `Float` and `Double` hold the IEEE 754 bit pattern of the number, `Json` the
/// serialised text of the document, `Uuid` the sixteen bytes of the identifier,
/// and `ChronoDateTimeUtc` the instant as a naive UTC datetime.
#[derive(Clone, Debug, PartialEq)]
pub enum Value {
    Bool(Option<bool>),
    TinyInt(Option<i8>),
    SmallInt(Option<i16>),
    Int(Option<i32>),
    BigInt(Option<i64>),
    TinyUnsigned(Option<u8>),
    SmallUnsigned(Option<u16>),
    Unsigned(Option<u32>),
    BigUnsigned(Option<u64>),
    Float(Option<u32>),
    Double(Option<u64>),
    String(Option<String>),
    Char(Option<char>),
    Bytes(Option<Vec<u8>>),
    Json(Option<String>),
    ChronoDate(Option<chrono::NaiveDate>),
    ChronoTime(Option<chrono::NaiveTime>),
    ChronoDateTime(Option<chrono::NaiveDateTime>),
    ChronoDateTimeUtc(Option<chrono::NaiveDateTime>),
    ChronoDateTimeLocal(Option<ZonedDateTime>),
    ChronoDateTimeWithTimeZone(Option<ZonedDateTime>),
    TimeDate(Option<time::Date>),
    TimeTime(Option<time::Time>),
    TimeDateTime(Option<time::PrimitiveDateTime>),
    TimeDateTimeWithTimeZone(Option<time::OffsetDateTime>),
    Uuid(Option<[u8; 16]>),
    Decimal(Option<rust_decimal::Decimal>),
    BigDecimal(Option<bigdecimal::BigDecimal>),
}

impl Tag {
    /// The capability that brings this variant into the union; `None` for the
    /// core variants, which every build has.
    pub open spec fn needs(self) -> Option<Capability> {
        match self {
            Tag::Json => Some(Capability::Json),
            Tag::ChronoDate
            | Tag::ChronoTime
            | Tag::ChronoDateTime
            | Tag::ChronoDateTimeUtc
            | Tag::ChronoDateTimeLocal
            | Tag::ChronoDateTimeWithTimeZone => Some(Capability::Chrono),
            Tag::TimeDate
            | Tag::TimeTime
            | Tag::TimeDateTime
            | Tag::TimeDateTimeWithTimeZone => Some(Capability::Time),
            Tag::Uuid => Some(Capability::Uuid),
            Tag::Decimal => Some(Capability::RustDecimal),
            Tag::BigDecimal => Some(Capability::BigDecimal),
            _ => None,
        }
    }

    /// The capability that brings this variant into the union, if it is not a
    /// core variant.
    pub fn capability(&self) -> (need: Option<Capability>)
        ensures
            need == self.needs(),
    {
        match self {
            Tag::Json => Some(Capability::Json),
            Tag::ChronoDate
            | Tag::ChronoTime
            | Tag::ChronoDateTime
            | Tag::ChronoDateTimeUtc
            | Tag::ChronoDateTimeLocal
            | Tag::ChronoDateTimeWithTimeZone => Some(Capability::Chrono),
            Tag::TimeDate
            | Tag::TimeTime
            | Tag::TimeDateTime
            | Tag::TimeDateTimeWithTimeZone => Some(Capability::Time),
            Tag::Uuid => Some(Capability::Uuid),
            Tag::Decimal => Some(Capability::RustDecimal),
            Tag::BigDecimal => Some(Capability::BigDecimal),
            _ => None,
        }
    }
}

impl Value {
    /// The variant of this value.
    pub open spec fn kind(self) -> Tag {
        match self {
            Value::Bool(_) => Tag::Bool,
            Value::TinyInt(_) => Tag::TinyInt,
            Value::SmallInt(_) => Tag::SmallInt,
            Value::Int(_) => Tag::Int,
            Value::BigInt(_) => Tag::BigInt,
            Value::TinyUnsigned(_) => Tag::TinyUnsigned,
            Value::SmallUnsigned(_) => Tag::SmallUnsigned,
            Value::Unsigned(_) => Tag::Unsigned,
            Value::BigUnsigned(_) => Tag::BigUnsigned,
            Value::Float(_) => Tag::Float,
            Value::Double(_) => Tag::Double,
            Value::String(_) => Tag::String,
            Value::Char(_) => Tag::Char,
            Value::Bytes(_) => Tag::Bytes,
            Value::Json(_) => Tag::Json,
            Value::ChronoDate(_) => Tag::ChronoDate,
            Value::ChronoTime(_) => Tag::ChronoTime,
            Value::ChronoDateTime(_) => Tag::ChronoDateTime,
            Value::ChronoDateTimeUtc(_) => Tag::ChronoDateTimeUtc,
            Value::ChronoDateTimeLocal(_) => Tag::ChronoDateTimeLocal,
            Value::ChronoDateTimeWithTimeZone(_) => Tag::ChronoDateTimeWithTimeZone,
            Value::TimeDate(_) => Tag::TimeDate,
            Value::TimeTime(_) => Tag::TimeTime,
            Value::TimeDateTime(_) => Tag::TimeDateTime,
            Value::TimeDateTimeWithTimeZone(_) => Tag::TimeDateTimeWithTimeZone,
            Value::Uuid(_) => Tag::Uuid,
            Value::Decimal(_) => Tag::Decimal,
            Value::BigDecimal(_) => Tag::BigDecimal,
        }
    }

    /// Whether the payload is absent, so that the value stands for SQL NULL.
    pub open spec fn absent(self) -> bool {
        match self {
            Value::Bool(v) => v is None,
            Value::TinyInt(v) => v is None,
            Value::SmallInt(v) => v is None,
            Value::Int(v) => v is None,
            Value::BigInt(v) => v is None,
            Value::TinyUnsigned(v) => v is None,
            Value::SmallUnsigned(v) => v is None,
            Value::Unsigned(v) => v is None,
            Value::BigUnsigned(v) => v is None,
            Value::Float(v) => v is None,
            Value::Double(v) => v is None,
            Value::String(v) => v is None,
            Value::Char(v) => v is None,
            Value::Bytes(v) => v is None,
            Value::Json(v) => v is None,
            Value::ChronoDate(v) => v is None,
            Value::ChronoTime(v) => v is None,
            Value::ChronoDateTime(v) => v is None,
            Value::ChronoDateTimeUtc(v) => v is None,
            Value::ChronoDateTimeLocal(v) => v is None,
            Value::ChronoDateTimeWithTimeZone(v) => v is None,
            Value::TimeDate(v) => v is None,
            Value::TimeTime(v) => v is None,
            Value::TimeDateTime(v) => v is None,
            Value::TimeDateTimeWithTimeZone(v) => v is None,
            Value::Uuid(v) => v is None,
            Value::Decimal(v) => v is None,
            Value::BigDecimal(v) => v is None,
        }
    }

    /// The variant of this value.
    pub fn tag(&self) -> (tag: Tag)
        ensures
            tag == self.kind(),
    {
        match self {
            Value::Bool(_) => Tag::Bool,
            Value::TinyInt(_) => Tag::TinyInt,
            Value::SmallInt(_) => Tag::SmallInt,
            Value::Int(_) => Tag::Int,
            Value::BigInt(_) => Tag::BigInt,
            Value::TinyUnsigned(_) => Tag::TinyUnsigned,
            Value::SmallUnsigned(_) => Tag::SmallUnsigned,
            Value::Unsigned(_) => Tag::Unsigned,
            Value::BigUnsigned(_) => Tag::BigUnsigned,
            Value::Float(_) => Tag::Float,
            Value::Double(_) => Tag::Double,
            Value::String(_) => Tag::String,
            Value::Char(_) => Tag::Char,
            Value::Bytes(_) => Tag::Bytes,
            Value::Json(_) => Tag::Json,
            Value::ChronoDate(_) => Tag::ChronoDate,
            Value::ChronoTime(_) => Tag::ChronoTime,
            Value::ChronoDateTime(_) => Tag::ChronoDateTime,
            Value::ChronoDateTimeUtc(_) => Tag::ChronoDateTimeUtc,
            Value::ChronoDateTimeLocal(_) => Tag::ChronoDateTimeLocal,
            Value::ChronoDateTimeWithTimeZone(_) => Tag::ChronoDateTimeWithTimeZone,
            Value::TimeDate(_) => Tag::TimeDate,
            Value::TimeTime(_) => Tag::TimeTime,
            Value::TimeDateTime(_) => Tag::TimeDateTime,
            Value::TimeDateTimeWithTimeZone(_) => Tag::TimeDateTimeWithTimeZone,
            Value::Uuid(_) => Tag::Uuid,
            Value::Decimal(_) => Tag::Decimal,
            Value::BigDecimal(_) => Tag::BigDecimal,
        }
    }
}

} // verus!
