use chrono::{FixedOffset, NaiveDate, NaiveDateTime};
use sea_query_driver::capability::{Capability, CapabilitySet};
use sea_query_driver::civil::Civil;
use sea_query_driver::dispatch::{DispatchTable, Entry};
use sea_query_driver::sqlx_sqlite::{bind_value, check_renders};
use sea_query_driver::value::{Tag, Value, ZonedDateTime};
use sqlx::sqlite::SqliteArguments;
use sqlx::Arguments;

fn rendered(args: &SqliteArguments) -> String {
    let text = format!("{:?}", args);
    let open = text.find('[').unwrap();
    let close = text.rfind(']').unwrap();
    text[open..=close].to_string()
}

fn bound_with_all(value: Value) -> String {
    let table = DispatchTable::compose(CapabilitySet::all());
    let mut args = SqliteArguments::default();
    assert!(check_renders(&value));
    assert!(bind_value(&table, &mut args, &value));
    assert_eq!(args.len(), 1);
    rendered(&args)
}

fn sample_date() -> NaiveDate {
    NaiveDate::from_ymd_opt(2020, 1, 2).unwrap()
}

fn sample_datetime() -> NaiveDateTime {
    sample_date().and_hms_opt(3, 4, 5).unwrap()
}

fn civil_date() -> time::Date {
    time::Date::from_calendar_date(2020, time::Month::January, 2).unwrap()
}

fn civil_time() -> time::Time {
    time::Time::from_hms_micro(3, 4, 5, 7).unwrap()
}

#[test]
fn json_is_bound_as_its_serialised_text() {
    let document = serde_json::Value::Bool(true).to_string();
    assert_eq!(bound_with_all(Value::Json(Some(document))), "[Text(\"true\")]");
    assert_eq!(
        bound_with_all(Value::Json(Some("{\"a\":1}".to_string()))),
        "[Text(\"{\\\"a\\\":1}\")]"
    );
    assert_eq!(bound_with_all(Value::Json(None)), "[Null]");
}

#[test]
fn chrono_date_present_and_absent() {
    assert_eq!(
        bound_with_all(Value::ChronoDate(Some(sample_date()))),
        "[Text(\"2020-01-02\")]"
    );
    assert_eq!(bound_with_all(Value::ChronoDate(None)), "[Null]");
}

#[test]
fn chrono_time_present_and_absent() {
    let time = chrono::NaiveTime::from_hms_milli_opt(3, 4, 5, 500).unwrap();
    assert_eq!(
        bound_with_all(Value::ChronoTime(Some(time))),
        "[Text(\"03:04:05.500\")]"
    );
    assert_eq!(bound_with_all(Value::ChronoTime(None)), "[Null]");
}

#[test]
fn chrono_datetime_present_and_absent() {
    assert_eq!(
        bound_with_all(Value::ChronoDateTime(Some(sample_datetime()))),
        "[Text(\"2020-01-02 03:04:05\")]"
    );
    assert_eq!(bound_with_all(Value::ChronoDateTime(None)), "[Null]");
}

#[test]
fn chrono_datetime_utc_present_and_absent() {
    assert_eq!(
        bound_with_all(Value::ChronoDateTimeUtc(Some(sample_datetime()))),
        "[Text(\"2020-01-02T03:04:05+00:00\")]"
    );
    assert_eq!(bound_with_all(Value::ChronoDateTimeUtc(None)), "[Null]");
}

#[test]
fn chrono_datetime_local_present_and_absent() {
    let zoned = ZonedDateTime {
        utc: sample_datetime(),
        offset: FixedOffset::west_opt(5 * 3600).unwrap(),
    };
    assert_eq!(
        bound_with_all(Value::ChronoDateTimeLocal(Some(zoned))),
        "[Text(\"2020-01-01T22:04:05-05:00\")]"
    );
    assert_eq!(bound_with_all(Value::ChronoDateTimeLocal(None)), "[Null]");
}

#[test]
fn chrono_datetime_with_time_zone_present_and_absent() {
    let zoned = ZonedDateTime {
        utc: sample_datetime(),
        offset: FixedOffset::east_opt(2 * 3600).unwrap(),
    };
    assert_eq!(
        bound_with_all(Value::ChronoDateTimeWithTimeZone(Some(zoned))),
        "[Text(\"2020-01-02T05:04:05+02:00\")]"
    );
    assert_eq!(
        bound_with_all(Value::ChronoDateTimeWithTimeZone(None)),
        "[Null]"
    );
}

#[test]
fn chrono_zoned_datetime_matches_the_datetime_it_stands_for() {
    let offset = FixedOffset::east_opt(2 * 3600).unwrap();
    let native = chrono::DateTime::<FixedOffset>::from_naive_utc_and_offset(sample_datetime(), offset);
    let mut direct = SqliteArguments::default();
    direct.add(Some(native)).unwrap();
    let zoned = ZonedDateTime { utc: native.naive_utc(), offset: *native.offset() };
    assert_eq!(
        bound_with_all(Value::ChronoDateTimeWithTimeZone(Some(zoned))),
        rendered(&direct)
    );
}

#[test]
fn chrono_zoned_datetime_out_of_range_does_not_render() {
    let late = ZonedDateTime {
        utc: NaiveDateTime::MAX,
        offset: FixedOffset::east_opt(3600).unwrap(),
    };
    assert!(!check_renders(&Value::ChronoDateTimeLocal(Some(late))));
    assert!(!check_renders(&Value::ChronoDateTimeWithTimeZone(Some(late))));
    let fine = ZonedDateTime {
        utc: NaiveDateTime::MAX,
        offset: FixedOffset::west_opt(3600).unwrap(),
    };
    assert!(check_renders(&Value::ChronoDateTimeWithTimeZone(Some(fine))));
    assert!(check_renders(&Value::ChronoDateTimeLocal(None)));
}

#[test]
fn time_of_day_is_bound_as_text_in_a_fixed_format() {
    assert_eq!(
        bound_with_all(Value::TimeTime(Some(civil_time()))),
        "[Text(\"03:04:05.000007\")]"
    );
    assert_eq!(bound_with_all(Value::TimeTime(None)), "[Null]");
    assert_eq!(
        DispatchTable::compose(CapabilitySet::all()).lookup(Tag::TimeTime),
        Some(Entry::Text)
    );
}

#[test]
fn time_date_present_and_absent() {
    assert_eq!(
        bound_with_all(Value::TimeDate(Some(civil_date()))),
        "[Text(\"2020-01-02\")]"
    );
    assert_eq!(bound_with_all(Value::TimeDate(None)), "[Null]");
}

#[test]
fn time_datetime_present_and_absent() {
    let datetime = time::PrimitiveDateTime::new(civil_date(), civil_time());
    assert_eq!(
        bound_with_all(Value::TimeDateTime(Some(datetime))),
        "[Text(\"2020-01-02 03:04:05.000007\")]"
    );
    assert_eq!(bound_with_all(Value::TimeDateTime(None)), "[Null]");
}

#[test]
fn time_datetime_with_time_zone_is_normalised_to_utc() {
    let offset = time::UtcOffset::from_hms(2, 0, 0).unwrap();
    let datetime = time::PrimitiveDateTime::new(civil_date(), civil_time()).assume_offset(offset);
    assert_eq!(
        bound_with_all(Value::TimeDateTimeWithTimeZone(Some(datetime))),
        "[Text(\"2020-01-02 01:04:05.000007 +00:00\")]"
    );
    assert_eq!(
        bound_with_all(Value::TimeDateTimeWithTimeZone(None)),
        "[Null]"
    );
}

#[test]
fn time_datetime_out_of_range_does_not_normalise() {
    let behind = time::UtcOffset::from_hms(-1, 0, 0).unwrap();
    let late = time::PrimitiveDateTime::MAX.assume_offset(behind);
    assert!(!check_renders(&Value::TimeDateTimeWithTimeZone(Some(late))));
    assert!(!Civil::DateTimeWithTimeZone(late).can_normalize());
    let ahead = time::UtcOffset::from_hms(1, 0, 0).unwrap();
    let fine = time::PrimitiveDateTime::MAX.assume_offset(ahead);
    assert!(check_renders(&Value::TimeDateTimeWithTimeZone(Some(fine))));
    assert!(Civil::Date(civil_date()).can_normalize());
    assert!(Civil::Time(civil_time()).can_normalize());
}

#[test]
fn uuid_is_bound_as_its_sixteen_bytes() {
    let id = uuid::Uuid::from_u128(0x0102030405060708090a0b0c0d0e0f10);
    assert_eq!(
        bound_with_all(Value::Uuid(Some(*id.as_bytes()))),
        "[Blob([1, 2, 3, 4, 5, 6, 7, 8, 9, 10, 11, 12, 13, 14, 15, 16])]"
    );
    assert_eq!(bound_with_all(Value::Uuid(None)), "[Null]");
    let mut direct = SqliteArguments::default();
    direct.add(Some(id)).unwrap();
    assert_eq!(bound_with_all(Value::Uuid(Some(*id.as_bytes()))), rendered(&direct));
}

#[test]
fn decimals_are_left_to_the_caller_for_the_double_entry() {
    let table = DispatchTable::compose(CapabilitySet::all());
    let mut args = SqliteArguments::default();
    let decimal = "10.5".parse::<rust_decimal::Decimal>().unwrap();
    let big = "10.5".parse::<bigdecimal::BigDecimal>().unwrap();
    assert!(!bind_value(&table, &mut args, &Value::Decimal(Some(decimal))));
    assert!(!bind_value(&table, &mut args, &Value::Decimal(None)));
    assert!(!bind_value(&table, &mut args, &Value::BigDecimal(Some(big))));
    assert!(!bind_value(&table, &mut args, &Value::BigDecimal(None)));
    assert_eq!(args.len(), 0);
    assert_eq!(table.lookup(Tag::Decimal), Some(Entry::Double));
    assert_eq!(table.lookup(Tag::BigDecimal), Some(Entry::Double));
}

#[test]
fn a_decimal_bound_by_the_caller_is_its_nearest_double() {
    let decimal = "10.5".parse::<rust_decimal::Decimal>().unwrap();
    let big = "10.5".parse::<bigdecimal::BigDecimal>().unwrap();
    let first = sea_query::Value::Decimal(Some(decimal)).decimal_to_f64();
    let second = sea_query::Value::BigDecimal(Some(Box::new(big))).big_decimal_to_f64();
    assert!((first.unwrap() - 10.5f64).abs() < 1e-12);
    assert!((second.unwrap() - 10.5f64).abs() < 1e-12);
    let mut args = SqliteArguments::default();
    args.add(first).unwrap();
    args.add(second).unwrap();
    assert_eq!(rendered(&args), "[Double(10.5), Double(10.5)]");
}

#[test]
fn tag_and_capability_of_extension_values() {
    assert_eq!(Value::Json(None).tag(), Tag::Json);
    assert_eq!(Value::ChronoDateTimeLocal(None).tag(), Tag::ChronoDateTimeLocal);
    assert_eq!(Value::TimeDate(None).tag(), Tag::TimeDate);
    assert_eq!(Value::Uuid(None).tag(), Tag::Uuid);
    assert_eq!(Value::Decimal(None).tag(), Tag::Decimal);
    assert_eq!(Value::BigDecimal(None).tag(), Tag::BigDecimal);
    assert_eq!(Tag::Json.capability(), Some(Capability::Json));
    assert_eq!(Tag::ChronoDate.capability(), Some(Capability::Chrono));
    assert_eq!(Tag::ChronoDateTimeWithTimeZone.capability(), Some(Capability::Chrono));
    assert_eq!(Tag::TimeDateTimeWithTimeZone.capability(), Some(Capability::Time));
    assert_eq!(Tag::Uuid.capability(), Some(Capability::Uuid));
    assert_eq!(Tag::Decimal.capability(), Some(Capability::RustDecimal));
    assert_eq!(Tag::BigDecimal.capability(), Some(Capability::BigDecimal));
}
