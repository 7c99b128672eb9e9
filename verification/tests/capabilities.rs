use sea_query_driver::capability::{Capability, CapabilitySet};
use sea_query_driver::dispatch::{DispatchTable, Entry};
use sea_query_driver::sqlx_sqlite::{Rejected, Values};
use sea_query_driver::value::{Tag, Value};

const CAPABILITIES: [Capability; 6] = [
    Capability::Json,
    Capability::Chrono,
    Capability::Time,
    Capability::Uuid,
    Capability::RustDecimal,
    Capability::BigDecimal,
];

const CORE_TAGS: [Tag; 14] = [
    Tag::Bool,
    Tag::TinyInt,
    Tag::SmallInt,
    Tag::Int,
    Tag::BigInt,
    Tag::TinyUnsigned,
    Tag::SmallUnsigned,
    Tag::Unsigned,
    Tag::BigUnsigned,
    Tag::Float,
    Tag::Double,
    Tag::String,
    Tag::Char,
    Tag::Bytes,
];

const EXTENSION_TAGS: [Tag; 14] = [
    Tag::Json,
    Tag::ChronoDate,
    Tag::ChronoTime,
    Tag::ChronoDateTime,
    Tag::ChronoDateTimeUtc,
    Tag::ChronoDateTimeLocal,
    Tag::ChronoDateTimeWithTimeZone,
    Tag::TimeDate,
    Tag::TimeTime,
    Tag::TimeDateTime,
    Tag::TimeDateTimeWithTimeZone,
    Tag::Uuid,
    Tag::Decimal,
    Tag::BigDecimal,
];

fn absent_of_each_extension() -> Vec<Value> {
    vec![
        Value::Json(None),
        Value::ChronoDate(None),
        Value::ChronoTime(None),
        Value::ChronoDateTime(None),
        Value::ChronoDateTimeUtc(None),
        Value::ChronoDateTimeLocal(None),
        Value::ChronoDateTimeWithTimeZone(None),
        Value::TimeDate(None),
        Value::TimeTime(None),
        Value::TimeDateTime(None),
        Value::TimeDateTimeWithTimeZone(None),
        Value::Uuid(None),
        Value::Decimal(None),
        Value::BigDecimal(None),
    ]
}

#[test]
fn none_and_all() {
    for cap in CAPABILITIES {
        assert!(!CapabilitySet::none().has(cap));
        assert!(CapabilitySet::all().has(cap));
    }
    assert!(CapabilitySet::none().allows(None));
    assert!(!CapabilitySet::none().allows(Some(Capability::Json)));
    assert!(CapabilitySet::all().allows(Some(Capability::Json)));
}

#[test]
fn with_switches_on_one_capability_only() {
    for cap in CAPABILITIES {
        let set = CapabilitySet::none().with(cap);
        for other in CAPABILITIES {
            assert_eq!(set.has(other), other == cap);
        }
        assert_eq!(set.with(cap), set);
    }
}

#[test]
fn the_order_of_enabling_does_not_matter() {
    for first in CAPABILITIES {
        for second in CAPABILITIES {
            let one = CapabilitySet::none().with(first).with(second);
            let other = CapabilitySet::none().with(second).with(first);
            assert_eq!(one, other);
            let mut table = DispatchTable::core_rules();
            table.enable(first);
            table.enable(second);
            let mut swapped = DispatchTable::core_rules();
            swapped.enable(second);
            swapped.enable(first);
            for tag in CORE_TAGS.iter().chain(EXTENSION_TAGS.iter()) {
                assert_eq!(table.lookup(*tag), swapped.lookup(*tag));
                assert_eq!(table.lookup(*tag), DispatchTable::compose(one).lookup(*tag));
            }
        }
    }
}

#[test]
fn the_core_rules_are_in_every_table() {
    let expected = [
        Entry::Bool,
        Entry::TinyInt,
        Entry::SmallInt,
        Entry::Int,
        Entry::BigInt,
        Entry::Unsigned,
        Entry::Unsigned,
        Entry::Unsigned,
        Entry::BigInt,
        Entry::Single,
        Entry::Double,
        Entry::Text,
        Entry::Text,
        Entry::Bytes,
    ];
    for caps in [CapabilitySet::none(), CapabilitySet::all()] {
        let table = DispatchTable::compose(caps);
        assert_eq!(table.enabled(), caps);
        for (tag, entry) in CORE_TAGS.iter().zip(expected.iter()) {
            assert_eq!(table.lookup(*tag), Some(*entry));
        }
    }
}

#[test]
fn the_core_table_has_no_arm_for_an_extension_variant() {
    let table = DispatchTable::core_rules();
    for tag in EXTENSION_TAGS {
        assert_eq!(table.lookup(tag), None);
    }
}

#[test]
fn a_block_brings_the_arms_of_its_own_variants_only() {
    let expected = [
        Entry::Text,
        Entry::Date,
        Entry::Time,
        Entry::DateTime,
        Entry::DateTimeUtc,
        Entry::DateTimeLocal,
        Entry::DateTimeFixed,
        Entry::Text,
        Entry::Text,
        Entry::Text,
        Entry::Text,
        Entry::Uuid,
        Entry::Double,
        Entry::Double,
    ];
    for cap in CAPABILITIES {
        let table = DispatchTable::compose(CapabilitySet::none().with(cap));
        for (tag, entry) in EXTENSION_TAGS.iter().zip(expected.iter()) {
            if tag.capability() == Some(cap) {
                assert_eq!(table.lookup(*tag), Some(*entry));
            } else {
                assert_eq!(table.lookup(*tag), None);
            }
        }
    }
}

#[test]
fn entries_that_take_a_fraction() {
    assert!(Entry::Single.is_floating());
    assert!(Entry::Double.is_floating());
    assert!(!Entry::Text.is_floating());
    assert!(!Entry::BigInt.is_floating());
    assert!(!Entry::Uuid.is_floating());
}

#[test]
fn a_variant_of_a_disabled_capability_is_rejected_at_construction() {
    for (position, value) in absent_of_each_extension().into_iter().enumerate() {
        let need = value.tag().capability().unwrap();
        assert_eq!(value.tag(), EXTENSION_TAGS[position]);
        let items = vec![Value::Int(Some(1)), value];
        assert_eq!(
            Values::new(CapabilitySet::none(), items.clone()).err(),
            Some(Rejected::Disabled { index: 1 })
        );
        for cap in CAPABILITIES {
            let made = Values::new(CapabilitySet::none().with(cap), items.clone());
            if cap == need {
                let values = made.unwrap();
                assert_eq!(values.len(), 2);
                assert_eq!(values.get(1), Some(&items[1]));
            } else {
                assert_eq!(made.err(), Some(Rejected::Disabled { index: 1 }));
            }
        }
    }
}

#[test]
fn core_values_are_taken_under_any_capabilities() {
    let items = vec![
        Value::Bool(None),
        Value::TinyInt(None),
        Value::SmallInt(None),
        Value::Int(None),
        Value::BigInt(None),
        Value::TinyUnsigned(None),
        Value::SmallUnsigned(None),
        Value::Unsigned(None),
        Value::BigUnsigned(None),
        Value::Float(None),
        Value::Double(None),
        Value::String(None),
        Value::Char(None),
        Value::Bytes(None),
    ];
    for caps in [CapabilitySet::none(), CapabilitySet::all()] {
        let values = Values::new(caps, items.clone()).unwrap();
        assert_eq!(values.len(), 14);
        assert_eq!(values.checked_against(), caps);
    }
}
