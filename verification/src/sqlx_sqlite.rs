//! The binder for SQLite: each value is bound through the entry point that the
//! dispatch table gives its variant, in sequence order.
//!
//! Numbers with a fraction are outside what this library computes with. A
//! value that is bound as one (`Float`, `Double` and both decimals) is not
//! bound here: the fold stops in front of it and the caller binds it.

use vstd::prelude::*;
use sqlx::sqlite::SqliteArguments;
use crate::arguments::{
    add_bool, add_bytes, add_date, add_datetime, add_datetime_fixed, add_datetime_local,
    add_datetime_utc, add_i16, add_i32, add_i64, add_i8, add_text, add_time, add_u32, add_uuid,
    char_text, chrono_date_text, chrono_datetime_text, chrono_time_text, chrono_utc_text,
    chrono_zoned_in_range, chrono_zoned_text, contents, stored_text, zoned_fits, SqlArg,
};
use crate::capability::CapabilitySet;
use crate::civil::{civil_text, naive_utc_string, Civil};
use crate::dispatch::{entry_for, DispatchTable, Entry};
use crate::value::Value;

verus! {

/// Whether the binder leaves the value to the caller: it is bound as a number
/// with a fraction.
pub open spec fn left_to_caller(value: Value) -> bool {
    entry_for(value.kind()).floating()
}

/// Whether every datetime in the value can be rendered: a zoned calendar
/// datetime must stay in range when shown at its offset, and a civil offset
/// datetime when moved to UTC. Every other value can be.
pub open spec fn renders(value: Value) -> bool {
    match value {
        Value::ChronoDateTimeLocal(Some(z)) => chrono_zoned_in_range(z.utc, z.offset),
        Value::ChronoDateTimeWithTimeZone(Some(z)) => chrono_zoned_in_range(z.utc, z.offset),
        Value::TimeDateTimeWithTimeZone(Some(t)) => Civil::DateTimeWithTimeZone(t).normalizes(),
        _ => true,
    }
}

/// Whether a binder built for `caps` takes the value: its variant exists
/// under `caps` and its datetime, if it holds one, can be rendered.
pub open spec fn acceptable(caps: CapabilitySet, value: Value) -> bool {
    caps.admits(value.kind().needs()) && renders(value)
}

/// The 64-bit signed integer with the bit pattern of `x`: `x` itself below
/// 2^63, and `x - 2^64` from there on.
pub open spec fn as_signed(x: u64) -> i64 {
    if x <= i64::MAX {
        x as i64
    } else {
        (x - 0x1_0000_0000_0000_0000) as i64
    }
}

/// What the argument list stores once the value is bound. An absent payload
/// is stored as NULL, whatever the variant. A value that is left to the caller
/// is never bound here, and the result for it has no meaning.
pub open spec fn stored(value: Value) -> SqlArg
    recommends
        !left_to_caller(value),
{
    match value {
        Value::Bool(Some(b)) => SqlArg::Int(if b { 1i32 } else { 0i32 }),
        Value::TinyInt(Some(x)) => SqlArg::Int(x as i32),
        Value::SmallInt(Some(x)) => SqlArg::Int(x as i32),
        Value::Int(Some(x)) => SqlArg::Int(x),
        Value::BigInt(Some(x)) => SqlArg::Int64(x),
        Value::TinyUnsigned(Some(x)) => SqlArg::Int64(x as i64),
        Value::SmallUnsigned(Some(x)) => SqlArg::Int64(x as i64),
        Value::Unsigned(Some(x)) => SqlArg::Int64(x as i64),
        Value::BigUnsigned(Some(x)) => SqlArg::Int64(as_signed(x)),
        Value::String(Some(s)) => SqlArg::Text(s@),
        Value::Char(Some(c)) => SqlArg::Text(seq![c]),
        Value::Bytes(Some(b)) => SqlArg::Blob(b@),
        Value::Json(Some(s)) => SqlArg::Text(s@),
        Value::ChronoDate(Some(d)) => SqlArg::Text(chrono_date_text(d)),
        Value::ChronoTime(Some(t)) => SqlArg::Text(chrono_time_text(t)),
        Value::ChronoDateTime(Some(d)) => SqlArg::Text(chrono_datetime_text(d)),
        Value::ChronoDateTimeUtc(Some(d)) => SqlArg::Text(chrono_utc_text(d)),
        Value::ChronoDateTimeLocal(Some(z)) => SqlArg::Text(chrono_zoned_text(z.utc, z.offset)),
        Value::ChronoDateTimeWithTimeZone(Some(z)) => SqlArg::Text(
            chrono_zoned_text(z.utc, z.offset),
        ),
        Value::TimeDate(Some(d)) => stored_text(civil_text(Civil::Date(d))),
        Value::TimeTime(Some(t)) => stored_text(civil_text(Civil::Time(t))),
        Value::TimeDateTime(Some(d)) => stored_text(civil_text(Civil::DateTime(d))),
        Value::TimeDateTimeWithTimeZone(Some(d)) => stored_text(
            civil_text(Civil::DateTimeWithTimeZone(d)),
        ),
        Value::Uuid(Some(b)) => SqlArg::Blob(b@),
        _ => SqlArg::Null,
    }
}

/// Whether every datetime in the value can be rendered.
pub fn check_renders(value: &Value) -> (yes: bool)
    ensures
        yes == renders(*value),
{
    match value {
        Value::ChronoDateTimeLocal(Some(z)) => zoned_fits(&z.utc, &z.offset),
        Value::ChronoDateTimeWithTimeZone(Some(z)) => zoned_fits(&z.utc, &z.offset),
        Value::TimeDateTimeWithTimeZone(Some(t)) => Civil::DateTimeWithTimeZone(*t).can_normalize(),
        _ => true,
    }
}

fn reinterpret(x: u64) -> (y: i64)
    ensures
        y == as_signed(x),
{
    let y: i64 = #[verifier::truncate] (x as i64);
    assert(x <= 0x7fff_ffff_ffff_ffffu64 ==> (x as i64) == x) by (bit_vector);
    assert(x > 0x7fff_ffff_ffff_ffffu64 ==> (x as i64) == x - 0x1_0000_0000_0000_0000) by (bit_vector);
    y
}

fn bind_civil(args: &mut SqliteArguments, civil: Civil)
    requires
        civil.normalizes(),
    ensures
        contents(*final(args)) == contents(*old(args)).push(stored_text(civil_text(civil))),
{
    match naive_utc_string(&civil) {
        Some(text) => add_text(args, Some(text.as_str())),
        None => add_text(args, None),
    }
}

/// Binds one value as the next parameter, through the entry point that the
/// table gives its variant and with the coercion that the variant calls for:
/// integers are brought to the width that the entry point takes, a character
/// becomes a text of that one character, a civil time its naive UTC text.
///
/// Returns whether the value was bound. It is not where it is left to the
/// caller, and the argument list is then as it was.
pub fn bind_value(table: &DispatchTable, args: &mut SqliteArguments, value: &Value) -> (done: bool)
    requires
        table.wf(),
        table.handles(value.kind()),
        renders(*value),
    ensures
        done == !left_to_caller(*value),
        done ==> contents(*final(args)) == contents(*old(args)).push(stored(*value)),
        !done ==> *final(args) == *old(args),
{
    let handed_back = match table.lookup(value.tag()) {
        Some(entry) => entry.is_floating(),
        None => true,
    };
    if handed_back {
        return false;
    }
    match value {
        Value::Bool(p) => add_bool(args, *p),
        Value::TinyInt(p) => add_i8(args, *p),
        Value::SmallInt(p) => add_i16(args, *p),
        Value::Int(p) => add_i32(args, *p),
        Value::BigInt(p) => add_i64(args, *p),
        Value::TinyUnsigned(p) => match p {
            Some(x) => add_u32(args, Some(*x as u32)),
            None => add_u32(args, None),
        },
        Value::SmallUnsigned(p) => match p {
            Some(x) => add_u32(args, Some(*x as u32)),
            None => add_u32(args, None),
        },
        Value::Unsigned(p) => add_u32(args, *p),
        Value::BigUnsigned(p) => match p {
            Some(x) => add_i64(args, Some(reinterpret(*x))),
            None => add_i64(args, None),
        },
        Value::String(p) => match p {
            Some(s) => add_text(args, Some(s.as_str())),
            None => add_text(args, None),
        },
        Value::Char(p) => match p {
            Some(c) => {
                let text = char_text(*c);
                add_text(args, Some(text.as_str()))
            },
            None => add_text(args, None),
        },
        Value::Bytes(p) => match p {
            Some(b) => add_bytes(args, Some(b.as_slice())),
            None => add_bytes(args, None),
        },
        Value::Json(p) => match p {
            Some(s) => add_text(args, Some(s.as_str())),
            None => add_text(args, None),
        },
        Value::ChronoDate(p) => add_date(args, *p),
        Value::ChronoTime(p) => add_time(args, *p),
        Value::ChronoDateTime(p) => add_datetime(args, *p),
        Value::ChronoDateTimeUtc(p) => add_datetime_utc(args, *p),
        Value::ChronoDateTimeLocal(p) => add_datetime_local(args, *p),
        Value::ChronoDateTimeWithTimeZone(p) => add_datetime_fixed(args, *p),
        Value::TimeDate(p) => match p {
            Some(d) => bind_civil(args, Civil::Date(*d)),
            None => add_text(args, None),
        },
        Value::TimeTime(p) => match p {
            Some(t) => bind_civil(args, Civil::Time(*t)),
            None => add_text(args, None),
        },
        Value::TimeDateTime(p) => match p {
            Some(d) => bind_civil(args, Civil::DateTime(*d)),
            None => add_text(args, None),
        },
        Value::TimeDateTimeWithTimeZone(p) => match p {
            Some(d) => bind_civil(args, Civil::DateTimeWithTimeZone(*d)),
            None => add_text(args, None),
        },
        Value::Uuid(p) => add_uuid(args, *p),
        Value::Float(_) | Value::Double(_) | Value::Decimal(_) | Value::BigDecimal(_) => {},
    }
    true
}

/// What is stored for the values at positions `from` up to `to`, in order.
pub open spec fn stored_run(params: Seq<Value>, from: int, to: int) -> Seq<SqlArg> {
    Seq::new((to - from) as nat, |k: int| stored(params[from + k]))
}

/// The first position at or after `from` whose value is left to the caller,
/// or the length of the sequence where there is none.
pub open spec fn next_stop(params: Seq<Value>, from: int) -> int
    decreases params.len() - from,
{
    if from >= params.len() {
        params.len() as int
    } else if left_to_caller(params[from]) {
        from
    } else {
        next_stop(params, from + 1)
    }
}

/// Binds the values from position `from` on, each as the next parameter and
/// in sequence order, with the dispatch table composed for `capabilities`.
///
/// The fold goes up to the first value that is left to the caller, or to the
/// end, and returns where it stopped: every value before that position is
/// bound, one call each, and nothing else is. A caller that binds the value at
/// the returned position itself goes on from the position after it.
///
/// A value of a variant that does not exist under `capabilities` must not
/// reach the binder: no arm of the table takes it.
pub fn bind_params_sqlx_sqlite(
    args: &mut SqliteArguments,
    params: &Vec<Value>,
    capabilities: CapabilitySet,
    from: usize,
) -> (stop: usize)
    requires
        from <= params@.len(),
        forall|i: int| from <= i < params@.len() ==> acceptable(capabilities, #[trigger] params@[i]),
    ensures
        stop == next_stop(params@, from as int),
        from <= stop <= params@.len(),
        forall|i: int| from <= i < stop ==> !left_to_caller(#[trigger] params@[i]),
        stop < params@.len() ==> left_to_caller(params@[stop as int]),
        contents(*final(args)) == contents(*old(args)) + stored_run(
            params@,
            from as int,
            stop as int,
        ),
{
    let table = DispatchTable::compose(capabilities);
    bind_with_table(&table, args, params, from)
}

fn bind_with_table(
    table: &DispatchTable,
    args: &mut SqliteArguments,
    params: &Vec<Value>,
    from: usize,
) -> (stop: usize)
    requires
        table.wf(),
        from <= params@.len(),
        forall|i: int|
            from <= i < params@.len() ==> acceptable(table.capabilities(), #[trigger] params@[i]),
    ensures
        stop == next_stop(params@, from as int),
        from <= stop <= params@.len(),
        forall|i: int| from <= i < stop ==> !left_to_caller(#[trigger] params@[i]),
        stop < params@.len() ==> left_to_caller(params@[stop as int]),
        contents(*final(args)) == contents(*old(args)) + stored_run(
            params@,
            from as int,
            stop as int,
        ),
{
    let ghost before = contents(*args);
    let mut at: usize = from;
    assert(stored_run(params@, from as int, at as int) =~= Seq::<SqlArg>::empty());
    assert(before + Seq::<SqlArg>::empty() =~= before);
    while at < params.len()
        invariant
            table.wf(),
            before == contents(*old(args)),
            from <= at <= params@.len(),
            forall|i: int|
                from <= i < params@.len() ==> acceptable(
                    table.capabilities(),
                    #[trigger] params@[i],
                ),
            forall|i: int| from <= i < at ==> !left_to_caller(#[trigger] params@[i]),
            next_stop(params@, from as int) == next_stop(params@, at as int),
            contents(*args) == before + stored_run(params@, from as int, at as int),
        decreases params@.len() - at,
    {
        let ghost so_far = contents(*args);
        assert(acceptable(table.capabilities(), params@[at as int]));
        let done = bind_value(table, args, &params[at]);
        if !done {
            return at;
        }
        proof {
            assert(stored_run(params@, from as int, at + 1) =~= stored_run(
                params@,
                from as int,
                at as int,
            ).push(stored(params@[at as int])));
            assert(so_far.push(stored(params@[at as int])) =~= before + stored_run(
                params@,
                from as int,
                at + 1,
            ));
        }
        at = at + 1;
    }
    at
}

/// Why a sequence of values was turned away.
#[derive(Clone, Copy, Debug, PartialEq, Eq, Structural)]
pub enum Rejected {
    /// The value at `index` is of a variant that needs a capability that is
    /// off.
    Disabled { index: usize },
    /// The value at `index` holds a datetime that cannot be rendered.
    OutOfRange { index: usize },
}

/// What the check of `items` against `capabilities` answers: the same values
/// where all are acceptable, and otherwise the position of the first that is
/// not, as `Disabled` where its variant does not exist under `capabilities`
/// and as `OutOfRange` where it does and its datetime cannot be rendered.
pub open spec fn answers(
    capabilities: CapabilitySet,
    items: Seq<Value>,
    made: Result<Values, Rejected>,
) -> bool {
    match made {
        Ok(values) => values@ == items && values.capabilities() == capabilities,
        Err(Rejected::Disabled { index }) => {
            &&& index < items.len()
            &&& !capabilities.admits(items[index as int].kind().needs())
            &&& forall|i: int| 0 <= i < index ==> acceptable(capabilities, #[trigger] items[i])
        },
        Err(Rejected::OutOfRange { index }) => {
            &&& index < items.len()
            &&& capabilities.admits(items[index as int].kind().needs())
            &&& !renders(items[index as int])
            &&& forall|i: int| 0 <= i < index ==> acceptable(capabilities, #[trigger] items[i])
        },
    }
}

/// A sequence of values that a binder with the same capabilities takes: one
/// value per parameter placeholder, in positional order. It cannot be built
/// with a value of a variant whose capability is off.
pub struct Values {
    caps: CapabilitySet,
    items: Vec<Value>,
}

impl View for Values {
    type V = Seq<Value>;

    closed spec fn view(&self) -> Seq<Value> {
        self.items@
    }
}

impl Values {
    /// The capabilities that the values were checked against.
    pub closed spec fn capabilities(self) -> CapabilitySet {
        self.caps
    }

    #[verifier::type_invariant]
    spec fn checked(self) -> bool {
        forall|i: int| 0 <= i < self.items@.len() ==> acceptable(self.caps, #[trigger] self.items@[i])
    }

    /// Checks the values against the capabilities, first to last. The
    /// sequence is taken if every value is acceptable; otherwise the first
    /// value that is not is named, with what is wrong with it.
    pub fn new(capabilities: CapabilitySet, items: Vec<Value>) -> (made: Result<Values, Rejected>)
        ensures
            made is Ok <==> forall|i: int|
                0 <= i < items@.len() ==> acceptable(capabilities, #[trigger] items@[i]),
            answers(capabilities, items@, made),
    {
        let mut at: usize = 0;
        while at < items.len()
            invariant
                at <= items@.len(),
                forall|i: int| 0 <= i < at ==> acceptable(capabilities, #[trigger] items@[i]),
            decreases items@.len() - at,
        {
            let value = &items[at];
            if !capabilities.allows(value.tag().capability()) {
                assert(!acceptable(capabilities, items@[at as int]));
                return Err(Rejected::Disabled { index: at });
            }
            if !check_renders(value) {
                assert(!acceptable(capabilities, items@[at as int]));
                return Err(Rejected::OutOfRange { index: at });
            }
            at = at + 1;
        }
        Ok(Values { caps: capabilities, items })
    }

    /// How many values there are.
    pub fn len(&self) -> (n: usize)
        ensures
            n == self@.len(),
    {
        self.items.len()
    }

    /// The value at a position, or `None` past the end.
    pub fn get(&self, index: usize) -> (value: Option<&Value>)
        ensures
            match value {
                Some(v) => index < self@.len() && *v == self@[index as int],
                None => index >= self@.len(),
            },
    {
        if index < self.items.len() {
            Some(&self.items[index])
        } else {
            None
        }
    }

    /// The capabilities that the values were checked against.
    pub fn checked_against(&self) -> (caps: CapabilitySet)
        ensures
            caps == self.capabilities(),
    {
        self.caps
    }
}

/// A binder for one capability set: its dispatch table is composed once and
/// used for every bind call.
pub struct Driver {
    table: DispatchTable,
}

impl Driver {
    /// The capabilities that the driver was built for.
    pub closed spec fn capabilities(self) -> CapabilitySet {
        self.table.capabilities()
    }

    #[verifier::type_invariant]
    spec fn composed(self) -> bool {
        self.table.wf()
    }

    /// The capabilities that the driver was built for.
    pub fn enabled(&self) -> (caps: CapabilitySet)
        ensures
            caps == self.capabilities(),
    {
        self.table.enabled()
    }

    /// Checks a sequence of values against the driver's capabilities, as
    /// `Values::new` does.
    pub fn values(&self, items: Vec<Value>) -> (made: Result<Values, Rejected>)
        ensures
            made is Ok <==> forall|i: int|
                0 <= i < items@.len() ==> acceptable(self.capabilities(), #[trigger] items@[i]),
            answers(self.capabilities(), items@, made),
    {
        Values::new(self.table.enabled(), items)
    }

    /// Binds the values from position `from` on, as `bind_params_sqlx_sqlite`
    /// does, and returns where the fold stopped.
    ///
    /// Returns `None`, with nothing bound, where the values were checked
    /// against other capabilities than the driver's, or `from` is past the
    /// end.
    pub fn bind_query(&self, args: &mut SqliteArguments, params: &Values, from: usize) -> (stop:
        Option<usize>)
        ensures
            stop is Some <==> params.capabilities() == self.capabilities() && from <= params@.len(),
            stop is None ==> *final(args) == *old(args),
            stop matches Some(at) ==> {
                &&& at == next_stop(params@, from as int)
                &&& from <= at <= params@.len()
                &&& forall|i: int| from <= i < at ==> !left_to_caller(#[trigger] params@[i])
                &&& at < params@.len() ==> left_to_caller(params@[at as int])
                &&& contents(*final(args)) == contents(*old(args)) + stored_run(
                    params@,
                    from as int,
                    at as int,
                )
            },
    {
        proof {
            use_type_invariant(self);
            use_type_invariant(params);
        }
        if params.caps != self.table.enabled() || from > params.items.len() {
            return None;
        }
        Some(bind_with_table(&self.table, args, &params.items, from))
    }
}

/// A sequence in which no value is left to the caller is bound to its end:
/// as many parameters are stored as there are values, and the parameter at
/// each position is the stored form of the value at that position.
pub proof fn lemma_every_value_is_bound_in_order(params: Seq<Value>)
    requires
        forall|i: int| 0 <= i < params.len() ==> !left_to_caller(#[trigger] params[i]),
    ensures
        next_stop(params, 0) == params.len(),
        stored_run(params, 0, params.len() as int).len() == params.len(),
        forall|i: int|
            0 <= i < params.len() ==> #[trigger] stored_run(params, 0, params.len() as int)[i]
                == stored(params[i]),
{
    lemma_next_stop_skips_bound(params, 0, params.len() as int);
}

/// The fold does not stop before a value that is left to the caller: from
/// `from`, over values that are all bound, it stops where it would from `to`.
pub proof fn lemma_next_stop_skips_bound(params: Seq<Value>, from: int, to: int)
    requires
        0 <= from <= to <= params.len(),
        forall|i: int| from <= i < to ==> !left_to_caller(#[trigger] params[i]),
    ensures
        next_stop(params, from) == next_stop(params, to),
    decreases to - from,
{
    if from < to {
        lemma_next_stop_skips_bound(params, from + 1, to);
    }
}

/// Binding in two runs stores what binding in one run does: what is stored
/// for the positions `from` up to `to` is what is stored up to `mid`, followed
/// by what is stored from `mid` on.
pub proof fn lemma_runs_join(params: Seq<Value>, from: int, mid: int, to: int)
    requires
        0 <= from <= mid <= to <= params.len(),
    ensures
        stored_run(params, from, to) == stored_run(params, from, mid) + stored_run(params, mid, to),
{
    assert(stored_run(params, from, to) =~= stored_run(params, from, mid) + stored_run(
        params,
        mid,
        to,
    ));
}

/// A value without a payload is stored as NULL, whatever its variant.
pub proof fn lemma_absent_is_stored_as_null(value: Value)
    requires
        value.absent(),
    ensures
        stored(value) == SqlArg::Null,
{
}

/// A present payload of a core variant, or of an identifier, a JSON document
/// or a calendar time, is never stored as NULL.
pub proof fn lemma_present_is_not_null(value: Value)
    requires
        !value.absent(),
        !left_to_caller(value),
        !(value is TimeDate || value is TimeTime || value is TimeDateTime
            || value is TimeDateTimeWithTimeZone),
    ensures
        stored(value) != SqlArg::Null,
{
}

/// Whether a stored parameter is what the entry point writes: NULL for an
/// absent payload, and otherwise a 32-bit integer for the boolean and the
/// integer entries up to 32 bits, a 64-bit integer for the 64-bit signed and
/// the 32-bit unsigned entry, a text for the text and the calendar entries,
/// and a byte string for the byte and the identifier entry.
pub open spec fn writes(entry: Entry, arg: SqlArg) -> bool {
    arg is Null || match entry {
        Entry::Bool | Entry::TinyInt | Entry::SmallInt | Entry::Int => arg is Int,
        Entry::BigInt | Entry::Unsigned => arg is Int64,
        Entry::Single | Entry::Double => arg is Double,
        Entry::Text
        | Entry::Date
        | Entry::Time
        | Entry::DateTime
        | Entry::DateTimeUtc
        | Entry::DateTimeLocal
        | Entry::DateTimeFixed => arg is Text,
        Entry::Bytes | Entry::Uuid => arg is Blob,
    }
}

/// What is stored for a value is what the entry point of its variant writes.
/// A civil time in particular is stored as text, or as NULL.
pub proof fn lemma_stored_through_the_entry_of_the_variant(value: Value)
    requires
        !left_to_caller(value),
    ensures
        writes(entry_for(value.kind()), stored(value)),
        entry_for(value.kind()) == Entry::Text ==> stored(value) is Text || stored(value) is Null,
{
}

/// The widest unsigned integer goes through the 64-bit signed entry point
/// and keeps its value as long as it is below 2^63.
pub proof fn lemma_big_unsigned_keeps_its_value(x: u64)
    requires
        x <= i64::MAX,
    ensures
        stored(Value::BigUnsigned(Some(x))) == SqlArg::Int64(x as i64),
        (x as i64) as int == x as int,
{
}

/// Builds the binder for a capability set. The set must be the one that the
/// producer of the values is built with.
pub fn sea_query_driver_sqlite_impl(capabilities: CapabilitySet) -> (driver: Driver)
    ensures
        driver.capabilities() == capabilities,
{
    Driver { table: DispatchTable::compose(capabilities) }
}

} // verus!
