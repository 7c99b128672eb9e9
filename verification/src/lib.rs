//! Binds a sequence of tagged SQL values to the positional parameters of a
//! SQLite statement, one driver call per value, in sequence order.
//!
//! A query builder hands over its values as one closed union of kinds: the
//! core kinds, and the kinds of the optional capabilities (JSON, calendar
//! times, civil times, identifiers, two decimals). The driver wants each value
//! through the entry point of its type. Which entry point binds which variant,
//! and with which coercion, is the dispatch table; it is composed from the
//! core rules and one block of rules per enabled capability.
//!
//! - [`capability`]: the capabilities and sets of them.
//! - [`value`]: the tagged values and their tags.
//! - [`dispatch`]: the dispatch table and its composition.
//! - [`arguments`]: the driver's argument list and what each typed call
//!   appends to it. What is stated there is taken from the driver, not proved.
//! - [`civil`]: the normalisation of civil times to text.
//! - [`sqlx_sqlite`]: the binder.
//!
//! The argument list is modelled as the sequence of the values it stores.
//! The binder's contract says, for every sequence of values, which stored
//! values are appended and in what order.

pub mod arguments;
pub mod capability;
pub mod civil;
pub mod dispatch;
pub mod sqlx_sqlite;
pub mod value;
