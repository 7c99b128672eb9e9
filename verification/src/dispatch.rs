//! The dispatch table: which driver entry point binds which variant, composed
//! from the core rules and one block of rules per enabled capability.

use vstd::prelude::*;
use crate::capability::{Capability, CapabilitySet};
use crate::value::Tag;

verus! {

/// A typed entry point of the driver: the kind of argument that a bind call
/// hands over.
#[derive(Clone, Copy, Debug, PartialEq, Eq, Structural)]
pub enum Entry {
    Bool,
    /// An 8-bit signed integer.
    TinyInt,
    /// A 16-bit signed integer.
    SmallInt,
    /// A 32-bit signed integer.
    Int,
    /// A 64-bit signed integer.
    BigInt,
    /// A 32-bit unsigned integer.
    Unsigned,
    /// A single-precision number.
    Single,
    /// A double-precision number.
    Double,
    Text,
    Bytes,
    Date,
    Time,
    DateTime,
    DateTimeUtc,
    DateTimeLocal,
    DateTimeFixed,
    Uuid,
}

impl Entry {
    /// Whether the entry point takes a floating-point number. Such a call is
    /// left to the caller.
    pub open spec fn floating(self) -> bool {
        self == Entry::Single || self == Entry::Double
    }

    /// Whether the entry point takes a floating-point number.
    pub fn is_floating(&self) -> (yes: bool)
        ensures
            yes == self.floating(),
    {
        match self {
            Entry::Single | Entry::Double => true,
            _ => false,
        }
    }
}

/// The entry point through which a variant is bound, whatever is enabled.
///
/// All three narrower unsigned widths go through the 32-bit unsigned entry,
/// and the widest through the 64-bit signed one. A character, a JSON document
/// and every civil time are bound as text, and both decimals as
/// double-precision numbers.
pub open spec fn entry_for(tag: Tag) -> Entry {
    match tag {
        Tag::Bool => Entry::Bool,
        Tag::TinyInt => Entry::TinyInt,
        Tag::SmallInt => Entry::SmallInt,
        Tag::Int => Entry::Int,
        Tag::BigInt => Entry::BigInt,
        Tag::TinyUnsigned => Entry::Unsigned,
        Tag::SmallUnsigned => Entry::Unsigned,
        Tag::Unsigned => Entry::Unsigned,
        Tag::BigUnsigned => Entry::BigInt,
        Tag::Float => Entry::Single,
        Tag::Double => Entry::Double,
        Tag::String => Entry::Text,
        Tag::Char => Entry::Text,
        Tag::Bytes => Entry::Bytes,
        Tag::Json => Entry::Text,
        Tag::ChronoDate => Entry::Date,
        Tag::ChronoTime => Entry::Time,
        Tag::ChronoDateTime => Entry::DateTime,
        Tag::ChronoDateTimeUtc => Entry::DateTimeUtc,
        Tag::ChronoDateTimeLocal => Entry::DateTimeLocal,
        Tag::ChronoDateTimeWithTimeZone => Entry::DateTimeFixed,
        Tag::TimeDate => Entry::Text,
        Tag::TimeTime => Entry::Text,
        Tag::TimeDateTime => Entry::Text,
        Tag::TimeDateTimeWithTimeZone => Entry::Text,
        Tag::Uuid => Entry::Uuid,
        Tag::Decimal => Entry::Double,
        Tag::BigDecimal => Entry::Double,
    }
}

/// The arm that a table composed for `caps` has for `tag`: its entry point
/// where the variant exists under `caps`, and none where it does not.
pub open spec fn arm_for(caps: CapabilitySet, tag: Tag) -> Option<Entry> {
    if caps.admits(tag.needs()) {
        Some(entry_for(tag))
    } else {
        None
    }
}

/// The position of a tag's arm in a table.
pub open spec fn slot(tag: Tag) -> int {
    match tag {
        Tag::Bool => 0,
        Tag::TinyInt => 1,
        Tag::SmallInt => 2,
        Tag::Int => 3,
        Tag::BigInt => 4,
        Tag::TinyUnsigned => 5,
        Tag::SmallUnsigned => 6,
        Tag::Unsigned => 7,
        Tag::BigUnsigned => 8,
        Tag::Float => 9,
        Tag::Double => 10,
        Tag::String => 11,
        Tag::Char => 12,
        Tag::Bytes => 13,
        Tag::Json => 14,
        Tag::ChronoDate => 15,
        Tag::ChronoTime => 16,
        Tag::ChronoDateTime => 17,
        Tag::ChronoDateTimeUtc => 18,
        Tag::ChronoDateTimeLocal => 19,
        Tag::ChronoDateTimeWithTimeZone => 20,
        Tag::TimeDate => 21,
        Tag::TimeTime => 22,
        Tag::TimeDateTime => 23,
        Tag::TimeDateTimeWithTimeZone => 24,
        Tag::Uuid => 25,
        Tag::Decimal => 26,
        Tag::BigDecimal => 27,
    }
}

/// The number of tags, and so of slots in a table.
pub const SLOTS: usize = 28;

fn slot_of(tag: Tag) -> (at: usize)
    ensures
        at == slot(tag),
        at < SLOTS,
{
    match tag {
        Tag::Bool => 0,
        Tag::TinyInt => 1,
        Tag::SmallInt => 2,
        Tag::Int => 3,
        Tag::BigInt => 4,
        Tag::TinyUnsigned => 5,
        Tag::SmallUnsigned => 6,
        Tag::Unsigned => 7,
        Tag::BigUnsigned => 8,
        Tag::Float => 9,
        Tag::Double => 10,
        Tag::String => 11,
        Tag::Char => 12,
        Tag::Bytes => 13,
        Tag::Json => 14,
        Tag::ChronoDate => 15,
        Tag::ChronoTime => 16,
        Tag::ChronoDateTime => 17,
        Tag::ChronoDateTimeUtc => 18,
        Tag::ChronoDateTimeLocal => 19,
        Tag::ChronoDateTimeWithTimeZone => 20,
        Tag::TimeDate => 21,
        Tag::TimeTime => 22,
        Tag::TimeDateTime => 23,
        Tag::TimeDateTimeWithTimeZone => 24,
        Tag::Uuid => 25,
        Tag::Decimal => 26,
        Tag::BigDecimal => 27,
    }
}

/// A dispatch table: for each tag either the entry point that binds it, or
/// nothing where the variant does not exist in the build the table was
/// composed for. A tag without an arm must never reach the binder.
pub struct DispatchTable {
    caps: CapabilitySet,
    arms: Vec<Option<Entry>>,
}

impl DispatchTable {
    /// The capabilities whose blocks the table holds.
    pub closed spec fn capabilities(self) -> CapabilitySet {
        self.caps
    }

    /// The table holds, for every tag, exactly the arm that its capabilities
    /// give it.
    pub closed spec fn wf(self) -> bool {
        &&& self.arms@.len() == SLOTS
        &&& forall|tag: Tag| #[trigger] self.arms@[slot(tag)] == arm_for(self.caps, tag)
    }

    /// Whether the table has an arm for `tag`.
    pub open spec fn handles(self, tag: Tag) -> bool {
        self.capabilities().admits(tag.needs())
    }

    /// The table of the core rules alone, which every build has.
    pub fn core_rules() -> (table: DispatchTable)
        ensures
            table.wf(),
            table.capabilities() == CapabilitySet::nothing(),
    {
        let mut arms: Vec<Option<Entry>> = Vec::new();
        arms.push(Some(Entry::Bool));
        arms.push(Some(Entry::TinyInt));
        arms.push(Some(Entry::SmallInt));
        arms.push(Some(Entry::Int));
        arms.push(Some(Entry::BigInt));
        arms.push(Some(Entry::Unsigned));
        arms.push(Some(Entry::Unsigned));
        arms.push(Some(Entry::Unsigned));
        arms.push(Some(Entry::BigInt));
        arms.push(Some(Entry::Single));
        arms.push(Some(Entry::Double));
        arms.push(Some(Entry::Text));
        arms.push(Some(Entry::Text));
        arms.push(Some(Entry::Bytes));
        let mut at: usize = 14;
        while at < SLOTS
            invariant
                14 <= at <= SLOTS,
                arms@.len() == at,
                forall|tag: Tag| slot(tag) < 14 ==> #[trigger] arms@[slot(tag)] == Some(entry_for(tag)),
                forall|i: int| 14 <= i < at ==> arms@[i] is None,
            decreases SLOTS - at,
        {
            arms.push(None);
            at = at + 1;
        }
        DispatchTable { caps: CapabilitySet::none(), arms }
    }

    /// Adds the block of rules of one capability. The blocks of the other
    /// capabilities, and the core rules, stay as they were.
    pub fn enable(&mut self, cap: Capability)
        requires
            old(self).wf(),
        ensures
            final(self).wf(),
            final(self).capabilities() == old(self).capabilities().plus(cap),
    {
        match cap {
            Capability::Json => {
                self.arms.set(14, Some(Entry::Text));
            },
            Capability::Chrono => {
                self.arms.set(15, Some(Entry::Date));
                self.arms.set(16, Some(Entry::Time));
                self.arms.set(17, Some(Entry::DateTime));
                self.arms.set(18, Some(Entry::DateTimeUtc));
                self.arms.set(19, Some(Entry::DateTimeLocal));
                self.arms.set(20, Some(Entry::DateTimeFixed));
            },
            Capability::Time => {
                self.arms.set(21, Some(Entry::Text));
                self.arms.set(22, Some(Entry::Text));
                self.arms.set(23, Some(Entry::Text));
                self.arms.set(24, Some(Entry::Text));
            },
            Capability::Uuid => {
                self.arms.set(25, Some(Entry::Uuid));
            },
            Capability::RustDecimal => {
                self.arms.set(26, Some(Entry::Double));
            },
            Capability::BigDecimal => {
                self.arms.set(27, Some(Entry::Double));
            },
        }
        self.caps = self.caps.with(cap);
    }

    /// Composes the table for a capability set: the core rules, then the block
    /// of each enabled capability.
    pub fn compose(caps: CapabilitySet) -> (table: DispatchTable)
        ensures
            table.wf(),
            table.capabilities() == caps,
    {
        let mut table = DispatchTable::core_rules();
        if caps.has(Capability::Json) {
            table.enable(Capability::Json);
        }
        if caps.has(Capability::Chrono) {
            table.enable(Capability::Chrono);
        }
        if caps.has(Capability::Time) {
            table.enable(Capability::Time);
        }
        if caps.has(Capability::Uuid) {
            table.enable(Capability::Uuid);
        }
        if caps.has(Capability::RustDecimal) {
            table.enable(Capability::RustDecimal);
        }
        if caps.has(Capability::BigDecimal) {
            table.enable(Capability::BigDecimal);
        }
        table
    }

    /// The capabilities whose blocks the table holds.
    pub fn enabled(&self) -> (caps: CapabilitySet)
        ensures
            caps == self.capabilities(),
    {
        self.caps
    }

    /// The arm for `tag`: the entry point that binds the variant, or `None`
    /// where the variant does not exist under the table's capabilities.
    pub fn lookup(&self, tag: Tag) -> (arm: Option<Entry>)
        requires
            self.wf(),
        ensures
            arm == arm_for(self.capabilities(), tag),
            arm is Some <==> self.handles(tag),
    {
        self.arms[slot_of(tag)]
    }
}

/// Enabling a capability adds the arms of exactly the variants that need it,
/// and changes no other arm: the blocks do not overlap.
pub proof fn lemma_block_is_self_contained(caps: CapabilitySet, cap: Capability, tag: Tag)
    ensures
        tag.needs() == Some(cap) ==> arm_for(caps.plus(cap), tag) == Some(entry_for(tag)),
        tag.needs() != Some(cap) ==> arm_for(caps.plus(cap), tag) == arm_for(caps, tag),
{
}

/// The order in which two blocks are added does not matter.
pub proof fn lemma_block_order_is_irrelevant(caps: CapabilitySet, first: Capability, second: Capability)
    ensures
        caps.plus(first).plus(second) == caps.plus(second).plus(first),
{
}

/// A core variant has an arm whatever is enabled.
pub proof fn lemma_core_is_always_handled(caps: CapabilitySet, tag: Tag)
    requires
        tag.needs() is None,
    ensures
        arm_for(caps, tag) == Some(entry_for(tag)),
{
}

} // verus!
