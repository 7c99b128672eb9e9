//! Optional extension categories of the tagged value union.

use vstd::prelude::*;

verus! {

/// One optional category of extra column types.
#[derive(Clone, Copy, Debug, PartialEq, Eq, Structural)]
pub enum Capability {
    /// JSON documents.
    Json,
    /// Calendar dates and times.
    Chrono,
    /// Civil times, bound as normalised text.
    Time,
    /// Globally unique identifiers.
    Uuid,
    /// Fixed-size decimals.
    RustDecimal,
    /// Arbitrary-precision decimals.
    BigDecimal,
}

/// Which capabilities a driver is assembled with; each is on or off on its own.
#[derive(Clone, Copy, Debug, PartialEq, Eq, Structural)]
pub struct CapabilitySet {
    pub json: bool,
    pub chrono: bool,
    pub time: bool,
    pub uuid: bool,
    pub rust_decimal: bool,
    pub bigdecimal: bool,
}

impl CapabilitySet {
    /// Whether `cap` is switched on in this set.
    pub open spec fn enables(self, cap: Capability) -> bool {
        match cap {
            Capability::Json => self.json,
            Capability::Chrono => self.chrono,
            Capability::Time => self.time,
            Capability::Uuid => self.uuid,
            Capability::RustDecimal => self.rust_decimal,
            Capability::BigDecimal => self.bigdecimal,
        }
    }

    /// Whether a variant that needs `need` exists under this set: core variants
    /// (no need) always do.
    pub open spec fn admits(self, need: Option<Capability>) -> bool {
        match need {
            None => true,
            Some(cap) => self.enables(cap),
        }
    }

    /// The set with every capability off.
    pub open spec fn nothing() -> CapabilitySet {
        CapabilitySet {
            json: false,
            chrono: false,
            time: false,
            uuid: false,
            rust_decimal: false,
            bigdecimal: false,
        }
    }

    /// This set with `cap` switched on and the others as they were.
    pub open spec fn plus(self, cap: Capability) -> CapabilitySet {
        CapabilitySet {
            json: self.json || cap == Capability::Json,
            chrono: self.chrono || cap == Capability::Chrono,
            time: self.time || cap == Capability::Time,
            uuid: self.uuid || cap == Capability::Uuid,
            rust_decimal: self.rust_decimal || cap == Capability::RustDecimal,
            bigdecimal: self.bigdecimal || cap == Capability::BigDecimal,
        }
    }

    /// The set with every capability off: only the core variants exist.
    pub fn none() -> (set: CapabilitySet)
        ensures
            set == CapabilitySet::nothing(),
            forall|cap: Capability| !set.enables(cap),
    {
        CapabilitySet {
            json: false,
            chrono: false,
            time: false,
            uuid: false,
            rust_decimal: false,
            bigdecimal: false,
        }
    }

    /// The set with every capability on.
    pub fn all() -> (set: CapabilitySet)
        ensures
            forall|cap: Capability| set.enables(cap),
    {
        CapabilitySet {
            json: true,
            chrono: true,
            time: true,
            uuid: true,
            rust_decimal: true,
            bigdecimal: true,
        }
    }

    /// This set with `cap` switched on and the others as they were.
    pub fn with(self, cap: Capability) -> (set: CapabilitySet)
        ensures
            set == self.plus(cap),
            forall|other: Capability|
                set.enables(other) == (other == cap || self.enables(other)),
    {
        let mut set = self;
        match cap {
            Capability::Json => { set.json = true; },
            Capability::Chrono => { set.chrono = true; },
            Capability::Time => { set.time = true; },
            Capability::Uuid => { set.uuid = true; },
            Capability::RustDecimal => { set.rust_decimal = true; },
            Capability::BigDecimal => { set.bigdecimal = true; },
        }
        set
    }

    /// Whether `cap` is switched on.
    pub fn has(&self, cap: Capability) -> (on: bool)
        ensures
            on == self.enables(cap),
    {
        match cap {
            Capability::Json => self.json,
            Capability::Chrono => self.chrono,
            Capability::Time => self.time,
            Capability::Uuid => self.uuid,
            Capability::RustDecimal => self.rust_decimal,
            Capability::BigDecimal => self.bigdecimal,
        }
    }

    /// Whether a variant with the given need exists under this set.
    pub fn allows(&self, need: Option<Capability>) -> (yes: bool)
        ensures
            yes == self.admits(need),
    {
        match need {
            None => true,
            Some(cap) => self.has(cap),
        }
    }
}

} // verus!
