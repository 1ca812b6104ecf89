//! Opaque public identifiers and timestamps, as plain integers.

use vstd::prelude::*;

verus! {

/// The public identifier of a record: 128 random bits, unrelated to its
/// internal sequential id.
#[derive(Clone, Copy, Debug, PartialEq, Eq, Hash, Structural)]
pub struct Uuid {
    pub bits: u128,
}

/// A point in time, in microseconds since the Unix epoch, UTC.
#[derive(Clone, Copy, Debug, PartialEq, Eq, Hash, Structural)]
pub struct Timestamp {
    pub micros: i64,
}

impl Uuid {
    /// The identifier with these bits.
    pub fn from_u128(bits: u128) -> (id: Uuid)
        ensures
            id.bits == bits,
    {
        Uuid { bits }
    }

    /// The bits of this identifier.
    pub fn as_u128(&self) -> (bits: u128)
        ensures
            bits == self.bits,
    {
        self.bits
    }
}

impl Timestamp {
    /// The point in time that lies `micros` microseconds after the epoch.
    pub fn from_micros(micros: i64) -> (t: Timestamp)
        ensures
            t.micros == micros,
    {
        Timestamp { micros }
    }

    /// Microseconds since the epoch.
    pub fn as_micros(&self) -> (micros: i64)
        ensures
            micros == self.micros,
    {
        self.micros
    }
}

} // verus!
