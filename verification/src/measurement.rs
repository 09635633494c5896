//! The application record: three readings of a sensor.

use vstd::prelude::*;

verus! {

/// Bits of a reading that hold its binary exponent.
pub const EXPONENT_MASK: u32 = 0x7f80_0000;

/// Whether a 32-bit single-precision pattern denotes a finite number: its
/// eight exponent bits (bits 23 to 30) are not all set. Patterns with all of
/// them set stand for the infinities and for not-a-number.
pub open spec fn finite_bits(bits: u32) -> bool {
    (bits as int / 0x80_0000) % 0x100 != 0xff
}

/// One application record: a temperature, a pressure and a humidity reading.
///
/// Each reading is carried as the raw 32-bit pattern of a single-precision
/// binary number, so a record can be moved, compared and checked exactly.
#[derive(Clone, Copy, Debug, PartialEq, Eq, Structural)]
pub struct Measurement {
    pub temperature: u32,
    pub pressure: u32,
    pub humidity: u32,
}

impl Measurement {
    /// A record is well formed when all three readings are finite. Only such
    /// records have a representation in the payload format.
    pub open spec fn well_formed(self) -> bool {
        &&& finite_bits(self.temperature)
        &&& finite_bits(self.pressure)
        &&& finite_bits(self.humidity)
    }

    /// Builds a record from the three raw readings.
    pub fn new(temperature: u32, pressure: u32, humidity: u32) -> (m: Measurement)
        ensures
            m.temperature == temperature,
            m.pressure == pressure,
            m.humidity == humidity,
    {
        Measurement { temperature, pressure, humidity }
    }

    /// Tells whether all three readings are finite.
    pub fn is_well_formed(&self) -> (ok: bool)
        ensures
            ok == self.well_formed(),
    {
        is_finite(self.temperature) && is_finite(self.pressure) && is_finite(self.humidity)
    }
}

/// Tells whether a raw reading denotes a finite number.
pub fn is_finite(bits: u32) -> (ok: bool)
    ensures
        ok == finite_bits(bits),
{
    assert((bits & 0x7f80_0000 != 0x7f80_0000) == ((bits / 0x80_0000) % 0x100 != 0xff))
        by (bit_vector);
    bits & EXPONENT_MASK != EXPONENT_MASK
}

} // verus!
