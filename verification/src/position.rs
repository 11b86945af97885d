//! Coordinates and the numbers they are made of.

use vstd::prelude::*;

verus! {

/// A real number in IEEE 754 binary64 encoding, carried as its 64 bits.
///
/// The library never computes with such a number: it stores it, hands it on
/// and compares it bit for bit. The all-zero pattern is positive zero.
#[derive(Clone, Copy, Debug, PartialEq, Eq, Structural)]
pub struct Scalar {
    pub bits: u64,
}

impl Scalar {
    /// The number whose encoding is `bits`.
    pub fn from_bits(bits: u64) -> (s: Scalar)
        ensures
            s.bits == bits,
    {
        Scalar { bits }
    }

    /// The encoding of the number.
    pub fn to_bits(self) -> (bits: u64)
        ensures
            bits == self.bits,
    {
        self.bits
    }

    /// Positive zero.
    pub fn zero() -> (s: Scalar)
        ensures
            s.bits == 0,
    {
        Scalar { bits: 0 }
    }
}

/// A point on the globe, in degrees.
///
/// `(0, 0)` stands for "unknown"; it is never offered as a real location.
#[derive(Clone, Copy, Debug, PartialEq, Eq, Structural)]
pub struct Position {
    pub latitude: Scalar,
    pub longitude: Scalar,
}

/// The position that stands for "unknown".
pub open spec fn unknown_position() -> Position {
    Position { latitude: Scalar { bits: 0 }, longitude: Scalar { bits: 0 } }
}

impl Position {
    pub fn new(latitude: Scalar, longitude: Scalar) -> (p: Position)
        ensures
            p == (Position { latitude, longitude }),
    {
        Position { latitude, longitude }
    }

    /// The position that stands for "unknown": `(0, 0)`.
    pub fn unknown() -> (p: Position)
        ensures
            p == unknown_position(),
    {
        Position { latitude: Scalar::zero(), longitude: Scalar::zero() }
    }

    /// Whether this is the "unknown" position.
    pub fn is_unknown(&self) -> (b: bool)
        ensures
            b == (*self == unknown_position()),
    {
        self.latitude.bits == 0 && self.longitude.bits == 0
    }
}

impl Default for Position {
    fn default() -> (p: Position)
        ensures
            p == unknown_position(),
    {
        Position::unknown()
    }
}

} // verus!
