//! A position on the globe.

use vstd::prelude::*;

verus! {

/// Whether `bits` is the bit pattern of a 64-bit floating point number
/// that stands for a number: every pattern does but those with all exponent
/// bits set and a fraction other than zero.
pub open spec fn is_number_bits(bits: u64) -> bool {
    !((bits >> 52) & 0x7ff == 0x7ff && bits & 0x000f_ffff_ffff_ffff != 0)
}

/// The bit pattern under which a database keeps the number with the bit
/// pattern `bits`: the pattern itself, but for negative zero, which is kept
/// as zero.
pub open spec fn kept_bits(bits: u64) -> u64 {
    if bits == 0x8000_0000_0000_0000 {
        0
    } else {
        bits
    }
}

/// The bit pattern under which a database keeps the number with the bit
/// pattern `bits`.
pub fn keep_bits(bits: u64) -> (kept: u64)
    ensures
        kept == kept_bits(bits),
{
    if bits == 0x8000_0000_0000_0000 {
        0
    } else {
        bits
    }
}

/// A position: latitude and longitude in degrees, each held as the bit
/// pattern of a 64-bit floating point number. The storage layer carries the
/// two values and never computes with them; it checks no range.
#[derive(Clone, Copy, Debug, PartialEq, Eq, Structural)]
pub struct Location {
    latitude: u64,
    longitude: u64,
}

impl Location {
    /// The position with the given bit patterns.
    pub fn from_bits(latitude: u64, longitude: u64) -> (location: Location)
        ensures
            location.lat() == latitude,
            location.lon() == longitude,
    {
        Location { latitude, longitude }
    }

    /// Whether both coordinates stand for numbers.
    pub open spec fn is_numeric(&self) -> bool {
        is_number_bits(self.lat()) && is_number_bits(self.lon())
    }

    /// Tells whether both coordinates stand for numbers. A database keeps a
    /// number as it is, and keeps no trace of a pattern that stands for
    /// none.
    pub fn check_numeric(&self) -> (b: bool)
        ensures
            b == self.is_numeric(),
    {
        let lat_is_number = !((self.latitude >> 52) & 0x7ff == 0x7ff && self.latitude
            & 0x000f_ffff_ffff_ffff != 0);
        let lon_is_number = !((self.longitude >> 52) & 0x7ff == 0x7ff && self.longitude
            & 0x000f_ffff_ffff_ffff != 0);
        lat_is_number && lon_is_number
    }

    /// The bit pattern of the latitude.
    pub closed spec fn spec_lat(&self) -> u64 {
        self.latitude
    }

    /// The bit pattern of the longitude.
    pub closed spec fn spec_lon(&self) -> u64 {
        self.longitude
    }

    /// The bit pattern of the latitude.
    #[verifier::when_used_as_spec(spec_lat)]
    pub fn lat(&self) -> (bits: u64)
        ensures
            bits == self.lat(),
    {
        self.latitude
    }

    /// The bit pattern of the longitude.
    #[verifier::when_used_as_spec(spec_lon)]
    pub fn lon(&self) -> (bits: u64)
        ensures
            bits == self.lon(),
    {
        self.longitude
    }
}

} // verus!
