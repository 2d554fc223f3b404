//! The provider's data model: the geographic query point a provider is
//! built from, and the fixed per-aircraft record every response element is
//! normalized into.

use vstd::prelude::*;

verus! {

/// The geographic reference point of a query. The coordinates are carried
/// as their decimal text, exactly as they will stand in the request URL;
/// this component passes them through verbatim and performs no range
/// validation.
pub struct Bounds {
    /// Latitude of the reference point, in degrees, as decimal text.
    pub lat1: String,
    /// Longitude of the reference point, in degrees, as decimal text.
    pub lon1: String,
}

/// One aircraft's instantaneous state, after normalization.
///
/// The two coordinates are carried as the IEEE-754 bit pattern of the
/// 64-bit float the feed reported (bits zero encode 0.0, the default for an
/// absent or non-numeric field); a host that wants the float reads it back
/// from the bits.
#[derive(Clone, Debug, PartialEq)]
pub struct AircraftData {
    /// Unique transponder identifier; also the key of the snapshot map.
    pub hex: String,
    /// Transponder code; empty if absent.
    pub squawk: String,
    /// Flight identifier; empty if absent.
    pub callsign: String,
    /// True iff the altitude field holds the feed's ground sentinel.
    pub is_on_ground: bool,
    /// Latitude in degrees, as IEEE-754 bits; zero bits if absent.
    pub latitude_bits: u64,
    /// Longitude in degrees, as IEEE-754 bits; zero bits if absent.
    pub longitude_bits: u64,
    /// Heading in degrees, truncated; 0 if absent.
    pub heading: u32,
    /// Ground speed in knots, truncated; 0 if absent.
    pub ground_speed: u32,
    /// Altitude in feet; forced to 0 on ground, else truncated value or 0.
    pub altitude: i32,
    /// Aircraft type designator; empty if absent.
    pub model: String,
    /// Not derivable from this feed; always the sentinel "ZZZZ".
    pub origin: String,
    /// Not derivable from this feed; always the sentinel "ZZZZ".
    pub destination: String,
    /// Not populated by this feed; always 0.
    pub timestamp: u64,
}

/// The mathematical value of an [`AircraftData`] record: every string field
/// as its character sequence, every numeric field as itself.
pub ghost struct AircraftView {
    pub hex: Seq<char>,
    pub squawk: Seq<char>,
    pub callsign: Seq<char>,
    pub is_on_ground: bool,
    pub latitude_bits: u64,
    pub longitude_bits: u64,
    pub heading: u32,
    pub ground_speed: u32,
    pub altitude: i32,
    pub model: Seq<char>,
    pub origin: Seq<char>,
    pub destination: Seq<char>,
    pub timestamp: u64,
}

impl View for AircraftData {
    type V = AircraftView;

    open spec fn view(&self) -> AircraftView {
        AircraftView {
            hex: self.hex@,
            squawk: self.squawk@,
            callsign: self.callsign@,
            is_on_ground: self.is_on_ground,
            latitude_bits: self.latitude_bits,
            longitude_bits: self.longitude_bits,
            heading: self.heading,
            ground_speed: self.ground_speed,
            altitude: self.altitude,
            model: self.model@,
            origin: self.origin@,
            destination: self.destination@,
            timestamp: self.timestamp,
        }
    }
}

} // verus!
