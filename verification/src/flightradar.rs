//! The ADSB.lol provider: a request URL built once from a geographic
//! reference point, and the fetch-and-normalize pass that turns one HTTP
//! response into a snapshot map.
//!
//! The caller that owns the transport performs the GET on [`FlightRadar::base_url`]
//! and hands status and body to [`FlightRadar::aircraft_from_response`];
//! everything from the status check on is verified here.

use vstd::prelude::*;

use crate::acmap::AircraftMap;
use crate::error::Error;
use crate::json::as_array;
use crate::json::as_num_bits;
use crate::json::as_num_i32;
use crate::json::as_num_u32;
use crate::json::as_string;
use crate::json::get_field;
use crate::json::json_elements;
use crate::json::json_field;
use crate::json::json_num_bits;
use crate::json::json_num_i32;
use crate::json::json_num_u32;
use crate::json::json_string;
use crate::json::parse_json;
use crate::json::parsed_json;
use crate::text::strip;
use crate::text::strip_chars;
use crate::util::AircraftData;
use crate::util::AircraftView;
use crate::util::Bounds;

verus! {

/// The URL queried for a reference point: `<endpoint>/<lat>/<lon>/250`.
pub open spec fn url_of(lat1: Seq<char>, lon1: Seq<char>) -> Seq<char> {
    "https://api.adsb.lol/v2/point/"@ + lat1 + "/"@ + lon1 + "/250"@
}

/// An HTTP status this provider accepts a body under.
pub open spec fn http_success(status: u16) -> bool {
    200 <= status < 300
}

/// A string field of one response element: the characters of the value under
/// `key` when that value is a JSON string, with spaces and quotes removed;
/// the empty string when the field is absent or not a string.
pub open spec fn spec_clean_field(v: serde_json::Value, key: Seq<char>) -> Seq<char> {
    match json_field(v, key) {
        Option::Some(f) => match json_string(f) {
            Option::Some(s) => strip_chars(s),
            Option::None => Seq::empty(),
        },
        Option::None => Seq::empty(),
    }
}

/// A numeric field truncated to `u32`; 0 when absent or not a number.
pub open spec fn spec_num_u32_field(v: serde_json::Value, key: Seq<char>) -> u32 {
    match json_field(v, key) {
        Option::Some(f) => match json_num_u32(f) {
            Option::Some(n) => n,
            Option::None => 0,
        },
        Option::None => 0,
    }
}

/// A numeric field truncated to `i32`; 0 when absent or not a number.
pub open spec fn spec_num_i32_field(v: serde_json::Value, key: Seq<char>) -> i32 {
    match json_field(v, key) {
        Option::Some(f) => match json_num_i32(f) {
            Option::Some(n) => n,
            Option::None => 0,
        },
        Option::None => 0,
    }
}

/// A numeric field as IEEE-754 bits; bits zero (the number 0.0) when absent
/// or not a number.
pub open spec fn spec_num_bits_field(v: serde_json::Value, key: Seq<char>) -> u64 {
    match json_field(v, key) {
        Option::Some(f) => match json_num_bits(f) {
            Option::Some(n) => n,
            Option::None => 0,
        },
        Option::None => 0,
    }
}

/// True iff the element's raw altitude field is exactly the string
/// "ground", the feed's sentinel for a grounded aircraft.
pub open spec fn spec_is_ground(v: serde_json::Value) -> bool {
    match json_field(v, "alt_baro"@) {
        Option::Some(f) => json_string(f) == Option::Some("ground"@),
        Option::None => false,
    }
}

/// The altitude rule: on ground it is forced to 0, otherwise it is the
/// truncated numeric altitude, 0 when absent or non-numeric.
pub open spec fn spec_altitude(v: serde_json::Value) -> i32 {
    if spec_is_ground(v) {
        0
    } else {
        spec_num_i32_field(v, "alt_baro"@)
    }
}

/// The record one response element normalizes to.
pub open spec fn spec_normalize(v: serde_json::Value) -> AircraftView {
    AircraftView {
        hex: spec_clean_field(v, "hex"@),
        squawk: spec_clean_field(v, "squawk"@),
        callsign: spec_clean_field(v, "flight"@),
        is_on_ground: spec_is_ground(v),
        latitude_bits: spec_num_bits_field(v, "lat"@),
        longitude_bits: spec_num_bits_field(v, "lon"@),
        heading: spec_num_u32_field(v, "track"@),
        ground_speed: spec_num_u32_field(v, "gs"@),
        altitude: spec_altitude(v),
        model: spec_clean_field(v, "t"@),
        origin: "ZZZZ"@,
        destination: "ZZZZ"@,
        timestamp: 0,
    }
}

/// The snapshot a list of elements normalizes to: every element yields one
/// record, keyed by its own hex field; under a repeated key the later
/// element wins.
pub open spec fn spec_ac_map(elems: Seq<serde_json::Value>) -> Map<Seq<char>, AircraftView>
    decreases elems.len(),
{
    if elems.len() == 0 {
        Map::empty()
    } else {
        spec_ac_map(elems.drop_last()).insert(
            spec_normalize(elems.last()).hex,
            spec_normalize(elems.last()),
        )
    }
}

/// What one response yields: a non-success status is an `HttpStatus` error;
/// a body that is not valid JSON, has no "ac" field, or whose "ac" field is
/// not an array is a `Decode` error; otherwise the normalized snapshot.
pub open spec fn spec_response(status: u16, body: Seq<char>) -> Result<
    Map<Seq<char>, AircraftView>,
    Error,
> {
    if !http_success(status) {
        Result::Err(Error::HttpStatus(status))
    } else {
        match parsed_json(body) {
            Option::None => Result::Err(Error::Decode),
            Option::Some(root) => match json_field(root, "ac"@) {
                Option::None => Result::Err(Error::Decode),
                Option::Some(ac) => match json_elements(ac) {
                    Option::None => Result::Err(Error::Decode),
                    Option::Some(elems) => Result::Ok(spec_ac_map(elems)),
                },
            },
        }
    }
}

/// Extracts, defaults and normalizes one string field.
fn clean_field(v: &serde_json::Value, key: &str) -> (r: String)
    ensures
        r@ == spec_clean_field(*v, key@),
{
    match get_field(v, key) {
        Option::Some(f) => match as_string(&f) {
            Option::Some(s) => strip(s.as_str()),
            Option::None => String::new(),
        },
        Option::None => String::new(),
    }
}

/// Extracts and defaults one numeric field as a truncated `u32`.
fn num_u32_field(v: &serde_json::Value, key: &str) -> (r: u32)
    ensures
        r == spec_num_u32_field(*v, key@),
{
    match get_field(v, key) {
        Option::Some(f) => match as_num_u32(&f) {
            Option::Some(n) => n,
            Option::None => 0,
        },
        Option::None => 0,
    }
}

/// Extracts and defaults one numeric field as a truncated `i32`.
fn num_i32_field(v: &serde_json::Value, key: &str) -> (r: i32)
    ensures
        r == spec_num_i32_field(*v, key@),
{
    match get_field(v, key) {
        Option::Some(f) => match as_num_i32(&f) {
            Option::Some(n) => n,
            Option::None => 0,
        },
        Option::None => 0,
    }
}

/// Extracts and defaults one numeric field as IEEE-754 bits.
fn num_bits_field(v: &serde_json::Value, key: &str) -> (r: u64)
    ensures
        r == spec_num_bits_field(*v, key@),
{
    match get_field(v, key) {
        Option::Some(f) => match as_num_bits(&f) {
            Option::Some(n) => n,
            Option::None => 0,
        },
        Option::None => 0,
    }
}

/// Tests the element's altitude field against the ground sentinel.
fn is_ground(v: &serde_json::Value) -> (r: bool)
    ensures
        r == spec_is_ground(*v),
{
    match get_field(v, "alt_baro") {
        Option::Some(f) => match as_string(&f) {
            Option::Some(s) => {
                let sentinel = String::from_str("ground");
                s == sentinel
            },
            Option::None => false,
        },
        Option::None => false,
    }
}

/// Normalizes one response element into a record. Every field degrades
/// independently to its documented default; a malformed element never
/// fails, it yields a record of defaults.
pub fn normalize_aircraft(v: &serde_json::Value) -> (r: AircraftData)
    ensures
        r@ == spec_normalize(*v),
{
    let on_ground = is_ground(v);
    AircraftData {
        hex: clean_field(v, "hex"),
        squawk: clean_field(v, "squawk"),
        callsign: clean_field(v, "flight"),
        is_on_ground: on_ground,
        latitude_bits: num_bits_field(v, "lat"),
        longitude_bits: num_bits_field(v, "lon"),
        heading: num_u32_field(v, "track"),
        ground_speed: num_u32_field(v, "gs"),
        altitude: if on_ground {
            0
        } else {
            num_i32_field(v, "alt_baro")
        },
        model: clean_field(v, "t"),
        origin: String::from_str("ZZZZ"),
        destination: String::from_str("ZZZZ"),
        timestamp: 0,
    }
}

/// The ADSB.lol aircraft data provider. It holds only its fixed request
/// URL, built once at construction; each snapshot is computed statelessly
/// from one response.
pub struct FlightRadar {
    base_url: String,
}

impl FlightRadar {
    /// The characters of the stored request URL.
    pub closed spec fn url(&self) -> Seq<char> {
        self.base_url@
    }

    /// Builds a provider for a reference point. The coordinates are passed
    /// through verbatim, with no range validation, and the radius is fixed.
    /// Never fails and performs no request.
    pub fn new(radar_loc: &Bounds) -> (r: Self)
        ensures
            r.url() == url_of(radar_loc.lat1@, radar_loc.lon1@),
    {
        let mut url = String::from_str("https://api.adsb.lol/v2/point/");
        url.append(radar_loc.lat1.as_str());
        url.append("/");
        url.append(radar_loc.lon1.as_str());
        url.append("/250");
        FlightRadar { base_url: url }
    }

    /// The URL one GET per snapshot is issued against.
    pub fn base_url(&self) -> (r: &str)
        ensures
            r@ == self.url(),
    {
        self.base_url.as_str()
    }

    /// The provider's stable human-readable label.
    pub fn get_name(&self) -> (r: &'static str)
        ensures
            r@ == "ADSB.lol"@,
    {
        "ADSB.lol"
    }

    /// Normalizes one HTTP response into the snapshot map, exactly as
    /// [`spec_response`] states: errors abort the whole call before any
    /// entry is produced, per-element problems degrade to defaults.
    pub fn aircraft_from_response(&self, status: u16, body: &str) -> (r: Result<
        AircraftMap,
        Error,
    >)
        ensures
            match r {
                Result::Ok(m) => m.wf() && spec_response(status, body@) == Result::<
                    Map<Seq<char>, AircraftView>,
                    Error,
                >::Ok(m@),
                Result::Err(e) => spec_response(status, body@) == Result::<
                    Map<Seq<char>, AircraftView>,
                    Error,
                >::Err(e),
            },
    {
        if status < 200 || status >= 300 {
            return Result::Err(Error::HttpStatus(status));
        }
        let root = match parse_json(body) {
            Option::Some(v) => v,
            Option::None => {
                return Result::Err(Error::Decode);
            },
        };
        let ac = match get_field(&root, "ac") {
            Option::Some(v) => v,
            Option::None => {
                return Result::Err(Error::Decode);
            },
        };
        let arr = match as_array(&ac) {
            Option::Some(a) => a,
            Option::None => {
                return Result::Err(Error::Decode);
            },
        };
        let mut map = AircraftMap::new();
        let n = arr.len();
        let mut i: usize = 0;
        while i < n
            invariant
                n == arr@.len(),
                i <= n,
                map.wf(),
                map@ == spec_ac_map(arr@.take(i as int)),
            decreases n - i,
        {
            let rec = normalize_aircraft(&arr[i]);
            let key = rec.hex.clone();
            map.insert(key, rec);
            proof {
                assert(arr@.take(i as int + 1).drop_last() =~= arr@.take(i as int));
                assert(arr@.take(i as int + 1).last() == arr@[i as int]);
            }
            i = i + 1;
        }
        proof {
            assert(arr@.take(n as int) =~= arr@);
        }
        Result::Ok(map)
    }
}

} // verus!
