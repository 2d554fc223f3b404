use flightradar::error::Error;
use flightradar::flightradar::FlightRadar;
use flightradar::util::Bounds;

fn provider() -> FlightRadar {
    FlightRadar::new(&Bounds { lat1: String::from("40.5"), lon1: String::from("-73.9") })
}

#[test]
fn builds_url_from_bounds() {
    let p = provider();
    assert_eq!(p.base_url(), "https://api.adsb.lol/v2/point/40.5/-73.9/250");
}

#[test]
fn reports_provider_name() {
    assert_eq!(provider().get_name(), "ADSB.lol");
}

#[test]
fn full_record_normalizes() {
    let body = r#"{"ac":[{"hex":"a1b2c3","flight":"UAL123","squawk":"1200","alt_baro":35000,"lat":40.5,"lon":-73.9,"track":270.5,"gs":450.2,"t":"B738"}]}"#;
    let map = provider().aircraft_from_response(200, body).unwrap();
    assert_eq!(map.len(), 1);
    let a = map.get("a1b2c3").unwrap();
    assert_eq!(a.hex, "a1b2c3");
    assert_eq!(a.callsign, "UAL123");
    assert_eq!(a.squawk, "1200");
    assert_eq!(a.altitude, 35000);
    assert!(!a.is_on_ground);
    assert_eq!(a.heading, 270);
    assert_eq!(a.ground_speed, 450);
    assert_eq!(a.model, "B738");
    assert_eq!(a.origin, "ZZZZ");
    assert_eq!(a.destination, "ZZZZ");
    assert_eq!(a.timestamp, 0);
    assert_eq!(f64::from_bits(a.latitude_bits), 40.5);
    assert_eq!(f64::from_bits(a.longitude_bits), -73.9);
}

#[test]
fn ground_sentinel_forces_altitude_zero() {
    let body = r#"{"ac":[{"hex":"x1","alt_baro":"ground"}]}"#;
    let map = provider().aircraft_from_response(200, body).unwrap();
    assert_eq!(map.len(), 1);
    let a = map.get("x1").unwrap();
    assert!(a.is_on_ground);
    assert_eq!(a.altitude, 0);
    assert_eq!(a.heading, 0);
    assert_eq!(a.ground_speed, 0);
    assert_eq!(a.latitude_bits, 0);
    assert_eq!(a.longitude_bits, 0);
    assert_eq!(f64::from_bits(a.latitude_bits), 0.0);
    assert_eq!(a.model, "");
    assert_eq!(a.squawk, "");
    assert_eq!(a.callsign, "");
}

#[test]
fn missing_model_is_empty_string() {
    let body = r#"{"ac":[{"hex":"abc","alt_baro":1000}]}"#;
    let map = provider().aircraft_from_response(200, body).unwrap();
    let a = map.get("abc").unwrap();
    assert_eq!(a.model, "");
}

#[test]
fn spaces_and_quotes_are_stripped() {
    let body = "{\"ac\":[{\"hex\":\"a b\",\"flight\":\"N 123 AB\",\"t\":\"B 7\\\"38\"}]}";
    let map = provider().aircraft_from_response(200, body).unwrap();
    // The key is the stripped hex, the same extraction as the record's own.
    let a = map.get("ab").unwrap();
    assert_eq!(a.hex, "ab");
    assert_eq!(a.callsign, "N123AB");
    assert_eq!(a.model, "B738");
    assert!(map.get("a b").is_none());
}

#[test]
fn snapshot_has_one_entry_per_element() {
    let body = r#"{"ac":[{"hex":"h1"},{"hex":"h2","alt_baro":5},{"hex":"h3","t":"A320"}]}"#;
    let map = provider().aircraft_from_response(200, body).unwrap();
    assert_eq!(map.len(), 3);
    assert!(map.get("h1").is_some());
    assert!(map.get("h2").is_some());
    assert_eq!(map.get("h3").unwrap().model, "A320");
}

#[test]
fn repeated_hex_keeps_later_element() {
    let body = r#"{"ac":[{"hex":"dup","t":"A319"},{"hex":"dup","t":"A321"}]}"#;
    let map = provider().aircraft_from_response(200, body).unwrap();
    assert_eq!(map.len(), 1);
    assert_eq!(map.get("dup").unwrap().model, "A321");
}

#[test]
fn numeric_fields_truncate_and_default() {
    let body = r#"{"ac":[{"hex":"n1","alt_baro":-50.7,"track":359.9,"gs":"fast","lat":1.5}]}"#;
    let map = provider().aircraft_from_response(200, body).unwrap();
    let a = map.get("n1").unwrap();
    assert_eq!(a.altitude, -50);
    assert_eq!(a.heading, 359);
    assert_eq!(a.ground_speed, 0);
    assert_eq!(f64::from_bits(a.latitude_bits), 1.5);
    assert_eq!(a.longitude_bits, 0);
}

#[test]
fn non_string_text_fields_default_to_empty() {
    let body = r#"{"ac":[{"hex":"n2","squawk":1200,"flight":null,"t":7}]}"#;
    let map = provider().aircraft_from_response(200, body).unwrap();
    let a = map.get("n2").unwrap();
    assert_eq!(a.squawk, "");
    assert_eq!(a.callsign, "");
    assert_eq!(a.model, "");
}

#[test]
fn missing_hex_still_yields_one_entry() {
    let body = r#"{"ac":[{"alt_baro":100}]}"#;
    let map = provider().aircraft_from_response(200, body).unwrap();
    assert_eq!(map.len(), 1);
    let a = map.get("").unwrap();
    assert_eq!(a.hex, "");
    assert_eq!(a.altitude, 100);
}

#[test]
fn empty_list_yields_empty_map() {
    let map = provider().aircraft_from_response(200, r#"{"ac":[]}"#).unwrap();
    assert_eq!(map.len(), 0);
    assert!(map.get("anything").is_none());
}

#[test]
fn identical_responses_yield_equal_snapshots() {
    let body = r#"{"ac":[{"hex":"h1","flight":"UAL1"},{"hex":"h2","alt_baro":"ground"}]}"#;
    let p = provider();
    let m1 = p.aircraft_from_response(200, body).unwrap();
    let m2 = p.aircraft_from_response(200, body).unwrap();
    assert_eq!(m1.len(), m2.len());
    for key in ["h1", "h2"] {
        assert_eq!(m1.get(key).unwrap(), m2.get(key).unwrap());
    }
}

#[test]
fn http_error_status_propagates() {
    let body = r#"{"ac":[{"hex":"h1"}]}"#;
    let r = provider().aircraft_from_response(503, body);
    assert_eq!(r.unwrap_err(), Error::HttpStatus(503));
}

#[test]
fn only_success_statuses_are_accepted() {
    let body = r#"{"ac":[]}"#;
    let p = provider();
    assert!(p.aircraft_from_response(200, body).is_ok());
    assert!(p.aircraft_from_response(204, body).is_ok());
    assert!(p.aircraft_from_response(299, body).is_ok());
    assert_eq!(p.aircraft_from_response(199, body).unwrap_err(), Error::HttpStatus(199));
    assert_eq!(p.aircraft_from_response(300, body).unwrap_err(), Error::HttpStatus(300));
    assert_eq!(p.aircraft_from_response(404, body).unwrap_err(), Error::HttpStatus(404));
}

#[test]
fn invalid_json_is_a_decode_error() {
    let r = provider().aircraft_from_response(200, "not json at all");
    assert_eq!(r.unwrap_err(), Error::Decode);
}

#[test]
fn missing_aircraft_list_is_a_decode_error() {
    let r = provider().aircraft_from_response(200, r#"{"total":3}"#);
    assert_eq!(r.unwrap_err(), Error::Decode);
}

#[test]
fn non_array_aircraft_list_is_a_decode_error() {
    let r = provider().aircraft_from_response(200, r#"{"ac":"none"}"#);
    assert_eq!(r.unwrap_err(), Error::Decode);
}

#[test]
fn error_labels_are_stable() {
    assert_eq!(Error::Transport.label(), "transport error");
    assert_eq!(Error::HttpStatus(503).label(), "http status error");
    assert_eq!(Error::Decode.label(), "decode error");
}

#[test]
fn normalize_single_element_directly() {
    let v: serde_json::Value =
        serde_json::from_str(r#"{"hex":"c0ffee","alt_baro":"ground","gs":12.9}"#).unwrap();
    let a = flightradar::flightradar::normalize_aircraft(&v);
    assert_eq!(a.hex, "c0ffee");
    assert!(a.is_on_ground);
    assert_eq!(a.altitude, 0);
    assert_eq!(a.ground_speed, 12);
}

#[test]
fn strip_removes_only_spaces_and_quotes() {
    assert_eq!(flightradar::text::strip("N 123 AB"), "N123AB");
    assert_eq!(flightradar::text::strip("\"quoted\""), "quoted");
    assert_eq!(flightradar::text::strip("clean"), "clean");
    assert_eq!(flightradar::text::strip("  "), "");
    assert_eq!(flightradar::text::strip(""), "");
}

fn record(hex: &str, altitude: i32) -> flightradar::util::AircraftData {
    flightradar::util::AircraftData {
        hex: String::from(hex),
        squawk: String::new(),
        callsign: String::new(),
        is_on_ground: false,
        latitude_bits: 0,
        longitude_bits: 0,
        heading: 0,
        ground_speed: 0,
        altitude,
        model: String::new(),
        origin: String::from("ZZZZ"),
        destination: String::from("ZZZZ"),
        timestamp: 0,
    }
}

#[test]
fn map_insert_replaces_existing_key() {
    let mut map = flightradar::acmap::AircraftMap::new();
    assert_eq!(map.len(), 0);
    map.insert(String::from("k1"), record("k1", 100));
    map.insert(String::from("k2"), record("k2", 200));
    assert_eq!(map.len(), 2);
    map.insert(String::from("k1"), record("k1", 300));
    assert_eq!(map.len(), 2);
    assert_eq!(map.get("k1").unwrap().altitude, 300);
    assert_eq!(map.get("k2").unwrap().altitude, 200);
    assert!(map.get("k3").is_none());
}
