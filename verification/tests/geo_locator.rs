use bus_tracker::geo_locator::{derive_labels, derive_position, locate, render_labels, GeoRecord, Location};
use bus_tracker::names::NameSet;
use bus_tracker::position::{Position, Scalar};

fn names(pairs: &[(&str, &str)]) -> NameSet {
    let mut set = NameSet::new();
    for (locale, name) in pairs {
        set.insert(locale, name);
    }
    set
}

fn place(latitude: f64, longitude: f64) -> Option<Location> {
    Some(Location {
        latitude: Some(Scalar::from_bits(latitude.to_bits())),
        longitude: Some(Scalar::from_bits(longitude.to_bits())),
    })
}

fn urbana() -> GeoRecord {
    GeoRecord {
        city: Some(names(&[("en", "Urbana")])),
        subdivisions: vec![names(&[("en", "Illinois")])],
        postal: Some("61801".to_string()),
        location: place(40.11, -88.20),
    }
}

fn bare() -> GeoRecord {
    GeoRecord { city: None, subdivisions: Vec::new(), postal: None, location: None }
}

#[test]
fn urbana_record_gives_its_position() {
    let position = derive_position(&urbana());
    assert_eq!(f64::from_bits(position.latitude.to_bits()), 40.11);
    assert_eq!(f64::from_bits(position.longitude.to_bits()), -88.20);
    assert!(!position.is_unknown());
}

#[test]
fn urbana_record_gives_its_labels_in_order() {
    let labels = derive_labels(&urbana());
    assert_eq!(labels, vec!["Urbana".to_string(), "Illinois".to_string(), "61801".to_string()]);
}

#[test]
fn urbana_record_renders_with_comma_and_space() {
    let labels = derive_labels(&urbana());
    assert_eq!(render_labels(&labels), "Urbana, Illinois, 61801");
}

#[test]
fn lookup_miss_gives_unknown_position_and_no_labels() {
    let place = locate(&None);
    assert_eq!(place.position, Position::unknown());
    assert_eq!(place.position.latitude.to_bits(), 0);
    assert_eq!(place.position.longitude.to_bits(), 0);
    assert!(place.labels.is_empty());
    assert_eq!(render_labels(&place.labels), "");
}

#[test]
fn located_record_gives_what_the_derivations_give() {
    let place = locate(&Some(urbana()));
    assert_eq!(place.position, derive_position(&urbana()));
    assert_eq!(place.labels, derive_labels(&urbana()));
}

#[test]
fn record_without_location_is_at_the_unknown_position() {
    let mut record = urbana();
    record.location = None;
    assert_eq!(derive_position(&record), Position::unknown());
    assert_eq!(derive_position(&bare()), Position::unknown());
}

#[test]
fn location_without_one_coordinate_is_at_the_unknown_position() {
    let mut record = urbana();
    record.location = Some(Location { latitude: Some(Scalar::from_bits(40.11f64.to_bits())), longitude: None });
    assert_eq!(derive_position(&record), Position::unknown());
    record.location = Some(Location { latitude: None, longitude: Some(Scalar::from_bits((-88.20f64).to_bits())) });
    assert_eq!(derive_position(&record), Position::unknown());
    record.location = Some(Location { latitude: None, longitude: None });
    assert_eq!(derive_position(&record), Position::unknown());
}

#[test]
fn coordinates_are_kept_bit_for_bit() {
    let mut record = bare();
    record.location = place(-0.0, 179.99999999999997);
    let position = derive_position(&record);
    assert_eq!(position.latitude.to_bits(), (-0.0f64).to_bits());
    assert_eq!(position.longitude.to_bits(), 179.99999999999997f64.to_bits());
    assert!(!position.is_unknown());
}

#[test]
fn record_without_parts_has_no_labels_and_an_empty_line() {
    let labels = derive_labels(&bare());
    assert!(labels.is_empty());
    assert_eq!(render_labels(&labels), "");
}

#[test]
fn subdivisions_keep_their_order() {
    let record = GeoRecord {
        city: Some(names(&[("en", "Oxford")])),
        subdivisions: vec![names(&[("en", "England")]), names(&[("en", "Oxfordshire")])],
        postal: Some("OX1".to_string()),
        location: None,
    };
    let labels = derive_labels(&record);
    assert_eq!(labels, vec!["Oxford", "England", "Oxfordshire", "OX1"]);
    assert_eq!(render_labels(&labels), "Oxford, England, Oxfordshire, OX1");
}

#[test]
fn only_the_default_locale_is_shown() {
    let record = GeoRecord {
        city: Some(names(&[("de", "Mailand"), ("en", "Milan"), ("fr", "Milan (fr)")])),
        subdivisions: vec![names(&[("it", "Lombardia")]), names(&[("en", "Province of Milan")])],
        postal: None,
        location: None,
    };
    assert_eq!(derive_labels(&record), vec!["Milan", "Province of Milan"]);
}

#[test]
fn a_name_set_without_the_default_locale_shows_nothing() {
    let record = GeoRecord {
        city: Some(names(&[("ja", "Tokyo (ja)"), ("zh-CN", "Tokyo (zh)")])),
        subdivisions: vec![NameSet::new()],
        postal: Some("100-0001".to_string()),
        location: None,
    };
    assert_eq!(derive_labels(&record), vec!["100-0001"]);
}

#[test]
fn missing_parts_contribute_nothing() {
    let mut record = urbana();
    record.city = None;
    assert_eq!(derive_labels(&record), vec!["Illinois", "61801"]);
    let mut record = urbana();
    record.subdivisions = Vec::new();
    assert_eq!(derive_labels(&record), vec!["Urbana", "61801"]);
    let mut record = urbana();
    record.postal = None;
    assert_eq!(derive_labels(&record), vec!["Urbana", "Illinois"]);
}

#[test]
fn deriving_twice_gives_the_same() {
    let record = urbana();
    assert_eq!(derive_position(&record), derive_position(&record));
    assert_eq!(derive_labels(&record), derive_labels(&record));
    assert_eq!(render_labels(&derive_labels(&record)), render_labels(&derive_labels(&record)));
}

#[test]
fn one_label_renders_without_separator() {
    assert_eq!(render_labels(&vec!["Urbana".to_string()]), "Urbana");
}

#[test]
fn two_labels_render_with_one_separator() {
    assert_eq!(render_labels(&vec!["Urbana".to_string(), "61801".to_string()]), "Urbana, 61801");
}

#[test]
fn empty_labels_are_rendered_too() {
    assert_eq!(render_labels(&vec![String::new(), "x".to_string(), String::new()]), ", x, ");
}

#[test]
fn name_set_finds_what_was_inserted() {
    let set = names(&[("en", "Urbana"), ("fr", "Urbana (fr)")]);
    assert_eq!(set.get("en"), Some(&"Urbana".to_string()));
    assert_eq!(set.get("fr"), Some(&"Urbana (fr)".to_string()));
    assert_eq!(set.get("de"), None);
    assert_eq!(NameSet::new().get("en"), None);
}

#[test]
fn name_set_keeps_the_last_name_of_a_locale() {
    let set = names(&[("en", "Urbanna"), ("fr", "Urbana (fr)"), ("en", "Urbana")]);
    assert_eq!(set.get("en"), Some(&"Urbana".to_string()));
    assert_eq!(set.get("fr"), Some(&"Urbana (fr)".to_string()));
}

#[test]
fn name_set_tells_locales_apart_exactly() {
    let set = names(&[("en-US", "Urbana"), ("EN", "URBANA")]);
    assert_eq!(set.get("en"), None);
    assert_eq!(set.get("EN"), Some(&"URBANA".to_string()));
}

#[test]
fn unknown_position_is_zero_zero() {
    let unknown = Position::unknown();
    assert_eq!(f64::from_bits(unknown.latitude.to_bits()), 0.0);
    assert_eq!(f64::from_bits(unknown.longitude.to_bits()), 0.0);
    assert!(unknown.is_unknown());
    assert_eq!(Position::default(), unknown);
    assert_eq!(Scalar::zero().to_bits(), 0);
}

#[test]
fn position_keeps_its_coordinates() {
    let position = Position::new(Scalar::from_bits(1.5f64.to_bits()), Scalar::from_bits(0));
    assert_eq!(f64::from_bits(position.latitude.to_bits()), 1.5);
    assert_eq!(position.longitude, Scalar::zero());
    assert!(!position.is_unknown());
}
