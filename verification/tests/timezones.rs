use rust_flipit::time_zones::zone_minutes;
use rust_flipit::timezone_data::{build_available_locations, build_city_to_tz_map, load_entries};

const TABLE: &str = "; zones\nPacific Standard Time = Los Angeles, Seattle, PST8PDT, GMT-8, GMT,,\r\n\n  UTC=UTC\nno equals here\nTokyo Standard Time=Tokyo, Osaka\n";

#[test]
fn load_entries_reads_zones_and_cities() {
    let e = load_entries(TABLE);
    assert_eq!(
        e,
        vec![
            (
                "Pacific Standard Time".to_string(),
                vec!["Los Angeles".to_string(), "Seattle".to_string(), "GMT".to_string()]
            ),
            ("UTC".to_string(), vec!["UTC".to_string()]),
            ("Tokyo Standard Time".to_string(), vec!["Tokyo".to_string(), "Osaka".to_string()]),
        ]
    );
}

#[test]
fn load_entries_of_empty_text() {
    assert!(load_entries("").is_empty());
    assert_eq!(load_entries("A="), vec![("A".to_string(), vec![])]);
}

#[test]
fn available_locations_in_order() {
    let v = build_available_locations(TABLE);
    let names: Vec<(&str, &str)> =
        v.iter().map(|l| (l.display_name.as_str(), l.time_zone_id.as_str())).collect();
    assert_eq!(
        names,
        vec![
            ("Los Angeles", "Pacific Standard Time"),
            ("Seattle", "Pacific Standard Time"),
            ("GMT", "Pacific Standard Time"),
            ("UTC", "UTC"),
            ("Tokyo", "Tokyo Standard Time"),
            ("Osaka", "Tokyo Standard Time"),
        ]
    );
    assert!(v.iter().all(|l| l.current_time.is_empty() && !l.has_error));
}

#[test]
fn city_map_lowercases_and_later_wins() {
    let m = build_city_to_tz_map("A=New York, Paris\nB=new york\n");
    let mut m2 = m.clone();
    m2.sort();
    assert_eq!(
        m2,
        vec![("new york".to_string(), "B".to_string()), ("paris".to_string(), "A".to_string())]
    );
    let m3 = build_city_to_tz_map("Z=İstanbul, ΣΟΦΟΣ");
    assert_eq!(m3[0].0, "İstanbul".to_lowercase());
    assert_eq!(m3[1].0, "σοφος");
}

#[test]
fn known_zone_offsets() {
    assert_eq!(zone_minutes("Dateline Standard Time"), Some(-720));
    assert_eq!(zone_minutes("Newfoundland Standard Time"), Some(-210));
    assert_eq!(zone_minutes("India Standard Time"), Some(330));
    assert_eq!(zone_minutes("New Zealand Standard Time"), Some(720));
    assert_eq!(zone_minutes("utc"), None);
    assert_eq!(zone_minutes(""), None);
}
