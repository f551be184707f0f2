use gosquared_component::dict::StringMap;
use gosquared_component::helpers::{
    format_last_seen_as_iso, insert_if_nonempty, offset_minutes, parse_language,
    timezone_offset_at, timezone_offset_from_string, unix_seconds,
};

#[test]
fn insert_if_nonempty_works() {
    let mut map = StringMap::new();
    insert_if_nonempty(&mut map, "key", "value");
    assert_eq!(map.get("key"), Some(&"value".to_string()));

    insert_if_nonempty(&mut map, "empty", "");
    assert!(!map.contains_key("empty"));
}

#[test]
fn parse_language_works() {
    assert_eq!(parse_language("en-US"), Some("en".to_string()));
    assert_eq!(parse_language("fr-FR"), Some("fr".to_string()));
    assert_eq!(parse_language("de"), Some("de".to_string()));
    assert_eq!(parse_language(""), Some("".to_string()));
}

#[test]
fn parse_language_stops_at_the_first_hyphen() {
    assert_eq!(parse_language("zh-Hant-TW"), Some("zh".to_string()));
    assert_eq!(parse_language("-US"), Some("".to_string()));
    assert_eq!(parse_language("en-"), Some("en".to_string()));
    assert_eq!(parse_language("-"), Some("".to_string()));
    assert_eq!(parse_language("fr_CA"), Some("fr_CA".to_string()));
    assert_eq!(parse_language("pt\u{2011}BR"), Some("pt\u{2011}BR".to_string()));
}

#[test]
fn parse_language_agrees_with_split() {
    for locale in ["en-US", "", "-", "--", "a-b-c", "de", "é-è", "日本語-JP", " en - US "] {
        let expected = locale.split('-').next().map(|s| s.to_string());
        assert_eq!(parse_language(locale), expected);
    }
}

#[test]
fn insert_if_nonempty_skips_blank_values() {
    let mut map = StringMap::new();
    insert_if_nonempty(&mut map, "a", "   ");
    insert_if_nonempty(&mut map, "b", "\t\n");
    insert_if_nonempty(&mut map, "c", "\u{a0}\u{3000}");
    assert!(map.is_empty());
    assert_eq!(map.len(), 0);
}

#[test]
fn insert_if_nonempty_keeps_the_value_untrimmed() {
    let mut map = StringMap::new();
    insert_if_nonempty(&mut map, "plan", "  pro ");
    assert_eq!(map.get("plan"), Some(&"  pro ".to_string()));
    assert_eq!(map.len(), 1);
    insert_if_nonempty(&mut map, "plan", "team");
    assert_eq!(map.get("plan"), Some(&"team".to_string()));
    assert_eq!(map.len(), 1);
    insert_if_nonempty(&mut map, "plan", " ");
    assert_eq!(map.get("plan"), Some(&"team".to_string()));
}

#[test]
fn timezone_offset_of_a_zone_without_daylight_saving() {
    assert_eq!(timezone_offset_from_string("Asia/Tokyo"), Some(540));
    assert_eq!(timezone_offset_from_string("Asia/Kolkata"), Some(330));
    assert_eq!(timezone_offset_from_string("America/Phoenix"), Some(-420));
    assert_eq!(timezone_offset_from_string("UTC"), Some(0));
    assert_eq!(timezone_offset_from_string("Etc/GMT+2"), Some(-120));
}

#[test]
fn timezone_offset_of_a_zone_with_daylight_saving_is_one_of_two() {
    let paris = timezone_offset_from_string("Europe/Paris");
    assert!(paris == Some(60) || paris == Some(120));
    let new_york = timezone_offset_from_string("America/New_York");
    assert!(new_york == Some(-300) || new_york == Some(-240));
}

#[test]
fn timezone_offset_from_utc_hours() {
    assert_eq!(timezone_offset_from_string("UTC+2"), Some(120));
    assert_eq!(timezone_offset_from_string("UTC-11"), Some(-660));
    assert_eq!(timezone_offset_from_string("UTC5"), Some(300));
    assert_eq!(timezone_offset_from_string("UTC+0"), Some(0));
    assert_eq!(timezone_offset_from_string("UTC-0"), Some(0));
    assert_eq!(timezone_offset_from_string("UTC+05"), Some(300));
}

#[test]
fn timezone_offset_of_unknown_text_is_absent() {
    assert_eq!(timezone_offset_from_string(""), None);
    assert_eq!(timezone_offset_from_string("Mars/Olympus"), None);
    assert_eq!(timezone_offset_from_string("UTC+"), None);
    assert_eq!(timezone_offset_from_string("UTC-"), None);
    assert_eq!(timezone_offset_from_string("UTC+2h"), None);
    assert_eq!(timezone_offset_from_string("UTC +2"), None);
    assert_eq!(timezone_offset_from_string("UTC+2.5"), None);
    assert_eq!(timezone_offset_from_string("utc+2"), None);
    assert_eq!(timezone_offset_from_string("GMT+2"), None);
    assert_eq!(timezone_offset_from_string("europe/paris"), None);
}

#[test]
fn timezone_offset_too_large_for_minutes_is_absent() {
    assert_eq!(timezone_offset_from_string("UTC+35791394"), Some(2147483640));
    assert_eq!(timezone_offset_from_string("UTC+35791395"), None);
    assert_eq!(timezone_offset_from_string("UTC-35791394"), Some(-2147483640));
    assert_eq!(timezone_offset_from_string("UTC-35791395"), None);
    assert_eq!(timezone_offset_from_string("UTC+2147483648"), None);
    assert_eq!(timezone_offset_from_string("UTC+99999999999999999999"), None);
}

#[test]
fn offset_minutes_rounds_towards_zero() {
    assert_eq!(offset_minutes(Some(3600), "anything"), Some(60));
    assert_eq!(offset_minutes(Some(-3600), "UTC+2"), Some(-60));
    assert_eq!(offset_minutes(Some(59), ""), Some(0));
    assert_eq!(offset_minutes(Some(-59), ""), Some(0));
    assert_eq!(offset_minutes(Some(-61), ""), Some(-1));
    assert_eq!(offset_minutes(Some(119), ""), Some(1));
    assert_eq!(offset_minutes(Some(i32::MIN), ""), Some(i32::MIN / 60));
    assert_eq!(offset_minutes(Some(i32::MAX), ""), Some(i32::MAX / 60));
    assert_eq!(offset_minutes(None, "UTC-3"), Some(-180));
    assert_eq!(offset_minutes(None, "Asia/Tokyo"), None);
}

#[test]
fn format_last_seen_of_a_positive_time() {
    assert_eq!(
        format_last_seen_as_iso(1431648000),
        Some("2015-05-15T00:00:00+00:00".to_string())
    );
    assert_eq!(format_last_seen_as_iso(1), Some("1970-01-01T00:00:01+00:00".to_string()));
    assert_eq!(
        format_last_seen_as_iso(253_402_300_799),
        Some("9999-12-31T23:59:59+00:00".to_string())
    );
    assert_eq!(
        format_last_seen_as_iso(253_402_300_800),
        Some("+10000-01-01T00:00:00+00:00".to_string())
    );
}

#[test]
fn format_last_seen_of_no_time_is_absent() {
    assert_eq!(format_last_seen_as_iso(0), None);
    assert_eq!(format_last_seen_as_iso(-1), None);
    assert_eq!(format_last_seen_as_iso(i64::MIN), None);
}

#[test]
fn format_last_seen_beyond_the_calendar_is_absent() {
    assert_eq!(format_last_seen_as_iso(i64::MAX), None);
}

#[test]
fn timezone_offset_at_follows_daylight_saving() {
    assert_eq!(timezone_offset_at("Europe/Paris", 1_700_000_000), Some(60));
    assert_eq!(timezone_offset_at("Europe/Paris", 1_720_000_000), Some(120));
    assert_eq!(timezone_offset_at("America/New_York", 1_700_000_000), Some(-300));
    assert_eq!(timezone_offset_at("America/New_York", 1_720_000_000), Some(-240));
    assert_eq!(timezone_offset_at("Australia/Sydney", 1_700_000_000), Some(660));
    assert_eq!(timezone_offset_at("Australia/Sydney", 1_720_000_000), Some(600));
}

#[test]
fn timezone_offset_at_the_hour_of_a_change() {
    // Paris went from +1 to +2 on 31 March 2024 at 01:00 UTC.
    assert_eq!(timezone_offset_at("Europe/Paris", 1_711_846_799), Some(60));
    assert_eq!(timezone_offset_at("Europe/Paris", 1_711_846_800), Some(120));
}

#[test]
fn timezone_offset_at_old_and_far_instants() {
    assert_eq!(timezone_offset_at("Asia/Tokyo", 0), Some(540));
    assert_eq!(timezone_offset_at("Asia/Tokyo", -1), Some(540));
    assert_eq!(timezone_offset_at("Asia/Tokyo", 253_402_300_799), Some(540));
    assert_eq!(timezone_offset_at("UTC", 0), Some(0));
    assert_eq!(timezone_offset_at("America/Phoenix", 1_700_000_000), Some(-420));
    // Local mean time of Paris before 1911 was 9 minutes and 21 seconds.
    assert_eq!(timezone_offset_at("Europe/Paris", -3_000_000_000), Some(9));
}

#[test]
fn timezone_offset_at_an_instant_beyond_the_calendar() {
    assert_eq!(timezone_offset_at("Asia/Tokyo", i64::MAX), None);
    assert_eq!(timezone_offset_at("Asia/Tokyo", i64::MIN), None);
    assert_eq!(timezone_offset_at("UTC", i64::MAX), None);
    assert_eq!(timezone_offset_at("UTC+2", i64::MAX), Some(120));
}

#[test]
fn timezone_offset_at_of_a_text_that_names_no_zone() {
    for now in [i64::MIN, -1, 0, 1_700_000_000, i64::MAX] {
        assert_eq!(timezone_offset_at("UTC+2", now), Some(120));
        assert_eq!(timezone_offset_at("UTC-11", now), Some(-660));
        assert_eq!(timezone_offset_at("Mars/Olympus", now), None);
        assert_eq!(timezone_offset_at("", now), None);
    }
}

#[test]
fn timezone_offset_now_is_that_of_an_instant_close_by() {
    for zone in ["Europe/Paris", "America/New_York", "Asia/Tokyo", "UTC", "UTC+2", "nowhere"] {
        let before = std::time::SystemTime::now()
            .duration_since(std::time::UNIX_EPOCH)
            .unwrap()
            .as_secs() as i64;
        let now = timezone_offset_from_string(zone);
        let after = before + 5;
        assert!(
            now == timezone_offset_at(zone, before) || now == timezone_offset_at(zone, after),
            "{}",
            zone
        );
    }
}

#[test]
fn unix_seconds_of_a_reading_of_the_clock() {
    assert_eq!(unix_seconds(Ok(0)), 0);
    assert_eq!(unix_seconds(Err(0)), 0);
    assert_eq!(unix_seconds(Ok(1_700_000_000)), 1_700_000_000);
    assert_eq!(unix_seconds(Err(86_400)), -86_400);
    assert_eq!(unix_seconds(Ok(i64::MAX as u64)), i64::MAX);
    assert_eq!(unix_seconds(Ok(i64::MAX as u64 + 1)), i64::MAX);
    assert_eq!(unix_seconds(Ok(u64::MAX)), i64::MAX);
    assert_eq!(unix_seconds(Err(i64::MAX as u64)), -i64::MAX);
    assert_eq!(unix_seconds(Err(u64::MAX)), -i64::MAX);
}
