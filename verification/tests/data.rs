use chrono::{DateTime, TimeDelta, Utc};
use rocket_sqlxsession::data::SQLxSessionData;
use rocket_sqlxsession::string_map::StringMap;
use rocket_sqlxsession::time::{Span, Timestamp, MAX_SECS, MIN_SECS};
use std::collections::BTreeMap;

fn at(secs: i64, nanos: u32) -> Timestamp {
    Timestamp { secs, nanos }
}

fn of(time: DateTime<Utc>) -> Timestamp {
    at(time.timestamp(), time.timestamp_subsec_nanos())
}

fn session(expires: Timestamp) -> SQLxSessionData {
    SQLxSessionData {
        id: "id".to_string(),
        data: StringMap::new(),
        expires,
        autoremove: at(0, 0),
        destroy: false,
    }
}

#[test]
fn range_is_that_of_chrono() {
    assert_eq!(DateTime::<Utc>::MIN_UTC.timestamp(), MIN_SECS);
    assert_eq!(DateTime::<Utc>::MAX_UTC.timestamp(), MAX_SECS);
}

#[test]
fn instants_are_ordered() {
    assert!(at(1, 5).is_before(&at(1, 6)));
    assert!(at(1, 5).is_before(&at(2, 0)));
    assert!(at(-2, 999_999_999).is_before(&at(-1, 0)));
    assert!(!at(1, 5).is_before(&at(1, 5)));
    assert!(!at(1, 6).is_before(&at(1, 5)));
    assert!(!at(2, 0).is_before(&at(1, 999_999_999)));
}

#[test]
fn instants_are_ordered_as_by_chrono() {
    let times = [
        DateTime::<Utc>::MIN_UTC,
        DateTime::from_timestamp(-1, 999_999_999).unwrap(),
        DateTime::from_timestamp(0, 0).unwrap(),
        DateTime::from_timestamp(59, 999_999_999).unwrap(),
        DateTime::from_timestamp(59, 1_500_000_000).unwrap(),
        DateTime::from_timestamp(60, 0).unwrap(),
        DateTime::from_timestamp(1_700_000_000, 1).unwrap(),
        DateTime::<Utc>::MAX_UTC,
    ];
    for a in times {
        for b in times {
            assert_eq!(of(a).is_before(&of(b)), a < b);
        }
    }
}

#[test]
fn default_session() {
    let session = SQLxSessionData::default_at(at(1_000, 7)).unwrap();
    assert_eq!(session.id, "");
    assert_eq!(session.data.len(), 0);
    assert_eq!(session.expires, at(22_600, 7));
    assert_eq!(session.autoremove, at(4_600, 7));
    assert!(!session.destroy);
}

#[test]
fn default_session_adds_as_chrono_does() {
    for now in [
        DateTime::from_timestamp(-30_000, 5).unwrap(),
        DateTime::from_timestamp(1_700_000_000, 999_999_999).unwrap(),
        DateTime::<Utc>::MIN_UTC,
    ] {
        let session = SQLxSessionData::default_at(of(now)).unwrap();
        assert_eq!(session.expires, of(now + TimeDelta::hours(6)));
        assert_eq!(session.autoremove, of(now + TimeDelta::hours(1)));
    }
}

#[test]
fn default_session_at_the_end_of_time() {
    assert!(SQLxSessionData::default_at(at(MAX_SECS - 21_600, 0)).is_some());
    assert!(SQLxSessionData::default_at(at(MAX_SECS - 21_600, 999_999_999)).is_some());
    assert!(SQLxSessionData::default_at(at(MAX_SECS - 21_599, 0)).is_none());
    assert!(SQLxSessionData::default_at(at(MAX_SECS, 0)).is_none());
}

#[test]
fn default_session_begins_now() {
    let before = of(Utc::now());
    let session = SQLxSessionData::default().unwrap();
    let after = of(Utc::now());
    assert!(!session.expires.is_before(&at(before.secs + 21_600, before.nanos)));
    assert!(!at(after.secs + 21_600, after.nanos).is_before(&session.expires));
    assert!(session.validate());
}

#[test]
fn session_is_valid_until_it_expires() {
    let session = session(at(100, 50));
    assert!(session.validate_at(at(99, 0)));
    assert!(session.validate_at(at(100, 49)));
    assert!(session.validate_at(at(100, 50)));
    assert!(!session.validate_at(at(100, 51)));
    assert!(!session.validate_at(at(101, 0)));
}

#[test]
fn validity_goes_by_the_clock() {
    assert!(!session(at(0, 0)).validate());
    assert!(session(at(MAX_SECS, 0)).validate());
}

#[test]
fn cloned_session_is_the_same() {
    let mut original = session(at(5, 6));
    original.data.insert("k".to_string(), "v".to_string());
    original.destroy = true;
    let copy = original.clone();
    assert_eq!(copy.id, "id");
    assert_eq!(copy.data.len(), 1);
    assert_eq!(copy.data.get("k"), Some(&"v".to_string()));
    assert_eq!(copy.expires, at(5, 6));
    assert_eq!(copy.autoremove, at(0, 0));
    assert!(copy.destroy);
}

#[test]
fn spans_are_made_of_parts() {
    assert_eq!(Span::from_parts(5, 7), Some(Span { secs: 5, nanos: 7 }));
    assert_eq!(Span::from_parts(0, -1), Some(Span { secs: -1, nanos: 999_999_999 }));
    assert_eq!(Span::from_parts(-5, -7), Some(Span { secs: -6, nanos: 999_999_993 }));
    assert_eq!(Span::from_parts(i64::MIN, 0), Some(Span { secs: i64::MIN, nanos: 0 }));
    assert_eq!(Span::from_parts(i64::MIN, -1), None);
    assert_eq!(Span::from_parts(0, 1_000_000_000), None);
    assert_eq!(Span::from_parts(0, -1_000_000_000), None);
}

#[test]
fn spans_are_those_of_chrono() {
    for delta in [
        TimeDelta::hours(6),
        TimeDelta::minutes(60),
        TimeDelta::nanoseconds(-1),
        TimeDelta::milliseconds(-1_500),
        TimeDelta::MIN,
        TimeDelta::MAX,
    ] {
        let span = Span::from_parts(delta.num_seconds(), delta.subsec_nanos()).unwrap();
        assert_eq!(TimeDelta::new(span.secs, span.nanos), Some(delta));
    }
}

#[test]
fn map_keeps_the_last_value() {
    let mut map: StringMap<u32> = StringMap::new();
    assert_eq!(map.get("a"), None);
    map.insert("a".to_string(), 1);
    map.insert("b".to_string(), 2);
    map.insert("a".to_string(), 3);
    assert_eq!(map.len(), 2);
    assert_eq!(map.get("a"), Some(&3));
    assert_eq!(map.get("b"), Some(&2));
    assert!(map.contains_key("a"));
    assert!(!map.contains_key("c"));
}

#[test]
fn map_forgets_what_is_removed() {
    let mut map: StringMap<u32> = StringMap::new();
    map.insert("a".to_string(), 1);
    map.insert("b".to_string(), 2);
    assert_eq!(map.remove("a"), Some(1));
    assert_eq!(map.remove("a"), None);
    assert_eq!(map.get("a"), None);
    assert_eq!(map.get("b"), Some(&2));
}

#[test]
fn map_retains_what_is_accepted() {
    let mut map: StringMap<u32> = StringMap::new();
    for i in 0..10u32 {
        map.insert(format!("k{}", i), i);
    }
    map.retain(|value: &u32| *value % 3 == 0);
    assert_eq!(map.len(), 4);
    for i in 0..10u32 {
        assert_eq!(map.contains_key(&format!("k{}", i)), i % 3 == 0);
    }
}

fn listed(map: &StringMap<u32>) -> Vec<(String, u32)> {
    (0..map.len()).map(|i| map.entry_at(i)).map(|(key, value)| (key.clone(), *value)).collect()
}

#[test]
fn map_lists_every_entry_once() {
    let mut map: StringMap<u32> = StringMap::new();
    map.insert("b".to_string(), 2);
    map.insert("a".to_string(), 1);
    assert_eq!(listed(&map), vec![("a".to_string(), 1), ("b".to_string(), 2)]);
}

#[test]
fn map_goes_with_one_of_std() {
    let keys = ["", "a", "b", "ab", "aa", "abc", "B", "~", "\u{e9}", "\u{4e2d}", "\u{1f600}", "z"];
    let mut map: StringMap<u32> = StringMap::new();
    let mut other: BTreeMap<String, u32> = BTreeMap::new();
    for round in 0..200u32 {
        let key = keys[(round * 7 + round / 5) as usize % keys.len()];
        if round % 3 == 2 {
            assert_eq!(map.remove(key), other.remove(key));
        } else {
            map.insert(key.to_string(), round);
            other.insert(key.to_string(), round);
        }
        for key in keys {
            assert_eq!(map.get(key), other.get(key));
            assert_eq!(map.contains_key(key), other.contains_key(key));
        }
        assert_eq!(listed(&map), other.clone().into_iter().collect::<Vec<_>>());
    }
    map.retain(|value: &u32| *value % 2 == 0);
    other.retain(|_, value| *value % 2 == 0);
    assert_eq!(listed(&map), other.into_iter().collect::<Vec<_>>());
}

#[test]
fn map_value_is_changed_in_its_place() {
    let mut map: StringMap<u32> = StringMap::new();
    map.insert("a".to_string(), 1);
    map.insert("b".to_string(), 2);
    if let Some(value) = map.get_mut("b") {
        *value += 10;
    }
    assert!(map.get_mut("c").is_none());
    assert_eq!(listed(&map), vec![("a".to_string(), 1), ("b".to_string(), 12)]);
}
