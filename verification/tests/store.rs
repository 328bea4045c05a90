use chrono::{DateTime, Utc};
use rocket_sqlxsession::config::{SqlxSessionConfig, SqlxSessionFairing};
use rocket_sqlxsession::data::SQLxSessionData;
use rocket_sqlxsession::statement::{Param, Statement};
use rocket_sqlxsession::store::SQLxSessionStore;
use rocket_sqlxsession::string_map::StringMap;
use rocket_sqlxsession::table::DATABASE_EPOCH_SECS;
use rocket_sqlxsession::time::{Span, Timestamp, MAX_SECS};
use rocket_sqlxsession::token::random_token;
use std::collections::BTreeMap;

const NOW: Timestamp = Timestamp { secs: 1_000_000, nanos: 500 };

fn store() -> SQLxSessionStore<u8> {
    SQLxSessionStore::new_at(3, SqlxSessionConfig::default(), NOW).unwrap()
}

fn store_with_table(name: &str) -> SQLxSessionStore<u8> {
    let fairing: SqlxSessionFairing<u8> = SqlxSessionFairing::new().with_table_name(name);
    SQLxSessionStore::new_at(3, fairing.config().clone(), NOW).unwrap()
}

fn text(param: &Param) -> &str {
    match param {
        Param::Text(text) => text,
        Param::Time(_) => panic!("not a text"),
    }
}

fn time(param: &Param) -> Timestamp {
    match param {
        Param::Time(time) => *time,
        Param::Text(_) => panic!("not an instant"),
    }
}

fn session() -> SQLxSessionData {
    SQLxSessionData {
        id: "abc".to_string(),
        data: StringMap::new(),
        expires: Timestamp { secs: 7, nanos: 8 },
        autoremove: NOW,
        destroy: false,
    }
}

#[test]
fn new_store_is_empty() {
    let store = store();
    assert_eq!(store.client, 3);
    assert_eq!(store.inner.len(), 0);
    assert_eq!(store.timers.last_expiry_sweep, Timestamp { secs: 1_003_600, nanos: 500 });
    assert_eq!(store.timers.last_database_expiry_sweep, Timestamp { secs: 1_021_600, nanos: 500 });
}

#[test]
fn new_store_sweeps_after_the_set_lifespans() {
    let fairing: SqlxSessionFairing<u8> = SqlxSessionFairing::new()
        .with_lifetime(Span { secs: 100, nanos: 1 })
        .with_memory_lifetime(Span { secs: 10, nanos: 2 });
    let store = SQLxSessionStore::new_at(3u8, fairing.config().clone(), NOW).unwrap();
    assert_eq!(store.timers.last_expiry_sweep, Timestamp { secs: 1_000_010, nanos: 502 });
    assert_eq!(store.timers.last_database_expiry_sweep, Timestamp { secs: 1_000_100, nanos: 501 });
    let endless: SqlxSessionFairing<u8> =
        SqlxSessionFairing::new().with_lifetime(Span { secs: i64::MAX, nanos: 0 });
    assert!(SQLxSessionStore::new_at(3u8, endless.config().clone(), NOW).is_none());
}

#[test]
fn no_new_store_at_the_end_of_time() {
    let late = Timestamp { secs: MAX_SECS, nanos: 0 };
    assert!(SQLxSessionStore::new_at(3u8, SqlxSessionConfig::default(), late).is_none());
    assert!(SQLxSessionStore::new(3u8, SqlxSessionConfig::default()).is_some());
}

#[test]
fn table_name_is_put_in() {
    let store = store_with_table("t");
    assert_eq!(store.substitute_table_name("a %%TABLE_NAME%% b %%TABLE_NAME%%"), "a t b t");
    assert_eq!(store.substitute_table_name(""), "");
    assert_eq!(store.substitute_table_name("%%TABLE_NAME%"), "%%TABLE_NAME%");
    assert_eq!(store.substitute_table_name("%%%TABLE_NAME%%%"), "%t%");
    assert_eq!(store.substitute_table_name("%%TABLE_NAME%%TABLE_NAME%%"), "tTABLE_NAME%%");
    assert_eq!(store.substitute_table_name("no marker"), "no marker");
}

#[test]
fn table_name_is_put_in_as_std_replaces() {
    for name in ["t", "", "%%TABLE_NAME%%", "\u{e9}t\u{e9}"] {
        let store = store_with_table(name);
        for query in [
            "x%%TABLE_NAME%%",
            "%%TABLE_NAME%%TABLE_NAME%%TABLE_NAME%%",
            "%%%%TABLE_NAME%%%%TABLE_NAME%%",
            "\u{4e2d}%%TABLE_NAME%%\u{4e2d}",
            "%",
        ] {
            assert_eq!(
                store.substitute_table_name(query),
                query.replace("%%TABLE_NAME%%", name)
            );
        }
    }
}

#[test]
fn migrate_creates_the_table() {
    let Statement { text, params } = store().migrate();
    assert_eq!(
        text,
        r#"
            CREATE TABLE IF NOT EXISTS async_sessions (
                "id" VARCHAR NOT NULL PRIMARY KEY,
                "expires" TIMESTAMP WITH TIME ZONE NULL,
                "session" TEXT NOT NULL
            )
            "#
    );
    assert_eq!(params.len(), 0);
}

#[test]
fn cleanup_deletes_what_has_expired() {
    let statement = store_with_table("t").cleanup_at(NOW);
    assert_eq!(statement.text, "DELETE FROM t WHERE expires < $1");
    assert_eq!(statement.params.len(), 1);
    assert_eq!(time(&statement.params[0]), NOW);
}

#[test]
fn cleanup_goes_by_the_clock() {
    let store = store();
    let first = time(&store.cleanup().params[0]);
    assert!(Timestamp { secs: 1_500_000_000, nanos: 0 }.is_before(&first));
}

#[test]
fn count_counts() {
    let statement = store_with_table("t").count();
    assert_eq!(statement.text, "SELECT COUNT(*) FROM t");
    assert_eq!(statement.params.len(), 0);
}

#[test]
fn load_reads_one_session() {
    let statement = store().load_session_at("abc", NOW);
    assert_eq!(
        statement.text,
        "SELECT session FROM async_sessions WHERE id = $1 AND (expires IS NULL OR expires > $2)"
    );
    assert_eq!(statement.params.len(), 2);
    assert_eq!(text(&statement.params[0]), "abc");
    assert_eq!(time(&statement.params[1]), NOW);
    let by_clock = store().load_session("xyz");
    assert_eq!(text(&by_clock.params[0]), "xyz");
    assert!(NOW.is_before(&time(&by_clock.params[1])));
}

#[test]
fn loaded_session_is_what_the_row_holds() {
    let decode = |text: &str| {
        if text == "row" {
            Ok(session())
        } else {
            Err(9)
        }
    };
    let none = SQLxSessionStore::<u8>::loaded_session(None, decode);
    assert!(matches!(none, Ok(None)));
    let some = SQLxSessionStore::<u8>::loaded_session(Some("row".to_string()), decode);
    assert_eq!(some.unwrap().unwrap().id, "abc");
    let error = SQLxSessionStore::<u8>::loaded_session(Some("other".to_string()), decode);
    assert!(matches!(error, Err(9)));
}

#[test]
fn store_writes_one_session() {
    let store = store_with_table("t");
    let statement =
        store.store_session(&session(), |s| Ok::<String, ()>(format!("<{}>", s.id))).unwrap();
    assert_eq!(
        statement.text,
        r#"
            INSERT INTO t
              (id, session, expires) SELECT $1, $2, $3
            ON CONFLICT(id) DO UPDATE SET
              expires = EXCLUDED.expires,
              session = EXCLUDED.session
            "#
    );
    assert_eq!(statement.params.len(), 3);
    assert_eq!(text(&statement.params[0]), "abc");
    assert_eq!(text(&statement.params[1]), "<abc>");
    assert_eq!(time(&statement.params[2]), Timestamp { secs: 7, nanos: 8 });
}

#[test]
fn session_that_cannot_be_encoded_is_not_written() {
    assert!(matches!(store().store_session(&session(), |_: &SQLxSessionData| Err(4)), Err(4)));
}

#[test]
fn destroy_deletes_one_session() {
    let statement = store_with_table("t").destroy_session("abc");
    assert_eq!(statement.text, "DELETE FROM t WHERE id = $1");
    assert_eq!(statement.params.len(), 1);
    assert_eq!(text(&statement.params[0]), "abc");
}

#[test]
fn clear_deletes_all() {
    let statement = store_with_table("t").clear_store();
    assert_eq!(statement.text, "TRUNCATE t");
    assert_eq!(statement.params.len(), 0);
}

#[test]
fn tokens_are_letters_and_digits() {
    for len in [0usize, 1, 16, 300] {
        let token = random_token(len);
        assert_eq!(token.len(), len);
        assert!(token.chars().all(|c| c.is_ascii_alphanumeric()));
    }
    assert_ne!(random_token(32), random_token(32));
}

/// Rows by their IDs: the text, and the expiry in microseconds since 2000, if there is one.
type Rows = BTreeMap<String, (String, Option<i64>)>;

/// An instant as the database gets it.
fn micros(time: &Timestamp) -> i64 {
    let date_time: DateTime<Utc> = DateTime::from_timestamp(time.secs, time.nanos).unwrap();
    let epoch: DateTime<Utc> = DateTime::from_timestamp(DATABASE_EPOCH_SECS, 0).unwrap();
    assert_eq!(epoch.to_rfc3339(), "2000-01-01T00:00:00+00:00");
    (date_time - epoch).num_microseconds().unwrap()
}

/// Does to the rows what a statement asks for, and gives what it reads.
fn run(rows: &mut Rows, statement: &Statement) -> Option<String> {
    let words: Vec<&str> = statement.text.split_whitespace().collect();
    match (words[0], &statement.params[..]) {
        ("INSERT", [Param::Text(id), Param::Text(session), Param::Time(expires)]) => {
            rows.insert(id.clone(), (session.clone(), Some(micros(expires))));
        }
        ("DELETE", [Param::Text(id)]) => {
            rows.remove(id);
        }
        ("DELETE", [Param::Time(now)]) => {
            rows.retain(|_, (_, expires)| expires.map_or(true, |at| !(at < micros(now))));
        }
        ("TRUNCATE", []) => rows.clear(),
        ("SELECT", [Param::Text(id), Param::Time(now)]) => {
            let (session, expires) = rows.get(id)?;
            return match expires {
                Some(at) if !(*at > micros(now)) => None,
                _ => Some(session.clone()),
            };
        }
        ("SELECT", []) => return Some(rows.len().to_string()),
        _ => {}
    }
    None
}

fn load(rows: &mut Rows, id: &str, now: i64) -> Option<SQLxSessionData> {
    load_at(rows, id, Timestamp { secs: now, nanos: 0 })
}

fn load_at(rows: &mut Rows, id: &str, now: Timestamp) -> Option<SQLxSessionData> {
    let row = run(rows, &store().load_session_at(id, now));
    SQLxSessionStore::<u8>::loaded_session(row, |text: &str| {
        let parts: Vec<&str> = text.split(' ').collect();
        let mut data = StringMap::new();
        data.insert("k".to_string(), parts[1].to_string());
        let expires = Timestamp {
            secs: parts[2].parse().map_err(|_| ())?,
            nanos: parts[3].parse().map_err(|_| ())?,
        };
        Ok::<SQLxSessionData, ()>(SQLxSessionData {
            id: parts[0].to_string(),
            data,
            expires,
            autoremove: NOW,
            destroy: false,
        })
    })
    .unwrap()
}

fn written(id: &str, value: &str, expires: i64) -> Statement {
    written_until(id, value, Timestamp { secs: expires, nanos: 0 })
}

fn written_until(id: &str, value: &str, expires: Timestamp) -> Statement {
    let mut data = StringMap::new();
    data.insert("k".to_string(), value.to_string());
    let session = SQLxSessionData {
        id: id.to_string(),
        data,
        expires,
        autoremove: NOW,
        destroy: false,
    };
    let encode = |s: &SQLxSessionData| {
        let value = s.data.get("k").unwrap();
        Ok::<String, ()>(format!("{} {} {} {}", s.id, value, s.expires.secs, s.expires.nanos))
    };
    store().store_session(&session, encode).unwrap()
}

#[test]
fn stored_session_is_loaded_again() {
    let mut rows = BTreeMap::new();
    run(&mut rows, &written("a", "old", 50));
    run(&mut rows, &written("a", "x", 100));
    run(&mut rows, &written("b", "y", 60));
    run(&mut rows, &store().migrate());
    run(&mut rows, &store().count());
    run(&mut rows, &store().destroy_session("b"));
    run(&mut rows, &store().cleanup_at(Timestamp { secs: 100, nanos: 0 }));
    let found = load(&mut rows, "a", 99).unwrap();
    assert_eq!(found.id, "a");
    assert_eq!(found.data.get("k"), Some(&"x".to_string()));
    assert_eq!(found.expires, Timestamp { secs: 100, nanos: 0 });
    assert_eq!(found.autoremove, NOW);
    assert!(!found.destroy);
    assert!(load(&mut rows, "a", 100).is_none());
}

#[test]
fn destroyed_session_is_not_found_again() {
    let mut rows = BTreeMap::new();
    run(&mut rows, &written("a", "x", 100));
    run(&mut rows, &written("b", "y", 100));
    run(&mut rows, &store().destroy_session("a"));
    run(&mut rows, &written("b", "z", 200));
    for now in [0, 50, 99, 100, 1_000] {
        assert!(load(&mut rows, "a", now).is_none());
    }
    assert!(load(&mut rows, "b", 150).is_some());
    run(&mut rows, &store().clear_store());
    assert!(load(&mut rows, "b", 150).is_none());
}

#[test]
fn swept_table_keeps_what_is_valid() {
    let mut rows = BTreeMap::new();
    run(&mut rows, &written("a", "x", 99));
    run(&mut rows, &written("b", "y", 100));
    run(&mut rows, &store().cleanup_at(Timestamp { secs: 100, nanos: 0 }));
    assert!(!rows.contains_key("a"));
    assert!(rows.contains_key("b"));
}

#[test]
fn stored_nanoseconds_are_loaded_again() {
    for secs in [-5, 100, 2_000_000_000] {
        let mut rows = BTreeMap::new();
        let expires = Timestamp { secs, nanos: 123_456_789 };
        run(&mut rows, &written_until("a", "x", expires));
        let now = Timestamp { secs, nanos: 123_454_999 };
        run(&mut rows, &store().cleanup_at(now));
        assert_eq!(load_at(&mut rows, "a", now).unwrap().expires, expires);
        let now = Timestamp { secs, nanos: 123_456_788 };
        assert!(load_at(&mut rows, "a", now).is_none());
    }
}

#[test]
fn session_that_expired_within_the_microsecond_is_left_by_a_sweep() {
    let mut rows = BTreeMap::new();
    let expires = Timestamp { secs: 2_000_000_000, nanos: 100 };
    run(&mut rows, &written_until("a", "x", expires));
    run(&mut rows, &store().cleanup_at(Timestamp { secs: 2_000_000_000, nanos: 999 }));
    assert!(rows.contains_key("a"));
    run(&mut rows, &store().cleanup_at(Timestamp { secs: 2_000_000_000, nanos: 1_000 }));
    assert!(!rows.contains_key("a"));
}

#[test]
fn row_without_expiry_stays() {
    let mut rows = BTreeMap::new();
    rows.insert("a".to_string(), ("a x 0 0".to_string(), None));
    run(&mut rows, &store().cleanup_at(NOW));
    assert_eq!(load(&mut rows, "a", 5_000_000_000).unwrap().id, "a");
}

#[test]
fn count_follows_the_rows() {
    let mut rows = BTreeMap::new();
    let count = store().count();
    assert_eq!(run(&mut rows, &count), Some("0".to_string()));
    run(&mut rows, &written("a", "x", 100));
    run(&mut rows, &written("a", "y", 100));
    run(&mut rows, &written("b", "y", 100));
    assert_eq!(run(&mut rows, &count), Some("2".to_string()));
    run(&mut rows, &store().destroy_session("a"));
    run(&mut rows, &store().destroy_session("c"));
    assert_eq!(run(&mut rows, &count), Some("1".to_string()));
    run(&mut rows, &store().clear_store());
    assert_eq!(run(&mut rows, &count), Some("0".to_string()));
}
