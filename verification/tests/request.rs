use rocket_sqlxsession::config::{SqlxSessionConfig, SqlxSessionFairing};
use rocket_sqlxsession::data::SQLxSessionData;
use rocket_sqlxsession::request::{Drawn, RequestStep, SessionError};
use rocket_sqlxsession::session::{SQLxSession, SQLxSessionID};
use rocket_sqlxsession::statement::{Param, Statement};
use rocket_sqlxsession::store::SQLxSessionStore;
use rocket_sqlxsession::string_map::StringMap;
use rocket_sqlxsession::time::{Span, Timestamp, MAX_SECS};

fn at(secs: i64) -> Timestamp {
    Timestamp { secs, nanos: 0 }
}

fn secs(secs: i64) -> Span {
    Span { secs, nanos: 0 }
}

/// A store that began with the initial settings, so that the first sweeps are due after 1 h and
/// 6 h, and goes on with those of a fairing.
fn build(fairing: SqlxSessionFairing<()>) -> SQLxSessionStore<()> {
    let mut store = SQLxSessionStore::new_at((), SqlxSessionConfig::default(), at(0)).unwrap();
    store.config = fairing.config().clone();
    store
}

/// A lifespan of 1000 s, 100 s of it in memory; the first sweeps are due after 1 h and 6 h.
fn store() -> SQLxSessionStore<()> {
    build(
        SqlxSessionFairing::new().with_lifetime(secs(1_000)).with_memory_lifetime(secs(100)),
    )
}

fn session(id: &str, expires: i64, autoremove: i64) -> SQLxSessionData {
    let mut data = StringMap::new();
    data.insert("k".to_string(), "v".to_string());
    SQLxSessionData {
        id: id.to_string(),
        data,
        expires: at(expires),
        autoremove: at(autoremove),
        destroy: false,
    }
}

fn put(store: &mut SQLxSessionStore<()>, session: SQLxSessionData) {
    store.inner.insert(session.id.clone(), session);
}

fn held<'a>(store: &'a SQLxSessionStore<()>, id: &str) -> &'a SQLxSessionData {
    store.inner.get(id).unwrap()
}

fn ready(step: Result<RequestStep, SessionError>) -> String {
    match step {
        Ok(RequestStep::Ready(id)) => id.to_string(),
        other => panic!("not ready: {:?}", other),
    }
}

fn loading(step: Result<RequestStep, SessionError>) -> (SQLxSessionID, Statement) {
    match step {
        Ok(RequestStep::Load { id, statement }) => (id, statement),
        other => panic!("not loading: {:?}", other),
    }
}

fn cleaning(step: Result<RequestStep, SessionError>) -> (SQLxSessionID, Statement) {
    match step {
        Ok(RequestStep::Cleanup { id, statement }) => (id, statement),
        other => panic!("not cleaning: {:?}", other),
    }
}

fn creating(step: Result<RequestStep, SessionError>) {
    match step {
        Ok(RequestStep::Create) => {}
        other => panic!("not creating: {:?}", other),
    }
}

fn out_of_range(step: Result<RequestStep, SessionError>) {
    match step {
        Err(error) => assert_eq!(error, SessionError::ClockOutOfRange),
        other => panic!("in range: {:?}", other),
    }
}

fn no_row() -> Result<Option<SQLxSessionData>, ()> {
    Ok(None)
}

#[test]
fn request_extends_a_session_in_memory() {
    let mut store = store();
    put(&mut store, session("a", 50, 50));
    assert_eq!(ready(SQLxSession::from_request_at(&mut store, Some("a"), at(20))), "a");
    assert_eq!(held(&store, "a").expires, at(1_020));
    assert_eq!(held(&store, "a").autoremove, at(120));
    assert_eq!(held(&store, "a").data.get("k"), Some(&"v".to_string()));
}

#[test]
fn session_that_expires_just_now_keeps_its_data() {
    let mut store = store();
    put(&mut store, session("a", 20, 50));
    assert_eq!(ready(SQLxSession::from_request_at(&mut store, Some("a"), at(20))), "a");
    assert_eq!(held(&store, "a").data.len(), 1);
}

#[test]
fn expired_session_in_memory_loses_its_data() {
    let mut store = store();
    put(&mut store, session("a", 19, 50));
    assert_eq!(ready(SQLxSession::from_request_at(&mut store, Some("a"), at(20))), "a");
    assert_eq!(held(&store, "a").data.len(), 0);
    assert_eq!(held(&store, "a").id, "a");
    assert_eq!(held(&store, "a").expires, at(1_020));
}

#[test]
fn destroyed_session_in_memory_loses_its_data() {
    let mut store = store();
    let mut marked = session("a", 50, 50);
    marked.destroy = true;
    put(&mut store, marked);
    assert_eq!(ready(SQLxSession::from_request_at(&mut store, Some("a"), at(20))), "a");
    assert_eq!(held(&store, "a").data.len(), 0);
    assert!(held(&store, "a").destroy);
}

#[test]
fn request_leaves_other_sessions_alone() {
    let mut store = store();
    put(&mut store, session("a", 50, 50));
    put(&mut store, session("b", 1, 2));
    assert_eq!(ready(SQLxSession::from_request_at(&mut store, Some("a"), at(20))), "a");
    assert_eq!(held(&store, "b").expires, at(1));
    assert_eq!(held(&store, "b").autoremove, at(2));
    assert_eq!(held(&store, "b").data.len(), 1);
}

#[test]
fn unknown_id_is_read_from_the_database() {
    let mut store = store();
    let (id, statement) = loading(SQLxSession::from_request_at(&mut store, Some("a"), at(20)));
    assert_eq!(id.as_str(), "a");
    assert_eq!(
        statement.text,
        "SELECT session FROM async_sessions WHERE id = $1 AND (expires IS NULL OR expires > $2)"
    );
    assert!(matches!(&statement.params[0], Param::Text(text) if text == "a"));
    assert!(matches!(&statement.params[1], Param::Time(time) if *time == at(20)));
    assert_eq!(store.inner.len(), 0);
}

#[test]
fn request_without_a_cookie_gets_a_new_session() {
    let mut store = store();
    creating(SQLxSession::from_request_at(&mut store, None, at(20)));
    assert_eq!(ready(SQLxSession::create_at(&mut store, "tok".to_string(), at(21))), "tok");
    assert_eq!(held(&store, "tok").id, "tok");
    assert_eq!(held(&store, "tok").data.len(), 0);
    assert_eq!(held(&store, "tok").expires, at(1_021));
    assert_eq!(held(&store, "tok").autoremove, at(121));
    assert!(!held(&store, "tok").destroy);
}

#[test]
fn new_session_lives_for_the_set_lifespan() {
    let mut store = build(SqlxSessionFairing::new().with_lifetime(secs(7_200)));
    assert_eq!(ready(SQLxSession::create_at(&mut store, "tok".to_string(), at(1_000))), "tok");
    assert_eq!(held(&store, "tok").expires, at(8_200));
    assert_eq!(held(&store, "tok").autoremove, at(4_600));
    assert!(held(&store, "tok").validate_at(at(8_200)));
    assert!(!held(&store, "tok").validate_at(at(8_201)));
    let id = SQLxSessionID::new("a".to_string());
    assert_eq!(ready(SQLxSession::loaded_at(&mut store, id, no_row(), at(1_000))), "a");
    assert_eq!(held(&store, "a").expires, at(8_200));
    let mut store = build(SqlxSessionFairing::new().with_lifetime(secs(30 * 86_400)));
    assert_eq!(ready(SQLxSession::create_at(&mut store, "tok".to_string(), at(0))), "tok");
    assert_eq!(held(&store, "tok").expires, at(2_592_000));
}

#[test]
fn request_with_an_empty_cookie_gets_a_new_session() {
    let mut store = store();
    creating(SQLxSession::from_request_at(&mut store, Some(""), at(20)));
}

#[test]
fn new_id_is_random() {
    let mut store = store();
    let first = ready(SQLxSession::create(&mut store));
    let second = ready(SQLxSession::create(&mut store));
    assert_eq!(first.len(), 16);
    assert_eq!(second.len(), 16);
    assert_ne!(first, second);
    assert_eq!(store.inner.len(), 2);
    assert!(held(&store, &first).validate());
}

#[test]
fn missing_row_begins_a_session_under_the_id() {
    let mut store = store();
    let (id, _) = loading(SQLxSession::from_request_at(&mut store, Some("a"), at(20)));
    assert_eq!(ready(SQLxSession::loaded_at(&mut store, id, no_row(), at(30))), "a");
    assert_eq!(held(&store, "a").id, "a");
    assert_eq!(held(&store, "a").data.len(), 0);
    assert_eq!(held(&store, "a").expires, at(1_030));
    assert_eq!(held(&store, "a").autoremove, at(130));
}

#[test]
fn failed_read_begins_a_session_under_the_id() {
    let mut store = store();
    let id = SQLxSessionID::new("a".to_string());
    let failed: Result<Option<SQLxSessionData>, u8> = Err(1);
    assert_eq!(ready(SQLxSession::loaded_at(&mut store, id, failed, at(30))), "a");
    assert_eq!(held(&store, "a").data.len(), 0);
}

#[test]
fn live_row_comes_in_as_it_was_written() {
    let mut store = store();
    let id = SQLxSessionID::new("a".to_string());
    let row: Result<Option<SQLxSessionData>, ()> = Ok(Some(session("a", 40, 10)));
    assert_eq!(ready(SQLxSession::loaded_at(&mut store, id, row, at(30))), "a");
    assert_eq!(held(&store, "a").expires, at(40));
    assert_eq!(held(&store, "a").autoremove, at(10));
    assert_eq!(held(&store, "a").data.get("k"), Some(&"v".to_string()));
}

#[test]
fn expired_row_starts_over() {
    let mut store = store();
    let id = SQLxSessionID::new("a".to_string());
    let row: Result<Option<SQLxSessionData>, ()> = Ok(Some(session("a", 29, 10)));
    assert_eq!(ready(SQLxSession::loaded_at(&mut store, id, row, at(30))), "a");
    assert_eq!(held(&store, "a").expires, at(1_030));
    assert_eq!(held(&store, "a").autoremove, at(130));
    assert_eq!(held(&store, "a").data.len(), 0);
}

#[test]
fn destroyed_row_starts_over_and_stays_marked() {
    let mut store = store();
    let id = SQLxSessionID::new("a".to_string());
    let mut marked = session("a", 1_000, 10);
    marked.destroy = true;
    let row: Result<Option<SQLxSessionData>, ()> = Ok(Some(marked));
    assert_eq!(ready(SQLxSession::loaded_at(&mut store, id, row, at(30))), "a");
    assert_eq!(held(&store, "a").expires, at(1_030));
    assert_eq!(held(&store, "a").data.len(), 0);
    assert!(held(&store, "a").destroy);
}

#[test]
fn row_with_another_id_is_kept_under_that_id() {
    let mut store = store();
    let id = SQLxSessionID::new("a".to_string());
    let row: Result<Option<SQLxSessionData>, ()> = Ok(Some(session("b", 40, 10)));
    assert_eq!(ready(SQLxSession::loaded_at(&mut store, id, row, at(30))), "b");
    assert!(store.inner.contains_key("b"));
    assert!(!store.inner.contains_key("a"));
}

#[test]
fn loaded_and_cleaned_go_by_the_clock() {
    let mut store = store();
    let id = SQLxSessionID::new("a".to_string());
    assert_eq!(ready(SQLxSession::loaded(&mut store, id, no_row())), "a");
    assert!(held(&store, "a").validate());
    let id = SQLxSessionID::new("b".to_string());
    let (id, _) = loading(SQLxSession::cleaned(&mut store, id));
    assert_eq!(id.as_str(), "b");
    assert!(at(1_500_000_000).is_before(&store.timers.last_database_expiry_sweep));
}

#[test]
fn memory_is_swept_when_it_is_due() {
    let mut store = store();
    put(&mut store, session("old", 5_000, 3_600));
    put(&mut store, session("new", 5_000, 3_601));
    loading(SQLxSession::from_request_at(&mut store, Some("a"), at(3_599)));
    assert_eq!(store.inner.len(), 2);
    loading(SQLxSession::from_request_at(&mut store, Some("a"), at(3_600)));
    assert_eq!(store.inner.len(), 1);
    assert!(store.inner.contains_key("new"));
    assert_eq!(store.timers.last_expiry_sweep, at(3_700));
    assert_eq!(store.timers.last_database_expiry_sweep, at(21_600));
}

#[test]
fn sweeps_are_throttled() {
    let mut store = store();
    loading(SQLxSession::from_request_at(&mut store, Some("a"), at(3_600)));
    put(&mut store, session("old", 5_000, 3_650));
    loading(SQLxSession::from_request_at(&mut store, Some("a"), at(3_699)));
    assert!(store.inner.contains_key("old"));
    loading(SQLxSession::from_request_at(&mut store, Some("a"), at(3_700)));
    assert!(!store.inner.contains_key("old"));
}

#[test]
fn request_that_is_found_sweeps_nothing() {
    let mut store = store();
    put(&mut store, session("a", 50, 50));
    put(&mut store, session("old", 50, 50));
    assert_eq!(ready(SQLxSession::from_request_at(&mut store, Some("a"), at(90_000))), "a");
    assert!(store.inner.contains_key("old"));
    assert_eq!(store.timers.last_expiry_sweep, at(3_600));
}

#[test]
fn database_is_swept_when_it_is_due() {
    let mut store = store();
    put(&mut store, session("old", 5_000, 21_600));
    put(&mut store, session("new", 5_000, 21_601));
    let (id, statement) =
        cleaning(SQLxSession::from_request_at(&mut store, Some("a"), at(21_600)));
    assert_eq!(id.as_str(), "a");
    assert_eq!(statement.text, "DELETE FROM async_sessions WHERE expires < $1");
    assert!(matches!(&statement.params[0], Param::Time(time) if *time == at(21_600)));
    assert!(!store.inner.contains_key("old"));
    assert!(store.inner.contains_key("new"));
    let (id, statement) = loading(SQLxSession::cleaned_at(&mut store, id, at(21_605)));
    assert_eq!(id.as_str(), "a");
    assert!(matches!(&statement.params[1], Param::Time(time) if *time == at(21_605)));
    assert_eq!(store.timers.last_database_expiry_sweep, at(22_605));
    assert_eq!(store.timers.last_expiry_sweep, at(21_700));
}

#[test]
fn database_sweep_comes_before_a_new_session() {
    let mut store = store();
    let (id, _) = cleaning(SQLxSession::from_request_at(&mut store, None, at(30_000)));
    assert!(id.is_empty());
    creating(SQLxSession::cleaned_at(&mut store, id, at(30_001)));
    loading(SQLxSession::from_request_at(&mut store, Some("x"), at(30_002)));
}

#[test]
fn empty_id_can_be_a_session_of_its_own() {
    let mut store = build(SqlxSessionFairing::new().with_cookie_len(0));
    creating(SQLxSession::from_request_at(&mut store, None, at(1)));
    assert_eq!(ready(SQLxSession::create(&mut store)), "");
    assert_eq!(ready(SQLxSession::from_request_at(&mut store, None, at(2))), "");
}

#[test]
fn ids_are_drawn_until_one_is_not_in_use() {
    let mut store = build(SqlxSessionFairing::new().with_cookie_len(1));
    for c in ('a'..='z').chain('A'..='Z').chain('0'..='8') {
        put(&mut store, session(&c.to_string(), 50, 50));
    }
    assert_eq!(ready(SQLxSession::create(&mut store)), "9");
    assert_eq!(store.inner.len(), 62);
    assert_eq!(held(&store, "a").expires, at(50));
    assert_eq!(held(&store, "9").data.len(), 0);
}

#[test]
fn first_unused_token_is_taken() {
    let mut store = store();
    put(&mut store, session("a", 50, 50));
    put(&mut store, session("b", 50, 50));
    let mut left = 5;
    let mut taken = None;
    for token in ["a", "b", "a", "c", "d"] {
        match store.take_drawn(token.to_string(), left) {
            Drawn::Accepted(id) => {
                taken = Some(id);
                break;
            }
            Drawn::Again(rest) => left = rest,
            Drawn::Exhausted => panic!("no draw is left"),
        }
    }
    assert_eq!(taken, Some("c".to_string()));
    assert_eq!(left, 2);
}

#[test]
fn drawn_token_is_taken_unless_it_is_in_use() {
    let mut store = store();
    put(&mut store, session("a", 50, 50));
    assert!(matches!(store.take_drawn("b".to_string(), 0), Drawn::Accepted(id) if id == "b"));
    assert!(matches!(store.take_drawn("b".to_string(), 4), Drawn::Accepted(id) if id == "b"));
    assert!(matches!(store.take_drawn("a".to_string(), 4), Drawn::Again(3)));
    assert!(matches!(store.take_drawn("a".to_string(), 1), Drawn::Again(0)));
    assert!(matches!(store.take_drawn("a".to_string(), 0), Drawn::Exhausted));
}

#[test]
fn lifespan_out_of_range_is_reported() {
    let mut store = build(SqlxSessionFairing::new().with_lifetime(secs(i64::MAX)));
    put(&mut store, session("a", 50, 50));
    out_of_range(SQLxSession::from_request_at(&mut store, Some("a"), at(20)));
    assert_eq!(held(&store, "a").expires, at(50));
    loading(SQLxSession::from_request_at(&mut store, Some("b"), at(20)));
    let id = SQLxSessionID::new("b".to_string());
    out_of_range(SQLxSession::cleaned_at(&mut store, id, at(20)));
    assert_eq!(store.timers.last_database_expiry_sweep, at(21_600));
    let id = SQLxSessionID::new("b".to_string());
    out_of_range(SQLxSession::loaded_at(&mut store, id, no_row(), at(20)));
    out_of_range(SQLxSession::create_at(&mut store, "t".to_string(), at(20)));
    assert_eq!(store.inner.len(), 1);
}

#[test]
fn live_row_needs_no_lifespan() {
    for lifespan in [i64::MAX, 10_000_000_000_000] {
        let mut store = build(SqlxSessionFairing::new().with_lifetime(secs(lifespan)));
        let id = SQLxSessionID::new("a".to_string());
        let row: Result<Option<SQLxSessionData>, ()> = Ok(Some(session("a", 40, 10)));
        assert_eq!(ready(SQLxSession::loaded_at(&mut store, id, row, at(30))), "a");
        assert_eq!(held(&store, "a").expires, at(40));
        assert_eq!(held(&store, "a").data.get("k"), Some(&"v".to_string()));
        let id = SQLxSessionID::new("b".to_string());
        let row: Result<Option<SQLxSessionData>, ()> = Ok(Some(session("b", 29, 10)));
        out_of_range(SQLxSession::loaded_at(&mut store, id, row, at(30)));
        assert_eq!(store.inner.len(), 1);
    }
}

#[test]
fn memory_lifespan_out_of_range_is_reported() {
    let mut store = build(SqlxSessionFairing::new().with_memory_lifetime(secs(MAX_SECS)));
    put(&mut store, session("a", 50, 50));
    out_of_range(SQLxSession::from_request_at(&mut store, Some("a"), at(1)));
    out_of_range(SQLxSession::from_request_at(&mut store, Some("b"), at(3_600)));
    assert_eq!(store.inner.len(), 1);
    out_of_range(SQLxSession::create_at(&mut store, "t".to_string(), at(1)));
    let id = SQLxSessionID::new("b".to_string());
    let row: Result<Option<SQLxSessionData>, ()> = Ok(Some(session("b", 40, 10)));
    out_of_range(SQLxSession::loaded_at(&mut store, id, row, at(1)));
    assert_eq!(store.inner.len(), 1);
    assert_eq!(ready(SQLxSession::from_request_at(&mut store, Some("a"), at(0))), "a");
}

#[test]
fn negative_lifespan_expires_at_once() {
    let mut store = build(SqlxSessionFairing::new().with_lifetime(Span {
        secs: -1,
        nanos: 999_999_999,
    }));
    put(&mut store, session("a", 50, 50));
    assert_eq!(ready(SQLxSession::from_request_at(&mut store, Some("a"), at(20))), "a");
    assert_eq!(held(&store, "a").expires, Timestamp { secs: 19, nanos: 999_999_999 });
    assert!(!held(&store, "a").validate_at(at(20)));
}

#[test]
fn spans_carry_over_the_second() {
    let mut store = build(SqlxSessionFairing::new().with_lifetime(Span {
        secs: 1,
        nanos: 600_000_000,
    }));
    put(&mut store, session("a", 50, 50));
    let now = Timestamp { secs: 20, nanos: 500_000_000 };
    assert_eq!(ready(SQLxSession::from_request_at(&mut store, Some("a"), now)), "a");
    assert_eq!(held(&store, "a").expires, Timestamp { secs: 22, nanos: 100_000_000 });
}

#[test]
fn request_goes_by_the_clock() {
    let mut store = store();
    put(&mut store, session("a", 50, 50));
    assert_eq!(ready(SQLxSession::from_request(&mut store, Some("a"))), "a");
    assert_eq!(held(&store, "a").data.len(), 0);
    assert!(held(&store, "a").validate());
}

#[test]
fn session_goes_on_from_request_to_request() {
    let mut store = store();
    let id = ready(SQLxSession::create_at(&mut store, "tok".to_string(), at(0)));
    let session = SQLxSession::new(SQLxSessionID::new(id.clone()));
    session.set(&mut store, "count", &1u32, |value: &u32| Ok::<String, ()>(value.to_string()));
    assert_eq!(held(&store, &id).expires, at(1_000));
    assert_eq!(ready(SQLxSession::from_request_at(&mut store, Some(&id), at(10))), id);
    assert_eq!(held(&store, &id).expires, at(1_010));
    assert_eq!(
        session.get(&store, "count", |text: &str| text.parse::<u32>().ok()),
        Some(1)
    );
}

#[test]
fn session_comes_back_from_the_database() {
    let mut first = store();
    ready(SQLxSession::create_at(&mut first, "tok".to_string(), at(0)));
    let handle = SQLxSession::new(SQLxSessionID::new("tok".to_string()));
    handle.set(&mut first, "count", &1u32, |value: &u32| Ok::<String, ()>(value.to_string()));
    let row: Result<Option<SQLxSessionData>, ()> = Ok(Some(held(&first, "tok").clone()));
    let mut second = store();
    let (id, _) = loading(SQLxSession::from_request_at(&mut second, Some("tok"), at(10)));
    assert_eq!(ready(SQLxSession::loaded_at(&mut second, id, row, at(11))), "tok");
    assert_eq!(held(&second, "tok").data.get("count"), Some(&"1".to_string()));
    assert_eq!(held(&second, "tok").expires, held(&first, "tok").expires);
}

#[test]
fn later_sweep_takes_what_an_earlier_one_left() {
    let mut store = store();
    put(&mut store, session("x", 9_000, 3_650));
    put(&mut store, session("y", 9_000, 3_750));
    put(&mut store, session("z", 9_000, 3_850));
    loading(SQLxSession::from_request_at(&mut store, Some("a"), at(3_660)));
    assert!(!store.inner.contains_key("x"));
    assert!(store.inner.contains_key("y"));
    loading(SQLxSession::from_request_at(&mut store, Some("a"), at(3_760)));
    assert!(!store.inner.contains_key("y"));
    assert!(store.inner.contains_key("z"));
}

#[test]
fn unused_session_leaves_memory_after_its_lifespan() {
    let mut store = store();
    put(&mut store, session("a", 9_000, 1));
    assert_eq!(ready(SQLxSession::from_request_at(&mut store, Some("a"), at(3_500))), "a");
    loading(SQLxSession::from_request_at(&mut store, Some("b"), at(3_600)));
    assert!(!store.inner.contains_key("a"));
    put(&mut store, session("c", 9_000, 1));
    assert_eq!(ready(SQLxSession::from_request_at(&mut store, Some("c"), at(3_601))), "c");
    loading(SQLxSession::from_request_at(&mut store, Some("b"), at(3_700)));
    assert!(store.inner.contains_key("c"));
}
