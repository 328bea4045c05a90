use rocket_sqlxsession::config::SqlxSessionFairing;
use rocket_sqlxsession::data::SQLxSessionData;
use rocket_sqlxsession::fairing::{Persist, ResponsePlan};
use rocket_sqlxsession::request::SessionError;
use rocket_sqlxsession::session::{SQLxSession, SQLxSessionID};
use rocket_sqlxsession::statement::Param;
use rocket_sqlxsession::store::SQLxSessionStore;
use rocket_sqlxsession::time::{Span, Timestamp, MAX_SECS};
use serde::Deserialize;

fn at(secs: i64) -> Timestamp {
    Timestamp { secs, nanos: 0 }
}

fn fairing() -> SqlxSessionFairing<()> {
    SqlxSessionFairing::new()
}

/// A store with the sessions "a" and "b", and the session "a".
fn opened() -> (SQLxSessionStore<()>, SQLxSession) {
    let mut store = SQLxSessionStore::new_at((), fairing().config().clone(), at(0)).unwrap();
    assert!(SQLxSession::create_at(&mut store, "a".to_string(), at(0)).is_ok());
    assert!(SQLxSession::create_at(&mut store, "b".to_string(), at(0)).is_ok());
    (store, SQLxSession::new(SQLxSessionID::new("a".to_string())))
}

fn get<'a, T: Deserialize<'a>>(text: &'a str) -> Option<T> {
    serde_json::from_str(text).ok()
}

fn put(session: &SQLxSession, store: &mut SQLxSessionStore<()>, key: &str, text: &str) {
    session.set(store, key, &text, |text: &&str| Ok::<String, ()>(text.to_string()));
}

fn held<'a>(store: &'a SQLxSessionStore<()>, id: &str) -> &'a SQLxSessionData {
    store.inner.get(id).unwrap()
}

fn cookie(plan: &ResponsePlan) -> Option<(&str, &str, &str)> {
    plan.cookie.as_ref().map(|c| (c.name.as_str(), c.value.as_str(), c.path.as_str()))
}

#[test]
fn id_is_its_text() {
    let id = SQLxSessionID::new("abc".to_string());
    assert_eq!(id.to_string(), "abc");
    assert_eq!(id.as_str(), "abc");
    assert_eq!(id.clone().to_string(), "abc");
    assert!(!id.is_empty());
    assert!(SQLxSessionID::new(String::new()).is_empty());
    assert_eq!(SQLxSession::new(id).id().as_str(), "abc");
}

#[test]
fn visits_are_counted() {
    let (mut store, session) = opened();
    for visit in 1..4usize {
        let mut count: usize = session.get(&store, "count", |text: &str| get(text)).unwrap_or(0);
        count += 1;
        session.set(&mut store, "count", &count, |value: &usize| serde_json::to_string(value));
        assert_eq!(count, visit);
    }
    assert_eq!(held(&store, "a").data.get("count"), Some(&"3".to_string()));
}

#[test]
fn anything_serializable_can_be_stored() {
    let (mut store, session) = opened();
    let list = vec![Some("x".to_string()), None];
    session.set(&mut store, "list", &list, |value: &Vec<Option<String>>| {
        serde_json::to_string(value)
    });
    session.set(&mut store, "pair", &(1u8, -2i64), |value: &(u8, i64)| {
        serde_json::to_string(value)
    });
    assert_eq!(
        session.get(&store, "list", |text: &str| get::<Vec<Option<String>>>(text)),
        Some(list)
    );
    assert_eq!(session.get(&store, "pair", |text: &str| get::<(u8, i64)>(text)), Some((1, -2)));
}

#[test]
fn wrong_type_reads_as_nothing() {
    let (mut store, session) = opened();
    session.set(&mut store, "k", &"text", |value: &&str| serde_json::to_string(value));
    assert_eq!(session.get(&store, "k", |text: &str| get::<u32>(text)), None);
    assert_eq!(
        session.get(&store, "k", |text: &str| get::<String>(text)),
        Some("text".to_string())
    );
}

#[test]
fn missing_key_reads_as_nothing() {
    let (store, session) = opened();
    assert_eq!(session.get(&store, "k", |_: &str| Some(1u8)), None);
}

#[test]
fn last_value_counts() {
    let (mut store, session) = opened();
    put(&session, &mut store, "k", "1");
    put(&session, &mut store, "k", "1");
    put(&session, &mut store, "k", "2");
    assert_eq!(held(&store, "a").data.len(), 1);
    assert_eq!(session.get(&store, "k", |text: &str| get::<u8>(text)), Some(2));
}

#[test]
fn value_that_cannot_be_encoded_is_stored_empty() {
    let (mut store, session) = opened();
    session.set(&mut store, "k", &1u8, |_: &u8| Err(7u8));
    assert_eq!(held(&store, "a").data.get("k"), Some(&String::new()));
    assert_eq!(session.get(&store, "k", |text: &str| get::<u8>(text)), None);
}

#[test]
fn sessions_and_keys_are_apart() {
    let (mut store, session) = opened();
    put(&session, &mut store, "k", "1");
    put(&session, &mut store, "l", "2");
    session.remove(&mut store, "k");
    assert_eq!(session.get(&store, "k", |text: &str| get::<u8>(text)), None);
    assert_eq!(session.get(&store, "l", |text: &str| get::<u8>(text)), Some(2));
    assert_eq!(held(&store, "b").data.len(), 0);
    assert!(!held(&store, "b").destroy);
}

#[test]
fn removing_a_missing_key_changes_nothing() {
    let (mut store, session) = opened();
    put(&session, &mut store, "k", "1");
    session.remove(&mut store, "x");
    assert_eq!(held(&store, "a").data.len(), 1);
}

#[test]
fn clearing_empties_the_session() {
    let (mut store, session) = opened();
    put(&session, &mut store, "k", "1");
    let statement = session.clear_all(&mut store);
    assert_eq!(statement.text, "TRUNCATE async_sessions");
    assert_eq!(statement.params.len(), 0);
    assert_eq!(held(&store, "a").data.len(), 0);
    assert_eq!(store.inner.len(), 2);
}

#[test]
fn destroying_marks_and_keeps_the_data() {
    let (mut store, session) = opened();
    put(&session, &mut store, "k", "1");
    session.destroy(&mut store);
    assert!(held(&store, "a").destroy);
    assert_eq!(held(&store, "a").data.len(), 1);
    assert!(!held(&store, "b").destroy);
}

#[test]
fn tap_hands_out_the_session() {
    let (mut store, session) = opened();
    let result = session.tap(&mut store, |data: &mut SQLxSessionData| {
        data.expires = at(5);
        Some(data.id.clone())
    });
    assert_eq!(result, Some("a".to_string()));
    assert_eq!(held(&store, "a").expires, at(5));
    assert_eq!(held(&store, "b").expires, at(21_600));
    let nothing: Option<u8> = session.tap(&mut store, |_: &mut SQLxSessionData| None);
    assert_eq!(nothing, None);
}

#[test]
fn count_is_the_reply() {
    let (_, session) = opened();
    assert_eq!(session.count::<u8>(Ok(12)), 12);
    assert_eq!(session.count::<u8>(Err(3)), 0);
}

#[test]
fn response_writes_the_session_and_sends_its_id() {
    let (mut store, session) = opened();
    put(&session, &mut store, "k", "1");
    let plan = fairing().with_cookie_name("sid").on_response(session.id(), Some(&store));
    assert_eq!(cookie(&plan), Some(("sid", "a", "/")));
    match plan.persist {
        Some(Persist::Store(written)) => {
            assert_eq!(written.id, "a");
            assert_eq!(written.data.get("k"), Some(&"1".to_string()));
            assert_eq!(written.expires, at(21_600));
        }
        other => panic!("not written: {:?}", other),
    }
}

#[test]
fn cookie_has_the_set_path() {
    let (store, session) = opened();
    let fairing = fairing().with_cookie_name("sid").with_cookie_path("/app");
    let plan = fairing.on_response(session.id(), Some(&store));
    assert_eq!(cookie(&plan), Some(("sid", "a", "/app")));
    let plan = fairing.on_response::<()>(session.id(), None);
    assert_eq!(cookie(&plan), Some(("sid", "a", "/app")));
}

#[test]
fn response_deletes_a_destroyed_session() {
    let (mut store, session) = opened();
    session.destroy(&mut store);
    let plan = fairing().on_response(session.id(), Some(&store));
    assert_eq!(cookie(&plan), Some(("sqlx_session", "a", "/")));
    match plan.persist {
        Some(Persist::Destroy(statement)) => {
            assert_eq!(statement.text, "DELETE FROM async_sessions WHERE id = $1");
            assert!(matches!(&statement.params[0], Param::Text(text) if text == "a"));
        }
        other => panic!("not deleted: {:?}", other),
    }
}

#[test]
fn response_without_the_session_only_sends_the_cookie() {
    let (store, _) = opened();
    let id = SQLxSessionID::new("gone".to_string());
    let plan = fairing().on_response(&id, Some(&store));
    assert_eq!(cookie(&plan), Some(("sqlx_session", "gone", "/")));
    assert!(plan.persist.is_none());
    let plan = fairing().on_response::<()>(&id, None);
    assert_eq!(cookie(&plan), Some(("sqlx_session", "gone", "/")));
    assert!(plan.persist.is_none());
}

#[test]
fn response_without_an_id_does_nothing() {
    let (mut store, _) = opened();
    assert!(SQLxSession::create_at(&mut store, String::new(), at(0)).is_ok());
    let plan = fairing().on_response(&SQLxSessionID::new(String::new()), Some(&store));
    assert_eq!(cookie(&plan), None);
    assert!(plan.persist.is_none());
}

#[test]
fn attached_store_has_the_settings_of_the_fairing() {
    let fairing = fairing().with_cookie_name("sid").with_table_name("t");
    let pool: Result<u8, ()> = Ok(9);
    let store = fairing.attached_at(pool, at(50)).unwrap().unwrap();
    assert_eq!(store.client, 9);
    assert_eq!(store.config.cookie_name(), "sid");
    assert_eq!(store.config.table_name(), "t");
    assert_eq!(store.inner.len(), 0);
    assert_eq!(store.timers.last_expiry_sweep, at(3_650));
    assert_eq!(store.timers.last_database_expiry_sweep, at(21_650));
}

#[test]
fn first_sweeps_are_due_after_the_set_lifespans() {
    let fairing = fairing()
        .with_lifetime(Span { secs: 7_200, nanos: 0 })
        .with_memory_lifetime(Span { secs: 300, nanos: 0 });
    let pool: Result<u8, ()> = Ok(9);
    let store = fairing.attached_at(pool, at(50)).unwrap().unwrap();
    assert_eq!(store.timers.last_expiry_sweep, at(350));
    assert_eq!(store.timers.last_database_expiry_sweep, at(7_250));
}

#[test]
fn failed_connection_gives_no_store() {
    let failed: Result<u8, u8> = Err(1);
    assert!(matches!(fairing().attached_at(failed, at(50)), Ok(None)));
    let failed: Result<u8, u8> = Err(1);
    assert!(matches!(fairing().attached(failed), Ok(None)));
    let pool: Result<u8, u8> = Ok(1);
    assert!(matches!(fairing().attached(pool), Ok(Some(_))));
}

#[test]
fn no_store_is_attached_at_the_end_of_time() {
    let pool: Result<u8, u8> = Ok(1);
    match fairing().attached_at(pool, at(MAX_SECS)) {
        Err(error) => assert_eq!(error, SessionError::ClockOutOfRange),
        Ok(_) => panic!("attached"),
    }
}
