//! The session of a request.

use crate::data::{SQLxSessionData, SessionView};
use crate::statement::Statement;
use crate::store::SQLxSessionStore;
use crate::string_map::StringMap;
use vstd::prelude::*;

verus! {

/// The ID of a session.
#[derive(Debug)]
pub struct SQLxSessionID(String);

impl View for SQLxSessionID {
    type V = Seq<char>;

    closed spec fn view(&self) -> Seq<char> {
        self.0@
    }
}

impl Clone for SQLxSessionID {
    fn clone(&self) -> (copy: Self)
        ensures
            copy@ == self@,
    {
        SQLxSessionID(self.0.clone())
    }
}

impl SQLxSessionID {
    /// The ID with a given text.
    pub fn new(id: String) -> (session_id: Self)
        ensures
            session_id@ == id@,
    {
        SQLxSessionID(id)
    }

    /// The ID's text.
    pub fn as_str(&self) -> (text: &str)
        ensures
            text@ == self@,
    {
        self.0.as_str()
    }

    /// The ID's text.
    pub fn to_string(&self) -> (text: String)
        ensures
            text@ == self@,
    {
        self.0.clone()
    }

    /// Whether the ID is empty.
    pub fn is_empty(&self) -> (empty: bool)
        ensures
            empty == (self@.len() == 0),
    {
        self.0.as_str().is_empty()
    }
}

/// What a read of a key gives, with what decodes the text that is stored there.
pub open spec fn read_gives<T, F: FnOnce(&str) -> Option<T>>(
    data: Map<Seq<char>, Seq<char>>,
    key: Seq<char>,
    decode: F,
    value: Option<T>,
) -> bool {
    if data.contains_key(key) {
        exists|text: &str|
            text@ == data[key] && #[trigger] call_ensures(decode, (text,), value)
    } else {
        value is None
    }
}

/// The text that is stored for a value: an empty one, where the value could not be encoded.
pub open spec fn stored_text<E>(encoded: Result<String, E>) -> Seq<char> {
    match encoded {
        Ok(text) => text@,
        Err(_) => Seq::empty(),
    }
}

impl SessionView {
    /// The session with a text stored under a key.
    pub open spec fn with_value(self, key: Seq<char>, text: Seq<char>) -> SessionView {
        SessionView { data: self.data.insert(key, text), ..self }
    }

    /// The session without what was stored under a key.
    pub open spec fn without_value(self, key: Seq<char>) -> SessionView {
        SessionView { data: self.data.remove(key), ..self }
    }

    /// The session, marked for destruction.
    pub open spec fn destroyed(self) -> SessionView {
        SessionView { destroy: true, ..self }
    }
}

/// The session of a request.
#[derive(Debug)]
pub struct SQLxSession {
    id: SQLxSessionID,
}

impl View for SQLxSession {
    type V = Seq<char>;

    closed spec fn view(&self) -> Seq<char> {
        self.id@
    }
}

impl SQLxSession {
    /// The session with an ID.
    pub fn new(id: SQLxSessionID) -> (session: Self)
        ensures
            session@ == id@,
    {
        SQLxSession { id }
    }

    /// The session's ID.
    pub fn id(&self) -> (id: &SQLxSessionID)
        ensures
            id@ == self@,
    {
        &self.id
    }

    /// Hands the session in memory to a function, which changes it in its place.
    pub fn tap<C, T, F: FnOnce(&mut SQLxSessionData) -> Option<T>>(
        &self,
        store: &mut SQLxSessionStore<C>,
        func: F,
    ) -> (result: Option<T>)
        requires
            old(store)@.sessions.contains_key(self@),
            forall|session: &mut SQLxSessionData|
                *session == old(store).inner@[self@] ==> #[trigger] call_requires(
                    func,
                    (session,),
                ),
        ensures
            exists|session: &mut SQLxSessionData|
                {
                    &&& *session == old(store).inner@[self@]
                    &&& session@ == old(store)@.sessions[self@]
                    &&& #[trigger] call_ensures(func, (session,), result)
                    &&& final(store).inner@ == old(store).inner@.insert(self@, *final(session))
                    &&& final(store)@ == old(store)@.with_session(self@, final(session)@)
                },
            final(store).client == old(store).client,
            final(store).config == old(store).config,
            final(store).timers == old(store).timers,
    {
        match store.inner.get_mut(self.id.as_str()) {
            Some(session) => {
                let ghost changed = *final(session);
                let result = func(session);
                assert(store@.sessions =~= old(store)@.sessions.insert(self@, changed@));
                result
            },
            None => None,
        }
    }

    /// Marks the session for destruction.
    pub fn destroy<C>(&self, store: &mut SQLxSessionStore<C>)
        requires
            old(store)@.sessions.contains_key(self@),
        ensures
            final(store)@ == old(store)@.with_session(
                self@,
                old(store)@.sessions[self@].destroyed(),
            ),
            final(store).client == old(store).client,
    {
        let mark = |session: &mut SQLxSessionData| -> (done: Option<u8>)
            ensures
                final(session)@ == old(session)@.destroyed(),
            {
                session.destroy = true;
                Some(1)
            };
        self.tap(store, mark);
    }

    /// The value under a key, as `decode` reads the text that is stored there. There is none
    /// without such a text.
    pub fn get<C, T, F: FnOnce(&str) -> Option<T>>(
        &self,
        store: &SQLxSessionStore<C>,
        key: &str,
        decode: F,
    ) -> (value: Option<T>)
        requires
            store@.sessions.contains_key(self@),
            forall|text: &str|
                store@.sessions[self@].data.contains_key(key@) && text@
                    == store@.sessions[self@].data[key@] ==> #[trigger] call_requires(
                    decode,
                    (text,),
                ),
        ensures
            read_gives(store@.sessions[self@].data, key@, decode, value),
    {
        match store.inner.get(self.id.as_str()) {
            Some(session) => match session.data.get(key) {
                Some(string) => {
                    let text = string.as_str();
                    decode(text)
                },
                None => None,
            },
            None => None,
        }
    }

    /// Stores a value under a key, as the text that `encode` makes of it: an empty one, where it
    /// could not be encoded.
    pub fn set<C, V, E, F: FnOnce(&V) -> Result<String, E>>(
        &self,
        store: &mut SQLxSessionStore<C>,
        key: &str,
        value: &V,
        encode: F,
    )
        requires
            old(store)@.sessions.contains_key(self@),
            call_requires(encode, (value,)),
        ensures
            exists|encoded: Result<String, E>|
                {
                    &&& #[trigger] call_ensures(encode, (value,), encoded)
                    &&& final(store)@ == old(store)@.with_session(
                        self@,
                        old(store)@.sessions[self@].with_value(key@, stored_text(encoded)),
                    )
                },
            final(store).client == old(store).client,
    {
        let encoded = encode(value);
        let ghost outcome = encoded;
        let text = match encoded {
            Ok(text) => text,
            Err(_) => String::new(),
        };
        let put = |session: &mut SQLxSessionData| -> (done: Option<u8>)
            ensures
                final(session)@ == old(session)@.with_value(key@, text@),
            {
                let ghost before = session@;
                let differs = match session.data.get(key) {
                    Some(held) => *held != text,
                    None => true,
                };
                if differs {
                    session.data.insert(key.to_owned(), text);
                }
                assert(session@.data =~= before.data.insert(key@, text@));
                Some(1)
            };
        self.tap(store, put);
        assert(call_ensures(encode, (value,), outcome));
    }

    /// Removes what is stored under a key.
    pub fn remove<C>(&self, store: &mut SQLxSessionStore<C>, key: &str)
        requires
            old(store)@.sessions.contains_key(self@),
        ensures
            final(store)@ == old(store)@.with_session(
                self@,
                old(store)@.sessions[self@].without_value(key@),
            ),
            final(store).client == old(store).client,
    {
        let drop_key = |session: &mut SQLxSessionData| -> (removed: Option<String>)
            ensures
                final(session)@ == old(session)@.without_value(key@),
            {
                let ghost before = session@;
                let removed = session.data.remove(key);
                assert(session@.data =~= before.data.remove(key@));
                removed
            };
        self.tap(store, drop_key);
    }

    /// Removes everything that is stored in the session, and gives the statement that deletes
    /// every session in the database.
    pub fn clear_all<C>(&self, store: &mut SQLxSessionStore<C>) -> (statement: Statement)
        requires
            old(store)@.sessions.contains_key(self@),
        ensures
            final(store)@ == old(store)@.with_session(
                self@,
                old(store)@.sessions[self@].cleared(),
            ),
            final(store).client == old(store).client,
            statement@ == old(store)@.clear_statement(),
    {
        let clear = |session: &mut SQLxSessionData| -> (done: Option<u8>)
            ensures
                final(session)@ == old(session)@.cleared(),
            {
                session.data = StringMap::new();
                assert(session@.data =~= Map::empty());
                Some(1)
            };
        self.tap(store, clear);
        store.clear_store()
    }

    /// The number of sessions in the database, from the reply to the statement that counts them:
    /// 0, where it failed.
    pub fn count<E>(&self, reply: Result<i64, E>) -> (count: i64)
        ensures
            count == match reply {
                Ok(count) => count,
                Err(_) => 0,
            },
    {
        match reply {
            Ok(count) => count,
            Err(_) => 0,
        }
    }
}

}
