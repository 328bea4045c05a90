//! The sessions in memory, and the statements that keep them in the database.

use crate::config::{ConfigView, SqlxSessionConfig};
use crate::data::{SQLxSessionData, SessionView};
use crate::statement::{Param, ParamView, Statement, StatementView};
use crate::string_map::StringMap;
use crate::time::{checked_add_signed, clock_now, Timestamp};
use vstd::prelude::*;

verus! {

/// When the next sweeps are due.
#[derive(Clone, Copy, Debug, PartialEq, Eq, Structural)]
pub struct SQLxTimers {
    pub last_expiry_sweep: Timestamp,
    pub last_database_expiry_sweep: Timestamp,
}

impl SQLxTimers {
    /// The timers as they begin: the first sweeps are due one lifespan from the start, the one in
    /// memory for the memory, and the one in the database for the database.
    pub open spec fn starting(config: ConfigView, now: Timestamp) -> Option<SQLxTimers> {
        match (now.plus(config.memory_lifespan), now.plus(config.lifespan)) {
            (Some(last_expiry_sweep), Some(last_database_expiry_sweep)) => Some(
                SQLxTimers { last_expiry_sweep, last_database_expiry_sweep },
            ),
            _ => None,
        }
    }
}

/// The sessions in memory, with what is needed to reach the database.
#[derive(Debug)]
pub struct SQLxSessionStore<C> {
    pub client: C,
    pub inner: StringMap<SQLxSessionData>,
    pub config: SqlxSessionConfig,
    pub timers: SQLxTimers,
}

/// What a store holds, apart from the way to the database.
#[verifier::ext_equal]
pub struct StoreView {
    pub sessions: Map<Seq<char>, SessionView>,
    pub config: ConfigView,
    pub timers: SQLxTimers,
}

impl<C> View for SQLxSessionStore<C> {
    type V = StoreView;

    open spec fn view(&self) -> StoreView {
        StoreView {
            sessions: self.inner@.map_values(|session: SQLxSessionData| session@),
            config: self.config@,
            timers: self.timers,
        }
    }
}

impl StoreView {
    /// The store as it begins, without sessions.
    pub open spec fn starting(config: ConfigView, now: Timestamp) -> Option<StoreView> {
        match SQLxTimers::starting(config, now) {
            Some(timers) => Some(StoreView { sessions: Map::empty(), config, timers }),
            None => None,
        }
    }

    /// The store with a session put under a key.
    pub open spec fn with_session(self, key: Seq<char>, session: SessionView) -> StoreView {
        StoreView { sessions: self.sessions.insert(key, session), ..self }
    }

    /// Creates the table, if there is none.
    pub open spec fn migrate_statement(self) -> StatementView {
        StatementView {
            text: "
            CREATE TABLE IF NOT EXISTS "@ + self.config.table_name
                + " (
                \"id\" VARCHAR NOT NULL PRIMARY KEY,
                \"expires\" TIMESTAMP WITH TIME ZONE NULL,
                \"session\" TEXT NOT NULL
            )
            "@,
            params: seq![],
        }
    }

    /// Deletes the sessions that have expired.
    pub open spec fn cleanup_statement(self, now: Timestamp) -> StatementView {
        StatementView {
            text: "DELETE FROM "@ + self.config.table_name + " WHERE expires < $1"@,
            params: seq![ParamView::Time(now)],
        }
    }

    /// Counts the sessions.
    pub open spec fn count_statement(self) -> StatementView {
        StatementView { text: "SELECT COUNT(*) FROM "@ + self.config.table_name, params: seq![] }
    }

    /// Reads a session that has not expired.
    pub open spec fn load_statement(self, id: Seq<char>, now: Timestamp) -> StatementView {
        StatementView {
            text: "SELECT session FROM "@ + self.config.table_name
                + " WHERE id = $1 AND (expires IS NULL OR expires > $2)"@,
            params: seq![ParamView::Text(id), ParamView::Time(now)],
        }
    }

    /// Writes a row, in place of the one with the same ID.
    pub open spec fn write_statement(
        self,
        id: Seq<char>,
        encoded: Seq<char>,
        expires: Timestamp,
    ) -> StatementView {
        StatementView {
            text: "
            INSERT INTO "@ + self.config.table_name
                + "
              (id, session, expires) SELECT $1, $2, $3
            ON CONFLICT(id) DO UPDATE SET
              expires = EXCLUDED.expires,
              session = EXCLUDED.session
            "@,
            params: seq![
                ParamView::Text(id),
                ParamView::Text(encoded),
                ParamView::Time(expires),
            ],
        }
    }

    /// Writes a session, in place of the one with the same ID.
    pub open spec fn store_statement(
        self,
        session: SessionView,
        encoded: Seq<char>,
    ) -> StatementView {
        self.write_statement(session.id, encoded, session.expires)
    }

    /// What writing a session gives, with what encodes it: the statement, or the error of the
    /// encoding.
    pub open spec fn store_gives<E, F: FnOnce(&SQLxSessionData) -> Result<String, E>>(
        self,
        session: SQLxSessionData,
        encode: F,
        statement: Result<Statement, E>,
    ) -> bool {
        exists|encoded: Result<String, E>|
            {
                &&& #[trigger] call_ensures(encode, (&session,), encoded)
                &&& match encoded {
                    Ok(text) => match statement {
                        Ok(s) => s@ == self.store_statement(session@, text@),
                        Err(_) => false,
                    },
                    Err(error) => statement == Err::<Statement, E>(error),
                }
            }
    }

    /// Deletes a session.
    pub open spec fn destroy_statement(self, id: Seq<char>) -> StatementView {
        StatementView {
            text: "DELETE FROM "@ + self.config.table_name + " WHERE id = $1"@,
            params: seq![ParamView::Text(id)],
        }
    }

    /// Deletes every session.
    pub open spec fn clear_statement(self) -> StatementView {
        StatementView { text: "TRUNCATE "@ + self.config.table_name, params: seq![] }
    }
}

/// The text that a row holds, where there is a row.
pub open spec fn row_text(row: Option<String>) -> Option<Seq<char>> {
    match row {
        Some(text) => Some(text@),
        None => None,
    }
}

/// What a read of the table gives, with what decodes a row's text: nothing without a row, the
/// session that was decoded, or the error of the decoding.
pub open spec fn row_gives<E, F: FnOnce(&str) -> Result<SQLxSessionData, E>>(
    row: Option<Seq<char>>,
    decode: F,
    loaded: Result<Option<SQLxSessionData>, E>,
) -> bool {
    match row {
        None => loaded == Ok::<Option<SQLxSessionData>, E>(None),
        Some(session) => exists|text: &str, decoded: Result<SQLxSessionData, E>|
            {
                &&& text@ == session
                &&& #[trigger] call_ensures(decode, (text,), decoded)
                &&& loaded == match decoded {
                    Ok(found) => Ok(Some(found)),
                    Err(error) => Err::<Option<SQLxSessionData>, E>(error),
                }
            },
    }
}

/// A query with one marker, and no `%` beside it, takes the name in the marker's place.
proof fn lemma_substituted(query: Seq<char>, start: Seq<char>, end: Seq<char>, name: Seq<char>)
    requires
        query == start + "%%TABLE_NAME%%"@ + end,
        !start.contains('%'),
        !end.contains('%'),
    ensures
        crate::text::substituted(query, name) == start + name + end,
{
    reveal_strlit("%%TABLE_NAME%%");
    crate::text::lemma_replaced_between(start, "%%TABLE_NAME%%"@, end, name);
}

impl<C> SQLxSessionStore<C> {
    /// A store without sessions, at an instant. There is none where the instants at which the
    /// sweeps are due lie outside what can be represented.
    pub fn new_at(client: C, config: SqlxSessionConfig, now: Timestamp) -> (store: Option<Self>)
        requires
            now.regular(),
        ensures
            match (store, StoreView::starting(config@, now)) {
                (Some(s), Some(expected)) => s@ == expected && s.client == client,
                (None, None) => true,
                _ => false,
            },
    {
        match (
            checked_add_signed(now, config.memory_lifespan()),
            checked_add_signed(now, config.lifespan()),
        ) {
            (Some(last_expiry_sweep), Some(last_database_expiry_sweep)) => {
                let store = SQLxSessionStore {
                    client,
                    inner: StringMap::new(),
                    config,
                    timers: SQLxTimers { last_expiry_sweep, last_database_expiry_sweep },
                };
                assert(store@.sessions =~= Map::empty());
                Some(store)
            },
            _ => None,
        }
    }

    /// A store without sessions.
    pub fn new(client: C, config: SqlxSessionConfig) -> (store: Option<Self>)
        ensures
            exists|now: Timestamp| #[trigger]
                now.regular() && crate::time::clock_shows(now) && match (store, StoreView::starting(config@, now)) {
                    (Some(s), Some(expected)) => s@ == expected && s.client == client,
                    (None, None) => true,
                    _ => false,
                },
    {
        SQLxSessionStore::new_at(client, config, clock_now())
    }

    /// A query with the table's name put in where it has the marker `%%TABLE_NAME%%`.
    pub fn substitute_table_name(&self, query: &str) -> (text: String)
        ensures
            text@ == crate::text::substituted(query@, self@.config.table_name),
    {
        proof {
            reveal_strlit("%%TABLE_NAME%%");
        }
        crate::text::replace(query, "%%TABLE_NAME%%", self.config.table_name())
    }

    /// The statement that creates the table, if there is none.
    pub fn migrate(&self) -> (statement: Statement)
        ensures
            statement@ == self@.migrate_statement(),
    {
        let query = "
            CREATE TABLE IF NOT EXISTS %%TABLE_NAME%% (
                \"id\" VARCHAR NOT NULL PRIMARY KEY,
                \"expires\" TIMESTAMP WITH TIME ZONE NULL,
                \"session\" TEXT NOT NULL
            )
            ";
        proof {
            let start = "
            CREATE TABLE IF NOT EXISTS ";
            let end = " (
                \"id\" VARCHAR NOT NULL PRIMARY KEY,
                \"expires\" TIMESTAMP WITH TIME ZONE NULL,
                \"session\" TEXT NOT NULL
            )
            ";
            reveal_strlit("%%TABLE_NAME%%");
            reveal_strlit("
            CREATE TABLE IF NOT EXISTS %%TABLE_NAME%% (
                \"id\" VARCHAR NOT NULL PRIMARY KEY,
                \"expires\" TIMESTAMP WITH TIME ZONE NULL,
                \"session\" TEXT NOT NULL
            )
            ");
            reveal_strlit("
            CREATE TABLE IF NOT EXISTS ");
            reveal_strlit(" (
                \"id\" VARCHAR NOT NULL PRIMARY KEY,
                \"expires\" TIMESTAMP WITH TIME ZONE NULL,
                \"session\" TEXT NOT NULL
            )
            ");
            assert(query@ =~= start@ + "%%TABLE_NAME%%"@ + end@);
            lemma_substituted(query@, start@, end@, self@.config.table_name);
        }
        let statement = Statement { text: self.substitute_table_name(query), params: Vec::new() };
        assert(statement@ =~= self@.migrate_statement());
        statement
    }

    /// The statement that deletes what has expired at an instant.
    pub fn cleanup_at(&self, now: Timestamp) -> (statement: Statement)
        ensures
            statement@ == self@.cleanup_statement(now),
    {
        let query = "DELETE FROM %%TABLE_NAME%% WHERE expires < $1";
        proof {
            let start = "DELETE FROM ";
            let end = " WHERE expires < $1";
            reveal_strlit("%%TABLE_NAME%%");
            reveal_strlit("DELETE FROM %%TABLE_NAME%% WHERE expires < $1");
            reveal_strlit("DELETE FROM ");
            reveal_strlit(" WHERE expires < $1");
            assert(query@ =~= start@ + "%%TABLE_NAME%%"@ + end@);
            lemma_substituted(query@, start@, end@, self@.config.table_name);
        }
        let statement = Statement {
            text: self.substitute_table_name(query),
            params: vec![Param::Time(now)],
        };
        assert(statement@ =~= self@.cleanup_statement(now));
        statement
    }

    /// The statement that deletes what has expired now.
    pub fn cleanup(&self) -> (statement: Statement)
        ensures
            exists|now: Timestamp|
                now.regular() && crate::time::clock_shows(now) && statement@ == #[trigger] self@.cleanup_statement(now),
    {
        self.cleanup_at(clock_now())
    }

    /// The statement that counts the sessions.
    pub fn count(&self) -> (statement: Statement)
        ensures
            statement@ == self@.count_statement(),
    {
        let query = "SELECT COUNT(*) FROM %%TABLE_NAME%%";
        proof {
            let start = "SELECT COUNT(*) FROM ";
            let end = Seq::<char>::empty();
            reveal_strlit("%%TABLE_NAME%%");
            reveal_strlit("SELECT COUNT(*) FROM %%TABLE_NAME%%");
            reveal_strlit("SELECT COUNT(*) FROM ");
            assert(query@ =~= start@ + "%%TABLE_NAME%%"@ + end);
            lemma_substituted(query@, start@, end, self@.config.table_name);
        }
        let statement = Statement { text: self.substitute_table_name(query), params: Vec::new() };
        assert(statement@ =~= self@.count_statement());
        statement
    }

    /// The statement that reads a session, if it has not expired at an instant.
    pub fn load_session_at(&self, cookie_value: &str, now: Timestamp) -> (statement: Statement)
        ensures
            statement@ == self@.load_statement(cookie_value@, now),
    {
        let query =
            "SELECT session FROM %%TABLE_NAME%% WHERE id = $1 AND (expires IS NULL OR expires > $2)";
        proof {
            let start = "SELECT session FROM ";
            let end = " WHERE id = $1 AND (expires IS NULL OR expires > $2)";
            reveal_strlit("%%TABLE_NAME%%");
            reveal_strlit(
                "SELECT session FROM %%TABLE_NAME%% WHERE id = $1 AND (expires IS NULL OR expires > $2)",
            );
            reveal_strlit("SELECT session FROM ");
            reveal_strlit(" WHERE id = $1 AND (expires IS NULL OR expires > $2)");
            assert(query@ =~= start@ + "%%TABLE_NAME%%"@ + end@);
            lemma_substituted(query@, start@, end@, self@.config.table_name);
        }
        let statement = Statement {
            text: self.substitute_table_name(query),
            params: vec![Param::Text(cookie_value.to_owned()), Param::Time(now)],
        };
        assert(statement@ =~= self@.load_statement(cookie_value@, now));
        statement
    }

    /// The statement that reads a session, if it has not expired now.
    pub fn load_session(&self, cookie_value: &str) -> (statement: Statement)
        ensures
            exists|now: Timestamp|
                now.regular() && crate::time::clock_shows(now) && statement@ == #[trigger] self@.load_statement(cookie_value@, now),
    {
        self.load_session_at(cookie_value, clock_now())
    }

    /// The session that a read found, as `decode` reads the row's text: none without a row, and
    /// the error of a row that could not be decoded.
    pub fn loaded_session<E, F: FnOnce(&str) -> Result<SQLxSessionData, E>>(
        row: Option<String>,
        decode: F,
    ) -> (loaded: Result<Option<SQLxSessionData>, E>)
        requires
            forall|text: &str|
                row is Some && text@ == row->0@ ==> #[trigger] call_requires(decode, (text,)),
        ensures
            row_gives(row_text(row), decode, loaded),
    {
        match row {
            None => Ok(None),
            Some(session) => {
                let text = session.as_str();
                match decode(text) {
                    Ok(found) => Ok(Some(found)),
                    Err(error) => Err(error),
                }
            },
        }
    }

    /// The statement that writes a session, as the text that `encode` makes of it; the error,
    /// where it could not be encoded.
    pub fn store_session<E, F: FnOnce(&SQLxSessionData) -> Result<String, E>>(
        &self,
        session: &SQLxSessionData,
        encode: F,
    ) -> (statement: Result<Statement, E>)
        requires
            call_requires(encode, (session,)),
        ensures
            self@.store_gives(*session, encode, statement),
    {
        let encoded = encode(session);
        let ghost outcome = encoded;
        let string = match encoded {
            Ok(string) => string,
            Err(error) => {
                assert(call_ensures(encode, (session,), outcome));
                return Err(error);
            },
        };
        let query = "
            INSERT INTO %%TABLE_NAME%%
              (id, session, expires) SELECT $1, $2, $3
            ON CONFLICT(id) DO UPDATE SET
              expires = EXCLUDED.expires,
              session = EXCLUDED.session
            ";
        proof {
            let start = "
            INSERT INTO ";
            let end = "
              (id, session, expires) SELECT $1, $2, $3
            ON CONFLICT(id) DO UPDATE SET
              expires = EXCLUDED.expires,
              session = EXCLUDED.session
            ";
            reveal_strlit("%%TABLE_NAME%%");
            reveal_strlit("
            INSERT INTO %%TABLE_NAME%%
              (id, session, expires) SELECT $1, $2, $3
            ON CONFLICT(id) DO UPDATE SET
              expires = EXCLUDED.expires,
              session = EXCLUDED.session
            ");
            reveal_strlit("
            INSERT INTO ");
            reveal_strlit("
              (id, session, expires) SELECT $1, $2, $3
            ON CONFLICT(id) DO UPDATE SET
              expires = EXCLUDED.expires,
              session = EXCLUDED.session
            ");
            assert(query@ =~= start@ + "%%TABLE_NAME%%"@ + end@);
            lemma_substituted(query@, start@, end@, self@.config.table_name);
        }
        let statement = Statement {
            text: self.substitute_table_name(query),
            params: vec![
                Param::Text(session.id.clone()),
                Param::Text(string),
                Param::Time(session.expires),
            ],
        };
        assert(statement@ =~= self@.store_statement(session@, string@));
        assert(call_ensures(encode, (session,), outcome));
        Ok(statement)
    }

    /// The statement that deletes a session.
    pub fn destroy_session(&self, id: &str) -> (statement: Statement)
        ensures
            statement@ == self@.destroy_statement(id@),
    {
        let query = "DELETE FROM %%TABLE_NAME%% WHERE id = $1";
        proof {
            let start = "DELETE FROM ";
            let end = " WHERE id = $1";
            reveal_strlit("%%TABLE_NAME%%");
            reveal_strlit("DELETE FROM %%TABLE_NAME%% WHERE id = $1");
            reveal_strlit("DELETE FROM ");
            reveal_strlit(" WHERE id = $1");
            assert(query@ =~= start@ + "%%TABLE_NAME%%"@ + end@);
            lemma_substituted(query@, start@, end@, self@.config.table_name);
        }
        let statement = Statement {
            text: self.substitute_table_name(query),
            params: vec![Param::Text(id.to_owned())],
        };
        assert(statement@ =~= self@.destroy_statement(id@));
        statement
    }

    /// The statement that deletes every session.
    pub fn clear_store(&self) -> (statement: Statement)
        ensures
            statement@ == self@.clear_statement(),
    {
        let query = "TRUNCATE %%TABLE_NAME%%";
        proof {
            let start = "TRUNCATE ";
            let end = Seq::<char>::empty();
            reveal_strlit("%%TABLE_NAME%%");
            reveal_strlit("TRUNCATE %%TABLE_NAME%%");
            reveal_strlit("TRUNCATE ");
            assert(query@ =~= start@ + "%%TABLE_NAME%%"@ + end);
            lemma_substituted(query@, start@, end, self@.config.table_name);
        }
        let statement = Statement { text: self.substitute_table_name(query), params: Vec::new() };
        assert(statement@ =~= self@.clear_statement());
        statement
    }
}

}
