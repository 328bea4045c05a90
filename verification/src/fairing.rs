//! What the fairing does when it is attached, and when a response goes out.

use crate::config::{ConfigView, ConnectSettings, ConnectSettingsView, SqlxSessionFairing};
use crate::data::{SQLxSessionData, SessionView};
use crate::request::SessionError;
use crate::session::SQLxSessionID;
use crate::statement::{Statement, StatementView};
use crate::store::{SQLxSessionStore, StoreView};
use crate::time::{clock_now, Timestamp};
use vstd::prelude::*;

verus! {

/// Where the fairing gets its database pool from.
#[derive(Debug)]
pub enum PoolSource<'a, P> {
    /// From the one who built the fairing.
    Shared(&'a P),
    /// From a connection of its own.
    Connect(ConnectSettings),
}

/// What becomes of a session in the database when a response goes out.
#[derive(Debug)]
pub enum Persist {
    /// It is deleted.
    Destroy(Statement),
    /// It is written.
    Store(SQLxSessionData),
}

/// What a change in the database stands for.
pub enum PersistView {
    Destroy(StatementView),
    Store(SessionView),
}

impl View for Persist {
    type V = PersistView;

    open spec fn view(&self) -> PersistView {
        match self {
            Persist::Destroy(statement) => PersistView::Destroy(statement@),
            Persist::Store(session) => PersistView::Store(session@),
        }
    }
}

/// The cookie that carries a session ID.
#[derive(Debug)]
pub struct SessionCookie {
    pub name: String,
    pub value: String,
    pub path: String,
}

/// What a session cookie stands for.
pub struct CookieView {
    pub name: Seq<char>,
    pub value: Seq<char>,
    pub path: Seq<char>,
}

impl View for SessionCookie {
    type V = CookieView;

    open spec fn view(&self) -> CookieView {
        CookieView { name: self.name@, value: self.value@, path: self.path@ }
    }
}

impl CookieView {
    /// The cookie that brings a session back, with the name and the path that are set.
    pub open spec fn of(config: ConfigView, id: Seq<char>) -> CookieView {
        CookieView { name: config.cookie_name, value: id, path: config.cookie_path }
    }
}

/// What happens when a response goes out.
#[derive(Debug)]
pub struct ResponsePlan {
    /// The change in the database.
    pub persist: Option<Persist>,
    /// The cookie that the response carries.
    pub cookie: Option<SessionCookie>,
}

impl ResponsePlan {
    /// The change in the database.
    pub open spec fn persist_view(&self) -> Option<PersistView> {
        match self.persist {
            Some(persist) => Some(persist@),
            None => None,
        }
    }

    /// The cookie.
    pub open spec fn cookie_view(&self) -> Option<CookieView> {
        match self.cookie {
            Some(cookie) => Some(cookie@),
            None => None,
        }
    }
}

impl StoreView {
    /// What becomes of a session in the database when a response goes out: it is deleted if it is
    /// marked for destruction, and written if it is not. A session that is not in memory is left
    /// alone.
    pub open spec fn persisted(self, id: Seq<char>) -> Option<PersistView> {
        if self.sessions.contains_key(id) {
            if self.sessions[id].destroy {
                Some(PersistView::Destroy(self.destroy_statement(id)))
            } else {
                Some(PersistView::Store(self.sessions[id]))
            }
        } else {
            None
        }
    }
}

impl<P> SqlxSessionFairing<P> {
    /// Where the fairing gets its database pool from when it is attached.
    pub fn on_attach(&self) -> (source: PoolSource<'_, P>)
        ensures
            match self.poll_view() {
                Some(poll) => source == PoolSource::Shared(&poll),
                None => source matches PoolSource::Connect(settings) && settings@
                    == ConnectSettingsView::of(self.config_view()) && settings.max_connections >= 1,
            },
    {
        match self.poll() {
            Some(poll) => PoolSource::Shared(poll),
            None => PoolSource::Connect(self.config().connect_settings()),
        }
    }

    /// The store to manage once there is a pool, at an instant: none, where connecting failed.
    pub fn attached_at<C, E>(&self, pool: Result<C, E>, now: Timestamp) -> (store: Result<
        Option<SQLxSessionStore<C>>,
        SessionError,
    >)
        requires
            now.regular(),
        ensures
            match pool {
                Ok(client) => match StoreView::starting(self.config_view(), now) {
                    Some(expected) => store matches Ok(Some(s)) && s@ == expected && s.client
                        == client,
                    None => store == Err::<Option<SQLxSessionStore<C>>, SessionError>(
                        SessionError::ClockOutOfRange,
                    ),
                },
                Err(_) => store == Ok::<Option<SQLxSessionStore<C>>, SessionError>(None),
            },
    {
        match pool {
            Ok(client) => match SQLxSessionStore::new_at(client, self.config().clone(), now) {
                Some(store) => Ok(Some(store)),
                None => Err(SessionError::ClockOutOfRange),
            },
            Err(_) => Ok(None),
        }
    }

    /// The store to manage once there is a pool: none, where connecting failed.
    pub fn attached<C, E>(&self, pool: Result<C, E>) -> (store: Result<
        Option<SQLxSessionStore<C>>,
        SessionError,
    >)
        ensures
            match pool {
                Ok(client) => exists|now: Timestamp| #[trigger]
                    now.regular() && crate::time::clock_shows(now) && match StoreView::starting(self.config_view(), now) {
                        Some(expected) => store matches Ok(Some(s)) && s@ == expected && s.client
                            == client,
                        None => store == Err::<Option<SQLxSessionStore<C>>, SessionError>(
                            SessionError::ClockOutOfRange,
                        ),
                    },
                Err(_) => store == Ok::<Option<SQLxSessionStore<C>>, SessionError>(None),
            },
    {
        self.attached_at(pool, clock_now())
    }

    /// What happens when the response to a request with a session goes out. A request without
    /// one has an empty ID.
    pub fn on_response<C>(
        &self,
        session_id: &SQLxSessionID,
        store: Option<&SQLxSessionStore<C>>,
    ) -> (plan: ResponsePlan)
        ensures
            plan.cookie_view() == if session_id@.len() > 0 {
                Some(CookieView::of(self.config_view(), session_id@))
            } else {
                None
            },
            plan.persist_view() == match store {
                Some(store) if session_id@.len() > 0 => store@.persisted(session_id@),
                _ => None,
            },
    {
        if session_id.is_empty() {
            return ResponsePlan { persist: None, cookie: None };
        }
        let persist = match store {
            Some(store) => match store.inner.get(session_id.as_str()) {
                Some(session) => if session.destroy {
                    Some(Persist::Destroy(store.destroy_session(session_id.as_str())))
                } else {
                    Some(Persist::Store(session.clone()))
                },
                None => None,
            },
            None => None,
        };
        ResponsePlan {
            persist,
            cookie: Some(
                SessionCookie {
                    name: self.config().cookie_name().to_owned(),
                    value: session_id.to_string(),
                    path: self.config().cookie_path().to_owned(),
                },
            ),
        }
    }
}

}
