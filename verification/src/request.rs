//! How a request comes by its session.
//!
//! A request is taken through steps, with the store held for writing from the first to the last:
//! [`SQLxSession::from_request`] looks the session up in memory, and may ask for the database to
//! be swept ([`RequestStep::Cleanup`], answered with [`SQLxSession::cleaned`]), for the session to
//! be read from the database ([`RequestStep::Load`], answered with [`SQLxSession::loaded`]), or for
//! a new one ([`RequestStep::Create`], answered with [`SQLxSession::create`] until it is there).

use crate::config::ConfigView;
use crate::data::{SQLxSessionData, SessionView};
use crate::session::{SQLxSession, SQLxSessionID};
use crate::statement::{Statement, StatementView};
use crate::store::{SQLxSessionStore, SQLxTimers, StoreView};
use crate::string_map::StringMap;
use crate::time::{checked_add_signed, clock_now, Timestamp};
use crate::token::random_token;
use vstd::prelude::*;

verus! {

/// Why a request got no further.
#[derive(Clone, Copy, Debug, PartialEq, Eq, Structural)]
pub enum SessionError {
    /// An instant lies outside what can be represented.
    ClockOutOfRange,
}

/// What a request needs next.
#[derive(Debug)]
pub enum RequestStep {
    /// The session is in memory.
    Ready(SQLxSessionID),
    /// The database is due for a sweep.
    Cleanup { id: SQLxSessionID, statement: Statement },
    /// The session has to be read from the database.
    Load { id: SQLxSessionID, statement: Statement },
    /// The request has no session yet.
    Create,
}

/// What a step stands for.
pub enum StepView {
    Ready(Seq<char>),
    Cleanup { id: Seq<char>, statement: StatementView },
    Load { id: Seq<char>, statement: StatementView },
    Create,
}

impl View for RequestStep {
    type V = StepView;

    open spec fn view(&self) -> StepView {
        match self {
            RequestStep::Ready(id) => StepView::Ready(id@),
            RequestStep::Cleanup { id, statement } => StepView::Cleanup {
                id: id@,
                statement: statement@,
            },
            RequestStep::Load { id, statement } => StepView::Load {
                id: id@,
                statement: statement@,
            },
            RequestStep::Create => StepView::Create,
        }
    }
}

/// What comes of a token that was drawn for a new ID.
#[derive(Debug)]
pub enum Drawn {
    /// It is not in use: it is the new ID.
    Accepted(String),
    /// It is in use, and another one is drawn; so many draws are left after that.
    Again(u64),
    /// It is in use, and no draw is left.
    Exhausted,
}

/// What the outcome of a draw stands for.
pub enum DrawnView {
    Accepted(Seq<char>),
    Again(u64),
    Exhausted,
}

impl View for Drawn {
    type V = DrawnView;

    open spec fn view(&self) -> DrawnView {
        match self {
            Drawn::Accepted(token) => DrawnView::Accepted(token@),
            Drawn::Again(left) => DrawnView::Again(*left),
            Drawn::Exhausted => DrawnView::Exhausted,
        }
    }
}

/// The ID that a request's cookie carries: an empty one without a cookie.
pub open spec fn cookie_id(cookie: Option<&str>) -> Seq<char> {
    match cookie {
        Some(value) => value@,
        None => Seq::empty(),
    }
}

/// Where a step leads: the store afterwards, and what the request needs next. None where an
/// instant that the step needs lies outside what can be represented.
pub type Outcome = Option<(StoreView, StepView)>;

/// Whether a step went as it should: where it leads nowhere, it reports so and leaves the store
/// as it was.
pub open spec fn went_as(
    outcome: Outcome,
    before: StoreView,
    after: StoreView,
    result: Result<RequestStep, SessionError>,
) -> bool {
    match outcome {
        Some((store, step)) => {
            &&& after == store
            &&& result is Ok
            &&& result->Ok_0@ == step
        },
        None => {
            &&& after == before
            &&& result == Err::<RequestStep, SessionError>(SessionError::ClockOutOfRange)
        },
    }
}

impl SessionView {
    /// The session after a request that found it in memory: it lives on, and keeps its data
    /// unless it had expired or is marked for destruction.
    pub open spec fn touched(self, config: ConfigView, now: Timestamp) -> Option<SessionView> {
        match (now.plus(config.lifespan), now.plus(config.memory_lifespan)) {
            (Some(expires), Some(autoremove)) => Some(
                SessionView {
                    data: if self.live_at(now) {
                        self.data
                    } else {
                        Map::empty()
                    },
                    expires,
                    autoremove,
                    ..self
                },
            ),
            _ => None,
        }
    }

    /// The session after a request that read it from the database when it had expired or was
    /// marked for destruction: it starts over without data, and lives as long as a new one.
    pub open spec fn restarted(self, fresh: SessionView) -> SessionView {
        SessionView {
            data: Map::empty(),
            expires: fresh.expires,
            autoremove: fresh.autoremove,
            ..self
        }
    }
}

impl StoreView {
    /// Whether an ID in use has the shape of a new one.
    pub open spec fn has_token(self) -> bool {
        exists|key: Seq<char>| #[trigger]
            self.sessions.contains_key(key) && crate::token::is_token(
                key,
                self.config.cookie_len as nat,
            )
    }

    /// What comes of a token that was drawn, with so many draws left.
    pub open spec fn drawn(self, token: Seq<char>, left: u64) -> DrawnView {
        if !self.sessions.contains_key(token) {
            DrawnView::Accepted(token)
        } else if left == 0 {
            DrawnView::Exhausted
        } else {
            DrawnView::Again((left - 1) as u64)
        }
    }

    /// What comes of tokens that are drawn one after the other, as long as another one is drawn.
    pub open spec fn drawn_in_turn(self, tokens: Seq<Seq<char>>, left: u64) -> DrawnView
        decreases tokens.len(),
    {
        if tokens.len() == 0 {
            DrawnView::Again(left)
        } else {
            match self.drawn(tokens[0], left) {
                DrawnView::Again(rest) => self.drawn_in_turn(tokens.skip(1), rest),
                outcome => outcome,
            }
        }
    }

    /// The sessions that stay in memory at an instant.
    pub open spec fn swept_sessions(self, now: Timestamp) -> Map<Seq<char>, SessionView> {
        Map::new(
            |key: Seq<char>|
                self.sessions.contains_key(key) && now.before(self.sessions[key].autoremove),
            |key: Seq<char>| self.sessions[key],
        )
    }

    /// The store without the sessions that leave memory at an instant.
    pub open spec fn swept(self, now: Timestamp) -> StoreView {
        StoreView { sessions: self.swept_sessions(now), ..self }
    }

    /// Whether the memory is due for a sweep.
    pub open spec fn memory_due(self, now: Timestamp) -> bool {
        !now.before(self.timers.last_expiry_sweep)
    }

    /// Whether the database is due for a sweep.
    pub open spec fn database_due(self, now: Timestamp) -> bool {
        !now.before(self.timers.last_database_expiry_sweep)
    }

    /// The store after the sweep of the memory, where it is due.
    pub open spec fn memory_swept(self, now: Timestamp) -> Option<StoreView> {
        if self.memory_due(now) {
            match now.plus(self.config.memory_lifespan) {
                Some(last_expiry_sweep) => Some(
                    StoreView {
                        timers: SQLxTimers { last_expiry_sweep, ..self.timers },
                        ..self.swept(now)
                    },
                ),
                None => None,
            }
        } else {
            Some(self)
        }
    }

    /// What a request needs whose ID is not in memory.
    pub open spec fn missing(self, id: Seq<char>, now: Timestamp) -> StepView {
        if id.len() > 0 {
            StepView::Load { id, statement: self.load_statement(id, now) }
        } else {
            StepView::Create
        }
    }

    /// Where a request leads that comes with an ID.
    pub open spec fn request_outcome(self, id: Seq<char>, now: Timestamp) -> Outcome {
        if self.sessions.contains_key(id) {
            match self.sessions[id].touched(self.config, now) {
                Some(session) => Some((self.with_session(id, session), StepView::Ready(id))),
                None => None,
            }
        } else {
            match self.memory_swept(now) {
                Some(store) => if store.database_due(now) {
                    Some(
                        (
                            store.swept(now),
                            StepView::Cleanup { id, statement: store.cleanup_statement(now) },
                        ),
                    )
                } else {
                    Some((store, store.missing(id, now)))
                },
                None => None,
            }
        }
    }

    /// Where a request leads for which the database was swept.
    pub open spec fn cleaned_outcome(self, id: Seq<char>, now: Timestamp) -> Outcome {
        match now.plus(self.config.lifespan) {
            Some(last_database_expiry_sweep) => Some(
                (
                    StoreView {
                        timers: SQLxTimers { last_database_expiry_sweep, ..self.timers },
                        ..self
                    },
                    self.missing(id, now),
                ),
            ),
            None => None,
        }
    }

    /// A new session, with the lifespans that are set.
    pub open spec fn fresh(self, id: Seq<char>, now: Timestamp) -> Option<SessionView> {
        SessionView::fresh(id, now, self.config.lifespan, self.config.memory_lifespan)
    }

    /// Where a request leads for which the database was read: a session that lives on comes in as
    /// it is, and needs no instant at which it would expire anew.
    pub open spec fn loaded_outcome(
        self,
        id: Seq<char>,
        loaded: Option<SessionView>,
        now: Timestamp,
    ) -> Outcome {
        match loaded {
            Some(session) if session.live_at(now) && now.plus(
                self.config.memory_lifespan,
            ) is Some => Some(
                (self.with_session(session.id, session), StepView::Ready(session.id)),
            ),
            _ => match self.fresh(id, now) {
                Some(fresh) => {
                    let session = match loaded {
                        Some(session) => session.restarted(fresh),
                        None => fresh,
                    };
                    Some((self.with_session(session.id, session), StepView::Ready(session.id)))
                },
                None => None,
            },
        }
    }

    /// Where a request leads that gets a new ID.
    pub open spec fn created_outcome(self, token: Seq<char>, now: Timestamp) -> Outcome {
        match self.fresh(token, now) {
            Some(fresh) => Some((self.with_session(token, fresh), StepView::Ready(token))),
            None => None,
        }
    }
}

/// What a read of the database gave, where it succeeded and found something.
pub open spec fn found<E>(loaded: Result<Option<SQLxSessionData>, E>) -> Option<SessionView> {
    match loaded {
        Ok(Some(session)) => Some(session@),
        _ => None,
    }
}

/// Putting a session under a key does so in what the store stands for.
proof fn lemma_insert<C>(
    before: SQLxSessionStore<C>,
    after: SQLxSessionStore<C>,
    key: Seq<char>,
    session: SQLxSessionData,
)
    requires
        after.inner@ == before.inner@.insert(key, session),
    ensures
        after@.sessions == before@.sessions.insert(key, session@),
{
    assert(after@.sessions =~= before@.sessions.insert(key, session@));
}

impl<C> SQLxSessionStore<C> {
    /// Takes the sessions out of memory that have not been used for too long.
    fn sweep(&mut self, now: Timestamp)
        ensures
            final(self)@ == old(self)@.swept(now),
            final(self).client == old(self).client,
    {
        let in_use = |session: &SQLxSessionData| -> (keep: bool)
            ensures
                keep == now.before(session.autoremove),
            { now.is_before(&session.autoremove) };
        self.inner.retain(in_use);
        assert(self@.sessions =~= old(self)@.swept_sessions(now));
    }

    /// Takes a token that was drawn for a new ID, unless it is in use.
    pub fn take_drawn(&self, token: String, left: u64) -> (next: Drawn)
        ensures
            next@ == self@.drawn(token@, left),
    {
        if !self.inner.contains_key(token.as_str()) {
            Drawn::Accepted(token)
        } else if left == 0 {
            Drawn::Exhausted
        } else {
            Drawn::Again(left - 1)
        }
    }

    /// Draws until an ID comes up that is not in use, and gives up only after `u64::MAX` draws
    /// more than the first. That can happen only where an ID in use has the shape of a new one.
    fn draw_id(&self) -> (id: Option<String>)
        ensures
            match id {
                Some(token) => {
                    &&& crate::token::is_token(token@, self@.config.cookie_len as nat)
                    &&& crate::token::is_sampled(token@)
                    &&& !self@.sessions.contains_key(token@)
                },
                None => self@.has_token(),
            },
    {
        let mut left: u64 = u64::MAX;
        loop
            decreases left,
        {
            let token = random_token(self.config.cookie_len());
            let ghost drawn = token@;
            match self.take_drawn(token, left) {
                Drawn::Accepted(id) => {
                    return Some(id);
                },
                Drawn::Again(next) => {
                    left = next;
                },
                Drawn::Exhausted => {
                    assert(self@.sessions.contains_key(drawn));
                    return None;
                },
            }
        }
    }
}

impl SQLxSession {
    fn missing_step<C>(
        store: &SQLxSessionStore<C>,
        id: SQLxSessionID,
        now: Timestamp,
    ) -> (step: RequestStep)
        ensures
            step@ == store@.missing(id@, now),
    {
        if !id.is_empty() {
            let statement = store.load_session_at(id.as_str(), now);
            RequestStep::Load { id, statement }
        } else {
            RequestStep::Create
        }
    }

    /// Begins a request at an instant: with the value of its session cookie, if it has one.
    pub fn from_request_at<C>(
        store: &mut SQLxSessionStore<C>,
        cookie: Option<&str>,
        now: Timestamp,
    ) -> (step: Result<RequestStep, SessionError>)
        requires
            now.regular(),
        ensures
            went_as(
                old(store)@.request_outcome(cookie_id(cookie), now),
                old(store)@,
                final(store)@,
                step,
            ),
            final(store).client == old(store).client,
    {
        // Resolve session ID
        let id = match cookie {
            Some(value) => SQLxSessionID::new(value.to_owned()),
            None => SQLxSessionID::new(String::new()),
        };
        let ghost before = *store;

        if store.inner.contains_key(id.as_str()) {
            let (expires, autoremove) = match (
                checked_add_signed(now, store.config.lifespan()),
                checked_add_signed(now, store.config.memory_lifespan()),
            ) {
                (Some(expires), Some(autoremove)) => (expires, autoremove),
                _ => return Err(SessionError::ClockOutOfRange),
            };
            if let Some(session) = store.inner.get_mut(id.as_str()) {
                if session.expires.is_before(&now) || session.destroy {
                    // The session is over: reuse the ID but drop the data.
                    session.data = StringMap::new();
                }
                // The session is extended by making a request with a valid ID.
                session.expires = expires;
                session.autoremove = autoremove;
                let ghost touched = *session;
                proof {
                    assert(touched@ =~= before@.sessions[id@].touched(before@.config, now)->0);
                    lemma_insert(before, *store, id@, touched);
                }
            }
            return Ok(RequestStep::Ready(id));
        }
        // Throttled by the lifespan in memory.

        if !now.is_before(&store.timers.last_expiry_sweep) {
            let last_expiry_sweep = match checked_add_signed(now, store.config.memory_lifespan()) {
                Some(last_expiry_sweep) => last_expiry_sweep,
                None => return Err(SessionError::ClockOutOfRange),
            };
            store.sweep(now);
            store.timers.last_expiry_sweep = last_expiry_sweep;
        }
        // Throttled by the lifespan in the database.

        if !now.is_before(&store.timers.last_database_expiry_sweep) {
            let statement = store.cleanup_at(now);
            store.sweep(now);
            return Ok(RequestStep::Cleanup { id, statement });
        }
        Ok(SQLxSession::missing_step(store, id, now))
    }

    /// Begins a request: with the value of its session cookie, if it has one.
    pub fn from_request<C>(
        store: &mut SQLxSessionStore<C>,
        cookie: Option<&str>,
    ) -> (step: Result<RequestStep, SessionError>)
        ensures
            exists|now: Timestamp|
                now.regular() && crate::time::clock_shows(now) && went_as(
                    #[trigger] old(store)@.request_outcome(cookie_id(cookie), now),
                    old(store)@,
                    final(store)@,
                    step,
                ),
            final(store).client == old(store).client,
    {
        SQLxSession::from_request_at(store, cookie, clock_now())
    }

    /// Goes on with a request after the sweep of the database, at an instant.
    pub fn cleaned_at<C>(
        store: &mut SQLxSessionStore<C>,
        id: SQLxSessionID,
        now: Timestamp,
    ) -> (step: Result<RequestStep, SessionError>)
        requires
            now.regular(),
        ensures
            went_as(old(store)@.cleaned_outcome(id@, now), old(store)@, final(store)@, step),
            final(store).client == old(store).client,
    {
        match checked_add_signed(now, store.config.lifespan()) {
            Some(last_database_expiry_sweep) => {
                store.timers.last_database_expiry_sweep = last_database_expiry_sweep;
                Ok(SQLxSession::missing_step(store, id, now))
            },
            None => Err(SessionError::ClockOutOfRange),
        }
    }

    /// Goes on with a request after the sweep of the database.
    pub fn cleaned<C>(store: &mut SQLxSessionStore<C>, id: SQLxSessionID) -> (step: Result<
        RequestStep,
        SessionError,
    >)
        ensures
            exists|now: Timestamp|
                now.regular() && crate::time::clock_shows(now) && went_as(
                    #[trigger] old(store)@.cleaned_outcome(id@, now),
                    old(store)@,
                    final(store)@,
                    step,
                ),
            final(store).client == old(store).client,
    {
        SQLxSession::cleaned_at(store, id, clock_now())
    }

    /// Goes on with a request after the read of the database, at an instant: where it failed or
    /// found nothing, a new session begins under the ID.
    pub fn loaded_at<C, E>(
        store: &mut SQLxSessionStore<C>,
        id: SQLxSessionID,
        loaded: Result<Option<SQLxSessionData>, E>,
        now: Timestamp,
    ) -> (step: Result<RequestStep, SessionError>)
        requires
            now.regular(),
        ensures
            went_as(
                old(store)@.loaded_outcome(id@, found(loaded), now),
                old(store)@,
                final(store)@,
                step,
            ),
            final(store).client == old(store).client,
    {
        let ghost before = *store;
        let (lifespan, memory_lifespan) = (store.config.lifespan(), store.config.memory_lifespan());
        if checked_add_signed(now, memory_lifespan).is_none() {
            return Err(SessionError::ClockOutOfRange);
        }
        let session = match loaded {
            Ok(Some(session)) if session.validate_at(now) && !session.destroy => session,
            other => {
                let fresh = match SQLxSessionData::fresh(
                    id.to_string(),
                    now,
                    lifespan,
                    memory_lifespan,
                ) {
                    Some(fresh) => fresh,
                    None => return Err(SessionError::ClockOutOfRange),
                };
                match other {
                    Ok(Some(over)) => {
                        let mut session = over;
                        session.data = StringMap::new();
                        session.expires = fresh.expires;
                        session.autoremove = fresh.autoremove;
                        assert(session@ =~= over@.restarted(fresh@));
                        session
                    },
                    _ => fresh,
                }
            },
        };
        let new_id = SQLxSessionID::new(session.id.clone());
        store.inner.insert(session.id.clone(), session);
        proof {
            lemma_insert(before, *store, session.id@, session);
        }
        Ok(RequestStep::Ready(new_id))
    }

    /// Goes on with a request after the read of the database: where it failed or found nothing, a
    /// new session begins under the ID.
    pub fn loaded<C, E>(
        store: &mut SQLxSessionStore<C>,
        id: SQLxSessionID,
        loaded: Result<Option<SQLxSessionData>, E>,
    ) -> (step: Result<RequestStep, SessionError>)
        ensures
            exists|now: Timestamp|
                now.regular() && crate::time::clock_shows(now) && went_as(
                    #[trigger] old(store)@.loaded_outcome(id@, found(loaded), now),
                    old(store)@,
                    final(store)@,
                    step,
                ),
            final(store).client == old(store).client,
    {
        SQLxSession::loaded_at(store, id, loaded, clock_now())
    }

    /// Begins a new session under an ID that is not in use, at an instant.
    pub fn create_at<C>(
        store: &mut SQLxSessionStore<C>,
        token: String,
        now: Timestamp,
    ) -> (step: Result<RequestStep, SessionError>)
        requires
            now.regular(),
            !old(store)@.sessions.contains_key(token@),
        ensures
            went_as(old(store)@.created_outcome(token@, now), old(store)@, final(store)@, step),
            final(store).client == old(store).client,
    {
        let ghost before = *store;
        let session = match SQLxSessionData::fresh(
            token,
            now,
            store.config.lifespan(),
            store.config.memory_lifespan(),
        ) {
            Some(session) => session,
            None => return Err(SessionError::ClockOutOfRange),
        };
        let new_id = SQLxSessionID::new(session.id.clone());
        store.inner.insert(session.id.clone(), session);
        proof {
            lemma_insert(before, *store, session.id@, session);
        }
        Ok(RequestStep::Ready(new_id))
    }

    /// Begins a new session under an ID that is drawn until one comes up that is not in use. Where
    /// none did, the request still needs one.
    pub fn create<C>(store: &mut SQLxSessionStore<C>) -> (step: Result<RequestStep, SessionError>)
        ensures
            final(store).client == old(store).client,
            match step {
                Ok(RequestStep::Create) => {
                    &&& final(store)@ == old(store)@
                    &&& old(store)@.has_token()
                },
                _ => exists|token: Seq<char>, now: Timestamp|
                    {
                        &&& now.regular()
                        &&& crate::time::clock_shows(now)
                        &&& crate::token::is_token(token, old(store)@.config.cookie_len as nat)
                        &&& crate::token::is_sampled(token)
                        &&& !old(store)@.sessions.contains_key(token)
                        &&& went_as(
                            #[trigger] old(store)@.created_outcome(token, now),
                            old(store)@,
                            final(store)@,
                            step,
                        )
                    },
            },
    {
        match store.draw_id() {
            Some(token) => SQLxSession::create_at(store, token, clock_now()),
            None => Ok(RequestStep::Create),
        }
    }
}

}
