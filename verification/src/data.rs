//! The data of one session.

use crate::string_map::StringMap;
use crate::time::{checked_add_signed, clock_now, Span, Timestamp};
use vstd::prelude::*;

verus! {

/// One session.
#[derive(Debug)]
pub struct SQLxSessionData {
    pub id: String,
    pub data: StringMap<String>,
    pub expires: Timestamp,
    pub autoremove: Timestamp,
    pub destroy: bool,
}

/// What a session holds.
#[verifier::ext_equal]
pub struct SessionView {
    pub id: Seq<char>,
    pub data: Map<Seq<char>, Seq<char>>,
    pub expires: Timestamp,
    pub autoremove: Timestamp,
    pub destroy: bool,
}

impl View for SQLxSessionData {
    type V = SessionView;

    open spec fn view(&self) -> SessionView {
        SessionView {
            id: self.id@,
            data: self.data@.map_values(|value: String| value@),
            expires: self.expires,
            autoremove: self.autoremove,
            destroy: self.destroy,
        }
    }
}

impl SessionView {
    /// Whether the session has not expired at an instant.
    pub open spec fn valid_at(self, now: Timestamp) -> bool {
        !self.expires.before(now)
    }

    /// Whether a request at an instant finds the session's data still there.
    pub open spec fn live_at(self, now: Timestamp) -> bool {
        self.valid_at(now) && !self.destroy
    }

    /// The session without its data.
    pub open spec fn cleared(self) -> SessionView {
        SessionView { data: Map::empty(), ..self }
    }

    /// A new session without data, which expires after its lifespan, and stays in memory for the
    /// lifespan there.
    pub open spec fn fresh(
        id: Seq<char>,
        now: Timestamp,
        lifespan: Span,
        memory: Span,
    ) -> Option<SessionView> {
        match (now.plus(lifespan), now.plus(memory)) {
            (Some(expires), Some(autoremove)) => Some(
                SessionView { id, data: Map::empty(), expires, autoremove, destroy: false },
            ),
            _ => None,
        }
    }
}

impl Clone for SQLxSessionData {
    fn clone(&self) -> (copy: Self)
        ensures
            copy@ == self@,
    {
        SQLxSessionData {
            id: self.id.clone(),
            data: self.data.clone(),
            expires: self.expires,
            autoremove: self.autoremove,
            destroy: self.destroy,
        }
    }
}

impl SQLxSessionData {
    /// A new session without data; none, where the instants at which it expires and leaves memory
    /// lie outside what can be represented.
    pub(crate) fn fresh(id: String, now: Timestamp, lifespan: Span, memory: Span) -> (session:
        Option<Self>)
        requires
            now.regular(),
        ensures
            match (session, SessionView::fresh(id@, now, lifespan, memory)) {
                (Some(s), Some(expected)) => s@ == expected,
                (None, None) => true,
                _ => false,
            },
    {
        match (checked_add_signed(now, lifespan), checked_add_signed(now, memory)) {
            (Some(expires), Some(autoremove)) => {
                let session = SQLxSessionData {
                    id,
                    data: StringMap::new(),
                    expires,
                    autoremove,
                    destroy: false,
                };
                assert(session@.data =~= Map::empty());
                Some(session)
            },
            _ => None,
        }
    }

    /// The session with an empty ID, as it begins at an instant: it expires after six hours, and
    /// stays in memory for one. There is none where these instants lie outside what can be
    /// represented.
    pub fn default_at(now: Timestamp) -> (session: Option<Self>)
        requires
            now.regular(),
        ensures
            match (session, SessionView::fresh(""@, now, Span::six_hours(), Span::one_hour())) {
                (Some(s), Some(expected)) => s@ == expected,
                (None, None) => true,
                _ => false,
            },
    {
        SQLxSessionData::fresh(
            "".to_owned(),
            now,
            Span { secs: 21_600, nanos: 0 },
            Span { secs: 3_600, nanos: 0 },
        )
    }

    /// The session with an empty ID, as it begins now.
    pub fn default() -> (session: Option<Self>)
        ensures
            exists|now: Timestamp| #[trigger]
                now.regular() && crate::time::clock_shows(now) && match (
                    session,
                    SessionView::fresh(""@, now, Span::six_hours(), Span::one_hour()),
                ) {
                    (Some(s), Some(expected)) => s@ == expected,
                    (None, None) => true,
                    _ => false,
                },
    {
        SQLxSessionData::default_at(clock_now())
    }

    /// Whether the session has not expired at an instant.
    pub fn validate_at(&self, now: Timestamp) -> (valid: bool)
        ensures
            valid == self@.valid_at(now),
    {
        if self.expires.is_before(&now) {
            false
        } else {
            true
        }
    }

    /// Whether the session has not expired now.
    pub fn validate(&self) -> (valid: bool)
        ensures
            exists|now: Timestamp| #[trigger]
                now.regular() && crate::time::clock_shows(now) && valid == self@.valid_at(now),
    {
        self.validate_at(clock_now())
    }
}

}
