//! What each operation does, said of what goes into it and what comes out.
//!
//! The laws take an operation's contract and say what it comes to: in the fields of the sessions,
//! in the seconds and nanoseconds of the instants, in the texts and values of the statements.

use crate::config::{ConfigView, ConnectSettings, ConnectSettingsView, LevelFilter};
use crate::data::{SQLxSessionData, SessionView};
use crate::fairing::{CookieView, Persist, ResponsePlan};
use crate::request::{Drawn, RequestStep, SessionError};
use crate::statement::{Param, Statement};
use crate::store::{SQLxSessionStore, StoreView};
use crate::time::{Span, Timestamp};
use vstd::prelude::*;

verus! {

/// The nanoseconds of an instant, counted from the Unix epoch.
pub open spec fn nanos_of(time: Timestamp) -> int {
    time.secs * 1_000_000_000 + time.nanos
}

/// The nanoseconds of a span.
pub open spec fn nanos_in(span: Span) -> int {
    span.secs * 1_000_000_000 + span.nanos
}

/// Whether an instant is at another one or comes before it: by the seconds, and within a second by
/// the nanoseconds.
pub open spec fn no_later(a: Timestamp, b: Timestamp) -> bool {
    a.secs < b.secs || (a.secs == b.secs && a.nanos <= b.nanos)
}

/// Whether an instant lies a span after another one.
pub open spec fn lies_after(then: Timestamp, now: Timestamp, span: Span) -> bool {
    &&& nanos_of(then) == nanos_of(now) + nanos_in(span)
    &&& then.nanos < 1_000_000_000
}

/// Whether there is an instant a span after another one: a span has less than a second in its
/// nanoseconds, and the years go from -262143 to 262142.
pub open spec fn in_reach(now: Timestamp, span: Span) -> bool {
    &&& span.nanos < 1_000_000_000
    &&& -8_334_601_228_800 * 1_000_000_000 <= nanos_of(now) + nanos_in(span)
    &&& nanos_of(now) + nanos_in(span) < 8_210_266_876_800 * 1_000_000_000
}

/// The ID that a cookie's value is.
pub open spec fn id_in(cookie: Option<&str>) -> Seq<char> {
    if cookie is Some {
        cookie->0@
    } else {
        seq![]
    }
}

/// The instants that a clock shows: those of the years that can be represented, with less than a
/// second in their nanoseconds.
pub proof fn law_regular_instants(time: Timestamp)
    ensures
        time.regular() <==> time.nanos < 1_000_000_000 && -8_334_601_228_800 <= time.secs
            <= 8_210_266_876_799,
{
}

/// A span later is that many nanoseconds later, and there is such an instant exactly if it is in
/// reach.
pub proof fn law_plus_adds_nanoseconds(now: Timestamp, span: Span)
    requires
        now.regular(),
    ensures
        now.plus(span) is Some <==> in_reach(now, span),
        now.plus(span) matches Some(then) ==> lies_after(then, now, span) && then.regular(),
{
}

/// One instant comes before another exactly if the other is not at it or before it; outside leap
/// seconds, if it has fewer nanoseconds.
pub proof fn law_before_goes_by_seconds_and_nanoseconds(a: Timestamp, b: Timestamp)
    ensures
        a.before(b) <==> !no_later(b, a),
        a.nanos < 1_000_000_000 && b.nanos < 1_000_000_000 ==> (a.before(b) <==> nanos_of(a)
            < nanos_of(b)),
{
}

/// A session is valid up to the instant at which it expires, and then no longer; it is live if it
/// is valid and not marked for destruction.
pub proof fn law_session_is_valid_until_it_expires(session: SessionView, now: Timestamp)
    ensures
        session.valid_at(now) <==> no_later(now, session.expires),
        session.live_at(now) <==> no_later(now, session.expires) && !session.destroy,
        session.expires.nanos < 1_000_000_000 && now.nanos < 1_000_000_000 ==> (session.valid_at(
            now,
        ) <==> nanos_of(now) <= nanos_of(session.expires)),
{
}

/// A session shows all that it holds.
pub proof fn law_session_shows_its_fields(session: SQLxSessionData, key: Seq<char>)
    ensures
        session@.id == session.id@,
        session@.data.contains_key(key) <==> session.data@.contains_key(key),
        session.data@.contains_key(key) ==> session@.data[key] == session.data@[key]@,
        session@.expires == session.expires,
        session@.autoremove == session.autoremove,
        session@.destroy == session.destroy,
{
}

/// A store shows every session that it holds, under its key, with the settings and the timers.
pub proof fn law_store_shows_its_sessions<C>(store: SQLxSessionStore<C>, key: Seq<char>)
    ensures
        store@.sessions.contains_key(key) <==> store.inner@.contains_key(key),
        store.inner@.contains_key(key) ==> store@.sessions[key] == store.inner@[key]@,
        store@.config == store.config@,
        store@.timers == store.timers,
{
}

/// A new session has no data and no mark, expires a lifespan from now, and leaves memory a
/// lifespan there from now. There is one exactly if both instants are in reach.
pub proof fn law_fresh_session_fields(id: Seq<char>, now: Timestamp, lifespan: Span, memory: Span)
    requires
        now.regular(),
    ensures
        SessionView::fresh(id, now, lifespan, memory) is Some <==> in_reach(now, lifespan)
            && in_reach(now, memory),
        SessionView::fresh(id, now, lifespan, memory) matches Some(session) ==> {
            &&& session.id == id
            &&& session.data.dom() == Set::<Seq<char>>::empty()
            &&& lies_after(session.expires, now, lifespan)
            &&& lies_after(session.autoremove, now, memory)
            &&& !session.destroy
        },
{
    law_plus_adds_nanoseconds(now, lifespan);
    law_plus_adds_nanoseconds(now, memory);
}

/// The session that is there by default has an empty ID and no data, expires after six hours and
/// leaves memory after one.
pub proof fn law_default_session(now: Timestamp, session: Option<SQLxSessionData>)
    requires
        now.regular(),
        match (session, SessionView::fresh(""@, now, Span::six_hours(), Span::one_hour())) {
            (Some(s), Some(expected)) => s@ == expected,
            (None, None) => true,
            _ => false,
        },
    ensures
        session matches Some(s) ==> {
            &&& s.id@.len() == 0
            &&& s@.data.dom() == Set::<Seq<char>>::empty()
            &&& nanos_of(s.expires) == nanos_of(now) + 6 * 60 * 60 * 1_000_000_000
            &&& nanos_of(s.autoremove) == nanos_of(now) + 60 * 60 * 1_000_000_000
            &&& !s.destroy
        },
        session is None <==> nanos_of(now) + 6 * 60 * 60 * 1_000_000_000 >= 8_210_266_876_800
            * 1_000_000_000,
{
    reveal_strlit("");
    law_fresh_session_fields(""@, now, Span::six_hours(), Span::one_hour());
}

/// A new store has no sessions and the settings that it is given; its first sweeps are due a
/// lifespan from now, for the memory and for the database. There is one exactly if both instants
/// are in reach.
pub proof fn law_store_begins(config: ConfigView, now: Timestamp)
    requires
        now.regular(),
    ensures
        StoreView::starting(config, now) is Some <==> in_reach(now, config.memory_lifespan)
            && in_reach(now, config.lifespan),
        StoreView::starting(config, now) matches Some(store) ==> {
            &&& store.sessions.dom() == Set::<Seq<char>>::empty()
            &&& store.config == config
            &&& lies_after(store.timers.last_expiry_sweep, now, config.memory_lifespan)
            &&& lies_after(store.timers.last_database_expiry_sweep, now, config.lifespan)
        },
{
    law_plus_adds_nanoseconds(now, config.memory_lifespan);
    law_plus_adds_nanoseconds(now, config.lifespan);
}

/// The settings with which every fairing begins.
pub proof fn law_initial_settings()
    ensures
        ({
            let config = ConfigView::initial();
            &&& nanos_in(config.lifespan) == 6 * 60 * 60 * 1_000_000_000
            &&& nanos_in(config.memory_lifespan) == 60 * 60 * 1_000_000_000
            &&& config.cookie_name == "sqlx_session"@
            &&& config.cookie_path == "/"@
            &&& config.cookie_len == 16
            &&& config.table_name == "async_sessions"@
            &&& config.host == "localhost"@
            &&& config.port == 5432
            &&& config.database.len() == 0
            &&& config.username.len() == 0
            &&& config.password.len() == 0
            &&& config.max_connections == 5
            &&& config.log_level == LevelFilter::Debug
        }),
{
    reveal_strlit("");
}

/// The connection is made with what is set for it, and with nothing else.
pub proof fn law_connection_goes_by_the_settings(config: ConfigView, settings: ConnectSettings)
    requires
        settings@ == ConnectSettingsView::of(config),
    ensures
        settings.database@ == config.database,
        settings.username@ == config.username,
        settings.password@ == config.password,
        settings.host@ == config.host,
        settings.port == config.port,
        settings.max_connections == config.max_connections,
        settings.log_level == config.log_level,
{
}

/// A request whose session is in memory gets that session, extended by one lifespan from now: it
/// is valid just until then, and in memory just until the lifespan there is over. Its ID and mark
/// stay, and so does its data, unless it had expired or was marked. Nothing else changes.
pub proof fn law_request_extends_its_session(
    before: StoreView,
    cookie: Option<&str>,
    now: Timestamp,
    after: StoreView,
    step: Result<RequestStep, SessionError>,
)
    requires
        now.regular(),
        before.sessions.contains_key(id_in(cookie)),
        crate::request::went_as(
            before.request_outcome(crate::request::cookie_id(cookie), now),
            before,
            after,
            step,
        ),
    ensures
        step is Ok <==> in_reach(now, before.config.lifespan) && in_reach(
            now,
            before.config.memory_lifespan,
        ),
        match step {
            Ok(RequestStep::Ready(ready)) => {
                let found = before.sessions[id_in(cookie)];
                let session = after.sessions[id_in(cookie)];
                &&& ready@ == id_in(cookie)
                &&& after.sessions.dom() == before.sessions.dom()
                &&& session.id == found.id
                &&& session.destroy == found.destroy
                &&& session.data == if no_later(now, found.expires) && !found.destroy {
                    found.data
                } else {
                    Map::empty()
                }
                &&& lies_after(session.expires, now, before.config.lifespan)
                &&& lies_after(session.autoremove, now, before.config.memory_lifespan)
                &&& forall|later: Timestamp| #[trigger]
                    later.regular() ==> (session.valid_at(later) <==> nanos_of(later) <= nanos_of(
                        now,
                    ) + nanos_in(before.config.lifespan))
                &&& forall|other: Seq<char>|
                    #![trigger after.sessions[other]]
                    other != id_in(cookie) && before.sessions.contains_key(other)
                        ==> after.sessions[other] == before.sessions[other]
                &&& after.config == before.config
                &&& after.timers == before.timers
            },
            Err(error) => error == SessionError::ClockOutOfRange && after == before,
            _ => false,
        },
{
    law_plus_adds_nanoseconds(now, before.config.lifespan);
    law_plus_adds_nanoseconds(now, before.config.memory_lifespan);
    assert(crate::request::cookie_id(cookie) =~= id_in(cookie));
    if step is Ok {
        assert(after.sessions.dom() =~= before.sessions.dom());
    }
}

/// A session that is used goes on: where one request finds it in memory, not marked, and another
/// one comes with the same cookie before a lifespan is over, that one finds the same data.
pub proof fn law_session_in_use_keeps_its_data(
    before: StoreView,
    cookie: Option<&str>,
    now: Timestamp,
    between: StoreView,
    first: Result<RequestStep, SessionError>,
    later: Timestamp,
    after: StoreView,
    second: Result<RequestStep, SessionError>,
)
    requires
        now.regular(),
        later.regular(),
        before.sessions.contains_key(id_in(cookie)),
        no_later(now, before.sessions[id_in(cookie)].expires),
        !before.sessions[id_in(cookie)].destroy,
        nanos_of(later) <= nanos_of(now) + nanos_in(before.config.lifespan),
        crate::request::went_as(
            before.request_outcome(crate::request::cookie_id(cookie), now),
            before,
            between,
            first,
        ),
        crate::request::went_as(
            between.request_outcome(crate::request::cookie_id(cookie), later),
            between,
            after,
            second,
        ),
        first is Ok,
        second is Ok,
    ensures
        after.sessions.contains_key(id_in(cookie)),
        after.sessions[id_in(cookie)].data == before.sessions[id_in(cookie)].data,
{
    law_request_extends_its_session(before, cookie, now, between, first);
    assert(between.sessions.dom().contains(id_in(cookie)));
    law_request_extends_its_session(between, cookie, later, after, second);
    assert(after.sessions.dom().contains(id_in(cookie)));
}

/// Whether a step asks for what a request needs whose ID is not in memory: with an ID, that the
/// session of just that ID is read as of now; without one, a new session.
pub open spec fn asks_for(
    store: StoreView,
    id: Seq<char>,
    now: Timestamp,
    step: RequestStep,
) -> bool {
    match step {
        RequestStep::Load { id: asked, statement } => {
            &&& id.len() > 0
            &&& asked@ == id
            &&& statement@ == store.load_statement(id, now)
        },
        RequestStep::Create => id.len() == 0,
        _ => false,
    }
}

/// A request whose session is not in memory sweeps the memory if that is due, for the memory or
/// for the database: what goes is what is due to leave memory by now, and what stays is as it was.
/// If the database is due, it is swept next, as of now; otherwise the session is asked for.
pub proof fn law_request_sweeps_and_asks(
    before: StoreView,
    cookie: Option<&str>,
    now: Timestamp,
    after: StoreView,
    step: Result<RequestStep, SessionError>,
)
    requires
        now.regular(),
        !before.sessions.contains_key(id_in(cookie)),
        crate::request::went_as(
            before.request_outcome(crate::request::cookie_id(cookie), now),
            before,
            after,
            step,
        ),
    ensures
        ({
            let memory_due = no_later(before.timers.last_expiry_sweep, now);
            let database_due = no_later(before.timers.last_database_expiry_sweep, now);
            &&& step is Ok <==> memory_due ==> in_reach(now, before.config.memory_lifespan)
            &&& match step {
                Ok(asked) => {
                    &&& forall|key: Seq<char>| #[trigger]
                        after.sessions.contains_key(key) <==> before.sessions.contains_key(key) && (
                        memory_due || database_due ==> !no_later(
                            before.sessions[key].autoremove,
                            now,
                        ))
                    &&& forall|key: Seq<char>| #[trigger]
                        after.sessions.contains_key(key) ==> after.sessions[key]
                            == before.sessions[key]
                    &&& after.config == before.config
                    &&& after.timers.last_database_expiry_sweep
                        == before.timers.last_database_expiry_sweep
                    &&& if memory_due {
                        lies_after(
                            after.timers.last_expiry_sweep,
                            now,
                            before.config.memory_lifespan,
                        )
                    } else {
                        after.timers.last_expiry_sweep == before.timers.last_expiry_sweep
                    }
                    &&& if database_due {
                        asked matches RequestStep::Cleanup { id, statement } && id@ == id_in(cookie)
                            && statement@ == before.cleanup_statement(now)
                    } else {
                        asks_for(before, id_in(cookie), now, asked)
                    }
                },
                Err(error) => error == SessionError::ClockOutOfRange && after == before,
            }
        }),
{
    law_plus_adds_nanoseconds(now, before.config.memory_lifespan);
    assert(crate::request::cookie_id(cookie) =~= id_in(cookie));
}

/// After the sweep of the database the next one is due a lifespan from now, and the request asks
/// for its session, or for a new one exactly if it has no ID. Nothing else changes.
pub proof fn law_request_goes_on_after_the_sweep(
    before: StoreView,
    id: Seq<char>,
    now: Timestamp,
    after: StoreView,
    step: Result<RequestStep, SessionError>,
)
    requires
        now.regular(),
        crate::request::went_as(before.cleaned_outcome(id, now), before, after, step),
    ensures
        step is Ok <==> in_reach(now, before.config.lifespan),
        match step {
            Ok(asked) => {
                &&& asks_for(before, id, now, asked)
                &&& asked is Create <==> id.len() == 0
                &&& asked is Load <==> id.len() > 0
                &&& after.sessions == before.sessions
                &&& after.config == before.config
                &&& after.timers.last_expiry_sweep == before.timers.last_expiry_sweep
                &&& lies_after(
                    after.timers.last_database_expiry_sweep,
                    now,
                    before.config.lifespan,
                )
            },
            Err(error) => error == SessionError::ClockOutOfRange && after == before,
        },
{
    law_plus_adds_nanoseconds(now, before.config.lifespan);
}

/// Whether one session was put into memory, under its own ID, and nothing else changed.
pub open spec fn only_put(before: StoreView, after: StoreView, session: SessionView) -> bool {
    &&& forall|key: Seq<char>| #[trigger]
        after.sessions.contains_key(key) <==> before.sessions.contains_key(key) || key
            == session.id
    &&& after.sessions[session.id] == session
    &&& forall|key: Seq<char>|
        #![trigger after.sessions[key]]
        key != session.id && before.sessions.contains_key(key) ==> after.sessions[key]
            == before.sessions[key]
    &&& after.config == before.config
    &&& after.timers == before.timers
}

/// A session that was read and lives comes into memory just as it was read. One that has expired
/// or is marked keeps its ID and its mark, and starts over without data and with new lifespans.
/// Where the read failed or found nothing, a new session begins under the ID of the request.
pub proof fn law_read_session_comes_into_memory<E>(
    before: StoreView,
    id: Seq<char>,
    loaded: Result<Option<SQLxSessionData>, E>,
    now: Timestamp,
    after: StoreView,
    step: Result<RequestStep, SessionError>,
)
    requires
        now.regular(),
        crate::request::went_as(
            before.loaded_outcome(id, crate::request::found(loaded), now),
            before,
            after,
            step,
        ),
    ensures
        ({
            let live = loaded matches Ok(Some(read)) && no_later(now, read.expires)
                && !read.destroy;
            &&& step is Ok <==> in_reach(now, before.config.memory_lifespan) && (live || in_reach(
                now,
                before.config.lifespan,
            ))
            &&& match step {
                Ok(RequestStep::Ready(ready)) => {
                    let session = after.sessions[ready@];
                    &&& session.id == ready@
                    &&& only_put(before, after, session)
                    &&& match loaded {
                        Ok(Some(read)) => session.id == read.id@ && session.destroy == read.destroy,
                        _ => session.id == id && !session.destroy,
                    }
                    &&& if live {
                        session == loaded->Ok_0->0@
                    } else {
                        &&& session.data.dom() == Set::<Seq<char>>::empty()
                        &&& lies_after(session.expires, now, before.config.lifespan)
                        &&& lies_after(session.autoremove, now, before.config.memory_lifespan)
                    }
                },
                Err(error) => error == SessionError::ClockOutOfRange && after == before,
                _ => false,
            }
        }),
{
    law_plus_adds_nanoseconds(now, before.config.lifespan);
    law_plus_adds_nanoseconds(now, before.config.memory_lifespan);
}

/// A new session comes into memory under its token, without data and without a mark, with the
/// lifespans that are set; and the request is ready with just that token.
pub proof fn law_new_session_comes_into_memory(
    before: StoreView,
    token: Seq<char>,
    now: Timestamp,
    after: StoreView,
    step: Result<RequestStep, SessionError>,
)
    requires
        now.regular(),
        crate::request::went_as(before.created_outcome(token, now), before, after, step),
    ensures
        step is Ok <==> in_reach(now, before.config.lifespan) && in_reach(
            now,
            before.config.memory_lifespan,
        ),
        match step {
            Ok(RequestStep::Ready(ready)) => {
                let session = after.sessions[token];
                &&& ready@ == token
                &&& session.id == token
                &&& only_put(before, after, session)
                &&& session.data.dom() == Set::<Seq<char>>::empty()
                &&& !session.destroy
                &&& lies_after(session.expires, now, before.config.lifespan)
                &&& lies_after(session.autoremove, now, before.config.memory_lifespan)
            },
            Err(error) => error == SessionError::ClockOutOfRange && after == before,
            _ => false,
        },
{
    law_plus_adds_nanoseconds(now, before.config.lifespan);
    law_plus_adds_nanoseconds(now, before.config.memory_lifespan);
}

/// A sweep takes out just the sessions that are due to leave memory by now.
pub proof fn law_sweep_takes_what_is_due(before: StoreView, now: Timestamp, key: Seq<char>)
    ensures
        before.swept(now).sessions.contains_key(key) <==> before.sessions.contains_key(key)
            && !no_later(before.sessions[key].autoremove, now),
        before.swept(now).sessions.contains_key(key) ==> before.swept(now).sessions[key]
            == before.sessions[key],
        before.swept(now).config == before.config,
        before.swept(now).timers == before.timers,
{
}

/// A token that was drawn is the new ID just as it is if it is not in use; if it is, another one
/// is drawn as long as a draw is left, and each takes one.
pub proof fn law_drawn_token_is_judged(
    store: StoreView,
    token: Seq<char>,
    left: u64,
    next: Drawn,
)
    requires
        next@ == store.drawn(token, left),
    ensures
        match next {
            Drawn::Accepted(id) => id@ == token && !store.sessions.contains_key(token),
            Drawn::Again(rest) => store.sessions.contains_key(token) && rest + 1 == left,
            Drawn::Exhausted => store.sessions.contains_key(token) && left == 0,
        },
{
}

/// A token has the length that is set, and is made of ASCII letters and digits alone. An ID in use
/// has the shape of one only if it is such a text.
pub proof fn law_tokens_are_letters_and_digits(store: StoreView, text: Seq<char>, len: nat)
    ensures
        crate::token::is_token(text, len) <==> text.len() == len && forall|i: int|
            0 <= i < text.len() ==> {
                ||| 'a' <= #[trigger] text[i] <= 'z'
                ||| 'A' <= text[i] <= 'Z'
                ||| '0' <= text[i] <= '9'
            },
        store.has_token() <==> exists|key: Seq<char>| #[trigger]
            store.sessions.contains_key(key) && crate::token::is_token(
                key,
                store.config.cookie_len as nat,
            ),
{
    if crate::token::is_token(text, len) {
        assert forall|i: int| 0 <= i < text.len() implies {
            ||| 'a' <= #[trigger] text[i] <= 'z'
            ||| 'A' <= text[i] <= 'Z'
            ||| '0' <= text[i] <= '9'
        } by {
            assert(crate::token::is_alphanumeric(text[i]));
        }
    }
}

/// Whether of a session in memory only the data changed, and of nothing else anything.
pub open spec fn only_data_changed(before: StoreView, id: Seq<char>, after: StoreView) -> bool {
    &&& after.sessions.dom() == before.sessions.dom()
    &&& after.sessions[id].id == before.sessions[id].id
    &&& after.sessions[id].expires == before.sessions[id].expires
    &&& after.sessions[id].autoremove == before.sessions[id].autoremove
    &&& after.sessions[id].destroy == before.sessions[id].destroy
    &&& forall|other: Seq<char>|
        #![trigger after.sessions[other]]
        other != id && before.sessions.contains_key(other) ==> after.sessions[other]
            == before.sessions[other]
    &&& after.config == before.config
    &&& after.timers == before.timers
}

/// To store a text under a key changes what is under that key, and nothing else of the session:
/// it is as live as it was, and has every other text.
pub proof fn law_set_touches_only_its_key(
    before: StoreView,
    id: Seq<char>,
    key: Seq<char>,
    text: Seq<char>,
    after: StoreView,
)
    requires
        before.sessions.contains_key(id),
        after == before.with_session(id, before.sessions[id].with_value(key, text)),
    ensures
        only_data_changed(before, id, after),
        after.sessions[id].data.contains_key(key),
        after.sessions[id].data[key] == text,
        forall|other: Seq<char>|
            #![trigger after.sessions[id].data.contains_key(other)]
            #![trigger after.sessions[id].data[other]]
            other != key ==> after.sessions[id].data.contains_key(other)
                == before.sessions[id].data.contains_key(other) && (
            before.sessions[id].data.contains_key(other) ==> after.sessions[id].data[other]
                == before.sessions[id].data[other]),
{
    assert(after.sessions.dom() =~= before.sessions.dom());
}

/// To remove a key takes away what is under that key, and nothing else of the session: its ID, its
/// lifespans and its mark are as they were, and so is every other text.
pub proof fn law_remove_touches_only_its_key(
    before: StoreView,
    id: Seq<char>,
    key: Seq<char>,
    after: StoreView,
)
    requires
        before.sessions.contains_key(id),
        after == before.with_session(id, before.sessions[id].without_value(key)),
    ensures
        only_data_changed(before, id, after),
        !after.sessions[id].data.contains_key(key),
        forall|other: Seq<char>|
            #![trigger after.sessions[id].data.contains_key(other)]
            #![trigger after.sessions[id].data[other]]
            other != key ==> after.sessions[id].data.contains_key(other)
                == before.sessions[id].data.contains_key(other) && (
            before.sessions[id].data.contains_key(other) ==> after.sessions[id].data[other]
                == before.sessions[id].data[other]),
{
    assert(after.sessions.dom() =~= before.sessions.dom());
}

/// To clear a session takes away all of its texts, and nothing else of it.
pub proof fn law_clear_touches_only_the_data(before: StoreView, id: Seq<char>, after: StoreView)
    requires
        before.sessions.contains_key(id),
        after == before.with_session(id, before.sessions[id].cleared()),
    ensures
        only_data_changed(before, id, after),
        after.sessions[id].data.dom() == Set::<Seq<char>>::empty(),
{
    assert(after.sessions.dom() =~= before.sessions.dom());
}

/// To destroy a session marks it, and changes nothing else.
pub proof fn law_destroy_only_marks(before: StoreView, id: Seq<char>, after: StoreView)
    requires
        before.sessions.contains_key(id),
        after == before.with_session(id, before.sessions[id].destroyed()),
    ensures
        after.sessions.dom() == before.sessions.dom(),
        after.sessions[id].destroy,
        after.sessions[id].data == before.sessions[id].data,
        after.sessions[id].id == before.sessions[id].id,
        after.sessions[id].expires == before.sessions[id].expires,
        after.sessions[id].autoremove == before.sessions[id].autoremove,
        forall|other: Seq<char>|
            #![trigger after.sessions[other]]
            other != id && before.sessions.contains_key(other) ==> after.sessions[other]
                == before.sessions[other],
        after.config == before.config,
        after.timers == before.timers,
{
    assert(after.sessions.dom() =~= before.sessions.dom());
}

/// A session goes on after a key was removed: the response writes it, and the next request finds
/// every other text, if the session has not expired by then.
pub proof fn law_session_goes_on_after_a_remove(
    before: StoreView,
    cookie: Option<&str>,
    key: Seq<char>,
    other: Seq<char>,
    removed: StoreView,
    now: Timestamp,
    after: StoreView,
    step: Result<RequestStep, SessionError>,
)
    requires
        now.regular(),
        before.sessions.contains_key(id_in(cookie)),
        !before.sessions[id_in(cookie)].destroy,
        no_later(now, before.sessions[id_in(cookie)].expires),
        before.sessions[id_in(cookie)].data.contains_key(other),
        other != key,
        removed == before.with_session(
            id_in(cookie),
            before.sessions[id_in(cookie)].without_value(key),
        ),
        crate::request::went_as(
            removed.request_outcome(crate::request::cookie_id(cookie), now),
            removed,
            after,
            step,
        ),
        step is Ok,
    ensures
        removed.persisted(id_in(cookie)) == Some(
            crate::fairing::PersistView::Store(removed.sessions[id_in(cookie)]),
        ),
        after.sessions[id_in(cookie)].data.contains_key(other),
        after.sessions[id_in(cookie)].data[other] == before.sessions[id_in(cookie)].data[other],
        !after.sessions[id_in(cookie)].data.contains_key(key),
{
    law_remove_touches_only_its_key(before, id_in(cookie), key, removed);
    assert(removed.sessions.dom().contains(id_in(cookie)));
    law_request_extends_its_session(removed, cookie, now, after, step);
}

/// A read of a key decodes the text that is stored under it, and gives nothing where there is
/// none.
pub proof fn law_get_decodes_what_is_stored<T, F: FnOnce(&str) -> Option<T>>(
    session: SessionView,
    key: Seq<char>,
    decode: F,
    value: Option<T>,
)
    requires
        crate::session::read_gives(session.data, key, decode, value),
    ensures
        !session.data.contains_key(key) ==> value is None,
        session.data.contains_key(key) ==> exists|text: &str|
            text@ == session.data[key] && #[trigger] call_ensures(decode, (text,), value),
{
}

/// What is stored for a value is the text that was made of it, as a whole; nothing, where none
/// could be made.
pub proof fn law_stored_text_is_what_was_encoded<E>(encoded: Result<String, E>)
    ensures
        encoded matches Ok(text) ==> crate::session::stored_text(encoded) == text@,
        encoded is Err ==> crate::session::stored_text(encoded).len() == 0,
{
}

/// The response to a request with a session carries the cookie that brings it back: under the name
/// and the path that are set, with just the session's ID, so that the next request has that ID. To
/// one without a session it carries none.
pub proof fn law_cookie_brings_the_session_back(
    config: ConfigView,
    id: Seq<char>,
    plan: ResponsePlan,
)
    requires
        plan.cookie_view() == if id.len() > 0 {
            Some(CookieView::of(config, id))
        } else {
            None
        },
    ensures
        plan.cookie is Some <==> id.len() > 0,
        plan.cookie matches Some(cookie) ==> {
            &&& cookie.name@ == config.cookie_name
            &&& cookie.value@ == id
            &&& cookie.path@ == config.cookie_path
            &&& forall|value: &str| #[trigger]
                value@ == cookie.value@ ==> crate::request::cookie_id(Some(value)) == id
        },
{
}

/// A request without a cookie has an empty ID, and one with a cookie has its value for one.
pub proof fn law_cookie_value_is_the_id(cookie: Option<&str>)
    ensures
        cookie is None ==> crate::request::cookie_id(cookie).len() == 0,
        cookie matches Some(value) ==> crate::request::cookie_id(cookie) == value@,
{
}

/// The response deletes the row of a session in memory that is marked, and of no other ID; it
/// writes one that is not marked, with all that it holds; and it does neither without a session in
/// memory or without an ID.
pub proof fn law_response_writes_or_deletes(
    store: Option<StoreView>,
    id: Seq<char>,
    plan: ResponsePlan,
)
    requires
        plan.persist_view() == match store {
            Some(held) if id.len() > 0 => held.persisted(id),
            _ => None,
        },
    ensures
        match plan.persist {
            Some(Persist::Destroy(statement)) => {
                &&& id.len() > 0
                &&& store is Some
                &&& store->0.sessions.contains_key(id)
                &&& store->0.sessions[id].destroy
                &&& statement@ == store->0.destroy_statement(id)
            },
            Some(Persist::Store(session)) => {
                &&& id.len() > 0
                &&& store is Some
                &&& store->0.sessions.contains_key(id)
                &&& !store->0.sessions[id].destroy
                &&& session@ == store->0.sessions[id]
            },
            None => id.len() == 0 || store is None || !store->0.sessions.contains_key(id),
        },
{
}


/// A query with one marker, and no `%` beside it, takes the table's name in the marker's place, and
/// is one text with one name and another text with another name.
proof fn lemma_name_in_place(query: Seq<char>, start: Seq<char>, end: Seq<char>, name: Seq<char>)
    requires
        query == start + "%%TABLE_NAME%%"@ + end,
        !start.contains('%'),
        !end.contains('%'),
    ensures
        crate::text::substituted(query, name) == start + name + end,
        forall|other: Seq<char>|
            #![trigger start + other + end]
            start + other + end == start + name + end ==> other == name,
{
    reveal_strlit("%%TABLE_NAME%%");
    crate::text::lemma_replaced_between(start, "%%TABLE_NAME%%"@, end, name);
    assert forall|other: Seq<char>|
        #![trigger start + other + end]
        start + other + end == start + name + end implies other == name by {
        let (one, two) = (start + other + end, start + name + end);
        assert(one.len() == two.len());
        assert forall|i: int| 0 <= i < other.len() implies other[i] == name[i] by {
            assert(one[start.len() + i] == other[i]);
            assert(two[start.len() + i] == name[i]);
        }
        assert(other =~= name);
    }
}

/// The table's name takes the place of every marker in a query, from left to right, and everything
/// else stays: where a marker comes first, the name comes first and what follows is gone through;
/// where another character comes first, it stays.
pub proof fn law_name_takes_the_place_of_markers(query: Seq<char>, name: Seq<char>)
    ensures
        query.len() < 14 ==> crate::text::substituted(query, name) == query,
        crate::text::substituted("%%TABLE_NAME%%"@ + query, name) == name
            + crate::text::substituted(query, name),
        query.len() > 0 && !"%%TABLE_NAME%%"@.is_prefix_of(query) ==> crate::text::substituted(
            query,
            name,
        ) == seq![query[0]] + crate::text::substituted(query.skip(1), name),
{
    reveal_strlit("%%TABLE_NAME%%");
    let marker = "%%TABLE_NAME%%"@;
    let longer = marker + query;
    assert(marker.is_prefix_of(longer));
    assert(longer.skip(marker.len() as int) =~= query);
    if query.len() > 0 && query.len() < marker.len() {
        assert(query =~= seq![query[0]] + query.skip(1));
    }
}

/// The statement that creates the table: it names the table that is set, in the place of the
/// marker in its query, and no other; and just these values go with it.
pub proof fn law_statement_creates_the_table(
    store: StoreView,
    statement: Statement,
    other: StoreView,
)
    requires
        statement@ == store.migrate_statement(),
    ensures
        statement.text@ == crate::text::substituted(
            "
            CREATE TABLE IF NOT EXISTS %%TABLE_NAME%% (
                \"id\" VARCHAR NOT NULL PRIMARY KEY,
                \"expires\" TIMESTAMP WITH TIME ZONE NULL,
                \"session\" TEXT NOT NULL
            )
            "@,
            store.config.table_name,
        ),
        statement.params@.len() == 0,
        statement.text@ == other.migrate_statement().text <==> store.config.table_name
            == other.config.table_name,
{
    let (start, end) = ("
            CREATE TABLE IF NOT EXISTS "@, " (
                \"id\" VARCHAR NOT NULL PRIMARY KEY,
                \"expires\" TIMESTAMP WITH TIME ZONE NULL,
                \"session\" TEXT NOT NULL
            )
            "@);
    let query = "
            CREATE TABLE IF NOT EXISTS %%TABLE_NAME%% (
                \"id\" VARCHAR NOT NULL PRIMARY KEY,
                \"expires\" TIMESTAMP WITH TIME ZONE NULL,
                \"session\" TEXT NOT NULL
            )
            "@;
    reveal_strlit("%%TABLE_NAME%%");
    reveal_strlit("
            CREATE TABLE IF NOT EXISTS %%TABLE_NAME%% (
                \"id\" VARCHAR NOT NULL PRIMARY KEY,
                \"expires\" TIMESTAMP WITH TIME ZONE NULL,
                \"session\" TEXT NOT NULL
            )
            ");
    reveal_strlit("
            CREATE TABLE IF NOT EXISTS ");
    reveal_strlit(" (
                \"id\" VARCHAR NOT NULL PRIMARY KEY,
                \"expires\" TIMESTAMP WITH TIME ZONE NULL,
                \"session\" TEXT NOT NULL
            )
            ");
    assert(query =~= start + "%%TABLE_NAME%%"@ + end);
    lemma_name_in_place(query, start, end, store.config.table_name);
    assert(statement@.params.len() == statement.params@.len());
}

/// The statement that deletes what expires before an instant: it names the table that is set,
/// in the place of the marker in its query, and no other; and just these values go with it.
pub proof fn law_statement_deletes_what_has_expired(
    store: StoreView,
    now: Timestamp,
    statement: Statement,
    other: StoreView,
)
    requires
        statement@ == store.cleanup_statement(now),
    ensures
        statement.text@ == crate::text::substituted(
            "DELETE FROM %%TABLE_NAME%% WHERE expires < $1"@,
            store.config.table_name,
        ),
        statement.params@.len() == 1,
        statement.params@[0] matches Param::Time(time) && time == now,
        statement.text@ == other.cleanup_statement(now).text <==> store.config.table_name
            == other.config.table_name,
{
    let (start, end) = ("DELETE FROM "@, " WHERE expires < $1"@);
    let query = "DELETE FROM %%TABLE_NAME%% WHERE expires < $1"@;
    reveal_strlit("%%TABLE_NAME%%");
    reveal_strlit("DELETE FROM %%TABLE_NAME%% WHERE expires < $1");
    reveal_strlit("DELETE FROM ");
    reveal_strlit(" WHERE expires < $1");
    assert(query =~= start + "%%TABLE_NAME%%"@ + end);
    lemma_name_in_place(query, start, end, store.config.table_name);
    assert(statement@.params.len() == statement.params@.len());
    assert(statement@.params[0] == statement.params@[0]@);
}

/// The statement that counts the sessions: it names the table that is set, in the place of the
/// marker in its query, and no other; and just these values go with it.
pub proof fn law_statement_counts_the_sessions(
    store: StoreView,
    statement: Statement,
    other: StoreView,
)
    requires
        statement@ == store.count_statement(),
    ensures
        statement.text@ == crate::text::substituted(
            "SELECT COUNT(*) FROM %%TABLE_NAME%%"@,
            store.config.table_name,
        ),
        statement.params@.len() == 0,
        statement.text@ == other.count_statement().text <==> store.config.table_name
            == other.config.table_name,
{
    let (start, end) = ("SELECT COUNT(*) FROM "@, Seq::<char>::empty());
    let query = "SELECT COUNT(*) FROM %%TABLE_NAME%%"@;
    reveal_strlit("%%TABLE_NAME%%");
    reveal_strlit("SELECT COUNT(*) FROM %%TABLE_NAME%%");
    reveal_strlit("SELECT COUNT(*) FROM ");
    assert(query =~= start + "%%TABLE_NAME%%"@ + end);
    lemma_name_in_place(query, start, end, store.config.table_name);
    assert(start + store.config.table_name + end =~= start + store.config.table_name);
    assert(start + other.config.table_name + end =~= start + other.config.table_name);
    assert(statement@.params.len() == statement.params@.len());
}

/// The statement that reads the session of an ID, if it does not expire by an instant: it names
/// the table that is set, in the place of the marker in its query, and no other; and just these
/// values go with it.
pub proof fn law_statement_reads_one_session(
    store: StoreView,
    id: Seq<char>,
    now: Timestamp,
    statement: Statement,
    other: StoreView,
)
    requires
        statement@ == store.load_statement(id, now),
    ensures
        statement.text@ == crate::text::substituted(
            "SELECT session FROM %%TABLE_NAME%% WHERE id = $1 AND (expires IS NULL OR expires > $2)"@,
            store.config.table_name,
        ),
        statement.params@.len() == 2,
        statement.params@[0] matches Param::Text(text) && text@ == id,
        statement.params@[1] matches Param::Time(time) && time == now,
        statement.text@ == other.load_statement(id, now).text <==> store.config.table_name
            == other.config.table_name,
{
    let (start, end) = ("SELECT session FROM "@, " WHERE id = $1 AND (expires IS NULL OR expires > $2)"@);
    let query = "SELECT session FROM %%TABLE_NAME%% WHERE id = $1 AND (expires IS NULL OR expires > $2)"@;
    reveal_strlit("%%TABLE_NAME%%");
    reveal_strlit("SELECT session FROM %%TABLE_NAME%% WHERE id = $1 AND (expires IS NULL OR expires > $2)");
    reveal_strlit("SELECT session FROM ");
    reveal_strlit(" WHERE id = $1 AND (expires IS NULL OR expires > $2)");
    assert(query =~= start + "%%TABLE_NAME%%"@ + end);
    lemma_name_in_place(query, start, end, store.config.table_name);
    assert(statement@.params.len() == statement.params@.len());
    assert(statement@.params[0] == statement.params@[0]@);
    assert(statement@.params[1] == statement.params@[1]@);
}

/// The statement that writes a session, with its ID, the text that was made of it and its
/// expiry: it names the table that is set, in the place of the marker in its query, and no
/// other; and just these values go with it.
pub proof fn law_statement_writes_one_session(
    store: StoreView,
    session: SessionView,
    encoded: Seq<char>,
    statement: Statement,
    other: StoreView,
)
    requires
        statement@ == store.store_statement(session, encoded),
    ensures
        statement.text@ == crate::text::substituted(
            "
            INSERT INTO %%TABLE_NAME%%
              (id, session, expires) SELECT $1, $2, $3
            ON CONFLICT(id) DO UPDATE SET
              expires = EXCLUDED.expires,
              session = EXCLUDED.session
            "@,
            store.config.table_name,
        ),
        statement.params@.len() == 3,
        statement.params@[0] matches Param::Text(text) && text@ == session.id,
        statement.params@[1] matches Param::Text(text) && text@ == encoded,
        statement.params@[2] matches Param::Time(time) && time == session.expires,
        statement.text@ == other.store_statement(session, encoded).text <==> store.config.table_name
            == other.config.table_name,
{
    let (start, end) = ("
            INSERT INTO "@, "
              (id, session, expires) SELECT $1, $2, $3
            ON CONFLICT(id) DO UPDATE SET
              expires = EXCLUDED.expires,
              session = EXCLUDED.session
            "@);
    let query = "
            INSERT INTO %%TABLE_NAME%%
              (id, session, expires) SELECT $1, $2, $3
            ON CONFLICT(id) DO UPDATE SET
              expires = EXCLUDED.expires,
              session = EXCLUDED.session
            "@;
    reveal_strlit("%%TABLE_NAME%%");
    reveal_strlit("
            INSERT INTO %%TABLE_NAME%%
              (id, session, expires) SELECT $1, $2, $3
            ON CONFLICT(id) DO UPDATE SET
              expires = EXCLUDED.expires,
              session = EXCLUDED.session
            ");
    reveal_strlit("
            INSERT INTO ");
    reveal_strlit("
              (id, session, expires) SELECT $1, $2, $3
            ON CONFLICT(id) DO UPDATE SET
              expires = EXCLUDED.expires,
              session = EXCLUDED.session
            ");
    assert(query =~= start + "%%TABLE_NAME%%"@ + end);
    lemma_name_in_place(query, start, end, store.config.table_name);
    assert(statement@.params.len() == statement.params@.len());
    assert(statement@.params[0] == statement.params@[0]@);
    assert(statement@.params[1] == statement.params@[1]@);
    assert(statement@.params[2] == statement.params@[2]@);
}

/// The statement that deletes the session of an ID: it names the table that is set, in the
/// place of the marker in its query, and no other; and just these values go with it.
pub proof fn law_statement_deletes_one_session(
    store: StoreView,
    id: Seq<char>,
    statement: Statement,
    other: StoreView,
)
    requires
        statement@ == store.destroy_statement(id),
    ensures
        statement.text@ == crate::text::substituted(
            "DELETE FROM %%TABLE_NAME%% WHERE id = $1"@,
            store.config.table_name,
        ),
        statement.params@.len() == 1,
        statement.params@[0] matches Param::Text(text) && text@ == id,
        statement.text@ == other.destroy_statement(id).text <==> store.config.table_name
            == other.config.table_name,
{
    let (start, end) = ("DELETE FROM "@, " WHERE id = $1"@);
    let query = "DELETE FROM %%TABLE_NAME%% WHERE id = $1"@;
    reveal_strlit("%%TABLE_NAME%%");
    reveal_strlit("DELETE FROM %%TABLE_NAME%% WHERE id = $1");
    reveal_strlit("DELETE FROM ");
    reveal_strlit(" WHERE id = $1");
    assert(query =~= start + "%%TABLE_NAME%%"@ + end);
    lemma_name_in_place(query, start, end, store.config.table_name);
    assert(statement@.params.len() == statement.params@.len());
    assert(statement@.params[0] == statement.params@[0]@);
}

/// The statement that deletes every session: it names the table that is set, in the place of
/// the marker in its query, and no other; and just these values go with it.
pub proof fn law_statement_deletes_every_session(
    store: StoreView,
    statement: Statement,
    other: StoreView,
)
    requires
        statement@ == store.clear_statement(),
    ensures
        statement.text@ == crate::text::substituted(
            "TRUNCATE %%TABLE_NAME%%"@,
            store.config.table_name,
        ),
        statement.params@.len() == 0,
        statement.text@ == other.clear_statement().text <==> store.config.table_name
            == other.config.table_name,
{
    let (start, end) = ("TRUNCATE "@, Seq::<char>::empty());
    let query = "TRUNCATE %%TABLE_NAME%%"@;
    reveal_strlit("%%TABLE_NAME%%");
    reveal_strlit("TRUNCATE %%TABLE_NAME%%");
    reveal_strlit("TRUNCATE ");
    assert(query =~= start + "%%TABLE_NAME%%"@ + end);
    lemma_name_in_place(query, start, end, store.config.table_name);
    assert(start + store.config.table_name + end =~= start + store.config.table_name);
    assert(start + other.config.table_name + end =~= start + other.config.table_name);
    assert(statement@.params.len() == statement.params@.len());
}

/// Writing a session makes a statement of its ID, its expiry and the whole text that was made of
/// it; where no text could be made, it gives the error, and there is nothing to write.
pub proof fn law_store_writes_the_encoded_text<
    E,
    F: FnOnce(&SQLxSessionData) -> Result<String, E>,
>(store: StoreView, session: SQLxSessionData, encode: F, statement: Result<Statement, E>)
    requires
        store.store_gives(session, encode, statement),
    ensures
        match statement {
            Ok(made) => exists|encoded: Result<String, E>|
                {
                    &&& #[trigger] call_ensures(encode, (&session,), encoded)
                    &&& encoded is Ok
                    &&& made.params@[0] == Param::Text(made.params@[0]->Text_0)
                    &&& made.params@[0]->Text_0@ == session.id@
                    &&& made.params@[1] == Param::Text(made.params@[1]->Text_0)
                    &&& made.params@[1]->Text_0@ == encoded->Ok_0@
                    &&& made.params@[2] == Param::Time(session.expires)
                    &&& made@ == store.store_statement(session@, encoded->Ok_0@)
                },
            Err(error) => call_ensures(encode, (&session,), Err::<String, E>(error)),
        },
{
    let encoded = choose|encoded: Result<String, E>|
        {
            &&& #[trigger] call_ensures(encode, (&session,), encoded)
            &&& match encoded {
                Ok(text) => match statement {
                    Ok(s) => s@ == store.store_statement(session@, text@),
                    Err(_) => false,
                },
                Err(error) => statement == Err::<Statement, E>(error),
            }
        };
    if statement is Ok {
        law_statement_writes_one_session(store, session@, encoded->Ok_0@, statement->Ok_0, store);
        assert(call_ensures(encode, (&session,), encoded));
    }
}

/// A read gives nothing where there is no row, the session that the row's whole text was decoded
/// to, and the error where it could not be decoded.
pub proof fn law_load_decodes_the_row<E, F: FnOnce(&str) -> Result<SQLxSessionData, E>>(
    row: Option<String>,
    decode: F,
    loaded: Result<Option<SQLxSessionData>, E>,
)
    requires
        crate::store::row_gives(crate::store::row_text(row), decode, loaded),
    ensures
        row is None ==> loaded == Ok::<Option<SQLxSessionData>, E>(None),
        row is Some ==> exists|text: &str, decoded: Result<SQLxSessionData, E>|
            {
                &&& text@ == row->0@
                &&& #[trigger] call_ensures(decode, (text,), decoded)
                &&& loaded is Ok <==> decoded is Ok
                &&& decoded is Ok ==> loaded->Ok_0 == Some(decoded->Ok_0)
                &&& decoded is Err ==> loaded->Err_0 == decoded->Err_0
            },
{
}

}
