//! What holds of the sessions as a whole.

use crate::config::ConfigView;
use crate::data::{SQLxSessionData, SessionView};
use crate::fairing::PersistView;
use crate::request::{DrawnView, StepView};
use crate::statement::{Statement, StatementView};
use crate::store::StoreView;
use crate::table::Table;
use crate::time::{Span, Timestamp};
use vstd::prelude::*;

verus! {

/// A span later: regular, and that many nanoseconds on.
proof fn lemma_plus(at: Timestamp, span: Span)
    requires
        at.regular(),
        at.plus(span) is Some,
    ensures
        at.plus(span)->0.regular(),
        at.plus(span)->0.instant() == at.instant() + span.length(),
{
}

/// Outside leap seconds, instants are ordered as their nanoseconds since the Unix epoch are.
pub proof fn law_before_is_order_of_instants(a: Timestamp, b: Timestamp)
    requires
        a.regular(),
        b.regular(),
    ensures
        a.before(b) <==> a.instant() < b.instant(),
{
}

/// Of two instants one comes before the other, or they are the same; and before is transitive.
pub proof fn law_before_is_total(a: Timestamp, b: Timestamp, c: Timestamp)
    ensures
        a.before(b) || b.before(a) || a == b,
        !(a.before(b) && b.before(a)),
        a.before(b) && b.before(c) ==> a.before(c),
{
}

/// A read gives back what was written: after a text was stored under a key, a read of that key
/// decodes that text.
pub proof fn law_get_after_set<T, F: FnOnce(&str) -> Option<T>>(
    session: SessionView,
    key: Seq<char>,
    text: Seq<char>,
    decode: F,
    value: Option<T>,
)
    ensures
        crate::session::read_gives(session.with_value(key, text).data, key, decode, value) <==> (
        exists|stored: &str| stored@ == text && #[trigger] call_ensures(decode, (stored,), value)),
{
}

/// Anything that can be encoded can be stored, if it is decoded again in the same way: where
/// decoding gives back the value that was encoded, so does reading it after it was stored.
pub proof fn law_get_gives_back_the_value<
    V,
    E,
    F: FnOnce(&V) -> Result<String, E>,
    G: FnOnce(&str) -> Option<V>,
>(
    session: SessionView,
    key: Seq<char>,
    original: V,
    encode: F,
    encoded: Result<String, E>,
    decode: G,
    value: Option<V>,
)
    requires
        encoded is Ok,
        call_ensures(encode, (&original,), encoded),
        forall|text: &str, decoded: Option<V>|
            text@ == encoded->Ok_0@ && #[trigger] call_ensures(decode, (text,), decoded) ==> decoded
                == Some(original),
        crate::session::read_gives(
            session.with_value(key, crate::session::stored_text(encoded)).data,
            key,
            decode,
            value,
        ),
    ensures
        value == Some(original),
{
}

/// What is done under one key is not seen under another.
pub proof fn law_keys_are_apart<T, F: FnOnce(&str) -> Option<T>>(
    session: SessionView,
    key: Seq<char>,
    other: Seq<char>,
    text: Seq<char>,
    decode: F,
    value: Option<T>,
)
    requires
        key != other,
    ensures
        crate::session::read_gives(session.with_value(key, text).data, other, decode, value)
            <==> crate::session::read_gives(session.data, other, decode, value),
        crate::session::read_gives(session.without_value(key).data, other, decode, value)
            <==> crate::session::read_gives(session.data, other, decode, value),
{
}

/// Nothing is read under a key that was removed, nor under any key once all are.
pub proof fn law_get_after_remove<T, F: FnOnce(&str) -> Option<T>>(
    session: SessionView,
    key: Seq<char>,
    decode: F,
    value: Option<T>,
)
    ensures
        crate::session::read_gives(session.without_value(key).data, key, decode, value)
            <==> value is None,
        crate::session::read_gives(session.cleared().data, key, decode, value) <==> value is None,
{
}

/// Storing the same text again changes nothing, and storing another one forgets the first.
pub proof fn law_last_set_counts(
    session: SessionView,
    key: Seq<char>,
    first: Seq<char>,
    second: Seq<char>,
)
    ensures
        session.with_value(key, first).with_value(key, second) == session.with_value(key, second),
{
    assert(session.data.insert(key, first).insert(key, second) =~= session.data.insert(
        key,
        second,
    ));
}

/// What is done to one session leaves the others, the settings and the timers alone.
pub proof fn law_sessions_are_apart(
    store: StoreView,
    id: Seq<char>,
    session: SessionView,
    other: Seq<char>,
)
    requires
        id != other,
    ensures
        store.with_session(id, session).sessions.contains_key(other)
            == store.sessions.contains_key(other),
        store.sessions.contains_key(other) ==> store.with_session(id, session).sessions[other]
            == store.sessions[other],
        store.with_session(id, session).config == store.config,
        store.with_session(id, session).timers == store.timers,
{
}

/// Marking a session for destruction keeps its data; the next request that finds it in memory
/// drops the data and keeps the mark.
pub proof fn law_destroyed_session_loses_its_data(
    store: StoreView,
    session: SessionView,
    now: Timestamp,
)
    requires
        session.destroyed().touched(store.config, now) is Some,
    ensures
        session.destroyed().data == session.data,
        session.destroyed().touched(store.config, now)->0.data == Map::<
            Seq<char>,
            Seq<char>,
        >::empty(),
        session.destroyed().touched(store.config, now)->0.destroy,
{
}

/// A request that finds its session in memory keeps the data of one that has not expired and is
/// not marked, and drops the data of any other. The ID and the mark stay.
pub proof fn law_touch_keeps_live_data(store: StoreView, session: SessionView, now: Timestamp)
    requires
        session.touched(store.config, now) is Some,
    ensures
        session.live_at(now) ==> session.touched(store.config, now)->0.data == session.data,
        !session.live_at(now) ==> session.touched(store.config, now)->0.data == Map::<
            Seq<char>,
            Seq<char>,
        >::empty(),
        session.touched(store.config, now)->0.id == session.id,
        session.touched(store.config, now)->0.destroy == session.destroy,
{
}

/// A request extends its session: it expires one lifespan later, and no earlier.
pub proof fn law_touch_extends(
    store: StoreView,
    session: SessionView,
    now: Timestamp,
    later: Timestamp,
)
    requires
        now.regular(),
        later.regular(),
        session.touched(store.config, now) is Some,
    ensures
        session.touched(store.config, now)->0.valid_at(later) <==> later.instant() <= now.instant()
            + store.config.lifespan.length(),
{
    lemma_plus(now, store.config.lifespan);
}

/// A session that is not used stays in memory for the lifespan in memory, and no longer: a sweep
/// takes it out from then on, and not before.
pub proof fn law_unused_session_leaves_memory(
    store: StoreView,
    session: SessionView,
    id: Seq<char>,
    now: Timestamp,
    later: Timestamp,
)
    requires
        now.regular(),
        later.regular(),
        session.touched(store.config, now) is Some,
    ensures
        store.with_session(id, session.touched(store.config, now)->0).swept(
            later,
        ).sessions.contains_key(id) <==> later.instant() < now.instant()
            + store.config.memory_lifespan.length(),
{
    lemma_plus(now, store.config.memory_lifespan);
}

/// A sweep keeps exactly the sessions that are due to leave memory later, as they are.
pub proof fn law_sweep_keeps(store: StoreView, now: Timestamp, id: Seq<char>)
    ensures
        store.swept(now).sessions.contains_key(id) <==> store.sessions.contains_key(id)
            && now.before(store.sessions[id].autoremove),
        store.swept(now).sessions.contains_key(id) ==> store.swept(now).sessions[id]
            == store.sessions[id],
        store.swept(now).config == store.config,
        store.swept(now).timers == store.timers,
{
}

/// Two sweeps do what the later one does.
pub proof fn law_later_sweep_counts(store: StoreView, first: Timestamp, second: Timestamp)
    requires
        !second.before(first),
    ensures
        store.swept(first).swept(second) == store.swept(second),
        store.swept(second).swept(first) == store.swept(second),
{
    assert(store.swept(first).swept(second).sessions =~= store.swept(second).sessions);
    assert(store.swept(second).swept(first).sessions =~= store.swept(second).sessions);
}

/// Sweeps are throttled: after a request swept the memory, no sweep of it is due until the
/// lifespan in memory has passed, and one is due from then on.
pub proof fn law_memory_sweeps_are_throttled(store: StoreView, now: Timestamp, later: Timestamp)
    requires
        now.regular(),
        later.regular(),
        store.memory_due(now),
        store.memory_swept(now) is Some,
    ensures
        store.memory_swept(now)->0.memory_due(later) <==> later.instant() >= now.instant()
            + store.config.memory_lifespan.length(),
{
    lemma_plus(now, store.config.memory_lifespan);
}

/// After the database was swept, no sweep of it is due until a lifespan has passed, and one is due
/// from then on.
pub proof fn law_database_sweeps_are_throttled(
    store: StoreView,
    id: Seq<char>,
    now: Timestamp,
    later: Timestamp,
)
    requires
        now.regular(),
        later.regular(),
        store.cleaned_outcome(id, now) is Some,
    ensures
        ({
            let (after, _) = store.cleaned_outcome(id, now)->0;
            after.database_due(later) <==> later.instant() >= now.instant()
                + store.config.lifespan.length()
        }),
{
    lemma_plus(now, store.config.lifespan);
}

/// The first sweeps are due one lifespan from the start, and not before: that in memory for the
/// memory, and that in the database for the database.
pub proof fn law_first_sweeps(config: ConfigView, now: Timestamp, later: Timestamp)
    requires
        now.regular(),
        later.regular(),
        StoreView::starting(config, now) is Some,
    ensures
        StoreView::starting(config, now)->0.memory_due(later) <==> later.instant() >= now.instant()
            + config.memory_lifespan.length(),
        StoreView::starting(config, now)->0.database_due(later) <==> later.instant()
            >= now.instant() + config.lifespan.length(),
{
    lemma_plus(now, config.memory_lifespan);
    lemma_plus(now, config.lifespan);
}

/// A new session is empty, is not marked, expires one lifespan after it began, and is due to leave
/// memory after the lifespan there.
pub proof fn law_fresh_session(
    id: Seq<char>,
    now: Timestamp,
    lifespan: Span,
    memory: Span,
    later: Timestamp,
)
    requires
        now.regular(),
        later.regular(),
        SessionView::fresh(id, now, lifespan, memory) is Some,
    ensures
        ({
            let session = SessionView::fresh(id, now, lifespan, memory)->0;
            &&& session.id == id
            &&& session.data == Map::<Seq<char>, Seq<char>>::empty()
            &&& session.live_at(later) <==> later.instant() <= now.instant() + lifespan.length()
            &&& later.before(session.autoremove) <==> later.instant() < now.instant()
                + memory.length()
        }),
{
    lemma_plus(now, lifespan);
    lemma_plus(now, memory);
}

/// Whether every session is kept under its own ID.
pub open spec fn kept_by_id(store: StoreView) -> bool {
    forall|key: Seq<char>| #[trigger]
        store.sessions.contains_key(key) ==> store.sessions[key].id == key
}

/// A new store keeps its sessions under their IDs, and no step of a request changes that.
pub proof fn law_requests_keep_by_id(
    config: ConfigView,
    store: StoreView,
    id: Seq<char>,
    loaded: Option<SessionView>,
    now: Timestamp,
)
    ensures
        StoreView::starting(config, now) matches Some(s) ==> kept_by_id(s),
        kept_by_id(store) ==> {
            &&& store.request_outcome(id, now) matches Some((s, _)) ==> kept_by_id(s)
            &&& store.cleaned_outcome(id, now) matches Some((s, _)) ==> kept_by_id(s)
            &&& store.loaded_outcome(id, loaded, now) matches Some((s, _)) ==> kept_by_id(s)
            &&& store.created_outcome(id, now) matches Some((s, _)) ==> kept_by_id(s)
        },
{
}

/// Nothing that is done with a session takes it from under its ID.
pub proof fn law_sessions_stay_by_id(
    store: StoreView,
    id: Seq<char>,
    key: Seq<char>,
    text: Seq<char>,
)
    requires
        kept_by_id(store),
        store.sessions.contains_key(id),
    ensures
        ({
            let session = store.sessions[id];
            &&& kept_by_id(store.with_session(id, session.destroyed()))
            &&& kept_by_id(store.with_session(id, session.with_value(key, text)))
            &&& kept_by_id(store.with_session(id, session.without_value(key)))
            &&& kept_by_id(store.with_session(id, session.cleared()))
        }),
{
}

/// A request that is ready has its session in memory, under the ID that it got.
pub proof fn law_ready_session_is_in_memory(
    store: StoreView,
    id: Seq<char>,
    loaded: Option<SessionView>,
    now: Timestamp,
)
    ensures
        store.request_outcome(id, now) matches Some((s, StepView::Ready(ready)))
            ==> s.sessions.contains_key(ready),
        store.cleaned_outcome(id, now) matches Some((s, StepView::Ready(ready)))
            ==> s.sessions.contains_key(ready),
        store.loaded_outcome(id, loaded, now) matches Some((s, StepView::Ready(ready)))
            ==> s.sessions.contains_key(ready),
        store.created_outcome(id, now) matches Some((s, StepView::Ready(ready)))
            ==> s.sessions.contains_key(ready),
{
}

/// How many answers a request still waits for.
pub open spec fn answers_left(step: StepView) -> nat {
    match step {
        StepView::Cleanup { .. } => 2,
        StepView::Load { .. } => 1,
        StepView::Create => 1,
        StepView::Ready(_) => 0,
    }
}

/// A request comes to an end: it waits for two answers at most, and each answer is followed by
/// fewer; that to a request for a new session, once an ID has come up that is not in use.
pub proof fn law_request_ends(
    store: StoreView,
    id: Seq<char>,
    loaded: Option<SessionView>,
    now: Timestamp,
)
    ensures
        store.request_outcome(id, now) matches Some((_, step)) ==> answers_left(step) <= 2,
        store.cleaned_outcome(id, now) matches Some((_, step)) ==> answers_left(step) == 1,
        store.loaded_outcome(id, loaded, now) matches Some((_, step)) ==> answers_left(step) == 0,
        store.created_outcome(id, now) matches Some((_, step)) ==> answers_left(step) == 0,
{
}

/// A request without an ID gets a new session or is ready under the empty ID; one with an ID that
/// is not in memory is looked up in the database under that ID, and with no other.
pub proof fn law_request_asks_for_its_id(store: StoreView, id: Seq<char>, now: Timestamp)
    ensures
        match store.request_outcome(id, now) {
            Some((_, StepView::Load { id: asked, statement })) => {
                &&& asked == id
                &&& id.len() > 0
                &&& !store.sessions.contains_key(id)
                &&& statement == store.load_statement(id, now)
            },
            Some((_, StepView::Create)) => id.len() == 0 && !store.sessions.contains_key(id),
            Some((_, StepView::Cleanup { id: asked, statement })) => {
                &&& asked == id
                &&& !store.sessions.contains_key(id)
                &&& statement == store.cleanup_statement(now)
            },
            Some((_, StepView::Ready(ready))) => ready == id && store.sessions.contains_key(id),
            None => true,
        },
{
}

/// The settings are never changed by a request, so that a session's cookie is looked for under the
/// name under which it was sent.
pub proof fn law_requests_keep_settings(
    config: ConfigView,
    store: StoreView,
    id: Seq<char>,
    loaded: Option<SessionView>,
    now: Timestamp,
)
    ensures
        StoreView::starting(config, now) matches Some(s) ==> s.config == config,
        store.request_outcome(id, now) matches Some((s, _)) ==> s.config == store.config,
        store.cleaned_outcome(id, now) matches Some((s, _)) ==> s.config == store.config,
        store.loaded_outcome(id, loaded, now) matches Some((s, _)) ==> s.config == store.config,
        store.created_outcome(id, now) matches Some((s, _)) ==> s.config == store.config,
{
}

/// The first step of a request changes no session but its own: every other session is as it was,
/// or has left memory because its time there was over.
pub proof fn law_request_leaves_others(
    store: StoreView,
    id: Seq<char>,
    now: Timestamp,
    other: Seq<char>,
)
    requires
        store.request_outcome(id, now) is Some,
        store.sessions.contains_key(other),
        other != id,
    ensures
        ({
            let (after, _) = store.request_outcome(id, now)->0;
            if after.sessions.contains_key(other) {
                after.sessions[other] == store.sessions[other]
            } else {
                !now.before(store.sessions[other].autoremove)
            }
        }),
{
}

/// No step of a request brings sessions into memory but the one that it is ready with.
pub proof fn law_request_adds_only_its_session(
    store: StoreView,
    id: Seq<char>,
    loaded: Option<SessionView>,
    now: Timestamp,
    other: Seq<char>,
)
    requires
        !store.sessions.contains_key(other),
    ensures
        store.request_outcome(id, now) matches Some((s, _)) ==> !s.sessions.contains_key(other),
        store.cleaned_outcome(id, now) matches Some((s, _)) ==> !s.sessions.contains_key(other),
        store.loaded_outcome(id, loaded, now) matches Some((s, step)) ==> s.sessions.contains_key(
            other,
        ) ==> step == StepView::Ready(other),
        store.created_outcome(id, now) matches Some((s, step)) ==> s.sessions.contains_key(other)
            ==> step == StepView::Ready(other),
{
}

/// A new session under an ID that is not in use leaves every other session as it was.
pub proof fn law_new_session_disturbs_none(store: StoreView, token: Seq<char>, now: Timestamp)
    requires
        !store.sessions.contains_key(token),
        store.created_outcome(token, now) is Some,
    ensures
        ({
            let (after, _) = store.created_outcome(token, now)->0;
            after.sessions.remove(token) == store.sessions
        }),
{
    let (after, _) = store.created_outcome(token, now)->0;
    assert(after.sessions.remove(token) =~= store.sessions);
}

/// Of tokens that are drawn one after the other the first that is not in use is taken; and while
/// draws are left, none is taken only where all are in use.
pub proof fn law_first_unused_token_is_taken(store: StoreView, tokens: Seq<Seq<char>>, left: u64)
    requires
        tokens.len() <= left,
    ensures
        match store.drawn_in_turn(tokens, left) {
            DrawnView::Accepted(token) => exists|i: int|
                {
                    &&& 0 <= i < tokens.len()
                    &&& #[trigger] tokens[i] == token
                    &&& !store.sessions.contains_key(token)
                    &&& forall|j: int|
                        0 <= j < i ==> store.sessions.contains_key(#[trigger] tokens[j])
                },
            DrawnView::Again(rest) => {
                &&& rest == left - tokens.len()
                &&& forall|i: int|
                    0 <= i < tokens.len() ==> store.sessions.contains_key(#[trigger] tokens[i])
            },
            DrawnView::Exhausted => false,
        },
    decreases tokens.len(),
{
    if tokens.len() > 0 && store.sessions.contains_key(tokens[0]) {
        let rest = tokens.skip(1);
        law_first_unused_token_is_taken(store, rest, (left - 1) as u64);
        assert forall|i: int| 0 <= i < rest.len() implies #[trigger] rest[i] == tokens[i + 1] by {}
        match store.drawn_in_turn(rest, (left - 1) as u64) {
            DrawnView::Accepted(token) => {
                let i = choose|i: int|
                    {
                        &&& 0 <= i < rest.len()
                        &&& #[trigger] rest[i] == token
                        &&& !store.sessions.contains_key(token)
                        &&& forall|j: int|
                            0 <= j < i ==> store.sessions.contains_key(#[trigger] rest[j])
                    };
                assert(tokens[i + 1] == token);
                assert forall|j: int| 0 <= j < i + 1 implies store.sessions.contains_key(
                    #[trigger] tokens[j],
                ) by {
                    if j > 0 {
                        assert(rest[j - 1] == tokens[j]);
                    }
                }
            },
            _ => {
                assert forall|j: int| 0 <= j < tokens.len() implies store.sessions.contains_key(
                    #[trigger] tokens[j],
                ) by {
                    if j > 0 {
                        assert(rest[j - 1] == tokens[j]);
                    }
                }
            },
        }
    }
}

/// A session that was read from the database and has neither expired nor been marked comes into
/// memory as it was written; any other comes in under its ID without data. Where the read failed
/// or found nothing, a new session begins under the ID of the request.
pub proof fn law_loaded_session(
    store: StoreView,
    id: Seq<char>,
    loaded: Option<SessionView>,
    now: Timestamp,
)
    requires
        store.loaded_outcome(id, loaded, now) is Some,
    ensures
        ({
            let (after, step) = store.loaded_outcome(id, loaded, now)->0;
            match loaded {
                Some(session) => {
                    &&& step == StepView::Ready(session.id)
                    &&& session.live_at(now) ==> after.sessions[session.id] == session
                    &&& !session.live_at(now) ==> after.sessions[session.id].data == Map::<
                        Seq<char>,
                        Seq<char>,
                    >::empty()
                    &&& after.sessions[session.id].destroy == session.destroy
                },
                None => {
                    &&& step == StepView::Ready(id)
                    &&& Some(after.sessions[id]) == store.fresh(id, now)
                },
            }
        }),
{
}

/// When a response goes out, a session that is marked for destruction is deleted from the
/// database, and any other is written to it as it is in memory.
pub proof fn law_response_persists(store: StoreView, id: Seq<char>)
    requires
        store.sessions.contains_key(id),
    ensures
        store.with_session(id, store.sessions[id].destroyed()).persisted(id) == Some(
            PersistView::Destroy(store.destroy_statement(id)),
        ),
        !store.sessions[id].destroy ==> store.persisted(id) == Some(
            PersistView::Store(store.sessions[id]),
        ),
{
}

/// A session goes on from one request to the next: a text that one request stored is what the
/// next one reads, which comes with the same ID before the session has expired or left memory.
pub proof fn law_session_goes_on(
    store: StoreView,
    id: Seq<char>,
    key: Seq<char>,
    text: Seq<char>,
    now: Timestamp,
)
    requires
        store.sessions.contains_key(id),
        store.sessions[id].live_at(now),
        store.with_session(id, store.sessions[id].with_value(key, text)).request_outcome(
            id,
            now,
        ) is Some,
    ensures
        ({
            let written = store.with_session(id, store.sessions[id].with_value(key, text));
            let (after, step) = written.request_outcome(id, now)->0;
            &&& step == StepView::Ready(id)
            &&& after.sessions[id].data.contains_key(key)
            &&& after.sessions[id].data[key] == text
        }),
{
}

/// Whether decoding gives back the session that was encoded, with every field.
pub open spec fn decodes_what_was_encoded<
    E,
    D,
    F: FnOnce(&SQLxSessionData) -> Result<String, E>,
    G: FnOnce(&str) -> Result<SQLxSessionData, D>,
>(session: SQLxSessionData, encode: F, decode: G) -> bool {
    forall|encoded: Result<String, E>, text: &str, decoded: Result<SQLxSessionData, D>|
        #[trigger] call_ensures(encode, (&session,), encoded) && encoded is Ok && text@
            == encoded->Ok_0@ && #[trigger] call_ensures(decode, (text,), decoded) ==> decoded is Ok
            && decoded->Ok_0@ == session@
}

/// What was written to the table is what a read of it gives: where decoding gives back the session
/// that was encoded, a read with its ID finds the session as it was, with every field, if it comes
/// before the session expires, by a microsecond as the table has them, and nothing has written or
/// deleted its row since.
pub proof fn law_load_gives_back_what_was_stored<
    E,
    D,
    F: FnOnce(&SQLxSessionData) -> Result<String, E>,
    G: FnOnce(&str) -> Result<SQLxSessionData, D>,
>(
    store: StoreView,
    table: Table,
    session: SQLxSessionData,
    encode: F,
    written: Result<Statement, E>,
    since: Seq<StatementView>,
    now: Timestamp,
    decode: G,
    loaded: Result<Option<SQLxSessionData>, D>,
)
    requires
        crate::table::in_micros(now) < crate::table::in_micros(session.expires),
        store.store_gives(session, encode, written),
        written is Ok,
        decodes_what_was_encoded(session, encode, decode),
        forall|i: int|
            0 <= i < since.len() ==> store.spares(
                #[trigger] since[i],
                session.id@,
                store.run(table, written->Ok_0@)[session.id@],
            ),
        crate::store::row_gives(
            store.row_read(
                store.run_all(store.run(table, written->Ok_0@), since),
                store.load_statement(session.id@, now),
            ),
            decode,
            loaded,
        ),
    ensures
        loaded matches Ok(Some(found)) && found@ == session@,
{
    store.lemma_statements_differ();
    store.lemma_row_stays(store.run(table, written->Ok_0@), since, session.id@);
}

/// A session goes on through the database: what a response wrote is what a request has in memory
/// again after it read it back before the session expired, by a microsecond as the table has them,
/// if its row is as it was.
pub proof fn law_session_comes_back<
    E,
    D,
    F: FnOnce(&SQLxSessionData) -> Result<String, E>,
    G: FnOnce(&str) -> Result<SQLxSessionData, D>,
>(
    store: StoreView,
    later: StoreView,
    id: Seq<char>,
    table: Table,
    session: SQLxSessionData,
    encode: F,
    written: Result<Statement, E>,
    since: Seq<StatementView>,
    now: Timestamp,
    decode: G,
    loaded: Result<Option<SQLxSessionData>, D>,
)
    requires
        kept_by_id(store),
        later.config == store.config,
        store.persisted(id) == Some(PersistView::Store(session@)),
        session@.valid_at(now),
        crate::table::in_micros(now) < crate::table::in_micros(session.expires),
        store.store_gives(session, encode, written),
        written is Ok,
        decodes_what_was_encoded(session, encode, decode),
        forall|i: int|
            0 <= i < since.len() ==> store.spares(
                #[trigger] since[i],
                id,
                store.run(table, written->Ok_0@)[id],
            ),
        crate::store::row_gives(
            later.row_read(
                later.run_all(store.run(table, written->Ok_0@), since),
                later.load_statement(id, now),
            ),
            decode,
            loaded,
        ),
    ensures
        loaded matches Ok(Some(found)) && (later.loaded_outcome(id, Some(found@), now) matches Some(
            (after, step),
        ) ==> step == StepView::Ready(id) && after.sessions[id] == store.sessions[id]),
{
    let stored = store.run(table, written->Ok_0@);
    lemma_same_table(store, later, stored, since);
    law_load_gives_back_what_was_stored(
        store,
        table,
        session,
        encode,
        written,
        since,
        now,
        decode,
        loaded,
    );
}

/// Stores with the same settings do the same to the table.
proof fn lemma_same_table(
    store: StoreView,
    later: StoreView,
    table: Table,
    statements: Seq<StatementView>,
)
    requires
        later.config == store.config,
    ensures
        later.run_all(table, statements) == store.run_all(table, statements),
    decreases statements.len(),
{
    if statements.len() > 0 {
        lemma_same_table(store, later, table, statements.drop_last());
    }
}

/// Of a session that was destroyed nothing is found: the response deletes its row, a read with its
/// ID finds none at any time after, unless its row has been written since, and a request that
/// finds none begins without data.
pub proof fn law_destroyed_session_is_not_found<
    D,
    G: FnOnce(&str) -> Result<SQLxSessionData, D>,
>(
    store: StoreView,
    later: StoreView,
    id: Seq<char>,
    table: Table,
    since: Seq<StatementView>,
    now: Timestamp,
    decode: G,
    loaded: Result<Option<SQLxSessionData>, D>,
)
    requires
        store.sessions.contains_key(id),
        later.config == store.config,
        forall|i: int| 0 <= i < since.len() ==> !store.writes(#[trigger] since[i], id),
        ({
            let destroyed = store.with_session(id, store.sessions[id].destroyed());
            crate::store::row_gives(
                later.row_read(
                    later.run_all(store.run(table, destroyed.persisted(id)->0->Destroy_0), since),
                    later.load_statement(id, now),
                ),
                decode,
                loaded,
            )
        }),
    ensures
        store.with_session(id, store.sessions[id].destroyed()).persisted(id) == Some(
            PersistView::Destroy(store.destroy_statement(id)),
        ),
        loaded == Ok::<Option<SQLxSessionData>, D>(None),
        later.loaded_outcome(id, None, now) matches Some((after, step)) ==> step
            == StepView::Ready(id) && after.sessions[id].data == Map::<
            Seq<char>,
            Seq<char>,
        >::empty(),
{
    let emptied = store.run(table, store.destroy_statement(id));
    store.lemma_statements_differ();
    store.lemma_row_stays_away(emptied, since, id);
    lemma_same_table(store, later, emptied, since);
}

/// A sweep of the table keeps exactly the sessions that have not expired, or have done so within
/// the same microsecond, as they are.
pub proof fn law_database_keeps_what_is_valid(
    store: StoreView,
    table: Table,
    session: SessionView,
    now: Timestamp,
)
    requires
        now.regular(),
        session.expires.regular(),
        table.contains_key(session.id),
        table[session.id].expires == Some(crate::table::in_micros(session.expires)),
    ensures
        ({
            let swept = store.run(table, store.cleanup_statement(now));
            &&& swept.contains_key(session.id) <==> session.valid_at(now)
                || crate::table::in_micros(now) == crate::table::in_micros(session.expires)
            &&& swept.contains_key(session.id) ==> swept[session.id] == table[session.id]
        }),
{
    store.lemma_statements_differ();
}

/// What a sweep of the table takes is what no read at that instant or later would find.
pub proof fn law_sweep_takes_nothing_readable(
    store: StoreView,
    table: Table,
    id: Seq<char>,
    now: Timestamp,
    later: Timestamp,
)
    requires
        crate::table::in_micros(now) <= crate::table::in_micros(later),
    ensures
        store.row_read(
            store.run(table, store.cleanup_statement(now)),
            store.load_statement(id, later),
        ) == store.row_read(table, store.load_statement(id, later)),
{
    store.lemma_statements_differ();
}

/// A row without an expiry is read, and left by a sweep, at any time.
pub proof fn law_row_without_expiry_stays(
    store: StoreView,
    table: Table,
    id: Seq<char>,
    now: Timestamp,
)
    requires
        table.contains_key(id),
        table[id].expires is None,
    ensures
        store.row_read(table, store.load_statement(id, now)) == Some(table[id].session),
        store.run(table, store.cleanup_statement(now)).contains_key(id),
        store.run(table, store.cleanup_statement(now))[id] == table[id],
{
    store.lemma_statements_differ();
}

/// The number of sessions: none in a table that was cleared, one more once a session with a new ID
/// is written and as many as before with one that is there, and one fewer once one is deleted.
pub proof fn law_count_follows_the_rows(
    store: StoreView,
    table: Table,
    session: SessionView,
    encoded: Seq<char>,
)
    requires
        table.dom().finite(),
    ensures
        ({
            let count = store.count_statement();
            let rows = table.dom().len();
            let written = store.run(table, store.store_statement(session, encoded));
            let destroyed = store.run(table, store.destroy_statement(session.id));
            let there = table.contains_key(session.id);
            &&& store.rows_counted(table, count) == Some(rows)
            &&& store.rows_counted(store.run(table, store.clear_statement()), count) == Some(0nat)
            &&& store.rows_counted(written, count) == Some(
                if there {
                    rows
                } else {
                    rows + 1
                },
            )
            &&& store.rows_counted(destroyed, count) == Some(
                if there {
                    (rows - 1) as nat
                } else {
                    rows
                },
            )
        }),
{
    store.lemma_statements_differ();
    let written = store.run(table, store.store_statement(session, encoded));
    let destroyed = store.run(table, store.destroy_statement(session.id));
    assert(written.dom() =~= table.dom().insert(session.id));
    assert(destroyed.dom() =~= table.dom().remove(session.id));
    assert(store.run(table, store.clear_statement()).dom() =~= Set::empty());
}

/// Nothing is found in a table that was cleared, until a row is written.
pub proof fn law_cleared_table_is_empty(
    store: StoreView,
    table: Table,
    since: Seq<StatementView>,
    id: Seq<char>,
    now: Timestamp,
)
    requires
        forall|i: int| 0 <= i < since.len() ==> !store.writes(#[trigger] since[i], id),
    ensures
        store.row_read(
            store.run_all(store.run(table, store.clear_statement()), since),
            store.load_statement(id, now),
        ) is None,
{
    store.lemma_statements_differ();
    store.lemma_row_stays_away(store.run(table, store.clear_statement()), since, id);
}

/// To create the table, to count the sessions and to read one changes none of them.
pub proof fn law_reads_change_no_row(store: StoreView, table: Table, id: Seq<char>, now: Timestamp)
    ensures
        store.run(table, store.migrate_statement()) == table,
        store.run(table, store.count_statement()) == table,
        store.run(table, store.load_statement(id, now)) == table,
{
    store.lemma_statements_differ();
}

/// A query without a `%` is left as it is.
pub proof fn law_query_without_marker(query: Seq<char>, table_name: Seq<char>)
    requires
        !query.contains('%'),
    ensures
        crate::text::substituted(query, table_name) == query,
{
    reveal_strlit("%%TABLE_NAME%%");
    crate::text::lemma_replaced_after(query, Seq::empty(), "%%TABLE_NAME%%"@, table_name);
    assert(query + Seq::<char>::empty() =~= query);
}

}
