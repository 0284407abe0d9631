//! What the session lifecycle guarantees over whole runs of events.

use vstd::prelude::*;

use crate::clock::{rfc3339_instant, Instant};
use crate::models::UbiUser;
use crate::session::{
    ping_request, session_start, session_step, ActionView, ApiView, Phase, SessionEvent,
};
use crate::upstream::{accepted, Reply, Session};

verus! {

/// The actions that `events`, each at its time, lead to from `v`.
pub open spec fn run_actions(v: ApiView, events: Seq<(SessionEvent, Instant)>) -> Seq<ActionView>
    decreases events.len(),
{
    if events.len() == 0 {
        Seq::empty()
    } else {
        let next = session_step(v, events[0].0, events[0].1);
        seq![next.1] + run_actions(next.0, events.drop_first())
    }
}

/// The phases of an attempt that went on to refresh a stored credential.
pub open spec fn on_refresh_path(p: Phase) -> bool {
    p is Refreshing || p is SavingRefresh || p is Valid || p is Failed
}

/// The phases of an attempt that found its stored credential expired.
pub open spec fn on_expired_path(p: Phase) -> bool {
    p is Expired || p is LoggingIn || p is SavingLogin || p is Valid || p is Failed
}

/// The event confirms that the stored credential was deleted.
pub open spec fn confirms_deletion(e: SessionEvent) -> bool {
    e matches SessionEvent::Deleted(Ok(_))
}

/// The action is the refresh request for `token`, and the phase waits for its
/// reply, when that token can be sent in a header.
pub open spec fn refreshes_with(appid: Seq<char>, token: Seq<char>, id: uuid::Uuid, after: (ApiView, ActionView)) -> bool {
    match ping_request(appid, token) {
        Some(r) => after.1 == ActionView::Ping(r) && after.0.phase == (Phase::Refreshing { id }),
        None => after.1 is Fail,
    }
}

/// The action answers an accepted login or refresh reply with the scheme
/// prefix put before the returned ticket.
pub open spec fn insert_is_prefixed(prefix: Seq<char>, event: SessionEvent, a: ActionView) -> bool {
    a matches ActionView::Insert { token, expiration, .. } ==> {
        &&& event matches SessionEvent::Replied(reply)
        &&& accepted(reply) matches Some(s)
        &&& token == prefix + s.ticket@
        &&& expiration == s.expiration@
    }
}

proof fn step_keeps_settings(v: ApiView, e: SessionEvent, t: Instant)
    ensures
        session_step(v, e, t).0.prefix == v.prefix,
        session_step(v, e, t).0.appid == v.appid,
        session_step(v, e, t).0.email == v.email,
{
}

proof fn lemma_run_len(v: ApiView, events: Seq<(SessionEvent, Instant)>)
    ensures
        run_actions(v, events).len() == events.len(),
    decreases events.len(),
{
    if events.len() > 0 {
        let next = session_step(v, events[0].0, events[0].1);
        lemma_run_len(next.0, events.drop_first());
    }
}

proof fn lemma_refresh_path_never_logs_in(v: ApiView, events: Seq<(SessionEvent, Instant)>)
    requires
        on_refresh_path(v.phase),
    ensures
        forall|i: int|
            0 <= i < run_actions(v, events).len() ==> !(run_actions(v, events)[i] is Login)
                && !(run_actions(v, events)[i] is DeleteStored),
    decreases events.len(),
{
    if events.len() > 0 {
        let next = session_step(v, events[0].0, events[0].1);
        lemma_refresh_path_never_logs_in(next.0, events.drop_first());
        let rest = run_actions(next.0, events.drop_first());
        assert(run_actions(v, events) == seq![next.1] + rest);
    }
}

proof fn lemma_expired_path_logs_in_after_delete(v: ApiView, events: Seq<(SessionEvent, Instant)>)
    requires
        on_expired_path(v.phase),
    ensures
        run_actions(v, events).len() == events.len(),
        forall|i: int|
            0 <= i < events.len() && run_actions(v, events)[i] is Login ==> confirms_deletion(events[i].0),
        forall|i: int|
            0 <= i < events.len() ==> insert_is_prefixed(v.prefix, events[i].0, #[trigger] run_actions(v, events)[i]),
    decreases events.len(),
{
    lemma_run_len(v, events);
    if events.len() > 0 {
        let next = session_step(v, events[0].0, events[0].1);
        step_keeps_settings(v, events[0].0, events[0].1);
        lemma_expired_path_logs_in_after_delete(next.0, events.drop_first());
        let rest = run_actions(next.0, events.drop_first());
        assert(run_actions(v, events) == seq![next.1] + rest);
        assert forall|i: int| 0 < i < events.len() implies events[i] == events.drop_first()[i - 1] by {}
    }
}

/// A stored credential whose expiry is still ahead of the clock is refreshed
/// and never replaced by a fresh login: looking it up leads to the refresh
/// request (or to a failure when the token cannot be sent in a header), and
/// no later event of the same attempt leads to a login or to deleting the
/// stored record.
pub proof fn valid_credential_is_refreshed_not_replaced(
    v: ApiView,
    rec: UbiUser,
    now: Instant,
    later: Seq<(SessionEvent, Instant)>,
)
    requires
        rfc3339_instant(rec.expiration@) matches Some(expiry) && now.spec_before(expiry),
    ensures
        ({
            let started = session_start(v);
            let looked = session_step(started.0, SessionEvent::Looked(Ok(Some(rec))), now);
            &&& looked.0.phase is Refreshing || looked.0.phase is Failed
            &&& refreshes_with(v.appid, rec.token@, rec.id, looked)
            &&& !(looked.1 is Login)
            &&& forall|i: int|
                0 <= i < run_actions(looked.0, later).len() ==> !(run_actions(looked.0, later)[i] is Login)
                    && !(run_actions(looked.0, later)[i] is DeleteStored)
        }),
{
    let started = session_start(v);
    let looked = session_step(started.0, SessionEvent::Looked(Ok(Some(rec))), now);
    lemma_refresh_path_never_logs_in(looked.0, later);
}

/// A stored credential whose expiry the clock has reached is deleted before
/// any login: looking it up leads to its deletion, a login follows only a
/// confirmed deletion, and the credential that a successful login inserts
/// holds the scheme prefix followed by the returned ticket, and the returned
/// expiry.
pub proof fn expired_credential_is_deleted_before_login(
    v: ApiView,
    rec: UbiUser,
    now: Instant,
    later: Seq<(SessionEvent, Instant)>,
)
    requires
        rfc3339_instant(rec.expiration@) matches Some(expiry) && !now.spec_before(expiry),
    ensures
        ({
            let started = session_start(v);
            let looked = session_step(started.0, SessionEvent::Looked(Ok(Some(rec))), now);
            let after = run_actions(looked.0, later);
            &&& looked.1 == ActionView::DeleteStored { id: rec.id }
            &&& after.len() == later.len()
            &&& forall|i: int|
                0 <= i < later.len() && after[i] is Login ==> confirms_deletion(later[i].0)
            &&& forall|i: int| 0 <= i < later.len() ==> insert_is_prefixed(v.prefix, later[i].0, #[trigger] after[i])
        }),
{
    let started = session_start(v);
    let looked = session_step(started.0, SessionEvent::Looked(Ok(Some(rec))), now);
    lemma_expired_path_logs_in_after_delete(looked.0, later);
}

/// Right after a successful login, asking for a session again with the clock
/// unchanged refreshes the credential that the login stored; it does not log
/// in again. This holds when the returned expiry lies ahead of the clock and
/// the store hands back the credential as it was inserted.
pub proof fn login_then_ensure_again_refreshes(
    v: ApiView,
    status: u16,
    session: Session,
    rec: UbiUser,
    now: Instant,
)
    requires
        v.phase is LoggingIn,
        200 <= status < 300,
        rfc3339_instant(session.expiration@) matches Some(expiry) && now.spec_before(expiry),
        rec.token@ == v.prefix + session.ticket@,
        rec.expiration@ == session.expiration@,
    ensures
        ({
            let replied = session_step(
                v,
                SessionEvent::Replied(Reply::Received { status, body: Some(session) }),
                now,
            );
            let saved = session_step(replied.0, SessionEvent::Saved(Ok(rec)), now);
            let again = session_start(saved.0);
            let looked = session_step(again.0, SessionEvent::Looked(Ok(Some(rec))), now);
            &&& replied.1 == (ActionView::Insert {
                email: v.email,
                password: v.password,
                token: rec.token@,
                expiration: rec.expiration@,
            })
            &&& saved.1 == ActionView::Done(rec)
            &&& saved.0.phase is Valid
            &&& again.1 == ActionView::FindStored { email: v.email }
            &&& !(looked.1 is Login)
            &&& refreshes_with(v.appid, rec.token@, rec.id, looked)
        }),
{
}

} // verus!
