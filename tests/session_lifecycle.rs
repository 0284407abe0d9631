use r6stats::clock::Instant;
use r6stats::config::UbiConfig;
use r6stats::errors::{AppError, ConflictField, StoreError, UpstreamCall};
use r6stats::models::UbiUser;
use r6stats::session::{Phase, SessionAction, SessionEvent, UbiApi};
use r6stats::upstream::{Method, Reply, Session, LOGIN_BODY, SESSIONS_URL};

fn config() -> UbiConfig {
    UbiConfig {
        appid: "app-123".to_string(),
        authorization_prefix: "ubi_v1 t=".to_string(),
        spaces_id_pc: String::new(),
        spaces_id_xbox: String::new(),
        spaces_id_ps4: String::new(),
        sandbox_pc: String::new(),
        sandbox_xbox: String::new(),
        sandbox_ps4: String::new(),
    }
}

fn api() -> UbiApi {
    UbiApi::new("a@example.com", "pw", config())
}

fn stamp() -> chrono::NaiveDateTime {
    chrono::DateTime::from_timestamp(0, 0).unwrap().naive_utc()
}

fn record(id: u128, token: &str, expiration: &str) -> UbiUser {
    UbiUser {
        id: uuid::Uuid::from_u128(id),
        email: "a@example.com".to_string(),
        password: "pw".to_string(),
        token: token.to_string(),
        expiration: expiration.to_string(),
        created_at: stamp(),
        updated_at: stamp(),
    }
}

fn session(ticket: &str, expiration: &str) -> Session {
    Session {
        platform_type: "uplay".to_string(),
        ticket: ticket.to_string(),
        profile_id: "p".to_string(),
        user_id: "u".to_string(),
        name_on_platform: "n".to_string(),
        expiration: expiration.to_string(),
    }
}

// 2023-11-14T22:13:20Z
const NOW: Instant = Instant { secs: 1_700_000_000, nanos: 0 };

fn header<'a>(headers: &'a [(String, String)], name: &str) -> Option<&'a str> {
    headers.iter().find(|(n, _)| n == name).map(|(_, v)| v.as_str())
}

#[test]
fn fresh_login_stores_prefixed_token() {
    let mut api = api();
    match api.ensure_session() {
        SessionAction::FindStored { email } => assert_eq!(email, "a@example.com"),
        other => panic!("unexpected {:?}", other),
    }
    let login = match api.advance_at(SessionEvent::Looked(Ok(None)), NOW) {
        SessionAction::Login(r) => r,
        other => panic!("unexpected {:?}", other),
    };
    assert_eq!(login.method, Method::Post);
    assert_eq!(login.url, SESSIONS_URL);
    assert_eq!(login.basic_auth, Some(("a@example.com".to_string(), "pw".to_string())));
    assert_eq!(login.body.as_deref(), Some(LOGIN_BODY));
    assert_eq!(header(&login.headers, "authorization"), None);
    assert_eq!(header(&login.headers, "ubi-appid"), Some("app-123"));

    let reply = Reply::Received { status: 200, body: Some(session("T1", "2099-01-01T00:00:00Z")) };
    let new = match api.advance_at(SessionEvent::Replied(reply), NOW) {
        SessionAction::Insert(n) => n,
        other => panic!("unexpected {:?}", other),
    };
    assert_eq!(new.token, "ubi_v1 t=T1");
    assert_eq!(new.expiration, "2099-01-01T00:00:00Z");
    assert_eq!(new.email, "a@example.com");
    assert_eq!(new.password, "pw");
    assert_eq!(api.authorization, "ubi_v1 t=T1");
    assert_eq!(api.expiration, "2099-01-01T00:00:00Z");

    let stored = record(7, "ubi_v1 t=T1", "2099-01-01T00:00:00Z");
    match api.advance_at(SessionEvent::Saved(Ok(stored)), NOW) {
        SessionAction::Done(u) => {
            assert_eq!(u.token, "ubi_v1 t=T1");
            assert_eq!(u.expiration, "2099-01-01T00:00:00Z");
        }
        other => panic!("unexpected {:?}", other),
    }
    assert!(matches!(api.phase, Phase::Valid));
}

#[test]
fn expired_credential_is_deleted_before_login() {
    let mut api = api();
    api.ensure_session();
    let stored = record(9, "ubi_v1 t=OLD", "2000-01-01T00:00:00Z");
    match api.advance_at(SessionEvent::Looked(Ok(Some(stored))), NOW) {
        SessionAction::DeleteStored { id } => assert_eq!(id, uuid::Uuid::from_u128(9)),
        other => panic!("unexpected {:?}", other),
    }
    assert!(matches!(api.phase, Phase::Expired));
    match api.advance_at(SessionEvent::Deleted(Ok(())), NOW) {
        SessionAction::Login(r) => assert_eq!(header(&r.headers, "authorization"), None),
        other => panic!("unexpected {:?}", other),
    }
    let reply = Reply::Received { status: 200, body: Some(session("T2", "2099-01-01T00:00:00Z")) };
    match api.advance_at(SessionEvent::Replied(reply), NOW) {
        SessionAction::Insert(n) => assert_eq!(n.token, "ubi_v1 t=T2"),
        other => panic!("unexpected {:?}", other),
    }
}

#[test]
fn expiry_equal_to_now_counts_as_expired() {
    let mut api = api();
    api.ensure_session();
    let stored = record(3, "ubi_v1 t=X", "2023-11-14T22:13:20Z");
    assert!(matches!(
        api.advance_at(SessionEvent::Looked(Ok(Some(stored))), NOW),
        SessionAction::DeleteStored { .. }
    ));
}

#[test]
fn failed_delete_stops_without_login() {
    let mut api = api();
    api.ensure_session();
    let stored = record(9, "ubi_v1 t=OLD", "2000-01-01T00:00:00Z");
    api.advance_at(SessionEvent::Looked(Ok(Some(stored))), NOW);
    let failure = StoreError::Other("connection reset".to_string());
    assert!(matches!(
        api.advance_at(SessionEvent::Deleted(Err(failure)), NOW),
        SessionAction::Fail(AppError::Internal)
    ));
}

#[test]
fn valid_credential_is_refreshed() {
    let mut api = api();
    api.ensure_session();
    let stored = record(5, "ubi_v1 t=S1", "2099-01-01T00:00:00Z");
    let ping = match api.advance_at(SessionEvent::Looked(Ok(Some(stored))), NOW) {
        SessionAction::Ping(r) => r,
        other => panic!("unexpected {:?}", other),
    };
    assert_eq!(ping.method, Method::Post);
    assert_eq!(ping.url, SESSIONS_URL);
    assert_eq!(ping.basic_auth, None);
    assert_eq!(ping.body, None);
    assert_eq!(header(&ping.headers, "authorization"), Some("ubi_v1 t=S1"));
    assert_eq!(api.authorization, "ubi_v1 t=S1");
    assert!(matches!(api.phase, Phase::Refreshing { .. }));

    let reply = Reply::Received { status: 200, body: Some(session("S2", "2099-06-01T00:00:00Z")) };
    match api.advance_at(SessionEvent::Replied(reply), NOW) {
        SessionAction::Update { id, changes } => {
            assert_eq!(id, uuid::Uuid::from_u128(5));
            assert_eq!(changes.token, "ubi_v1 t=S2");
            assert_eq!(changes.expiration, "2099-06-01T00:00:00Z");
        }
        other => panic!("unexpected {:?}", other),
    }
    let updated = record(5, "ubi_v1 t=S2", "2099-06-01T00:00:00Z");
    assert!(matches!(api.advance_at(SessionEvent::Saved(Ok(updated)), NOW), SessionAction::Done(_)));
    assert!(matches!(api.phase, Phase::Valid));
}

#[test]
fn rejected_refresh_is_an_upstream_error_not_a_login() {
    let mut api = api();
    api.ensure_session();
    let stored = record(5, "ubi_v1 t=S1", "2099-01-01T00:00:00Z");
    api.advance_at(SessionEvent::Looked(Ok(Some(stored))), NOW);
    let reply: Reply<Session> = Reply::Received { status: 401, body: None };
    assert!(matches!(
        api.advance_at(SessionEvent::Replied(reply), NOW),
        SessionAction::Fail(AppError::UpstreamTransport(UpstreamCall::Ping))
    ));
    assert!(matches!(api.phase, Phase::Failed(AppError::UpstreamTransport(UpstreamCall::Ping))));
}

#[test]
fn login_then_ensure_again_refreshes() {
    let mut api = api();
    api.ensure_session();
    api.advance_at(SessionEvent::Looked(Ok(None)), NOW);
    let reply = Reply::Received { status: 200, body: Some(session("T1", "2099-01-01T00:00:00Z")) };
    api.advance_at(SessionEvent::Replied(reply), NOW);
    let stored = record(1, "ubi_v1 t=T1", "2099-01-01T00:00:00Z");
    api.advance_at(SessionEvent::Saved(Ok(stored)), NOW);

    assert!(matches!(api.ensure_session(), SessionAction::FindStored { .. }));
    let again = record(1, "ubi_v1 t=T1", "2099-01-01T00:00:00Z");
    match api.advance_at(SessionEvent::Looked(Ok(Some(again))), NOW) {
        SessionAction::Ping(r) => assert_eq!(header(&r.headers, "authorization"), Some("ubi_v1 t=T1")),
        other => panic!("unexpected {:?}", other),
    }
}

#[test]
fn advance_reads_the_clock() {
    let mut api = api();
    api.ensure_session();
    let stored = record(5, "ubi_v1 t=S1", "2999-01-01T00:00:00Z");
    assert!(matches!(api.advance(SessionEvent::Looked(Ok(Some(stored)))), SessionAction::Ping(_)));
}

#[test]
fn login_transport_failure_is_an_upstream_error() {
    let mut api = api();
    api.ensure_session();
    api.advance_at(SessionEvent::Looked(Ok(None)), NOW);
    assert!(matches!(
        api.advance_at(SessionEvent::Replied(Reply::TransportFailed), NOW),
        SessionAction::Fail(AppError::UpstreamTransport(UpstreamCall::Login))
    ));
}

#[test]
fn login_payload_of_wrong_shape_is_an_upstream_error() {
    let mut api = api();
    api.ensure_session();
    api.advance_at(SessionEvent::Looked(Ok(None)), NOW);
    let reply: Reply<Session> = Reply::Received { status: 200, body: None };
    assert!(matches!(
        api.advance_at(SessionEvent::Replied(reply), NOW),
        SessionAction::Fail(AppError::UpstreamTransport(UpstreamCall::Login))
    ));
}

#[test]
fn duplicate_insert_is_classified() {
    let mut api = api();
    api.ensure_session();
    api.advance_at(SessionEvent::Looked(Ok(None)), NOW);
    let reply = Reply::Received { status: 201, body: Some(session("T1", "2099-01-01T00:00:00Z")) };
    api.advance_at(SessionEvent::Replied(reply), NOW);
    let conflict = StoreError::UniqueViolation { column: Some("email".to_string()) };
    assert!(matches!(
        api.advance_at(SessionEvent::Saved(Err(conflict)), NOW),
        SessionAction::Fail(AppError::PersistenceConflict(ConflictField::Email))
    ));
}

#[test]
fn failed_refresh_write_is_internal() {
    let mut api = api();
    api.ensure_session();
    let stored = record(5, "ubi_v1 t=S1", "2099-01-01T00:00:00Z");
    api.advance_at(SessionEvent::Looked(Ok(Some(stored))), NOW);
    let reply = Reply::Received { status: 200, body: Some(session("S2", "2099-06-01T00:00:00Z")) };
    api.advance_at(SessionEvent::Replied(reply), NOW);
    let conflict = StoreError::UniqueViolation { column: Some("email".to_string()) };
    assert!(matches!(
        api.advance_at(SessionEvent::Saved(Err(conflict)), NOW),
        SessionAction::Fail(AppError::Internal)
    ));
}

#[test]
fn unreadable_stored_expiry_is_internal() {
    let mut api = api();
    api.ensure_session();
    let stored = record(5, "ubi_v1 t=S1", "soon");
    assert!(matches!(
        api.advance_at(SessionEvent::Looked(Ok(Some(stored))), NOW),
        SessionAction::Fail(AppError::Internal)
    ));
}

#[test]
fn failed_lookup_is_internal() {
    let mut api = api();
    api.ensure_session();
    assert!(matches!(
        api.advance_at(SessionEvent::Looked(Err(StoreError::NotFound)), NOW),
        SessionAction::Fail(AppError::Internal)
    ));
}

#[test]
fn event_out_of_turn_is_internal() {
    let mut api = api();
    assert!(matches!(
        api.advance_at(SessionEvent::Deleted(Ok(())), NOW),
        SessionAction::Fail(AppError::Internal)
    ));
}

#[test]
fn token_that_cannot_be_a_header_is_internal() {
    let mut api = api();
    api.ensure_session();
    let stored = record(5, "ubi_v1 t=bad\nline", "2099-01-01T00:00:00Z");
    assert!(matches!(
        api.advance_at(SessionEvent::Looked(Ok(Some(stored))), NOW),
        SessionAction::Fail(AppError::Internal)
    ));
}

#[test]
fn prefix_authorization_puts_scheme_first() {
    let mut api = api();
    api.prefix_authorization("TICKET", "2099-01-01T00:00:00Z".to_string());
    assert_eq!(api.authorization, "ubi_v1 t=TICKET");
    assert_eq!(api.expiration, "2099-01-01T00:00:00Z");
}

#[test]
fn new_client_holds_no_credential() {
    let api = api();
    assert_eq!(api.authorization, "");
    assert_eq!(api.expiration, "");
    assert!(matches!(api.phase, Phase::Uninitialized));
}
