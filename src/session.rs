//! The session lifecycle: reuse and refresh a stored credential, or log in
//! afresh, and keep the store in step.
//!
//! The lifecycle is a state machine. [`UbiApi::ensure_session`] starts it and
//! names the first thing to do; the caller does it and hands the outcome to
//! [`UbiApi::advance`], which names the next thing, until the action is
//! `Done` or `Fail`.

use vstd::prelude::*;

use crate::clock::{now, parse_rfc3339, rfc3339_instant, Instant};
use crate::config::UbiConfig;
use crate::errors::{classify_store_error, store_error_class, AppError, StoreError, UpstreamCall};
use crate::models::{NewUbiUser, UbiUser, UpdateUbiUser};
use crate::upstream::{
    accept_reply, accepted, headers_for, request_headers, str_view, Method, Reply, Request,
    RequestView, Session, LOGIN_BODY, SESSIONS_URL,
};

verus! {

/// Where the lifecycle stands.
#[derive(Clone, Copy, Debug)]
pub enum Phase {
    /// No session was asked for yet.
    Uninitialized,
    /// Waiting for the stored credential to be looked up.
    Bootstrapping,
    /// The stored credential `id` is still valid; waiting for the refresh reply.
    Refreshing { id: uuid::Uuid },
    /// The stored credential had expired; waiting for its deletion.
    Expired,
    /// Waiting for the login reply.
    LoggingIn,
    /// Waiting for the refreshed credential to be written.
    SavingRefresh,
    /// Waiting for the new credential to be inserted.
    SavingLogin,
    /// The in-memory credential is current and stored.
    Valid,
    /// The last attempt failed with this error.
    Failed(AppError),
}

/// The outcome of the last action, handed back by the caller.
#[derive(Debug)]
pub enum SessionEvent {
    /// The stored credential of the account, if there is one.
    Looked(Result<Option<UbiUser>, StoreError>),
    /// The stored credential was deleted.
    Deleted(Result<(), StoreError>),
    /// The upstream reply to a login or a refresh.
    Replied(Reply<Session>),
    /// The credential as written to the store.
    Saved(Result<UbiUser, StoreError>),
}

/// What the caller is to do next.
#[derive(Debug)]
pub enum SessionAction {
    /// Look up the stored credential of this account.
    FindStored { email: String },
    /// Delete the stored credential `id`.
    DeleteStored { id: uuid::Uuid },
    /// Send this login request.
    Login(Request),
    /// Send this refresh request.
    Ping(Request),
    /// Insert this credential.
    Insert(NewUbiUser),
    /// Write the refreshed token and expiry to the stored credential `id`.
    Update { id: uuid::Uuid, changes: UpdateUbiUser },
    /// The session is established; this is the stored credential.
    Done(UbiUser),
    /// The session could not be established.
    Fail(AppError),
}

/// An action, with texts as sequences of characters.
pub enum ActionView {
    FindStored { email: Seq<char> },
    DeleteStored { id: uuid::Uuid },
    Login(RequestView),
    Ping(RequestView),
    Insert { email: Seq<char>, password: Seq<char>, token: Seq<char>, expiration: Seq<char> },
    Update { id: uuid::Uuid, token: Seq<char>, expiration: Seq<char> },
    Done(UbiUser),
    Fail(AppError),
}

impl View for SessionAction {
    type V = ActionView;

    open spec fn view(&self) -> ActionView {
        match self {
            SessionAction::FindStored { email } => ActionView::FindStored { email: email@ },
            SessionAction::DeleteStored { id } => ActionView::DeleteStored { id: *id },
            SessionAction::Login(r) => ActionView::Login(r@),
            SessionAction::Ping(r) => ActionView::Ping(r@),
            SessionAction::Insert(n) => ActionView::Insert {
                email: n.email@,
                password: n.password@,
                token: n.token@,
                expiration: n.expiration@,
            },
            SessionAction::Update { id, changes } => ActionView::Update {
                id: *id,
                token: changes.token@,
                expiration: changes.expiration@,
            },
            SessionAction::Done(u) => ActionView::Done(*u),
            SessionAction::Fail(e) => ActionView::Fail(*e),
        }
    }
}

/// The client of the upstream service: the account it logs in with, its
/// settings, the credential it holds, and where its session lifecycle stands.
#[derive(Clone)]
pub struct UbiApi {
    pub email: String,
    pub password: String,
    pub ubi_config: UbiConfig,
    /// The expiry of the held credential, as the upstream service wrote it.
    pub expiration: String,
    /// The held credential, scheme prefix included; empty before the first
    /// session.
    pub authorization: String,
    pub phase: Phase,
}

/// The client as texts.
pub struct ApiView {
    pub email: Seq<char>,
    pub password: Seq<char>,
    pub appid: Seq<char>,
    pub prefix: Seq<char>,
    pub authorization: Seq<char>,
    pub expiration: Seq<char>,
    pub phase: Phase,
}

impl View for UbiApi {
    type V = ApiView;

    open spec fn view(&self) -> ApiView {
        ApiView {
            email: self.email@,
            password: self.password@,
            appid: self.ubi_config.appid@,
            prefix: self.ubi_config.authorization_prefix@,
            authorization: self.authorization@,
            expiration: self.expiration@,
            phase: self.phase,
        }
    }
}

/// The login request: basic authentication with the account, no bearer
/// credential, and a body that asks to be remembered.
pub open spec fn login_request(v: ApiView) -> Option<RequestView> {
    match headers_for(v.appid, None) {
        Some(h) => Some(
            RequestView {
                method: Method::Post,
                url: SESSIONS_URL@,
                headers: h,
                basic_auth: Some((v.email, v.password)),
                body: Some(LOGIN_BODY@),
            },
        ),
        None => None,
    }
}

/// The refresh request: the bearer credential alone, and no body.
pub open spec fn ping_request(appid: Seq<char>, token: Seq<char>) -> Option<RequestView> {
    match headers_for(appid, Some(token)) {
        Some(h) => Some(
            RequestView {
                method: Method::Post,
                url: SESSIONS_URL@,
                headers: h,
                basic_auth: None,
                body: None,
            },
        ),
        None => None,
    }
}

/// Stop with error `e`.
pub open spec fn fail_with(v: ApiView, e: AppError) -> (ApiView, ActionView) {
    (ApiView { phase: Phase::Failed(e), ..v }, ActionView::Fail(e))
}

/// Send the login request.
pub open spec fn start_login(v: ApiView) -> (ApiView, ActionView) {
    match login_request(v) {
        Some(r) => (ApiView { phase: Phase::LoggingIn, ..v }, ActionView::Login(r)),
        None => fail_with(v, AppError::Internal),
    }
}

/// The start of a session: look up the stored credential of the account.
pub open spec fn session_start(v: ApiView) -> (ApiView, ActionView) {
    (ApiView { phase: Phase::Bootstrapping, ..v }, ActionView::FindStored { email: v.email })
}

/// What a stored credential leads to at time `now`: while its expiry is
/// ahead, it is held and refreshed; once it is reached, the record is deleted.
/// A stored expiry that is no RFC 3339 text is an internal error.
pub open spec fn on_stored(v: ApiView, rec: UbiUser, now: Instant) -> (ApiView, ActionView) {
    match rfc3339_instant(rec.expiration@) {
        None => fail_with(v, AppError::Internal),
        Some(expiry) => if now.spec_before(expiry) {
            let held = ApiView { authorization: rec.token@, expiration: rec.expiration@, ..v };
            match ping_request(v.appid, rec.token@) {
                Some(r) => (ApiView { phase: Phase::Refreshing { id: rec.id }, ..held }, ActionView::Ping(r)),
                None => fail_with(held, AppError::Internal),
            }
        } else {
            (ApiView { phase: Phase::Expired, ..v }, ActionView::DeleteStored { id: rec.id })
        },
    }
}

/// One step of the lifecycle: the client after `event` at time `now`, and the
/// next action. An event that the phase does not wait for is an internal
/// error.
pub open spec fn session_step(v: ApiView, event: SessionEvent, now: Instant) -> (ApiView, ActionView) {
    match event {
        SessionEvent::Looked(found) => match v.phase {
            Phase::Bootstrapping => match found {
                Err(_) => fail_with(v, AppError::Internal),
                Ok(None) => start_login(v),
                Ok(Some(rec)) => on_stored(v, rec, now),
            },
            _ => fail_with(v, AppError::Internal),
        },
        SessionEvent::Deleted(done) => match v.phase {
            Phase::Expired => match done {
                Ok(_) => start_login(v),
                Err(_) => fail_with(v, AppError::Internal),
            },
            _ => fail_with(v, AppError::Internal),
        },
        SessionEvent::Replied(reply) => match v.phase {
            Phase::LoggingIn => match accepted(reply) {
                Some(s) => {
                    let token = v.prefix + s.ticket@;
                    (
                        ApiView {
                            authorization: token,
                            expiration: s.expiration@,
                            phase: Phase::SavingLogin,
                            ..v
                        },
                        ActionView::Insert {
                            email: v.email,
                            password: v.password,
                            token,
                            expiration: s.expiration@,
                        },
                    )
                },
                None => fail_with(v, AppError::UpstreamTransport(UpstreamCall::Login)),
            },
            Phase::Refreshing { id } => match accepted(reply) {
                Some(s) => {
                    let token = v.prefix + s.ticket@;
                    (
                        ApiView {
                            authorization: token,
                            expiration: s.expiration@,
                            phase: Phase::SavingRefresh,
                            ..v
                        },
                        ActionView::Update { id, token, expiration: s.expiration@ },
                    )
                },
                None => fail_with(v, AppError::UpstreamTransport(UpstreamCall::Ping)),
            },
            _ => fail_with(v, AppError::Internal),
        },
        SessionEvent::Saved(saved) => match v.phase {
            Phase::SavingLogin => match saved {
                Ok(rec) => (ApiView { phase: Phase::Valid, ..v }, ActionView::Done(rec)),
                Err(e) => fail_with(v, store_error_class(e)),
            },
            Phase::SavingRefresh => match saved {
                Ok(rec) => (ApiView { phase: Phase::Valid, ..v }, ActionView::Done(rec)),
                Err(_) => fail_with(v, AppError::Internal),
            },
            _ => fail_with(v, AppError::Internal),
        },
    }
}

impl UbiApi {
    /// A client for the account, holding no credential yet.
    pub fn new(email: &str, password: &str, ubi_config: UbiConfig) -> (r: UbiApi)
        ensures
            r.email@ == email@,
            r.password@ == password@,
            r.ubi_config == ubi_config,
            r.authorization@.len() == 0,
            r.expiration@.len() == 0,
            r.phase is Uninitialized,
    {
        UbiApi {
            email: String::from_str(email),
            password: String::from_str(password),
            ubi_config,
            expiration: String::new(),
            authorization: String::new(),
            phase: Phase::Uninitialized,
        }
    }

    /// Holds `token`, with the scheme prefix put before it, as the credential,
    /// and `expiration` as its expiry.
    pub fn prefix_authorization(&mut self, token: &str, expiration: String)
        ensures
            final(self)@ == (ApiView {
                authorization: old(self)@.prefix + token@,
                expiration: expiration@,
                ..old(self)@
            }),
            final(self).ubi_config == old(self).ubi_config,
    {
        let mut authorization = self.ubi_config.authorization_prefix.clone();
        authorization.append(token);
        self.authorization = authorization;
        self.expiration = expiration;
    }

    /// Holds the token and expiry of a stored credential; the stored token
    /// carries its prefix already.
    pub fn update_login(&mut self, rec: &UbiUser)
        ensures
            final(self)@ == (ApiView {
                authorization: rec.token@,
                expiration: rec.expiration@,
                ..old(self)@
            }),
            final(self).ubi_config == old(self).ubi_config,
    {
        self.authorization = rec.token.clone();
        self.expiration = rec.expiration.clone();
    }

    /// The headers of a request: with the held credential as bearer, unless
    /// the request is the login.
    pub fn construct_headers(&self, login: bool) -> (r: Option<Vec<(String, String)>>)
        ensures
            match r {
                Some(h) => headers_for(self@.appid, if login { None } else { Some(self@.authorization) })
                    == Some(crate::upstream::pairs_view(h@)),
                None => headers_for(self@.appid, if login { None } else { Some(self@.authorization) }) is None,
            },
    {
        if login {
            request_headers(self.ubi_config.appid.as_str(), None)
        } else {
            request_headers(self.ubi_config.appid.as_str(), Some(self.authorization.as_str()))
        }
    }

    fn fail(&mut self, e: AppError) -> (a: SessionAction)
        ensures
            (final(self)@, a@) == fail_with(old(self)@, e),
            final(self).ubi_config == old(self).ubi_config,
    {
        self.phase = Phase::Failed(e);
        SessionAction::Fail(e)
    }

    fn start_login(&mut self) -> (a: SessionAction)
        ensures
            (final(self)@, a@) == start_login(old(self)@),
            final(self).ubi_config == old(self).ubi_config,
    {
        match self.construct_headers(true) {
            Some(headers) => {
                self.phase = Phase::LoggingIn;
                SessionAction::Login(
                    Request {
                        method: Method::Post,
                        url: String::from_str(SESSIONS_URL),
                        headers,
                        basic_auth: Some((self.email.clone(), self.password.clone())),
                        body: Some(String::from_str(LOGIN_BODY)),
                    },
                )
            },
            None => self.fail(AppError::Internal),
        }
    }

    fn on_stored(&mut self, rec: UbiUser, now: Instant) -> (a: SessionAction)
        ensures
            (final(self)@, a@) == on_stored(old(self)@, rec, now),
            final(self).ubi_config == old(self).ubi_config,
    {
        match parse_rfc3339(rec.expiration.as_str()) {
            None => self.fail(AppError::Internal),
            Some(expiry) => {
                if now.before(expiry) {
                    self.update_login(&rec);
                    match self.construct_headers(false) {
                        Some(headers) => {
                            self.phase = Phase::Refreshing { id: rec.id };
                            SessionAction::Ping(
                                Request {
                                    method: Method::Post,
                                    url: String::from_str(SESSIONS_URL),
                                    headers,
                                    basic_auth: None,
                                    body: None,
                                },
                            )
                        },
                        None => self.fail(AppError::Internal),
                    }
                } else {
                    self.phase = Phase::Expired;
                    SessionAction::DeleteStored { id: rec.id }
                }
            },
        }
    }

    /// Starts establishing a session: the stored credential of the account is
    /// looked up first.
    pub fn ensure_session(&mut self) -> (a: SessionAction)
        ensures
            (final(self)@, a@) == session_start(old(self)@),
            final(self).ubi_config == old(self).ubi_config,
    {
        self.phase = Phase::Bootstrapping;
        SessionAction::FindStored { email: self.email.clone() }
    }

    /// Takes the outcome of the last action, at time `now`, and names the
    /// next action.
    pub fn advance_at(&mut self, event: SessionEvent, now: Instant) -> (a: SessionAction)
        ensures
            (final(self)@, a@) == session_step(old(self)@, event, now),
            final(self).ubi_config == old(self).ubi_config,
    {
        match event {
            SessionEvent::Looked(found) => match self.phase {
                Phase::Bootstrapping => match found {
                    Err(_) => self.fail(AppError::Internal),
                    Ok(None) => self.start_login(),
                    Ok(Some(rec)) => self.on_stored(rec, now),
                },
                _ => self.fail(AppError::Internal),
            },
            SessionEvent::Deleted(done) => match self.phase {
                Phase::Expired => match done {
                    Ok(_) => self.start_login(),
                    Err(_) => self.fail(AppError::Internal),
                },
                _ => self.fail(AppError::Internal),
            },
            SessionEvent::Replied(reply) => match self.phase {
                Phase::LoggingIn => match accept_reply(reply) {
                    Some(s) => {
                        self.prefix_authorization(s.ticket.as_str(), s.expiration);
                        self.phase = Phase::SavingLogin;
                        SessionAction::Insert(
                            NewUbiUser {
                                email: self.email.clone(),
                                password: self.password.clone(),
                                token: self.authorization.clone(),
                                expiration: self.expiration.clone(),
                            },
                        )
                    },
                    None => self.fail(AppError::UpstreamTransport(UpstreamCall::Login)),
                },
                Phase::Refreshing { id } => match accept_reply(reply) {
                    Some(s) => {
                        self.prefix_authorization(s.ticket.as_str(), s.expiration);
                        self.phase = Phase::SavingRefresh;
                        SessionAction::Update {
                            id,
                            changes: UpdateUbiUser {
                                token: self.authorization.clone(),
                                expiration: self.expiration.clone(),
                            },
                        }
                    },
                    None => self.fail(AppError::UpstreamTransport(UpstreamCall::Ping)),
                },
                _ => self.fail(AppError::Internal),
            },
            SessionEvent::Saved(saved) => match self.phase {
                Phase::SavingLogin => match saved {
                    Ok(rec) => {
                        self.phase = Phase::Valid;
                        SessionAction::Done(rec)
                    },
                    Err(e) => {
                        let class = classify_store_error(&e);
                        self.fail(class)
                    },
                },
                Phase::SavingRefresh => match saved {
                    Ok(rec) => {
                        self.phase = Phase::Valid;
                        SessionAction::Done(rec)
                    },
                    Err(_) => self.fail(AppError::Internal),
                },
                _ => self.fail(AppError::Internal),
            },
        }
    }

    /// Takes the outcome of the last action and names the next one, reading
    /// the clock for the expiry check.
    pub fn advance(&mut self, event: SessionEvent) -> (a: SessionAction)
        ensures
            exists|t: Instant| (final(self)@, a@) == session_step(old(self)@, event, t),
            final(self).ubi_config == old(self).ubi_config,
    {
        let t = now();
        self.advance_at(event, t)
    }
}

} // verus!
