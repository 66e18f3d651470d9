//! The stateful client: it tracks the current session and maps transport
//! failures to the domain errors.
//!
//! Each remote operation is split in two: a `..._request` method that
//! decides whether a request may be issued at all and builds it, and a
//! `..._result` method that takes the outcome the caller obtained and
//! turns it into the operation's result, updating the session where the
//! operation establishes one.

use vstd::prelude::*;
use crate::api::{Api, EmailOrPhone, credentials_body, otp_body, email_body, refresh_body,
    user_attributes_body, bearer_of};
use crate::error::Error;
use crate::http::{ApiFailure, HttpMethod, HttpRequest, request_is};
use crate::session::Session;
use crate::user_attributes::UserAttributes;
use crate::user_update::UserUpdate;

verus! {

/// The error reported when a sign-up request fails: the service answers
/// 400 for an email that is already taken.
pub open spec fn sign_up_error(failure: ApiFailure) -> Error {
    if failure == ApiFailure::Status(400u16) {
        Error::AlreadySignedUp
    } else {
        Error::InternalError
    }
}

/// The error reported when a sign-in request fails: the service answers
/// 400 for credentials that do not match.
pub open spec fn sign_in_error(failure: ApiFailure) -> Error {
    if failure == ApiFailure::Status(400u16) {
        Error::WrongCredentials
    } else {
        Error::InternalError
    }
}

/// The error reported when a passcode request fails: the service answers
/// 422 for an unknown or malformed address.
pub open spec fn send_otp_error(failure: ApiFailure) -> Error {
    if failure == ApiFailure::Status(422u16) {
        Error::UserNotFound
    } else {
        Error::InternalError
    }
}

/// The error reported when passcode verification fails: the service
/// answers 400 for a wrong token.
pub open spec fn verify_otp_error(failure: ApiFailure) -> Error {
    if failure == ApiFailure::Status(400u16) {
        Error::WrongToken
    } else {
        Error::InternalError
    }
}

/// The error reported when a recovery email request fails: the service
/// answers 422 for an address it does not know; every other failure is
/// internal.
pub open spec fn reset_password_error(failure: ApiFailure) -> Error {
    if failure == ApiFailure::Status(422u16) {
        Error::UserNotFound
    } else {
        Error::InternalError
    }
}

/// The error reported when a self-service user update fails.
pub open spec fn update_user_error(failure: ApiFailure) -> Error {
    if failure == ApiFailure::Status(400u16) {
        Error::UserNotFound
    } else {
        Error::InternalError
    }
}

/// Maps a failure to `error` when it is exactly this status code, and to
/// `InternalError` otherwise.
fn map_status_failure(failure: ApiFailure, code: u16, error: Error) -> (e: Error)
    ensures
        e == (if failure == ApiFailure::Status(code) {
            error
        } else {
            Error::InternalError
        }),
{
    match failure {
        ApiFailure::Status(status) => {
            if status == code {
                error
            } else {
                Error::InternalError
            }
        },
        ApiFailure::Transport => Error::InternalError,
    }
}

/// Law: a failed sign-up is reported as `AlreadySignedUp` exactly when
/// the service answered 400 — as it does for an email that has already
/// signed up — and every other failure is `InternalError`.
pub proof fn lemma_sign_up_error_taxonomy(failure: ApiFailure)
    ensures
        sign_up_error(failure) == Error::AlreadySignedUp <==> failure == ApiFailure::Status(
            400u16,
        ),
        sign_up_error(failure) == Error::AlreadySignedUp || sign_up_error(failure)
            == Error::InternalError,
{
}

/// Law: a failed sign-in is reported as `WrongCredentials` exactly when
/// the service answered 400 — as it does for a mismatched email and
/// password — and every other failure is `InternalError`.
pub proof fn lemma_sign_in_error_taxonomy(failure: ApiFailure)
    ensures
        sign_in_error(failure) == Error::WrongCredentials <==> failure == ApiFailure::Status(
            400u16,
        ),
        sign_in_error(failure) == Error::WrongCredentials || sign_in_error(failure)
            == Error::InternalError,
{
}

/// A client that remembers the session of the last successful
/// authentication, if any.
#[derive(Debug)]
pub struct Client {
    pub current_session: Option<Session>,
    pub api: Api,
}

impl Client {
    /// Creates a client for the service at this base URL, with no
    /// session.
    pub fn new(url: String) -> (r: Client)
        ensures
            r.current_session is None,
            r.api.url@ == url@,
            r.api.headers@ == Seq::<(String, String)>::empty(),
    {
        Client { current_session: None, api: Api::new(url) }
    }

    /// Starts a sign-up: drops any current session and builds the
    /// request.
    pub fn sign_up_request(&mut self, email_or_phone: EmailOrPhone, password: &str) -> (r:
        HttpRequest)
        ensures
            final(self).current_session is None,
            final(self).api == old(self).api,
            request_is(
                r,
                HttpMethod::Post,
                old(self).api.url@ + "/signup"@,
                old(self).api.headers@,
                None,
                Some(
                    credentials_body(
                        email_or_phone.field_name(),
                        email_or_phone.value(),
                        password@,
                    ),
                ),
            ),
    {
        self.current_session = None;
        self.api.sign_up(email_or_phone, password)
    }

    /// Finishes a sign-up: a session from the service is stored and
    /// returned; a failure maps to [`sign_up_error`] and leaves the
    /// state alone.
    pub fn sign_up_result(&mut self, outcome: Result<Session, ApiFailure>) -> (r: Result<
        Session,
        Error,
    >)
        ensures
            final(self).api == old(self).api,
            (match outcome {
                Ok(session) => final(self).current_session == Some(session) && r == Ok::<
                    Session,
                    Error,
                >(session),
                Err(failure) => final(self).current_session == old(self).current_session && r
                    == Err::<Session, Error>(sign_up_error(failure)),
            }),
    {
        match outcome {
            Ok(session) => {
                self.current_session = Some(session.clone());
                Ok(session)
            },
            Err(failure) => Err(map_status_failure(failure, 400, Error::AlreadySignedUp)),
        }
    }

    /// Starts a sign-in: drops any current session and builds the
    /// request.
    pub fn sign_in_request(&mut self, email_or_phone: EmailOrPhone, password: &str) -> (r:
        HttpRequest)
        ensures
            final(self).current_session is None,
            final(self).api == old(self).api,
            request_is(
                r,
                HttpMethod::Post,
                old(self).api.url@ + "/token?grant_type=password"@,
                old(self).api.headers@,
                None,
                Some(
                    credentials_body(
                        email_or_phone.field_name(),
                        email_or_phone.value(),
                        password@,
                    ),
                ),
            ),
    {
        self.current_session = None;
        self.api.sign_in(email_or_phone, password)
    }

    /// Finishes a sign-in: a session from the service is stored and
    /// returned; a failure maps to [`sign_in_error`] and leaves the
    /// state alone.
    pub fn sign_in_result(&mut self, outcome: Result<Session, ApiFailure>) -> (r: Result<
        Session,
        Error,
    >)
        ensures
            final(self).api == old(self).api,
            (match outcome {
                Ok(session) => final(self).current_session == Some(session) && r == Ok::<
                    Session,
                    Error,
                >(session),
                Err(failure) => final(self).current_session == old(self).current_session && r
                    == Err::<Session, Error>(sign_in_error(failure)),
            }),
    {
        match outcome {
            Ok(session) => {
                self.current_session = Some(session.clone());
                Ok(session)
            },
            Err(failure) => Err(map_status_failure(failure, 400, Error::WrongCredentials)),
        }
    }

    /// Builds the request that sends a one-time passcode.
    pub fn send_otp_request(&self, email_or_phone: EmailOrPhone, should_create_user: Option<
        bool,
    >) -> (r: HttpRequest)
        ensures
            request_is(
                r,
                HttpMethod::Post,
                self.api.url@ + "/otp"@,
                self.api.headers@,
                None,
                Some(
                    otp_body(
                        email_or_phone.field_name(),
                        email_or_phone.value(),
                        should_create_user,
                    ),
                ),
            ),
    {
        self.api.send_otp(email_or_phone, should_create_user)
    }

    /// Interprets the outcome of sending a passcode; a failure maps to
    /// [`send_otp_error`].
    pub fn send_otp_result(&self, outcome: Result<(), ApiFailure>) -> (r: Result<bool, Error>)
        ensures
            (match outcome {
                Ok(_) => r == Ok::<bool, Error>(true),
                Err(failure) => r == Err::<bool, Error>(send_otp_error(failure)),
            }),
    {
        match outcome {
            Ok(_) => Ok(true),
            Err(failure) => Err(map_status_failure(failure, 422, Error::UserNotFound)),
        }
    }

    /// Starts passcode verification: drops any current session; the
    /// caller supplies the parameters as JSON text, sent verbatim.
    pub fn verify_otp_request(&mut self, params: &str) -> (r: HttpRequest)
        ensures
            final(self).current_session is None,
            final(self).api == old(self).api,
            request_is(
                r,
                HttpMethod::Post,
                old(self).api.url@ + "/verify"@,
                old(self).api.headers@,
                None,
                Some(params@),
            ),
    {
        self.current_session = None;
        self.api.verify_otp(params)
    }

    /// Interprets the outcome of passcode verification; a failure maps
    /// to [`verify_otp_error`].
    pub fn verify_otp_result(&self, outcome: Result<(), ApiFailure>) -> (r: Result<bool, Error>)
        ensures
            (match outcome {
                Ok(_) => r == Ok::<bool, Error>(true),
                Err(failure) => r == Err::<bool, Error>(verify_otp_error(failure)),
            }),
    {
        match outcome {
            Ok(_) => Ok(true),
            Err(failure) => Err(map_status_failure(failure, 400, Error::WrongToken)),
        }
    }

    /// Starts a sign-out.  Without a prior session no request is built
    /// and the operation fails with `NotAuthenticated`; otherwise the
    /// request carries the stored access token.
    pub fn sign_out_request(&self) -> (r: Result<HttpRequest, Error>)
        ensures
            (match self.current_session {
                None => r == Err::<HttpRequest, Error>(Error::NotAuthenticated),
                Some(session) => r matches Ok(req) && request_is(
                    req,
                    HttpMethod::Post,
                    self.api.url@ + "/logout"@,
                    self.api.headers@,
                    Some(bearer_of(session.access_token@)),
                    None,
                ),
            }),
    {
        match &self.current_session {
            Some(session) => Ok(self.api.sign_out(session.access_token.as_str())),
            None => Err(Error::NotAuthenticated),
        }
    }

    /// Interprets the outcome of a sign-out: any failure is reported as
    /// `InternalError`; the stored session is kept either way.
    pub fn sign_out_result(&self, outcome: Result<(), ApiFailure>) -> (r: Result<bool, Error>)
        ensures
            (match outcome {
                Ok(_) => r == Ok::<bool, Error>(true),
                Err(_) => r == Err::<bool, Error>(Error::InternalError),
            }),
    {
        match outcome {
            Ok(_) => Ok(true),
            Err(_) => Err(Error::InternalError),
        }
    }

    /// Builds the request that sends a password recovery email.
    pub fn reset_password_for_email_request(&self, email: &str) -> (r: HttpRequest)
        ensures
            request_is(
                r,
                HttpMethod::Post,
                self.api.url@ + "/recover"@,
                self.api.headers@,
                None,
                Some(email_body(email@)),
            ),
    {
        self.api.reset_password_for_email(email)
    }

    /// Interprets the outcome of a recovery email; a failure maps to
    /// [`reset_password_error`].
    pub fn reset_password_for_email_result(&self, outcome: Result<(), ApiFailure>) -> (r: Result<
        bool,
        Error,
    >)
        ensures
            (match outcome {
                Ok(_) => r == Ok::<bool, Error>(true),
                Err(failure) => r == Err::<bool, Error>(reset_password_error(failure)),
            }),
    {
        match outcome {
            Ok(_) => Ok(true),
            Err(failure) => Err(map_status_failure(failure, 422, Error::UserNotFound)),
        }
    }

    /// Starts a self-service user update.  Without a prior session no
    /// request is built and the operation fails with `NotAuthenticated`;
    /// otherwise the request carries the stored access token and exactly
    /// the attributes supplied.
    pub fn update_user_request(&self, user: UserAttributes) -> (r: Result<HttpRequest, Error>)
        ensures
            (match self.current_session {
                None => r == Err::<HttpRequest, Error>(Error::NotAuthenticated),
                Some(session) => r matches Ok(req) && request_is(
                    req,
                    HttpMethod::Put,
                    self.api.url@ + "/user"@,
                    self.api.headers@,
                    Some(bearer_of(session.access_token@)),
                    Some(user_attributes_body(user)),
                ),
            }),
    {
        match &self.current_session {
            Some(session) => Ok(self.api.update_user(user, session.access_token.as_str())),
            None => Err(Error::NotAuthenticated),
        }
    }

    /// Interprets the outcome of a self-service update; the record the
    /// service returned is handed through unchanged, and a failure maps
    /// to [`update_user_error`].
    pub fn update_user_result(&self, outcome: Result<UserUpdate, ApiFailure>) -> (r: Result<
        UserUpdate,
        Error,
    >)
        ensures
            (match outcome {
                Ok(update) => r == Ok::<UserUpdate, Error>(update),
                Err(failure) => r == Err::<UserUpdate, Error>(update_user_error(failure)),
            }),
    {
        match outcome {
            Ok(update) => Ok(update),
            Err(failure) => Err(map_status_failure(failure, 400, Error::UserNotFound)),
        }
    }

    /// Starts a session refresh.  Without a prior session no request is
    /// built and the operation fails with `NotAuthenticated`; otherwise
    /// the request carries the stored refresh token.
    pub fn refresh_session_request(&self) -> (r: Result<HttpRequest, Error>)
        ensures
            (match self.current_session {
                None => r == Err::<HttpRequest, Error>(Error::NotAuthenticated),
                Some(session) => r matches Ok(req) && request_is(
                    req,
                    HttpMethod::Post,
                    self.api.url@ + "/token?grant_type=refresh_token"@,
                    self.api.headers@,
                    None,
                    Some(refresh_body(session.refresh_token@)),
                ),
            }),
    {
        match &self.current_session {
            Some(session) => Ok(
                self.api.refresh_access_token(session.refresh_token.as_str()),
            ),
            None => Err(Error::NotAuthenticated),
        }
    }

    /// Finishes a session refresh: the fresh session from the service
    /// replaces the stored one and is returned; any failure is reported
    /// as `InternalError` and leaves the state alone.
    pub fn refresh_session_result(&mut self, outcome: Result<Session, ApiFailure>) -> (r: Result<
        Session,
        Error,
    >)
        ensures
            final(self).api == old(self).api,
            (match outcome {
                Ok(session) => final(self).current_session == Some(session) && r == Ok::<
                    Session,
                    Error,
                >(session),
                Err(_) => final(self).current_session == old(self).current_session && r == Err::<
                    Session,
                    Error,
                >(Error::InternalError),
            }),
    {
        match outcome {
            Ok(session) => {
                self.current_session = Some(session.clone());
                Ok(session)
            },
            Err(_) => Err(Error::InternalError),
        }
    }

    /// Starts adopting a session from a bare refresh token.  An empty
    /// token fails with `NotAuthenticated` and no request is built.
    pub fn set_session_request(&self, refresh_token: &str) -> (r: Result<HttpRequest, Error>)
        ensures
            (if refresh_token@.len() == 0 {
                r == Err::<HttpRequest, Error>(Error::NotAuthenticated)
            } else {
                r matches Ok(req) && request_is(
                    req,
                    HttpMethod::Post,
                    self.api.url@ + "/token?grant_type=refresh_token"@,
                    self.api.headers@,
                    None,
                    Some(refresh_body(refresh_token@)),
                )
            }),
    {
        if refresh_token.is_empty() {
            Err(Error::NotAuthenticated)
        } else {
            Ok(self.api.refresh_access_token(refresh_token))
        }
    }

    /// Finishes adopting a session, exactly as a refresh does.
    pub fn set_session_result(&mut self, outcome: Result<Session, ApiFailure>) -> (r: Result<
        Session,
        Error,
    >)
        ensures
            final(self).api == old(self).api,
            (match outcome {
                Ok(session) => final(self).current_session == Some(session) && r == Ok::<
                    Session,
                    Error,
                >(session),
                Err(_) => final(self).current_session == old(self).current_session && r == Err::<
                    Session,
                    Error,
                >(Error::InternalError),
            }),
    {
        self.refresh_session_result(outcome)
    }
}

} // verus!
