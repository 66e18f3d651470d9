//! The closed set of domain errors surfaced to callers.

use vstd::prelude::*;

verus! {

/// An error returned from a user action against the identity service.
#[derive(Debug, Clone, Copy, PartialEq, Eq, Structural)]
pub enum Error {
    /// The user has already signed up.
    AlreadySignedUp,
    /// The user has provided the incorrect credentials.
    WrongCredentials,
    /// The user was not found.
    UserNotFound,
    /// The user could not be authenticated.
    NotAuthenticated,
    /// The required refresh token was missing.
    MissingRefreshToken,
    /// The wrong token was provided.
    WrongToken,
    /// Internal service error.
    InternalError,
}

impl Error {
    /// A human-readable description of the error.
    pub fn message(&self) -> (r: String)
        ensures
            r@ == self.message_spec(),
    {
        match self {
            Error::AlreadySignedUp => "Use already signed up.".to_owned(),
            Error::WrongCredentials => "Wrong credentials.".to_owned(),
            Error::UserNotFound => "User not found.".to_owned(),
            Error::NotAuthenticated => "User is not authenticated.".to_owned(),
            Error::MissingRefreshToken => "Refresh Token is missing".to_owned(),
            Error::WrongToken => "Wrong token.".to_owned(),
            Error::InternalError => "GoTrue internal error".to_owned(),
        }
    }

    /// What `message` returns for each variant.
    pub open spec fn message_spec(self) -> Seq<char> {
        match self {
            Error::AlreadySignedUp => "Use already signed up."@,
            Error::WrongCredentials => "Wrong credentials."@,
            Error::UserNotFound => "User not found."@,
            Error::NotAuthenticated => "User is not authenticated."@,
            Error::MissingRefreshToken => "Refresh Token is missing"@,
            Error::WrongToken => "Wrong token."@,
            Error::InternalError => "GoTrue internal error"@,
        }
    }
}

} // verus!
