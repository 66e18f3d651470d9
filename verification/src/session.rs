//! The session bundle produced by sign-in, sign-up and refresh.

use vstd::prelude::*;
use crate::user::User;

verus! {

/// The tokens and the authenticated user that a successful
/// authentication call returns.
#[derive(Debug)]
pub struct Session {
    pub access_token: String,
    pub token_type: String,
    pub expires_in: i32,
    pub refresh_token: String,
    pub user: User,
}

impl Clone for Session {
    fn clone(&self) -> (r: Self)
        ensures
            r == *self,
    {
        Session {
            access_token: self.access_token.clone(),
            token_type: self.token_type.clone(),
            expires_in: self.expires_in,
            refresh_token: self.refresh_token.clone(),
            user: self.user.clone(),
        }
    }
}

} // verus!
