//! Write-side payloads supplied by the caller.

use vstd::prelude::*;

verus! {

/// Attributes used when a signed-in user updates their own record.
///
/// `data` holds free-form metadata as JSON text; it is spliced into the
/// request body verbatim, so the caller must supply a valid JSON value.
#[derive(Debug)]
pub struct UserAttributes {
    /// The email of a user.
    pub email: String,
    /// The password of a user.
    pub password: String,
    /// Additional user data, as JSON text.
    pub data: String,
}

impl Clone for UserAttributes {
    fn clone(&self) -> (r: Self)
        ensures
            r == *self,
    {
        UserAttributes {
            email: self.email.clone(),
            password: self.password.clone(),
            data: self.data.clone(),
        }
    }
}

/// Attributes used when an administrator creates or updates a user.
///
/// `data` holds free-form metadata as JSON text; it is spliced into the
/// request body verbatim, so the caller must supply a valid JSON value.
#[derive(Debug)]
pub struct AdminUserAttributes {
    pub email: String,
    pub password: Option<String>,
    pub data: Option<String>,
    pub email_confirmed: Option<bool>,
    pub phone_confirmed: Option<bool>,
}

impl Clone for AdminUserAttributes {
    fn clone(&self) -> (r: Self)
        ensures
            r == *self,
    {
        AdminUserAttributes {
            email: self.email.clone(),
            password: match &self.password {
                Some(s) => Some(s.clone()),
                None => None,
            },
            data: match &self.data {
                Some(s) => Some(s.clone()),
                None => None,
            },
            email_confirmed: self.email_confirmed,
            phone_confirmed: self.phone_confirmed,
        }
    }
}

} // verus!
