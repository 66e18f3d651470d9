//! The immutable user snapshot returned by the identity service.

use vstd::prelude::*;

verus! {

/// A user record as the service reports it.
#[derive(Debug)]
pub struct User {
    pub id: String,
    pub email: String,
    pub aud: String,
    pub role: String,
    pub email_confirmed_at: Option<String>,
    pub phone: String,
    pub last_sign_in_at: Option<String>,
    pub created_at: String,
    pub updated_at: String,
}

impl Clone for User {
    fn clone(&self) -> (r: Self)
        ensures
            r == *self,
    {
        User {
            id: self.id.clone(),
            email: self.email.clone(),
            aud: self.aud.clone(),
            role: self.role.clone(),
            email_confirmed_at: match &self.email_confirmed_at {
                Some(s) => Some(s.clone()),
                None => None,
            },
            phone: self.phone.clone(),
            last_sign_in_at: match &self.last_sign_in_at {
                Some(s) => Some(s.clone()),
                None => None,
            },
            created_at: self.created_at.clone(),
            updated_at: self.updated_at.clone(),
        }
    }
}

} // verus!
