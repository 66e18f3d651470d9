//! The record returned when a user updates their own attributes.

use vstd::prelude::*;

verus! {

/// What the service reports after an update of the signed-in user.
#[derive(Debug)]
pub struct UserUpdate {
    pub id: String,
    pub email: String,
    pub new_email: String,
    pub email_change_sent_at: String,
    pub created_at: String,
    pub updated_at: String,
}

impl Clone for UserUpdate {
    fn clone(&self) -> (r: Self)
        ensures
            r == *self,
    {
        UserUpdate {
            id: self.id.clone(),
            email: self.email.clone(),
            new_email: self.new_email.clone(),
            email_change_sent_at: self.email_change_sent_at.clone(),
            created_at: self.created_at.clone(),
            updated_at: self.updated_at.clone(),
        }
    }
}

} // verus!
