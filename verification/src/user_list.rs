//! The ordered collection of users returned by administrative listing.

use vstd::prelude::*;
use crate::user::User;

verus! {

/// A listing of user records, in the order the service returned them.
#[derive(Debug)]
pub struct UserList {
    pub users: Vec<User>,
}

impl UserList {
    /// Whether some listed user carries exactly this email.
    pub fn contains_email(&self, email: &str) -> (r: bool)
        ensures
            r == exists|i: int| 0 <= i < self.users@.len() && self.users@[i].email@ == email@,
    {
        let wanted: String = email.to_owned();
        let mut i: usize = 0;
        while i < self.users.len()
            invariant
                wanted@ == email@,
                i <= self.users@.len(),
                forall|j: int| 0 <= j < i ==> self.users@[j].email@ != email@,
            decreases self.users@.len() - i,
        {
            if self.users[i].email == wanted {
                return true;
            }
            i = i + 1;
        }
        false
    }
}

} // verus!
