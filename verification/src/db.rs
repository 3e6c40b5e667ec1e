//! The store's answers, as the handlers see them.

use vstd::prelude::*;
use crate::user_model::User;

verus! {

/// A failed store operation: an HTTP-style code and a message.
#[derive(Debug)]
pub struct DatabaseResponse {
    pub error_code: u16,
    pub message: String,
}

impl DatabaseResponse {
    /// A failure with this code and message.
    pub fn new(error_code: u16, message: String) -> (r: Self)
        ensures
            r.error_code == error_code,
            r.message@ == message@,
    {
        DatabaseResponse { error_code, message }
    }
}

/// The user that a lookup found, or a not-found failure.
pub fn user_found(found: Option<User>) -> (r: Result<User, DatabaseResponse>)
    ensures
        match found {
            Some(u) => r matches Ok(v) && v@ == u@,
            None => r matches Err(e) && e.error_code == 404 && e.message@ == "User not found"@,
        },
{
    match found {
        Some(user) => Ok(user),
        None => Err(DatabaseResponse::new(404, "User not found".to_string())),
    }
}

/// The users that a listing found, or a not-found failure when there are none.
pub fn users_listed(users: Vec<User>) -> (r: Result<Vec<User>, DatabaseResponse>)
    ensures
        users@.len() == 0 ==> (r matches Err(e) && e.error_code == 404 && e.message@
            == "No users were found"@),
        users@.len() > 0 ==> (r matches Ok(v) && v@ == users@),
{
    if users.len() == 0 {
        return Err(DatabaseResponse::new(404, "No users were found".to_string()));
    }
    Ok(users)
}

} // verus!
