//! The user records that the user endpoints exchange with their callers.

use vstd::prelude::*;

verus! {

/// A user, as the gateway hands it out.
#[derive(Clone, Debug, PartialEq, Eq)]
pub struct User {
    pub id: i64,
    pub name: String,
    pub email: String,
    pub age: i32,
    pub created_at: String,
}

/// The body of a request that creates a user.
#[derive(Clone, Debug, PartialEq, Eq)]
pub struct CreateUserReq {
    pub name: String,
    pub email: String,
    pub age: i32,
}

/// One page of users, with the total number of users.
#[derive(Clone, Debug, PartialEq, Eq)]
pub struct ListUsersResp {
    pub users: Vec<User>,
    pub total: i32,
}

} // verus!
