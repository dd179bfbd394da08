use vstd::prelude::*;

verus! {

/// One persisted unit of publishable content.
pub struct Post {
    pub id: Option<i32>,
    pub title: String,
    pub content: String,
    pub author: i32,
    /// Creation time in Unix seconds; negative before 1970.
    pub timestamp: i64,
}

/// An account as stored.
pub struct User {
    pub id: i32,
    pub name: String,
    pub email: String,
    pub password_hash: Option<String>,
}

/// The signed-in account, as shown to templates.
pub struct CurrentUser {
    pub id: i32,
    pub name: String,
    pub email: String,
}

} // verus!
