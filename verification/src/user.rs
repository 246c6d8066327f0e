//! The users table's row type, and the partial writes sent to it.

use vstd::prelude::*;

verus! {

/// One row of the users table: a string primary key, a required username,
/// and an age stored as a 64-bit integer.
pub struct User {
    pub id: String,
    pub username: String,
    pub age: i64,
}

impl User {
    /// A row as the table completes it when no age is given: the age
    /// column's default is zero.
    pub fn new(id: String, username: String) -> (user: User)
        ensures
            user.id@ == id@,
            user.username@ == username@,
            user.age == 0,
    {
        User { id, username, age: 0 }
    }

    /// A row with every column given.
    pub fn with_age(id: String, username: String, age: i64) -> (user: User)
        ensures
            user.id@ == id@,
            user.username@ == username@,
            user.age == age,
    {
        User { id, username, age }
    }
}

/// A partial write to the users table: each field is either a value to
/// write or left alone. An insert leaves the age to the table's default;
/// an update touches only the columns it names.
pub struct UserWrite {
    pub id: Option<String>,
    pub username: Option<String>,
    pub age: Option<i64>,
}

impl UserWrite {
    /// The write that the demonstration sends for inserts, updates and
    /// deletes alike: a key and a username, the age left alone.
    pub fn key_and_username(id: String, username: String) -> (write: UserWrite)
        ensures
            write.id == Some(id),
            write.username == Some(username),
            write.age is None,
    {
        UserWrite { id: Some(id), username: Some(username), age: None }
    }

    /// The write that identifies an existing row: its key and username,
    /// as a delete names them.
    pub fn for_row(user: &User) -> (write: UserWrite)
        ensures
            write.id matches Some(id) && id@ == user.id@,
            write.username matches Some(name) && name@ == user.username@,
            write.age is None,
    {
        UserWrite {
            id: Some(user.id.clone()),
            username: Some(user.username.clone()),
            age: None,
        }
    }
}

} // verus!
