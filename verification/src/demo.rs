//! What each step of the CRUD walk-through sends to the table: the rows
//! it inserts, the writes it applies, the filters it selects by and the
//! statements it executes. The caller connects, awaits and prints.

use vstd::prelude::*;

use crate::ids::fresh_id;
use crate::ids::is_hyphenated_uuid;
use crate::query::like_contains_pattern;
use crate::sql::SqlStatement;
use crate::sql::delete_users_like;
use crate::sql::insert_user;
use crate::sql::insert_user_returning;
use crate::sql::select_users_like;
use crate::sql::select_usernames_like;
use crate::sql::update_username_where_id;
use crate::user::User;
use crate::user::UserWrite;

verus! {

/// The substring the selects and the raw delete filter usernames by.
pub fn filter_needle() -> (needle: &'static str)
    ensures
        needle@ == "itsuki"@,
{
    "itsuki"
}

/// The substring the update's filter matches usernames against.
pub fn update_filter_needle() -> (needle: &'static str)
    ensures
        needle@ == "sea"@,
{
    "sea"
}

/// The username filter as a `LIKE` pattern: the needle between `%`
/// wildcards, which is the pattern the raw statements spell out.
pub fn filter_pattern() -> (pattern: String)
    ensures
        pattern@ == "%itsuki%"@,
{
    let pattern = like_contains_pattern("itsuki");
    proof {
        reveal_strlit("%");
        reveal_strlit("itsuki");
        reveal_strlit("%itsuki%");
        assert(pattern@ =~= "%itsuki%"@);
    }
    pattern
}

/// The row the migration seeds: key `1`, username `itsuki`, the age left
/// to the table's default of zero.
pub fn seed_insert() -> (stmt: SqlStatement)
    ensures
        stmt.sql@ == "INSERT INTO users (id, username) VALUES ($1, $2)"@,
        stmt.params@.len() == 2,
        stmt.params@[0]@ == "1"@,
        stmt.params@[1]@ == "itsuki"@,
        stmt.wf(),
{
    insert_user("1", "itsuki")
}

/// The insert sent through the query builder: a fresh key, the builder
/// demonstration's username, the age left to the table's default.
pub fn builder_insert() -> (write: UserWrite)
    ensures
        write.id matches Some(id) && is_hyphenated_uuid(id@),
        write.username matches Some(name) && name@ == "new_itsuki_seaquery"@,
        write.age is None,
{
    UserWrite::key_and_username(fresh_id(), String::from_str("new_itsuki_seaquery"))
}

/// The insert built from plain field values: a fresh key, its own
/// username, and an age of one million.
pub fn json_insert() -> (user: User)
    ensures
        is_hyphenated_uuid(user.id@),
        user.username@ == "new_itsuki_json"@,
        user.age == 1000000,
{
    User::with_age(fresh_id(), String::from_str("new_itsuki_json"), 1000000)
}

/// The raw insert: a fresh key and its own username, asking the database
/// to hand the new row back.
pub fn raw_insert() -> (stmt: SqlStatement)
    ensures
        stmt.sql@ == "INSERT INTO users (id, username) VALUES ($1, $2) RETURNING *"@,
        stmt.params@.len() == 2,
        is_hyphenated_uuid(stmt.params@[0]@),
        stmt.params@[1]@ == "new_itsuki_raw"@,
        stmt.wf(),
{
    let id = fresh_id();
    insert_user_returning(id.as_str(), "new_itsuki_raw")
}

/// The update sent through the query builder: the row with the given key
/// takes the update demonstration's username.
pub fn builder_update(id: String) -> (write: UserWrite)
    ensures
        write.id == Some(id),
        write.username matches Some(name) && name@ == "updated_itsuki_seaquery"@,
        write.age is None,
{
    UserWrite::key_and_username(id, String::from_str("updated_itsuki_seaquery"))
}

/// The raw update: writes the given text as the username of the row
/// whose key is `1` (the seeded row), asking the changed row back.
pub fn raw_update(username: &str) -> (stmt: SqlStatement)
    ensures
        stmt.sql@ == "UPDATE public.users SET username = $1 WHERE id = $2 RETURNING *"@,
        stmt.params@.len() == 2,
        stmt.params@[0]@ == username@,
        stmt.params@[1]@ == "1"@,
        stmt.wf(),
{
    update_username_where_id(username, "1")
}

/// The raw select of whole rows whose username matches the filter.
pub fn select_matching() -> (stmt: SqlStatement)
    ensures
        stmt.sql@ == "SELECT * FROM users WHERE username LIKE $1"@,
        stmt.params@.len() == 1,
        stmt.params@[0]@ == "%itsuki%"@,
        stmt.wf(),
{
    let pattern = filter_pattern();
    select_users_like(pattern.as_str())
}

/// The raw select of the matching usernames alone.
pub fn select_matching_names() -> (stmt: SqlStatement)
    ensures
        stmt.sql@ == "SELECT username FROM users WHERE username LIKE $1"@,
        stmt.params@.len() == 1,
        stmt.params@[0]@ == "%itsuki%"@,
        stmt.wf(),
{
    let pattern = filter_pattern();
    select_usernames_like(pattern.as_str())
}

/// The raw delete of every row whose username matches the filter.
pub fn delete_matching() -> (stmt: SqlStatement)
    ensures
        stmt.sql@ == "DELETE FROM users WHERE username LIKE $1"@,
        stmt.params@.len() == 1,
        stmt.params@[0]@ == "%itsuki%"@,
        stmt.wf(),
{
    let pattern = filter_pattern();
    delete_users_like(pattern.as_str())
}

} // verus!
