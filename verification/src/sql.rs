//! The SQL statements the demonstration issues, each with its bound
//! parameters, built as plain data. Executing them is the caller's business.

use vstd::prelude::*;

verus! {

/// A parameterized SQL statement: the text and the values bound to its
/// `$1`, `$2`, ... markers, in order.
pub struct SqlStatement {
    pub sql: String,
    pub params: Vec<String>,
}

/// Number of `$` parameter markers in a SQL text.
pub open spec fn marker_count(s: Seq<char>) -> nat
    decreases s.len(),
{
    if s.len() == 0 {
        0
    } else {
        (if s[0] == '$' {
            1nat
        } else {
            0nat
        }) + marker_count(s.drop_first())
    }
}

impl SqlStatement {
    /// A statement binds exactly one value per `$` marker in its text.
    pub open spec fn wf(self) -> bool {
        self.params@.len() == marker_count(self.sql@)
    }
}

/// The `$` markers of a concatenation are those of its parts.
pub proof fn lemma_marker_count_concat(a: Seq<char>, b: Seq<char>)
    ensures
        marker_count(a + b) == marker_count(a) + marker_count(b),
    decreases a.len(),
{
    if a.len() == 0 {
        assert(a + b =~= b);
    } else {
        assert((a + b).drop_first() =~= a.drop_first() + b);
        lemma_marker_count_concat(a.drop_first(), b);
    }
}

/// The schema of the users table: a string primary key, a required
/// username, and an age that the database fills with zero when no value
/// is given.
pub fn create_users_table() -> (stmt: SqlStatement)
    ensures
        stmt.sql@ == "CREATE TABLE users (id VARCHAR PRIMARY KEY, username VARCHAR NOT NULL, age INT8 NOT NULL DEFAULT 0)"@,
        stmt.params@.len() == 0,
        stmt.wf(),
{
    let sql = String::from_str(
        "CREATE TABLE users (id VARCHAR PRIMARY KEY, username VARCHAR NOT NULL, age INT8 NOT NULL DEFAULT 0)",
    );
    proof {
        reveal_strlit(
            "CREATE TABLE users (id VARCHAR PRIMARY KEY, username VARCHAR NOT NULL, age INT8 NOT NULL DEFAULT 0)",
        );
        let s = "CREATE TABLE users (id VARCHAR PRIMARY KEY, username VARCHAR NOT NULL, age INT8 NOT NULL DEFAULT 0)"@;
        let a = s.subrange(0, 33);
        let b = s.subrange(33, 66);
        let c = s.subrange(66, 99);
        assert(s =~= a + b + c);
        lemma_marker_count_concat(a, b);
        lemma_marker_count_concat(a + b, c);
        reveal_with_fuel(marker_count, 36);
        assert(marker_count(a) == 0);
        assert(marker_count(b) == 0);
        assert(marker_count(c) == 0);
    }
    SqlStatement { sql, params: Vec::new() }
}

/// The inverse of `create_users_table`.
pub fn drop_users_table() -> (stmt: SqlStatement)
    ensures
        stmt.sql@ == "DROP TABLE users"@,
        stmt.params@.len() == 0,
        stmt.wf(),
{
    let sql = String::from_str("DROP TABLE users");
    proof {
        reveal_strlit("DROP TABLE users");
        reveal_with_fuel(marker_count, 18);
    }
    SqlStatement { sql, params: Vec::new() }
}

/// `INSERT INTO users (id, username) VALUES ($1, $2)`, with the given key
/// and username bound; the age column takes the table's default.
pub fn insert_user(id: &str, username: &str) -> (stmt: SqlStatement)
    ensures
        stmt.sql@ == "INSERT INTO users (id, username) VALUES ($1, $2)"@,
        stmt.params@.len() == 2,
        stmt.params@[0]@ == id@,
        stmt.params@[1]@ == username@,
        stmt.wf(),
{
    let sql = String::from_str("INSERT INTO users (id, username) VALUES ($1, $2)");
    let mut params: Vec<String> = Vec::new();
    params.push(id.to_owned());
    params.push(username.to_owned());
    proof {
        reveal_strlit("INSERT INTO users (id, username) VALUES ($1, $2)");
        reveal_with_fuel(marker_count, 51);
    }
    SqlStatement { sql, params }
}

/// As `insert_user`, but asking the database to hand the inserted row back.
pub fn insert_user_returning(id: &str, username: &str) -> (stmt: SqlStatement)
    ensures
        stmt.sql@ == "INSERT INTO users (id, username) VALUES ($1, $2) RETURNING *"@,
        stmt.params@.len() == 2,
        stmt.params@[0]@ == id@,
        stmt.params@[1]@ == username@,
        stmt.wf(),
{
    let sql = String::from_str("INSERT INTO users (id, username) VALUES ($1, $2) RETURNING *");
    let mut params: Vec<String> = Vec::new();
    params.push(id.to_owned());
    params.push(username.to_owned());
    proof {
        reveal_strlit("INSERT INTO users (id, username) VALUES ($1, $2) RETURNING *");
        let s = "INSERT INTO users (id, username) VALUES ($1, $2) RETURNING *"@;
        let a = s.subrange(0, 32);
        let b = s.subrange(32, 60);
        assert(s =~= a + b);
        lemma_marker_count_concat(a, b);
        reveal_with_fuel(marker_count, 35);
        assert(marker_count(a) == 0);
        assert(marker_count(b) == 2);
    }
    SqlStatement { sql, params }
}

/// `SELECT * FROM users WHERE username LIKE $1`, with the given pattern bound.
pub fn select_users_like(pattern: &str) -> (stmt: SqlStatement)
    ensures
        stmt.sql@ == "SELECT * FROM users WHERE username LIKE $1"@,
        stmt.params@.len() == 1,
        stmt.params@[0]@ == pattern@,
        stmt.wf(),
{
    let sql = String::from_str("SELECT * FROM users WHERE username LIKE $1");
    let mut params: Vec<String> = Vec::new();
    params.push(pattern.to_owned());
    proof {
        reveal_strlit("SELECT * FROM users WHERE username LIKE $1");
        reveal_with_fuel(marker_count, 45);
    }
    SqlStatement { sql, params }
}

/// `SELECT username FROM users WHERE username LIKE $1`: the one column,
/// for the given pattern.
pub fn select_usernames_like(pattern: &str) -> (stmt: SqlStatement)
    ensures
        stmt.sql@ == "SELECT username FROM users WHERE username LIKE $1"@,
        stmt.params@.len() == 1,
        stmt.params@[0]@ == pattern@,
        stmt.wf(),
{
    let sql = String::from_str("SELECT username FROM users WHERE username LIKE $1");
    let mut params: Vec<String> = Vec::new();
    params.push(pattern.to_owned());
    proof {
        reveal_strlit("SELECT username FROM users WHERE username LIKE $1");
        let s = "SELECT username FROM users WHERE username LIKE $1"@;
        let a = s.subrange(0, 25);
        let b = s.subrange(25, 49);
        assert(s =~= a + b);
        lemma_marker_count_concat(a, b);
        reveal_with_fuel(marker_count, 28);
        assert(marker_count(a) == 0);
        assert(marker_count(b) == 1);
    }
    SqlStatement { sql, params }
}

/// `UPDATE public.users SET username = $1 WHERE id = $2 RETURNING *`,
/// with the new username and the key bound.
pub fn update_username_where_id(username: &str, id: &str) -> (stmt: SqlStatement)
    ensures
        stmt.sql@ == "UPDATE public.users SET username = $1 WHERE id = $2 RETURNING *"@,
        stmt.params@.len() == 2,
        stmt.params@[0]@ == username@,
        stmt.params@[1]@ == id@,
        stmt.wf(),
{
    let sql = String::from_str("UPDATE public.users SET username = $1 WHERE id = $2 RETURNING *");
    let mut params: Vec<String> = Vec::new();
    params.push(username.to_owned());
    params.push(id.to_owned());
    proof {
        reveal_strlit("UPDATE public.users SET username = $1 WHERE id = $2 RETURNING *");
        let s = "UPDATE public.users SET username = $1 WHERE id = $2 RETURNING *"@;
        let a = s.subrange(0, 33);
        let b = s.subrange(33, 63);
        assert(s =~= a + b);
        lemma_marker_count_concat(a, b);
        reveal_with_fuel(marker_count, 36);
        assert(marker_count(a) == 0);
        assert(marker_count(b) == 2);
    }
    SqlStatement { sql, params }
}

/// `DELETE FROM users WHERE username LIKE $1`, with the given pattern bound.
pub fn delete_users_like(pattern: &str) -> (stmt: SqlStatement)
    ensures
        stmt.sql@ == "DELETE FROM users WHERE username LIKE $1"@,
        stmt.params@.len() == 1,
        stmt.params@[0]@ == pattern@,
        stmt.wf(),
{
    let sql = String::from_str("DELETE FROM users WHERE username LIKE $1");
    let mut params: Vec<String> = Vec::new();
    params.push(pattern.to_owned());
    proof {
        reveal_strlit("DELETE FROM users WHERE username LIKE $1");
        reveal_with_fuel(marker_count, 43);
    }
    SqlStatement { sql, params }
}

} // verus!
