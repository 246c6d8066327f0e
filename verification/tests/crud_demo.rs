use user_crud::demo;
use user_crud::ids::is_uuid_string;
use user_crud::query::like_contains_pattern;
use user_crud::sql;
use user_crud::user::User;
use user_crud::user::UserWrite;

fn is_uuid_shape(s: &str) -> bool {
    s.len() == 36
        && s.chars().enumerate().all(|(i, c)| {
            if i == 8 || i == 13 || i == 18 || i == 23 {
                c == '-'
            } else {
                c.is_ascii_digit() || ('a'..='f').contains(&c)
            }
        })
}

fn dollar_count(s: &str) -> usize {
    s.chars().filter(|c| *c == '$').count()
}

#[test]
fn like_pattern_wraps_needle() {
    assert_eq!(like_contains_pattern("itsuki"), "%itsuki%");
    assert_eq!(like_contains_pattern(""), "%%");
    assert_eq!(like_contains_pattern("a"), "%a%");
}

#[test]
fn filter_values() {
    assert_eq!(demo::filter_needle(), "itsuki");
    assert_eq!(demo::update_filter_needle(), "sea");
    assert_eq!(demo::filter_pattern(), "%itsuki%");
}

#[test]
fn create_table_sql() {
    let stmt = sql::create_users_table();
    assert_eq!(
        stmt.sql,
        "CREATE TABLE users (id VARCHAR PRIMARY KEY, username VARCHAR NOT NULL, age INT8 NOT NULL DEFAULT 0)"
    );
    assert!(stmt.params.is_empty());
}

#[test]
fn drop_table_sql() {
    let stmt = sql::drop_users_table();
    assert_eq!(stmt.sql, "DROP TABLE users");
    assert!(stmt.params.is_empty());
}

#[test]
fn insert_statement_binds_key_and_username() {
    let stmt = sql::insert_user("1", "itsuki");
    assert_eq!(stmt.sql, "INSERT INTO users (id, username) VALUES ($1, $2)");
    assert_eq!(stmt.params, vec!["1".to_string(), "itsuki".to_string()]);
}

#[test]
fn seed_insert_is_the_seeded_row() {
    let stmt = demo::seed_insert();
    assert_eq!(stmt.sql, "INSERT INTO users (id, username) VALUES ($1, $2)");
    assert_eq!(stmt.params, vec!["1".to_string(), "itsuki".to_string()]);
}

#[test]
fn insert_returning_statement() {
    let stmt = sql::insert_user_returning("k", "n");
    assert_eq!(
        stmt.sql,
        "INSERT INTO users (id, username) VALUES ($1, $2) RETURNING *"
    );
    assert_eq!(stmt.params, vec!["k".to_string(), "n".to_string()]);
}

#[test]
fn select_statements_bind_the_pattern() {
    let stmt = sql::select_users_like("%x%");
    assert_eq!(stmt.sql, "SELECT * FROM users WHERE username LIKE $1");
    assert_eq!(stmt.params, vec!["%x%".to_string()]);

    let stmt = demo::select_matching();
    assert_eq!(stmt.sql, "SELECT * FROM users WHERE username LIKE $1");
    assert_eq!(stmt.params, vec!["%itsuki%".to_string()]);

    let stmt = demo::select_matching_names();
    assert_eq!(stmt.sql, "SELECT username FROM users WHERE username LIKE $1");
    assert_eq!(stmt.params, vec!["%itsuki%".to_string()]);
}

#[test]
fn update_statement_binds_username_then_key() {
    let stmt = sql::update_username_where_id("new_name", "42");
    assert_eq!(
        stmt.sql,
        "UPDATE public.users SET username = $1 WHERE id = $2 RETURNING *"
    );
    assert_eq!(stmt.params, vec!["new_name".to_string(), "42".to_string()]);
}

#[test]
fn raw_update_targets_the_seeded_row() {
    let stmt = demo::raw_update("abc");
    assert_eq!(
        stmt.sql,
        "UPDATE public.users SET username = $1 WHERE id = $2 RETURNING *"
    );
    assert_eq!(stmt.params, vec!["abc".to_string(), "1".to_string()]);
}

#[test]
fn delete_statements_bind_the_pattern() {
    let stmt = sql::delete_users_like("%y%");
    assert_eq!(stmt.sql, "DELETE FROM users WHERE username LIKE $1");
    assert_eq!(stmt.params, vec!["%y%".to_string()]);

    let stmt = demo::delete_matching();
    assert_eq!(stmt.sql, "DELETE FROM users WHERE username LIKE $1");
    assert_eq!(stmt.params, vec!["%itsuki%".to_string()]);
}

#[test]
fn user_rows() {
    let user = User::new("1".to_string(), "itsuki".to_string());
    assert_eq!(user.id, "1");
    assert_eq!(user.username, "itsuki");
    assert_eq!(user.age, 0);

    let user = User::with_age("2".to_string(), "other".to_string(), 7);
    assert_eq!(user.age, 7);
}

#[test]
fn user_writes() {
    let write = UserWrite::key_and_username("1".to_string(), "itsuki".to_string());
    assert_eq!(write.id.as_deref(), Some("1"));
    assert_eq!(write.username.as_deref(), Some("itsuki"));
    assert!(write.age.is_none());

    let user = User::with_age("2".to_string(), "other".to_string(), 7);
    let write = UserWrite::for_row(&user);
    assert_eq!(write.id.as_deref(), Some("2"));
    assert_eq!(write.username.as_deref(), Some("other"));
    assert!(write.age.is_none());
}

#[test]
fn builder_insert_has_fresh_key_and_its_username() {
    let write = demo::builder_insert();
    assert!(is_uuid_shape(write.id.as_deref().unwrap()));
    assert_eq!(write.username.as_deref(), Some("new_itsuki_seaquery"));
    assert!(write.age.is_none());
}

#[test]
fn json_insert_has_fresh_key_username_and_age() {
    let user = demo::json_insert();
    assert!(is_uuid_shape(&user.id));
    assert_eq!(user.username, "new_itsuki_json");
    assert_eq!(user.age, 1000000);
}

#[test]
fn raw_insert_binds_fresh_key_and_its_username() {
    let stmt = demo::raw_insert();
    assert_eq!(
        stmt.sql,
        "INSERT INTO users (id, username) VALUES ($1, $2) RETURNING *"
    );
    assert_eq!(stmt.params.len(), 2);
    assert!(is_uuid_shape(&stmt.params[0]));
    assert_eq!(stmt.params[1], "new_itsuki_raw");
}

#[test]
fn builder_update_writes_its_username() {
    let write = demo::builder_update("some-key".to_string());
    assert_eq!(write.id.as_deref(), Some("some-key"));
    assert_eq!(write.username.as_deref(), Some("updated_itsuki_seaquery"));
    assert!(write.age.is_none());
}

#[test]
fn uuid_recognizer_accepts_fresh_keys() {
    let write = demo::builder_insert();
    assert!(is_uuid_string(write.id.as_deref().unwrap()));
    let user = demo::json_insert();
    assert!(is_uuid_string(&user.id));
    let stmt = demo::raw_insert();
    assert!(is_uuid_string(&stmt.params[0]));
}

#[test]
fn uuid_recognizer_rejects_other_shapes() {
    assert!(is_uuid_string("67e55044-10b1-426f-9247-bb680e5fe0c8"));
    assert!(!is_uuid_string(""));
    assert!(!is_uuid_string("1"));
    assert!(!is_uuid_string("67e55044-10b1-426f-9247-bb680e5fe0c"));
    assert!(!is_uuid_string("67e5504410b1426f9247bb680e5fe0c8----"));
    assert!(!is_uuid_string("67E55044-10B1-426F-9247-BB680E5FE0C8"));
    assert!(!is_uuid_string("67e55044-10b1-426f-9247-bb680e5feg08"));
    assert!(!is_uuid_string("67e55044+10b1+426f+9247+bb680e5fe0c8"));
}

#[test]
fn every_statement_binds_one_value_per_marker() {
    let statements = vec![
        sql::create_users_table(),
        sql::drop_users_table(),
        sql::insert_user("a", "b"),
        sql::insert_user_returning("a", "b"),
        sql::select_users_like("%a%"),
        sql::select_usernames_like("%a%"),
        sql::update_username_where_id("a", "b"),
        sql::delete_users_like("%a%"),
        demo::seed_insert(),
        demo::raw_insert(),
        demo::raw_update("a"),
        demo::select_matching(),
        demo::select_matching_names(),
        demo::delete_matching(),
    ];
    for stmt in statements {
        assert_eq!(stmt.params.len(), dollar_count(&stmt.sql));
    }
}
