use user_api::{
    build_insert_sql, expect_row, plan_create, plan_delete, plan_read, plan_update, CreateParams,
    SqlValue, Statement, Timestamp, UpdateParams, User, UserError, UserTable,
};

fn create(table: &mut UserTable, name: &str, email: &str, at: Option<Timestamp>) -> User {
    let p = CreateParams { username: name.to_string(), email: email.to_string(), created_at: at };
    table.create_user(p, Timestamp { secs: 1_700_000_000, nanos: 0 }).unwrap()
}

fn same(a: &User, b: &User) -> bool {
    a.id == b.id && a.username == b.username && a.email == b.email && a.created_at == b.created_at
}

#[test]
fn create_without_created_at_gets_id_and_clock_time() {
    let mut t = UserTable::new();
    let u = create(&mut t, "alice", "a@x.com", None);
    assert_eq!(u.id, 1);
    assert_eq!(u.username, "alice");
    assert_eq!(u.email, "a@x.com");
    assert_eq!(u.created_at, Some(Timestamp { secs: 1_700_000_000, nanos: 0 }));
    assert_eq!(t.len(), 1);
}

#[test]
fn create_keeps_given_created_at() {
    let mut t = UserTable::new();
    let at = Timestamp { secs: 86_400, nanos: 250 };
    let u = create(&mut t, "bob", "b@x.com", Some(at));
    assert_eq!(u.created_at, Some(at));
}

#[test]
fn create_hands_out_rising_ids() {
    let mut t = UserTable::new();
    let a = create(&mut t, "a", "a@x.com", None);
    let b = create(&mut t, "b", "b@x.com", None);
    let c = create(&mut t, "c", "c@x.com", None);
    assert_eq!((a.id, b.id, c.id), (1, 2, 3));
}

#[test]
fn read_all_returns_every_row() {
    let mut t = UserTable::new();
    assert_eq!(t.read_users(None).len(), 0);
    create(&mut t, "a", "a@x.com", None);
    create(&mut t, "b", "b@x.com", None);
    create(&mut t, "c", "c@x.com", None);
    let all = t.read_users(None);
    assert_eq!(all.len(), 3);
    assert_eq!(all.len(), t.len());
    assert_eq!(all[1].username, "b");
}

#[test]
fn read_by_id_finds_one_or_none() {
    let mut t = UserTable::new();
    create(&mut t, "a", "a@x.com", None);
    let b = create(&mut t, "b", "b@x.com", None);
    let found = t.read_users(Some(b.id));
    assert_eq!(found.len(), 1);
    assert!(same(&found[0], &b));
    assert_eq!(t.read_users(Some(42)).len(), 0);
}

#[test]
fn update_changes_name_and_email_only() {
    let mut t = UserTable::new();
    let a = create(&mut t, "a", "a@x.com", Some(Timestamp { secs: 5, nanos: 6 }));
    let b = create(&mut t, "b", "b@x.com", None);
    let p = UpdateParams { id: a.id, username: "ann".to_string(), email: "ann@x.com".to_string() };
    let u = t.update_user(p).unwrap();
    assert_eq!(u.id, a.id);
    assert_eq!(u.username, "ann");
    assert_eq!(u.email, "ann@x.com");
    assert_eq!(u.created_at, Some(Timestamp { secs: 5, nanos: 6 }));
    assert!(same(&t.read_users(Some(a.id))[0], &u));
    assert!(same(&t.read_users(Some(b.id))[0], &b));
    assert_eq!(t.len(), 2);
}

#[test]
fn update_of_missing_id_is_not_found() {
    let mut t = UserTable::new();
    create(&mut t, "a", "a@x.com", None);
    let p = UpdateParams { id: 9, username: "z".to_string(), email: "z@x.com".to_string() };
    assert_eq!(t.update_user(p).unwrap_err(), UserError::NotFound);
    assert_eq!(t.read_users(None)[0].username, "a");
}

#[test]
fn delete_returns_row_and_removes_it() {
    let mut t = UserTable::new();
    let a = create(&mut t, "a", "a@x.com", None);
    let b = create(&mut t, "b", "b@x.com", None);
    let gone = t.delete_user(Some(a.id)).unwrap();
    assert!(same(&gone, &a));
    assert_eq!(t.read_users(Some(a.id)).len(), 0);
    let rest = t.read_users(None);
    assert_eq!(rest.len(), 1);
    assert!(same(&rest[0], &b));
}

#[test]
fn delete_twice_fails_the_second_time() {
    let mut t = UserTable::new();
    let a = create(&mut t, "a", "a@x.com", None);
    assert!(t.delete_user(Some(a.id)).is_ok());
    assert_eq!(t.delete_user(Some(a.id)).unwrap_err(), UserError::NotFound);
    assert_eq!(t.len(), 0);
}

#[test]
fn delete_without_id_is_missing_id() {
    let mut t = UserTable::new();
    create(&mut t, "a", "a@x.com", None);
    assert_eq!(t.delete_user(None).unwrap_err(), UserError::MissingId);
    assert_eq!(t.len(), 1);
    assert!(matches!(plan_delete(None), Err(UserError::MissingId)));
}

#[test]
fn ids_are_not_reused_after_delete() {
    let mut t = UserTable::new();
    let a = create(&mut t, "a", "a@x.com", None);
    t.delete_user(Some(a.id)).unwrap();
    let b = create(&mut t, "b", "b@x.com", None);
    assert_eq!(b.id, 2);
}

#[test]
fn insert_sql_names_only_given_columns() {
    assert_eq!(
        build_insert_sql(false),
        "INSERT INTO users (username, email) VALUES ($1, $2) RETURNING id, username, email, created_at"
    );
    assert_eq!(
        build_insert_sql(true),
        "INSERT INTO users (username, email, created_at) VALUES ($1, $2, $3) RETURNING id, username, email, created_at"
    );
}

#[test]
fn planned_statements_have_their_text_and_params() {
    let at = Timestamp { secs: 10, nanos: 0 };
    let s = plan_create(CreateParams {
        username: "a".to_string(),
        email: "a@x.com".to_string(),
        created_at: Some(at),
    });
    let params = s.params();
    assert_eq!(params.len(), 3);
    assert!(matches!(&params[0], SqlValue::Text(x) if x == "a"));
    assert!(matches!(&params[1], SqlValue::Text(x) if x == "a@x.com"));
    assert!(matches!(&params[2], SqlValue::Time(x) if *x == at));

    let r = plan_read(None);
    assert!(matches!(r, Statement::SelectAll));
    assert_eq!(r.sql(), "SELECT id, username, email, created_at FROM users");
    assert_eq!(r.params().len(), 0);

    let r = plan_read(Some(7));
    assert_eq!(r.sql(), "SELECT id, username, email, created_at FROM users WHERE id = $1");
    assert!(matches!(r.params()[0], SqlValue::Int(7)));

    let u = plan_update(UpdateParams { id: 3, username: "n".to_string(), email: "e".to_string() });
    assert_eq!(
        u.sql(),
        "UPDATE users SET username = $1, email = $2 WHERE id = $3 RETURNING id, username, email, created_at"
    );
    let p = u.params();
    assert!(matches!(&p[0], SqlValue::Text(x) if x == "n"));
    assert!(matches!(&p[1], SqlValue::Text(x) if x == "e"));
    assert!(matches!(p[2], SqlValue::Int(3)));

    let d = plan_delete(Some(4)).unwrap();
    assert_eq!(d.sql(), "DELETE FROM users WHERE id = $1 RETURNING id, username, email, created_at");
    assert!(matches!(d.params()[0], SqlValue::Int(4)));
}

#[test]
fn expect_row_takes_the_first_or_not_found() {
    assert_eq!(expect_row(Vec::new()).unwrap_err(), UserError::NotFound);
    let rows = vec![
        User { id: 5, username: "x".to_string(), email: "x@y".to_string(), created_at: None },
        User { id: 6, username: "y".to_string(), email: "y@y".to_string(), created_at: None },
    ];
    assert_eq!(expect_row(rows).unwrap().id, 5);
}

#[test]
fn execute_runs_statements_in_memory() {
    let mut t = UserTable::new();
    let now = Timestamp { secs: 3, nanos: 0 };
    let ins = plan_create(CreateParams {
        username: "a".to_string(),
        email: "a@x.com".to_string(),
        created_at: None,
    });
    let rows = t.execute(&ins, now).unwrap();
    assert_eq!(rows.len(), 1);
    assert_eq!(rows[0].created_at, Some(now));
    let rows = t.execute(&Statement::SelectById { id: 2 }, now).unwrap();
    assert_eq!(rows.len(), 0);
    let rows = t.execute(&Statement::Delete { id: 1 }, now).unwrap();
    assert_eq!(rows[0].username, "a");
    assert_eq!(t.execute(&Statement::SelectAll, now).unwrap().len(), 0);
}

#[test]
fn timestamp_checks_nanos() {
    assert_eq!(Timestamp::new(1, 5), Some(Timestamp { secs: 1, nanos: 5 }));
    assert_eq!(Timestamp::new(1, 2_000_000_000), None);
}

#[test]
fn duplicate_copies_every_field() {
    let u = User { id: 2, username: "q".to_string(), email: "q@q".to_string(), created_at: None };
    assert!(same(&u.duplicate(), &u));
}
