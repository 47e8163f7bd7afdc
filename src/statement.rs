use crate::model::{CreateParams, Timestamp, UpdateParams, User, UserError, UserModel};
use vstd::prelude::*;
use vstd::string::StringExecFns;

verus! {

/// A value bound to a placeholder (`$1`, `$2`, ...) of a statement.
#[derive(Debug)]
pub enum SqlValue {
    Int(i32),
    Text(String),
    Time(Timestamp),
}

/// What a bound value holds.
pub enum SqlValueModel {
    Int(i32),
    Text(Seq<char>),
    Time(Timestamp),
}

impl View for SqlValue {
    type V = SqlValueModel;

    open spec fn view(&self) -> SqlValueModel {
        match self {
            SqlValue::Int(n) => SqlValueModel::Int(*n),
            SqlValue::Text(s) => SqlValueModel::Text(s@),
            SqlValue::Time(t) => SqlValueModel::Time(*t),
        }
    }
}

/// The one statement that a request runs against the `users` table. Each
/// returns the rows it read, inserted, changed or removed.
#[derive(Debug)]
pub enum Statement {
    /// Add a row; the table picks its `id`, and its `created_at` when none is given.
    Insert { username: String, email: String, created_at: Option<Timestamp> },
    /// Read every row.
    SelectAll,
    /// Read the rows with this `id`.
    SelectById { id: i32 },
    /// Set `username` and `email` of the rows with this `id`.
    Update { id: i32, username: String, email: String },
    /// Remove the rows with this `id`.
    Delete { id: i32 },
}

/// What a statement says.
pub enum StatementModel {
    Insert { username: Seq<char>, email: Seq<char>, created_at: Option<Timestamp> },
    SelectAll,
    SelectById { id: i32 },
    Update { id: i32, username: Seq<char>, email: Seq<char> },
    Delete { id: i32 },
}

impl View for Statement {
    type V = StatementModel;

    open spec fn view(&self) -> StatementModel {
        match self {
            Statement::Insert { username, email, created_at } => StatementModel::Insert {
                username: username@,
                email: email@,
                created_at: *created_at,
            },
            Statement::SelectAll => StatementModel::SelectAll,
            Statement::SelectById { id } => StatementModel::SelectById { id: *id },
            Statement::Update { id, username, email } => StatementModel::Update {
                id: *id,
                username: username@,
                email: email@,
            },
            Statement::Delete { id } => StatementModel::Delete { id: *id },
        }
    }
}

/// The columns that every statement hands back, in order.
pub open spec fn returning_clause() -> Seq<char> {
    " RETURNING id, username, email, created_at"@
}

/// The INSERT text: `created_at` is named, and given a placeholder, only
/// where the request sets it.
pub open spec fn insert_sql(with_created_at: bool) -> Seq<char> {
    "INSERT INTO users (username, email"@ + (if with_created_at {
        ", created_at"@
    } else {
        ""@
    }) + ") VALUES ($1, $2"@ + (if with_created_at {
        ", $3"@
    } else {
        ""@
    }) + ")"@ + returning_clause()
}

/// The SQL text of a statement.
pub open spec fn sql_text(s: StatementModel) -> Seq<char> {
    match s {
        StatementModel::Insert { created_at, .. } => insert_sql(created_at is Some),
        StatementModel::SelectAll => "SELECT id, username, email, created_at FROM users"@,
        StatementModel::SelectById { .. } =>
            "SELECT id, username, email, created_at FROM users WHERE id = $1"@,
        StatementModel::Update { .. } => "UPDATE users SET username = $1, email = $2 WHERE id = $3"@
            + returning_clause(),
        StatementModel::Delete { .. } => "DELETE FROM users WHERE id = $1"@ + returning_clause(),
    }
}

/// The values bound to the placeholders of a statement, `$1` first.
pub open spec fn sql_params(s: StatementModel) -> Seq<SqlValueModel> {
    match s {
        StatementModel::Insert { username, email, created_at } => match created_at {
            Some(t) => seq![
                SqlValueModel::Text(username),
                SqlValueModel::Text(email),
                SqlValueModel::Time(t),
            ],
            None => seq![SqlValueModel::Text(username), SqlValueModel::Text(email)],
        },
        StatementModel::SelectAll => seq![],
        StatementModel::SelectById { id } => seq![SqlValueModel::Int(id)],
        StatementModel::Update { id, username, email } => seq![
            SqlValueModel::Text(username),
            SqlValueModel::Text(email),
            SqlValueModel::Int(id),
        ],
        StatementModel::Delete { id } => seq![SqlValueModel::Int(id)],
    }
}

pub open spec fn values_view(v: Seq<SqlValue>) -> Seq<SqlValueModel> {
    v.map_values(|x: SqlValue| x@)
}

fn returning(mut s: String) -> (r: String)
    ensures
        r@ == s@ + returning_clause(),
{
    s.append(" RETURNING id, username, email, created_at");
    s
}

/// Builds the INSERT text from the set of columns that the request fills.
pub fn build_insert_sql(with_created_at: bool) -> (r: String)
    ensures
        r@ == insert_sql(with_created_at),
{
    let mut s = String::from_str("INSERT INTO users (username, email");
    if with_created_at {
        s.append(", created_at");
    } else {
        s.append("");
    }
    s.append(") VALUES ($1, $2");
    if with_created_at {
        s.append(", $3");
    } else {
        s.append("");
    }
    s.append(")");
    returning(s)
}

impl Statement {
    /// The SQL text to send for this statement.
    pub fn sql(&self) -> (r: String)
        ensures
            r@ == sql_text(self@),
    {
        match self {
            Statement::Insert { created_at, .. } => build_insert_sql(created_at.is_some()),
            Statement::SelectAll => String::from_str(
                "SELECT id, username, email, created_at FROM users",
            ),
            Statement::SelectById { .. } => String::from_str(
                "SELECT id, username, email, created_at FROM users WHERE id = $1",
            ),
            Statement::Update { .. } => returning(
                String::from_str("UPDATE users SET username = $1, email = $2 WHERE id = $3"),
            ),
            Statement::Delete { .. } => returning(
                String::from_str("DELETE FROM users WHERE id = $1"),
            ),
        }
    }

    /// The values to bind, `$1` first.
    pub fn params(&self) -> (r: Vec<SqlValue>)
        ensures
            values_view(r@) == sql_params(self@),
    {
        let mut v: Vec<SqlValue> = Vec::new();
        match self {
            Statement::Insert { username, email, created_at } => {
                v.push(SqlValue::Text(username.clone()));
                v.push(SqlValue::Text(email.clone()));
                match created_at {
                    Some(t) => v.push(SqlValue::Time(*t)),
                    None => {},
                }
            },
            Statement::SelectAll => {},
            Statement::SelectById { id } => v.push(SqlValue::Int(*id)),
            Statement::Update { id, username, email } => {
                v.push(SqlValue::Text(username.clone()));
                v.push(SqlValue::Text(email.clone()));
                v.push(SqlValue::Int(*id));
            },
            Statement::Delete { id } => v.push(SqlValue::Int(*id)),
        }
        assert(values_view(v@) =~= sql_params(self@));
        v
    }
}

/// The statement that a create request runs.
pub fn plan_create(p: CreateParams) -> (r: Statement)
    ensures
        r@ == (StatementModel::Insert {
            username: p.username@,
            email: p.email@,
            created_at: p.created_at,
        }),
{
    Statement::Insert { username: p.username, email: p.email, created_at: p.created_at }
}

/// The statement that a read request runs: one row by `id`, or all rows.
pub fn plan_read(id: Option<i32>) -> (r: Statement)
    ensures
        r@ == (match id {
            Some(k) => StatementModel::SelectById { id: k },
            None => StatementModel::SelectAll,
        }),
{
    match id {
        Some(k) => Statement::SelectById { id: k },
        None => Statement::SelectAll,
    }
}

/// The statement that an update request runs.
pub fn plan_update(p: UpdateParams) -> (r: Statement)
    ensures
        r@ == (StatementModel::Update { id: p.id, username: p.username@, email: p.email@ }),
{
    Statement::Update { id: p.id, username: p.username, email: p.email }
}

/// The statement that a delete request runs; a delete must name its `id`.
pub fn plan_delete(id: Option<i32>) -> (r: Result<Statement, UserError>)
    ensures
        match id {
            Some(k) => r matches Ok(s) && s@ == (StatementModel::Delete { id: k }),
            None => r == Err::<Statement, UserError>(UserError::MissingId),
        },
{
    match id {
        Some(k) => Ok(Statement::Delete { id: k }),
        None => Err(UserError::MissingId),
    }
}

/// The one row that a statement is expected to hand back: its first,
/// or `NotFound` where it handed back none.
pub open spec fn first_row(rows: Seq<UserModel>) -> Result<UserModel, UserError> {
    if rows.len() > 0 {
        Ok(rows[0])
    } else {
        Err(UserError::NotFound)
    }
}

pub open spec fn user_result_view(r: Result<User, UserError>) -> Result<UserModel, UserError> {
    match r {
        Ok(u) => Ok(u@),
        Err(e) => Err(e),
    }
}

pub open spec fn users_view(v: Seq<User>) -> Seq<UserModel> {
    v.map_values(|u: User| u@)
}

/// The row of a create, update or delete: the first one handed back.
pub fn expect_row(rows: Vec<User>) -> (r: Result<User, UserError>)
    ensures
        user_result_view(r) == first_row(users_view(rows@)),
{
    let mut rows = rows;
    if rows.len() > 0 {
        Ok(rows.swap_remove(0))
    } else {
        Err(UserError::NotFound)
    }
}

} // verus!
