//! A small users service: the rows of a `users` table, the SQL statements
//! that each request becomes, and an in-memory table that runs those
//! statements, with the request handlers stated and proved over a model of
//! the table.
pub mod laws;
pub mod model;
pub mod statement;
pub mod table;

pub use model::{CreateParams, Timestamp, UpdateParams, User, UserError, UserModel};
pub use statement::{
    build_insert_sql, expect_row, plan_create, plan_delete, plan_read, plan_update, SqlValue,
    Statement,
};
pub use table::{UserTable, MAX_ID};
