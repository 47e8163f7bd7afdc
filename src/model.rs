use vstd::prelude::*;

verus! {

/// A point in time with no time zone: whole seconds since
/// 1970-01-01T00:00:00 and the nanoseconds past that second (a leap second
/// counts its nanoseconds from one billion on).
#[derive(Clone, Copy, Debug, PartialEq, Eq, Structural)]
pub struct Timestamp {
    pub secs: i64,
    pub nanos: u32,
}

impl Timestamp {
    /// The timestamp `secs` seconds and `nanos` nanoseconds after the epoch,
    /// or `None` where `nanos` is out of range.
    pub fn new(secs: i64, nanos: u32) -> (r: Option<Timestamp>)
        ensures
            r == (if nanos < 2_000_000_000 {
                Some(Timestamp { secs, nanos })
            } else {
                None::<Timestamp>
            }),
    {
        if nanos < 2_000_000_000 {
            Some(Timestamp { secs, nanos })
        } else {
            None
        }
    }
}

/// One row of the `users` table.
#[derive(Debug)]
pub struct User {
    pub id: i32,
    pub username: String,
    pub email: String,
    pub created_at: Option<Timestamp>,
}

/// What a row of the `users` table holds.
pub struct UserModel {
    pub id: i32,
    pub username: Seq<char>,
    pub email: Seq<char>,
    pub created_at: Option<Timestamp>,
}

impl View for User {
    type V = UserModel;

    open spec fn view(&self) -> UserModel {
        UserModel {
            id: self.id,
            username: self.username@,
            email: self.email@,
            created_at: self.created_at,
        }
    }
}

impl User {
    /// A copy of this row.
    pub fn duplicate(&self) -> (r: User)
        ensures
            r@ == self@,
    {
        User {
            id: self.id,
            username: self.username.clone(),
            email: self.email.clone(),
            created_at: self.created_at,
        }
    }
}

/// The body of a create request: `created_at` is left to the table when absent.
#[derive(Debug)]
pub struct CreateParams {
    pub username: String,
    pub email: String,
    pub created_at: Option<Timestamp>,
}

/// The body of an update request: the row `id` gets `username` and `email`.
#[derive(Debug)]
pub struct UpdateParams {
    pub id: i32,
    pub username: String,
    pub email: String,
}

/// Why a request could not be served.
#[derive(Clone, Copy, Debug, PartialEq, Eq, Structural)]
pub enum UserError {
    /// The request names no `id` where one is required.
    MissingId,
    /// No row has the requested `id`.
    NotFound,
    /// Every `id` the table can hand out has been used.
    IdsExhausted,
}

} // verus!
