use crate::model::{CreateParams, Timestamp, UpdateParams, User, UserError, UserModel};
use crate::statement::{
    expect_row, first_row, plan_create, plan_delete, plan_read, plan_update, user_result_view,
    users_view, Statement, StatementModel,
};
use vstd::prelude::*;

verus! {

/// The largest `id` the table hands out.
pub const MAX_ID: i32 = 2147483647;

/// What the table holds: its rows in order of insertion, and the `id` that
/// the next inserted row gets.
pub struct TableModel {
    pub rows: Seq<UserModel>,
    pub next_id: int,
}

/// Ids rise strictly along `rows` and lie strictly between `lo` and `hi`.
pub open spec fn ids_between(rows: Seq<UserModel>, lo: int, hi: int) -> bool {
    &&& forall|i: int, j: int| 0 <= i < j < rows.len() ==> #[trigger] rows[i].id < #[trigger] rows[j].id
    &&& forall|i: int| 0 <= i < rows.len() ==> lo < #[trigger] rows[i].id < hi
}

impl TableModel {
    /// Every row has a positive `id` below `next_id`, no two rows share an
    /// `id`, and `next_id` is at most one past the largest `id`.
    pub open spec fn wf(&self) -> bool {
        &&& 1 <= self.next_id <= MAX_ID + 1
        &&& ids_between(self.rows, 0, self.next_id)
    }
}

pub open spec fn id_is(id: i32) -> spec_fn(UserModel) -> bool {
    |u: UserModel| u.id == id
}

pub open spec fn id_is_not(id: i32) -> spec_fn(UserModel) -> bool {
    |u: UserModel| u.id != id
}

pub open spec fn rows_with_id(rows: Seq<UserModel>, id: i32) -> Seq<UserModel> {
    rows.filter(id_is(id))
}

pub open spec fn rows_without_id(rows: Seq<UserModel>, id: i32) -> Seq<UserModel> {
    rows.filter(id_is_not(id))
}

pub open spec fn has_id(rows: Seq<UserModel>, id: i32) -> bool {
    exists|i: int| 0 <= i < rows.len() && rows[i].id == id
}

/// A row after an update of the rows with `id`.
pub open spec fn renamed(u: UserModel, id: i32, username: Seq<char>, email: Seq<char>) -> UserModel {
    if u.id == id {
        UserModel { id: u.id, username, email, created_at: u.created_at }
    } else {
        u
    }
}

pub open spec fn rows_renamed(
    rows: Seq<UserModel>,
    id: i32,
    username: Seq<char>,
    email: Seq<char>,
) -> Seq<UserModel> {
    rows.map_values(|u: UserModel| renamed(u, id, username, email))
}

/// The row that an insert adds: the next `id`, and `now` where no
/// `created_at` is given.
pub open spec fn new_row(
    t: TableModel,
    username: Seq<char>,
    email: Seq<char>,
    created_at: Option<Timestamp>,
    now: Timestamp,
) -> UserModel {
    UserModel {
        id: t.next_id as i32,
        username,
        email,
        created_at: Some(
            match created_at {
                Some(c) => c,
                None => now,
            },
        ),
    }
}

/// What running a statement at time `now` does to the table, and the rows
/// it hands back.
pub open spec fn run(t: TableModel, s: StatementModel, now: Timestamp) -> (
    TableModel,
    Result<Seq<UserModel>, UserError>,
) {
    match s {
        StatementModel::Insert { username, email, created_at } => if t.next_id > MAX_ID {
            (t, Err(UserError::IdsExhausted))
        } else {
            let u = new_row(t, username, email, created_at, now);
            (TableModel { rows: t.rows.push(u), next_id: t.next_id + 1 }, Ok(seq![u]))
        },
        StatementModel::SelectAll => (t, Ok(t.rows)),
        StatementModel::SelectById { id } => (t, Ok(rows_with_id(t.rows, id))),
        StatementModel::Update { id, username, email } => {
            let rows = rows_renamed(t.rows, id, username, email);
            (TableModel { rows, next_id: t.next_id }, Ok(rows_with_id(rows, id)))
        },
        StatementModel::Delete { id } => (
            TableModel { rows: rows_without_id(t.rows, id), next_id: t.next_id },
            Ok(rows_with_id(t.rows, id)),
        ),
    }
}

/// A time for the statements whose outcome does not depend on it.
pub open spec fn any_time() -> Timestamp {
    Timestamp { secs: 0, nanos: 0 }
}

/// `u` is the row that a create request on `t` adds: a fresh positive `id`,
/// the given fields, and a `created_at` that is the given one or else `now`.
pub open spec fn created_as(
    u: UserModel,
    t: TableModel,
    username: Seq<char>,
    email: Seq<char>,
    created_at: Option<Timestamp>,
    now: Timestamp,
) -> bool {
    &&& u.id == t.next_id
    &&& u.id >= 1
    &&& u.username == username
    &&& u.email == email
    &&& u.created_at is Some
    &&& created_at is Some ==> u.created_at == created_at
    &&& created_at is None ==> u.created_at == Some(now)
}

/// A create request: the inserted row.
pub open spec fn create_spec(
    t: TableModel,
    username: Seq<char>,
    email: Seq<char>,
    created_at: Option<Timestamp>,
    now: Timestamp,
) -> (TableModel, Result<UserModel, UserError>) {
    let (t2, r) = run(t, StatementModel::Insert { username, email, created_at }, now);
    (
        t2,
        match r {
            Ok(rows) => first_row(rows),
            Err(e) => Err(e),
        },
    )
}

/// A read request: the rows with `id`, or all rows.
pub open spec fn read_spec(t: TableModel, id: Option<i32>) -> Seq<UserModel> {
    match id {
        Some(k) => rows_with_id(t.rows, k),
        None => t.rows,
    }
}

/// An update request: the row with `id` after the change.
pub open spec fn update_spec(t: TableModel, id: i32, username: Seq<char>, email: Seq<char>) -> (
    TableModel,
    Result<UserModel, UserError>,
) {
    let rows = rows_renamed(t.rows, id, username, email);
    (TableModel { rows, next_id: t.next_id }, first_row(rows_with_id(rows, id)))
}

/// A delete request: the removed row as it was.
pub open spec fn delete_spec(t: TableModel, id: Option<i32>) -> (
    TableModel,
    Result<UserModel, UserError>,
) {
    match id {
        None => (t, Err(UserError::MissingId)),
        Some(k) => (
            TableModel { rows: rows_without_id(t.rows, k), next_id: t.next_id },
            first_row(rows_with_id(t.rows, k)),
        ),
    }
}

pub open spec fn rows_result_view(r: Result<Vec<User>, UserError>) -> Result<
    Seq<UserModel>,
    UserError,
> {
    match r {
        Ok(v) => Ok(users_view(v@)),
        Err(e) => Err(e),
    }
}

/// Filtering the first `i + 1` items adds the `i`-th to what filtering the
/// first `i` gave, where it passes.
proof fn lemma_filter_step<A>(s: Seq<A>, p: spec_fn(A) -> bool, i: int)
    requires
        0 <= i < s.len(),
    ensures
        s.subrange(0, i + 1).filter(p) == (if p(s[i]) {
            s.subrange(0, i).filter(p).push(s[i])
        } else {
            s.subrange(0, i).filter(p)
        }),
{
    reveal(Seq::filter);
    assert(s.subrange(0, i + 1).drop_last() =~= s.subrange(0, i));
}

/// Filtering keeps ids rising and in their bounds.
proof fn lemma_filter_ids_between(s: Seq<UserModel>, p: spec_fn(UserModel) -> bool, lo: int, hi: int)
    requires
        ids_between(s, lo, hi),
    ensures
        ids_between(s.filter(p), lo, hi),
    decreases s.len(),
{
    reveal(Seq::filter);
    if s.len() > 0 {
        let t = s.drop_last();
        lemma_filter_ids_between(t, p, lo, s.last().id as int);
        t.lemma_filter_len(p);
    }
}

/// Where no row has `id`, filtering by `id` finds nothing.
pub proof fn lemma_none_with_id(s: Seq<UserModel>, id: i32)
    requires
        !has_id(s, id),
    ensures
        rows_with_id(s, id) == Seq::<UserModel>::empty(),
    decreases s.len(),
{
    reveal(Seq::filter);
    if s.len() > 0 {
        let t = s.drop_last();
        assert(!has_id(t, id)) by {
            if has_id(t, id) {
                let i = choose|i: int| 0 <= i < t.len() && t[i].id == id;
                assert(s[i].id == id);
            }
        }
        lemma_none_with_id(t, id);
    }
    assert(rows_with_id(s, id) =~= Seq::<UserModel>::empty());
}

/// Where ids rise, the row at `i` is the only one with its `id`.
pub proof fn lemma_one_with_id(s: Seq<UserModel>, lo: int, hi: int, i: int)
    requires
        ids_between(s, lo, hi),
        0 <= i < s.len(),
    ensures
        rows_with_id(s, s[i].id) == seq![s[i]],
    decreases s.len(),
{
    reveal(Seq::filter);
    let t = s.drop_last();
    let k = s[i].id;
    if i == s.len() - 1 {
        assert(!has_id(t, k)) by {
            if has_id(t, k) {
                let j = choose|j: int| 0 <= j < t.len() && t[j].id == k;
                assert(s[j].id < s[i].id);
            }
        }
        lemma_none_with_id(t, k);
        assert(rows_with_id(s, k) =~= seq![s[i]]);
    } else {
        assert(t[i] == s[i]);
        lemma_one_with_id(t, lo, hi, i);
        assert(s.last().id != k);
    }
}

/// The `users` table held in memory: it runs the same statements that the
/// service sends to its database.
pub struct UserTable {
    rows: Vec<User>,
    next_id: i64,
}

impl View for UserTable {
    type V = TableModel;

    closed spec fn view(&self) -> TableModel {
        TableModel { rows: users_view(self.rows@), next_id: self.next_id as int }
    }
}

impl UserTable {
    /// An empty table; the first row gets `id` 1.
    pub fn new() -> (r: UserTable)
        ensures
            r@.wf(),
            r@.rows.len() == 0,
            r@.next_id == 1,
    {
        let r = UserTable { rows: Vec::new(), next_id: 1 };
        assert(r@.rows =~= Seq::<UserModel>::empty());
        r
    }

    /// The number of rows.
    pub fn len(&self) -> (r: usize)
        ensures
            r == self@.rows.len(),
    {
        self.rows.len()
    }

    fn insert(
        &mut self,
        username: &String,
        email: &String,
        created_at: Option<Timestamp>,
        now: Timestamp,
    ) -> (r: Result<Vec<User>, UserError>)
        requires
            old(self)@.wf(),
        ensures
            (final(self)@, rows_result_view(r)) == run(
                old(self)@,
                (StatementModel::Insert { username: username@, email: email@, created_at }),
                now,
            ),
            final(self)@.wf(),
    {
        if self.next_id > MAX_ID as i64 {
            return Err(UserError::IdsExhausted);
        }
        let c = match created_at {
            Some(c) => c,
            None => now,
        };
        let u = User {
            id: self.next_id as i32,
            username: username.clone(),
            email: email.clone(),
            created_at: Some(c),
        };
        let ghost before = self@;
        let out = vec![u.duplicate()];
        self.rows.push(u);
        self.next_id = self.next_id + 1;
        assert(self@.rows =~= before.rows.push(out@[0]@));
        assert(users_view(out@) =~= seq![out@[0]@]);
        Ok(out)
    }

    fn select(&self, id: Option<i32>) -> (r: Vec<User>)
        ensures
            users_view(r@) == read_spec(self@, id),
    {
        let mut out: Vec<User> = Vec::new();
        let mut i: usize = 0;
        let ghost all = self@.rows;
        let ghost p = |u: UserModel| id_matches(id, u);
        while i < self.rows.len()
            invariant
                i <= self.rows.len(),
                all == users_view(self.rows@),
                p == (|u: UserModel| id_matches(id, u)),
                users_view(out@) == all.subrange(0, i as int).filter(p),
            decreases self.rows.len() - i,
        {
            proof {
                lemma_filter_step(all, p, i as int);
            }
            let keep = match id {
                Some(k) => self.rows[i].id == k,
                None => true,
            };
            assert(all[i as int] == self.rows@[i as int]@);
            assert(keep == p(all[i as int]));
            if keep {
                let ghost prev = out@;
                out.push(self.rows[i].duplicate());
                assert(users_view(out@) =~= users_view(prev).push(all[i as int]));
            }
            i = i + 1;
        }
        assert(all.subrange(0, all.len() as int) =~= all);
        proof {
            match id {
                Some(k) => {
                    assert(p =~= id_is(k));
                },
                None => {
                    lemma_filter_all(all, p);
                },
            }
        }
        out
    }

    fn update(&mut self, id: i32, username: &String, email: &String) -> (r: Vec<User>)
        requires
            old(self)@.wf(),
        ensures
            (final(self)@, rows_result_view(Ok(r))) == run(
                old(self)@,
                (StatementModel::Update { id, username: username@, email: email@ }),
                any_time(),
            ),
            final(self)@.wf(),
    {
        let ghost all = self@.rows;
        let ghost m = rows_renamed(all, id, username@, email@);
        let mut rows: Vec<User> = Vec::new();
        let mut out: Vec<User> = Vec::new();
        let mut i: usize = 0;
        while i < self.rows.len()
            invariant
                i <= self.rows.len(),
                all == users_view(self.rows@),
                m == rows_renamed(all, id, username@, email@),
                users_view(rows@) == m.subrange(0, i as int),
                users_view(out@) == m.subrange(0, i as int).filter(id_is(id)),
            decreases self.rows.len() - i,
        {
            proof {
                lemma_filter_step(m, id_is(id), i as int);
            }
            let cur = &self.rows[i];
            let u = if cur.id == id {
                User {
                    id: cur.id,
                    username: username.clone(),
                    email: email.clone(),
                    created_at: cur.created_at,
                }
            } else {
                cur.duplicate()
            };
            assert(u@ == m[i as int]);
            let ghost prev_rows = rows@;
            let ghost prev_out = out@;
            if u.id == id {
                out.push(u.duplicate());
                assert(users_view(out@) =~= users_view(prev_out).push(m[i as int]));
            }
            rows.push(u);
            assert(users_view(rows@) =~= m.subrange(0, i as int + 1));
            i = i + 1;
        }
        assert(m.subrange(0, m.len() as int) =~= m);
        self.rows = rows;
        proof {
            assert forall|j: int| 0 <= j < m.len() implies #[trigger] m[j].id == all[j].id by {}
        }
        out
    }

    fn delete(&mut self, id: i32) -> (r: Vec<User>)
        requires
            old(self)@.wf(),
        ensures
            (final(self)@, rows_result_view(Ok(r))) == run(
                old(self)@,
                (StatementModel::Delete { id }),
                any_time(),
            ),
            final(self)@.wf(),
    {
        let ghost all = self@.rows;
        let mut kept: Vec<User> = Vec::new();
        let mut out: Vec<User> = Vec::new();
        let mut i: usize = 0;
        while i < self.rows.len()
            invariant
                i <= self.rows.len(),
                all == users_view(self.rows@),
                users_view(kept@) == all.subrange(0, i as int).filter(id_is_not(id)),
                users_view(out@) == all.subrange(0, i as int).filter(id_is(id)),
            decreases self.rows.len() - i,
        {
            proof {
                lemma_filter_step(all, id_is(id), i as int);
                lemma_filter_step(all, id_is_not(id), i as int);
            }
            assert(all[i as int] == self.rows@[i as int]@);
            let ghost prev_kept = kept@;
            let ghost prev_out = out@;
            if self.rows[i].id == id {
                out.push(self.rows[i].duplicate());
                assert(users_view(out@) =~= users_view(prev_out).push(all[i as int]));
            } else {
                kept.push(self.rows[i].duplicate());
                assert(users_view(kept@) =~= users_view(prev_kept).push(all[i as int]));
            }
            i = i + 1;
        }
        assert(all.subrange(0, all.len() as int) =~= all);
        self.rows = kept;
        proof {
            lemma_filter_ids_between(all, id_is_not(id), 0, self.next_id as int);
        }
        out
    }

    /// Runs one statement at time `now`, which stands for the table's clock
    /// where an insert leaves `created_at` to it.
    pub fn execute(&mut self, s: &Statement, now: Timestamp) -> (r: Result<Vec<User>, UserError>)
        requires
            old(self)@.wf(),
        ensures
            (final(self)@, rows_result_view(r)) == run(old(self)@, s@, now),
            final(self)@.wf(),
    {
        match s {
            Statement::Insert { username, email, created_at } => self.insert(
                username,
                email,
                *created_at,
                now,
            ),
            Statement::SelectAll => Ok(self.select(None)),
            Statement::SelectById { id } => Ok(self.select(Some(*id))),
            Statement::Update { id, username, email } => Ok(self.update(*id, username, email)),
            Statement::Delete { id } => Ok(self.delete(*id)),
        }
    }

    /// Serves a create request at time `now`: the inserted row, with the
    /// next `id`, and `now` as `created_at` where the request gives none.
    pub fn create_user(&mut self, p: CreateParams, now: Timestamp) -> (r: Result<User, UserError>)
        requires
            old(self)@.wf(),
        ensures
            (final(self)@, user_result_view(r)) == create_spec(
                old(self)@,
                p.username@,
                p.email@,
                p.created_at,
                now,
            ),
            final(self)@.wf(),
            r is Ok <==> old(self)@.next_id <= MAX_ID,
            r is Err ==> r == Err::<User, UserError>(UserError::IdsExhausted),
            r matches Ok(u) ==> created_as(u@, old(self)@, p.username@, p.email@, p.created_at, now),
    {
        let s = plan_create(p);
        match self.execute(&s, now) {
            Ok(rows) => {
                let r = expect_row(rows);
                r
            },
            Err(e) => Err(e),
        }
    }

    /// Serves a read request: the row with `id` (none or one), or every row.
    pub fn read_users(&self, id: Option<i32>) -> (r: Vec<User>)
        requires
            self@.wf(),
        ensures
            users_view(r@) == read_spec(self@, id),
            id is None ==> r@.len() == self@.rows.len(),
            id matches Some(k) ==> (!has_id(self@.rows, k) ==> r@.len() == 0),
            id matches Some(k) ==> forall|i: int|
                0 <= i < self@.rows.len() && #[trigger] self@.rows[i].id == k ==> users_view(r@)
                    == seq![self@.rows[i]],
    {
        let s = plan_read(id);
        let r = match s {
            Statement::SelectById { id } => self.select(Some(id)),
            _ => self.select(None),
        };
        proof {
            assert(users_view(r@).len() == r@.len());
            if let Some(k) = id {
                if !has_id(self@.rows, k) {
                    lemma_none_with_id(self@.rows, k);
                }
                assert forall|i: int|
                    0 <= i < self@.rows.len() && #[trigger] self@.rows[i].id == k implies users_view(
                    r@,
                ) == seq![self@.rows[i]] by {
                    lemma_one_with_id(self@.rows, 0, self@.next_id, i);
                }
            }
        }
        r
    }

    /// Serves an update request: the row with `id` after its `username` and
    /// `email` are set, or `NotFound`.
    pub fn update_user(&mut self, p: UpdateParams) -> (r: Result<User, UserError>)
        requires
            old(self)@.wf(),
        ensures
            (final(self)@, user_result_view(r)) == update_spec(
                old(self)@,
                p.id,
                p.username@,
                p.email@,
            ),
            final(self)@.wf(),
    {
        let s = plan_update(p);
        // an update reads no clock
        match self.execute(&s, Timestamp { secs: 0, nanos: 0 }) {
            Ok(rows) => expect_row(rows),
            Err(e) => Err(e),
        }
    }

    /// Serves a delete request: the removed row as it was, `MissingId`
    /// where no `id` is given, or `NotFound`.
    pub fn delete_user(&mut self, id: Option<i32>) -> (r: Result<User, UserError>)
        requires
            old(self)@.wf(),
        ensures
            (final(self)@, user_result_view(r)) == delete_spec(old(self)@, id),
            final(self)@.wf(),
    {
        match plan_delete(id) {
            // a delete reads no clock
            Ok(s) => match self.execute(&s, Timestamp { secs: 0, nanos: 0 }) {
                Ok(rows) => expect_row(rows),
                Err(e) => Err(e),
            },
            Err(e) => Err(e),
        }
    }
}

/// Whether a row is one that a read with `id` hands back.
pub open spec fn id_matches(id: Option<i32>, u: UserModel) -> bool {
    match id {
        Some(k) => u.id == k,
        None => true,
    }

}

/// A filter that keeps everything keeps the sequence.
proof fn lemma_filter_all<A>(s: Seq<A>, p: spec_fn(A) -> bool)
    requires
        forall|x: A| #[trigger] p(x),
    ensures
        s.filter(p) == s,
    decreases s.len(),
{
    reveal(Seq::filter);
    if s.len() > 0 {
        lemma_filter_all(s.drop_last(), p);
        assert(s.drop_last().push(s.last()) =~= s);
    }
}

} // verus!
