use crate::model::{Timestamp, UserError, UserModel};
use crate::table::{
    create_spec, created_as, delete_spec, has_id, id_is_not, lemma_none_with_id,
    lemma_one_with_id, read_spec, rows_with_id, rows_without_id, update_spec, TableModel, MAX_ID,
};
use vstd::prelude::*;

verus! {

/// A create on a table with ids left succeeds; the row it returns has a
/// fresh positive `id`, the given fields, a `created_at` that is the given
/// one unchanged or else the table's clock, and a read by its `id` then
/// finds exactly that row.
pub proof fn law_create(
    t: TableModel,
    username: Seq<char>,
    email: Seq<char>,
    created_at: Option<Timestamp>,
    now: Timestamp,
)
    requires
        t.wf(),
        t.next_id <= MAX_ID,
    ensures
        create_spec(t, username, email, created_at, now).1 matches Ok(u) && created_as(
            u,
            t,
            username,
            email,
            created_at,
            now,
        ) && read_spec(create_spec(t, username, email, created_at, now).0, Some(u.id)) == seq![u],
        create_spec(t, username, email, created_at, now).0.wf(),
{
    let (t2, r) = create_spec(t, username, email, created_at, now);
    let i = t.rows.len() as int;
    assert(t2.rows[i].id == t.next_id);
    lemma_one_with_id(t2.rows, 0, t2.next_id, i);
}

/// A read without an `id` returns every row.
pub proof fn law_read_all(t: TableModel)
    ensures
        read_spec(t, None).len() == t.rows.len(),
{
}

/// A read by the `id` of a row returns that row alone; a read by an `id`
/// that no row has returns nothing.
pub proof fn law_read_by_id(t: TableModel, id: i32)
    requires
        t.wf(),
    ensures
        forall|i: int|
            0 <= i < t.rows.len() && #[trigger] t.rows[i].id == id ==> read_spec(t, Some(id))
                == seq![t.rows[i]],
        !has_id(t.rows, id) ==> read_spec(t, Some(id)).len() == 0,
{
    if !has_id(t.rows, id) {
        lemma_none_with_id(t.rows, id);
    }
    assert forall|i: int| 0 <= i < t.rows.len() && #[trigger] t.rows[i].id == id implies read_spec(
        t,
        Some(id),
    ) == seq![t.rows[i]] by {
        lemma_one_with_id(t.rows, 0, t.next_id, i);
    }
}

/// An update of an existing row sets its `username` and `email`, keeps its
/// `id` and `created_at`, returns it as changed, and leaves every other row
/// as it was; an update of an `id` that no row has fails with `NotFound`
/// and changes nothing.
pub proof fn law_update(t: TableModel, id: i32, username: Seq<char>, email: Seq<char>)
    requires
        t.wf(),
    ensures
        ({
            let (t2, r) = update_spec(t, id, username, email);
            &&& t2.wf()
            &&& t2.rows.len() == t.rows.len()
            &&& forall|i: int|
                0 <= i < t.rows.len() && #[trigger] t.rows[i].id == id ==> {
                    &&& t2.rows[i] == (UserModel {
                        id,
                        username,
                        email,
                        created_at: t.rows[i].created_at,
                    })
                    &&& r == Ok::<UserModel, UserError>(t2.rows[i])
                }
            &&& forall|j: int| 0 <= j < t.rows.len() && t.rows[j].id != id ==> #[trigger] t2.rows[j] == t.rows[j]
            &&& !has_id(t.rows, id) ==> t2 == t && r == Err::<UserModel, UserError>(UserError::NotFound)
        }),
{
    let (t2, r) = update_spec(t, id, username, email);
    assert forall|j: int| 0 <= j < t2.rows.len() implies #[trigger] t2.rows[j].id == t.rows[j].id by {}
    assert forall|i: int| 0 <= i < t.rows.len() && #[trigger] t.rows[i].id == id implies r == Ok::<UserModel, UserError>(t2.rows[i]) by {
        lemma_one_with_id(t2.rows, 0, t2.next_id, i);
    }
    if !has_id(t.rows, id) {
        assert(t2.rows =~= t.rows);
        lemma_none_with_id(t2.rows, id);
    }
}

/// Deleting an existing row returns it as it was, and a read by its `id`
/// afterwards finds nothing.
pub proof fn law_delete(t: TableModel, i: int)
    requires
        t.wf(),
        0 <= i < t.rows.len(),
    ensures
        delete_spec(t, Some(t.rows[i].id)).1 == Ok::<UserModel, UserError>(t.rows[i]),
        read_spec(delete_spec(t, Some(t.rows[i].id)).0, Some(t.rows[i].id)).len() == 0,
        delete_spec(t, Some(t.rows[i].id)).0.rows.len() == t.rows.len() - 1,
{
    let id = t.rows[i].id;
    let t2 = delete_spec(t, Some(id)).0;
    lemma_one_with_id(t.rows, 0, t.next_id, i);
    lemma_gone(t, id);
    lemma_split_len(t.rows, id);
}

/// A second delete of the same `id` fails with `NotFound` and changes nothing.
pub proof fn law_delete_twice(t: TableModel, id: i32)
    requires
        t.wf(),
        has_id(t.rows, id),
    ensures
        delete_spec(t, Some(id)).1 is Ok,
        delete_spec(delete_spec(t, Some(id)).0, Some(id)).1 == Err::<UserModel, UserError>(
            UserError::NotFound,
        ),
        delete_spec(delete_spec(t, Some(id)).0, Some(id)).0 == delete_spec(t, Some(id)).0,
{
    let i = choose|i: int| 0 <= i < t.rows.len() && t.rows[i].id == id;
    law_delete(t, i);
    let t1 = delete_spec(t, Some(id)).0;
    lemma_gone(t, id);
    lemma_filter_none_kept(t1.rows, id);
}

proof fn lemma_gone(t: TableModel, id: i32)
    ensures
        !has_id(delete_spec(t, Some(id)).0.rows, id),
        read_spec(delete_spec(t, Some(id)).0, Some(id)).len() == 0,
{
    let t2 = delete_spec(t, Some(id)).0;
    assert(!has_id(t2.rows, id)) by {
        if has_id(t2.rows, id) {
            let j = choose|j: int| 0 <= j < t2.rows.len() && t2.rows[j].id == id;
            t.rows.lemma_filter_pred(id_is_not(id), j);
        }
    }
    lemma_none_with_id(t2.rows, id);
}

/// Where no row has `id`, removing the rows with `id` keeps every row.
proof fn lemma_filter_none_kept(s: Seq<UserModel>, id: i32)
    requires
        !has_id(s, id),
    ensures
        rows_without_id(s, id) == s,
    decreases s.len(),
{
    reveal(Seq::filter);
    if s.len() > 0 {
        let t = s.drop_last();
        assert(!has_id(t, id)) by {
            if has_id(t, id) {
                let j = choose|j: int| 0 <= j < t.len() && t[j].id == id;
                assert(s[j].id == id);
            }
        }
        lemma_filter_none_kept(t, id);
        assert(t.push(s.last()) =~= s);
    }
}

/// The rows with `id` and the rows without it are all the rows.
proof fn lemma_split_len(s: Seq<UserModel>, id: i32)
    ensures
        rows_with_id(s, id).len() + rows_without_id(s, id).len() == s.len(),
    decreases s.len(),
{
    reveal(Seq::filter);
    if s.len() > 0 {
        lemma_split_len(s.drop_last(), id);
    }
}

} // verus!
