use vstd::prelude::*;

use crate::models::{NewUser, NewUserView, User, UserView};

verus! {

/// The ids of the rows in `s` are strictly descending: the stored order is
/// the largest-id-first order, and every id occurs at most once.
pub open spec fn ids_strictly_desc(s: Seq<UserView>) -> bool {
    forall|i: int, j: int| 0 <= i < j < s.len() ==> s[i].id > s[j].id
}

/// Whether some row of `s` carries the id `id`.
pub open spec fn contains_id(s: Seq<UserView>, id: int) -> bool {
    exists|i: int| 0 <= i < s.len() && s[i].id == id
}

/// The id the storage assigns to the next inserted row: one more than the
/// largest id present, or 1 for an empty table.
pub open spec fn next_id(s: Seq<UserView>) -> int {
    if s.len() == 0 {
        1
    } else {
        s[0].id + 1
    }
}

/// The next assigned id still fits in an `i32`.
pub open spec fn next_id_fits(s: Seq<UserView>) -> bool {
    next_id(s) <= i32::MAX
}

/// The row the storage produces when the payload `nu` is inserted into a
/// table whose rows are `s`, with `ts` as the insert-time default timestamp.
pub open spec fn inserted_view(s: Seq<UserView>, nu: NewUserView, ts: Seq<char>) -> UserView {
    UserView {
        id: next_id(s),
        name: nu.name,
        last_name: nu.last_name,
        created_at: ts,
        is_active: Some(nu.is_active),
    }
}

/// `base` with its two mutable columns replaced: only `name` and `last_name`
/// change; `id`, `created_at` and `is_active` are those of `base`.
pub open spec fn renamed_view(base: UserView, name: Seq<char>, last_name: Seq<char>) -> UserView {
    UserView { name: name, last_name: last_name, ..base }
}

/// Two distinct positions of a strictly descending table never carry the
/// same id.
pub proof fn lemma_id_index_unique(s: Seq<UserView>, i: int, j: int)
    requires
        ids_strictly_desc(s),
        0 <= i < s.len(),
        0 <= j < s.len(),
        s[i].id == s[j].id,
    ensures
        i == j,
{
    if i < j {
        assert(s[i].id > s[j].id);
    } else if j < i {
        assert(s[j].id > s[i].id);
    }
}

/// In-memory model of the `users` table.
///
/// The rows are kept sorted by id, largest first, which makes the stored
/// order the listing order and keeps ids unique. Inserting assigns the next
/// id and fills `created_at` from the supplied default, as the storage
/// backend does.
pub struct UsersTable {
    rows: Vec<User>,
}

impl View for UsersTable {
    type V = Seq<UserView>;

    closed spec fn view(&self) -> Seq<UserView> {
        self.rows@.map_values(|u: User| u@)
    }
}

impl UsersTable {
    /// The table's invariant: strictly descending ids.
    pub open spec fn wf(&self) -> bool {
        ids_strictly_desc(self@)
    }

    /// An empty table.
    pub fn new() -> (t: Self)
        ensures
            t.wf(),
            t@ == Seq::<UserView>::empty(),
    {
        let t = UsersTable { rows: Vec::new() };
        proof {
            assert(t@ =~= Seq::<UserView>::empty());
        }
        t
    }

    /// The number of rows.
    pub fn len(&self) -> (n: usize)
        ensures
            n == self@.len(),
    {
        self.rows.len()
    }

    /// The row at position `i` in stored (descending id) order.
    pub fn row(&self, i: usize) -> (u: &User)
        requires
            i < self@.len(),
        ensures
            u@ == self@[i as int],
    {
        &self.rows[i]
    }

    /// Inserts a new row: the storage assigns `next_id` and stamps
    /// `created_at` with the supplied default. The new row carries the
    /// largest id, so it stands first.
    pub fn insert_new(&mut self, nu: NewUser, created_at: String)
        requires
            old(self).wf(),
            next_id_fits(old(self)@),
        ensures
            final(self).wf(),
            final(self)@ == seq![inserted_view(old(self)@, nu@, created_at@)] + old(self)@,
    {
        let ghost t0 = self@;
        let ghost nu0 = nu@;
        let ghost ts0 = created_at@;
        let id: i32 = if self.rows.len() == 0 {
            1
        } else {
            proof {
                assert(self@[0] == self.rows@.map_values(|u: User| u@)[0]);
            }
            self.rows[0].id + 1
        };
        let row = User {
            id: id,
            name: nu.name,
            last_name: nu.last_name,
            created_at: created_at,
            is_active: Some(nu.is_active),
        };
        self.rows.insert(0, row);
        proof {
            assert(self@ =~= seq![inserted_view(t0, nu0, ts0)] + t0);
            assert forall|i: int, j: int| 0 <= i < j < self@.len() implies self@[i].id
                > self@[j].id by {
                if i == 0 {
                    assert(self@[j] == t0[j - 1]);
                    if j >= 2 {
                        assert(t0[0].id > t0[j - 1].id);
                    }
                } else {
                    assert(self@[i] == t0[i - 1]);
                    assert(self@[j] == t0[j - 1]);
                }
            }
        }
    }

    /// Replaces the row at position `i` by `row`, which must keep the id of
    /// the row it replaces.
    pub fn replace_at(&mut self, i: usize, row: User)
        requires
            old(self).wf(),
            i < old(self)@.len(),
            row@.id == old(self)@[i as int].id,
        ensures
            final(self).wf(),
            final(self)@ == old(self)@.update(i as int, row@),
    {
        let ghost t0 = self@;
        self.rows.set(i, row);
        proof {
            assert(self@ =~= t0.update(i as int, row@));
            assert forall|p: int, q: int| 0 <= p < q < self@.len() implies self@[p].id
                > self@[q].id by {
                assert(t0[p].id > t0[q].id);
            }
        }
    }

    /// Removes the row at position `i`.
    pub fn remove_at(&mut self, i: usize)
        requires
            old(self).wf(),
            i < old(self)@.len(),
        ensures
            final(self).wf(),
            final(self)@ == old(self)@.remove(i as int),
    {
        let ghost t0 = self@;
        self.rows.remove(i);
        proof {
            assert(self@ =~= t0.remove(i as int));
            assert forall|p: int, q: int| 0 <= p < q < self@.len() implies self@[p].id
                > self@[q].id by {
                let p0 = if p < i { p } else { p + 1 };
                let q0 = if q < i { q } else { q + 1 };
                assert(self@[p] == t0[p0]);
                assert(self@[q] == t0[q0]);
                assert(t0[p0].id > t0[q0].id);
            }
        }
    }
}

} // verus!
