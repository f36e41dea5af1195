use vstd::prelude::*;

use crate::models::{NewUser, NewUserView, User, UserView};
use crate::table::{
    contains_id, ids_strictly_desc, inserted_view, lemma_id_index_unique, next_id, next_id_fits,
    renamed_view, UsersTable,
};

verus! {

/// Errors a repository operation can produce. `NotFound` means no row
/// matches a given id; `Storage` carries the message of any other backend
/// failure, which the repository never inspects.
#[derive(Debug)]
pub enum RepoError {
    NotFound,
    Storage(String),
}

/// The creation payload with `is_active` forced to 1: every created user is
/// active, whatever the caller supplied.
pub open spec fn activated(nu: NewUserView) -> NewUserView {
    NewUserView { is_active: 1i16, ..nu }
}

/// The five persistence operations of the users resource, each taking the
/// table model in place of a storage connection.
pub struct UserRepository;

impl UserRepository {
    /// The creation payload as `create` stores it: `is_active` forced to 1.
    pub fn activate(new_user: NewUser) -> (r: NewUser)
        ensures
            r@ == activated(new_user@),
    {
        NewUser { name: new_user.name, last_name: new_user.last_name, is_active: 1 }
    }

    /// All rows, in stored order: by id, largest first.
    pub fn get_all(table: &UsersTable) -> (r: Result<Vec<User>, RepoError>)
        requires
            table.wf(),
        ensures
            r matches Ok(users) && users@.map_values(|u: User| u@) == table@,
            r matches Ok(users) ==> forall|i: int, j: int|
                0 <= i < j < users@.len() ==> users@[i]@.id > users@[j]@.id,
    {
        let n = table.len();
        let mut users: Vec<User> = Vec::new();
        let mut i: usize = 0;
        while i < n
            invariant
                table.wf(),
                n == table@.len(),
                i <= n,
                users@.len() == i,
                forall|k: int| 0 <= k < i ==> users@[k]@ == table@[k],
            decreases n - i,
        {
            users.push(table.row(i).clone());
            i += 1;
        }
        proof {
            assert(users@.map_values(|u: User| u@) =~= table@);
            assert forall|p: int, q: int|
                0 <= p < q < users@.len() implies users@[p]@.id > users@[q]@.id by {
                assert(users@[p]@ == table@[p]);
                assert(users@[q]@ == table@[q]);
            }
        }
        Ok(users)
    }

    /// The single row whose id is `id`, or `NotFound` if no row carries it.
    pub fn get_by_id(table: &UsersTable, id: i32) -> (r: Result<User, RepoError>)
        ensures
            (match r {
                Ok(u) => exists|k: int|
                    0 <= k < table@.len() && table@[k].id == id as int && u@ == table@[k],
                Err(e) => e == RepoError::NotFound && !contains_id(table@, id as int),
            }),
    {
        match Self::find_index(table, id) {
            Some(k) => Ok(table.row(k).clone()),
            None => Err(RepoError::NotFound),
        }
    }

    /// Inserts `new_user` with `is_active` forced to 1, then re-reads the
    /// row carrying the largest id and returns it. `created_at` is the
    /// insert-time default the storage stamps on the new row.
    pub fn create(table: &mut UsersTable, new_user: NewUser, created_at: String) -> (r: Result<
        User,
        RepoError,
    >)
        requires
            old(table).wf(),
            next_id_fits(old(table)@),
        ensures
            final(table).wf(),
            r matches Ok(u) && u@ == inserted_view(old(table)@, activated(new_user@), created_at@)
                && u@.is_active == Some(1i16) && u@.id == next_id(old(table)@) && final(table)@
                == seq![u@] + old(table)@,
    {
        let ghost t0 = table@;
        let active_user = Self::activate(new_user);
        table.insert_new(active_user, created_at);
        let last_id = match Self::last_inserted_id(table) {
            Ok(i) => i,
            Err(e) => {
                // unreachable: the insert has left the table nonempty
                return Err(e);
            },
        };
        let r = Self::get_by_id(table, last_id);
        match r {
            Ok(u) => {
                proof {
                    let k = choose|k: int|
                        0 <= k < table@.len() && table@[k].id == last_id as int && u@ == table@[k];
                    lemma_id_index_unique(table@, k, 0);
                    assert(seq![u@] + t0 =~= table@);
                }
                Ok(u)
            },
            Err(e) => {
                proof {
                    assert(table@[0].id == last_id as int);
                    assert(contains_id(table@, last_id as int));
                }
                // unreachable: the row just inserted carries `last_id`
                Err(e)
            },
        }
    }

    /// Replaces `name` and `last_name` of the row whose id is `user.id`,
    /// then re-reads and returns the full row. `id`, `created_at` and
    /// `is_active` of the row are untouched. `NotFound` if no row matches,
    /// and the table is then unchanged.
    pub fn update(table: &mut UsersTable, user: User) -> (r: Result<User, RepoError>)
        requires
            old(table).wf(),
        ensures
            final(table).wf(),
            (match r {
                Ok(u) => exists|k: int|
                    0 <= k < old(table)@.len() && old(table)@[k].id == user@.id
                        && u@ == renamed_view(old(table)@[k], user@.name, user@.last_name)
                        && final(table)@ == old(table)@.update(k, u@),
                Err(e) => e == RepoError::NotFound && !contains_id(old(table)@, user@.id)
                    && final(table)@ == old(table)@,
            }),
    {
        let ghost t0 = table@;
        let k = match Self::find_index(table, user.id) {
            Some(k) => k,
            None => {
                return Err(RepoError::NotFound);
            },
        };
        let current = table.row(k);
        let row = User {
            id: current.id,
            name: user.name.clone(),
            last_name: user.last_name.clone(),
            created_at: current.created_at.clone(),
            is_active: current.is_active,
        };
        proof {
            assert(row@ == renamed_view(t0[k as int], user@.name, user@.last_name));
        }
        table.replace_at(k, row);
        let r = Self::get_by_id(table, user.id);
        match r {
            Ok(u) => {
                proof {
                    let m = choose|m: int|
                        0 <= m < table@.len() && table@[m].id == user.id as int && u@ == table@[m];
                    lemma_id_index_unique(table@, m, k as int);
                }
                Ok(u)
            },
            Err(e) => {
                proof {
                    assert(table@[k as int].id == user@.id);
                    assert(contains_id(table@, user@.id));
                }
                // unreachable: the row just updated carries `user.id`
                Err(e)
            },
        }
    }

    /// Deletes the row whose id is `id` and returns how many rows were
    /// affected: 1 if a row matched, 0 — and no error — if none did. After
    /// the call no row carries `id`.
    pub fn delete(table: &mut UsersTable, id: i32) -> (r: Result<usize, RepoError>)
        requires
            old(table).wf(),
        ensures
            final(table).wf(),
            !contains_id(final(table)@, id as int),
            contains_id(old(table)@, id as int) ==> (r matches Ok(n) && n == 1 && exists|k: int|
                0 <= k < old(table)@.len() && old(table)@[k].id == id as int && final(table)@
                    == old(table)@.remove(k)),
            !contains_id(old(table)@, id as int) ==> (r matches Ok(n) && n == 0 && final(table)@
                == old(table)@),
    {
        let ghost t0 = table@;
        match Self::find_index(table, id) {
            Some(k) => {
                table.remove_at(k);
                proof {
                    assert forall|m: int|
                        0 <= m < table@.len() implies table@[m].id != id as int by {
                        let m0 = if m < k { m } else { m + 1 };
                        assert(table@[m] == t0[m0]);
                        if t0[m0].id == id as int {
                            lemma_id_index_unique(t0, m0, k as int);
                        }
                    }
                }
                Ok(1)
            },
            None => Ok(0),
        }
    }

    /// The largest id in the table — the id of the most recently inserted
    /// row — or `NotFound` for an empty table.
    fn last_inserted_id(table: &UsersTable) -> (r: Result<i32, RepoError>)
        ensures
            (match r {
                Ok(id) => table@.len() > 0 && id as int == table@[0].id,
                Err(e) => e == RepoError::NotFound && table@.len() == 0,
            }),
    {
        if table.len() == 0 {
            Err(RepoError::NotFound)
        } else {
            Ok(table.row(0).id)
        }
    }

    /// Law: fetching by the id that `create` assigned returns the very
    /// record `create` returned. `create` leaves behind the created row `u`
    /// prepended to the old rows `t`; in that table every position carrying
    /// the created id holds `u` itself, so the existential in `get_by_id`'s
    /// contract pins the fetched record to `u`.
    pub proof fn lemma_get_by_id_after_create(t: Seq<UserView>, u: UserView, k: int)
        requires
            ids_strictly_desc(seq![u] + t),
            0 <= k < (seq![u] + t).len(),
            (seq![u] + t)[k].id == u.id,
        ensures
            (seq![u] + t)[k] == u,
    {
        assert((seq![u] + t)[0] == u);
        lemma_id_index_unique(seq![u] + t, k, 0);
    }

    /// The position of the row whose id is `id`, if one exists.
    fn find_index(table: &UsersTable, id: i32) -> (r: Option<usize>)
        ensures
            (match r {
                Some(k) => 0 <= k < table@.len() && table@[k as int].id == id as int,
                None => !contains_id(table@, id as int),
            }),
    {
        let n = table.len();
        let mut k: usize = 0;
        while k < n
            invariant
                n == table@.len(),
                k <= n,
                forall|m: int| 0 <= m < k ==> table@[m].id != id as int,
            decreases n - k,
        {
            if table.row(k).id == id {
                return Some(k);
            }
            k += 1;
        }
        None
    }
}

} // verus!
