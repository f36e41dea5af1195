use vstd::prelude::*;

verus! {

/// A persisted row of the `users` table.
///
/// `id` is assigned by the storage layer on insert and never changes
/// afterwards; `created_at` is filled in by the storage default at insert
/// time and is never mutated through this interface.
#[derive(Debug)]
pub struct User {
    pub id: i32,
    pub name: String,
    pub last_name: String,
    pub created_at: String,
    pub is_active: Option<i16>,
}

/// Mathematical image of a `User` row: the same fields as plain values.
pub ghost struct UserView {
    pub id: int,
    pub name: Seq<char>,
    pub last_name: Seq<char>,
    pub created_at: Seq<char>,
    pub is_active: Option<i16>,
}

impl View for User {
    type V = UserView;

    open spec fn view(&self) -> UserView {
        UserView {
            id: self.id as int,
            name: self.name@,
            last_name: self.last_name@,
            created_at: self.created_at@,
            is_active: self.is_active,
        }
    }
}

impl Clone for User {
    fn clone(&self) -> (r: Self)
        ensures
            r@ == self@,
    {
        User {
            id: self.id,
            name: self.name.clone(),
            last_name: self.last_name.clone(),
            created_at: self.created_at.clone(),
            is_active: self.is_active,
        }
    }
}

/// The creation payload: everything a caller supplies for a new row.
#[derive(Debug)]
pub struct NewUser {
    pub name: String,
    pub last_name: String,
    pub is_active: i16,
}

/// Mathematical image of a creation payload.
pub ghost struct NewUserView {
    pub name: Seq<char>,
    pub last_name: Seq<char>,
    pub is_active: i16,
}

impl View for NewUser {
    type V = NewUserView;

    open spec fn view(&self) -> NewUserView {
        NewUserView { name: self.name@, last_name: self.last_name@, is_active: self.is_active }
    }
}

impl Clone for NewUser {
    fn clone(&self) -> (r: Self)
        ensures
            r@ == self@,
    {
        NewUser {
            name: self.name.clone(),
            last_name: self.last_name.clone(),
            is_active: self.is_active,
        }
    }
}

} // verus!
