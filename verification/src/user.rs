//! The User entity and its mathematical model.

use vstd::prelude::*;

verus! {

/// A user row. Read-only from this system's perspective: the core only
/// looks users up by username.
#[derive(Debug)]
pub struct User {
    pub id: i64,
    pub username: String,
    pub password: String,
}

/// The mathematical model of a user row.
pub ghost struct UserView {
    pub id: int,
    pub username: Seq<char>,
    pub password: Seq<char>,
}

impl View for User {
    type V = UserView;

    open spec fn view(&self) -> UserView {
        UserView { id: self.id as int, username: self.username@, password: self.password@ }
    }
}

impl Clone for User {
    fn clone(&self) -> (res: Self)
        ensures
            res == *self,
    {
        User {
            id: self.id,
            username: self.username.clone(),
            password: self.password.clone(),
        }
    }
}

/// The request body of the sign-in endpoint.
#[derive(Debug)]
pub struct LoginUserRequest {
    pub username: String,
    pub password: String,
}

/// The model of a whole user table: its rows, in insertion order.
pub open spec fn users_view(rows: Seq<User>) -> Seq<UserView> {
    rows.map_values(|u: User| u@)
}

pub open spec fn opt_user_view(o: Option<User>) -> Option<UserView> {
    match o {
        Some(u) => Some(u@),
        None => None,
    }
}

/// The first row whose username matches, or nothing: the meaning of a
/// lookup by username against the table.
pub open spec fn lookup_user(s: Seq<UserView>, username: Seq<char>) -> Option<UserView>
    decreases s.len(),
{
    if s.len() == 0 {
        None
    } else if s[0].username == username {
        Some(s[0])
    } else {
        lookup_user(s.drop_first(), username)
    }
}

/// A found row carries the username it was looked up by.
pub proof fn lemma_lookup_user_found(s: Seq<UserView>, username: Seq<char>)
    ensures
        (match lookup_user(s, username) {
            Some(u) => u.username == username,
            None => true,
        }),
    decreases s.len(),
{
    if s.len() != 0 && s[0].username != username {
        lemma_lookup_user_found(s.drop_first(), username);
    }
}

} // verus!
