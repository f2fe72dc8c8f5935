//! The concrete user store: an in-memory table. The core exposes no way
//! to create users, so the table is handed its rows at construction.

use vstd::prelude::*;

use crate::types::StoreError;
use crate::user::{lookup_user, opt_user_view, users_view, User, UserView};
use crate::user_interface::UserInterface;

verus! {

/// A user table held in memory, queried by username only.
pub struct UserRepository {
    rows: Vec<User>,
}

impl UserRepository {
    /// A table holding exactly the given rows.
    pub fn new(users: Vec<User>) -> (r: Self)
        ensures
            r.users() == users_view(users@),
    {
        UserRepository { rows: users }
    }

    /// The first row whose username matches, or absence — never an error.
    pub fn find_by_username(&self, username: String) -> (r: Result<Option<User>, StoreError>)
        ensures
            r is Ok,
            (r matches Ok(found) ==> opt_user_view(found) == lookup_user(
                self.users(),
                username@,
            )),
    {
        let ghost all = self.users();
        proof {
            assert(all.len() == self.rows@.len());
            assert(all.skip(0) =~= all);
        }
        let mut i: usize = 0;
        while i < self.rows.len()
            invariant
                i <= self.rows@.len(),
                all == self.users(),
                lookup_user(all, username@) == lookup_user(all.skip(i as int), username@),
            decreases self.rows@.len() - i,
        {
            if self.rows[i].username == username {
                let u = self.rows[i].clone();
                proof {
                    assert(all.skip(i as int)[0] == all[i as int]);
                    assert(all[i as int] == self.rows@[i as int]@);
                }
                return Ok(Some(u));
            }
            proof {
                assert(all.skip(i as int)[0] == all[i as int]);
                assert(all[i as int] == self.rows@[i as int]@);
                assert(all.skip(i as int).drop_first() =~= all.skip(i as int + 1));
            }
            i = i + 1;
        }
        proof {
            assert(all.skip(i as int).len() == 0);
        }
        Ok(None)
    }
}

impl UserInterface for UserRepository {
    /// The rows of the table, in insertion order.
    closed spec fn users(&self) -> Seq<UserView> {
        users_view(self.rows@)
    }

    fn find_by_username(&self, username: String) -> (r: Result<Option<User>, StoreError>) {
        UserRepository::find_by_username(self, username)
    }
}

} // verus!
