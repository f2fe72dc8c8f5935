//! The abstract capability over a user store.

use vstd::prelude::*;

use crate::types::StoreError;
use crate::user::{lookup_user, opt_user_view, User, UserView};

verus! {

/// What a user store must provide: `users` is the model of the rows it
/// holds, and the lookup is specified against that model.
pub trait UserInterface: Sized {
    /// The rows the store holds, in insertion order.
    spec fn users(&self) -> Seq<UserView>;

    /// The matching record, or absence when no row matches; absence is
    /// never an error.
    fn find_by_username(&self, username: String) -> (r: Result<Option<User>, StoreError>)
        ensures
            (r matches Ok(found) ==> opt_user_view(found) == lookup_user(
                self.users(),
                username@,
            )),
    ;
}

} // verus!
