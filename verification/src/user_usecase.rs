//! The user use case: the sign-in policy. Look the user up, compare the
//! stored password with the given one exactly (the store holds passwords
//! in plaintext), and issue a session token — the username itself, the
//! weak scheme this system ships with. Three outcomes, told apart by the
//! return shape: error, no session, session with token.

use vstd::prelude::*;

use crate::types::StoreError;
use crate::user::{lookup_user, opt_user_view, LoginUserRequest, User, UserView};
use crate::user_interface::UserInterface;

verus! {

pub open spec fn opt_string_view(o: Option<String>) -> Option<Seq<char>> {
    match o {
        Some(s) => Some(s@),
        None => None,
    }
}

/// The session that a sign-in against the given table owes: the token for
/// the first row carrying the username, if its password matches exactly,
/// and no session otherwise.
pub open spec fn session_for(
    users: Seq<UserView>,
    username: Seq<char>,
    password: Seq<char>,
) -> Option<Seq<char>> {
    match lookup_user(users, username) {
        Some(u) => if u.password == password {
            Some(u.username)
        } else {
            None
        },
        None => None,
    }
}

/// The sign-in decision on the outcome of the lookup: a session token for
/// a found user whose password matches exactly, and no session otherwise.
pub fn resolve_session(found: Option<User>, password: &String) -> (r: Option<String>)
    ensures
        opt_string_view(r) == (match opt_user_view(found) {
            Some(u) => if u.password == password@ {
                Some(u.username)
            } else {
                None
            },
            None => None,
        }),
{
    match found {
        Some(user) => {
            if user.password == *password {
                Some(user.username)
            } else {
                None
            }
        },
        None => None,
    }
}

/// The service contract the transport layer programs against.
pub trait UserService: Sized {
    /// The user rows visible through the service, in insertion order.
    spec fn users(&self) -> Seq<UserView>;

    /// Signs a user in. Whenever a result comes back, it is exactly the
    /// session the table owes: absence of the user and a wrong password
    /// are both "no session", never an error.
    fn signin(&self, payload: LoginUserRequest) -> (r: Result<Option<String>, StoreError>)
        ensures
            (r matches Ok(session) ==> opt_string_view(session) == session_for(
                self.users(),
                payload.username@,
                payload.password@,
            )),
    ;
}

/// A user service over an injected store capability.
pub struct UserUseCase<T: UserInterface> {
    repository: T,
}

impl<T: UserInterface> UserUseCase<T> {
    pub fn new(repository: T) -> (r: Self)
        ensures
            r.users() == repository.users(),
    {
        UserUseCase { repository }
    }
}

impl<T: UserInterface> UserService for UserUseCase<T> {
    closed spec fn users(&self) -> Seq<UserView> {
        self.repository.users()
    }

    fn signin(&self, payload: LoginUserRequest) -> (r: Result<Option<String>, StoreError>) {
        match self.repository.find_by_username(payload.username) {
            Ok(found) => Ok(resolve_session(found, &payload.password)),
            Err(e) => Err(e),
        }
    }
}

/// A sign-in with a username that no row holds yields no session — it is
/// not an error.
pub proof fn lemma_signin_unknown_user(users: Seq<UserView>, username: Seq<char>, password: Seq<char>)
    requires
        lookup_user(users, username) is None,
    ensures
        session_for(users, username, password) is None,
{
}

/// A sign-in with a wrong password yields no session — it is not an error.
pub proof fn lemma_signin_wrong_password(
    users: Seq<UserView>,
    username: Seq<char>,
    password: Seq<char>,
)
    requires
        (match lookup_user(users, username) {
            Some(u) => u.password != password,
            None => true,
        }),
    ensures
        session_for(users, username, password) is None,
{
}

/// A sign-in with a known, non-empty username and its password yields a
/// session, and the token is non-empty.
pub proof fn lemma_signin_grants_session(
    users: Seq<UserView>,
    username: Seq<char>,
    password: Seq<char>,
)
    requires
        (lookup_user(users, username) matches Some(u) && u.password == password),
        username.len() > 0,
    ensures
        (session_for(users, username, password) matches Some(token) && token.len() > 0),
{
    crate::user::lemma_lookup_user_found(users, username);
}

} // verus!
