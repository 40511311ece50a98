use vstd::prelude::*;

use crate::auth::Claims;
use crate::error::ApiError;
use crate::ids::{fresh_id, Id};
use crate::text::text_eq;

verus! {

/// A registered user. `password` holds the salted bcrypt hash, never the
/// password itself.
#[derive(Clone, Debug, PartialEq, Eq)]
pub struct User {
    pub id: Id,
    pub name: String,
    pub email: String,
    pub password: String,
}

/// The fields a client sends to register.
#[derive(Clone, Debug, PartialEq, Eq)]
pub struct CreateUserRequest {
    pub name: String,
    pub email: String,
    pub password: String,
}

/// The credentials a client sends to log in.
#[derive(Clone, Debug, PartialEq, Eq)]
pub struct LoginRequest {
    pub email: String,
    pub password: String,
}

/// What bcrypt::verify says of `password` against the stored `hash`:
/// `Some(matches)`, or `None` when `hash` cannot be read as a bcrypt hash.
pub uninterp spec fn bcrypt_verdict(password: Seq<char>, hash: Seq<char>) -> Option<bool>;

/// The shape of a bcrypt hash made at cost 12: the prefix `$2b$12$` and 53
/// characters of salt and digest.
pub open spec fn bcrypt_shaped(s: Seq<char>) -> bool {
    &&& s.len() == 60
    &&& s.take(7) == seq!['$', '2', 'b', '$', '1', '2', '$']
}

/// Relies on bcrypt::hash at bcrypt::DEFAULT_COST (12): a hash under a fresh
/// random salt, formatted as `$2b$12$` then 22 salt and 31 digest characters.
/// The cost and salt are written into the string, and bcrypt::verify reads
/// them back and recomputes through the same routine, so the hash verifies
/// against `password`. It fails only when the system's randomness does.
#[verifier::external_body]
fn hash_password(password: &str) -> (r: Option<String>)
    ensures
        r is Some ==> bcrypt_shaped(r->Some_0@),
        r is Some ==> bcrypt_verdict(password@, r->Some_0@) == Some(true),
{
    bcrypt::hash(password, bcrypt::DEFAULT_COST).ok()
}

/// Relies on bcrypt::verify: re-hashes `password` under the salt and cost
/// read from `hash` and compares; the outcome depends on the two strings
/// alone.
#[verifier::external_body]
fn verify_password(password: &str, hash: &str) -> (r: Option<bool>)
    ensures
        r == bcrypt_verdict(password@, hash@),
{
    bcrypt::verify(password, hash).ok()
}

/// Some user in `users` has the address `email`.
pub open spec fn email_taken(users: Seq<User>, email: Seq<char>) -> bool {
    exists|i: int| 0 <= i < users.len() && #[trigger] users[i].email@ == email
}

/// No two users share an address.
pub open spec fn emails_unique(users: Seq<User>) -> bool {
    forall|i: int, j: int|
        0 <= i < users.len() && 0 <= j < users.len() && i != j ==> #[trigger] users[i].email@
            != #[trigger] users[j].email@
}

/// A login attempt for the stored user `found` is admitted: the hash check
/// said the password matches.
pub open spec fn admitted(found: Option<User>, verdict: Option<bool>) -> bool {
    found is Some && verdict == Some(true)
}

/// Once a user has registered with an address, that address is taken:
/// registering it again is refused.
pub proof fn lemma_email_registered_once(users: Seq<User>, first: User, email: Seq<char>)
    requires
        first.email@ == email,
    ensures
        email_taken(users.push(first), email),
{
    assert(users.push(first)[users.len() as int] == first);
}

/// Registration keeps addresses unique: adding a user whose address was not
/// taken leaves no two users sharing one.
pub proof fn lemma_registration_keeps_emails_unique(users: Seq<User>, new_user: User)
    requires
        emails_unique(users),
        !email_taken(users, new_user.email@),
    ensures
        emails_unique(users.push(new_user)),
{
    let all = users.push(new_user);
    assert forall|i: int, j: int|
        0 <= i < all.len() && 0 <= j < all.len() && i != j implies #[trigger] all[i].email@
        != #[trigger] all[j].email@ by {
        if i == users.len() {
            assert(all[j] == users[j]);
        } else if j == users.len() {
            assert(all[i] == users[i]);
        } else {
            assert(all[i] == users[i] && all[j] == users[j]);
        }
    }
}

/// The stored form of a password never equals a password that does not
/// itself have the shape of a bcrypt hash.
pub proof fn lemma_stored_password_differs(stored: Seq<char>, password: Seq<char>)
    requires
        bcrypt_shaped(stored),
        !bcrypt_shaped(password),
    ensures
        stored != password,
{
}

/// Decides a login attempt from what the hash check said: a match admits
/// the user, a mismatch or an unknown address admits nobody, and an
/// unreadable stored hash is a storage fault.
pub fn check_credentials(found: Option<User>, verdict: Option<bool>) -> (r: Result<Option<User>, ApiError>)
    ensures
        found is Some && verdict is None ==> r == Err::<Option<User>, ApiError>(ApiError::Storage),
        !(found is Some && verdict is None) ==> r == Ok::<Option<User>, ApiError>(
            if admitted(found, verdict) {
                found
            } else {
                None
            },
        ),
{
    match found {
        None => Ok(None),
        Some(u) => match verdict {
            Some(true) => Ok(Some(u)),
            Some(false) => Ok(None),
            None => Err(ApiError::Storage),
        },
    }
}

impl User {
    /// Whether some user in `users` has the address `email`.
    pub fn email_exists(users: &Vec<User>, email: &str) -> (r: bool)
        ensures
            r == email_taken(users@, email@),
    {
        let n = users.len();
        let mut i: usize = 0;
        while i < n
            invariant
                n == users@.len(),
                i <= n,
                forall|j: int| 0 <= j < i ==> #[trigger] users@[j].email@ != email@,
            decreases n - i,
        {
            if text_eq(users[i].email.as_str(), email) {
                return true;
            }
            i = i + 1;
        }
        false
    }

    /// A new user with a fresh identifier; only the bcrypt hash of
    /// `password` is kept. Fails with a storage fault only when hashing
    /// fails.
    pub fn create_user(name: &str, email: &str, password: &str) -> (r: Result<User, ApiError>)
        ensures
            r is Err ==> r == Err::<User, ApiError>(ApiError::Storage),
            r is Ok ==> {
                let u = r->Ok_0;
                &&& u.name@ == name@
                &&& u.email@ == email@
                &&& bcrypt_shaped(u.password@)
                &&& bcrypt_verdict(password@, u.password@) == Some(true)
                &&& !bcrypt_shaped(password@) ==> u.password@ != password@
            },
    {
        match hash_password(password) {
            None => Err(ApiError::Storage),
            Some(hashed) => Ok(
                User { id: fresh_id(), name: name.to_owned(), email: email.to_owned(), password: hashed },
            ),
        }
    }

    /// Checks `password` against the stored user `found` (the user with the
    /// address given, if any).
    pub fn authenticate_user(found: Option<User>, password: &str) -> (r: Result<Option<User>, ApiError>)
        ensures
            found is None ==> r == Ok::<Option<User>, ApiError>(None),
            found is Some && bcrypt_verdict(password@, found->Some_0.password@) is None ==> r == Err::<
                Option<User>,
                ApiError,
            >(ApiError::Storage),
            found is Some && bcrypt_verdict(password@, found->Some_0.password@) is Some ==> r == Ok::<
                Option<User>,
                ApiError,
            >(
                if admitted(found, bcrypt_verdict(password@, found->Some_0.password@)) {
                    found
                } else {
                    None
                },
            ),
    {
        match found {
            None => Ok(None),
            Some(u) => {
                let verdict = verify_password(password, u.password.as_str());
                check_credentials(Some(u), verdict)
            },
        }
    }
}

/// Registers a new user. `existing` holds the stored users with the
/// requested address, or all stored users; if any has that address the
/// request is refused.
pub fn create_user(existing: &Vec<User>, user_data: &CreateUserRequest) -> (r: Result<User, ApiError>)
    ensures
        email_taken(existing@, user_data.email@) ==> r == Err::<User, ApiError>(ApiError::Conflict),
        !email_taken(existing@, user_data.email@) ==> r is Ok || r == Err::<User, ApiError>(
            ApiError::Storage,
        ),
        r is Ok ==> {
            let u = r->Ok_0;
            &&& u.name@ == user_data.name@
            &&& u.email@ == user_data.email@
            &&& bcrypt_shaped(u.password@)
            &&& bcrypt_verdict(user_data.password@, u.password@) == Some(true)
            &&& !bcrypt_shaped(user_data.password@) ==> u.password@ != user_data.password@
            &&& !email_taken(existing@, u.email@)
        },
{
    if User::email_exists(existing, user_data.email.as_str()) {
        return Err(ApiError::Conflict);
    }
    User::create_user(user_data.name.as_str(), user_data.email.as_str(), user_data.password.as_str())
}

/// Logs a user in: `found` is the stored user with the address given, if
/// any. On success the claims of a fresh token for that user come back; a
/// wrong password or an unknown address is refused without saying which.
pub fn login_user(found: Option<User>, login_data: &LoginRequest) -> (r: Result<Claims, ApiError>)
    ensures
        r is Ok ==> found is Some && bcrypt_verdict(login_data.password@, found->Some_0.password@) == Some(
            true,
        ) && r->Ok_0.sub == found->Some_0.id,
        found is None ==> r == Err::<Claims, ApiError>(ApiError::Unauthorized),
        found is Some ==> match bcrypt_verdict(login_data.password@, found->Some_0.password@) {
            Some(true) => r is Ok || r == Err::<Claims, ApiError>(ApiError::Storage),
            Some(false) => r == Err::<Claims, ApiError>(ApiError::Unauthorized),
            None => r == Err::<Claims, ApiError>(ApiError::Storage),
        },
{
    match User::authenticate_user(found, login_data.password.as_str()) {
        Err(e) => Err(e),
        Ok(None) => Err(ApiError::Unauthorized),
        Ok(Some(user)) => match Claims::issue(user.id) {
            Some(claims) => Ok(claims),
            None => Err(ApiError::Storage),
        },
    }
}

} // verus!
