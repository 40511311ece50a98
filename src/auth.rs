use vstd::prelude::*;

use crate::error::ApiError;
use crate::ids::Id;

verus! {

/// How long an issued token stays valid, in seconds.
pub const TOKEN_LIFETIME_SECS: i64 = 3600;

/// What a signed token asserts: who the bearer is and until when.
#[derive(Clone, Copy, Debug, PartialEq, Eq, Structural)]
pub struct Claims {
    /// The user the token was issued to.
    pub sub: Id,
    /// Unix time in seconds after which the token is no longer accepted.
    pub exp: u64,
}

/// The user a request acts for, once its token has been checked.
#[derive(Clone, Copy, Debug, PartialEq, Eq, Structural)]
pub struct AuthenticatedUser(pub Claims);

/// Relies on chrono::Utc::now and DateTime::timestamp: the current Unix time
/// in seconds. It comes from the system clock; nothing is known of it.
#[verifier::external_body]
fn now_unix() -> (r: i64) {
    chrono::Utc::now().timestamp()
}

impl Claims {
    /// The token has run out at time `now`.
    pub open spec fn spec_expired(self, now: i64) -> bool {
        now > self.exp
    }

    /// Claims for `user_id` issued at Unix time `now`, valid for
    /// `TOKEN_LIFETIME_SECS`. There are none when the expiry would fall
    /// before 1970.
    pub fn issue_at(user_id: Id, now: i64) -> (r: Option<Claims>)
        ensures
            r is Some <==> now + TOKEN_LIFETIME_SECS >= 0,
            r is Some ==> r == Some(Claims { sub: user_id, exp: (now + TOKEN_LIFETIME_SECS) as u64 }),
    {
        let exp: i128 = now as i128 + TOKEN_LIFETIME_SECS as i128;
        if exp < 0 {
            None
        } else {
            Some(Claims { sub: user_id, exp: exp as u64 })
        }
    }

    /// Claims for `user_id`, issued now.
    pub fn issue(user_id: Id) -> (r: Option<Claims>)
        ensures
            r is Some ==> r->Some_0.sub == user_id,
    {
        Claims::issue_at(user_id, now_unix())
    }

    /// Whether the token has run out at time `now`.
    pub fn is_expired(&self, now: i64) -> (r: bool)
        ensures
            r == self.spec_expired(now),
    {
        now >= 0 && now as u64 > self.exp
    }
}

/// The prefix of an `Authorization` header that carries a bearer token.
pub open spec fn bearer_prefix() -> Seq<char> {
    seq!['B', 'e', 'a', 'r', 'e', 'r', ' ']
}

/// The token of an `Authorization` header of the form `Bearer <token>`.
pub fn bearer_token(header: &str) -> (r: Option<&str>)
    ensures
        r is Some <==> header@.len() >= 7 && header@.take(7) == bearer_prefix(),
        r is Some ==> r->Some_0@ == header@.skip(7),
{
    let prefix = "Bearer ";
    proof {
        reveal_strlit("Bearer ");
    }
    assert(prefix@ == bearer_prefix());
    let n = header.unicode_len();
    if n < 7 {
        return None;
    }
    let mut i: usize = 0;
    while i < 7
        invariant
            n == header@.len(),
            n >= 7,
            prefix@ == bearer_prefix(),
            i <= 7,
            forall|j: int| 0 <= j < i ==> #[trigger] header@[j] == bearer_prefix()[j],
        decreases 7 - i,
    {
        if header.get_char(i) != prefix.get_char(i) {
            assert(header@.take(7)[i as int] != bearer_prefix()[i as int]);
            return None;
        }
        i = i + 1;
    }
    assert(header@.take(7) =~= bearer_prefix());
    let token = header.substring_char(7, n);
    assert(token@ =~= header@.skip(7));
    Some(token)
}

/// What checking a token yields at time `now`: `decoded` is what the
/// signature check gave, `None` for a token that is missing, malformed or
/// wrongly signed.
pub open spec fn token_outcome(decoded: Option<Claims>, now: i64) -> Result<AuthenticatedUser, ApiError> {
    match decoded {
        Some(c) => if c.spec_expired(now) {
            Err(ApiError::Unauthorized)
        } else {
            Ok(AuthenticatedUser(c))
        },
        None => Err(ApiError::Unauthorized),
    }
}

impl AuthenticatedUser {
    /// Accepts the claims of a token whose signature checked out, unless
    /// they have run out at time `now`. `None` stands for a token that is
    /// missing, malformed or wrongly signed.
    pub fn from_claims(decoded: Option<Claims>, now: i64) -> (r: Result<AuthenticatedUser, ApiError>)
        ensures
            r == token_outcome(decoded, now),
    {
        match decoded {
            Some(c) => {
                if c.is_expired(now) {
                    Err(ApiError::Unauthorized)
                } else {
                    Ok(AuthenticatedUser(c))
                }
            },
            None => Err(ApiError::Unauthorized),
        }
    }

    /// As `from_claims`, at the current time.
    pub fn from_token_claims(decoded: Option<Claims>) -> (r: Result<AuthenticatedUser, ApiError>)
        ensures
            decoded is None ==> r == Err::<AuthenticatedUser, ApiError>(ApiError::Unauthorized),
            r is Ok ==> decoded == Some(r->Ok_0.0),
            r is Err ==> r == Err::<AuthenticatedUser, ApiError>(ApiError::Unauthorized),
    {
        AuthenticatedUser::from_claims(decoded, now_unix())
    }

    /// The user the request acts for.
    pub fn user_id(&self) -> (r: Id)
        ensures
            r == self.0.sub,
    {
        self.0.sub
    }
}

/// The ownership check that guards every order and payment operation:
/// `actor` may act on a resource only if it is the resource's known owner.
pub fn authorize_owner(actor: Id, owner: Option<Id>) -> (r: Result<(), ApiError>)
    ensures
        r == if owner == Some(actor) {
            Ok::<(), ApiError>(())
        } else {
            Err::<(), ApiError>(ApiError::Forbidden)
        },
{
    match owner {
        Some(o) if o == actor => Ok(()),
        _ => Err(ApiError::Forbidden),
    }
}

} // verus!
