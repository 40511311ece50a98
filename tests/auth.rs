use shopfront::auth::{bearer_token, AuthenticatedUser, Claims, TOKEN_LIFETIME_SECS};
use shopfront::error::ApiError;
use shopfront::ids::Id;

#[test]
fn expired_token_is_unauthorized() {
    let claims = Claims { sub: Id::from_u128(3), exp: 1_000 };
    assert_eq!(AuthenticatedUser::from_claims(Some(claims), 1_001), Err(ApiError::Unauthorized));
    assert_eq!(AuthenticatedUser::from_token_claims(Some(claims)), Err(ApiError::Unauthorized));
}

#[test]
fn token_is_accepted_until_its_expiry() {
    let claims = Claims { sub: Id::from_u128(3), exp: 1_000 };
    let user = AuthenticatedUser::from_claims(Some(claims), 1_000).unwrap();
    assert_eq!(user.user_id(), Id::from_u128(3));
    assert!(AuthenticatedUser::from_claims(Some(claims), 999).is_ok());
    assert!(!claims.is_expired(1_000));
    assert!(claims.is_expired(1_001));
}

#[test]
fn missing_or_bad_token_is_unauthorized() {
    assert_eq!(AuthenticatedUser::from_claims(None, 0), Err(ApiError::Unauthorized));
    assert_eq!(AuthenticatedUser::from_token_claims(None), Err(ApiError::Unauthorized));
}

#[test]
fn fresh_claims_are_accepted_now() {
    let claims = Claims::issue(Id::from_u128(8)).unwrap();
    assert_eq!(claims.sub, Id::from_u128(8));
    assert!(claims.exp > 1_700_000_000);
    assert_eq!(AuthenticatedUser::from_token_claims(Some(claims)), Ok(AuthenticatedUser(claims)));
}

#[test]
fn claims_expire_an_hour_after_issue() {
    assert_eq!(TOKEN_LIFETIME_SECS, 3600);
    assert_eq!(
        Claims::issue_at(Id::from_u128(8), 1_700_000_000),
        Some(Claims { sub: Id::from_u128(8), exp: 1_700_003_600 })
    );
    assert_eq!(Claims::issue_at(Id::from_u128(8), -3_600), Some(Claims { sub: Id::from_u128(8), exp: 0 }));
    assert_eq!(Claims::issue_at(Id::from_u128(8), -3_601), None);
    assert_eq!(
        Claims::issue_at(Id::from_u128(8), i64::MAX),
        Some(Claims { sub: Id::from_u128(8), exp: i64::MAX as u64 + 3600 })
    );
}

#[test]
fn bearer_prefix_is_stripped() {
    assert_eq!(bearer_token("Bearer abc.def.ghi"), Some("abc.def.ghi"));
    assert_eq!(bearer_token("Bearer "), Some(""));
    assert_eq!(bearer_token("bearer abc"), None);
    assert_eq!(bearer_token("Basic abc"), None);
    assert_eq!(bearer_token("Bearer"), None);
    assert_eq!(bearer_token(""), None);
}
