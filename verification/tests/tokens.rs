use chrono::{DateTime, TimeDelta, Utc};
use mudzidzi::auth::{
    bearer_token, issue_tokens_now, prepare_token_issue, refresh_session, refresh_session_id, session_key, session_owner,
    session_ttl_seconds, CurrentUser,
};
use mudzidzi::error::{AppError, ErrorKind};
use mudzidzi::jwt::{
    access_claims, access_token_expiry, new_refresh_claims, refresh_claims, refresh_token_expiry,
    MAX_DELTA_SECONDS, MAX_TIMESTAMP, MIN_TIMESTAMP,
};
use uuid::Uuid;

const USER: u128 = 0x936da01f_9abd_4d9d_80c7_02af85c822a8;
const SESSION: u128 = 0x550e8400_e29b_41d4_a716_446655440000;
const NOW: i64 = 1_780_000_000;

fn unauthorized<T>(r: Result<T, AppError>) -> String {
    let e = match r {
        Ok(_) => panic!("expected a rejection"),
        Err(e) => e,
    };
    assert_eq!(e.kind(), ErrorKind::Unauthorized);
    e.message().to_string()
}

#[test]
fn timestamp_bounds_match_chrono() {
    assert_eq!(DateTime::<Utc>::MIN_UTC.timestamp(), MIN_TIMESTAMP);
    assert_eq!(DateTime::<Utc>::MAX_UTC.timestamp(), MAX_TIMESTAMP);
    assert_eq!(TimeDelta::MAX.num_seconds(), MAX_DELTA_SECONDS);
    assert!(TimeDelta::try_seconds(MAX_DELTA_SECONDS).is_some());
    assert!(TimeDelta::try_seconds(MAX_DELTA_SECONDS + 1).is_none());
}

#[test]
fn expiries_add_the_lifetime() {
    assert_eq!(access_token_expiry(NOW, 15), Some(NOW + 900));
    assert_eq!(refresh_token_expiry(NOW, 30), Some(NOW + 2_592_000));
    assert_eq!(access_token_expiry(NOW, -1), Some(NOW - 60));
    assert_eq!(access_token_expiry(NOW, i64::MAX), None);
    assert_eq!(refresh_token_expiry(NOW, 200_000_000), None);
    let now = DateTime::from_timestamp(NOW, 0).unwrap();
    assert_eq!((now + TimeDelta::days(365 * 1000)).timestamp(), refresh_token_expiry(NOW, 365 * 1000).unwrap());
}

#[test]
fn expiry_bounds_follow_chrono() {
    let near_end = MAX_TIMESTAMP - 100;
    let t = DateTime::from_timestamp(near_end, 0).unwrap();
    assert!(t.checked_add_signed(TimeDelta::minutes(2)).is_none());
    assert_eq!(access_token_expiry(near_end, 2), None);
    assert_eq!(
        t.checked_add_signed(TimeDelta::minutes(1)).map(|x| x.timestamp()),
        access_token_expiry(near_end, 1)
    );
    let near_start = MIN_TIMESTAMP + 100;
    let t = DateTime::from_timestamp(near_start, 0).unwrap();
    assert!(t.checked_add_signed(TimeDelta::minutes(-2)).is_none());
    assert_eq!(access_token_expiry(near_start, -2), None);
    assert_eq!(access_token_expiry(near_start, -1), Some(near_start - 60));
    assert!(TimeDelta::try_minutes(i64::MAX / 60).is_none());
    assert_eq!(access_token_expiry(0, i64::MAX / 60), None);
}

#[test]
fn access_claims_name_the_user() {
    let c = access_claims(USER, "student", NOW, 15);
    assert_eq!(c.sub, Uuid::from_u128(USER).to_string());
    assert_eq!(c.sub, "936da01f-9abd-4d9d-80c7-02af85c822a8");
    assert_eq!(c.role, "student");
    assert_eq!(c.token_type, "access");
    assert_eq!(c.iat, NOW);
    assert_eq!(c.exp, NOW + 900);
    assert_eq!(c.jti, None);
}

#[test]
fn refresh_claims_name_their_session() {
    let c = refresh_claims(USER, "teacher", NOW, 30, SESSION);
    assert_eq!(c.token_type, "refresh");
    assert_eq!(c.exp, NOW + 30 * 86_400);
    assert_eq!(c.jti.as_deref(), Some("550e8400-e29b-41d4-a716-446655440000"));
    let (c2, jti) = new_refresh_claims(USER, "teacher", NOW, 30);
    assert_eq!(Uuid::from_u128(jti).get_version_num(), 4);
    assert_eq!(c2.jti, Some(Uuid::from_u128(jti).to_string()));
}

#[test]
fn bearer_header_rules() {
    assert_eq!(bearer_token(Some("Bearer abc.def")).unwrap(), "abc.def");
    assert_eq!(bearer_token(Some("Bearer ")).unwrap(), "");
    assert_eq!(unauthorized(bearer_token(None)), "Missing Authorization header.");
    assert_eq!(unauthorized(bearer_token(Some("bearer abc"))), "Authorization header must use the Bearer scheme.");
    assert_eq!(unauthorized(bearer_token(Some("Basic abc"))), "Authorization header must use the Bearer scheme.");
}

#[test]
fn access_token_identifies_the_caller() {
    let user = CurrentUser::from_claims(Some(access_claims(USER, "student", NOW, 15))).unwrap();
    assert_eq!(user.user_id, USER);
    assert_eq!(user.role, "student");
}

#[test]
fn caller_rejections() {
    assert_eq!(unauthorized(CurrentUser::from_claims(None)), "Invalid or expired access token.");
    let refresh = refresh_claims(USER, "student", NOW, 30, SESSION);
    assert_eq!(unauthorized(CurrentUser::from_claims(Some(refresh))), "Invalid token type.");
    let mut bad = access_claims(USER, "student", NOW, 15);
    bad.sub = "user-7".to_string();
    assert_eq!(unauthorized(CurrentUser::from_claims(Some(bad))), "Invalid token subject.");
}

#[test]
fn refresh_token_rejections() {
    assert_eq!(unauthorized(refresh_session_id(None)), "Invalid or expired refresh token.");
    let access = access_claims(USER, "student", NOW, 15);
    assert_eq!(unauthorized(refresh_session_id(Some(access))), "Invalid token type.");
    let mut no_jti = refresh_claims(USER, "student", NOW, 30, SESSION);
    no_jti.jti = None;
    assert_eq!(unauthorized(refresh_session_id(Some(no_jti))), "Invalid refresh token.");
}

#[test]
fn session_keys() {
    assert_eq!(session_key("abc"), "refresh_session:abc");
    let s = refresh_session(SESSION, USER, 30);
    assert_eq!(s.key, "refresh_session:550e8400-e29b-41d4-a716-446655440000");
    assert_eq!(s.user_id, "936da01f-9abd-4d9d-80c7-02af85c822a8");
    assert_eq!(s.ttl_seconds, 2_592_000);
}

#[test]
fn session_ttl_is_cast_to_unsigned() {
    assert_eq!(session_ttl_seconds(30), 2_592_000);
    assert_eq!(session_ttl_seconds(0), 0);
    assert_eq!(session_ttl_seconds(-1), (-86_400i64) as u64);
}

#[test]
fn session_owner_rules() {
    let sub = Uuid::from_u128(USER).to_string();
    assert_eq!(session_owner(Some(sub.clone()), &sub).unwrap(), USER);
    // The cache may hold any text form that the uuid crate reads.
    let upper = sub.to_uppercase();
    assert_eq!(session_owner(Some(upper), &sub).unwrap(), USER);
    assert_eq!(
        unauthorized(session_owner(None, &sub)),
        "Refresh token has already been used or has expired."
    );
    assert_eq!(unauthorized(session_owner(Some("garbage".to_string()), &sub)), "Invalid refresh token.");
    let other = Uuid::from_u128(SESSION).to_string();
    assert_eq!(unauthorized(session_owner(Some(other), &sub)), "Invalid refresh token.");
    assert_eq!(unauthorized(session_owner(Some(sub.clone()), &sub.to_uppercase())), "Invalid refresh token.");
}

#[test]
fn an_issued_refresh_token_opens_its_session() {
    let issue = prepare_token_issue(USER, "student", NOW, 15, 30);
    assert_eq!(issue.access.token_type, "access");
    let jti = refresh_session_id(Some(issue.refresh)).unwrap();
    assert_eq!(session_key(&jti), issue.session.key);
    let sub = Uuid::from_u128(USER).to_string();
    assert_eq!(session_owner(Some(issue.session.user_id.clone()), &sub).unwrap(), USER);
    assert_eq!(issue.session.ttl_seconds, 30 * 86_400);
    assert_eq!(jti, Uuid::from_u128(issue.session_id).to_string());
}

#[test]
fn tokens_issued_now_carry_the_clock_time() {
    let before = Utc::now().timestamp();
    let (now, issue) = issue_tokens_now(USER, "student", 15, 30);
    let after = Utc::now().timestamp();
    assert!(before <= now && now <= after);
    let issue = issue.unwrap();
    assert_eq!(issue.access.iat, now);
    assert_eq!(issue.access.exp, now + 900);
    assert_eq!(issue.refresh.exp, now + 30 * 86_400);
    let (_, none) = issue_tokens_now(USER, "student", i64::MAX, 30);
    assert!(none.is_none());
    let (_, none) = issue_tokens_now(USER, "student", 15, 200_000_000);
    assert!(none.is_none());
}

#[test]
fn session_ids_are_random_version_four_ids() {
    let a = prepare_token_issue(USER, "student", NOW, 15, 30);
    let id = Uuid::from_u128(a.session_id);
    assert_eq!(id.get_version_num(), 4);
    assert_eq!(id.get_variant(), uuid::Variant::RFC4122);
    assert_ne!(a.session_id, USER);
    let (_, b) = issue_tokens_now(USER, "student", 15, 30);
    let b = b.unwrap();
    assert_eq!(Uuid::from_u128(b.session_id).get_version_num(), 4);
    assert_ne!(a.session_id, b.session_id);
}
