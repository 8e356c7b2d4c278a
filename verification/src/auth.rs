//! Authentication: request and response shapes, and the decisions that the
//! register, login and refresh endpoints and the bearer-token extractor
//! take between their database, cache and token-codec calls.

use vstd::prelude::*;

use crate::error::{app_error, AppError, ErrorKind, Failure};
use crate::ids::{hyphenated, parse_uuid, parsed_uuid, random_v4, uuid_text};
use crate::jwt::{
    access_claims, access_claims_view, access_token_expiry, clock_timestamp, expiry,
    new_refresh_claims, refresh_claims_view, refresh_token_expiry, timestamp_in_range, Claims,
    ClaimsView, MAX_TIMESTAMP, SECONDS_PER_DAY, SECONDS_PER_MINUTE,
};
use crate::password::{
    default_argon2id_prefix, hash_password, hashable, password_verifies, verify_password,
};
use crate::text::{same_text, strip_prefix};

verus! {

/// Body of a registration request.
#[derive(Debug)]
pub struct RegisterRequest {
    pub full_name: String,
    pub email: String,
    pub password: String,
    pub role: String,
}

/// Body of a login request.
#[derive(Debug)]
pub struct LoginRequest {
    pub email: String,
    pub password: String,
}

/// Body of a token refresh request.
#[derive(Debug)]
pub struct RefreshRequest {
    pub refresh_token: String,
}

/// A user as stored.
#[derive(Debug)]
pub struct UserRecord {
    pub id: u128,
    pub email: String,
    pub password_hash: String,
    pub full_name: String,
    pub role: String,
}

/// School name and grade level of a user; a teacher has no grade level.
#[derive(Debug)]
pub struct ProfileRecord {
    pub school_name: Option<String>,
    pub grade_level: Option<String>,
}

/// The user part of an authentication response.
#[derive(Debug)]
pub struct UserResponse {
    pub id: u128,
    pub full_name: String,
    pub email: String,
    pub role: String,
    pub school_name: Option<String>,
    pub grade_level: Option<String>,
}

/// What register, login and refresh all answer with.
#[derive(Debug)]
pub struct AuthResponse {
    pub access_token: String,
    pub refresh_token: String,
    pub user: UserResponse,
}

/// The authenticated caller of a request, taken from its access token.
#[derive(Clone, Debug)]
pub struct CurrentUser {
    pub user_id: u128,
    pub role: String,
}

/// The content of a `CurrentUser`.
pub struct Identity {
    pub user_id: u128,
    pub role: Seq<char>,
}

impl View for CurrentUser {
    type V = Identity;

    open spec fn view(&self) -> Identity {
        Identity { user_id: self.user_id, role: self.role@ }
    }
}

/// The content of a result: its value's view, or the error's.
pub open spec fn outcome<T: View>(r: Result<T, AppError>) -> Result<T::V, Failure> {
    match r {
        Ok(v) => Ok(v@),
        Err(e) => Err(e@),
    }
}

/// An `Unauthorized` rejection with the given message.
pub open spec fn unauthorized(message: Seq<char>) -> Failure {
    Failure { kind: ErrorKind::Unauthorized, message }
}

fn reject<T>(message: &str) -> (r: Result<T, AppError>)
    ensures
        r matches Err(e) && e@ == unauthorized(message@),
{
    Err(app_error(ErrorKind::Unauthorized, message))
}

/// The prefix of a bearer `Authorization` header.
pub open spec fn bearer_prefix() -> Seq<char> {
    "Bearer "@
}

/// The token of an `Authorization` header (absent when missing or not visible ASCII).
pub open spec fn bearer_outcome(header: Option<Seq<char>>) -> Result<Seq<char>, Failure> {
    match header {
        None => Err(unauthorized("Missing Authorization header."@)),
        Some(h) => if bearer_prefix().is_prefix_of(h) {
            Ok(h.skip(bearer_prefix().len() as int))
        } else {
            Err(unauthorized("Authorization header must use the Bearer scheme."@))
        },
    }
}

/// The token of a bearer `Authorization` header, or the rejection for a
/// missing header or another scheme.
pub fn bearer_token<'a>(header: Option<&'a str>) -> (r: Result<&'a str, AppError>)
    ensures
        outcome(r) == bearer_outcome(
            match header {
                Some(h) => Some(h@),
                None => None,
            },
        ),
{
    let h = match header {
        Some(h) => h,
        None => {
            return reject("Missing Authorization header.");
        },
    };
    match strip_prefix(h, "Bearer ") {
        Some(token) => Ok(token),
        None => reject("Authorization header must use the Bearer scheme."),
    }
}

/// The caller named by a decoded access token (`None`: the token did not
/// decode, verify or was expired).
pub open spec fn current_user_outcome(decoded: Option<ClaimsView>) -> Result<Identity, Failure> {
    match decoded {
        None => Err(unauthorized("Invalid or expired access token."@)),
        Some(c) => if c.token_type != "access"@ {
            Err(unauthorized("Invalid token type."@))
        } else {
            match parsed_uuid(c.sub) {
                None => Err(unauthorized("Invalid token subject."@)),
                Some(id) => Ok(Identity { user_id: id, role: c.role }),
            }
        },
    }
}

/// The view of an optional claims value.
pub open spec fn claims_of(decoded: Option<Claims>) -> Option<ClaimsView> {
    match decoded {
        Some(c) => Some(c@),
        None => None,
    }
}

impl CurrentUser {
    /// The caller of a request from its decoded access token.
    pub fn from_claims(decoded: Option<Claims>) -> (r: Result<CurrentUser, AppError>)
        ensures
            outcome(r) == current_user_outcome(claims_of(decoded)),
    {
        let claims = match decoded {
            Some(c) => c,
            None => {
                return reject("Invalid or expired access token.");
            },
        };
        if !same_text(claims.token_type.as_str(), "access") {
            return reject("Invalid token type.");
        }
        match parse_uuid(claims.sub.as_str()) {
            None => reject("Invalid token subject."),
            Some(user_id) => Ok(CurrentUser { user_id, role: claims.role }),
        }
    }
}

/// The refresh session named by a decoded refresh token.
pub open spec fn refresh_session_outcome(decoded: Option<ClaimsView>) -> Result<Seq<char>, Failure> {
    match decoded {
        None => Err(unauthorized("Invalid or expired refresh token."@)),
        Some(c) => if c.token_type != "refresh"@ {
            Err(unauthorized("Invalid token type."@))
        } else {
            match c.jti {
                None => Err(unauthorized("Invalid refresh token."@)),
                Some(j) => Ok(j),
            }
        },
    }
}

/// The session id (`jti`) of a decoded refresh token, or why it is refused.
pub fn refresh_session_id(decoded: Option<Claims>) -> (r: Result<String, AppError>)
    ensures
        outcome(r) == refresh_session_outcome(claims_of(decoded)),
{
    let claims = match decoded {
        Some(c) => c,
        None => {
            return reject("Invalid or expired refresh token.");
        },
    };
    if !same_text(claims.token_type.as_str(), "refresh") {
        return reject("Invalid token type.");
    }
    match claims.jti {
        None => reject("Invalid refresh token."),
        Some(j) => Ok(j),
    }
}

/// The cache key under which a refresh session is kept.
pub open spec fn session_key_of(jti: Seq<char>) -> Seq<char> {
    "refresh_session:"@ + jti
}

/// The cache key under which the refresh session `jti` is kept.
pub fn session_key(jti: &str) -> (k: String)
    ensures
        k@ == session_key_of(jti@),
{
    let mut k = "refresh_session:".to_owned();
    k.append(jti);
    k
}

/// Who the refresh session belongs to, from the user id the cache held
/// for it (`None`: no entry, it was used already or expired) and the
/// token's subject.
pub open spec fn session_owner_outcome(stored: Option<Seq<char>>, subject: Seq<char>) -> Result<u128, Failure> {
    match stored {
        None => Err(unauthorized("Refresh token has already been used or has expired."@)),
        Some(s) => match parsed_uuid(s) {
            None => Err(unauthorized("Invalid refresh token."@)),
            Some(id) => if hyphenated(id) != subject {
                Err(unauthorized("Invalid refresh token."@))
            } else {
                Ok(id)
            },
        },
    }
}

/// Who a refresh session belongs to; it must be the subject of the token
/// that names the session.
pub fn session_owner(stored: Option<String>, subject: &str) -> (r: Result<u128, AppError>)
    ensures
        outcome(r) == session_owner_outcome(
            match stored {
                Some(s) => Some(s@),
                None => None,
            },
            subject@,
        ),
{
    let stored = match stored {
        Some(s) => s,
        None => {
            return reject("Refresh token has already been used or has expired.");
        },
    };
    let user_id = match parse_uuid(stored.as_str()) {
        Some(id) => id,
        None => {
            return reject("Invalid refresh token.");
        },
    };
    let text = uuid_text(user_id);
    if !same_text(text.as_str(), subject) {
        return reject("Invalid refresh token.");
    }
    Ok(user_id)
}

/// The user that a refresh is for, if the account still exists.
pub fn existing_user(found: Option<UserRecord>) -> (r: Result<UserRecord, AppError>)
    ensures
        found is Some ==> r is Ok && r->Ok_0 == found->Some_0,
        found is None ==> (r matches Err(e) && e@ == unauthorized("User no longer exists."@)),
{
    match found {
        Some(u) => Ok(u),
        None => reject("User no longer exists."),
    }
}

/// The user a login is for: the account must exist and the password must
/// verify against its stored hash; both failures give the same answer.
pub fn check_login(found: Option<UserRecord>, password: &str) -> (r: Result<UserRecord, AppError>)
    ensures
        (found matches Some(u) && password_verifies(password@, u.password_hash@)) ==> (r is Ok
            && r->Ok_0 == found->Some_0),
        !(found matches Some(u) && password_verifies(password@, u.password_hash@)) ==> (r matches Err(
            e,
        ) && e@ == unauthorized("Incorrect email or password."@)),
{
    match found {
        None => reject("Incorrect email or password."),
        Some(u) => {
            if !verify_password(password, u.password_hash.as_str()) {
                reject("Incorrect email or password.")
            } else {
                Ok(u)
            }
        },
    }
}

/// The hash to store for a new account's password; a hashing failure is
/// an internal error.
pub fn registration_password_hash(password: &str) -> (r: Result<String, AppError>)
    ensures
        r is Ok <==> hashable(password@),
        r matches Ok(h) ==> password_verifies(password@, h@),
        r matches Ok(h) ==> default_argon2id_prefix().is_prefix_of(h@),
        r matches Err(e) ==> e@ == (Failure {
            kind: ErrorKind::Internal,
            message: "password hashing failed"@,
        }),
{
    match hash_password(password) {
        Ok(h) => Ok(h),
        Err(_) => Err(app_error(ErrorKind::Internal, "password hashing failed")),
    }
}

/// The SQLSTATE code of a unique-constraint violation.
pub open spec fn unique_violation_code() -> Seq<char> {
    "23505"@
}

/// Whether a database error code is a unique-constraint violation.
pub fn is_unique_violation(code: Option<&str>) -> (r: bool)
    ensures
        r == (code matches Some(c) && c@ == unique_violation_code()),
{
    match code {
        Some(c) => same_text(c, "23505"),
        None => false,
    }
}

/// The answer to a failed account insert with the given database error
/// code: a conflict for an e-mail address in use, `None` for any other
/// failure (a database error).
pub fn registration_conflict(code: Option<&str>) -> (r: Option<AppError>)
    ensures
        r is Some <==> (code matches Some(c) && c@ == unique_violation_code()),
        r matches Some(e) ==> e@ == (Failure {
            kind: ErrorKind::Conflict,
            message: "An account with this email already exists."@,
        }),
{
    if is_unique_violation(code) {
        Some(app_error(ErrorKind::Conflict, "An account with this email already exists."))
    } else {
        None
    }
}

/// Which profile table belongs to a role: teachers have their own, every
/// other role is a student.
#[derive(PartialEq, Eq, Structural, Clone, Copy, Debug)]
pub enum ProfileKind {
    Teacher,
    Student,
}

pub fn profile_kind(role: &str) -> (k: ProfileKind)
    ensures
        (k == ProfileKind::Teacher) == (role@ == "teacher"@),
{
    if same_text(role, "teacher") {
        ProfileKind::Teacher
    } else {
        ProfileKind::Student
    }
}

/// What is stored in the cache for a refresh session.
#[derive(Debug)]
pub struct RefreshSession {
    pub key: String,
    pub user_id: String,
    pub ttl_seconds: u64,
}

/// `v as u64` for an integer in `i64`'s range: negative values wrap around.
pub open spec fn as_u64_wrapping(v: int) -> int {
    if v >= 0 {
        v
    } else {
        v + 0x1_0000_0000_0000_0000
    }
}

/// How long the cache keeps a refresh session: the token's lifetime in
/// seconds, cast to `u64`.
pub fn session_ttl_seconds(ttl_days: i64) -> (s: u64)
    requires
        i64::MIN <= ttl_days * SECONDS_PER_DAY <= i64::MAX,
    ensures
        s as int == as_u64_wrapping(ttl_days * SECONDS_PER_DAY),
{
    let secs: i64 = ttl_days * 24 * 60 * 60;
    let s = secs as u64;
    proof {
        if secs < 0 {
            assert(secs < 0 ==> (secs as u64) as int == secs + 0x1_0000_0000_0000_0000) by (bit_vector);
        }
    }
    s
}

/// The cache entry for the refresh session `jti` of a user: keyed by the
/// session id, holding the user id, kept as long as the token lives.
pub fn refresh_session(jti: u128, user_id: u128, ttl_days: i64) -> (s: RefreshSession)
    requires
        i64::MIN <= ttl_days * SECONDS_PER_DAY <= i64::MAX,
    ensures
        s.key@ == session_key_of(hyphenated(jti)),
        s.user_id@ == hyphenated(user_id),
        parsed_uuid(s.user_id@) == Some(user_id),
        s.ttl_seconds as int == as_u64_wrapping(ttl_days * SECONDS_PER_DAY),
{
    let jti_text = uuid_text(jti);
    RefreshSession {
        key: session_key(jti_text.as_str()),
        user_id: uuid_text(user_id),
        ttl_seconds: session_ttl_seconds(ttl_days),
    }
}

/// Everything issued for one successful authentication: the claims of the
/// access and refresh tokens and the cache entry of the refresh session.
#[derive(Debug)]
pub struct TokenIssue {
    pub access: Claims,
    pub refresh: Claims,
    pub session_id: u128,
    pub session: RefreshSession,
}

/// `t` is what is issued at `now` to a user with the given role and token
/// lifetimes: access and refresh claims, and the refresh session (keyed by
/// the refresh token's session id) that the cache keeps for as long as the
/// refresh token lives.
pub open spec fn issued(
    t: TokenIssue,
    user_id: u128,
    role: Seq<char>,
    now: int,
    access_ttl_minutes: int,
    refresh_ttl_days: int,
) -> bool {
    &&& t.access@ == access_claims_view(user_id, role, now, access_ttl_minutes)
    &&& t.refresh@ == refresh_claims_view(user_id, role, now, refresh_ttl_days, t.session_id)
    &&& t.session.key@ == session_key_of(hyphenated(t.session_id))
    &&& t.session.user_id@ == hyphenated(user_id)
    &&& t.session.ttl_seconds as int == as_u64_wrapping(refresh_ttl_days * SECONDS_PER_DAY)
}

/// Prepares a fresh access and refresh token pair issued at `now` for a
/// user, with a random refresh session id, and the session's cache entry.
pub fn prepare_token_issue(
    user_id: u128,
    role: &str,
    now: i64,
    access_ttl_minutes: i64,
    refresh_ttl_days: i64,
) -> (t: TokenIssue)
    requires
        timestamp_in_range(now as int),
        expiry(now as int, access_ttl_minutes as int, SECONDS_PER_MINUTE as int) is Some,
        expiry(now as int, refresh_ttl_days as int, SECONDS_PER_DAY as int) is Some,
    ensures
        issued(t, user_id, role@, now as int, access_ttl_minutes as int, refresh_ttl_days as int),
        parsed_uuid(hyphenated(user_id)) == Some(user_id),
        random_v4(t.session_id),
        t.access.role@ == role@,
        t.refresh.role@ == role@,
        parsed_uuid(t.access@.sub) == Some(user_id),
        parsed_uuid(t.refresh@.sub) == Some(user_id),
        t.access.iat == now && t.refresh.iat == now,
        t.access.exp == now + access_ttl_minutes * 60,
        t.refresh.exp == now + refresh_ttl_days * 86400,
{
    let access = access_claims(user_id, role, now, access_ttl_minutes);
    let (refresh, session_id) = new_refresh_claims(user_id, role, now, refresh_ttl_days);
    let session = refresh_session(session_id, user_id, refresh_ttl_days);
    TokenIssue { access, refresh, session_id, session }
}

/// Issues tokens for a user at the current time (returned first). Where
/// either lifetime would carry the expiry out of the calendar's range
/// (building such a token panics), nothing is issued.
pub fn issue_tokens_now(
    user_id: u128,
    role: &str,
    access_ttl_minutes: i64,
    refresh_ttl_days: i64,
) -> (r: (i64, Option<TokenIssue>))
    ensures
        0 <= r.0 <= MAX_TIMESTAMP,
        r.1 is Some <==> (expiry(r.0 as int, access_ttl_minutes as int, SECONDS_PER_MINUTE as int)
            is Some && expiry(r.0 as int, refresh_ttl_days as int, SECONDS_PER_DAY as int) is Some),
        r.1 matches Some(t) ==> issued(
            t,
            user_id,
            role@,
            r.0 as int,
            access_ttl_minutes as int,
            refresh_ttl_days as int,
        ) && random_v4(t.session_id),
        r.1 is Some ==> parsed_uuid(hyphenated(user_id)) == Some(user_id),
        r.1 matches Some(t) ==> t.access.role@ == role@ && t.refresh.role@ == role@,
        r.1 matches Some(t) ==> parsed_uuid(t.access@.sub) == Some(user_id) && parsed_uuid(
            t.refresh@.sub,
        ) == Some(user_id),
        r.1 matches Some(t) ==> t.access.iat == r.0 && t.refresh.iat == r.0,
        r.1 matches Some(t) ==> t.access.exp == r.0 + access_ttl_minutes * 60 && t.refresh.exp
            == r.0 + refresh_ttl_days * 86400,
{
    let now = clock_timestamp();
    if access_token_expiry(now, access_ttl_minutes).is_none() || refresh_token_expiry(
        now,
        refresh_ttl_days,
    ).is_none() {
        return (now, None);
    }
    (now, Some(prepare_token_issue(user_id, role, now, access_ttl_minutes, refresh_ttl_days)))
}

/// The answer to a successful register, login or refresh.
pub fn auth_response(
    access_token: String,
    refresh_token: String,
    user_id: u128,
    full_name: &str,
    email: &str,
    role: &str,
    profile: ProfileRecord,
) -> (r: AuthResponse)
    ensures
        r.access_token == access_token,
        r.refresh_token == refresh_token,
        r.user.id == user_id,
        r.user.full_name@ == full_name@,
        r.user.email@ == email@,
        r.user.role@ == role@,
        r.user.school_name == profile.school_name,
        r.user.grade_level == profile.grade_level,
{
    AuthResponse {
        access_token,
        refresh_token,
        user: UserResponse {
            id: user_id,
            full_name: full_name.to_owned(),
            email: email.to_owned(),
            role: role.to_owned(),
            school_name: profile.school_name,
            grade_level: profile.grade_level,
        },
    }
}

/// A bearer header gives back exactly the token written after the scheme.
pub proof fn bearer_header_gives_its_token(token: Seq<char>)
    ensures
        bearer_outcome(Some(bearer_prefix() + token)) == Ok::<Seq<char>, Failure>(token),
{
    let h = bearer_prefix() + token;
    assert(bearer_prefix().is_prefix_of(h)) by {
        assert(bearer_prefix() =~= h.subrange(0, bearer_prefix().len() as int));
    }
    assert(h.skip(bearer_prefix().len() as int) =~= token);
}

/// A refresh token is never taken for an access token, and an access token
/// never opens a refresh session: each is refused as the wrong token type.
pub proof fn token_types_are_not_interchangeable(
    user_id: u128,
    role: Seq<char>,
    now: int,
    ttl: int,
    jti: u128,
)
    ensures
        current_user_outcome(Some(refresh_claims_view(user_id, role, now, ttl, jti)))
            == Err::<Identity, Failure>(unauthorized("Invalid token type."@)),
        refresh_session_outcome(Some(access_claims_view(user_id, role, now, ttl)))
            == Err::<Seq<char>, Failure>(unauthorized("Invalid token type."@)),
{
    reveal_strlit("access");
    reveal_strlit("refresh");
    assert("refresh"@ != "access"@) by {
        assert("refresh"@[0] != "access"@[0]);
    }
}

/// An access token issued for a user identifies that user, with the role
/// it was issued for. (`uuid_text` states that the uuid crate reads its own
/// text of an id back to the id, which is the premise here.)
pub proof fn access_token_identifies_its_user(user_id: u128, role: Seq<char>, now: int, ttl_minutes: int)
    requires
        parsed_uuid(hyphenated(user_id)) == Some(user_id),
    ensures
        current_user_outcome(Some(access_claims_view(user_id, role, now, ttl_minutes)))
            == Ok::<Identity, Failure>(Identity { user_id, role }),
{
}

/// A refresh token issued together with a refresh session opens exactly
/// that session: the session id it carries gives the cache key the session
/// is kept under, and the user id stored there is accepted as the token's
/// owner. (`prepare_token_issue` also states that the stored id text reads
/// back to the id, which is the premise here.)
pub proof fn issued_refresh_token_opens_its_session(
    t: TokenIssue,
    user_id: u128,
    role: Seq<char>,
    now: int,
    access_ttl_minutes: int,
    refresh_ttl_days: int,
)
    requires
        issued(t, user_id, role, now, access_ttl_minutes, refresh_ttl_days),
        parsed_uuid(hyphenated(user_id)) == Some(user_id),
    ensures
        refresh_session_outcome(Some(t.refresh@)) matches Ok(jti) && session_key_of(jti)
            == t.session.key@,
        session_owner_outcome(Some(t.session.user_id@), t.refresh@.sub) == Ok::<u128, Failure>(
            user_id,
        ),
{
}

/// What is issued for a user carries that user and the role it was issued
/// for in both tokens: an access token issued at `now` that lives
/// `access_ttl_minutes` minutes, a refresh token issued at `now` that lives
/// `refresh_ttl_days` days and names the session, and a cache entry for
/// that session that holds the same user and lives as long (in seconds, as
/// `u64`).
pub proof fn issued_tokens_carry_user_and_role(
    t: TokenIssue,
    user_id: u128,
    role: Seq<char>,
    now: int,
    access_ttl_minutes: int,
    refresh_ttl_days: int,
)
    requires
        issued(t, user_id, role, now, access_ttl_minutes, refresh_ttl_days),
    ensures
        t.access@.role == role,
        t.refresh@.role == role,
        t.access@.sub == hyphenated(user_id),
        t.refresh@.sub == hyphenated(user_id),
        t.session.user_id@ == hyphenated(user_id),
        t.access@.token_type == "access"@,
        t.refresh@.token_type == "refresh"@,
        t.access@.iat == now && t.refresh@.iat == now,
        t.access@.exp - now == access_ttl_minutes * 60,
        t.refresh@.exp - now == refresh_ttl_days * 86400,
        t.refresh@.jti == Some(hyphenated(t.session_id)),
        t.session.key@ == "refresh_session:"@ + hyphenated(t.session_id),
        t.session.ttl_seconds as int % 0x1_0000_0000_0000_0000 == (refresh_ttl_days * 86400)
            % 0x1_0000_0000_0000_0000,
{
}

} // verus!
