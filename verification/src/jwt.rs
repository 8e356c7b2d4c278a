//! Token claims: what access and refresh tokens say, when they expire, and
//! how a decoded token is judged.

use vstd::prelude::*;

use crate::ids::{hyphenated, new_random_id, parsed_uuid, random_v4, uuid_text};

verus! {

/// Earliest Unix timestamp that a UTC date-time can hold (January 1 of year -262143).
pub const MIN_TIMESTAMP: i64 = -8334601228800;

/// Latest Unix timestamp that a UTC date-time can hold (last second of year 262142).
pub const MAX_TIMESTAMP: i64 = 8210266876799;

/// Longest span, in whole seconds, that a time delta can hold (`i64::MAX` milliseconds).
pub const MAX_DELTA_SECONDS: i64 = 9223372036854775;

pub const SECONDS_PER_MINUTE: i64 = 60;

pub const SECONDS_PER_DAY: i64 = 86400;

/// The claims a token carries.
#[derive(Clone, Debug)]
pub struct Claims {
    /// Subject: the user's id.
    pub sub: String,
    /// "student" or "teacher".
    pub role: String,
    /// "access" or "refresh": a refresh token is never taken for an access token.
    pub token_type: String,
    pub iat: i64,
    pub exp: i64,
    /// Present only on refresh tokens: the id of the refresh session.
    pub jti: Option<String>,
}

/// The content of `Claims`.
pub struct ClaimsView {
    pub sub: Seq<char>,
    pub role: Seq<char>,
    pub token_type: Seq<char>,
    pub iat: int,
    pub exp: int,
    pub jti: Option<Seq<char>>,
}

impl View for Claims {
    type V = ClaimsView;

    open spec fn view(&self) -> ClaimsView {
        ClaimsView {
            sub: self.sub@,
            role: self.role@,
            token_type: self.token_type@,
            iat: self.iat as int,
            exp: self.exp as int,
            jti: match self.jti {
                Some(j) => Some(j@),
                None => None,
            },
        }
    }
}

/// An optional machine integer read as a mathematical one.
pub open spec fn widened(r: Option<i64>) -> Option<int> {
    match r {
        Some(t) => Some(t as int),
        None => None,
    }
}

/// A time that a UTC date-time can hold.
pub open spec fn timestamp_in_range(t: int) -> bool {
    MIN_TIMESTAMP <= t <= MAX_TIMESTAMP
}

/// The expiry `ttl` units of `unit` seconds after `now`, or `None` where the
/// time delta or the resulting date-time would leave the calendar's range
/// (there, building the token panics).
pub open spec fn expiry(now: int, ttl: int, unit: int) -> Option<int> {
    let secs = ttl * unit;
    if -MAX_DELTA_SECONDS <= secs <= MAX_DELTA_SECONDS && timestamp_in_range(now + secs) {
        Some(now + secs)
    } else {
        None
    }
}

fn expiry_after(now: i64, ttl: i64, unit: i64) -> (r: Option<i64>)
    requires
        timestamp_in_range(now as int),
        0 < unit <= SECONDS_PER_DAY,
    ensures
        widened(r) == expiry(now as int, ttl as int, unit as int),
{
    let secs = match ttl.checked_mul(unit) {
        Some(s) => s,
        None => {
            proof {
                if -MAX_DELTA_SECONDS <= ttl * unit <= MAX_DELTA_SECONDS {
                    assert(false);
                }
            }
            return None;
        },
    };
    if secs < -MAX_DELTA_SECONDS || secs > MAX_DELTA_SECONDS {
        return None;
    }
    let t = now + secs;
    if t < MIN_TIMESTAMP || t > MAX_TIMESTAMP {
        return None;
    }
    Some(t)
}

/// The current time read with `chrono::Utc::now().timestamp()`. The value
/// is the clock's; what is stated is what chrono's source shows of every
/// time it returns: it measures the system clock from the Unix epoch (and
/// panics on a clock set before 1970), and a `DateTime<Utc>` only holds
/// times up to `DateTime::<Utc>::MAX_UTC`.
#[verifier::external_body]
pub(crate) fn clock_timestamp() -> (t: i64)
    ensures
        0 <= t <= MAX_TIMESTAMP,
{
    chrono::Utc::now().timestamp()
}

/// When an access token issued at `now` with a lifetime of `ttl_minutes`
/// expires; `None` where issuing it would panic.
pub fn access_token_expiry(now: i64, ttl_minutes: i64) -> (r: Option<i64>)
    requires
        timestamp_in_range(now as int),
    ensures
        widened(r) == expiry(now as int, ttl_minutes as int, SECONDS_PER_MINUTE as int),
{
    expiry_after(now, ttl_minutes, SECONDS_PER_MINUTE)
}

/// When a refresh token issued at `now` with a lifetime of `ttl_days`
/// expires; `None` where issuing it would panic.
pub fn refresh_token_expiry(now: i64, ttl_days: i64) -> (r: Option<i64>)
    requires
        timestamp_in_range(now as int),
    ensures
        widened(r) == expiry(now as int, ttl_days as int, SECONDS_PER_DAY as int),
{
    expiry_after(now, ttl_days, SECONDS_PER_DAY)
}

/// The claims of an access token for a user.
pub open spec fn access_claims_view(user_id: u128, role: Seq<char>, now: int, ttl_minutes: int) -> ClaimsView {
    ClaimsView {
        sub: hyphenated(user_id),
        role,
        token_type: "access"@,
        iat: now,
        exp: now + ttl_minutes * SECONDS_PER_MINUTE,
        jti: None,
    }
}

/// The claims of a refresh token for a user, naming refresh session `jti`.
pub open spec fn refresh_claims_view(
    user_id: u128,
    role: Seq<char>,
    now: int,
    ttl_days: int,
    jti: u128,
) -> ClaimsView {
    ClaimsView {
        sub: hyphenated(user_id),
        role,
        token_type: "refresh"@,
        iat: now,
        exp: now + ttl_days * SECONDS_PER_DAY,
        jti: Some(hyphenated(jti)),
    }
}

/// The claims of an access token issued at `now` for a user.
pub fn access_claims(user_id: u128, role: &str, now: i64, ttl_minutes: i64) -> (c: Claims)
    requires
        timestamp_in_range(now as int),
        expiry(now as int, ttl_minutes as int, SECONDS_PER_MINUTE as int) is Some,
    ensures
        c@ == access_claims_view(user_id, role@, now as int, ttl_minutes as int),
        parsed_uuid(c@.sub) == Some(user_id),
        c.role@ == role@,
        c.iat == now,
        c.exp == now + ttl_minutes * 60,
{
    let exp = now + ttl_minutes * SECONDS_PER_MINUTE;
    Claims {
        sub: uuid_text(user_id),
        role: role.to_owned(),
        token_type: "access".to_owned(),
        iat: now,
        exp,
        jti: None,
    }
}

/// The claims of a refresh token issued at `now` for a user, for the
/// refresh session `jti`.
pub fn refresh_claims(user_id: u128, role: &str, now: i64, ttl_days: i64, jti: u128) -> (c: Claims)
    requires
        timestamp_in_range(now as int),
        expiry(now as int, ttl_days as int, SECONDS_PER_DAY as int) is Some,
    ensures
        c@ == refresh_claims_view(user_id, role@, now as int, ttl_days as int, jti),
        parsed_uuid(c@.sub) == Some(user_id),
        c.role@ == role@,
        c.iat == now,
        c.exp == now + ttl_days * 86400,
{
    let exp = now + ttl_days * SECONDS_PER_DAY;
    Claims {
        sub: uuid_text(user_id),
        role: role.to_owned(),
        token_type: "refresh".to_owned(),
        iat: now,
        exp,
        jti: Some(uuid_text(jti)),
    }
}

/// The claims of a refresh token issued at `now` for a user, with a fresh
/// random session id, which is returned beside them.
pub fn new_refresh_claims(user_id: u128, role: &str, now: i64, ttl_days: i64) -> (r: (Claims, u128))
    requires
        timestamp_in_range(now as int),
        expiry(now as int, ttl_days as int, SECONDS_PER_DAY as int) is Some,
    ensures
        r.0@ == refresh_claims_view(user_id, role@, now as int, ttl_days as int, r.1),
        parsed_uuid(r.0@.sub) == Some(user_id),
        random_v4(r.1),
        r.0.role@ == role@,
        r.0.iat == now,
        r.0.exp == now + ttl_days * 86400,
{
    let jti = new_random_id();
    (refresh_claims(user_id, role, now, ttl_days, jti), jti)
}

/// An expiry, where there is one, lies exactly `ttl` units of `unit`
/// seconds after the issue time, whatever the lifetime.
pub proof fn expiry_adds_the_lifetime(now: int, ttl: int, unit: int)
    ensures
        expiry(now, ttl, unit) matches Some(e) ==> e - now == ttl * unit,
        expiry(now, ttl, unit) is Some <==> (-MAX_DELTA_SECONDS <= ttl * unit <= MAX_DELTA_SECONDS
            && MIN_TIMESTAMP <= now + ttl * unit <= MAX_TIMESTAMP),
{
}

/// An access token names its user and carries the role it was issued for;
/// it is an access token, issued at `now`, that lives exactly
/// `ttl_minutes` minutes, and names no session.
pub proof fn access_claims_carry_the_request(user_id: u128, role: Seq<char>, now: int, ttl_minutes: int)
    ensures
        ({
            let c = access_claims_view(user_id, role, now, ttl_minutes);
            &&& c.sub == hyphenated(user_id)
            &&& c.role == role
            &&& c.token_type == "access"@
            &&& c.iat == now
            &&& c.exp - c.iat == ttl_minutes * 60
            &&& c.jti is None
        }),
{
}

/// A refresh token names its user and carries the role it was issued for;
/// it is a refresh token, issued at `now`, that lives exactly `ttl_days`
/// days, and names its session.
pub proof fn refresh_claims_carry_the_request(
    user_id: u128,
    role: Seq<char>,
    now: int,
    ttl_days: int,
    jti: u128,
)
    ensures
        ({
            let c = refresh_claims_view(user_id, role, now, ttl_days, jti);
            &&& c.sub == hyphenated(user_id)
            &&& c.role == role
            &&& c.token_type == "refresh"@
            &&& c.iat == now
            &&& c.exp - c.iat == ttl_days * 86400
            &&& c.jti == Some(hyphenated(jti))
        }),
{
}

} // verus!
