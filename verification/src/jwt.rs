//! Session tokens: what they claim, how long they live, and how a request's token is judged.

use vstd::prelude::*;
use crate::clock::{clock_reading, now_timestamp, EARLIEST_TIMESTAMP, LATEST_TIMESTAMP};

verus! {

/// How long a session token lives, in seconds: a day.
pub const TOKEN_LIFETIME_SECS: i64 = 86400;

/// What a session token claims: whose session it is and when it expires.
#[derive(Debug)]
pub struct Claims {
    pub exp: i64,
    pub user_uuid: String,
}

/// Why a request's token was turned down.
#[derive(Debug)]
pub struct CookieError {
    pub error_code: i64,
    pub message: String,
}

/// What a request carried as its session token: none, one that could not be
/// decoded with the server's secret, or one that decoded to these claims.
#[derive(Debug)]
pub enum CookieToken {
    Missing,
    Invalid,
    Decoded(Claims),
}

/// Whether a token expiring at `exp` is still live at time `now`.
pub open spec fn token_live(exp: i64, now: i64) -> bool {
    exp > now
}

/// The claims for a session of `user_uuid` opened at time `now`: they expire a day later.
pub fn claims_at(user_uuid: String, now: i64) -> (c: Claims)
    requires
        now + TOKEN_LIFETIME_SECS <= i64::MAX,
    ensures
        c.exp == now + TOKEN_LIFETIME_SECS,
        c.user_uuid@ == user_uuid@,
{
    Claims { exp: now + 60 * 60 * 24, user_uuid }
}

/// The claims for a session of `user_uuid` opened now, or `None` when the
/// clock reads so late that the expiry time does not fit in an `i64`. As the
/// clock never reads later than `LATEST_TIMESTAMP`, that does not happen: the
/// claims are always made, expiring a day after the time read.
pub fn new_claims(user_uuid: String) -> (c: Option<Claims>)
    ensures
        c matches Some(claims) && claims.user_uuid@ == user_uuid@ && EARLIEST_TIMESTAMP
            + TOKEN_LIFETIME_SECS <= claims.exp <= LATEST_TIMESTAMP + TOKEN_LIFETIME_SECS,
{
    let now = now_timestamp();
    if now > i64::MAX - TOKEN_LIFETIME_SECS {
        None
    } else {
        Some(claims_at(user_uuid, now))
    }
}

/// Whether the claims are still live at time `now`.
pub fn is_valid_token_at(claim: &Claims, now: i64) -> (r: bool)
    ensures
        r == token_live(claim.exp, now),
{
    claim.exp > now
}

/// Whether the claims are still live now. The clock reads some time between
/// `EARLIEST_TIMESTAMP` and `LATEST_TIMESTAMP`; the claims are live when they
/// expire after it.
pub fn is_valid_token(claim: &Claims) -> (r: bool)
    ensures
        r ==> claim.exp > EARLIEST_TIMESTAMP,
        !r ==> claim.exp <= LATEST_TIMESTAMP,
{
    let now = now_timestamp();
    is_valid_token_at(claim, now)
}

/// What a request's token comes to at time `now`: the session's user, or the reason it is refused.
pub open spec fn cookie_verdict(token: CookieToken, now: i64) -> Result<Seq<char>, Seq<char>> {
    match token {
        CookieToken::Missing => Err("Missing token"@),
        CookieToken::Invalid => Err("Invalid token"@),
        CookieToken::Decoded(claims) => if token_live(claims.exp, now) {
            Ok(claims.user_uuid@)
        } else {
            Err("Invalid or expired token"@)
        },
    }
}

/// Whether the result of checking a token is `verdict`: the user when the
/// token is accepted, a 401 with the reason when it is refused.
pub open spec fn matches_verdict(verdict: Result<Seq<char>, Seq<char>>, r: Result<String, CookieError>) -> bool {
    match verdict {
        Ok(user) => r matches Ok(u) && u@ == user,
        Err(reason) => r matches Err(e) && e.error_code == 401 && e.message@ == reason,
    }
}

/// Judges a request's token at time `now`: the session's user, or a 401 with the reason.
pub fn verify_cookie_at(token: CookieToken, now: i64) -> (r: Result<String, CookieError>)
    ensures
        match cookie_verdict(token, now) {
            Ok(user) => r matches Ok(u) && u@ == user,
            Err(reason) => r matches Err(e) && e.error_code == 401 && e.message@ == reason,
        },
{
    match token {
        CookieToken::Missing => Err(
            CookieError { error_code: 401, message: "Missing token".to_string() },
        ),
        CookieToken::Invalid => Err(
            CookieError { error_code: 401, message: "Invalid token".to_string() },
        ),
        CookieToken::Decoded(claims) => {
            if is_valid_token_at(&claims, now) {
                Ok(claims.user_uuid)
            } else {
                Err(CookieError { error_code: 401, message: "Invalid or expired token".to_string() })
            }
        },
    }
}

/// Judges a request's token now. The clock reads some time between
/// `EARLIEST_TIMESTAMP` and `LATEST_TIMESTAMP`: decoded claims expiring after
/// the latest time are always accepted, and those expiring at or before the
/// earliest time always refused.
pub fn verify_cookie(token: CookieToken) -> (r: Result<String, CookieError>)
    ensures
        token is Missing ==> (r matches Err(e) && e.error_code == 401 && e.message@
            == "Missing token"@),
        token is Invalid ==> (r matches Err(e) && e.error_code == 401 && e.message@
            == "Invalid token"@),
        token matches CookieToken::Decoded(claims) ==> match r {
            Ok(u) => u@ == claims.user_uuid@,
            Err(e) => e.error_code == 401 && e.message@ == "Invalid or expired token"@,
        },
        token matches CookieToken::Decoded(claims) && claims.exp > LATEST_TIMESTAMP ==> r is Ok,
        token matches CookieToken::Decoded(claims) && claims.exp <= EARLIEST_TIMESTAMP ==> r is Err,
        exists|t: i64| #[trigger] clock_reading(t) && matches_verdict(cookie_verdict(token, t), r),
{
    let now = now_timestamp();
    assert(clock_reading(now));
    let r = verify_cookie_at(token, now);
    assert(matches_verdict(cookie_verdict(token, now), r));
    r
}

// ---------------------------------------------------------------- laws

/// A session opened at time `t` is live at every moment of the following day,
/// and no longer from the moment it expires on.
pub proof fn lemma_session_lasts_a_day(t: i64, s: i64)
    requires
        t + TOKEN_LIFETIME_SECS <= i64::MAX,
    ensures
        token_live((t + TOKEN_LIFETIME_SECS) as i64, s) <==> s < t + TOKEN_LIFETIME_SECS,
{
}

} // verus!
