//! Bearer tokens: the claims a session token carries, and reading the
//! `Authorization` header of a request.
use vstd::prelude::*;
use crate::api::ApiError;
use crate::clock::{in_calendar_range, timestamp_plus_days, within_calendar_range};
use crate::text::{has_prefix, text_strip_prefix};

verus! {

/// Days a session token stays valid.
pub const TOKEN_LIFETIME_DAYS: i64 = 2;

/// The claims of a session token: the user it was issued to and when it expires.
#[derive(Debug, PartialEq, Eq)]
pub struct Claims {
    pub sub: String,
    pub exp: usize,
}

impl Claims {
    /// Whether claims can be issued at `now`: it and the expiry two days later lie in
    /// the calendar range.
    pub fn can_issue_at(now: i64) -> (can: bool)
        ensures can == (in_calendar_range(now as int) && in_calendar_range(now + 2 * 86400)),
    {
        within_calendar_range(now) && within_calendar_range(now + TOKEN_LIFETIME_DAYS * 86400)
    }

    /// Claims for `user_id`, issued at UTC timestamp `now`: they expire two days later.
    pub fn issue(user_id: String, now: i64) -> (claims: Claims)
        requires
            in_calendar_range(now as int),
            in_calendar_range(now + 2 * 86400),
        ensures
            claims.sub == user_id,
            claims.exp == (now + 2 * 86400) as usize,
    {
        let expires = timestamp_plus_days(now, TOKEN_LIFETIME_DAYS);
        Claims { sub: user_id, exp: expires as usize }
    }
}

/// The user a request is made for, as established from its token.
#[derive(Debug, PartialEq, Eq)]
pub struct Token {
    pub user_id: String,
}

/// The scheme word in front of a bearer token.
pub open spec fn bearer_prefix() -> Seq<char> {
    seq!['B', 'e', 'a', 'r', 'e', 'r', ' ']
}

fn bearer_str() -> (s: &'static str)
    ensures s@ == bearer_prefix(),
{
    proof { reveal_strlit("Bearer "); }
    let s = "Bearer ";
    assert(s@ =~= bearer_prefix());
    s
}

/// The token of an `Authorization` header: what follows `Bearer `. A missing
/// header, or one in another form, is refused as unauthorized.
pub fn bearer_token(header: Option<&str>) -> (token: Result<String, ApiError>)
    ensures
        match header {
            None => token == Err::<String, ApiError>(ApiError::Unauthorized),
            Some(h) => if has_prefix(h@, bearer_prefix()) {
                token matches Ok(t) && t@ == h@.subrange(7, h@.len() as int)
            } else {
                token == Err::<String, ApiError>(ApiError::Unauthorized)
            },
        },
{
    match header {
        None => Err(ApiError::Unauthorized),
        Some(h) => match text_strip_prefix(h, bearer_str()) {
            Some(t) => Ok(t),
            None => Err(ApiError::Unauthorized),
        },
    }
}

/// The user of a request whose token was (`Some`) or was not decoded and validated.
pub fn token_from_claims(decoded: Option<Claims>) -> (token: Result<Token, ApiError>)
    ensures
        match decoded {
            Some(c) => token matches Ok(t) && t.user_id == c.sub,
            None => token matches Err(e) && e == ApiError::Unauthorized,
        },
{
    match decoded {
        Some(c) => Ok(Token { user_id: c.sub }),
        None => Err(ApiError::Unauthorized),
    }
}

/// A header made of `Bearer ` and a token is read back as exactly that token.
pub proof fn law_bearer_round_trip(token: Seq<char>)
    ensures
        has_prefix(bearer_prefix() + token, bearer_prefix()),
        (bearer_prefix() + token).subrange(7, (bearer_prefix() + token).len() as int) == token,
{
    assert((bearer_prefix() + token).subrange(0, 7) =~= bearer_prefix());
    assert((bearer_prefix() + token).subrange(7, (bearer_prefix() + token).len() as int) =~= token);
}

} // verus!
